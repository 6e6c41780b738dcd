//! Identifiers of mesh endpoints and links, and their hexadecimal text form.

use vstd::prelude::*;
use vstd::std_specs::cmp::PartialEqSpecImpl;

verus! {

/// Number of bytes in an identifier.
pub const ID_LEN: usize = 16;

/// Number of characters of the text form that are read.
pub const ID_HEX_LEN: usize = 32;

/// An opaque 16-byte value that names a mesh endpoint or a link.
#[derive(Clone, Copy, Debug, Eq, Hash)]
pub struct Identifier {
    pub bytes: [u8; 16],
}

/// Identifier of a mesh endpoint (a peer or the local endpoint).
pub type DestinationId = Identifier;

/// Identifier of a link.
pub type LinkId = Identifier;

impl View for Identifier {
    type V = Seq<u8>;

    open spec fn view(&self) -> Seq<u8> {
        self.bytes@
    }
}

impl Identifier {
    /// Wraps sixteen bytes.
    pub fn new(bytes: [u8; 16]) -> (id: Identifier)
        ensures
            id@ == bytes@,
            id.bytes == bytes,
    {
        Identifier { bytes }
    }

    /// True exactly when both identifiers hold the same bytes.
    pub fn same(&self, other: &Identifier) -> (r: bool)
        ensures
            r == (self@ == other@),
            r == (*self == *other),
    {
        let mut i: usize = 0;
        while i < 16
            invariant
                i <= 16,
                forall|k: int| 0 <= k < i ==> self.bytes[k] == other.bytes[k],
            decreases 16 - i,
        {
            if self.bytes[i] != other.bytes[i] {
                return false;
            }
            i += 1;
        }
        proof {
            assert(self.bytes@ =~= other.bytes@);
            assert(self.bytes =~= other.bytes);
        }
        true
    }
}

impl PartialEq for Identifier {
    fn eq(&self, other: &Identifier) -> (r: bool) {
        self.same(other)
    }
}

impl PartialEqSpecImpl for Identifier {
    open spec fn obeys_eq_spec() -> bool {
        true
    }

    open spec fn eq_spec(&self, other: &Identifier) -> bool {
        *self == *other
    }
}

/// True for the characters `0`-`9`, `a`-`f` and `A`-`F`.
pub open spec fn is_hex_digit(c: char) -> bool {
    ('0' <= c && c <= '9') || ('a' <= c && c <= 'f') || ('A' <= c && c <= 'F')
}

/// The number that a hexadecimal digit stands for.
pub open spec fn hex_digit_value(c: char) -> int {
    if '0' <= c && c <= '9' {
        c as int - '0' as int
    } else if 'a' <= c && c <= 'f' {
        c as int - 'a' as int + 10
    } else {
        c as int - 'A' as int + 10
    }
}

/// True when a text starts with the 32 hexadecimal digits of an identifier.
pub open spec fn is_hex_identifier(s: Seq<char>) -> bool {
    s.len() >= 32 && forall|i: int| 0 <= i < 32 ==> is_hex_digit(#[trigger] s[i])
}

/// The byte that the digit pair number `i` of a text spells.
pub open spec fn hex_byte(s: Seq<char>, i: int) -> u8 {
    (16 * hex_digit_value(s[2 * i]) + hex_digit_value(s[2 * i + 1])) as u8
}

/// The 16 bytes that the first 32 digits of a text spell, two digits a byte,
/// the high digit first.
pub open spec fn hex_bytes(s: Seq<char>) -> Seq<u8> {
    Seq::new(16, |i: int| hex_byte(s, i))
}

/// The value of one hexadecimal digit, `None` for any other character.
pub fn hex_digit(c: char) -> (r: Option<u8>)
    ensures
        r is Some <==> is_hex_digit(c),
        r matches Some(v) ==> v == hex_digit_value(c) && v < 16,
{
    let n: u32 = c as u32;
    if 48 <= n && n <= 57 {
        Some((n - 48) as u8)
    } else if 97 <= n && n <= 102 {
        Some((n - 97 + 10) as u8)
    } else if 65 <= n && n <= 70 {
        Some((n - 65 + 10) as u8)
    } else {
        None
    }
}

impl Identifier {
    /// Reads an identifier from its text form: 32 hexadecimal digits, of
    /// either case; what follows them is not read. `None` for a text that is
    /// shorter or holds another character among the first 32.
    pub fn from_hex(text: &str) -> (r: Option<Identifier>)
        ensures
            r is Some <==> is_hex_identifier(text@),
            r matches Some(id) ==> id@ == hex_bytes(text@),
    {
        let n: usize = text.unicode_len();
        if n < 32 {
            return None;
        }
        let mut bytes: [u8; 16] = [0u8; 16];
        let mut i: usize = 0;
        while i < 16
            invariant
                i <= 16,
                text@.len() >= 32,
                forall|k: int| 0 <= k < 2 * i ==> is_hex_digit(#[trigger] text@[k]),
                forall|k: int| 0 <= k < i ==> #[trigger] bytes[k] == hex_byte(text@, k),
            decreases 16 - i,
        {
            let hi = hex_digit(text.get_char(2 * i));
            let lo = hex_digit(text.get_char(2 * i + 1));
            match (hi, lo) {
                (Some(h), Some(l)) => {
                    bytes[i] = h * 16 + l;
                },
                _ => {
                    return None;
                },
            }
            i += 1;
        }
        let id = Identifier { bytes };
        proof {
            assert(id@ =~= hex_bytes(text@));
        }
        Some(id)
    }
}

} // verus!
