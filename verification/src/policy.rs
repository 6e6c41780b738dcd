//! What happens when something goes wrong: which anomalies end the process
//! or a loop, and which are contained where they occur.

use vstd::prelude::*;
use crate::router::DropReason;

verus! {

/// The kinds of anomaly that the client meets.
#[derive(Clone, Copy, Debug, PartialEq, Eq, Structural)]
pub enum Anomaly {
    /// A malformed peer identifier or two endpoints on one address.
    Configuration,
    /// The tunnel device could not be created, addressed or brought up.
    Device,
    /// Reading from or writing to the device failed while running.
    RuntimeIo,
    /// A packet for an unknown address or for a peer without a usable link.
    RoutingMiss,
    /// A packet from the device without a readable IP header.
    Parse,
    /// Link events were lost because they were consumed too slowly.
    LaggedStream,
}

/// How an anomaly is handled.
#[derive(Clone, Copy, Debug, PartialEq, Eq, Structural)]
pub enum Handling {
    /// The process ends before any loop runs.
    FatalAtStartup,
    /// The loop ends, and with it the whole group of loops.
    FatalToLoop,
    /// The packet or event is dropped and the loop goes on.
    Recovered,
}

/// The handling of each kind of anomaly.
pub open spec fn handling_of(anomaly: Anomaly) -> Handling {
    match anomaly {
        Anomaly::Configuration => Handling::FatalAtStartup,
        Anomaly::Device => Handling::FatalAtStartup,
        Anomaly::RuntimeIo => Handling::FatalToLoop,
        Anomaly::RoutingMiss => Handling::Recovered,
        Anomaly::Parse => Handling::Recovered,
        Anomaly::LaggedStream => Handling::Recovered,
    }
}

/// The anomaly that a dropped packet stands for.
pub open spec fn anomaly_of(reason: DropReason) -> Anomaly {
    match reason {
        DropReason::Unparsed => Anomaly::Parse,
        DropReason::Unregistered => Anomaly::RoutingMiss,
        DropReason::NoLink => Anomaly::RoutingMiss,
    }
}

/// How an anomaly is handled.
pub fn handling(anomaly: Anomaly) -> (h: Handling)
    ensures
        h == handling_of(anomaly),
{
    match anomaly {
        Anomaly::Configuration | Anomaly::Device => Handling::FatalAtStartup,
        Anomaly::RuntimeIo => Handling::FatalToLoop,
        Anomaly::RoutingMiss | Anomaly::Parse | Anomaly::LaggedStream => Handling::Recovered,
    }
}

/// The anomaly that a dropped packet stands for.
pub fn drop_anomaly(reason: DropReason) -> (a: Anomaly)
    ensures
        a == anomaly_of(reason),
        handling_of(a) == Handling::Recovered,
{
    match reason {
        DropReason::Unparsed => Anomaly::Parse,
        DropReason::Unregistered | DropReason::NoLink => Anomaly::RoutingMiss,
    }
}

/// Whether a loop goes on after an anomaly.
pub fn loop_continues(anomaly: Anomaly) -> (r: bool)
    ensures
        r == (handling_of(anomaly) == Handling::Recovered),
{
    match handling(anomaly) {
        Handling::Recovered => true,
        _ => false,
    }
}

/// No dropped packet ends a loop: whatever the reason, the anomaly is
/// contained.
pub proof fn lemma_drops_are_recovered(reason: DropReason)
    ensures
        handling_of(anomaly_of(reason)) == Handling::Recovered,
{
}

} // verus!
