//! One cycle of the polling loop, and the decision it ends with.
//!
//! The loop itself — sleep an interval, run a cycle, repeat — belongs to
//! the caller's execution context; what is verified here is everything a
//! cycle decides: a successful probe becomes a snapshot and is sent, a
//! failed enumeration only skips the cycle, and a send that finds the
//! consumer gone is terminal.

use vstd::prelude::*;

use crate::channel::SnapshotChannel;
use crate::reader::{
    build_snapshot, probe_chips, probes_view, snapshot_of, ChipProbe, ChipProbeView,
    EnumerationError,
};

verus! {

/// What the polling loop should do after a cycle.
#[derive(Debug, Clone, Copy, PartialEq, Eq, Structural)]
pub enum PollerStatus {
    /// Keep polling: the cycle either delivered a snapshot or skipped.
    Continue,
    /// Stop for good: the consumer is gone, no further work is useful.
    Stopped,
}

/// Decides one poll cycle from the probe's outcome.
///
/// A successful probe is built into a snapshot and sent; failure to
/// enumerate skips the cycle and changes nothing; a send that finds the
/// consumer gone stops the loop, also changing nothing. The poller never
/// stops while the consumer is attached.
pub fn poll_step(
    channel: &mut SnapshotChannel,
    probe: Result<Vec<ChipProbe>, EnumerationError>,
) -> (r: PollerStatus)
    ensures
        final(channel).connected() == old(channel).connected(),
        probe is Err ==> r == PollerStatus::Continue
            && final(channel).contents() == old(channel).contents(),
        probe matches Ok(chips) ==> (old(channel).connected() ==> r == PollerStatus::Continue
            && final(channel).contents() == old(channel).contents().push(
            snapshot_of(probes_view(chips@)),
        )),
        probe is Ok && !old(channel).connected() ==> r == PollerStatus::Stopped
            && final(channel).contents() == old(channel).contents(),
{
    match probe {
        Ok(chips) => {
            let snapshot = build_snapshot(&chips);
            match channel.send(snapshot) {
                Ok(()) => PollerStatus::Continue,
                Err(_closed) => PollerStatus::Stopped,
            }
        },
        Err(_error) => PollerStatus::Continue,
    }
}

/// Runs one complete poll cycle: probe the hardware, and decide.
///
/// Whatever the hardware returned: the consumer's attachment is untouched;
/// while the consumer is attached the loop always continues, and the queue
/// either grows by exactly the snapshot of some probe outcome or (when
/// enumeration failed) stays as it was; the cycle reports `Stopped` only
/// when the consumer was already gone, and then delivers nothing.
pub fn poll_cycle(channel: &mut SnapshotChannel) -> (r: PollerStatus)
    ensures
        final(channel).connected() == old(channel).connected(),
        old(channel).connected() ==> r == PollerStatus::Continue,
        old(channel).connected() ==> final(channel).contents() == old(channel).contents() || (
        exists|chips: Seq<ChipProbeView>|
            final(channel).contents() == old(channel).contents().push(snapshot_of(chips))),
        r == PollerStatus::Stopped ==> !old(channel).connected(),
        !old(channel).connected() ==> final(channel).contents() == old(channel).contents(),
{
    let probe = probe_chips();
    let ghost outcome = probe;
    let r = poll_step(channel, probe);
    proof {
        if outcome is Ok && old(channel).connected() {
            let chips = outcome->Ok_0;
            assert(final(channel).contents() == old(channel).contents().push(
                snapshot_of(probes_view(chips@)),
            ));
        }
    }
    r
}

} // verus!
