//! The delivery contract between the poller and the UI consumer.
//!
//! A single-producer/single-consumer handoff of snapshots, modelled as a
//! queue plus a flag saying whether the consumer is still attached. Sending
//! appends at the tail; receiving takes from the head; so delivery order is
//! exactly send order. Once the consumer is gone, every further send fails
//! and changes nothing — the terminal condition the poller stops on.

use vstd::prelude::*;

use crate::snapshot::{MonitorView, Snapshot};

verus! {

/// The consumer side of the channel is gone; nothing further can be sent.
#[derive(Debug, Clone, PartialEq)]
pub struct ChannelClosedError;

/// A single-producer/single-consumer queue of snapshots with an attached
/// consumer that may disconnect.
pub struct SnapshotChannel {
    pub queue: Vec<Snapshot>,
    pub connected: bool,
}

impl SnapshotChannel {
    /// The snapshots sent but not yet received, oldest first.
    pub open spec fn contents(&self) -> Seq<Seq<MonitorView>> {
        self.queue@.map_values(|s: Snapshot| s@)
    }

    /// Whether the consumer is still attached.
    pub open spec fn connected(&self) -> bool {
        self.connected
    }

    /// A fresh channel: empty, with the consumer attached.
    pub fn new() -> (c: SnapshotChannel)
        ensures
            c.contents() == Seq::<Seq<MonitorView>>::empty(),
            c.connected(),
    {
        let c = SnapshotChannel { queue: Vec::new(), connected: true };
        proof {
            assert(c.contents() =~= Seq::<Seq<MonitorView>>::empty());
        }
        c
    }

    /// How many snapshots wait in the channel.
    pub fn len(&self) -> (n: usize)
        ensures
            n == self.contents().len(),
    {
        self.queue.len()
    }

    /// Whether the consumer is still attached.
    pub fn is_connected(&self) -> (b: bool)
        ensures
            b == self.connected(),
    {
        self.connected
    }

    /// Hands one snapshot to the consumer side.
    ///
    /// While the consumer is attached the snapshot is appended at the tail
    /// and nothing is ever dropped; once the consumer is gone the send
    /// fails and the channel is left exactly as it was.
    pub fn send(&mut self, snapshot: Snapshot) -> (r: Result<(), ChannelClosedError>)
        ensures
            old(self).connected() ==> r is Ok && final(self).contents() == old(
                self,
            ).contents().push(snapshot@),
            !old(self).connected() ==> r is Err && final(self).contents() == old(self).contents(),
            final(self).connected() == old(self).connected(),
    {
        if self.connected {
            let ghost before = self.contents();
            self.queue.push(snapshot);
            proof {
                assert(self.contents() =~= before.push(snapshot@));
            }
            Ok(())
        } else {
            Err(ChannelClosedError)
        }
    }

    /// Takes the oldest waiting snapshot, if any.
    pub fn recv(&mut self) -> (r: Option<Snapshot>)
        ensures
            old(self).contents().len() > 0 ==> (r matches Some(s) && s@ == old(
                self,
            ).contents().first() && final(self).contents() == old(self).contents().drop_first()),
            old(self).contents().len() == 0 ==> r is None && final(self).contents() == old(
                self,
            ).contents(),
            final(self).connected() == old(self).connected(),
    {
        if self.queue.len() > 0 {
            let ghost before = self.contents();
            let s = self.queue.remove(0);
            proof {
                assert(self.contents() =~= before.drop_first());
            }
            Some(s)
        } else {
            None
        }
    }

    /// The consumer detaches; snapshots already queued stay readable, but
    /// every later send fails.
    pub fn close(&mut self)
        ensures
            !final(self).connected(),
            final(self).contents() == old(self).contents(),
    {
        self.connected = false;
    }
}

/// The queue a producer leaves behind after sending each element of `sent`
/// in order, mirroring the `ensures` of [`SnapshotChannel::send`].
pub open spec fn after_sends(
    start: Seq<Seq<MonitorView>>,
    sent: Seq<Seq<MonitorView>>,
) -> Seq<Seq<MonitorView>>
    decreases sent.len(),
{
    if sent.len() == 0 {
        start
    } else {
        after_sends(start, sent.drop_last()).push(sent.last())
    }
}

/// FIFO delivery: a producer that sends the snapshots `sent`, in order,
/// into an empty connected channel leaves the queue holding exactly `sent`;
/// and since [`SnapshotChannel::recv`] always takes the head, the consumer
/// that has taken `k` snapshots receives `sent[k]` next. Snapshots arrive
/// in the order they were sent, for any number of cycles.
pub proof fn lemma_fifo_delivery(sent: Seq<Seq<MonitorView>>, k: int)
    requires
        0 <= k < sent.len(),
    ensures
        after_sends(Seq::<Seq<MonitorView>>::empty(), sent) == sent,
        after_sends(Seq::<Seq<MonitorView>>::empty(), sent).skip(k).first() == sent[k],
{
    lemma_after_sends_appends(Seq::<Seq<MonitorView>>::empty(), sent);
    assert(Seq::<Seq<MonitorView>>::empty() + sent =~= sent);
    assert(sent.skip(k).first() == sent[k]);
}

/// Sending appends: after sending each element of `sent` in order, the
/// queue is the old queue followed by `sent`.
pub proof fn lemma_after_sends_appends(start: Seq<Seq<MonitorView>>, sent: Seq<Seq<MonitorView>>)
    ensures
        after_sends(start, sent) == start + sent,
    decreases sent.len(),
{
    if sent.len() == 0 {
        assert(after_sends(start, sent) =~= start + sent);
    } else {
        lemma_after_sends_appends(start, sent.drop_last());
        assert(after_sends(start, sent) =~= start + sent);
    }
}

} // verus!
