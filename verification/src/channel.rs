use crate::message::{Message, MessageView};
use vstd::prelude::*;

verus! {

/// Most messages a live subscriber may have pending.  When a slow subscriber
/// reaches this bound the channel drops its oldest pending message
/// (oldest-drop backpressure, the same policy for the whole channel);
/// publishing never blocks on a reader.
pub const CHANNEL_CAP: usize = 64;

/// How long a pending queue of length `n` is right after one more delivery:
/// one longer, until the `CHANNEL_CAP` bound makes the oldest message fall
/// out instead.
pub open spec fn grown_len(n: int) -> int {
    if n < CHANNEL_CAP as int {
        n + 1
    } else {
        CHANNEL_CAP as int
    }
}

/// One subscriber cursor: the messages published since the cursor's position
/// that this subscriber has not yet received.  `start` is the position in the
/// global publish log of the first pending message.
pub struct Subscriber {
    pub queue: Vec<Message>,
    pub live: bool,
    pub start: Ghost<int>,
}

impl Subscriber {
    /// The messages this cursor still has to deliver, as mathematical values.
    pub open spec fn pending(self) -> Seq<MessageView> {
        self.queue@.map_values(|m: Message| m@)
    }

    /// A live cursor's pending messages are exactly the tail of the publish
    /// log from its `start` position, and never more than `CHANNEL_CAP`.
    pub open spec fn wf_in(self, log: Seq<MessageView>) -> bool {
        self.live ==> {
            &&& 0 <= self.start@ <= log.len()
            &&& self.pending() == log.subrange(self.start@, log.len() as int)
            &&& self.queue@.len() <= CHANNEL_CAP
        }
    }
}

/// Fan-out broadcast primitive: one append-only publish log (kept as a ghost
/// history) and a set of independent subscriber cursors.  Every publish is
/// delivered to every live cursor; each cursor sees messages in global
/// publish order.
pub struct Channel {
    pub subs: Vec<Subscriber>,
    pub log: Ghost<Seq<MessageView>>,
}

impl Channel {
    /// The global publish log so far, in publish order.
    pub open spec fn log_view(self) -> Seq<MessageView> {
        self.log@
    }

    /// How many cursors (live or dead) have been handed out.
    pub open spec fn sub_count(self) -> int {
        self.subs@.len() as int
    }

    /// Whether `id` names a cursor that is still subscribed.
    pub open spec fn is_live(self, id: int) -> bool {
        0 <= id < self.subs@.len() && self.subs@[id].live
    }

    /// The pending (published, not yet received) messages of cursor `id`.
    pub open spec fn pending(self, id: int) -> Seq<MessageView> {
        self.subs@[id].pending()
    }

    /// The position in the publish log of cursor `id`'s next message.
    pub open spec fn cursor_pos(self, id: int) -> int {
        self.subs@[id].start@
    }

    pub open spec fn wf(self) -> bool {
        forall|i: int|
            0 <= i < self.subs@.len() ==> (#[trigger] self.subs@[i]).wf_in(self.log@)
    }

    /// Live cursors keep their identity and liveness; dead ones stay whatever
    /// they were.  Used by operations that must not disturb other sessions.
    pub open spec fn same_subscribers(pre: Channel, post: Channel) -> bool {
        &&& post.subs@.len() == pre.subs@.len()
        &&& forall|i: int|
            0 <= i < pre.subs@.len() ==> (#[trigger] post.subs@[i]).live == pre.subs@[i].live
    }

    pub fn new() -> (c: Channel)
        ensures
            c.wf(),
            c.log_view() == Seq::<MessageView>::empty(),
            c.sub_count() == 0,
    {
        Channel { subs: Vec::new(), log: Ghost(Seq::empty()) }
    }

    /// A new cursor positioned at "now": it will receive exactly the messages
    /// published after this call.  Never fails.
    pub fn subscribe(&mut self) -> (id: usize)
        requires
            old(self).wf(),
        ensures
            final(self).wf(),
            final(self).log_view() == old(self).log_view(),
            final(self).sub_count() == old(self).sub_count() + 1,
            id == old(self).sub_count(),
            final(self).is_live(id as int),
            final(self).pending(id as int) == Seq::<MessageView>::empty(),
            final(self).cursor_pos(id as int) == old(self).log_view().len(),
            forall|i: int|
                0 <= i < old(self).subs@.len() ==> final(self).subs@[i] == #[trigger] old(self).subs@[i],
    {
        let id = self.subs.len();
        let sub = Subscriber { queue: Vec::new(), live: true, start: Ghost(self.log@.len() as int) };
        assert(sub.pending() =~= Seq::<MessageView>::empty());
        assert(sub.pending() =~= self.log@.subrange(self.log@.len() as int, self.log@.len() as int));
        self.subs.push(sub);
        id
    }

    /// Closes cursor `id` and discards its undelivered backlog; the cursor
    /// never again costs the channel anything.  Other cursors are untouched.
    pub fn unsubscribe(&mut self, id: usize)
        requires
            old(self).wf(),
            id < old(self).sub_count(),
        ensures
            final(self).wf(),
            final(self).log_view() == old(self).log_view(),
            final(self).sub_count() == old(self).sub_count(),
            !final(self).is_live(id as int),
            final(self).pending(id as int) == Seq::<MessageView>::empty(),
            forall|i: int|
                0 <= i < old(self).subs@.len() && i != id ==> final(self).subs@[i] == #[trigger] old(self).subs@[i],
    {
        let sub = &mut self.subs[id];
        sub.live = false;
        sub.queue = Vec::new();
        assert(sub.pending() =~= Seq::<MessageView>::empty());
    }

    /// Publishes `m`: appends it to the log and to every live cursor's
    /// pending queue, dropping that cursor's oldest pending message if it is
    /// already at `CHANNEL_CAP` (oldest-drop backpressure).  Publish order
    /// seen by each cursor equals global publish order, and a publisher never
    /// waits for any reader.
    pub fn publish(&mut self, m: Message)
        requires
            old(self).wf(),
        ensures
            final(self).wf(),
            final(self).log_view() == old(self).log_view().push(m@),
            Channel::same_subscribers(*old(self), *final(self)),
            forall|i: int|
                old(self).is_live(i) ==> final(self).pending(i).len() >= 1 && final(self).pending(i).last() == m@,
            forall|i: int|
                old(self).is_live(i) ==> #[trigger] final(self).pending(i).len() == grown_len(
                    old(self).pending(i).len() as int,
                ),
            forall|i: int|
                0 <= i < old(self).subs@.len() && !old(self).subs@[i].live ==> final(self).subs@[i] == #[trigger] old(self).subs@[i],
    {
        let ghost old_log = self.log@;
        let ghost new_log = self.log@.push(m@);
        let n = self.subs.len();
        let mut i: usize = 0;
        while i < n
            invariant
                n == self.subs@.len(),
                n == old(self).subs@.len(),
                i <= n,
                self.log@ == old_log,
                old_log == old(self).log@,
                new_log == old_log.push(m@),
                forall|k: int|
                    0 <= k < n ==> (#[trigger] self.subs@[k]).live == old(self).subs@[k].live,
                forall|k: int|
                    i <= k < n ==> #[trigger] self.subs@[k] == old(self).subs@[k],
                forall|k: int| 0 <= k < i ==> (#[trigger] self.subs@[k]).wf_in(new_log),
                forall|k: int|
                    0 <= k < i && old(self).subs@[k].live ==> (#[trigger] self.subs@[k]).pending().len()
                        >= 1 && self.subs@[k].pending().last() == m@,
                forall|k: int|
                    0 <= k < i && old(self).subs@[k].live ==> (#[trigger] self.subs@[k]).pending().len()
                        == grown_len(old(self).subs@[k].pending().len() as int),
                forall|k: int|
                    0 <= k < i && !old(self).subs@[k].live ==> #[trigger] self.subs@[k] == old(self).subs@[k],
                old(self).wf(),
            decreases n - i,
        {
            let copy = m.duplicate();
            let ghost pre_sub = self.subs@[i as int];
            proof {
                assert(pre_sub == old(self).subs@[i as int]);
                assert(old(self).subs@[i as int].wf_in(old_log));
            }
            let sub = &mut self.subs[i];
            if sub.live {
                sub.queue.push(copy);
                assert(sub.pending() =~= pre_sub.pending().push(m@));
                if sub.queue.len() > CHANNEL_CAP {
                    sub.queue.remove(0);
                    proof {
                        sub.start@ = sub.start@ + 1;
                    }
                    assert(sub.pending() =~= pre_sub.pending().push(m@).drop_first());
                }
                assert(sub.wf_in(new_log)) by {
                    assert(pre_sub.wf_in(old_log));
                    assert(pre_sub.pending() == old_log.subrange(pre_sub.start@, old_log.len() as int));
                    assert(sub.pending() =~= new_log.subrange(sub.start@, new_log.len() as int));
                }
            }
            i += 1;
        }
        proof {
            self.log@ = new_log;
        }
    }

    /// Takes the oldest pending message of live cursor `id`, if any.  The
    /// message received is always the one at the cursor's position in the
    /// global log, so each subscriber receives the log in publish order.
    pub fn recv(&mut self, id: usize) -> (r: Option<Message>)
        requires
            old(self).wf(),
            old(self).is_live(id as int),
        ensures
            final(self).wf(),
            final(self).log_view() == old(self).log_view(),
            Channel::same_subscribers(*old(self), *final(self)),
            forall|i: int|
                0 <= i < old(self).subs@.len() && i != id ==> final(self).subs@[i] == #[trigger] old(self).subs@[i],
            old(self).pending(id as int).len() == 0 ==> r is None && final(self).subs@[id as int]
                == old(self).subs@[id as int],
            old(self).pending(id as int).len() > 0 ==> {
                &&& r is Some
                &&& r->Some_0@ == old(self).pending(id as int)[0]
                &&& r->Some_0@ == old(self).log_view()[old(self).cursor_pos(id as int)]
                &&& final(self).pending(id as int) == old(self).pending(id as int).drop_first()
                &&& final(self).cursor_pos(id as int) == old(self).cursor_pos(id as int) + 1
            },
    {
        let ghost pre_sub = self.subs@[id as int];
        let sub = &mut self.subs[id];
        if sub.queue.len() == 0 {
            assert(pre_sub.pending() =~= Seq::<MessageView>::empty());
            None
        } else {
            let m = sub.queue.remove(0);
            proof {
                sub.start@ = sub.start@ + 1;
            }
            assert(sub.pending() =~= pre_sub.pending().drop_first());
            assert(sub.wf_in(self.log@)) by {
                assert(pre_sub.wf_in(self.log@));
                assert(sub.pending() =~= self.log@.subrange(sub.start@, self.log@.len() as int));
            }
            assert(m@ == pre_sub.pending()[0]);
            assert(m@ == self.log@[pre_sub.start@]);
            Some(m)
        }
    }
}

/// Law: each subscriber observes the one global publish order.  A live
/// cursor's pending messages are exactly a contiguous window of the single
/// publish log ending at its end, so any two messages pending at two cursors
/// stand in the same relative order at both.
pub proof fn lemma_subscriber_sees_publish_order(c: Channel, id: int)
    requires
        c.wf(),
        c.is_live(id),
    ensures
        c.pending(id) == c.log_view().subrange(c.cursor_pos(id), c.log_view().len() as int),
        forall|k: int|
            0 <= k < c.pending(id).len() ==> #[trigger] c.pending(id)[k] == c.log_view()[c.cursor_pos(id) + k],
{
    assert(c.subs@[id].wf_in(c.log@));
}

/// Law: one consistent relative order across all sessions.  Two messages
/// pending at one cursor in some order stand, wherever the second cursor
/// still holds them, in that same order — both cursors' windows read off the
/// same log.
pub proof fn lemma_consistent_relative_order(c: Channel, i: int, j: int, a: int, b: int)
    requires
        c.wf(),
        c.is_live(i),
        c.is_live(j),
        0 <= a < b < c.pending(i).len(),
        c.cursor_pos(i) + a >= c.cursor_pos(j),
    ensures
        ({
            let aj = c.cursor_pos(i) + a - c.cursor_pos(j);
            let bj = c.cursor_pos(i) + b - c.cursor_pos(j);
            &&& 0 <= aj < bj < c.pending(j).len()
            &&& c.pending(j)[aj] == c.pending(i)[a]
            &&& c.pending(j)[bj] == c.pending(i)[b]
        }),
{
    lemma_subscriber_sees_publish_order(c, i);
    lemma_subscriber_sees_publish_order(c, j);
}

} // verus!
