use crate::channel::{grown_len, lemma_subscriber_sees_publish_order};
use crate::codec::{encode_message, encoded};
use crate::message::{clone_names, Message, MessageView};
use crate::registry::without_name;
use crate::state::{chat_entered, chat_left, clone_string, State};
use vstd::prelude::*;

verus! {

/// Where a session stands in its lifecycle.  `Connecting` and `Joining` are
/// passed through inside `join` (handshake done, name obtained); the loop
/// runs in `Active`; every exit path goes through `Leaving`'s cleanup and
/// ends `Closed`.
pub enum Phase {
    Connecting,
    Joining,
    Active,
    Leaving,
    Closed,
}

/// The frame kinds a transport can deliver while a session is active, one
/// branch per kind.  Only `Text` is legitimate client traffic; `Close` is a
/// normal exit; everything else is a protocol violation.
pub enum Frame {
    Text(String),
    Binary,
    Ping,
    Pong,
    Close,
    Malformed,
}

/// How a session left its Active loop.
#[derive(PartialEq, Eq, Structural, Debug)]
pub enum Exit {
    Normal,
    ProtocolViolation,
}

/// What `gh_emoji` turns a chat text into; a function of the text alone.
pub uninterp spec fn filtered(text: Seq<char>) -> Seq<char>;

/// Relies on gh_emoji::Replacer::replace_all: rewrites every `:name:` emoji
/// code in the text; the result depends on the text alone, and a text without
/// any `:` comes back unchanged.
#[verifier::external_body]
fn replace_emoji(text: &str) -> (r: String)
    ensures
        r@ == filtered(text@),
        (forall|i: int| 0 <= i < text@.len() ==> text@[i] != ':') ==> r@ == text@,
{
    gh_emoji::Replacer::new().replace_all(text).into_owned()
}

/// One connected client: its server-assigned display name, its own broadcast
/// cursor (never shared), and where it stands in the protocol.
pub struct Session {
    pub name: String,
    pub cursor: usize,
    pub phase: Phase,
}

impl Session {
    pub open spec fn is_active(self) -> bool {
        self.phase is Active
    }

    /// The session's cursor is a live subscriber of this state's channel.
    pub open spec fn attached(self, st: State) -> bool {
        st.broadcaster.is_live(self.cursor as int)
    }

    /// What one Leaving cleanup does, exactly once, on every exit path: the
    /// name is removed from the registry (every occurrence), one leave chat
    /// and one presence snapshot are published, and the session's cursor is
    /// released.  Every other live session keeps its cursor and ends with the
    /// new snapshot pending.
    pub open spec fn leave_outcome(
        pre_self: Session,
        pre: State,
        post_self: Session,
        post: State,
    ) -> bool {
        &&& post_self.phase is Closed
        &&& !post.broadcaster.is_live(post_self.cursor as int)
        &&& post.broadcaster.pending(post_self.cursor as int) == Seq::<MessageView>::empty()
        &&& post.users_view() == without_name(pre.users_view(), pre_self.name@)
        &&& post.log_view() == pre.log_view() + seq![
            chat_left(pre_self.name@),
            MessageView::Userlist(post.users_view()),
        ]
        &&& post.broadcaster.sub_count() == pre.broadcaster.sub_count()
        &&& forall|i: int|
            pre.broadcaster.is_live(i) && i != pre_self.cursor as int
                ==> #[trigger] post.broadcaster.is_live(i) && post.broadcaster.pending(i).len() >= 1
                && post.broadcaster.pending(i).last() == MessageView::Userlist(post.users_view())
    }

    /// Joining → Active.  Subscribes the session's own cursor, then joins the
    /// registry, announces the join, and publishes the presence snapshot — in
    /// that order, so every peer (and the session itself: echo is required)
    /// sees the join before anything this session later sends.  On return the
    /// session's own cursor holds exactly the two join messages.
    pub fn join(st: &mut State, name: String) -> (s: Session)
        requires
            old(st).wf(),
        ensures
            final(st).wf(),
            s.is_active(),
            s.attached(*final(st)),
            s.name@ == name@,
            s.cursor == old(st).broadcaster.sub_count(),
            final(st).broadcaster.sub_count() == old(st).broadcaster.sub_count() + 1,
            final(st).users_view() == old(st).users_view().push(name@),
            final(st).log_view() == old(st).log_view() + seq![
                chat_entered(name@),
                MessageView::Userlist(final(st).users_view()),
            ],
            final(st).broadcaster.pending(s.cursor as int) == seq![
                chat_entered(name@),
                MessageView::Userlist(final(st).users_view()),
            ],
            forall|i: int|
                old(st).broadcaster.is_live(i) ==> #[trigger] final(st).broadcaster.is_live(i)
                    && final(st).broadcaster.pending(i).len() >= 1 && final(st).broadcaster.pending(i).last() == MessageView::Userlist(final(st).users_view()),
    {
        let cursor = st.broadcaster.subscribe();
        let s = Session { name, cursor, phase: Phase::Active };
        let ghost mid = *st;
        st.add_user(clone_string(&s.name));
        proof {
            assert(mid.broadcaster.pending(cursor as int).len() == 0);
            assert(st.broadcaster.pending(cursor as int).len() == grown_len(grown_len(0)));
            lemma_subscriber_sees_publish_order(st.broadcaster, cursor as int);
            assert(st.broadcaster.pending(cursor as int) =~= seq![
                chat_entered(s.name@),
                MessageView::Userlist(st.users_view()),
            ]);
            assert forall|i: int| old(st).broadcaster.is_live(i) implies #[trigger] st.broadcaster
                .is_live(i) && st.broadcaster.pending(i).len() >= 1 && st.broadcaster.pending(i).last() == MessageView::Userlist(st.users_view()) by {
                assert(mid.broadcaster.subs@[i] == old(st).broadcaster.subs@[i]);
                assert(mid.broadcaster.is_live(i));
            }
        }
        s
    }

    /// Active → Leaving → Closed: the exactly-once cleanup, run
    /// unconditionally on every exit path — normal close, protocol violation,
    /// or transport read/write failure.
    pub fn leave(&mut self, st: &mut State)
        requires
            old(self).is_active(),
            old(self).attached(*old(st)),
            old(st).wf(),
        ensures
            final(st).wf(),
            final(self).name@ == old(self).name@,
            final(self).cursor == old(self).cursor,
            Session::leave_outcome(*old(self), *old(st), *final(self), *final(st)),
    {
        self.phase = Phase::Leaving;
        st.remove_user(clone_string(&self.name));
        let ghost mid = *st;
        st.broadcaster.unsubscribe(self.cursor);
        self.phase = Phase::Closed;
        proof {
            assert forall|i: int|
                old(st).broadcaster.is_live(i) && i != old(self).cursor as int implies #[trigger] st.broadcaster
                .is_live(i) && st.broadcaster.pending(i).len() >= 1 && st.broadcaster.pending(i).last() == MessageView::Userlist(st.users_view()) by {
                assert(mid.broadcaster.subs@[i].live == old(st).broadcaster.subs@[i].live);
                assert(mid.broadcaster.is_live(i));
                assert(mid.broadcaster.pending(i).len() >= 1);
                assert(st.broadcaster.subs@[i] == mid.broadcaster.subs@[i]);
            }
        }
    }

    /// One Active-loop step for an inbound frame.  A text frame goes through
    /// the emoji filter and is published under this session's name; a close
    /// frame is a normal exit; every other kind is a protocol violation.
    /// Both exits run the full Leaving cleanup before the session ends.
    pub fn on_frame(&mut self, st: &mut State, frame: Frame) -> (exit: Option<Exit>)
        requires
            old(self).is_active(),
            old(self).attached(*old(st)),
            old(st).wf(),
        ensures
            final(st).wf(),
            final(self).name@ == old(self).name@,
            final(self).cursor == old(self).cursor,
            match frame {
                Frame::Text(text) => {
                    &&& exit is None
                    &&& final(self).is_active()
                    &&& final(self).attached(*final(st))
                    &&& final(st).users_view() == old(st).users_view()
                    &&& final(st).log_view() == old(st).log_view().push(
                        MessageView::Chat { user: old(self).name@, message: filtered(text@) },
                    )
                    &&& State::same_sessions(*old(st), *final(st))
                    &&& State::just_delivered(
                        *old(st),
                        *final(st),
                        MessageView::Chat { user: old(self).name@, message: filtered(text@) },
                    )
                },
                Frame::Close => {
                    &&& exit == Some(Exit::Normal)
                    &&& Session::leave_outcome(*old(self), *old(st), *final(self), *final(st))
                },
                Frame::Binary => {
                    &&& exit == Some(Exit::ProtocolViolation)
                    &&& Session::leave_outcome(*old(self), *old(st), *final(self), *final(st))
                },
                Frame::Ping => {
                    &&& exit == Some(Exit::ProtocolViolation)
                    &&& Session::leave_outcome(*old(self), *old(st), *final(self), *final(st))
                },
                Frame::Pong => {
                    &&& exit == Some(Exit::ProtocolViolation)
                    &&& Session::leave_outcome(*old(self), *old(st), *final(self), *final(st))
                },
                Frame::Malformed => {
                    &&& exit == Some(Exit::ProtocolViolation)
                    &&& Session::leave_outcome(*old(self), *old(st), *final(self), *final(st))
                },
            },
    {
        match frame {
            Frame::Text(text) => {
                let cleaned = replace_emoji(text.as_str());
                st.send_chat(clone_string(&self.name), cleaned);
                None
            },
            Frame::Close => {
                self.leave(st);
                Some(Exit::Normal)
            },
            Frame::Binary => {
                self.leave(st);
                Some(Exit::ProtocolViolation)
            },
            Frame::Ping => {
                self.leave(st);
                Some(Exit::ProtocolViolation)
            },
            Frame::Pong => {
                self.leave(st);
                Some(Exit::ProtocolViolation)
            },
            Frame::Malformed => {
                self.leave(st);
                Some(Exit::ProtocolViolation)
            },
        }
    }

    /// Takes this session's next broadcast delivery, already encoded for its
    /// transport — chat lines and presence snapshots alike, the session's own
    /// messages included (echo is required, never suppressed).  `None` when
    /// nothing is pending.
    pub fn next_outbound(&self, st: &mut State) -> (r: Option<String>)
        requires
            self.is_active(),
            self.attached(*old(st)),
            old(st).wf(),
        ensures
            final(st).wf(),
            final(st).log_view() == old(st).log_view(),
            final(st).users_view() == old(st).users_view(),
            State::same_sessions(*old(st), *final(st)),
            self.attached(*final(st)),
            old(st).broadcaster.pending(self.cursor as int).len() == 0 ==> r is None && final(st).broadcaster.pending(self.cursor as int) == old(st).broadcaster.pending(
                self.cursor as int,
            ),
            old(st).broadcaster.pending(self.cursor as int).len() > 0 ==> r is Some && r->Some_0@
                == encoded(old(st).broadcaster.pending(self.cursor as int)[0]) && final(st).broadcaster.pending(self.cursor as int) == old(st).broadcaster.pending(
                self.cursor as int,
            ).drop_first(),
            forall|i: int|
                0 <= i < old(st).broadcaster.subs@.len() && i != self.cursor as int ==> final(st).broadcaster.subs@[i] == #[trigger] old(st).broadcaster.subs@[i],
    {
        match st.broadcaster.recv(self.cursor) {
            Some(m) => Some(encode_message(&m)),
            None => None,
        }
    }
}

/// What a client's presence display shows after one delivered message: a
/// chat line leaves it alone, a presence snapshot replaces it wholesale (a
/// full replace, never a delta).
pub open spec fn apply_spec(view: Seq<Seq<char>>, m: MessageView) -> Seq<Seq<char>> {
    match m {
        MessageView::Chat { .. } => view,
        MessageView::Userlist(users) => users,
    }
}

/// Applies one delivered message to a client's presence display.
pub fn apply_message(view: &mut Vec<String>, m: &Message)
    ensures
        final(view).deep_view() == apply_spec(old(view).deep_view(), m@),
{
    match m {
        Message::Chat { .. } => {},
        Message::Userlist(users) => {
            *view = clone_names(users);
        },
    }
}

/// Law: presence is idempotent.  Because a snapshot is a full replace,
/// applying the same message twice leaves an observer exactly where applying
/// it once does.
pub proof fn lemma_presence_idempotent(view: Seq<Seq<char>>, m: MessageView)
    ensures
        apply_spec(apply_spec(view, m), m) == apply_spec(view, m),
{
}

} // verus!
