use crate::channel::{grown_len, Channel};
use crate::message::{Message, MessageView};
use crate::registry::{without_name, Registry};
use vstd::prelude::*;

verus! {

/// The display name chat lines from the server itself carry.
pub open spec fn system_name() -> Seq<char> {
    "system"@
}

/// The chat line announcing that `user` joined.
pub open spec fn entered_text(user: Seq<char>) -> Seq<char> {
    user + " has entered the chat"@
}

/// The chat line announcing that `user` left.
pub open spec fn left_text(user: Seq<char>) -> Seq<char> {
    user + " left the chat"@
}

/// The join announcement message for `user`.
pub open spec fn chat_entered(user: Seq<char>) -> MessageView {
    MessageView::Chat { user: system_name(), message: entered_text(user) }
}

/// The leave announcement message for `user`.
pub open spec fn chat_left(user: Seq<char>) -> MessageView {
    MessageView::Chat { user: system_name(), message: left_text(user) }
}

/// The process-wide shared state: one broadcast channel and one registry of
/// joined names, created once at startup and passed to every session.
pub struct State {
    pub broadcaster: Channel,
    pub users: Registry,
}

impl State {
    pub open spec fn wf(self) -> bool {
        self.broadcaster.wf()
    }

    /// The joined display names, in join order.
    pub open spec fn users_view(self) -> Seq<Seq<char>> {
        self.users.view_names()
    }

    /// Everything published so far, in publish order.
    pub open spec fn log_view(self) -> Seq<MessageView> {
        self.broadcaster.log_view()
    }

    /// The channel's cursors are exactly as they were: nothing subscribed,
    /// unsubscribed, or changed another session's cursor.
    pub open spec fn same_sessions(pre: State, post: State) -> bool {
        Channel::same_subscribers(pre.broadcaster, post.broadcaster)
    }

    /// `m` has just been handed to every live cursor: each now ends with it.
    pub open spec fn just_delivered(pre: State, post: State, m: MessageView) -> bool {
        forall|i: int|
            pre.broadcaster.is_live(i) ==> #[trigger] post.broadcaster.pending(i).len() >= 1
                && post.broadcaster.pending(i).last() == m
    }

    /// A cursor already dead stays exactly as it is: publishing is no
    /// rendezvous, buffers nothing for a cursor nobody reads, and is never
    /// slowed by one.
    pub open spec fn dead_cursors_untouched(pre: State, post: State) -> bool {
        forall|i: int|
            0 <= i < pre.broadcaster.subs@.len() && !pre.broadcaster.subs@[i].live
                ==> post.broadcaster.subs@[i] == #[trigger] pre.broadcaster.subs@[i]
    }

    pub fn new() -> (s: State)
        ensures
            s.wf(),
            s.users_view() == Seq::<Seq<char>>::empty(),
            s.log_view() == Seq::<MessageView>::empty(),
            s.broadcaster.sub_count() == 0,
    {
        State { broadcaster: Channel::new(), users: Registry::new() }
    }

    /// Publishes one message to every live subscriber.
    pub fn send_message(&mut self, message: Message)
        requires
            old(self).wf(),
        ensures
            final(self).wf(),
            final(self).users == old(self).users,
            final(self).log_view() == old(self).log_view().push(message@),
            State::same_sessions(*old(self), *final(self)),
            State::dead_cursors_untouched(*old(self), *final(self)),
            State::just_delivered(*old(self), *final(self), message@),
            forall|i: int|
                old(self).broadcaster.is_live(i) ==> #[trigger] final(self).broadcaster.pending(
                    i,
                ).len() == grown_len(old(self).broadcaster.pending(i).len() as int),
    {
        self.broadcaster.publish(message);
    }

    /// Publishes one chat line.
    pub fn send_chat(&mut self, user: String, message: String)
        requires
            old(self).wf(),
        ensures
            final(self).wf(),
            final(self).users == old(self).users,
            final(self).log_view() == old(self).log_view().push(
                MessageView::Chat { user: user@, message: message@ },
            ),
            State::same_sessions(*old(self), *final(self)),
            State::dead_cursors_untouched(*old(self), *final(self)),
            State::just_delivered(
                *old(self),
                *final(self),
                MessageView::Chat { user: user@, message: message@ },
            ),
            forall|i: int|
                old(self).broadcaster.is_live(i) ==> #[trigger] final(self).broadcaster.pending(
                    i,
                ).len() == grown_len(old(self).broadcaster.pending(i).len() as int),
    {
        self.send_message(Message::Chat { user, message });
    }

    /// Publishes a full presence snapshot of the registry as it stands now.
    pub fn send_userlist(&mut self)
        requires
            old(self).wf(),
        ensures
            final(self).wf(),
            final(self).users == old(self).users,
            final(self).log_view() == old(self).log_view().push(
                MessageView::Userlist(old(self).users_view()),
            ),
            State::same_sessions(*old(self), *final(self)),
            State::dead_cursors_untouched(*old(self), *final(self)),
            State::just_delivered(
                *old(self),
                *final(self),
                MessageView::Userlist(old(self).users_view()),
            ),
            forall|i: int|
                old(self).broadcaster.is_live(i) ==> #[trigger] final(self).broadcaster.pending(
                    i,
                ).len() == grown_len(old(self).broadcaster.pending(i).len() as int),
    {
        let snapshot = self.users.snapshot();
        self.send_message(Message::Userlist(snapshot));
    }

    /// Joins `user`: appends it to the registry, announces the join, then
    /// publishes the new presence snapshot — in that order, so every
    /// subscriber sees the join before anything this user later sends.
    pub fn add_user(&mut self, user: String)
        requires
            old(self).wf(),
        ensures
            final(self).wf(),
            final(self).users_view() == old(self).users_view().push(user@),
            final(self).log_view() == old(self).log_view() + seq![
                chat_entered(user@),
                MessageView::Userlist(final(self).users_view()),
            ],
            State::same_sessions(*old(self), *final(self)),
            State::dead_cursors_untouched(*old(self), *final(self)),
            State::just_delivered(
                *old(self),
                *final(self),
                MessageView::Userlist(final(self).users_view()),
            ),
            forall|i: int|
                old(self).broadcaster.is_live(i) ==> #[trigger] final(self).broadcaster.pending(
                    i,
                ).len() == grown_len(grown_len(old(self).broadcaster.pending(i).len() as int)),
    {
        let ghost pre = *old(self);
        let ghost u = user@;
        let text = clone_string(&user).concat(" has entered the chat");
        self.users.add(user);
        self.send_chat(String::from_str("system"), text);
        self.send_userlist();
        assert(self.log_view() =~= pre.log_view() + seq![
            chat_entered(u),
            MessageView::Userlist(self.users_view()),
        ]);
    }

    /// Leaves `user`: removes every registry entry equal to it (a name that
    /// is absent leaves the registry unchanged), announces the leave, then
    /// publishes the new presence snapshot.  The announcement and snapshot go
    /// out whether or not the name was present.
    pub fn remove_user(&mut self, user: String)
        requires
            old(self).wf(),
        ensures
            final(self).wf(),
            final(self).users_view() == without_name(old(self).users_view(), user@),
            final(self).log_view() == old(self).log_view() + seq![
                chat_left(user@),
                MessageView::Userlist(final(self).users_view()),
            ],
            State::same_sessions(*old(self), *final(self)),
            State::dead_cursors_untouched(*old(self), *final(self)),
            State::just_delivered(
                *old(self),
                *final(self),
                MessageView::Userlist(final(self).users_view()),
            ),
            forall|i: int|
                old(self).broadcaster.is_live(i) ==> #[trigger] final(self).broadcaster.pending(
                    i,
                ).len() == grown_len(grown_len(old(self).broadcaster.pending(i).len() as int)),
    {
        let ghost pre = *old(self);
        let ghost u = user@;
        self.users.remove(&user);
        let text = user.concat(" left the chat");
        self.send_chat(String::from_str("system"), text);
        self.send_userlist();
        assert(self.log_view() =~= pre.log_view() + seq![
            chat_left(u),
            MessageView::Userlist(self.users_view()),
        ]);
    }

    /// Draws a fresh display name for a new connection: the generated
    /// two-word name, or a fixed fallback when the generator yields nothing.
    /// Identity is server-assigned; the name is random, so only its
    /// non-emptiness can be promised, and no uniqueness is checked against
    /// the registry.  Neither the registry nor the channel is touched.
    pub fn current_user(&self) -> (r: String)
        ensures
            r@.len() > 0,
    {
        match generate_petname() {
            Some(name) => name,
            None => {
                let fallback = String::from_str("anonymous");
                proof {
                    reveal_strlit("anonymous");
                }
                fallback
            },
        }
    }
}

/// Relies on petname::petname: draws a random two-word display name, `None`
/// only when a word list is empty.  The result is random, so nothing is
/// stated of which name comes back; but the generator yields a name only
/// when its buffer is non-empty, so a returned name has at least one
/// character.
#[verifier::external_body]
fn generate_petname() -> (r: Option<String>)
    ensures
        r is Some ==> r->Some_0@.len() > 0,
{
    petname::petname(2, ".")
}

/// A copy of `s` with the same characters.
pub fn clone_string(s: &String) -> (r: String)
    ensures
        r@ == s@,
{
    s.clone()
}

} // verus!
