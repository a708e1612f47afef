use vstd::prelude::*;

verus! {

/// One broadcast event: either a chat line or a full presence snapshot
/// (the complete list of joined names, not a delta).
#[derive(Debug)]
pub enum Message {
    Chat { user: String, message: String },
    Userlist(Vec<String>),
}

/// Mathematical value of a `Message`: the same two variants over
/// character sequences.
pub enum MessageView {
    Chat { user: Seq<char>, message: Seq<char> },
    Userlist(Seq<Seq<char>>),
}

impl View for Message {
    type V = MessageView;

    open spec fn view(&self) -> MessageView {
        match self {
            Message::Chat { user, message } => MessageView::Chat {
                user: user@,
                message: message@,
            },
            Message::Userlist(users) => MessageView::Userlist(users.deep_view()),
        }
    }
}

impl Message {
    /// An exact copy; the broadcast channel hands one to every subscriber.
    pub fn duplicate(&self) -> (r: Message)
        ensures
            r@ == self@,
    {
        match self {
            Message::Chat { user, message } => Message::Chat {
                user: user.clone(),
                message: message.clone(),
            },
            Message::Userlist(users) => Message::Userlist(clone_names(users)),
        }
    }
}

/// Element-wise copy of a list of names.
pub fn clone_names(names: &Vec<String>) -> (r: Vec<String>)
    ensures
        r@ == names@,
{
    let mut out: Vec<String> = Vec::new();
    let mut i: usize = 0;
    while i < names.len()
        invariant
            i <= names.len(),
            out@ == names@.subrange(0, i as int),
        decreases names.len() - i,
    {
        out.push(names[i].clone());
        assert(names@.subrange(0, i as int).push(names@[i as int]) =~= names@.subrange(
            0,
            i as int + 1,
        ));
        i += 1;
    }
    assert(out@ =~= names@);
    out
}

} // verus!
