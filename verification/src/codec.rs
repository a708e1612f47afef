use crate::message::{Message, MessageView};
use vstd::prelude::*;

verus! {

/// Relies on std's String::push: appends exactly the one character.
pub assume_specification[ String::push ](s: &mut String, ch: char)
    ensures
        final(s)@ == old(s)@.push(ch),
;

/// The lower-case hexadecimal digit for `d` (0 for anything past 15).
pub open spec fn hex_digit(d: int) -> char {
    if d == 1 {
        '1'
    } else if d == 2 {
        '2'
    } else if d == 3 {
        '3'
    } else if d == 4 {
        '4'
    } else if d == 5 {
        '5'
    } else if d == 6 {
        '6'
    } else if d == 7 {
        '7'
    } else if d == 8 {
        '8'
    } else if d == 9 {
        '9'
    } else if d == 10 {
        'a'
    } else if d == 11 {
        'b'
    } else if d == 12 {
        'c'
    } else if d == 13 {
        'd'
    } else if d == 14 {
        'e'
    } else if d == 15 {
        'f'
    } else {
        '0'
    }
}

/// What one character contributes to a JSON string body: itself, unless JSON
/// requires an escape (quote, backslash, or a control character).
pub open spec fn escaped_char(c: char) -> Seq<char> {
    if c == '"' {
        seq!['\\', '"']
    } else if c == '\\' {
        seq!['\\', '\\']
    } else if c == '\n' {
        seq!['\\', 'n']
    } else if c == '\r' {
        seq!['\\', 'r']
    } else if c == '\t' {
        seq!['\\', 't']
    } else if (c as int) < 32 {
        seq!['\\', 'u', '0', '0', hex_digit(c as int / 16), hex_digit(c as int % 16)]
    } else {
        seq![c]
    }
}

/// The JSON escape of a whole string body.
pub open spec fn escaped(s: Seq<char>) -> Seq<char>
    decreases s.len(),
{
    if s.len() == 0 {
        Seq::empty()
    } else {
        escaped(s.drop_last()) + escaped_char(s.last())
    }
}

/// A JSON string literal: the escaped body between double quotes.
pub open spec fn quoted(s: Seq<char>) -> Seq<char> {
    seq!['"'] + escaped(s) + seq!['"']
}

/// The elements of a JSON array of strings: the quoted names, comma
/// separated.
pub open spec fn quoted_names(users: Seq<Seq<char>>) -> Seq<char>
    decreases users.len(),
{
    if users.len() == 0 {
        Seq::empty()
    } else if users.len() == 1 {
        quoted(users[0])
    } else {
        quoted_names(users.drop_last()) + seq![','] + quoted(users.last())
    }
}

/// The wire form of a message.  The whole system speaks the structured mode:
/// a chat line carries a `message` discriminator, a presence snapshot a
/// `userlist` one.
pub open spec fn encoded(m: MessageView) -> Seq<char> {
    match m {
        MessageView::Chat { user, message } => "{\"type\":\"message\",\"user\":"@ + quoted(user)
            + ",\"message\":"@ + quoted(message) + "}"@,
        MessageView::Userlist(users) => "{\"type\":\"userlist\",\"users\":["@ + quoted_names(users)
            + "]}"@,
    }
}

/// One hexadecimal digit, as `hex_digit` spells it.
fn hex_digit_char(d: u32) -> (c: char)
    requires
        d < 16,
    ensures
        c == hex_digit(d as int),
{
    if d == 1 {
        '1'
    } else if d == 2 {
        '2'
    } else if d == 3 {
        '3'
    } else if d == 4 {
        '4'
    } else if d == 5 {
        '5'
    } else if d == 6 {
        '6'
    } else if d == 7 {
        '7'
    } else if d == 8 {
        '8'
    } else if d == 9 {
        '9'
    } else if d == 10 {
        'a'
    } else if d == 11 {
        'b'
    } else if d == 12 {
        'c'
    } else if d == 13 {
        'd'
    } else if d == 14 {
        'e'
    } else if d == 15 {
        'f'
    } else {
        '0'
    }
}

/// Appends the JSON escape of one character.
fn push_escaped_char(out: &mut String, c: char)
    ensures
        final(out)@ == old(out)@ + escaped_char(c),
{
    if c == '"' {
        out.push('\\');
        out.push('"');
    } else if c == '\\' {
        out.push('\\');
        out.push('\\');
    } else if c == '\n' {
        out.push('\\');
        out.push('n');
    } else if c == '\r' {
        out.push('\\');
        out.push('r');
    } else if c == '\t' {
        out.push('\\');
        out.push('t');
    } else if (c as u32) < 32 {
        out.push('\\');
        out.push('u');
        out.push('0');
        out.push('0');
        out.push(hex_digit_char(c as u32 / 16));
        out.push(hex_digit_char(c as u32 % 16));
    } else {
        out.push(c);
    }
    assert(out@ =~= old(out)@ + escaped_char(c));
}

/// Appends `s` as a JSON string literal, quotes and escapes included.
fn push_quoted(out: &mut String, s: &str)
    ensures
        final(out)@ == old(out)@ + quoted(s@),
{
    out.push('"');
    let n = s.unicode_len();
    let mut i: usize = 0;
    while i < n
        invariant
            n == s@.len(),
            i <= n,
            out@ == old(out)@ + seq!['"'] + escaped(s@.subrange(0, i as int)),
        decreases n - i,
    {
        let c = s.get_char(i);
        push_escaped_char(out, c);
        assert(s@.subrange(0, i as int + 1).drop_last() =~= s@.subrange(0, i as int));
        assert(s@.subrange(0, i as int + 1).last() == s@[i as int]);
        assert(out@ =~= old(out)@ + seq!['"'] + escaped(s@.subrange(0, i as int + 1)));
        i += 1;
    }
    assert(s@.subrange(0, n as int) =~= s@);
    out.push('"');
    assert(out@ =~= old(out)@ + quoted(s@));
}

/// The wire form of `m`, exactly as the `encoded` spec lays it out.
pub fn encode_message(m: &Message) -> (r: String)
    ensures
        r@ == encoded(m@),
{
    match m {
        Message::Chat { user, message } => {
            let mut out = String::from_str("{\"type\":\"message\",\"user\":");
            push_quoted(&mut out, user.as_str());
            out.append(",\"message\":");
            push_quoted(&mut out, message.as_str());
            out.append("}");
            assert(out@ =~= encoded(m@));
            out
        },
        Message::Userlist(users) => {
            let mut out = String::from_str("{\"type\":\"userlist\",\"users\":[");
            let n = users.len();
            let mut i: usize = 0;
            while i < n
                invariant
                    n == users@.len(),
                    i <= n,
                    out@ == "{\"type\":\"userlist\",\"users\":["@ + quoted_names(
                        users.deep_view().subrange(0, i as int),
                    ),
                decreases n - i,
            {
                if i > 0 {
                    out.push(',');
                }
                push_quoted(&mut out, users[i].as_str());
                proof {
                    let dv = users.deep_view();
                    let prev = dv.subrange(0, i as int);
                    let cur = dv.subrange(0, i as int + 1);
                    assert(cur.drop_last() =~= prev);
                    assert(cur.last() == dv[i as int]);
                    if i == 0 {
                        assert(quoted_names(cur) == quoted(dv[0]));
                    }
                    assert(out@ =~= "{\"type\":\"userlist\",\"users\":["@ + quoted_names(cur));
                }
                i += 1;
            }
            assert(users.deep_view().subrange(0, n as int) =~= users.deep_view());
            out.append("]}");
            assert(out@ =~= encoded(m@));
            out
        },
    }
}

/// The plain-text rendering `user: message`, the form the logging observer
/// prints.
pub fn render_plain(user: &str, message: &str) -> (r: String)
    ensures
        r@ == user@ + ": "@ + message@,
{
    let mut out = String::from_str(user);
    out.append(": ");
    out.append(message);
    out
}

/// Inbound frames carry a raw text payload; decoding is the identity on it.
pub fn decode_text(payload: String) -> (r: String)
    ensures
        r@ == payload@,
{
    payload
}

} // verus!
