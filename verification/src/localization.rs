//! What the bot says, before it is put into the user's language: the
//! message of the catalogue that applies, and the values that fill its
//! gaps. Looking the message up in the catalogue is the caller's part.

use vstd::prelude::*;
use vstd::string::*;
use crate::sources::common::pairs;
use crate::utils::numbers::{integer_text, signed_decimal};
use crate::utils::text::{chars_of, push_char};

verus! {

/// A message of the catalogue, by its identifier, with the values for its
/// gaps by name.
#[derive(Debug)]
pub struct LocalizedMessage {
    pub id: String,
    pub args: Vec<(String, String)>,
}

/// Whether `message` is the message `id` with the values `args`.
pub open spec fn is_message(
    message: LocalizedMessage,
    id: Seq<char>,
    args: Seq<(Seq<char>, Seq<char>)>,
) -> bool {
    message.id@ == id && pairs(message.args@) == args
}

/// Whether `c` is one of the two marks that the catalogue puts around a
/// value to keep its writing direction apart from that of the text.
pub open spec fn is_isolation_mark(c: char) -> bool {
    c == '\u{2068}' || c == '\u{2069}'
}

/// `s` without the isolation marks.
pub open spec fn without_isolation_marks(s: Seq<char>) -> Seq<char>
    decreases s.len(),
{
    if s.len() == 0 {
        Seq::empty()
    } else if is_isolation_mark(s.last()) {
        without_isolation_marks(s.drop_last())
    } else {
        without_isolation_marks(s.drop_last()).push(s.last())
    }
}

/// Takes the isolation marks out of a text that the catalogue returned.
/// A chat client that reads a timestamp or a mention out of the text would
/// stumble over them.
pub fn strip_isolation_marks(text: &str) -> (r: String)
    ensures
        r@ == without_isolation_marks(text@),
{
    let chars = chars_of(text);
    let mut r = String::new();
    let mut i: usize = 0;
    while i < chars.len()
        invariant
            i <= chars.len(),
            chars@ == text@,
            r@ == without_isolation_marks(chars@.take(i as int)),
        decreases chars.len() - i,
    {
        proof {
            assert(chars@.take(i + 1).drop_last() == chars@.take(i as int));
        }
        let c = chars[i];
        if c != '\u{2068}' && c != '\u{2069}' {
            push_char(&mut r, c);
        }
        i = i + 1;
    }
    proof {
        assert(chars@.take(chars.len() as int) == chars@);
    }
    r
}

/// A message without values.
fn plain(id: &str) -> (message: LocalizedMessage)
    ensures
        is_message(message, id@, Seq::empty()),
{
    let message = LocalizedMessage { id: String::from_str(id), args: Vec::new() };
    assert(pairs(message.args@) == Seq::<(Seq<char>, Seq<char>)>::empty());
    message
}

/// A message with one value.
fn with_one(id: &str, name: &str, value: &str) -> (message: LocalizedMessage)
    ensures
        is_message(message, id@, seq![(name@, value@)]),
{
    let mut args: Vec<(String, String)> = Vec::new();
    args.push((String::from_str(name), String::from_str(value)));
    assert(pairs(args@) == seq![(name@, value@)]);
    LocalizedMessage { id: String::from_str(id), args }
}

/// A message with two values.
fn with_two(id: &str, first: (&str, &str), second: (&str, &str)) -> (message: LocalizedMessage)
    ensures
        is_message(message, id@, seq![(first.0@, first.1@), (second.0@, second.1@)]),
{
    let mut args: Vec<(String, String)> = Vec::new();
    args.push((String::from_str(first.0), String::from_str(first.1)));
    args.push((String::from_str(second.0), String::from_str(second.1)));
    assert(pairs(args@) == seq![(first.0@, first.1@), (second.0@, second.1@)]);
    LocalizedMessage { id: String::from_str(id), args }
}

/// Nothing is called what was searched for.
pub fn place_not_found(search_term: &str) -> (message: LocalizedMessage)
    ensures
        is_message(message, "place-not-found"@, seq![("search_term"@, search_term@)]),
{
    with_one("place-not-found", "search_term", search_term)
}

/// The question that stands above the menu of places.
pub fn place_selection_prompt() -> (message: LocalizedMessage)
    ensures
        is_message(message, "place-selection-which-one"@, Seq::empty()),
{
    plain("place-selection-which-one")
}

/// The user was asked to pick a place and did not.
pub fn place_selection_timeout() -> (message: LocalizedMessage)
    ensures
        is_message(message, "place-selection-timeout"@, Seq::empty()),
{
    plain("place-selection-timeout")
}

/// When a temperature was measured. What the catalogue returns for this
/// message is read by the chat client, not by the user: strip its
/// isolation marks.
pub fn last_updated(epoch: i64) -> (message: LocalizedMessage)
    ensures
        is_message(message, "last-updated"@, seq![("unix_time"@, signed_decimal(epoch as int))]),
{
    with_one("last-updated", "unix_time", integer_text(epoch).as_str())
}

/// The temperature at a place. `place` describes the place, `celsius` is
/// the temperature as it is to be shown, and `last_updated` says when it
/// was measured.
pub fn temperature_response(place: &str, celsius: &str, last_updated: &str) -> (message:
    LocalizedMessage)
    ensures
        is_message(
            message,
            "temperature-current-success"@,
            seq![("place"@, place@), ("celcius"@, celsius@), ("last_updated"@, last_updated@)],
        ),
{
    let mut args: Vec<(String, String)> = Vec::new();
    args.push((String::from_str("place"), String::from_str(place)));
    args.push((String::from_str("celcius"), String::from_str(celsius)));
    args.push((String::from_str("last_updated"), String::from_str(last_updated)));
    assert(pairs(args@) == seq![
        ("place"@, place@),
        ("celcius"@, celsius@),
        ("last_updated"@, last_updated@),
    ]);
    LocalizedMessage { id: String::from_str("temperature-current-success"), args }
}

/// An answer that goes to the channel and names the user who asked.
pub fn invoked_by(response: &str, user_mention: &str) -> (message: LocalizedMessage)
    ensures
        is_message(
            message,
            "response-invoked-by"@,
            seq![("message"@, response@), ("user_mention"@, user_mention@)],
        ),
{
    with_two("response-invoked-by", ("message", response), ("user_mention", user_mention))
}

/// The instant at which an account was created. What the catalogue returns
/// for this message is read by the chat client: strip its isolation marks.
pub fn age_timestamp(unix_time: i64) -> (message: LocalizedMessage)
    ensures
        is_message(
            message,
            "age-timestamp"@,
            seq![("unix_time"@, signed_decimal(unix_time as int))],
        ),
{
    with_one("age-timestamp", "unix_time", integer_text(unix_time).as_str())
}

/// When the account of a user was created.
pub fn account_age(username: &str, timestamp: &str) -> (message: LocalizedMessage)
    ensures
        is_message(
            message,
            "age-account-created-at"@,
            seq![("username"@, username@), ("timestamp"@, timestamp@)],
        ),
{
    with_two("age-account-created-at", ("username", username), ("timestamp", timestamp))
}

/// The line at the foot of the list of commands.
pub fn help_footer() -> (message: LocalizedMessage)
    ensures
        is_message(message, "help-footer"@, Seq::empty()),
{
    plain("help-footer")
}

/// Something went wrong that the command did not foresee.
pub fn unknown_error() -> (message: LocalizedMessage)
    ensures
        is_message(message, "unknown-error"@, Seq::empty()),
{
    plain("unknown-error")
}

/// The bot has no such command.
pub fn unknown_command() -> (message: LocalizedMessage)
    ensures
        is_message(message, "unknown-command"@, Seq::empty()),
{
    plain("unknown-command")
}

} // verus!
