//! Circling back to a message after a while.
use vstd::prelude::*;
use crate::text::{signed_decimal, push_signed_decimal};

verus! {

/// What `ms::__to_ms__` (behind the `ms!` macro) reads from a duration
/// such as `20m` or `2d`: the milliseconds, or nothing when it is no duration.
pub uninterp spec fn ms_duration(text: Seq<char>) -> Option<u64>;

/// What `ms::__to_string__` with the long format (behind `ms!(ms, true)`)
/// writes for a number of milliseconds, such as `2 days`.
pub uninterp spec fn ms_long_text(ms: u64) -> Seq<char>;

/// What `char::is_numeric` says of a character: whether its Unicode
/// general category is one of the numbers (`Nd`, `Nl`, `No`).
pub uninterp spec fn numeric_char(c: char) -> bool;

/// Whether a character is numeric (`char::is_numeric`), named by
/// `numeric_char`.
#[verifier::external_body]
fn is_numeric_char(c: char) -> (res: bool)
    ensures
        res == numeric_char(c),
{
    c.is_numeric()
}

/// Whether a text holds a numeric character outside ASCII, such as `٣` or
/// `１`.
pub open spec fn has_non_ascii_numeral(text: Seq<char>) -> bool {
    exists|i: int| 0 <= i < text.len() && text[i] > '\u{7f}' && #[trigger] numeric_char(text[i])
}

/// Reads a duration (`ms::__to_ms__`), named by `ms_duration`. An empty text
/// is no duration. The crate's pattern takes `\d` as any Unicode decimal
/// digit (category `Nd`, a numeric category) and then parses the digits it
/// matched as an `f64`, unwrapping the result; that parse accepts ASCII
/// digits only, so a numeral outside ASCII would panic: the text must hold
/// none.
#[verifier::external_body]
fn parse_duration(text: &str) -> (res: Option<u64>)
    requires
        !has_non_ascii_numeral(text@),
    ensures
        res == ms_duration(text@),
        text@.len() == 0 ==> res is None,
{
    ms::__to_ms__(text)
}

/// Writes a duration in words (`ms::__to_string__(ms, true)`), named by
/// `ms_long_text`.
#[verifier::external_body]
fn duration_text(ms: u64) -> (res: String)
    ensures
        res@ == ms_long_text(ms),
{
    ms::__to_string__(ms, true)
}

/// How long to wait before circling back, read from the user's answer. An
/// answer that holds a numeral outside ASCII gives `None`: durations are
/// written with ASCII digits, and `ms` cannot read such an answer (it
/// either finds no duration or stops on the digit). Every other answer is
/// read by `ms`.
pub fn circle_back_delay(answer: &str) -> (res: Option<u64>)
    ensures
        res == (if has_non_ascii_numeral(answer@) {
            None
        } else {
            ms_duration(answer@)
        }),
        answer@.len() == 0 ==> res is None,
{
    let cs = crate::text::chars_of(answer);
    let mut i: usize = 0;
    while i < cs.len()
        invariant
            i <= cs@.len(),
            cs@ == answer@,
            forall|j: int| 0 <= j < i ==> !(cs@[j] > '\u{7f}' && #[trigger] numeric_char(cs@[j])),
        decreases cs@.len() - i,
    {
        if cs[i] > '\u{7f}' && is_numeric_char(cs[i]) {
            assert(cs@[i as int] > '\u{7f}' && numeric_char(answer@[i as int]));
            return None;
        }
        i = i + 1;
    }
    parse_duration(answer)
}

/// The reply when the answer is no duration.
pub fn invalid_duration_message() -> (res: String)
    ensures
        res@ == "The duration you provided was invalid. Please try again with something like [this](https://github.com/nesso99/ms-rust/blob/5a579c9f5b45851086ace2bfa506f541e49b3bbd/tests/main.rs#L6-L22)"@,
{
    String::from_str(
        "The duration you provided was invalid. Please try again with something like [this](https://github.com/nesso99/ms-rust/blob/5a579c9f5b45851086ace2bfa506f541e49b3bbd/tests/main.rs#L6-L22)",
    )
}

/// The confirmation of a reminder in `ms` milliseconds.
pub open spec fn confirmation_text(ms: u64) -> Seq<char> {
    "Sounds good! I'll remind you in "@ + ms_long_text(ms) + "."@
}

/// Writes the confirmation of a reminder in `ms` milliseconds.
pub fn circle_back_confirmation(ms: u64) -> (res: String)
    ensures
        res@ == confirmation_text(ms),
{
    let words = duration_text(ms);
    confirmation_from_words(words.as_str())
}

/// Writes the confirmation of a reminder, given the duration in words.
pub fn confirmation_from_words(words: &str) -> (res: String)
    ensures
        res@ == "Sounds good! I'll remind you in "@ + words@ + "."@,
{
    let mut res = String::new();
    res.append("Sounds good! I'll remind you in ");
    res.append(words);
    res.append(".");
    assert(res@ =~= "Sounds good! I'll remind you in "@ + words@ + "."@);
    res
}

/// A reminder that is due, as stored.
pub struct DueNotification {
    pub author_id: i64,
    pub guild_id: i64,
    pub channel_id: i64,
    pub message_id: i64,
}

/// The direct message that reminds a user of a message.
pub open spec fn reminder_text(n: DueNotification) -> Seq<char> {
    "Time to circle back to https://discord.com/channels/"@ + signed_decimal(n.guild_id as int) + "/"@
        + signed_decimal(n.channel_id as int) + "/"@ + signed_decimal(n.message_id as int)
        + " from <@"@ + signed_decimal(n.author_id as int) + ">!"@
}

/// Writes the direct message that reminds a user of a message: a link to
/// it, and who wrote it.
pub fn reminder_message(n: &DueNotification) -> (res: String)
    ensures
        res@ == reminder_text(*n),
{
    let mut res = String::new();
    res.append("Time to circle back to https://discord.com/channels/");
    push_signed_decimal(&mut res, n.guild_id);
    res.append("/");
    push_signed_decimal(&mut res, n.channel_id);
    res.append("/");
    push_signed_decimal(&mut res, n.message_id);
    res.append(" from <@");
    push_signed_decimal(&mut res, n.author_id);
    res.append(">!");
    assert(res@ =~= reminder_text(*n));
    res
}

} // verus!
