//! Conversation titles: the fixed prefix and the local time of creation.

use vstd::prelude::*;
use crate::message::is_digit;

verus! {

/// The text that every conversation title starts with.
pub const TITLE_PREFIX: &'static str = "API - ";

/// Text in the shape `YYYY/MM/DD at hh:mm:ss AM` (or `PM`), where the year
/// has at least four characters.
pub open spec fn is_local_timestamp(s: Seq<char>) -> bool {
    s.len() >= 25 && {
        let t = s.skip(s.len() - 21);
        &&& t[0] == '/' && is_digit(t[1]) && is_digit(t[2])
        &&& t[3] == '/' && is_digit(t[4]) && is_digit(t[5])
        &&& t[6] == ' ' && t[7] == 'a' && t[8] == 't' && t[9] == ' '
        &&& is_digit(t[10]) && is_digit(t[11]) && t[12] == ':'
        &&& is_digit(t[13]) && is_digit(t[14]) && t[15] == ':'
        &&& is_digit(t[16]) && is_digit(t[17]) && t[18] == ' '
        &&& (t[19] == 'A' || t[19] == 'P') && t[20] == 'M'
    }
}

/// The title of a conversation created at the local time `stamp`.
pub open spec fn title_of(stamp: Seq<char>) -> Seq<char> {
    TITLE_PREFIX@ + stamp
}

/// Titles are determined by the time stamp and tell stamps apart: two
/// conversations get the same title exactly when they were created at the
/// same local time, to the second.
pub proof fn lemma_title_determined(a: Seq<char>, b: Seq<char>)
    ensures
        (title_of(a) == title_of(b)) == (a == b),
{
    let n = TITLE_PREFIX@.len() as int;
    if title_of(a) == title_of(b) {
        assert(title_of(a).skip(n) =~= a);
        assert(title_of(b).skip(n) =~= b);
    }
}

/// Relies on chrono's Local::now and DateTime::format with
/// `%Y/%m/%d at %I:%M:%S %p`: the current local time, in the layout that
/// chrono documents for those fields (year of at least four characters,
/// two-digit month, day, 12-hour hour, minute and second, then AM or PM).
#[verifier::external_body]
fn local_timestamp() -> (r: String)
    ensures
        is_local_timestamp(r@),
{
    chrono::Local::now().format("%Y/%m/%d at %I:%M:%S %p").to_string()
}

/// Builds the title of a conversation created at the local time `stamp`.
pub fn conversation_title(stamp: &str) -> (r: String)
    ensures
        r@ == title_of(stamp@),
{
    String::from_str(TITLE_PREFIX).concat(stamp)
}

/// The title for a conversation created now: the fixed prefix followed by
/// the current local time.
pub fn new_conversation_title() -> (r: String)
    ensures
        exists|stamp: Seq<char>| is_local_timestamp(stamp) && r@ == #[trigger] title_of(stamp),
{
    let stamp = local_timestamp();
    conversation_title(stamp.as_str())
}

} // verus!
