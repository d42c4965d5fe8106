//! Provider error messages: recognising and removing a leading numeric code.

use vstd::prelude::*;

verus! {

/// Whether `c` is an ASCII decimal digit.
pub open spec fn is_digit(c: char) -> bool {
    '0' <= c && c <= '9'
}

/// A nonempty run of ASCII decimal digits.
pub open spec fn all_digits(t: Seq<char>) -> bool {
    t.len() > 0 && forall|i: int| 0 <= i < t.len() ==> is_digit(#[trigger] t[i])
}

/// The number that a run of decimal digits denotes.
pub open spec fn digits_value(t: Seq<char>) -> nat
    decreases t.len(),
{
    if t.len() == 0 {
        0
    } else {
        digits_value(t.drop_last()) * 10 + ((t.last() as nat) - ('0' as nat)) as nat
    }
}

/// Text that reads as an unsigned 32-bit integer: an optional `+` followed
/// by decimal digits whose value fits in 32 bits.
pub open spec fn is_u32_text(t: Seq<char>) -> bool {
    (all_digits(t) && digits_value(t) <= u32::MAX) || (t.len() > 0 && t[0] == '+' && all_digits(
        t.skip(1),
    ) && digits_value(t.skip(1)) <= u32::MAX)
}

/// Index of the first space at or after `i`, or the length when there is none.
pub open spec fn space_from(s: Seq<char>, i: int) -> int
    decreases s.len() - i,
{
    if i >= s.len() {
        s.len() as int
    } else if s[i] == ' ' {
        i
    } else {
        space_from(s, i + 1)
    }
}

/// Index of the first space in `s`, or its length when there is none.
pub open spec fn first_space(s: Seq<char>) -> int {
    space_from(s, 0)
}

/// The message shown to the user: a leading token that reads as an unsigned
/// 32-bit integer and ends at the first space is removed together with
/// that space; any other message is kept whole.
pub open spec fn stripped_message(s: Seq<char>) -> Seq<char> {
    let k = first_space(s);
    if k < s.len() && is_u32_text(s.take(k)) {
        s.skip(k + 1)
    } else {
        s
    }
}

proof fn lemma_space_from_bounds(s: Seq<char>, i: int)
    requires
        0 <= i <= s.len(),
    ensures
        i <= space_from(s, i) <= s.len(),
        space_from(s, i) < s.len() ==> s[space_from(s, i)] == ' ',
    decreases s.len() - i,
{
    if i < s.len() && s[i] != ' ' {
        lemma_space_from_bounds(s, i + 1);
    }
}

/// Whether the digits `t[from..to]` denote a value of at most `u32::MAX`,
/// checked without overflow.
fn digits_fit_u32(t: &str, from: usize, to: usize) -> (r: bool)
    requires
        from <= to <= t@.len(),
    ensures
        r == (all_digits(t@.subrange(from as int, to as int)) && digits_value(
            t@.subrange(from as int, to as int),
        ) <= u32::MAX),
{
    if from == to {
        return false;
    }
    let mut acc: u64 = 0;
    let mut i: usize = from;
    while i < to
        invariant
            from <= i <= to <= t@.len(),
            all_digits(t@.subrange(from as int, i as int)) || i == from,
            acc == digits_value(t@.subrange(from as int, i as int)),
            acc <= u32::MAX,
        decreases to - i,
    {
        let c = t.get_char(i);
        let ghost prev = t@.subrange(from as int, i as int);
        let ghost next = t@.subrange(from as int, i as int + 1);
        assert(next.drop_last() =~= prev);
        if c < '0' || c > '9' {
            assert(next.last() == c);
            proof {
                let w = t@.subrange(from as int, to as int);
                assert(w[i - from] == c);
            }
            return false;
        }
        let d = (c as u32 - '0' as u32) as u64;
        acc = acc * 10 + d;
        if acc > 0xFFFF_FFFF {
            proof {
                let w = t@.subrange(from as int, to as int);
                if all_digits(w) {
                    lemma_prefix_value_grows(w, (i - from + 1) as int);
                    assert(w.take(i - from + 1) =~= next);
                }
            }
            return false;
        }
        i = i + 1;
        assert(forall|j: int| 0 <= j < next.len() ==> #[trigger] next[j] == (if j < prev.len() { prev[j] } else { c }));
    }
    true
}

/// The value of a digit run is at least the value of any of its prefixes.
proof fn lemma_prefix_value_grows(t: Seq<char>, k: int)
    requires
        all_digits(t),
        0 < k <= t.len(),
    ensures
        digits_value(t.take(k)) <= digits_value(t),
    decreases t.len() - k,
{
    if k < t.len() {
        lemma_prefix_value_grows(t, k + 1);
        let a = t.take(k + 1);
        assert(a.drop_last() =~= t.take(k));
    } else {
        assert(t.take(k) =~= t);
    }
}

/// Whether `t[from..to]` reads as an unsigned 32-bit integer.
fn reads_as_u32(t: &str, from: usize, to: usize) -> (r: bool)
    requires
        from <= to <= t@.len(),
    ensures
        r == is_u32_text(t@.subrange(from as int, to as int)),
{
    let ghost w = t@.subrange(from as int, to as int);
    if digits_fit_u32(t, from, to) {
        return true;
    }
    if from < to && t.get_char(from) == '+' {
        assert(w.skip(1) =~= t@.subrange(from as int + 1, to as int));
        digits_fit_u32(t, from + 1, to)
    } else {
        false
    }
}

/// Removes a leading numeric code from a provider message: when the text
/// before the first space reads as an unsigned 32-bit integer, the result is
/// what follows that space; otherwise the message is returned unchanged.
pub fn strip_code_prefix(message: &str) -> (r: String)
    ensures
        r@ == stripped_message(message@),
{
    let n = message.unicode_len();
    let mut k: usize = 0;
    while k < n
        invariant
            n == message@.len(),
            0 <= k <= n,
            space_from(message@, k as int) == first_space(message@),
        ensures
            0 <= k <= n,
            space_from(message@, k as int) == first_space(message@),
            k < n ==> message@[k as int] == ' ',
        decreases n - k,
    {
        if message.get_char(k) == ' ' {
            break;
        }
        k = k + 1;
    }
    proof {
        lemma_space_from_bounds(message@, k as int);
    }
    assert(k == first_space(message@));
    if k < n && reads_as_u32(message, 0, k) {
        assert(message@.subrange(0, k as int) =~= message@.take(k as int));
        assert(message@.subrange(k + 1, n as int) =~= message@.skip(k + 1));
        String::from_str(message.substring_char(k + 1, n))
    } else {
        assert(message@.subrange(0, k as int) =~= message@.take(k as int));
        String::from_str(message)
    }
}

} // verus!
