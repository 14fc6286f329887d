//! Character-level text helpers: white space and trimming, decimal digits,
//! clock times, truncation, and the two `String` operations of std that vstd
//! leaves unspecified.
use vstd::prelude::*;

verus! {

/// Appending an empty sequence changes nothing.
pub broadcast proof fn lemma_add_nothing<A>(a: Seq<A>)
    ensures
        #[trigger] (a + Seq::<A>::empty()) == a,
{
    assert(a + Seq::<A>::empty() =~= a);
}

// ---------------------------------------------------------------------------
// Strings: appending, popping, trimming
// ---------------------------------------------------------------------------

/// `String::push`: appends one character at the end.
#[verifier::external_body]
pub fn string_push(s: &mut String, c: char)
    ensures
        final(s)@ == old(s)@.push(c),
{
    s.push(c)
}

/// `String::pop`: removes and returns the last character, or `None` when
/// the string is empty (which it then leaves as it was).
#[verifier::external_body]
pub fn string_pop(s: &mut String) -> (r: Option<char>)
    ensures
        old(s)@.len() == 0 ==> r is None && final(s)@ == old(s)@,
        old(s)@.len() > 0 ==> r == Some(old(s)@.last()) && final(s)@ == old(s)@.drop_last(),
{
    s.pop()
}

/// Whether `c` has the Unicode `White_Space` property, which is what
/// `char::is_whitespace` tests.
pub open spec fn is_white_space(c: char) -> bool {
    ||| ('\u{9}' <= c && c <= '\u{d}')
    ||| c == ' '
    ||| c == '\u{85}'
    ||| c == '\u{a0}'
    ||| c == '\u{1680}'
    ||| ('\u{2000}' <= c && c <= '\u{200a}')
    ||| c == '\u{2028}'
    ||| c == '\u{2029}'
    ||| c == '\u{202f}'
    ||| c == '\u{205f}'
    ||| c == '\u{3000}'
}

/// `s` without its leading white space.
pub open spec fn trim_start(s: Seq<char>) -> Seq<char>
    decreases s.len(),
{
    if s.len() > 0 && is_white_space(s[0]) {
        trim_start(s.drop_first())
    } else {
        s
    }
}

/// `s` without its trailing white space.
pub open spec fn trim_end(s: Seq<char>) -> Seq<char>
    decreases s.len(),
{
    if s.len() > 0 && is_white_space(s.last()) {
        trim_end(s.drop_last())
    } else {
        s
    }
}

/// `s` without leading and trailing white space.
pub open spec fn trimmed(s: Seq<char>) -> Seq<char> {
    trim_end(trim_start(s))
}

/// Whether `c` is white space (see [`is_white_space`]).
pub fn is_white_space_char(c: char) -> (r: bool)
    ensures
        r == is_white_space(c),
{
    ('\u{9}' <= c && c <= '\u{d}') || c == ' ' || c == '\u{85}' || c == '\u{a0}' || c == '\u{1680}'
        || ('\u{2000}' <= c && c <= '\u{200a}') || c == '\u{2028}' || c == '\u{2029}' || c
        == '\u{202f}' || c == '\u{205f}' || c == '\u{3000}'
}

/// The slice of `s` without leading and trailing white space, as
/// `str::trim` gives it.
pub fn str_trim(s: &str) -> (r: &str)
    ensures
        r@ == trimmed(s@),
{
    let n = s.unicode_len();
    let mut i: usize = 0;
    assert(s@.skip(0) =~= s@);
    while i < n && is_white_space_char(s.get_char(i))
        invariant
            n == s@.len(),
            i <= n,
            trim_start(s@) == trim_start(s@.skip(i as int)),
        decreases n - i,
    {
        assert(s@.skip(i as int).drop_first() =~= s@.skip(i + 1));
        i = i + 1;
    }
    assert(trim_start(s@.skip(i as int)) == s@.skip(i as int));
    assert(s@.skip(i as int) =~= s@.subrange(i as int, n as int));
    let mut j: usize = n;
    while j > i && is_white_space_char(s.get_char(j - 1))
        invariant
            n == s@.len(),
            i <= j <= n,
            trimmed(s@) == trim_end(s@.subrange(i as int, j as int)),
        decreases j,
    {
        assert(s@.subrange(i as int, j as int).drop_last() =~= s@.subrange(i as int, j - 1));
        j = j - 1;
    }
    s.substring_char(i, j)
}

// ---------------------------------------------------------------------------
// Decimal numbers and clock times
// ---------------------------------------------------------------------------

/// The ASCII digit for `d`, where `d < 10`.
pub open spec fn digit_char(d: nat) -> char {
    if d == 0 { '0' }
    else if d == 1 { '1' }
    else if d == 2 { '2' }
    else if d == 3 { '3' }
    else if d == 4 { '4' }
    else if d == 5 { '5' }
    else if d == 6 { '6' }
    else if d == 7 { '7' }
    else if d == 8 { '8' }
    else { '9' }
}

/// The decimal representation of `n`, without leading zeros.
pub open spec fn dec(n: nat) -> Seq<char>
    decreases n,
{
    if n < 10 {
        seq![digit_char(n)]
    } else {
        dec(n / 10).push(digit_char(n % 10))
    }
}

/// `n` written with at least two digits (`{:02}`).
pub open spec fn dec2(n: nat) -> Seq<char> {
    if n < 10 { seq!['0', digit_char(n)] } else { dec(n) }
}

/// `n` right-aligned in a field of three characters (`{:>3}`).
pub open spec fn dec_right3(n: nat) -> Seq<char> {
    if n < 10 {
        seq![' ', ' '] + dec(n)
    } else if n < 100 {
        seq![' '] + dec(n)
    } else {
        dec(n)
    }
}

/// A clock time of `total` seconds: `h:mm:ss` from one hour on, else `m:ss`.
pub open spec fn clock(total: nat) -> Seq<char> {
    let h = total / 3600;
    let m = (total % 3600) / 60;
    let s = total % 60;
    if h > 0 {
        dec(h) + seq![':'] + dec2(m) + seq![':'] + dec2(s)
    } else {
        dec(m) + seq![':'] + dec2(s)
    }
}

/// The placeholder shown where a time is unknown.
pub open spec fn unknown_time() -> Seq<char> {
    seq!['-', '-', ':', '-', '-']
}

pub fn digit(d: u64) -> (c: char)
    requires
        d < 10,
    ensures
        c == digit_char(d as nat),
{
    if d == 0 { '0' }
    else if d == 1 { '1' }
    else if d == 2 { '2' }
    else if d == 3 { '3' }
    else if d == 4 { '4' }
    else if d == 5 { '5' }
    else if d == 6 { '6' }
    else if d == 7 { '7' }
    else if d == 8 { '8' }
    else { '9' }
}

/// Appends the decimal representation of `n` to `s`.
pub fn push_dec(s: &mut String, n: u64)
    ensures
        final(s)@ == old(s)@ + dec(n as nat),
    decreases n,
{
    if n >= 10 {
        push_dec(s, n / 10);
    }
    string_push(s, digit(n % 10));
}

/// Appends `n` with at least two digits to `s`.
pub fn push_dec2(s: &mut String, n: u64)
    ensures
        final(s)@ == old(s)@ + dec2(n as nat),
{
    if n < 10 {
        string_push(s, '0');
        string_push(s, digit(n));
    } else {
        push_dec(s, n);
    }
}

/// The decimal representation of `n`.
pub fn dec_string(n: u64) -> (r: String)
    ensures
        r@ == dec(n as nat),
{
    let mut s = String::new();
    push_dec(&mut s, n);
    s
}

/// Formats a number of whole seconds as a clock time: `m:ss` below one
/// hour, `h:mm:ss` from one hour on.
pub fn fmt_time(total: u64) -> (r: String)
    ensures
        r@ == clock(total as nat),
{
    let h = total / 3600;
    let m = (total % 3600) / 60;
    let sec = total % 60;
    let mut s = String::new();
    if h > 0 {
        push_dec(&mut s, h);
        string_push(&mut s, ':');
        push_dec2(&mut s, m);
        string_push(&mut s, ':');
        push_dec2(&mut s, sec);
    } else {
        push_dec(&mut s, m);
        string_push(&mut s, ':');
        push_dec2(&mut s, sec);
    }
    s
}

/// The unknown-time placeholder `--:--`.
pub fn unknown_time_string() -> (r: String)
    ensures
        r@ == unknown_time(),
{
    let mut s = String::new();
    string_push(&mut s, '-');
    string_push(&mut s, '-');
    string_push(&mut s, ':');
    string_push(&mut s, '-');
    string_push(&mut s, '-');
    s
}

// ---------------------------------------------------------------------------
// Truncation
// ---------------------------------------------------------------------------

/// `s` cut to at most `n` characters: unchanged when it fits, else its first
/// `n - 1` characters (none when `n` is 0) followed by an ellipsis.
pub open spec fn truncated(s: Seq<char>, n: nat) -> Seq<char> {
    if s.len() <= n {
        s
    } else {
        s.take(if n == 0 { 0 } else { n - 1 }).push('…')
    }
}

/// Cuts `s` to at most `n` characters, marking a cut with `…`.
pub fn trunc(s: &str, n: usize) -> (r: String)
    ensures
        r@ == truncated(s@, n as nat),
{
    let count = s.unicode_len();
    if count <= n {
        String::from_str(s)
    } else {
        let keep = n.saturating_sub(1);
        let mut out = String::from_str(s.substring_char(0, keep));
        string_push(&mut out, '…');
        proof {
            assert(s@.subrange(0, keep as int) =~= s@.take(keep as int));
        }
        out
    }
}

/// Cuts `s` to at most `max` characters for display; the same rule as
/// [`trunc`].
pub fn truncate_display(s: &str, max: usize) -> (r: String)
    ensures
        r@ == truncated(s@, max as nat),
{
    trunc(s, max)
}

/// A cut text fits: it is at most `n` characters long (one, the ellipsis,
/// when `n` is 0), keeps the text when it already fits, and otherwise is a
/// prefix of it followed by `…`.
pub proof fn law_truncated_fits(s: Seq<char>, n: nat)
    ensures
        truncated(s, n).len() <= if n == 0 { 1 } else { n },
        s.len() <= n ==> truncated(s, n) == s,
        s.len() > n ==> truncated(s, n).last() == '…' && truncated(s, n).drop_last()
            =~= s.take(truncated(s, n).len() - 1),
{
}

} // verus!
