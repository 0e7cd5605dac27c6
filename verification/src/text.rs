//! Building the short clock strings that the player shows ("3:07", "01:05").
use vstd::prelude::*;

verus! {

/// The character of a decimal digit.
pub open spec fn digit_char(d: nat) -> char {
    if d == 0 {
        '0'
    } else if d == 1 {
        '1'
    } else if d == 2 {
        '2'
    } else if d == 3 {
        '3'
    } else if d == 4 {
        '4'
    } else if d == 5 {
        '5'
    } else if d == 6 {
        '6'
    } else if d == 7 {
        '7'
    } else if d == 8 {
        '8'
    } else {
        '9'
    }
}

/// The decimal notation of `n`, without sign or leading zeros (as `{}` prints it).
pub open spec fn decimal(n: nat) -> Seq<char>
    decreases n,
{
    if n < 10 {
        seq![digit_char(n)]
    } else {
        decimal(n / 10).push(digit_char(n % 10))
    }
}

/// Left-pads with `'0'` to a width of two (as `{:02}` prints a number).
pub open spec fn pad2(s: Seq<char>) -> Seq<char> {
    if s.len() < 2 {
        seq!['0'] + s
    } else {
        s
    }
}

/// `minutes:seconds` of a whole number of seconds, minutes unpadded, seconds on two digits.
pub open spec fn min_sec_text(total_secs: nat) -> Seq<char> {
    decimal(total_secs / 60) + seq![':'] + pad2(decimal(total_secs % 60))
}

/// `mm:ss` of a whole number of seconds, both parts on at least two digits.
pub open spec fn mm_ss_text(total_secs: nat) -> Seq<char> {
    pad2(decimal(total_secs / 60)) + seq![':'] + pad2(decimal(total_secs % 60))
}

/// Milliseconds rounded to the nearest whole second, halves away from zero.
pub open spec fn rounded_secs(ms: nat) -> nat {
    (ms + 500) / 1000
}

/// Appends one character (`String::push`).
#[verifier::external_body]
pub(crate) fn push_char(s: &mut String, c: char)
    ensures
        final(s)@ == old(s)@.push(c),
{
    s.push(c);
}

fn digit(d: u64) -> (c: char)
    requires
        d < 10,
    ensures
        c == digit_char(d as nat),
{
    if d == 0 {
        '0'
    } else if d == 1 {
        '1'
    } else if d == 2 {
        '2'
    } else if d == 3 {
        '3'
    } else if d == 4 {
        '4'
    } else if d == 5 {
        '5'
    } else if d == 6 {
        '6'
    } else if d == 7 {
        '7'
    } else if d == 8 {
        '8'
    } else {
        '9'
    }
}

proof fn lemma_decimal_nonempty(n: nat)
    ensures
        decimal(n).len() >= 1,
        n < 10 <==> decimal(n).len() == 1,
    decreases n,
{
    if n >= 10 {
        lemma_decimal_nonempty(n / 10);
    }
}

/// Appends the decimal notation of `n`.
pub fn push_decimal(out: &mut String, n: u64)
    ensures
        final(out)@ == old(out)@ + decimal(n as nat),
    decreases n,
{
    if n >= 10 {
        push_decimal(out, n / 10);
        push_char(out, digit(n % 10));
        assert(decimal(n as nat) == decimal((n / 10) as nat).push(digit_char((n % 10) as nat)));
    } else {
        push_char(out, digit(n));
    }
}

/// Appends the decimal notation of `n`, padded with a zero to two digits.
pub fn push_decimal_2(out: &mut String, n: u64)
    ensures
        final(out)@ == old(out)@ + pad2(decimal(n as nat)),
{
    proof {
        lemma_decimal_nonempty(n as nat);
    }
    if n < 10 {
        push_char(out, '0');
    }
    push_decimal(out, n);
}

/// The text `minutes:ss` of a whole number of seconds.
pub fn min_sec(total_secs: u64) -> (s: String)
    ensures
        s@ == min_sec_text(total_secs as nat),
{
    let mut s = String::new();
    push_decimal(&mut s, total_secs / 60);
    push_char(&mut s, ':');
    push_decimal_2(&mut s, total_secs % 60);
    s
}

/// The text `mm:ss` of a whole number of seconds.
pub fn mm_ss(total_secs: u64) -> (s: String)
    ensures
        s@ == mm_ss_text(total_secs as nat),
{
    let mut s = String::new();
    push_decimal_2(&mut s, total_secs / 60);
    push_char(&mut s, ':');
    push_decimal_2(&mut s, total_secs % 60);
    s
}

/// Milliseconds rounded to whole seconds, halves away from zero.
pub fn round_ms_to_secs(ms: u64) -> (secs: u64)
    ensures
        secs == rounded_secs(ms as nat),
{
    if ms % 1000 >= 500 {
        ms / 1000 + 1
    } else {
        ms / 1000
    }
}

} // verus!
