//! The hex-token scanner: every maximal run of hex digits in a line becomes one
//! 64-bit value, most significant digit first, wrapping on overflow.
use vstd::prelude::*;
use crate::buffers::{new_tokens, push_token, token_contents, TokenList, TOKEN_CAPACITY};

verus! {

/// Digits `0-9`, `a-f` and `A-F`.
pub open spec fn is_hex_digit(b: u8) -> bool {
    (48 <= b && b <= 57) || (97 <= b && b <= 102) || (65 <= b && b <= 70)
}

/// The value of a hex digit.
pub open spec fn digit_value(b: u8) -> u64
    recommends
        is_hex_digit(b),
{
    if 48 <= b && b <= 57 {
        (b - 48) as u64
    } else if 97 <= b && b <= 102 {
        (b - 87) as u64
    } else {
        (b - 55) as u64
    }
}

/// One more digit shifted in at the bottom; bits pushed past the top are lost.
pub open spec fn shift_in(acc: u64, b: u8) -> u64 {
    ((acc as int * 16 + digit_value(b) as int) % 0x1_0000_0000_0000_0000) as u64
}

/// Whether the last byte of `s` is a hex digit.
pub open spec fn ends_in_digit(s: Seq<u8>) -> bool {
    s.len() > 0 && is_hex_digit(s.last())
}

/// The value of the run of hex digits at the end of `s` (0 where there is none).
pub open spec fn trailing_value(s: Seq<u8>) -> u64
    decreases s.len(),
{
    if ends_in_digit(s) {
        shift_in(trailing_value(s.drop_last()), s.last())
    } else {
        0
    }
}

/// The tokens of `s` whose run is followed by a separator inside `s`.
pub open spec fn closed_tokens(s: Seq<u8>) -> Seq<u64>
    decreases s.len(),
{
    if s.len() == 0 {
        Seq::empty()
    } else if !is_hex_digit(s.last()) && ends_in_digit(s.drop_last()) {
        closed_tokens(s.drop_last()).push(trailing_value(s.drop_last()))
    } else {
        closed_tokens(s.drop_last())
    }
}

/// The tokens of `s`, in order: those closed by a separator, then the run that
/// reaches the end of `s`, if there is one.
pub open spec fn tokens_of(s: Seq<u8>) -> Seq<u64> {
    if ends_in_digit(s) {
        closed_tokens(s).push(trailing_value(s))
    } else {
        closed_tokens(s)
    }
}

proof fn lemma_closed_count(s: Seq<u8>)
    ensures
        2 * closed_tokens(s).len() <= s.len(),
        ends_in_digit(s) ==> 2 * closed_tokens(s).len() + 1 <= s.len(),
    decreases s.len(),
{
    if s.len() > 0 {
        lemma_closed_count(s.drop_last());
    }
}

/// A line of `n` bytes holds at most `(n + 1) / 2` tokens: runs need a
/// separator between them.
pub proof fn lemma_token_count(s: Seq<u8>)
    ensures
        2 * tokens_of(s).len() <= s.len() + 1,
{
    lemma_closed_count(s);
}

/// A line that fits the command buffer never holds more tokens than a token
/// list can take.
pub proof fn lemma_line_tokens_fit(s: Seq<u8>)
    requires
        s.len() <= 16,
    ensures
        tokens_of(s).len() <= TOKEN_CAPACITY,
{
    lemma_token_count(s);
}

proof fn lemma_tokens_grow(s: Seq<u8>)
    requires
        s.len() > 0,
    ensures
        tokens_of(s.drop_last()).len() <= tokens_of(s).len(),
{
}

/// Scanning a prefix never yields more tokens than scanning the whole line.
pub proof fn lemma_prefix_tokens(s: Seq<u8>, j: int)
    requires
        0 <= j <= s.len(),
    ensures
        tokens_of(s.take(j)).len() <= tokens_of(s).len(),
    decreases s.len() - j,
{
    if j < s.len() {
        lemma_prefix_tokens(s, j + 1);
        assert(s.take(j + 1).drop_last() =~= s.take(j));
        lemma_tokens_grow(s.take(j + 1));
    } else {
        assert(s.take(j) =~= s);
    }
}

/// A run of digits that reaches the end of the line is still a token: the last
/// token is the value of that run.
pub proof fn lemma_final_run_flushed(s: Seq<u8>)
    requires
        ends_in_digit(s),
    ensures
        tokens_of(s).len() >= 1,
        tokens_of(s).last() == trailing_value(s),
{
}

/// Separator bytes never contribute to a value: two lines that hold the same
/// digits at the same places, whatever else they hold, give the same tokens.
pub proof fn lemma_separators_do_not_count(s: Seq<u8>, t: Seq<u8>)
    requires
        s.len() == t.len(),
        forall|i: int| 0 <= i < s.len() && (is_hex_digit(s[i]) || is_hex_digit(t[i])) ==> s[i] == t[i],
    ensures
        tokens_of(s) == tokens_of(t),
{
    lemma_same_digits_same_scan(s, t);
}

proof fn lemma_same_digits_same_scan(s: Seq<u8>, t: Seq<u8>)
    requires
        s.len() == t.len(),
        forall|i: int| 0 <= i < s.len() && (is_hex_digit(s[i]) || is_hex_digit(t[i])) ==> s[i] == t[i],
    ensures
        closed_tokens(s) == closed_tokens(t),
        ends_in_digit(s) == ends_in_digit(t),
        trailing_value(s) == trailing_value(t),
    decreases s.len(),
{
    if s.len() > 0 {
        let n = s.len() - 1;
        assert(is_hex_digit(s[n]) ==> s[n] == t[n]);
        lemma_same_digits_same_scan(s.drop_last(), t.drop_last());
    }
}

/// Shifting in a digit, computed without leaving 64 bits.
fn shift_digit(acc: u64, b: u8) -> (r: u64)
    requires
        is_hex_digit(b),
    ensures
        r == shift_in(acc, b),
{
    let d: u64 = if b >= 48 && b <= 57 {
        (b - 48) as u64
    } else if b >= 97 && b <= 102 {
        (b - 87) as u64
    } else {
        (b - 55) as u64
    };
    let low: u64 = acc % 0x1000_0000_0000_0000;
    proof {
        let a = acc as int;
        let l = low as int;
        assert(a * 16 + d as int == (a / 0x1000_0000_0000_0000) * 0x1_0000_0000_0000_0000 + (l * 16
            + d as int)) by (nonlinear_arith)
            requires
                l == a % 0x1000_0000_0000_0000,
                a >= 0,
        ;
        vstd::arithmetic::div_mod::lemma_mod_multiples_vanish(
            a / 0x1000_0000_0000_0000,
            l * 16 + d as int,
            0x1_0000_0000_0000_0000,
        );
        vstd::arithmetic::div_mod::lemma_small_mod(
            (l * 16 + d as int) as nat,
            0x1_0000_0000_0000_0000,
        );
    }
    low * 16 + d
}

/// Scans a line for hex tokens. A line with more tokens than a token list can
/// take is a fatal condition, so it is not admitted.
pub fn hex(a: &[u8]) -> (vals: TokenList)
    requires
        tokens_of(a@).len() <= TOKEN_CAPACITY,
    ensures
        token_contents(vals) == tokens_of(a@),
{
    let mut vals = new_tokens();
    let mut started: bool = false;
    let mut val: u64 = 0;
    let mut i: usize = 0;
    while i < a.len()
        invariant
            0 <= i <= a.len(),
            tokens_of(a@).len() <= TOKEN_CAPACITY,
            token_contents(vals) == closed_tokens(a@.take(i as int)),
            started == ends_in_digit(a@.take(i as int)),
            val == trailing_value(a@.take(i as int)),
        decreases a.len() - i,
    {
        let c = a[i];
        assert(a@.take(i + 1).drop_last() =~= a@.take(i as int));
        if (c >= 48 && c <= 57) || (c >= 97 && c <= 102) || (c >= 65 && c <= 70) {
            val = shift_digit(val, c);
            started = true;
        } else {
            if started {
                proof {
                    lemma_prefix_tokens(a@, i + 1);
                }
                let _ = push_token(&mut vals, val);
            }
            val = 0;
            started = false;
        }
        i = i + 1;
    }
    assert(a@.take(a.len() as int) =~= a@);
    if started {
        let _ = push_token(&mut vals, val);
    }
    vals
}

} // verus!
