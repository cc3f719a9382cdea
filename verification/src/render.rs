//! Frame-rendering primitives: repeated bytes, decimal digit strings, and the
//! bar-fill and percentage arithmetic shared by the progress modes.

use vstd::prelude::*;

verus! {

/// Number of display segments in the bar track; it bounds both the maximum
/// fill length in bounded mode and the animation phase range in unbounded
/// mode.
pub const MAX_SEGMENTS: usize = 20;

/// A sequence of `n` copies of the byte `c`.
pub open spec fn seq_repeat(c: u8, n: nat) -> Seq<u8> {
    Seq::new(n, |i: int| c)
}

/// Builds `n` copies of the byte `c`.
pub fn repeat_byte(c: u8, n: usize) -> (r: Vec<u8>)
    ensures
        r@ == seq_repeat(c, n as nat),
{
    let mut r: Vec<u8> = Vec::new();
    let mut i: usize = 0;
    while i < n
        invariant
            i <= n,
            r@.len() == i,
            forall|j: int| 0 <= j < i ==> r@[j] == c,
        decreases n - i,
    {
        r.push(c);
        i = i + 1;
    }
    proof {
        assert(r@ =~= seq_repeat(c, n as nat));
    }
    r
}

/// Appends the bytes of `src` to `dst`, leaving `src` untouched.
pub fn extend_bytes(dst: &mut Vec<u8>, src: &Vec<u8>)
    ensures
        final(dst)@ == old(dst)@ + src@,
{
    let mut i: usize = 0;
    while i < src.len()
        invariant
            i <= src@.len(),
            dst@ == old(dst)@ + src@.subrange(0, i as int),
        decreases src@.len() - i,
    {
        dst.push(src[i]);
        proof {
            assert(old(dst)@ + src@.subrange(0, i as int) + seq![src@[i as int]] =~= old(
                dst,
            )@ + src@.subrange(0, i + 1));
        }
        i = i + 1;
    }
    proof {
        assert(src@.subrange(0, src@.len() as int) =~= src@);
    }
}

/// The decimal digits of `n`, most significant first, as ASCII bytes.
pub open spec fn spec_decimal(n: nat) -> Seq<u8>
    decreases n,
{
    if n < 10 {
        seq![(48 + n) as u8]
    } else {
        spec_decimal(n / 10).push((48 + n % 10) as u8)
    }
}

/// Renders `n` in decimal, most significant digit first.
pub fn decimal(n: usize) -> (r: Vec<u8>)
    ensures
        r@ == spec_decimal(n as nat),
    decreases n,
{
    if n < 10 {
        let mut r: Vec<u8> = Vec::new();
        r.push(48 + n as u8);
        r
    } else {
        let mut r = decimal(n / 10);
        r.push(48 + (n % 10) as u8);
        r
    }
}

/// The ANSI control sequence that moves the cursor up one line: `ESC [ 1 A`.
pub open spec fn spec_esc_up() -> Seq<u8> {
    seq![27u8, 91u8, 49u8, 65u8]
}

/// The ANSI control sequence that erases the current line: `ESC [ 2 K`.
pub open spec fn spec_esc_clear() -> Seq<u8> {
    seq![27u8, 91u8, 50u8, 75u8]
}

/// The bytes that erase a previously drawn two-line frame: cursor up and
/// erase, once per line.
pub open spec fn spec_erase_frame() -> Seq<u8> {
    spec_esc_up() + spec_esc_clear() + spec_esc_up() + spec_esc_clear()
}

/// Appends the bytes that erase a previously drawn two-line frame.
pub fn push_erase_frame(out: &mut Vec<u8>)
    ensures
        final(out)@ == old(out)@ + spec_erase_frame(),
{
    out.push(27);
    out.push(91);
    out.push(49);
    out.push(65);
    out.push(27);
    out.push(91);
    out.push(50);
    out.push(75);
    out.push(27);
    out.push(91);
    out.push(49);
    out.push(65);
    out.push(27);
    out.push(91);
    out.push(50);
    out.push(75);
    proof {
        assert(out@ =~= old(out)@ + spec_erase_frame());
    }
}

/// Number of bar segments drawn filled when `current` of `upper` items have
/// been produced: the completed fraction of the bar width, truncated toward
/// zero. A total of zero is treated as instant completion: the bar is drawn
/// full.
pub open spec fn spec_filled(current: nat, upper: nat) -> nat {
    if upper == 0 {
        MAX_SEGMENTS as nat
    } else {
        (current * (MAX_SEGMENTS as nat)) / upper
    }
}

/// The completed fraction `current / upper` as an integer percentage, rounded
/// to the nearest whole number with halves rounded up. A total of zero is
/// treated as instant completion: one hundred percent.
pub open spec fn spec_percent(current: nat, upper: nat) -> nat {
    if upper == 0 {
        100
    } else {
        (200 * current + upper) / (2 * upper)
    }
}

/// Computes the filled segment count for `current` of `upper` items.
pub fn filled_segments(current: usize, upper: usize) -> (r: usize)
    requires
        current * MAX_SEGMENTS <= usize::MAX,
    ensures
        r == spec_filled(current as nat, upper as nat),
{
    if upper == 0 {
        MAX_SEGMENTS
    } else {
        (current * MAX_SEGMENTS) / upper
    }
}

/// Computes the rounded percentage for `current` of `upper` items.
pub fn percent_rounded(current: usize, upper: usize) -> (r: usize)
    requires
        200 * current + 2 * upper <= usize::MAX,
    ensures
        r == spec_percent(current as nat, upper as nat),
{
    if upper == 0 {
        100
    } else {
        (200 * current + upper) / (2 * upper)
    }
}

/// The filled segment count never decreases as `current` grows, reaches
/// exactly the full bar width when `current == upper`, and stays strictly
/// below it while `current < upper`.
pub proof fn lemma_filled_monotone(upper: nat, c1: nat, c2: nat)
    requires
        c1 <= c2,
    ensures
        spec_filled(c1, upper) <= spec_filled(c2, upper),
        spec_filled(upper, upper) == MAX_SEGMENTS,
        c1 < upper ==> spec_filled(c1, upper) < MAX_SEGMENTS,
{
    if upper > 0 {
        let w = MAX_SEGMENTS as int;
        let u = upper as int;
        let a = c1 as int * w;
        let b = c2 as int * w;
        assert(a <= b) by (nonlinear_arith)
            requires
                a == c1 as int * w,
                b == c2 as int * w,
                c1 <= c2,
                w > 0,
        ;
        vstd::arithmetic::div_mod::lemma_div_is_ordered(a, b, u);
        vstd::arithmetic::div_mod::lemma_div_multiples_vanish(w, u);
        assert(spec_filled(upper, upper) == MAX_SEGMENTS);
        if c1 < upper {
            assert(a < u * w) by (nonlinear_arith)
                requires
                    a == c1 as int * w,
                    c1 < upper,
                    u == upper as int,
                    w > 0,
            ;
            if a / u >= w {
                vstd::arithmetic::div_mod::lemma_fundamental_div_mod(a, u);
                assert(false) by (nonlinear_arith)
                    requires
                        u > 0,
                        a == u * (a / u) + a % u,
                        0 <= a % u,
                        a / u >= w,
                        a < u * w,
                ;
            }
            assert(spec_filled(c1, upper) < MAX_SEGMENTS);
        }
    }
}

/// The percentage is the true rounding of `100 * current / upper`: it is the
/// unique integer `p` with `2 * upper * p <= 200 * current + upper` and
/// `200 * current + upper < 2 * upper * (p + 1)`, so it sits within half a
/// unit of the exact fraction, with halves rounded up.
pub proof fn lemma_percent_is_round(current: nat, upper: nat)
    requires
        upper > 0,
    ensures
        2 * upper * spec_percent(current, upper) <= 200 * current + upper,
        200 * current + upper < 2 * upper * (spec_percent(current, upper) + 1),
{
    let x = 200 * current as int + upper as int;
    let d = 2 * upper as int;
    vstd::arithmetic::div_mod::lemma_fundamental_div_mod(x, d);
    vstd::arithmetic::div_mod::lemma_mod_division_less_than_divisor(x, d);
    let p = x / d;
    assert(d * p <= x < d * (p + 1)) by (nonlinear_arith)
        requires
            d > 0,
            x == d * p + x % d,
            0 <= x % d < d,
    ;
    assert(spec_percent(current, upper) == p);
    assert(2 * upper as int * p == d * p);
    assert(2 * upper as int * (p + 1) == d * (p + 1));
}

} // verus!
