//! The progress state machine: mode selection at wrap time and the per-step
//! frame protocol.

use vstd::prelude::*;

use crate::render::{
    MAX_SEGMENTS, seq_repeat, repeat_byte, extend_bytes, spec_decimal, decimal, spec_filled,
    spec_percent, filled_segments, percent_rounded, spec_erase_frame, push_erase_frame,
};

verus! {

/// Annotation text drawn beside the bar in bounded mode.
#[derive(Clone, Copy, Debug, PartialEq, Eq, Structural)]
pub enum LimitedInfoDisplay {
    /// The completed fraction as a rounded integer percentage.
    Percent,
    /// The raw counts, as `current/total`.
    Cases,
    /// No annotation at all.
    NoInfo,
}

/// Configuration of bounded mode: the known total and the annotation style.
#[derive(Clone, Copy, Debug, PartialEq, Eq, Structural)]
pub struct LimitedType {
    pub upper: usize,
    pub display_type: LimitedInfoDisplay,
}

impl LimitedType {
    /// Bounded-mode configuration for a known total, annotated with a
    /// percentage by default.
    pub fn new(upper: usize) -> (r: Self)
        ensures
            r.upper == upper,
            r.display_type == LimitedInfoDisplay::Percent,
    {
        Self { upper, display_type: LimitedInfoDisplay::Percent }
    }
}

/// State of unbounded mode: the cursor position of the sweeping indicator.
#[derive(Clone, Copy, Debug, PartialEq, Eq, Structural)]
pub struct UnlimitedType {
    pub animation_pos: usize,
}

impl UnlimitedType {
    /// Unbounded-mode state with the indicator at the left edge.
    pub fn new() -> (r: Self)
        ensures
            r.animation_pos == 0,
    {
        Self { animation_pos: 0 }
    }
}

/// The rendering mode, chosen once at wrap time and never changed afterward.
#[derive(Clone, Copy, Debug, PartialEq, Eq, Structural)]
pub enum ProgressType {
    /// The total number of items is known.
    Limited(LimitedType),
    /// The total number of items is unknown.
    Unlimited(UnlimitedType),
}

/// The annotation text drawn after the track in bounded mode: a rounded
/// percentage, the raw `current/total` counts, or nothing.
pub open spec fn spec_annotation(current: nat, upper: nat, style: LimitedInfoDisplay) -> Seq<u8> {
    match style {
        LimitedInfoDisplay::Percent => spec_decimal(spec_percent(current, upper)) + seq![37u8],
        LimitedInfoDisplay::Cases => spec_decimal(current) + seq![47u8] + spec_decimal(upper),
        LimitedInfoDisplay::NoInfo => Seq::<u8>::empty(),
    }
}

/// The two lines of a bounded-mode frame: the empty bracketed track followed
/// by the annotation, then the bar line, an opening bracket followed by the
/// filled segments. The bar line deliberately keeps no closing bracket: it
/// overlays the track drawn on the line above it, whose border already closes
/// the bar.
pub open spec fn spec_limited_lines(current: nat, upper: nat, style: LimitedInfoDisplay) -> Seq<
    u8,
> {
    seq![91u8] + seq_repeat(32, MAX_SEGMENTS as nat) + seq![93u8, 32u8] + spec_annotation(
        current,
        upper,
        style,
    ) + seq![10u8] + seq![91u8] + seq_repeat(61, spec_filled(current, upper)) + seq![10u8]
}

/// The two lines of an unbounded-mode frame: the empty bracketed track, then
/// a line carrying the single sweeping indicator at the animation phase.
pub open spec fn spec_unlimited_lines(phase: nat) -> Seq<u8> {
    seq![91u8] + seq_repeat(32, MAX_SEGMENTS as nat) + seq![93u8, 10u8] + seq![91u8] + seq_repeat(
        32,
        phase,
    ) + seq![61u8, 10u8]
}

/// Builds the two bounded-mode frame lines.
fn limited_lines(current: usize, upper: usize, style: LimitedInfoDisplay) -> (v: Vec<u8>)
    requires
        200 * current + 2 * upper <= usize::MAX,
    ensures
        v@ == spec_limited_lines(current as nat, upper as nat, style),
{
    let mut v: Vec<u8> = Vec::new();
    v.push(91);
    let track = repeat_byte(32, MAX_SEGMENTS);
    extend_bytes(&mut v, &track);
    v.push(93);
    v.push(32);
    match style {
        LimitedInfoDisplay::Percent => {
            let p = percent_rounded(current, upper);
            let digits = decimal(p);
            extend_bytes(&mut v, &digits);
            v.push(37);
        },
        LimitedInfoDisplay::Cases => {
            let digits = decimal(current);
            extend_bytes(&mut v, &digits);
            v.push(47);
            let digits_upper = decimal(upper);
            extend_bytes(&mut v, &digits_upper);
        },
        LimitedInfoDisplay::NoInfo => {},
    }
    v.push(10);
    v.push(91);
    let fill = filled_segments(current, upper);
    let bar = repeat_byte(61, fill);
    extend_bytes(&mut v, &bar);
    v.push(10);
    proof {
        assert(v@ =~= spec_limited_lines(current as nat, upper as nat, style));
    }
    v
}

/// Builds the two unbounded-mode frame lines.
fn unlimited_lines(phase: usize) -> (v: Vec<u8>)
    ensures
        v@ == spec_unlimited_lines(phase as nat),
{
    let mut v: Vec<u8> = Vec::new();
    v.push(91);
    let track = repeat_byte(32, MAX_SEGMENTS);
    extend_bytes(&mut v, &track);
    v.push(93);
    v.push(10);
    v.push(91);
    let lead = repeat_byte(32, phase);
    extend_bytes(&mut v, &lead);
    v.push(61);
    v.push(10);
    proof {
        assert(v@ =~= spec_unlimited_lines(phase as nat));
    }
    v
}

/// The per-wrapper progress state: how many items have been produced so far
/// and the rendering mode fixed at wrap time.
#[derive(Clone, Copy, Debug, PartialEq, Eq, Structural)]
pub struct Progress {
    /// Count of items produced so far; starts at zero and grows by exactly
    /// one per step.
    pub current: usize,
    /// The active rendering mode.
    pub mode: ProgressType,
}

impl Progress {
    /// The state produced by wrapping a source whose size hint reported
    /// `upper`: bounded mode with a percentage annotation when a total is
    /// known, unbounded mode otherwise, with nothing produced yet.
    pub open spec fn spec_wrap(upper: Option<usize>) -> Progress {
        match upper {
            Option::Some(u) => Progress {
                current: 0,
                mode: ProgressType::Limited(
                    LimitedType { upper: u, display_type: LimitedInfoDisplay::Percent },
                ),
            },
            Option::None => Progress {
                current: 0,
                mode: ProgressType::Unlimited(UnlimitedType { animation_pos: 0 }),
            },
        }
    }

    /// Wraps a source from its reported size hint. The mode is chosen here,
    /// deterministically, and `step` never changes it afterward.
    pub fn wrap(upper: Option<usize>) -> (r: Progress)
        ensures
            r == Self::spec_wrap(upper),
    {
        let mode = match upper {
            Option::Some(u) => ProgressType::Limited(LimitedType::new(u)),
            Option::None => ProgressType::Unlimited(UnlimitedType::new()),
        };
        Progress { current: 0, mode }
    }

    /// The machine-size bounds under which one more step neither overflows
    /// the item counter nor the bar arithmetic, together with the unbounded
    /// phase staying inside the bar width.
    pub open spec fn spec_can_step(self) -> bool {
        &&& self.current < usize::MAX
        &&& match self.mode {
            ProgressType::Limited(cfg) => 200 * self.current + 2 * cfg.upper <= usize::MAX,
            ProgressType::Unlimited(cfg) => cfg.animation_pos < MAX_SEGMENTS,
        }
    }

    /// Decides whether one more step stays within the machine bounds that
    /// `step` asks for.
    pub fn can_step(&self) -> (b: bool)
        ensures
            b == self.spec_can_step(),
    {
        self.current < usize::MAX && match self.mode {
            ProgressType::Limited(cfg) => 200u128 * (self.current as u128) + 2u128 * (cfg.upper
                as u128) <= (usize::MAX as u128),
            ProgressType::Unlimited(cfg) => cfg.animation_pos < MAX_SEGMENTS,
        }
    }

    /// The bytes one step writes for the state it starts from: the erase
    /// sequence for the previous frame, unless this is the first step, then
    /// the two frame lines of the active mode.
    pub open spec fn spec_frame(self) -> Seq<u8> {
        let erase = if self.current > 0 {
            spec_erase_frame()
        } else {
            Seq::<u8>::empty()
        };
        erase + match self.mode {
            ProgressType::Limited(cfg) => spec_limited_lines(
                self.current as nat,
                cfg.upper as nat,
                cfg.display_type,
            ),
            ProgressType::Unlimited(cfg) => spec_unlimited_lines(cfg.animation_pos as nat),
        }
    }

    /// The state after one step: the item counter grows by one, and in
    /// unbounded mode the animation phase advances by one, wrapping at the
    /// bar width. Bounded-mode configuration never changes.
    pub open spec fn spec_advance(self) -> Progress {
        Progress {
            current: (self.current + 1) as usize,
            mode: match self.mode {
                ProgressType::Limited(cfg) => ProgressType::Limited(cfg),
                ProgressType::Unlimited(cfg) => ProgressType::Unlimited(
                    UnlimitedType {
                        animation_pos: ((cfg.animation_pos + 1) % (MAX_SEGMENTS as int)) as usize,
                    },
                ),
            },
        }
    }

    /// One step of the per-item protocol: returns the bytes to write to the
    /// terminal for this step (erase of the previous frame, then the new
    /// frame) and advances the state. The caller delegates to the wrapped
    /// source afterward; this state machine never touches the items.
    pub fn step(&mut self) -> (out: Vec<u8>)
        requires
            old(self).spec_can_step(),
        ensures
            out@ == old(self).spec_frame(),
            *final(self) == old(self).spec_advance(),
    {
        let mut out: Vec<u8> = Vec::new();
        if self.current > 0 {
            push_erase_frame(&mut out);
        }
        let mode = self.mode;
        match mode {
            ProgressType::Limited(cfg) => {
                let lines = limited_lines(self.current, cfg.upper, cfg.display_type);
                extend_bytes(&mut out, &lines);
            },
            ProgressType::Unlimited(cfg) => {
                let lines = unlimited_lines(cfg.animation_pos);
                extend_bytes(&mut out, &lines);
                self.mode = ProgressType::Unlimited(
                    UnlimitedType { animation_pos: (cfg.animation_pos + 1) % MAX_SEGMENTS },
                );
            },
        }
        self.current = self.current + 1;
        proof {
            assert(out@ =~= old(self).spec_frame());
        }
        out
    }
}

/// The state after `k` successive steps from `s`.
pub open spec fn spec_steps(s: Progress, k: nat) -> Progress
    decreases k,
{
    if k == 0 {
        s
    } else {
        spec_steps(s, (k - 1) as nat).spec_advance()
    }
}

/// After the k-th step of a progress wrapped around a source with known
/// total `n` (`k <= n`), the item counter reads exactly `k`, the mode is
/// still bounded with total `n` and the default percentage annotation, and
/// the fill and percentage the state reports are `floor(k * bar_width / n)`
/// and the rounding of `100 * k / n` to the nearest integer, halves up.
pub proof fn lemma_bounded_steps(n: usize, k: nat)
    requires
        k <= n,
    ensures
        spec_steps(Progress::spec_wrap(Some(n)), k).current == k,
        spec_steps(Progress::spec_wrap(Some(n)), k).mode == ProgressType::Limited(
            (LimitedType { upper: n, display_type: LimitedInfoDisplay::Percent }),
        ),
        n > 0 ==> spec_filled(k, n as nat) == (k * (MAX_SEGMENTS as nat)) / (n as nat),
        n > 0 ==> 2 * (n as int) * spec_percent(k, n as nat) <= 200 * k + n,
        n > 0 ==> 200 * k + n < 2 * (n as int) * (spec_percent(k, n as nat) + 1),
    decreases k,
{
    if k > 0 {
        lemma_bounded_steps(n, (k - 1) as nat);
    }
    if n > 0 {
        crate::render::lemma_percent_is_round(k, n as nat);
    }
}

/// After `k` steps of a progress wrapped around a source with no reported
/// total, the item counter reads exactly `k` and the stored animation phase
/// is `k` modulo the bar width. Hence the phase rendered by the k-th frame,
/// which is the phase stored after `k - 1` steps, is `(k - 1)` modulo the
/// bar width, whatever items the source produced.
pub proof fn lemma_unbounded_steps(k: nat)
    requires
        k <= usize::MAX,
    ensures
        spec_steps(Progress::spec_wrap(None), k).current == k,
        spec_steps(Progress::spec_wrap(None), k).mode == ProgressType::Unlimited(
            (UnlimitedType { animation_pos: (k % (MAX_SEGMENTS as nat)) as usize }),
        ),
    decreases k,
{
    if k > 0 {
        lemma_unbounded_steps((k - 1) as nat);
        let w = MAX_SEGMENTS as int;
        vstd::arithmetic::div_mod::lemma_add_mod_noop(k - 1, 1, w);
        vstd::arithmetic::div_mod::lemma_small_mod(1, MAX_SEGMENTS as nat);
        vstd::arithmetic::div_mod::lemma_mod_division_less_than_divisor(k as int, w);
    } else {
        vstd::arithmetic::div_mod::lemma_small_mod(0, MAX_SEGMENTS as nat);
    }
}

/// The mode chosen at wrap time is fixed: however many steps are taken, a
/// bounded progress keeps its exact configuration (total and annotation
/// style), and an unbounded progress stays unbounded.
pub proof fn lemma_mode_fixed(s: Progress, k: nat)
    ensures
        match s.mode {
            ProgressType::Limited(cfg) => spec_steps(s, k).mode == ProgressType::Limited(cfg),
            ProgressType::Unlimited(_) => spec_steps(s, k).mode is Unlimited,
        },
    decreases k,
{
    if k > 0 {
        lemma_mode_fixed(s, (k - 1) as nat);
    }
}

} // verus!

