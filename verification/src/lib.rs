//! A note resolution and presentation-state engine for a feed of signed
//! protocol notes: it resolves each note's effective author under the
//! delegation rules, decides visibility and content-warning gating,
//! unwraps embedded reposts one level deep, tallies reactions, walks
//! reply threads depth first with a depth-bounded layout, keeps the
//! per-note view state of one session, and translates user gestures into
//! state changes and outward effects.

pub mod actions;
pub mod delegation;
pub mod pow;
pub mod reactions;
pub mod repost;
pub mod session;
pub mod store;
pub mod tags;
pub mod types;
pub mod view;
pub mod visibility;
pub mod walk;

use vstd::prelude::*;

verus! {

/// Pixel indent for a note at the given thread depth.
///
/// The indent starts at zero for a root note, grows with depth, and never
/// passes 1000 pixels, so that very deep threads do not drift off the
/// right edge of the screen.
pub open spec fn spec_indent_px(depth: nat) -> int {
    1000 - 100000int / (depth + 100) as int
}

/// Saturating visual indent as a function of thread depth.
pub fn indent_px(depth: u32) -> (r: u32)
    ensures
        r == spec_indent_px(depth as nat),
{
    let d: u64 = depth as u64;
    assert(100000int / (d + 100) as int <= 1000) by (nonlinear_arith)
        requires
            d + 100 >= 100,
    ;
    let r64: u64 = 1000 - 100000 / (d + 100);
    r64 as u32
}

/// A root note has no indent at all.
pub proof fn lemma_indent_zero_at_root()
    ensures
        spec_indent_px(0) == 0,
{
    assert(100000int / 100int == 1000) by (nonlinear_arith);
}

/// Indent never shrinks as a thread gets deeper.
pub proof fn lemma_indent_monotone(d1: nat, d2: nat)
    requires
        d1 <= d2,
    ensures
        spec_indent_px(d1) <= spec_indent_px(d2),
{
    vstd::arithmetic::div_mod::lemma_div_is_ordered_by_denominator(
        100000,
        d1 as int + 100,
        d2 as int + 100,
    );
}

/// Indent never passes 1000 pixels, however deep the thread goes.
pub proof fn lemma_indent_bounded(d: nat)
    ensures
        0 <= spec_indent_px(d) <= 1000,
{
    vstd::arithmetic::div_mod::lemma_div_pos_is_pos(100000, d as int + 100);
    assert(100000int / (d + 100) as int <= 1000) by (nonlinear_arith);
}

} // verus!
