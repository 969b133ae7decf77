//! The piecewise map from the real use of a large context window to the use
//! that a client built for a small window is shown.
//!
//! All arithmetic here is exact. A share of a window is a fraction of two
//! whole numbers, and a result is rounded down once, at the end.

use crate::fraction::{
    lemma_floor_at_least, lemma_floor_at_most, lemma_floor_cancels_factor, percent, quotient,
    whole, Fraction,
};
use vstd::arithmetic::div_mod::lemma_div_is_ordered;
use vstd::prelude::*;

verus! {

/// Prompts of at most this many tokens are reported unscaled.
pub const SCALING_THRESHOLD: u32 = 30_000;

/// The window size, in tokens, that the shown share is applied to.
pub const TARGET_MAX: u32 = 195_000;

/// The largest total that scaling ever reports: 97% of [`TARGET_MAX`].
pub const DISPLAY_CEILING: u32 = 189_150;

/// Whether a prompt of `raw` tokens is scaled: scaling is on and the prompt
/// is over the threshold.
pub open spec fn is_scaled(raw: int, scaling_enabled: bool) -> bool {
    scaling_enabled && raw > SCALING_THRESHOLD
}

/// Up to half of the real window, the shown share is 60% of the real one.
pub open spec fn first_segment(ratio: Fraction) -> Fraction {
    ratio.times(percent(60))
}

/// From 50% to 70% of the real window, the shown share climbs from 30% by
/// 20 points.
pub open spec fn second_segment(ratio: Fraction) -> Fraction {
    percent(30).plus(ratio.minus(percent(50)).over(percent(20)).times(percent(20)))
}

/// From 70% to 85% of the real window, the shown share climbs from 50% by
/// 20 points.
pub open spec fn third_segment(ratio: Fraction) -> Fraction {
    percent(50).plus(ratio.minus(percent(70)).over(percent(15)).times(percent(20)))
}

/// Beyond 85% of the real window, the shown share climbs from 70% by 27
/// points for each further 15 points of real use, and stops at 97%. The real
/// share itself is not capped: it may exceed the whole window.
pub open spec fn fourth_segment(ratio: Fraction) -> Fraction {
    percent(70).plus(ratio.minus(percent(85)).over(percent(15)).times(percent(27))).least(
        percent(97),
    )
}

/// The share of the target window that a client is shown when the real
/// window is used to the share `ratio`.
pub open spec fn display_ratio(ratio: Fraction) -> Fraction {
    if ratio.at_most(percent(50)) {
        first_segment(ratio)
    } else if ratio.at_most(percent(70)) {
        second_segment(ratio)
    } else if ratio.at_most(percent(85)) {
        third_segment(ratio)
    } else {
        fourth_segment(ratio)
    }
}

/// The prompt total shown to the client for `raw` prompt tokens in a window
/// of `limit` tokens.
///
/// A prompt that is not scaled is shown as it is. Otherwise the shown share
/// of [`TARGET_MAX`] is rounded down to whole tokens. A window of no tokens
/// is used beyond every breakpoint, so its prompts are shown at the cap.
pub open spec fn scaled_total(raw: int, limit: int, scaling_enabled: bool) -> int {
    if !is_scaled(raw, scaling_enabled) {
        raw
    } else if limit <= 0 {
        percent(97).times(whole(TARGET_MAX as int)).floor()
    } else {
        display_ratio(quotient(raw, limit)).times(whole(TARGET_MAX as int)).floor()
    }
}

/// [`scaled_total`] of a scaled prompt in a window of at least one token,
/// with the fractions worked out.
pub open spec fn scaled_total_worked_out(raw: int, limit: int) -> int {
    if 2 * raw <= limit {
        (117_000 * raw) / limit
    } else if 10 * raw <= 7 * limit {
        (195_000 * raw - 39_000 * limit) / limit
    } else if 20 * raw <= 17 * limit {
        (260_000 * raw - 84_500 * limit) / limit
    } else if raw <= limit {
        (351_000 * raw - 161_850 * limit) / limit
    } else {
        189_150
    }
}

/// Each segment starts at the share the one before it ends at, and the last
/// one reaches its cap when the real window is full.
pub proof fn law_segments_meet()
    ensures
        first_segment(percent(50)).same_as(percent(30)),
        second_segment(percent(50)).same_as(percent(30)),
        second_segment(percent(70)).same_as(percent(50)),
        third_segment(percent(70)).same_as(percent(50)),
        third_segment(percent(85)).same_as(percent(70)),
        fourth_segment(percent(85)).same_as(percent(70)),
        fourth_segment(whole(1)).same_as(percent(97)),
{
}

/// 97% of the target window, rounded down, is [`DISPLAY_CEILING`].
pub proof fn lemma_display_ceiling()
    ensures
        percent(97).times(whole(TARGET_MAX as int)).floor() == DISPLAY_CEILING,
{
    let target = TARGET_MAX as int;
    assert(97 * target == 18_915_000) by (nonlinear_arith)
        requires
            target == 195_000,
    ;
    assert(18_915_000int / 100 == 189_150);
}

/// The worked-out form agrees with the definition.
pub proof fn lemma_scaled_total_worked_out(raw: int, limit: int)
    requires
        raw > SCALING_THRESHOLD,
        limit > 0,
    ensures
        scaled_total(raw, limit, true) == scaled_total_worked_out(raw, limit),
{
    let shown = display_ratio(quotient(raw, limit));
    let target = TARGET_MAX as int;
    let total = (shown.num * target) / (shown.den * 1);
    assert(scaled_total(raw, limit, true) == total);
    if 2 * raw <= limit {
        let worked_out = 117_000 * raw;
        assert(shown.num == 60 * raw && shown.den == 100 * limit);
        assert(shown.num * target == 100 * worked_out) by (nonlinear_arith)
            requires
                shown.num == 60 * raw,
                worked_out == 117_000 * raw,
                target == 195_000,
        ;
        lemma_floor_cancels_factor(100, worked_out, limit);
    } else if 10 * raw <= 7 * limit {
        let worked_out = 195_000 * raw - 39_000 * limit;
        assert(shown.num == 20_000_000 * raw - 4_000_000 * limit);
        assert(shown.den == 20_000_000 * limit);
        assert(shown.num * target == 20_000_000 * worked_out) by (nonlinear_arith)
            requires
                shown.num == 20_000_000 * raw - 4_000_000 * limit,
                worked_out == 195_000 * raw - 39_000 * limit,
                target == 195_000,
        ;
        lemma_floor_cancels_factor(20_000_000, worked_out, limit);
    } else if 20 * raw <= 17 * limit {
        let worked_out = 260_000 * raw - 84_500 * limit;
        assert(shown.num == 20_000_000 * raw - 6_500_000 * limit);
        assert(shown.den == 15_000_000 * limit);
        assert(shown.num * target == 15_000_000 * worked_out) by (nonlinear_arith)
            requires
                shown.num == 20_000_000 * raw - 6_500_000 * limit,
                worked_out == 260_000 * raw - 84_500 * limit,
                target == 195_000,
        ;
        lemma_floor_cancels_factor(15_000_000, worked_out, limit);
    } else if raw <= limit {
        let worked_out = 351_000 * raw - 161_850 * limit;
        assert(shown.num == 27_000_000 * raw - 12_450_000 * limit);
        assert(shown.den == 15_000_000 * limit);
        assert(shown.num * target == 15_000_000 * worked_out) by (nonlinear_arith)
            requires
                shown.num == 27_000_000 * raw - 12_450_000 * limit,
                worked_out == 351_000 * raw - 161_850 * limit,
                target == 195_000,
        ;
        lemma_floor_cancels_factor(15_000_000, worked_out, limit);
    } else {
        assert(shown == percent(97));
        lemma_display_ceiling();
    }
}

/// The range of each segment of the worked-out form: each one begins at the
/// total the one before it ends at.
pub proof fn lemma_segment_bounds(raw: int, limit: int)
    requires
        raw > SCALING_THRESHOLD,
        limit > 0,
    ensures
        2 * raw <= limit ==> 0 <= scaled_total_worked_out(raw, limit) <= 58_500,
        limit < 2 * raw && 10 * raw <= 7 * limit ==> 58_500 <= scaled_total_worked_out(raw, limit)
            <= 97_500,
        7 * limit < 10 * raw && 20 * raw <= 17 * limit ==> 97_500 <= scaled_total_worked_out(
            raw,
            limit,
        ) <= 136_500,
        17 * limit < 20 * raw ==> 136_500 <= scaled_total_worked_out(raw, limit) <= 189_150,
{
    if 2 * raw <= limit {
        lemma_floor_at_least(117_000 * raw, limit, 0);
        lemma_floor_at_most(117_000 * raw, limit, 58_500);
    } else if 10 * raw <= 7 * limit {
        lemma_floor_at_least(195_000 * raw - 39_000 * limit, limit, 58_500);
        lemma_floor_at_most(195_000 * raw - 39_000 * limit, limit, 97_500);
    } else if 20 * raw <= 17 * limit {
        lemma_floor_at_least(260_000 * raw - 84_500 * limit, limit, 97_500);
        lemma_floor_at_most(260_000 * raw - 84_500 * limit, limit, 136_500);
    } else if raw <= limit {
        lemma_floor_at_least(351_000 * raw - 161_850 * limit, limit, 136_500);
        lemma_floor_at_most(351_000 * raw - 161_850 * limit, limit, 189_150);
    }
}

/// With scaling on, no prompt is shown as more than [`DISPLAY_CEILING`]
/// tokens, whatever share of the window it fills.
pub proof fn lemma_scaled_total_is_capped(raw: u32, context_limit: u32)
    ensures
        0 <= scaled_total(raw as int, context_limit as int, true) <= DISPLAY_CEILING,
{
    if raw > SCALING_THRESHOLD {
        if context_limit > 0 {
            lemma_scaled_total_worked_out(raw as int, context_limit as int);
            lemma_segment_bounds(raw as int, context_limit as int);
        } else {
            lemma_display_ceiling();
        }
    }
}

/// Whether a prompt of `raw_prompt_tokens` tokens is scaled.
pub fn scaling_applies(raw_prompt_tokens: u32, scaling_enabled: bool) -> (applies: bool)
    ensures
        applies == is_scaled(raw_prompt_tokens as int, scaling_enabled),
{
    scaling_enabled && raw_prompt_tokens > SCALING_THRESHOLD
}

/// The prompt total to show a client for `raw_prompt_tokens` tokens in a
/// window of `context_limit` tokens.
pub fn scale_prompt_tokens(raw_prompt_tokens: u32, context_limit: u32, scaling_enabled: bool) -> (scaled: u32)
    ensures
        scaled == scaled_total(raw_prompt_tokens as int, context_limit as int, scaling_enabled),
        !scaling_enabled || raw_prompt_tokens <= SCALING_THRESHOLD ==> scaled == raw_prompt_tokens,
        scaling_enabled && raw_prompt_tokens > SCALING_THRESHOLD && context_limit > 0 ==> scaled
            == scaled_total_worked_out(raw_prompt_tokens as int, context_limit as int),
        scaling_enabled && raw_prompt_tokens > SCALING_THRESHOLD && context_limit == 0 ==> scaled
            == DISPLAY_CEILING,
        scaling_enabled ==> scaled <= DISPLAY_CEILING,
{
    if !scaling_applies(raw_prompt_tokens, scaling_enabled) {
        return raw_prompt_tokens;
    }
    if context_limit == 0 {
        proof {
            lemma_display_ceiling();
        }
        return DISPLAY_CEILING;
    }
    proof {
        lemma_scaled_total_worked_out(raw_prompt_tokens as int, context_limit as int);
        lemma_segment_bounds(raw_prompt_tokens as int, context_limit as int);
    }
    let raw: u64 = raw_prompt_tokens as u64;
    let limit: u64 = context_limit as u64;
    if 2 * raw <= limit {
        (117_000 * raw / limit) as u32
    } else if 10 * raw <= 7 * limit {
        ((195_000 * raw - 39_000 * limit) / limit) as u32
    } else if 20 * raw <= 17 * limit {
        ((260_000 * raw - 84_500 * limit) / limit) as u32
    } else if raw <= limit {
        ((351_000 * raw - 161_850 * limit) / limit) as u32
    } else {
        DISPLAY_CEILING
    }
}

/// Prompts at or under the threshold are shown as they are, whether scaling
/// is on or off.
pub proof fn law_small_prompts_pass_through(raw: u32, context_limit: u32, scaling_enabled: bool)
    requires
        raw <= SCALING_THRESHOLD,
    ensures
        scaled_total(raw as int, context_limit as int, scaling_enabled) == raw,
{
}

/// With scaling on and the window fixed, a larger prompt is never shown as a
/// smaller total than a smaller prompt.
///
/// One kind of pair is left out. A prompt at or under the threshold is shown
/// as it is, while one over it is compressed, and the compressed total may
/// be the smaller of the two. Such a pair is admitted only where the
/// compressed total reaches the smaller prompt.
pub proof fn law_scaling_is_monotonic(smaller: u32, larger: u32, context_limit: u32)
    requires
        smaller <= larger,
        smaller <= SCALING_THRESHOLD < larger ==> smaller <= scaled_total(
            larger as int,
            context_limit as int,
            true,
        ),
    ensures
        scaled_total(smaller as int, context_limit as int, true) <= scaled_total(
            larger as int,
            context_limit as int,
            true,
        ),
{
    let limit = context_limit as int;
    let low = smaller as int;
    let high = larger as int;
    if low > SCALING_THRESHOLD && limit > 0 {
        lemma_scaled_total_worked_out(low, limit);
        lemma_scaled_total_worked_out(high, limit);
        lemma_segment_bounds(low, limit);
        lemma_segment_bounds(high, limit);
        if 2 * high <= limit {
            lemma_div_is_ordered(117_000 * low, 117_000 * high, limit);
        } else if limit < 2 * low && 10 * high <= 7 * limit {
            lemma_div_is_ordered(
                195_000 * low - 39_000 * limit,
                195_000 * high - 39_000 * limit,
                limit,
            );
        } else if 7 * limit < 10 * low && 20 * high <= 17 * limit {
            lemma_div_is_ordered(
                260_000 * low - 84_500 * limit,
                260_000 * high - 84_500 * limit,
                limit,
            );
        } else if 17 * limit < 20 * low && high <= limit {
            lemma_div_is_ordered(
                351_000 * low - 161_850 * limit,
                351_000 * high - 161_850 * limit,
                limit,
            );
        }
    }
}

/// With scaling on, a prompt that fills 85% of the window or more is shown
/// as at most [`DISPLAY_CEILING`] tokens.
///
/// With scaling off every prompt is shown as it is, so there the bound holds
/// only of prompts that are themselves within it.
pub proof fn law_high_use_is_capped(raw: u32, context_limit: u32, scaling_enabled: bool)
    requires
        17 * context_limit <= 20 * raw,
        scaling_enabled || raw <= DISPLAY_CEILING,
    ensures
        scaled_total(raw as int, context_limit as int, scaling_enabled) <= DISPLAY_CEILING,
{
    lemma_scaled_total_is_capped(raw, context_limit);
}

} // verus!
