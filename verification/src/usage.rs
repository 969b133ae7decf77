//! Usage records, and the conversion from the backend's to the client's.

use crate::fraction::{lemma_floor_at_least, lemma_floor_at_most, quotient, whole};
use crate::scaling::{lemma_scaled_total_is_capped, scale_prompt_tokens, scaled_total};
use vstd::prelude::*;

verus! {

/// Token counts as the backend reports them. A count the backend left out
/// is `None`.
#[derive(Clone, Copy, Debug, PartialEq, Eq)]
pub struct UsageMetadata {
    /// Tokens taken up by the prompt.
    pub prompt_token_count: Option<u32>,
    /// Tokens the model produced.
    pub candidates_token_count: Option<u32>,
    /// Prompt and produced tokens together. Carried, never read.
    pub total_token_count: Option<u32>,
    /// Prompt tokens that were served from the prefix cache.
    pub cached_content_token_count: Option<u32>,
}

/// Counts of tools that the server ran on the client's behalf.
#[derive(Clone, Copy, Debug, PartialEq, Eq)]
pub struct ServerToolUse {
    /// Web searches the server made.
    pub web_search_requests: u32,
}

/// Token counts as the client reads them.
#[derive(Clone, Copy, Debug, PartialEq, Eq)]
pub struct Usage {
    /// Prompt tokens that were not read from cache.
    pub input_tokens: u32,
    /// Tokens the model produced.
    pub output_tokens: u32,
    /// Prompt tokens that were read from cache.
    pub cache_read_input_tokens: Option<u32>,
    /// Prompt tokens that were written to cache. The backend reports none.
    pub cache_creation_input_tokens: Option<u32>,
    /// Server-side tool counts. The backend reports none.
    pub server_tool_use: Option<ServerToolUse>,
}

/// A count that may be missing, with a missing count read as zero.
pub open spec fn count_or_zero(count: Option<u32>) -> int {
    match count {
        Some(n) => n as int,
        None => 0,
    }
}

/// The part of a shown total of `shown` tokens that counts as read from
/// cache, when `cached` of the `raw` prompt tokens were: the same share of
/// the shown total as of the raw one, rounded down.
pub open spec fn cached_share(shown: int, raw: int, cached: int) -> int {
    whole(shown).times(quotient(cached, raw)).floor()
}

/// The cache-read count reported for a shown total of `shown` tokens.
///
/// A prompt of no tokens has no such count. A share too large for 32 bits is
/// reported as the largest 32-bit count.
pub open spec fn cache_read_tokens(shown: int, raw: int, cached: int) -> Option<u32> {
    if raw == 0 {
        None
    } else if cached_share(shown, raw, cached) > u32::MAX {
        Some(u32::MAX)
    } else {
        Some(cached_share(shown, raw, cached) as u32)
    }
}

/// The fresh-input count reported for a shown total of `shown` tokens: what
/// is left of the total once the cached share is taken off, and nothing
/// where the cached share is the larger.
pub open spec fn fresh_input_tokens(shown: int, raw: int, cached: int) -> int {
    if raw == 0 {
        shown
    } else if cached_share(shown, raw, cached) >= shown {
        0
    } else {
        shown - cached_share(shown, raw, cached)
    }
}

impl UsageMetadata {
    /// Tokens taken up by the prompt.
    pub open spec fn prompt_tokens(&self) -> int {
        count_or_zero(self.prompt_token_count)
    }

    /// Prompt tokens that were served from cache.
    pub open spec fn cached_tokens(&self) -> int {
        count_or_zero(self.cached_content_token_count)
    }

    /// Tokens the model produced.
    pub open spec fn output_tokens(&self) -> int {
        count_or_zero(self.candidates_token_count)
    }

    /// The prompt total that the client is shown.
    pub open spec fn shown_total(&self, scaling_enabled: bool, context_limit: u32) -> int {
        scaled_total(self.prompt_tokens(), context_limit as int, scaling_enabled)
    }

    /// The cached share of the shown total. Meaningful for a prompt of at
    /// least one token.
    pub open spec fn shown_cached_share(&self, scaling_enabled: bool, context_limit: u32) -> int {
        cached_share(
            self.shown_total(scaling_enabled, context_limit),
            self.prompt_tokens(),
            self.cached_tokens(),
        )
    }

    /// The fresh-input count that the client is shown.
    pub open spec fn shown_input(&self, scaling_enabled: bool, context_limit: u32) -> int {
        fresh_input_tokens(
            self.shown_total(scaling_enabled, context_limit),
            self.prompt_tokens(),
            self.cached_tokens(),
        )
    }

    /// The cache-read count that the client is shown.
    pub open spec fn shown_cache_reads(&self, scaling_enabled: bool, context_limit: u32) -> Option<
        u32,
    > {
        cache_read_tokens(
            self.shown_total(scaling_enabled, context_limit),
            self.prompt_tokens(),
            self.cached_tokens(),
        )
    }
}

/// Where no more tokens were cached than the prompt holds, the cached share
/// of a total is within that total.
pub proof fn lemma_cached_share_is_within_total(shown: int, raw: int, cached: int)
    requires
        0 <= shown,
        0 <= cached <= raw,
        0 < raw,
    ensures
        0 <= cached_share(shown, raw, cached) <= shown,
{
    let num = shown * cached;
    assert(0 <= num <= shown * raw) by (nonlinear_arith)
        requires
            num == shown * cached,
            0 <= cached <= raw,
            0 <= shown,
    ;
    lemma_floor_at_least(num, 1 * raw, 0);
    lemma_floor_at_most(num, 1 * raw, shown);
}

/// Splits a shown total into fresh input and cache reads, in the proportion
/// that the raw prompt had.
pub fn redistribute(scaled_total: u32, raw_prompt_tokens: u32, raw_cached_tokens: u32) -> (parts: (
    u32,
    Option<u32>,
))
    ensures
        parts.0 == fresh_input_tokens(
            scaled_total as int,
            raw_prompt_tokens as int,
            raw_cached_tokens as int,
        ),
        parts.1 == cache_read_tokens(
            scaled_total as int,
            raw_prompt_tokens as int,
            raw_cached_tokens as int,
        ),
        parts.1 is None <==> raw_prompt_tokens == 0,
        raw_prompt_tokens == 0 || cached_share(
            scaled_total as int,
            raw_prompt_tokens as int,
            raw_cached_tokens as int,
        ) <= scaled_total ==> parts.0 + count_or_zero(parts.1) == scaled_total,
        raw_cached_tokens <= raw_prompt_tokens ==> parts.0 + count_or_zero(parts.1)
            == scaled_total,
{
    if raw_prompt_tokens == 0 {
        return (scaled_total, None);
    }
    assert(scaled_total as int * raw_cached_tokens as int <= u64::MAX) by (nonlinear_arith)
        requires
            scaled_total <= u32::MAX,
            raw_cached_tokens <= u32::MAX,
    ;
    let product: u64 = scaled_total as u64 * raw_cached_tokens as u64;
    let share: u64 = product / raw_prompt_tokens as u64;
    proof {
        assert(share == cached_share(
            scaled_total as int,
            raw_prompt_tokens as int,
            raw_cached_tokens as int,
        ));
        if raw_cached_tokens <= raw_prompt_tokens {
            lemma_cached_share_is_within_total(
                scaled_total as int,
                raw_prompt_tokens as int,
                raw_cached_tokens as int,
            );
        }
    }
    let cache_read: u32 = if share > u32::MAX as u64 {
        u32::MAX
    } else {
        share as u32
    };
    (scaled_total.saturating_sub(cache_read), Some(cache_read))
}

/// Converts the backend's usage record into the one the client reads.
///
/// The prompt total is scaled for a window of `context_limit` tokens, then
/// split into fresh input and cache reads. Produced tokens are passed on.
/// Cache writes are always reported as zero, server tool use never.
pub fn to_claude_usage(
    usage_metadata: &UsageMetadata,
    scaling_enabled: bool,
    context_limit: u32,
) -> (usage: Usage)
    ensures
        usage.input_tokens == usage_metadata.shown_input(scaling_enabled, context_limit),
        usage.cache_read_input_tokens == usage_metadata.shown_cache_reads(
            scaling_enabled,
            context_limit,
        ),
        usage.output_tokens == usage_metadata.output_tokens(),
        usage.cache_creation_input_tokens == Some(0u32),
        usage.server_tool_use is None,
        usage.cache_read_input_tokens is None <==> usage_metadata.prompt_tokens() == 0,
        usage_metadata.prompt_tokens() == 0 || usage_metadata.shown_cached_share(
            scaling_enabled,
            context_limit,
        ) <= usage_metadata.shown_total(scaling_enabled, context_limit) ==> usage.input_tokens
            + count_or_zero(usage.cache_read_input_tokens) == usage_metadata.shown_total(
            scaling_enabled,
            context_limit,
        ),
        usage_metadata.cached_tokens() <= usage_metadata.prompt_tokens() ==> usage.input_tokens
            + count_or_zero(usage.cache_read_input_tokens) == usage_metadata.shown_total(
            scaling_enabled,
            context_limit,
        ),
{
    let prompt_tokens = usage_metadata.prompt_token_count.unwrap_or(0);
    let cached_tokens = usage_metadata.cached_content_token_count.unwrap_or(0);
    let scaled = scale_prompt_tokens(prompt_tokens, context_limit, scaling_enabled);
    let (reported_input, reported_cache) = redistribute(scaled, prompt_tokens, cached_tokens);
    Usage {
        input_tokens: reported_input,
        output_tokens: usage_metadata.candidates_token_count.unwrap_or(0),
        cache_read_input_tokens: reported_cache,
        cache_creation_input_tokens: Some(0),
        server_tool_use: None,
    }
}

/// The fresh input and the cache reads that a client is shown add up to the
/// prompt total it is shown.
///
/// This holds wherever the cached share is within the shown total, which by
/// [`lemma_cached_share_is_within_total`] is the case for every record that
/// counts no more cached tokens than prompt tokens. A record that counts
/// more has a cached share above the total: the fresh input is then zero,
/// and the two add up to the cached share.
pub proof fn law_shown_parts_add_up(meta: UsageMetadata, scaling_enabled: bool, context_limit: u32)
    requires
        meta.prompt_tokens() == 0 || meta.shown_cached_share(scaling_enabled, context_limit)
            <= meta.shown_total(scaling_enabled, context_limit),
    ensures
        meta.shown_input(scaling_enabled, context_limit) + count_or_zero(
            meta.shown_cache_reads(scaling_enabled, context_limit),
        ) == meta.shown_total(scaling_enabled, context_limit),
{
    let shown = meta.shown_total(scaling_enabled, context_limit);
    lemma_shown_total_fits(meta, scaling_enabled, context_limit);
    if meta.prompt_tokens() != 0 {
        assert(0 <= shown * meta.cached_tokens()) by (nonlinear_arith)
            requires
                0 <= shown,
                0 <= meta.cached_tokens(),
        ;
        lemma_floor_at_least(shown * meta.cached_tokens(), 1 * meta.prompt_tokens(), 0);
    }
}

/// The client is shown a cache-read count exactly for the prompts that hold
/// at least one token.
pub proof fn law_cache_reads_shown_iff_prompt(
    meta: UsageMetadata,
    scaling_enabled: bool,
    context_limit: u32,
)
    ensures
        meta.shown_cache_reads(scaling_enabled, context_limit) is None <==> meta.prompt_tokens()
            == 0,
{
}

/// The shown prompt total is a 32-bit count.
pub proof fn lemma_shown_total_fits(meta: UsageMetadata, scaling_enabled: bool, context_limit: u32)
    ensures
        0 <= meta.shown_total(scaling_enabled, context_limit) <= u32::MAX,
{
    if scaling_enabled {
        match meta.prompt_token_count {
            Some(raw) => lemma_scaled_total_is_capped(raw, context_limit),
            None => lemma_scaled_total_is_capped(0, context_limit),
        }
    }
}

} // verus!
