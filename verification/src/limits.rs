//! The context window of each model family.

use crate::text::{contains, has_substring};
use vstd::prelude::*;

verus! {

/// The window, in tokens, of a model of the "pro" family.
pub const PRO_CONTEXT_LIMIT: u32 = 2_097_152;

/// The window, in tokens, of a model of the "flash" family.
pub const FLASH_CONTEXT_LIMIT: u32 = 1_048_576;

/// The window, in tokens, of a model of no known family.
pub const DEFAULT_CONTEXT_LIMIT: u32 = 1_048_576;

/// The window of the model named `model`. The family is read from the name,
/// with letter case as written; "pro" is looked for first.
pub open spec fn context_limit_for(model: Seq<char>) -> u32 {
    if has_substring(model, "pro"@) {
        PRO_CONTEXT_LIMIT
    } else if has_substring(model, "flash"@) {
        FLASH_CONTEXT_LIMIT
    } else {
        DEFAULT_CONTEXT_LIMIT
    }
}

/// The context window, in tokens, of the model named `model`. Every name has
/// one: an unknown name gets the default.
pub fn get_context_limit_for_model(model: &str) -> (limit: u32)
    ensures
        limit == context_limit_for(model@),
        has_substring(model@, "pro"@) ==> limit == 2_097_152,
        has_substring(model@, "flash"@) && !has_substring(model@, "pro"@) ==> limit == 1_048_576,
        limit == 2_097_152 || limit == 1_048_576,
{
    if contains(model, "pro") {
        PRO_CONTEXT_LIMIT
    } else if contains(model, "flash") {
        FLASH_CONTEXT_LIMIT
    } else {
        DEFAULT_CONTEXT_LIMIT
    }
}

} // verus!
