use claude_usage::limits::{
    get_context_limit_for_model, DEFAULT_CONTEXT_LIMIT, FLASH_CONTEXT_LIMIT, PRO_CONTEXT_LIMIT,
};

#[test]
fn limits_have_their_documented_values() {
    assert_eq!(PRO_CONTEXT_LIMIT, 2_097_152);
    assert_eq!(FLASH_CONTEXT_LIMIT, 1_048_576);
    assert_eq!(DEFAULT_CONTEXT_LIMIT, 1_048_576);
}

#[test]
fn pro_models_have_the_large_window() {
    assert_eq!(get_context_limit_for_model("gemini-2.5-pro"), 2_097_152);
    assert_eq!(get_context_limit_for_model("gemini-1.5-pro-latest"), 2_097_152);
    assert_eq!(get_context_limit_for_model("pro"), 2_097_152);
    assert_eq!(get_context_limit_for_model("xprox"), 2_097_152);
}

#[test]
fn pro_wins_over_every_other_substring() {
    assert_eq!(get_context_limit_for_model("gemini-flash-pro"), 2_097_152);
    assert_eq!(get_context_limit_for_model("pro-flash"), 2_097_152);
    assert_eq!(get_context_limit_for_model("flashprompt"), 2_097_152);
    assert_eq!(get_context_limit_for_model("improved-model"), 2_097_152);
}

#[test]
fn flash_models_have_the_small_window() {
    assert_eq!(get_context_limit_for_model("gemini-2.5-flash"), 1_048_576);
    assert_eq!(get_context_limit_for_model("gemini-2.0-flash-lite"), 1_048_576);
    assert_eq!(get_context_limit_for_model("flash"), 1_048_576);
}

#[test]
fn unknown_models_get_the_default() {
    assert_eq!(get_context_limit_for_model(""), 1_048_576);
    assert_eq!(get_context_limit_for_model("some-other-model"), 1_048_576);
    assert_eq!(get_context_limit_for_model("p-r-o"), 1_048_576);
    assert_eq!(get_context_limit_for_model("pr"), 1_048_576);
    assert_eq!(get_context_limit_for_model("rop"), 1_048_576);
}

#[test]
fn family_names_are_case_sensitive() {
    assert_eq!(get_context_limit_for_model("Gemini-Pro"), 1_048_576);
    assert_eq!(get_context_limit_for_model("GEMINI-PRO"), 1_048_576);
    assert_eq!(get_context_limit_for_model("gemini-pRo"), 1_048_576);
    assert_eq!(get_context_limit_for_model("Gemini-Pro-pro"), 2_097_152);
}

#[test]
fn names_outside_ascii_are_searched_by_character() {
    assert_eq!(get_context_limit_for_model("模型-pro-版"), 2_097_152);
    assert_eq!(get_context_limit_for_model("модель-flash"), 1_048_576);
    assert_eq!(get_context_limit_for_model("pŕo"), 1_048_576);
}
