use seedframe::usage::{combine_options, TokenUsage};

#[test]
fn a_sum_needs_both_sides() {
    assert_eq!(combine_options(Some(2), Some(3)), Some(5));
    assert_eq!(combine_options(Some(2), None), None);
    assert_eq!(combine_options(None, Some(3)), None);
    assert_eq!(combine_options(None, None), None);
    assert_eq!(combine_options(Some(0), Some(0)), Some(0));
}

#[test]
fn a_sum_that_does_not_fit_is_missing() {
    assert_eq!(combine_options(Some(u64::MAX), Some(1)), None);
    assert_eq!(combine_options(Some(u64::MAX - 1), Some(1)), Some(u64::MAX));
}

#[test]
fn each_counter_is_accumulated_on_its_own() {
    let total = TokenUsage { prompt_tokens: Some(10), completion_tokens: None, total_tokens: Some(30) };
    let usage = TokenUsage { prompt_tokens: Some(1), completion_tokens: Some(2), total_tokens: None };
    assert_eq!(
        total.accumulate(&usage),
        TokenUsage { prompt_tokens: Some(11), completion_tokens: None, total_tokens: None }
    );
    assert_eq!(TokenUsage::default().accumulate(&usage), TokenUsage::default());
    assert_eq!(
        TokenUsage::default(),
        TokenUsage { prompt_tokens: None, completion_tokens: None, total_tokens: None }
    );
}
