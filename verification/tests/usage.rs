use unai::usage::{add_counts, counts_fit, Usage};

fn usage(prompt: Option<u32>, completion: Option<u32>) -> Usage {
    Usage { prompt_tokens: prompt, completion_tokens: completion }
}

#[test]
fn merge_with_nothing_keeps_the_count() {
    let a = usage(Some(10), None);
    let empty = Usage::default();
    assert_eq!(a.merge(&empty), usage(Some(10), None));
    assert_eq!(empty.merge(&a), usage(Some(10), None));
}

#[test]
fn merge_sums_present_counts() {
    let a = usage(Some(10), None);
    let b = usage(Some(5), None);
    assert_eq!(a.merge(&b), usage(Some(15), None));
}

#[test]
fn merge_is_field_by_field() {
    let a = usage(Some(10), Some(1));
    let b = usage(None, Some(41));
    assert_eq!(a.merge(&b), usage(Some(10), Some(42)));
    assert_eq!(Usage::default().merge(&Usage::default()), usage(None, None));
    assert_eq!(usage(Some(0), None).merge(&Usage::default()), usage(Some(0), None));
}

#[test]
fn merge_is_commutative_and_associative_on_samples() {
    let a = usage(Some(10), None);
    let b = usage(Some(5), Some(7));
    let c = usage(None, Some(3));
    assert_eq!(a.merge(&b), b.merge(&a));
    assert_eq!(a.merge(&b).merge(&c), a.merge(&b.merge(&c)));
    assert_eq!(a.merge(&b).merge(&c), usage(Some(15), Some(10)));
}

#[test]
fn can_merge_tells_when_the_sum_fits() {
    let a = usage(Some(u32::MAX), Some(1));
    assert!(a.can_merge(&usage(None, Some(5))));
    assert!(a.can_merge(&usage(Some(0), None)));
    assert!(!a.can_merge(&usage(Some(1), None)));
    assert!(!usage(None, Some(u32::MAX - 1)).can_merge(&usage(None, Some(2))));
    assert!(counts_fit(Some(u32::MAX - 1), Some(1)));
    assert!(!counts_fit(Some(u32::MAX), Some(1)));
    assert_eq!(add_counts(Some(u32::MAX - 1), Some(1)), Some(u32::MAX));
    assert_eq!(add_counts(None, None), None);
}
