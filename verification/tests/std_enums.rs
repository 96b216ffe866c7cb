use std::borrow::Cow;
use std::collections::HashMap;

use edisp::std_enums::CollectCow;
use edisp::std_enums::CollectResult;

#[test]
fn collect_result_impl() {
    let i = vec![Ok(42), Err("foo"), Ok(101), Err("bar")];
    let (some_oks, some_errs): (Vec<_>, Vec<_>) = i.dispatch_result();

    assert_eq!(some_oks, vec![42, 101],);
    assert_eq!(some_errs, vec!["foo", "bar"],);
}

#[test]
fn std_enums_collect_result_impl() {
    let i = vec![Ok(42), Err("foo"), Ok(101), Err("bar")];
    let (some_oks, some_errs): (Vec<_>, Vec<_>) = i.dispatch_result();

    assert_eq!(some_oks, vec![42, 101],);
    assert_eq!(some_errs, vec!["foo", "bar"],);
}

#[test]
fn collect_cow_impl() {
    let i = vec![Cow::Owned(42), Cow::Borrowed(&-1), Cow::Owned(101)];
    let (some_borrowed, some_owned): (Vec<&i8>, Vec<_>) = i.dispatch_cow();

    assert_eq!(some_borrowed, vec![&-1]);
    assert_eq!(some_owned, vec![42, 101]);
}

#[test]
fn binary_outcome_sequence() {
    let i = vec![Ok(42), Err("x"), Ok(0)];
    let (successes, failures): (Vec<i32>, Vec<&str>) = i.dispatch_result();

    assert_eq!(successes, vec![42, 0]);
    assert_eq!(failures, vec!["x"]);
}

#[test]
fn collect_result_into_map_upserts() {
    let i: Vec<Result<(&str, i32), &str>> =
        vec![Ok(("a", 1)), Err("boom"), Ok(("b", 2)), Ok(("a", 3))];
    let (pairs, errors): (HashMap<&str, i32>, Vec<&str>) = i.dispatch_result();

    assert_eq!(pairs.len(), 2);
    assert_eq!(pairs["a"], 3);
    assert_eq!(pairs["b"], 2);
    assert_eq!(errors, vec!["boom"]);
}

#[test]
fn collect_result_empty_input() {
    let i: Vec<Result<u8, char>> = Vec::new();
    let (some_oks, some_errs): (Vec<u8>, Vec<char>) = i.dispatch_result();

    assert_eq!(some_oks, Vec::new());
    assert_eq!(some_errs, Vec::new());
}

#[test]
fn collect_cow_over_str() {
    let i: Vec<Cow<str>> = vec![
        Cow::Borrowed("horse"),
        Cow::Owned(String::from("manatee")),
        Cow::Borrowed("lambda"),
    ];
    let (some_borrowed, some_owned): (Vec<&str>, Vec<String>) = i.dispatch_cow();

    assert_eq!(some_borrowed, vec!["horse", "lambda"]);
    assert_eq!(some_owned, vec![String::from("manatee")]);
}
