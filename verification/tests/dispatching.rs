use edisp::dispatch::Dispatch;
use edisp::sums::Sum2::V0;
use edisp::sums::Sum2::V1;
use edisp::dispatchers::CollectDispatch2;
use edisp::dispatchers::CollectDispatch4;
use edisp::dispatchers::CollectDispatch5;
use edisp::dispatchers::CollectDispatch6;
use edisp::dispatchers::CollectDispatch7;
use edisp::dispatchers::CollectDispatch8;
use edisp::sums::Sum2;
use edisp::sums::Sum3;
use edisp::sums::Sum4;
use edisp::sums::Sum5;
use edisp::sums::Sum6;
use edisp::sums::Sum7;
use edisp::sums::Sum8;

#[test]
fn simple_derive() {
    let i = vec![Sum3::V0(42), Sum3::V1("manatee"), Sum3::V2(())];

    let (some_var1, some_var2, some_var3): (Vec<usize>, Vec<&str>, Vec<()>) = Sum3::dispatch(i);
    assert_eq!(some_var1, [42]);
    assert_eq!(some_var2, ["manatee"]);
    assert_eq!(some_var3, [()]);
}

#[test]
fn derive_with_empty_variant() {
    let i = vec![V0(()), V0(()), V1(101)];
    let (some_nothing, some_var1): (Vec<()>, Vec<usize>) = Sum2::dispatch(i);
    assert_eq!(some_nothing, [(), ()]);
    assert_eq!(some_var1, [101]);
}

#[test]
fn derive_with_discriminant_and_attributes() {
    let i = vec![V0(()), V0(()), V1(()), V0(())];
    let (some_a, some_b): (Vec<()>, Vec<()>) = Sum2::dispatch(i);
    assert_eq!(some_a, [(), (), ()]);
    assert_eq!(some_b, [()]);
}

#[test]
fn derive_with_generics() {
    let i = vec![V0(&42), V1('c'), V0(&101)];
    let (some_a, some_b): (Vec<&usize>, Vec<char>) = Sum2::dispatch(i);
    assert_eq!(some_a, [&42, &101]);
    assert_eq!(some_b, ['c']);
}

#[test]
fn two_variant_payloads() {
    let i = vec![V0(42), V1("manatee")];
    let (numbers, texts): (Vec<i32>, Vec<&str>) = Sum2::dispatch(i);
    assert_eq!(numbers, [42]);
    assert_eq!(texts, ["manatee"]);
}

#[test]
fn order_is_preserved_within_each_slot() {
    let i = vec![V0(1), V1("a"), V0(2), V1("b"), V0(3), V1("c"), V0(4)];
    let (numbers, texts): (Vec<i32>, Vec<&str>) = Sum2::dispatch(i);
    assert_eq!(numbers, [1, 2, 3, 4]);
    assert_eq!(texts, ["a", "b", "c"]);
}

#[test]
fn empty_input_yields_empty_accumulators() {
    let i: Vec<Sum3<u8, char, bool>> = Vec::new();
    let (a, b, c): (Vec<u8>, Vec<char>, Vec<bool>) = Sum3::dispatch(i);
    assert_eq!(a, Vec::new());
    assert_eq!(b, Vec::new());
    assert_eq!(c, Vec::new());
}

#[test]
fn partition_through_the_arity_contract() {
    let i = vec![V1(false), V0(7), V1(true)];
    let (numbers, flags): (Vec<u64>, Vec<bool>) = Sum2::partition(i);
    assert_eq!(numbers, [7]);
    assert_eq!(flags, [false, true]);
}

#[test]
fn eight_variant_dispatch() {
    let i = vec![
        Sum8::V0(42usize),
        Sum8::V1("manatee"),
        Sum8::V2('!'),
        Sum8::V3(true),
        Sum8::V4(13u16),
        Sum8::V5(-1isize),
        Sum8::V6(101u8),
        Sum8::V7('s'),
        Sum8::V0(7usize),
    ];
    let (c0, c1, c2, c3, c4, c5, c6, c7): (
        Vec<usize>,
        Vec<&str>,
        Vec<char>,
        Vec<bool>,
        Vec<u16>,
        Vec<isize>,
        Vec<u8>,
        Vec<char>,
    ) = Sum8::partition(i);
    assert_eq!(c0, [42, 7]);
    assert_eq!(c1, ["manatee"]);
    assert_eq!(c2, ['!']);
    assert_eq!(c3, [true]);
    assert_eq!(c4, [13]);
    assert_eq!(c5, [-1]);
    assert_eq!(c6, [101]);
    assert_eq!(c7, ['s']);
}

#[test]
fn dispatch_enum4() {
    let i = vec![Sum4::V0(42usize), Sum4::V1("manatee"), Sum4::V2('!'), Sum4::V3(true)];
    let (c0, c1, c2, c3): (Vec<usize>, Vec<&str>, Vec<char>, Vec<bool>) = Sum4::partition(i);
    assert_eq!(c0, [42]);
    assert_eq!(c1, ["manatee"]);
    assert_eq!(c2, ['!']);
    assert_eq!(c3, [true]);
}

#[test]
fn dispatch_enum5() {
    let i = vec![
        Sum5::V0(42usize),
        Sum5::V1("manatee"),
        Sum5::V2('!'),
        Sum5::V3(true),
        Sum5::V4(1.618f64),
    ];
    let (c0, c1, c2, c3, c4): (Vec<usize>, Vec<&str>, Vec<char>, Vec<bool>, Vec<f64>) =
        Sum5::partition(i);
    assert_eq!(c0, [42]);
    assert_eq!(c1, ["manatee"]);
    assert_eq!(c2, ['!']);
    assert_eq!(c3, [true]);
    assert_eq!(c4, [1.618]);
}

#[test]
fn dispatch_enum6() {
    let i = vec![
        Sum6::V0(42usize),
        Sum6::V1("manatee"),
        Sum6::V2('!'),
        Sum6::V3(true),
        Sum6::V4(1.618f64),
        Sum6::V5(-1isize),
    ];
    let (c0, c1, c2, c3, c4, c5): (
        Vec<usize>,
        Vec<&str>,
        Vec<char>,
        Vec<bool>,
        Vec<f64>,
        Vec<isize>,
    ) = Sum6::partition(i);
    assert_eq!(c0, [42]);
    assert_eq!(c1, ["manatee"]);
    assert_eq!(c2, ['!']);
    assert_eq!(c3, [true]);
    assert_eq!(c4, [1.618]);
    assert_eq!(c5, [-1]);
}

#[test]
fn dispatch_enum7() {
    let i = vec![
        Sum7::V0(42usize),
        Sum7::V1("manatee"),
        Sum7::V2('!'),
        Sum7::V3(true),
        Sum7::V4(1.618f64),
        Sum7::V5(-1isize),
        Sum7::V6(101u8),
    ];
    let (c0, c1, c2, c3, c4, c5, c6): (
        Vec<usize>,
        Vec<&str>,
        Vec<char>,
        Vec<bool>,
        Vec<f64>,
        Vec<isize>,
        Vec<u8>,
    ) = Sum7::partition(i);
    assert_eq!(c0, [42]);
    assert_eq!(c1, ["manatee"]);
    assert_eq!(c2, ['!']);
    assert_eq!(c3, [true]);
    assert_eq!(c4, [1.618]);
    assert_eq!(c5, [-1]);
    assert_eq!(c6, [101]);
}
