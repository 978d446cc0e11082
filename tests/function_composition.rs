use travvy_utils::function_composition::{composable, Callable, Compose, Identity};

#[test]
fn test_adheres_to_composition_law() {
    let f = composable(|x: i32| x + 1);
    let g = composable(|x: i32| x * 2);
    let x = 5;
    assert_eq!((f + g).call(x), f.call(g.call(x)));
}

#[test]
fn composition_applies_right_stage_first() {
    let f = composable(|x: i32| x + 1);
    let g = composable(|x: i32| x * 2);
    assert_eq!((f + g).call(5), 11);
    assert_eq!((g + f).call(5), 12);
}

#[test]
fn composable_behaves_as_wrapped_function() {
    let f = composable(|x: i32| x - 7);
    assert_eq!(f.call(5), -2);
    assert_eq!(f.call(0), -7);
}

#[test]
fn identity_returns_argument() {
    assert_eq!(Identity.call(42i32), 42);
    assert_eq!(Identity.call(-1i64), -1);
}

#[test]
fn three_stage_chain() {
    let f = composable(|x: i32| x + 1);
    let g = composable(|x: i32| x * 2);
    let h = composable(|x: i32| x - 3);
    assert_eq!((f + g + h).call(5), 5);
    assert_eq!(f.call(g.call(h.call(5))), 5);
}

#[test]
fn borrowed_composition_chains() {
    let f = composable(|x: i32| x + 1);
    let g = composable(|x: i32| x * 2);
    assert_eq!((&f + g).call(5), 11);
    assert_eq!(f.call(5), 6);
}

#[test]
fn new_composes_two_closures() {
    let h: Compose<_, _, i32, i32, i32> = Compose::new(|x: i32| x * 3, |x: i32| x + 4);
    assert_eq!(h.call(1), 15);
    assert_eq!(h.call(-4), 0);
}

#[test]
fn composition_changes_types() {
    let len_plus_one: Compose<_, _, &str, usize, usize> = Compose::new(|n: usize| n + 1, |s: &str| s.len());
    assert_eq!(len_plus_one.call("abc"), 4);
    assert_eq!(len_plus_one.call(""), 1);
}
