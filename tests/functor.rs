use travvy_utils::functor::{Endofunctor, Functor};

#[test]
fn option_fmap_into_vec() {
    assert_eq!(Some(3).fmap(|x: i32| x * 2), vec![6]);
    assert_eq!(None::<i32>.fmap(|x: i32| x * 2), Vec::<i32>::new());
}

#[test]
fn option_fmap_changes_type() {
    assert_eq!(Some("tr4vvy").fmap(|s: &str| s.len()), vec![6usize]);
}

#[test]
fn option_endo_fmap() {
    assert_eq!(Some(3).endo_fmap(|x: i32| x * 2), Some(6));
    assert_eq!(None::<i32>.endo_fmap(|x: i32| x * 2), None);
}

#[test]
fn option_endo_fmap_identity_law() {
    assert_eq!(Some(3).endo_fmap(|x: i32| x), Some(3));
    assert_eq!(None::<i32>.endo_fmap(|x: i32| x), None);
}

#[test]
fn option_endo_fmap_composition_law() {
    let f = |x: i32| x + 1;
    let g = |x: i32| x * 2;
    assert_eq!(Some(3).endo_fmap(f).endo_fmap(g), Some(3).endo_fmap(|x: i32| g(f(x))));
    assert_eq!(Some(3).endo_fmap(f).endo_fmap(g), Some(8));
    assert_eq!(None::<i32>.endo_fmap(f).endo_fmap(g), None);
}

#[test]
fn option_fmap_calls_closure_once() {
    let mut calls: u32 = 0;
    let v = Some(10).fmap(|x: i32| {
        calls += 1;
        x + 1
    });
    assert_eq!(v, vec![11]);
    assert_eq!(calls, 1);
}
