use monads::monad::{bind, value};

#[test]
fn guarded_composition_filters_and_maps() {
    let input: Vec<i64> = vec![1, 5, 3, 4, 2];
    let out = bind(input.clone(), |item: i64| {
        if item < 4 {
            Some(item * 2)
        } else {
            None
        }
    });
    let direct: Vec<i64> = input.into_iter().filter(|&item| item < 4).map(|item| item * 2).collect();
    assert_eq!(out, direct);
    assert_eq!(out, vec![2, 6, 4]);
}

#[test]
fn guard_false_everywhere_yields_empty() {
    let input: Vec<i64> = vec![10, 20];
    let out = bind(input, |_item: i64| None::<i64>);
    assert_eq!(out, Vec::<i64>::new());
}

#[test]
fn flat_map_concatenates_in_order() {
    let input: Vec<i64> = vec![1, 2, 3];
    let out = bind(input, |item: i64| vec![item, item * 10]);
    assert_eq!(out, vec![1, 10, 2, 20, 3, 30]);
}

#[test]
fn value_produces_one_item() {
    assert_eq!(value(7i64), Some(7));
    let out = bind(value(7i64), |item: i64| vec![item + 1]);
    assert_eq!(out, vec![8]);
}
