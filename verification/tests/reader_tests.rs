use monads::reader::{read, value};

#[test]
fn nested() {
    let tom = read().bind(|t: String| value(t + "Tom"));
    assert_eq!(tom.call("A".to_string()), "ATom");
    let jerry = read().bind(|j: String| value(j + "Jerry"));
    assert_eq!(jerry.call("A".to_string()), "AJerry");
    let tom_jerry = tom.bind(move |t: String| {
        jerry.bind(move |j: String| value(t.clone() + " and " + &j))
    });
    assert_eq!(tom_jerry.call("A".to_string()), "ATom and AJerry");
    assert_eq!(tom_jerry.call("A".to_string()), "ATom and AJerry");
}

#[test]
fn read_is_identity() {
    let m = read::<i64>();
    assert_eq!(m.call(41), 41);
    assert_eq!(m.call(-8), -8);
    let s = read::<String>();
    assert_eq!(s.call("ctx".to_string()), "ctx");
}

#[test]
fn value_ignores_context() {
    let m = value::<i64, i64>(7);
    assert_eq!(m.call(0), 7);
    assert_eq!(m.call(100), 7);
}

#[test]
fn left_identity_on_a_sample() {
    let bound = value::<i64, i64>(5).bind(|x: i64| read().bind(move |r: i64| value(x + r)));
    let direct = read().bind(move |r: i64| value(5 + r));
    assert_eq!(bound.call(37), direct.call(37));
    assert_eq!(bound.call(37), 42);
}

#[test]
fn same_context_for_every_step() {
    let dup = read().bind(|x: i64| read().bind(move |y: i64| value(x + y)));
    assert_eq!(dup.call(21), 42);
    assert_eq!(dup.call(21), 42);
    assert_eq!(dup.call(-3), -6);
}
