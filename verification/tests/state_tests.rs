use monads::state::{read, replace, value};

#[test]
fn state_basic() {
    let m = read().bind(|x: i64| {
        value(x + 1).bind(move |y: i64| monads::state::write(y).bind(move |_: ()| value(x + y)))
    });
    assert_eq!(m.call(1), (3, 2));
    assert_eq!(m.call(2), (5, 3));
    assert_eq!(m.call(3), (7, 4));
}

#[test]
fn write_then_read_sees_written_state() {
    let m = monads::state::write(9i64).bind(|_: ()| read());
    assert_eq!(m.call(1), (9, 9));
    assert_eq!(m.call(-50), (9, 9));
}

#[test]
fn read_leaves_state_untouched() {
    let m = read::<i64>();
    assert_eq!(m.call(4), (4, 4));
}

#[test]
fn value_leaves_state_untouched() {
    let m = value::<i64, i64>(7);
    assert_eq!(m.call(1), (7, 1));
}

#[test]
fn replace_yields_old_state() {
    let m = replace(5i64);
    assert_eq!(m.call(2), (2, 5));
}

#[test]
fn reinvocation_is_pure() {
    let m = read().bind(|x: i64| replace(x * 2).bind(move |old_s: i64| value(old_s + x)));
    assert_eq!(m.call(10), (20, 20));
    assert_eq!(m.call(10), (20, 20));
}
