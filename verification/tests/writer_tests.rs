use monads::writer::{value, Count, Writer};

#[test]
fn writer_basic() {
    let w = value::<i64, String>(1).bind(|x| {
        monads::writer::write(format!("{x}\n")).bind(move |_: ()| {
            value::<i64, String>(x + 2).bind(move |y| {
                monads::writer::write(format!("{y}\n")).bind(move |_: ()| value(x + y))
            })
        })
    });
    let Writer(v, w) = w;
    assert_eq!(v, 4);
    assert_eq!(w, "1\n3\n");
}

#[test]
fn count() {
    let w = value::<i64, Count<i64>>(1).bind(|x| {
        monads::writer::write(Count(x)).bind(move |_: ()| {
            value::<i64, Count<i64>>(x + 2).bind(move |y| {
                monads::writer::write(Count(y)).bind(move |_: ()| value(x + y))
            })
        })
    });
    let Writer(v, Count(c)) = w;
    assert_eq!(v, 4);
    assert_eq!(v, c);
}

#[test]
fn counter_duality_for_negative_start() {
    let x = -17i64;
    let w = monads::writer::write(Count(x)).bind(move |_: ()| monads::writer::write(Count(x + 2)).bind(move |_: ()| value(x + (x + 2))));
    let Writer(v, Count(c)) = w;
    assert_eq!(v, c);
    assert_eq!(v, -32);
}

#[test]
fn vec_accumulator() {
    let w = monads::writer::write(vec![1i64, 2]).bind(|_: ()| monads::writer::write(vec![3i64]).bind(|_: ()| value(0i64)));
    let Writer(v, acc) = w;
    assert_eq!(v, 0);
    assert_eq!(acc, vec![1, 2, 3]);
}

#[test]
fn listen_exposes_accumulator() {
    let w = monads::writer::write("ab".to_string()).listen();
    let Writer((unit, seen), acc) = w;
    assert_eq!(unit, ());
    assert_eq!(seen, "ab");
    assert_eq!(acc, "ab");
}

#[test]
fn listens_transforms_a_copy() {
    let w = monads::writer::write("ab".to_string()).listens(|s: String| s.len());
    let Writer((unit, n), acc) = w;
    assert_eq!(unit, ());
    assert_eq!(n, 2);
    assert_eq!(acc, "ab");
}

#[test]
fn censor_rewrites_accumulator() {
    let w = monads::writer::write("secret".to_string()).censor(|_s: String| "hidden".to_string());
    let Writer(unit, acc) = w;
    assert_eq!(unit, ());
    assert_eq!(acc, "hidden");
}

#[test]
fn pass_applies_carried_rewrite() {
    let w = Writer((5i64, |s: String| s + "!"), "ab".to_string()).pass();
    let Writer(v, acc) = w;
    assert_eq!(v, 5);
    assert_eq!(acc, "ab!");
}
