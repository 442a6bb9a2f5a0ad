use diceroll::decimal::{append_int, append_nat};

fn shown(v: i128) -> String {
    let mut out = String::new();
    append_int(&mut out, v);
    out
}

#[test]
fn append_int_writes_decimal() {
    assert_eq!(shown(0), "0");
    assert_eq!(shown(7), "7");
    assert_eq!(shown(10), "10");
    assert_eq!(shown(-1), "-1");
    assert_eq!(shown(1234567890), "1234567890");
    assert_eq!(shown(-9007199254740993), "-9007199254740993");
}

#[test]
fn append_int_at_the_limits() {
    assert_eq!(shown(i128::MAX), "170141183460469231731687303715884105727");
    assert_eq!(shown(i128::MIN), "-170141183460469231731687303715884105728");
}

#[test]
fn append_int_keeps_what_was_there() {
    let mut out = String::from("n = ");
    append_int(&mut out, -305);
    append_nat(&mut out, 12);
    assert_eq!(out, "n = -30512");
}

#[test]
fn append_nat_at_the_limit() {
    let mut out = String::new();
    append_nat(&mut out, u128::MAX);
    assert_eq!(out, "340282366920938463463374607431768211455");
}

#[test]
fn append_int_agrees_with_the_standard_formatter() {
    for v in [0i128, 1, -1, 9, 10, 99, 100, -100, 2147483647, -2147483648, 4611686014132420609] {
        assert_eq!(shown(v), format!("{}", v));
    }
}
