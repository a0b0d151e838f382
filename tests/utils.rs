use try_poem::schema::common::InternalServerErrorResponse;
use try_poem::text::push_decimal;
use try_poem::utils::div_ceil;

#[test]
fn div_ceil_rounds_up() {
    assert_eq!(div_ceil(7, 5), 2);
    assert_eq!(div_ceil(10, 5), 2);
    assert_eq!(div_ceil(11, 5), 3);
    assert_eq!(div_ceil(1, 1), 1);
    assert_eq!(div_ceil(2, 1), 2);
}

#[test]
fn div_ceil_of_nothing_is_zero() {
    assert_eq!(div_ceil(0, 5), 0);
    assert_eq!(div_ceil(0, 1), 0);
}

#[test]
fn div_ceil_at_the_largest_count() {
    assert_eq!(div_ceil(i32::MAX, 1), i32::MAX);
    assert_eq!(div_ceil(i32::MAX, i32::MAX), 1);
    assert_eq!(div_ceil(i32::MAX, 2), 1073741824);
}

#[test]
fn error_envelope_text() {
    let e = InternalServerErrorResponse::new("routes/todo.rs", "get_detail_todo", "find todo on db", "boom");
    assert_eq!(e.error, "error: on routes/todo.rs::get_detail_todo iden:find todo on db error:boom");
}

#[test]
fn decimal_forms() {
    let mut s = String::from("n=");
    push_decimal(&mut s, 0);
    assert_eq!(s, "n=0");
    let mut s = String::new();
    push_decimal(&mut s, 1234567890);
    assert_eq!(s, "1234567890");
    let mut s = String::new();
    push_decimal(&mut s, -45);
    assert_eq!(s, "-45");
    let mut s = String::new();
    push_decimal(&mut s, i64::MIN);
    assert_eq!(s, "-9223372036854775808");
    let mut s = String::new();
    push_decimal(&mut s, i64::MAX);
    assert_eq!(s, "9223372036854775807");
}
