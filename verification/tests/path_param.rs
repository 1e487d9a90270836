use catdex::error::Error;
use catdex::path_param::parse_cat_id;

#[test]
fn plain_number_is_read() {
    assert_eq!(parse_cat_id("42"), Ok(42));
}

#[test]
fn signs_are_accepted() {
    assert_eq!(parse_cat_id("+7"), Ok(7));
    assert_eq!(parse_cat_id("-7"), Ok(-7));
    assert_eq!(parse_cat_id("-0"), Ok(0));
}

#[test]
fn leading_zeros_are_accepted() {
    assert_eq!(parse_cat_id("007"), Ok(7));
    assert_eq!(parse_cat_id("0000000000000000000001"), Ok(1));
}

#[test]
fn bounds_of_the_id_are_exact() {
    assert_eq!(parse_cat_id("2147483647"), Ok(i32::MAX));
    assert_eq!(parse_cat_id("-2147483648"), Ok(i32::MIN));
    assert_eq!(parse_cat_id("2147483648"), Err(Error::BadRequest));
    assert_eq!(parse_cat_id("-2147483649"), Err(Error::BadRequest));
    assert_eq!(parse_cat_id("99999999999999999999999999"), Err(Error::BadRequest));
}

#[test]
fn text_that_is_no_integer_is_a_bad_request() {
    assert_eq!(parse_cat_id(""), Err(Error::BadRequest));
    assert_eq!(parse_cat_id("+"), Err(Error::BadRequest));
    assert_eq!(parse_cat_id("-"), Err(Error::BadRequest));
    assert_eq!(parse_cat_id("abc"), Err(Error::BadRequest));
    assert_eq!(parse_cat_id("12a"), Err(Error::BadRequest));
    assert_eq!(parse_cat_id(" 12"), Err(Error::BadRequest));
    assert_eq!(parse_cat_id("12 "), Err(Error::BadRequest));
    assert_eq!(parse_cat_id("1_000"), Err(Error::BadRequest));
    assert_eq!(parse_cat_id("--1"), Err(Error::BadRequest));
    assert_eq!(parse_cat_id("1.5"), Err(Error::BadRequest));
    assert_eq!(parse_cat_id("٣"), Err(Error::BadRequest));
}

#[test]
fn the_parser_agrees_with_the_standard_parser() {
    for text in ["0", "5", "-5", "+5", "2147483647", "2147483648", "-2147483648", "x", "", "9x", "+-1"] {
        assert_eq!(parse_cat_id(text).ok(), text.parse::<i32>().ok());
    }
}
