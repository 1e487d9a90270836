use catdex::error::Error;
use catdex::models::Cat;
use catdex::store::{get_cat_by_id, insert_cat, list_cats, StoreReply};

fn row(id: i32, name: &str, image_path: &str) -> Cat {
    Cat { id, name: name.to_string(), image_path: image_path.to_string() }
}

fn three_rows() -> Vec<Cat> {
    vec![
        row(1, "Tom", "./static/images/tom.png"),
        row(2, "Felix", "./static/images/felix.png"),
        row(5, "Garfield", "./static/images/garfield.png"),
    ]
}

#[test]
fn list_keeps_all_rows_under_the_limit() {
    assert_eq!(list_cats(StoreReply::Rows(three_rows()), 100), Ok(three_rows()));
    assert_eq!(list_cats(StoreReply::Rows(three_rows()), 3), Ok(three_rows()));
}

#[test]
fn list_cuts_at_the_limit_in_storage_order() {
    let listed = list_cats(StoreReply::Rows(three_rows()), 2);
    assert_eq!(
        listed,
        Ok(vec![row(1, "Tom", "./static/images/tom.png"), row(2, "Felix", "./static/images/felix.png")])
    );
    assert_eq!(list_cats(StoreReply::Rows(three_rows()), 1).unwrap().len(), 1);
    assert_eq!(list_cats(StoreReply::Rows(three_rows()), 0), Ok(vec![]));
}

#[test]
fn list_of_an_empty_reply_is_empty() {
    assert_eq!(list_cats(StoreReply::Rows(vec![]), 100), Ok(vec![]));
}

#[test]
fn list_reports_the_failures_of_the_store() {
    assert_eq!(list_cats(StoreReply::Unavailable, 100), Err(Error::Unavailable));
    assert_eq!(list_cats(StoreReply::Failed, 100), Err(Error::Query));
}

#[test]
fn get_returns_the_row_with_the_id() {
    assert_eq!(
        get_cat_by_id(StoreReply::Rows(three_rows()), 2),
        Ok(row(2, "Felix", "./static/images/felix.png"))
    );
    assert_eq!(
        get_cat_by_id(StoreReply::Rows(three_rows()), 5),
        Ok(row(5, "Garfield", "./static/images/garfield.png"))
    );
}

#[test]
fn get_returns_the_first_of_two_rows_with_the_id() {
    let rows = vec![row(7, "first", "a"), row(7, "second", "b")];
    assert_eq!(get_cat_by_id(StoreReply::Rows(rows), 7), Ok(row(7, "first", "a")));
}

#[test]
fn get_of_an_absent_id_is_not_found() {
    assert_eq!(get_cat_by_id(StoreReply::Rows(three_rows()), 3), Err(Error::NotFound));
    assert_eq!(get_cat_by_id(StoreReply::Rows(vec![]), 1), Err(Error::NotFound));
    assert_eq!(get_cat_by_id(StoreReply::Rows(three_rows()), 999999), Err(Error::NotFound));
    assert_eq!(get_cat_by_id(StoreReply::Rows(three_rows()), 0), Err(Error::NotFound));
}

#[test]
fn get_reports_the_failures_of_the_store() {
    assert_eq!(get_cat_by_id(StoreReply::Unavailable, 1), Err(Error::Unavailable));
    assert_eq!(get_cat_by_id(StoreReply::Failed, 1), Err(Error::Query));
}

#[test]
fn insert_returns_the_row_of_the_reply() {
    let reply = StoreReply::Rows(vec![row(9, "Whiskers", "./static/images/whiskers.png")]);
    assert_eq!(insert_cat(reply), Ok(row(9, "Whiskers", "./static/images/whiskers.png")));
}

#[test]
fn insert_without_a_row_is_a_query_error() {
    assert_eq!(insert_cat(StoreReply::Rows(vec![])), Err(Error::Query));
}

#[test]
fn insert_reports_the_failures_of_the_store() {
    assert_eq!(insert_cat(StoreReply::Unavailable), Err(Error::Unavailable));
    assert_eq!(insert_cat(StoreReply::Failed), Err(Error::Query));
}
