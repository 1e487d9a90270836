use catdex::error::{Error, FormField};
use catdex::response::Response;

#[test]
fn only_not_found_is_answered_with_404() {
    assert_eq!(Error::NotFound.status(), 404);
    for error in [
        Error::Unavailable,
        Error::Query,
        Error::MissingField(FormField::Name),
        Error::MissingField(FormField::Image),
        Error::StorageIo,
        Error::TemplateNotFound,
        Error::Render,
        Error::BadRequest,
        Error::Startup,
    ] {
        assert_eq!(error.status(), 500);
    }
}

#[test]
fn a_page_is_200_with_its_body() {
    let response = Response::page("<p>hello</p>".to_string());
    assert_eq!(response, Response { status: 200, location: None, body: "<p>hello</p>".to_string() });
}

#[test]
fn a_redirect_is_303_with_a_location() {
    let response = Response::redirect("/");
    assert_eq!(response, Response { status: 303, location: Some("/".to_string()), body: String::new() });
}

#[test]
fn a_failure_has_no_body() {
    assert_eq!(Response::failure(Error::NotFound), Response { status: 404, location: None, body: String::new() });
    assert_eq!(Response::failure(Error::Query), Response { status: 500, location: None, body: String::new() });
    assert_eq!(Response::empty(500), Response { status: 500, location: None, body: String::new() });
}
