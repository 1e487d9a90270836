use catdex::error::{Error, FormField};
use catdex::models::{Cat, NewCat};
use catdex::store::StoreReply;
use catdex::upload::{destination_path, Upload, UploadEvent, UploadForm};

fn form(name: Option<&str>, image: Option<&str>) -> UploadForm {
    UploadForm { name: name.map(|n| n.to_string()), image: image.map(|i| i.to_string()) }
}

fn whiskers() -> Cat {
    Cat { id: 4, name: "Whiskers".to_string(), image_path: "./static/images/whiskers.png".to_string() }
}

#[test]
fn destination_is_directory_slash_file_name() {
    assert_eq!(destination_path("./static/images", "whiskers.png"), "./static/images/whiskers.png");
    assert_eq!(destination_path("", "a"), "/a");
    assert_eq!(destination_path("dir", ""), "dir/");
}

#[test]
fn destination_takes_the_file_name_as_it_is() {
    assert_eq!(destination_path("./static/images", "../../etc/passwd"), "./static/images/../../etc/passwd");
    assert_eq!(destination_path("./static/images", "my cat ö.png"), "./static/images/my cat ö.png");
}

#[test]
fn a_complete_form_asks_for_the_file_first() {
    let state = Upload::begin(form(Some("Whiskers"), Some("whiskers.png")), "./static/images");
    assert_eq!(
        state,
        Upload::StoreFile {
            name: "Whiskers".to_string(),
            destination: "./static/images/whiskers.png".to_string(),
        }
    );
}

#[test]
fn a_form_without_a_name_fails_and_asks_for_nothing() {
    let state = Upload::begin(form(None, Some("whiskers.png")), "./static/images");
    assert_eq!(state, Upload::Done { outcome: Err(Error::MissingField(FormField::Name)) });
    let state = state.step(UploadEvent::FileStored(true));
    assert_eq!(state, Upload::Done { outcome: Err(Error::MissingField(FormField::Name)) });
    let state = state.step(UploadEvent::Replied(StoreReply::Rows(vec![whiskers()])));
    assert_eq!(state, Upload::Done { outcome: Err(Error::MissingField(FormField::Name)) });
}

#[test]
fn a_form_without_a_file_fails_and_asks_for_nothing() {
    let state = Upload::begin(form(Some("Whiskers"), None), "./static/images");
    assert_eq!(state, Upload::Done { outcome: Err(Error::MissingField(FormField::Image)) });
    let state = state.step(UploadEvent::FileStored(true));
    assert_eq!(state, Upload::Done { outcome: Err(Error::MissingField(FormField::Image)) });
}

#[test]
fn an_empty_form_misses_its_name_first() {
    let state = Upload::begin(form(None, None), "./static/images");
    assert_eq!(state, Upload::Done { outcome: Err(Error::MissingField(FormField::Name)) });
}

#[test]
fn a_stored_file_leads_to_the_insert() {
    let state = Upload::begin(form(Some("Whiskers"), Some("whiskers.png")), "./static/images");
    let state = state.step(UploadEvent::FileStored(true));
    assert_eq!(
        state,
        Upload::InsertRow {
            cat: NewCat {
                name: "Whiskers".to_string(),
                image_path: "./static/images/whiskers.png".to_string(),
            },
        }
    );
}

#[test]
fn a_file_that_cannot_be_stored_fails_without_an_insert() {
    let state = Upload::begin(form(Some("Whiskers"), Some("whiskers.png")), "/not/writable");
    let state = state.step(UploadEvent::FileStored(false));
    assert_eq!(state, Upload::Done { outcome: Err(Error::StorageIo) });
    let state = state.step(UploadEvent::Replied(StoreReply::Rows(vec![whiskers()])));
    assert_eq!(state, Upload::Done { outcome: Err(Error::StorageIo) });
}

#[test]
fn the_reply_to_the_insert_ends_the_pipeline() {
    let state = Upload::begin(form(Some("Whiskers"), Some("whiskers.png")), "./static/images");
    let state = state.step(UploadEvent::FileStored(true));
    let state = state.step(UploadEvent::Replied(StoreReply::Rows(vec![whiskers()])));
    assert_eq!(state, Upload::Done { outcome: Ok(whiskers()) });
}

#[test]
fn a_failed_insert_ends_the_pipeline_with_its_error() {
    for (reply, error) in [(StoreReply::Failed, Error::Query), (StoreReply::Unavailable, Error::Unavailable)] {
        let state = Upload::begin(form(Some("Whiskers"), Some("whiskers.png")), "./static/images");
        let state = state.step(UploadEvent::FileStored(true));
        assert!(matches!(state, Upload::InsertRow { .. }));
        let state = state.step(UploadEvent::Replied(reply));
        assert_eq!(state, Upload::Done { outcome: Err(error) });
    }
}

#[test]
fn an_event_that_was_not_asked_for_changes_nothing() {
    let state = Upload::begin(form(Some("Whiskers"), Some("whiskers.png")), "./static/images");
    let state = state.step(UploadEvent::Replied(StoreReply::Rows(vec![whiskers()])));
    assert!(matches!(state, Upload::StoreFile { .. }));
    let state = state.step(UploadEvent::FileStored(true));
    let state = state.step(UploadEvent::FileStored(false));
    assert!(matches!(state, Upload::InsertRow { .. }));
}
