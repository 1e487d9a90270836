//! The four request handlers.
//!
//! A handler is split where it has to wait for the store or the file system:
//! the part before says what to ask for, the part after turns the answer into
//! the response.
//!
//! | handler           | route                | before                        | after             |
//! |-------------------|----------------------|-------------------------------|-------------------|
//! | list              | `GET /`              | `list_request`                | `list`            |
//! | show the add form | `GET /add`           |                               | `show_add_form`   |
//! | submit the form   | `POST /add_cat_form` | `start_upload`, `Upload::step`| `submit_add_form` |
//! | show a cat        | `GET /cat/{id}`      | `detail_id`, `detail_request` | `show_detail`     |

use vstd::prelude::*;
use vstd::string::StringExecFns;
use crate::error::{Error, STATUS_INTERNAL_SERVER_ERROR, STATUS_NOT_FOUND};
use crate::models::{Cat, CatView};
use crate::path_param::{cat_id_of, parse_cat_id};
use crate::renderer::{
    render_outcome, text_outcome, PageData, PageDataView, TemplateSet, Templates,
};
use crate::response::{Response, ResponseView};
use crate::store::{
    cat_outcome, get_cat_by_id, get_outcome, list_cats, list_outcome, StoreReply, StoreReplyView,
    StoreRequest, StoreRequestView,
};
use crate::upload::{Upload, UploadForm, UploadView};

verus! {

/// How many cats the list page shows at most.
pub const LIST_LIMIT: u32 = 100;

/// The name that the list page shows for the project.
pub const PROJECT_NAME: &'static str = "Catdex";

/// The template of the list page.
pub const INDEX_TEMPLATE: &'static str = "index";

/// The template of the add form.
pub const ADD_TEMPLATE: &'static str = "add";

/// The template of the detail page.
pub const DETAIL_TEMPLATE: &'static str = "catdetail";

/// The directory that uploaded images are stored in.
pub const IMAGE_DIRECTORY: &'static str = "./static/images";

/// Where a successful submission of the add form redirects to.
pub const HOME: &'static str = "/";

/// The response for a rendering: 200 with the text, or the status of the
/// error.
pub open spec fn page_of(rendering: Result<Seq<char>, Error>) -> ResponseView {
    match rendering {
        Ok(body) => ResponseView::page(body),
        Err(error) => ResponseView::failure(error),
    }
}

/// The response of the list page for a reply of the store.
pub open spec fn list_response(templates: TemplateSet, reply: StoreReplyView) -> ResponseView {
    match list_outcome(reply, LIST_LIMIT as int) {
        Ok(cats) => page_of(
            render_outcome(
                templates,
                INDEX_TEMPLATE@,
                (PageDataView::Index { project_name: PROJECT_NAME@, cats }).json(),
            ),
        ),
        Err(error) => ResponseView::failure(error),
    }
}

/// The response of the add form.
pub open spec fn add_form_response(templates: TemplateSet) -> ResponseView {
    page_of(render_outcome(templates, ADD_TEMPLATE@, PageDataView::Empty.json()))
}

/// The response of the detail page for a reply of the store.
pub open spec fn detail_response(templates: TemplateSet, id: int, reply: StoreReplyView) -> ResponseView {
    match get_outcome(reply, id) {
        Ok(cat) => page_of(
            render_outcome(templates, DETAIL_TEMPLATE@, PageDataView::Detail(cat).json()),
        ),
        Err(error) => ResponseView::failure(error),
    }
}

/// The response to a submitted add form: a redirect to the list if the cat
/// was inserted, else 500 without a body, whatever went wrong.
pub open spec fn submit_response(outcome: Result<CatView, Error>) -> ResponseView {
    match outcome {
        Ok(_) => ResponseView::redirect(HOME@),
        Err(_) => ResponseView::empty(STATUS_INTERNAL_SERVER_ERROR as int),
    }
}

/// Turns a rendering into a response: 200 with the text as body, or the
/// status of the error without a body.
pub fn page_response(rendering: Result<String, Error>) -> (response: Response)
    ensures
        response@ == page_of(text_outcome(rendering)),
{
    match rendering {
        Ok(body) => Response::page(body),
        Err(error) => Response::failure(error),
    }
}

/// The statement that the list page needs answered: the first hundred cats.
pub fn list_request() -> (request: StoreRequest)
    ensures
        request@ == (StoreRequestView::List { limit: LIST_LIMIT as int }),
{
    StoreRequest::List { limit: LIST_LIMIT }
}

/// `GET /`: the list page.
///
/// Answers 500 if the store was unavailable or rejected the statement.
/// Otherwise renders the template `index` with the project's name and at
/// most a hundred cats of the reply, and answers 200 with the text, or 500 if
/// the template is missing or fails.
pub fn list(templates: &Templates, reply: StoreReply) -> (response: Response)
    ensures
        response@ == list_response(templates@, reply@),
{
    match list_cats(reply, LIST_LIMIT) {
        Ok(cats) => {
            let data = PageData::Index { project_name: String::from_str(PROJECT_NAME), cats };
            page_response(templates.render(INDEX_TEMPLATE, &data))
        },
        Err(error) => Response::failure(error),
    }
}

/// `GET /add`: the add form.
///
/// Renders the template `add` without data and answers 200 with the text, or
/// 500 if the template is missing or fails.
pub fn show_add_form(templates: &Templates) -> (response: Response)
    ensures
        response@ == add_form_response(templates@),
{
    page_response(templates.render(ADD_TEMPLATE, &PageData::Empty))
}

/// `GET /cat/{id}`, first step: reads the id from the path.
///
/// Gives the id if the segment writes one, and the response for a bad
/// request, 500, if it does not.
pub fn detail_id(segment: &str) -> (step: Result<i32, Response>)
    ensures
        match step {
            Ok(id) => cat_id_of(segment@) is Ok && id == cat_id_of(segment@)->Ok_0,
            Err(response) => cat_id_of(segment@) is Err && response@ == ResponseView::failure(
                Error::BadRequest,
            ),
        },
{
    match parse_cat_id(segment) {
        Ok(id) => Ok(id),
        Err(error) => Err(Response::failure(error)),
    }
}

/// The statement that the detail page needs answered: the cat with the id.
pub fn detail_request(id: i32) -> (request: StoreRequest)
    ensures
        request@ == (StoreRequestView::Get { id: id as int }),
{
    StoreRequest::Get { id }
}

/// `GET /cat/{id}`, after the store has answered.
///
/// Answers 404 if no row of the reply has the id and 500 if the store was
/// unavailable or rejected the statement. Otherwise renders the template
/// `catdetail` with the cat and answers 200 with the text, or 500 if the
/// template is missing or fails.
pub fn show_detail(templates: &Templates, id: i32, reply: StoreReply) -> (response: Response)
    ensures
        response@ == detail_response(templates@, id as int, reply@),
{
    match get_cat_by_id(reply, id) {
        Ok(cat) => page_response(templates.render(DETAIL_TEMPLATE, &PageData::Detail(cat))),
        Err(error) => Response::failure(error),
    }
}

/// `POST /add_cat_form`, first step: starts the upload pipeline for the
/// submitted form, with the image directory as destination.
pub fn start_upload(form: UploadForm) -> (state: Upload)
    ensures
        state@ == UploadView::begin(form@, IMAGE_DIRECTORY@),
{
    Upload::begin(form, IMAGE_DIRECTORY)
}

/// `POST /add_cat_form`, last step: the response to the pipeline's outcome.
///
/// Answers 303 See Other with `Location: /` if the cat was inserted, and 500
/// without a body if any step failed.
pub fn submit_add_form(outcome: Result<Cat, Error>) -> (response: Response)
    ensures
        response@ == submit_response(cat_outcome(outcome)),
{
    match outcome {
        Ok(_) => Response::redirect(HOME),
        Err(_) => Response::empty(STATUS_INTERNAL_SERVER_ERROR),
    }
}

/// The list page is answered with 200 and the rendered text if the store
/// returned rows and the engine rendered them, and with 500 and no body in
/// every other case.
pub proof fn lemma_list_statuses(templates: TemplateSet, reply: StoreReplyView)
    ensures
        ({
            let response = list_response(templates, reply);
            let rendering = render_outcome(
                templates,
                INDEX_TEMPLATE@,
                (PageDataView::Index {
                    project_name: PROJECT_NAME@,
                    cats: list_outcome(reply, LIST_LIMIT as int)->Ok_0,
                }).json(),
            );
            if reply is Rows && rendering is Ok {
                response == ResponseView::page(rendering->Ok_0)
            } else {
                response == ResponseView::empty(STATUS_INTERNAL_SERVER_ERROR as int)
            }
        }),
{
}

/// The add form is answered with 200 and the rendered text, or with 500 and
/// no body if the engine did not render it.
pub proof fn lemma_add_form_statuses(templates: TemplateSet)
    ensures
        ({
            let response = add_form_response(templates);
            let rendering = render_outcome(templates, ADD_TEMPLATE@, PageDataView::Empty.json());
            if rendering is Ok {
                response == ResponseView::page(rendering->Ok_0)
            } else {
                response == ResponseView::empty(STATUS_INTERNAL_SERVER_ERROR as int)
            }
        }),
{
}

/// The detail page is answered with 404 and no body exactly when the store
/// returned rows and none has the id; with 200 and the rendered text if the
/// cat was found and the engine rendered it; and with 500 and no body in
/// every other case.
pub proof fn lemma_detail_statuses(templates: TemplateSet, id: int, reply: StoreReplyView)
    ensures
        ({
            let response = detail_response(templates, id, reply);
            let fetched = get_outcome(reply, id);
            let rendering = render_outcome(
                templates,
                DETAIL_TEMPLATE@,
                PageDataView::Detail(fetched->Ok_0).json(),
            );
            if fetched is Ok && rendering is Ok {
                response == ResponseView::page(rendering->Ok_0)
            } else if reply is Rows && fetched is Err {
                response == ResponseView::empty(STATUS_NOT_FOUND as int)
            } else {
                response == ResponseView::empty(STATUS_INTERNAL_SERVER_ERROR as int)
            }
        }),
{
}

} // verus!
