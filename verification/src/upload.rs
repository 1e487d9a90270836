//! The upload handler: from a submitted add form to a stored image and a row.
//!
//! The pipeline is a state machine. Each state but the last names the one
//! thing that the embedding program has to do next, and the program reports
//! how that went as an event:
//!
//! 1. `Upload::begin` checks that the form has a name and a file and derives
//!    the destination path.
//! 2. `StoreFile`: the program moves the uploaded file to the destination and
//!    reports `FileStored`.
//! 3. `InsertRow`: the program sends the insert to the store and reports the
//!    reply as `Replied`.
//! 4. `Done`: the pipeline has ended, with the inserted cat or an error.
//!
//! The file is written before the row exists. If the insert fails, the file
//! stays where it is: nothing is rolled back.

use vstd::prelude::*;
use vstd::string::StringExecFns;
use crate::error::{Error, FormField};
use crate::models::{Cat, CatView, NewCat, NewCatView};
use crate::store::{
    cat_outcome, insert_cat, insert_outcome, StoreReply, StoreReplyView, StoreRequestView,
};
use crate::table::CatTableView;

verus! {

/// What the multipart body of the add form held.
#[derive(Debug, PartialEq, Eq)]
pub struct UploadForm {
    /// The text field `name`, if the body had one.
    pub name: Option<String>,
    /// The file name that the file field `image` came with, if the body had
    /// such a field.
    pub image: Option<String>,
}

/// The mathematical value of an `UploadForm`.
pub struct UploadFormView {
    pub name: Option<Seq<char>>,
    pub image: Option<Seq<char>>,
}

/// A state of the pipeline.
#[derive(Debug, PartialEq, Eq)]
pub enum Upload {
    /// Next, move the uploaded file to `destination`.
    StoreFile { name: String, destination: String },
    /// Next, insert `cat` into the store.
    InsertRow { cat: NewCat },
    /// The pipeline has ended.
    Done { outcome: Result<Cat, Error> },
}

/// The mathematical value of an `Upload`.
pub enum UploadView {
    StoreFile { name: Seq<char>, destination: Seq<char> },
    InsertRow { cat: NewCatView },
    Done { outcome: Result<CatView, Error> },
}

/// What the embedding program reports back.
#[derive(Debug, PartialEq, Eq)]
pub enum UploadEvent {
    /// Whether the file reached its destination.
    FileStored(bool),
    /// What the store answered to the insert.
    Replied(StoreReply),
}

/// The mathematical value of an `UploadEvent`.
pub enum UploadEventView {
    FileStored(bool),
    Replied(StoreReplyView),
}

impl View for UploadForm {
    type V = UploadFormView;

    open spec fn view(&self) -> UploadFormView {
        UploadFormView {
            name: match self.name {
                Some(name) => Some(name@),
                None => None,
            },
            image: match self.image {
                Some(file_name) => Some(file_name@),
                None => None,
            },
        }
    }
}

impl View for Upload {
    type V = UploadView;

    open spec fn view(&self) -> UploadView {
        match self {
            Upload::StoreFile { name, destination } => UploadView::StoreFile {
                name: name@,
                destination: destination@,
            },
            Upload::InsertRow { cat } => UploadView::InsertRow { cat: cat@ },
            Upload::Done { outcome } => UploadView::Done { outcome: cat_outcome(*outcome) },
        }
    }
}

impl View for UploadEvent {
    type V = UploadEventView;

    open spec fn view(&self) -> UploadEventView {
        match self {
            UploadEvent::FileStored(stored) => UploadEventView::FileStored(*stored),
            UploadEvent::Replied(reply) => UploadEventView::Replied(reply@),
        }
    }
}

/// The destination of an uploaded file: the directory, a slash, and the
/// name that the file came with, taken as it is.
pub open spec fn destination_of(directory: Seq<char>, file_name: Seq<char>) -> Seq<char> {
    directory + seq!['/'] + file_name
}

impl UploadView {
    /// The state that a form starts the pipeline in.
    pub open spec fn begin(form: UploadFormView, directory: Seq<char>) -> UploadView {
        match (form.name, form.image) {
            (None, _) => UploadView::Done { outcome: Err(Error::MissingField(FormField::Name)) },
            (Some(_), None) => UploadView::Done {
                outcome: Err(Error::MissingField(FormField::Image)),
            },
            (Some(name), Some(file_name)) => UploadView::StoreFile {
                name,
                destination: destination_of(directory, file_name),
            },
        }
    }

    /// The state after an event. An event that does not answer what the state
    /// asked for changes nothing.
    pub open spec fn step(self, event: UploadEventView) -> UploadView {
        match (self, event) {
            (UploadView::StoreFile { name, destination }, UploadEventView::FileStored(stored)) => {
                if stored {
                    UploadView::InsertRow { cat: NewCatView { name, image_path: destination } }
                } else {
                    UploadView::Done { outcome: Err(Error::StorageIo) }
                }
            },
            (UploadView::InsertRow { cat }, UploadEventView::Replied(reply)) => UploadView::Done {
                outcome: insert_outcome(reply),
            },
            _ => self,
        }
    }

    /// The state after a sequence of events.
    pub open spec fn run(self, events: Seq<UploadEventView>) -> UploadView
        decreases events.len(),
    {
        if events.len() == 0 {
            self
        } else {
            self.step(events.first()).run(events.drop_first())
        }
    }

    /// Whether the state asks for a file to be written.
    pub open spec fn writes_file(self) -> bool {
        self is StoreFile
    }

    /// Whether the state asks for a row to be inserted.
    pub open spec fn inserts_row(self) -> bool {
        self is InsertRow
    }
}

/// Builds the destination path of an uploaded file.
pub fn destination_path(directory: &str, file_name: &str) -> (path: String)
    ensures
        path@ == destination_of(directory@, file_name@),
{
    proof {
        reveal_strlit("/");
    }
    let path = String::from_str(directory).concat("/").concat(file_name);
    assert("/"@ =~= seq!['/']);
    path
}

impl Upload {
    /// Starts the pipeline for a submitted form.
    ///
    /// Ends at once with `MissingField` if the form has no name or no file.
    /// Otherwise asks for the file to be stored under the directory, by the
    /// name it came with.
    pub fn begin(form: UploadForm, directory: &str) -> (state: Upload)
        ensures
            state@ == UploadView::begin(form@, directory@),
    {
        match form.name {
            None => Upload::Done { outcome: Err(Error::MissingField(FormField::Name)) },
            Some(name) => match form.image {
                None => Upload::Done { outcome: Err(Error::MissingField(FormField::Image)) },
                Some(file_name) => Upload::StoreFile {
                    name,
                    destination: destination_path(directory, file_name.as_str()),
                },
            },
        }
    }

    /// Advances the pipeline by one event.
    ///
    /// A file that could not be stored ends the pipeline with `StorageIo`; a
    /// stored file leads to the insert of a cat whose image path is the
    /// destination. The reply to the insert ends the pipeline with what the
    /// gateway makes of it.
    pub fn step(self, event: UploadEvent) -> (state: Upload)
        ensures
            state@ == self@.step(event@),
    {
        match self {
            Upload::StoreFile { name, destination } => match event {
                UploadEvent::FileStored(stored) => {
                    if stored {
                        Upload::InsertRow { cat: NewCat { name, image_path: destination } }
                    } else {
                        Upload::Done { outcome: Err(Error::StorageIo) }
                    }
                },
                UploadEvent::Replied(_) => Upload::StoreFile { name, destination },
            },
            Upload::InsertRow { cat } => match event {
                UploadEvent::Replied(reply) => Upload::Done { outcome: insert_cat(reply) },
                UploadEvent::FileStored(_) => Upload::InsertRow { cat },
            },
            Upload::Done { outcome } => Upload::Done { outcome },
        }
    }
}

/// Once the pipeline has ended, no event changes its outcome.
pub proof fn lemma_done_is_final(outcome: Result<CatView, Error>, events: Seq<UploadEventView>)
    ensures
        (UploadView::Done { outcome }).run(events) == (UploadView::Done { outcome }),
    decreases events.len(),
{
    if events.len() > 0 {
        lemma_done_is_final(outcome, events.drop_first());
    }
}

/// A form without a name fails with `MissingField`, and whatever is reported
/// afterwards, the pipeline never asks for a file to be written or a row to
/// be inserted.
pub proof fn lemma_missing_name_does_nothing(
    form: UploadFormView,
    directory: Seq<char>,
    events: Seq<UploadEventView>,
)
    requires
        form.name is None,
    ensures
        ({
            let state = UploadView::begin(form, directory).run(events);
            &&& state == (UploadView::Done { outcome: Err(Error::MissingField(FormField::Name)) })
            &&& !state.writes_file()
            &&& !state.inserts_row()
        }),
{
    lemma_done_is_final(Err(Error::MissingField(FormField::Name)), events);
}

/// A form without a file fails with `MissingField` in the same way.
pub proof fn lemma_missing_image_does_nothing(
    form: UploadFormView,
    directory: Seq<char>,
    events: Seq<UploadEventView>,
)
    requires
        form.name is Some,
        form.image is None,
    ensures
        ({
            let state = UploadView::begin(form, directory).run(events);
            &&& state == (UploadView::Done { outcome: Err(Error::MissingField(FormField::Image)) })
            &&& !state.writes_file()
            &&& !state.inserts_row()
        }),
{
    lemma_done_is_final(Err(Error::MissingField(FormField::Image)), events);
}

/// If the file cannot be stored, the pipeline fails with `StorageIo`, and
/// whatever is reported afterwards, it never asks for a row to be inserted.
pub proof fn lemma_failed_write_inserts_nothing(
    form: UploadFormView,
    directory: Seq<char>,
    events: Seq<UploadEventView>,
)
    requires
        form.name is Some,
        form.image is Some,
    ensures
        ({
            let written = UploadView::begin(form, directory);
            let state = written.step(UploadEventView::FileStored(false)).run(events);
            &&& written.writes_file()
            &&& state == (UploadView::Done { outcome: Err(Error::StorageIo) })
            &&& !state.inserts_row()
        }),
{
    lemma_done_is_final(Err(Error::StorageIo), events);
}

/// If the file is stored and the insert fails, the pipeline ends with the
/// error of the insert. The file was asked for before the insert, at the
/// destination that the cat would have had as its image path; the pipeline
/// asks for nothing that would remove it.
pub proof fn lemma_failed_insert_leaves_file(
    form: UploadFormView,
    directory: Seq<char>,
    reply: StoreReplyView,
    events: Seq<UploadEventView>,
)
    requires
        form.name is Some,
        form.image is Some,
        insert_outcome(reply) is Err,
    ensures
        ({
            let written = UploadView::begin(form, directory);
            let inserting = written.step(UploadEventView::FileStored(true));
            let state = inserting.step(UploadEventView::Replied(reply)).run(events);
            &&& written == (UploadView::StoreFile {
                name: form.name->0,
                destination: destination_of(directory, form.image->0),
            })
            &&& inserting == (UploadView::InsertRow {
                cat: NewCatView {
                    name: form.name->0,
                    image_path: destination_of(directory, form.image->0),
                },
            })
            &&& state == (UploadView::Done { outcome: insert_outcome(reply) })
        }),
{
    lemma_done_is_final(insert_outcome(reply), events);
}

/// An upload that goes through adds exactly one cat. If the form has a name
/// and a file, the file is stored, and the table takes the insert, then the
/// pipeline ends with a cat that has the form's name and the destination as
/// its image path, and that cat is the row that the table gained.
pub proof fn lemma_upload_adds_cat(table: CatTableView, form: UploadFormView, directory: Seq<char>)
    requires
        table.wf(),
        form.name is Some,
        form.image is Some,
        table.reply(
            StoreRequestView::Insert(
                NewCatView {
                    name: form.name->0,
                    image_path: destination_of(directory, form.image->0),
                },
            ),
        ) is Rows,
    ensures
        ({
            let inserting = UploadView::begin(form, directory).step(
                UploadEventView::FileStored(true),
            );
            let request = StoreRequestView::Insert(inserting->cat);
            let state = inserting.step(UploadEventView::Replied(table.reply(request)));
            let after = table.after(request);
            &&& inserting is InsertRow
            &&& state is Done
            &&& state->outcome is Ok
            &&& state->outcome->Ok_0.name == form.name->0
            &&& state->outcome->Ok_0.image_path == destination_of(directory, form.image->0)
            &&& after.wf()
            &&& after.rows == table.rows.push(state->outcome->Ok_0)
        }),
{
    let cat = NewCatView {
        name: form.name->0,
        image_path: destination_of(directory, form.image->0),
    };
    let row = cat.with_id(table.highest_id + 1);
    assert(seq![row].first() == row);
}

} // verus!
