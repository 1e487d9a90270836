//! The error taxonomy of the service and the HTTP status each error becomes.

use vstd::prelude::*;

verus! {

/// A field of the add form.
#[derive(Debug, Clone, Copy, PartialEq, Eq, Structural)]
pub enum FormField {
    /// The text field `name`.
    Name,
    /// The file field `image`.
    Image,
}

/// Everything that can go wrong while a request is handled or the service starts.
#[derive(Debug, Clone, Copy, PartialEq, Eq, Structural)]
pub enum Error {
    /// No pooled connection could be acquired.
    Unavailable,
    /// The store rejected a statement.
    Query,
    /// No row has the requested id.
    NotFound,
    /// The add form lacks a required field.
    MissingField(FormField),
    /// The uploaded file could not be written to its destination.
    StorageIo,
    /// No template is registered under the requested name.
    TemplateNotFound,
    /// The template engine failed on a registered template.
    Render,
    /// A path parameter is malformed.
    BadRequest,
    /// The service cannot start: its template set is empty or broken.
    Startup,
}

/// HTTP 200.
pub const STATUS_OK: u16 = 200;

/// HTTP 303.
pub const STATUS_SEE_OTHER: u16 = 303;

/// HTTP 404.
pub const STATUS_NOT_FOUND: u16 = 404;

/// HTTP 500.
pub const STATUS_INTERNAL_SERVER_ERROR: u16 = 500;

impl Error {
    /// The status a handler answers with when it fails with this error: 404 for
    /// a record that does not exist, 500 for everything else. Malformed input is
    /// among the latter; no error is answered with 400.
    pub open spec fn status_code(self) -> u16 {
        if self == Error::NotFound {
            STATUS_NOT_FOUND
        } else {
            STATUS_INTERNAL_SERVER_ERROR
        }
    }

    /// Computes `status_code`.
    pub fn status(&self) -> (code: u16)
        ensures
            code == self.status_code(),
    {
        match self {
            Error::NotFound => STATUS_NOT_FOUND,
            _ => STATUS_INTERNAL_SERVER_ERROR,
        }
    }
}

} // verus!
