//! Loading the templates when the service starts.
//!
//! The embedding program reads the template directory and hands over each
//! file with its path relative to that directory. A file is a template if its
//! path ends with the template extension and its file name starts neither
//! with `.` nor with `#`; the template's name is the path without the
//! extension. A source that holds an include tag or that the engine does not
//! accept, or a directory without any template, stops the start.

use vstd::prelude::*;
use vstd::string::{StrSliceExecFns, StringExecFns};
use crate::error::Error;
use crate::renderer::{is_accepted, Sources, TemplateSet, Templates};
use crate::text::chars_of;

verus! {

/// The extension of template files.
pub const TEMPLATE_EXTENSION: &'static str = ".html";

/// A file of the template directory.
#[derive(Debug, PartialEq, Eq)]
pub struct TemplateFile {
    /// The path relative to the directory, its parts separated by `/`.
    pub path: String,
    /// The text of the file.
    pub source: String,
}

/// The mathematical value of a `TemplateFile`.
pub struct TemplateFileView {
    pub path: Seq<char>,
    pub source: Seq<char>,
}

impl View for TemplateFile {
    type V = TemplateFileView;

    open spec fn view(&self) -> TemplateFileView {
        TemplateFileView { path: self.path@, source: self.source@ }
    }
}

/// The views of a sequence of files, in order.
pub open spec fn file_views(files: Seq<TemplateFile>) -> Seq<TemplateFileView> {
    Seq::new(files.len(), |i: int| files[i]@)
}

/// Whether `text` ends with `suffix`.
pub open spec fn ends_with(text: Seq<char>, suffix: Seq<char>) -> bool {
    suffix.len() <= text.len() && text.skip(text.len() - suffix.len()) == suffix
}

/// Where the file name starts in a path: after the last `/`, or at the
/// beginning if there is none.
pub open spec fn file_name_start(path: Seq<char>) -> int
    decreases path.len(),
{
    if path.len() == 0 {
        0
    } else if path.last() == '/' {
        path.len() as int
    } else {
        file_name_start(path.drop_last())
    }
}

/// Whether the file is passed over: its name is empty, or hidden (starts
/// with `.`), or temporary (starts with `#`).
pub open spec fn is_passed_over(path: Seq<char>) -> bool {
    let start = file_name_start(path);
    start == path.len() || path[start] == '.' || path[start] == '#'
}

/// The name of the template that a file holds, if it holds one.
pub open spec fn template_name_of(path: Seq<char>, extension: Seq<char>) -> Option<Seq<char>> {
    if ends_with(path, extension) && !is_passed_over(path) {
        Some(path.take(path.len() - extension.len()))
    } else {
        None
    }
}

/// The templates that the files register, one after the other, a later file
/// replacing an earlier one of the same name; `None` if one of the sources is
/// not accepted.
pub open spec fn registered_from(files: Seq<TemplateFileView>, extension: Seq<char>) -> Option<
    Sources,
>
    decreases files.len(),
{
    if files.len() == 0 {
        Some(Map::empty())
    } else {
        match registered_from(files.drop_last(), extension) {
            None => None,
            Some(earlier) => match template_name_of(files.last().path, extension) {
                None => Some(earlier),
                Some(name) => if is_accepted(name, files.last().source) {
                    Some(earlier.insert(name, files.last().source))
                } else {
                    None
                },
            },
        }
    }
}

/// Whether one of the files holds a template.
pub open spec fn has_template_file(files: Seq<TemplateFileView>, extension: Seq<char>) -> bool {
    exists|i: int| 0 <= i < files.len() && template_name_of(#[trigger] files[i].path, extension) is Some
}

/// What loading the files comes to: the registered templates with the
/// engine in strict mode, or `Startup` if a source is not accepted or no file
/// holds a template.
pub open spec fn load_outcome(files: Seq<TemplateFileView>, extension: Seq<char>) -> Result<
    TemplateSet,
    Error,
> {
    match registered_from(files, extension) {
        Some(sources) => if has_template_file(files, extension) {
            Ok(TemplateSet { sources, strict: true })
        } else {
            Err(Error::Startup)
        },
        None => Err(Error::Startup),
    }
}

/// The view of a result that carries a name.
pub open spec fn name_view(name: Option<String>) -> Option<Seq<char>> {
    match name {
        Some(name) => Some(name@),
        None => None,
    }
}

/// The view of a result that carries the loaded templates.
pub open spec fn templates_outcome(outcome: Result<Templates, Error>) -> Result<
    TemplateSet,
    Error,
> {
    match outcome {
        Ok(templates) => Ok(templates@),
        Err(error) => Err(error),
    }
}

/// Derives the name of the template that a file holds.
///
/// Gives the path without the extension if the path ends with the extension
/// and the file is not passed over, and nothing otherwise.
pub fn template_name(path: &str, extension: &str) -> (name: Option<String>)
    ensures
        name_view(name) == template_name_of(path@, extension@),
{
    let chars = chars_of(path);
    let suffix = chars_of(extension);
    let n = chars.len();
    let m = suffix.len();
    if m > n {
        return None;
    }
    let mut k: usize = 0;
    while k < m
        invariant
            k <= m <= n,
            n == chars.len(),
            m == suffix.len(),
            chars@ == path@,
            suffix@ == extension@,
            forall|j: int| 0 <= j < k ==> chars@[n - m + j] == suffix@[j],
        decreases m - k,
    {
        if chars[n - m + k] != suffix[k] {
            assert(path@.skip(n - m)[k as int] != extension@[k as int]);
            return None;
        }
        k += 1;
    }
    assert(path@.skip(n - m) =~= extension@);
    assert(path@.take(n as int) =~= path@);
    let mut start: usize = n;
    while start > 0 && chars[start - 1] != '/'
        invariant
            start <= n,
            n == chars.len(),
            chars@ == path@,
            file_name_start(path@) == file_name_start(path@.take(start as int)),
        decreases start,
    {
        assert(path@.take(start as int).drop_last() =~= path@.take(start - 1));
        start -= 1;
    }
    assert(file_name_start(path@) == start);
    if start == n || chars[start] == '.' || chars[start] == '#' {
        return None;
    }
    let stem = path.substring_char(0, n - m);
    assert(stem@ =~= path@.take(n - m));
    Some(String::from_str(stem))
}

/// Loads the templates of the service from the files of the template
/// directory.
///
/// Registers every file that holds a template, in the order given. Fails
/// with `Startup` if one of them holds an include tag or is not accepted by
/// the engine, and if none of the files holds a template: the service does
/// not start without templates.
pub fn load_templates(files: &Vec<TemplateFile>, extension: &str) -> (outcome: Result<
    Templates,
    Error,
>)
    ensures
        templates_outcome(outcome) == load_outcome(file_views(files@), extension@),
{
    let ghost all = file_views(files@);
    let mut templates = Templates::new();
    let mut found = false;
    let mut i: usize = 0;
    while i < files.len()
        invariant
            i <= files.len(),
            all == file_views(files@),
            registered_from(all.take(i as int), extension@) == Some(templates@.sources),
            templates@.strict,
            found == has_template_file(all.take(i as int), extension@),
        decreases files.len() - i,
    {
        let ghost earlier = all.take(i as int);
        let ghost now = all.take(i + 1);
        assert(now.drop_last() =~= earlier);
        assert(now.last() == files@[i as int]@);
        match template_name(files[i].path.as_str(), extension) {
            None => {
                assert(found == has_template_file(now, extension@)) by {
                    lemma_has_template_file_push(now, extension@);
                }
            },
            Some(name) => {
                match templates.register(name.as_str(), files[i].source.as_str()) {
                    Ok(larger) => {
                        templates = larger;
                    },
                    Err(error) => {
                        proof {
                            lemma_rejected_stays_rejected(all, extension@, i + 1);
                        }
                        return Err(error);
                    },
                }
                assert(has_template_file(now, extension@)) by {
                    lemma_has_template_file_push(now, extension@);
                }
                found = true;
            },
        }
        i += 1;
    }
    assert(all.take(i as int) =~= all);
    if found {
        Ok(templates)
    } else {
        Err(Error::Startup)
    }
}

/// Whether some file holds a template, by the last file and the ones before.
pub proof fn lemma_has_template_file_push(files: Seq<TemplateFileView>, extension: Seq<char>)
    requires
        files.len() > 0,
    ensures
        has_template_file(files, extension) == (has_template_file(files.drop_last(), extension)
            || template_name_of(files.last().path, extension) is Some),
{
    let earlier = files.drop_last();
    if has_template_file(files, extension) {
        let i = choose|i: int|
            0 <= i < files.len() && template_name_of(#[trigger] files[i].path, extension) is Some;
        if i < earlier.len() {
            assert(earlier[i] == files[i]);
        }
    }
    if has_template_file(earlier, extension) {
        let i = choose|i: int|
            0 <= i < earlier.len() && template_name_of(#[trigger] earlier[i].path, extension) is Some;
        assert(files[i] == earlier[i]);
    }
    if template_name_of(files.last().path, extension) is Some {
        assert(files[files.len() - 1] == files.last());
    }
}

/// Once a source among the first `k` files is not accepted, loading all the
/// files fails.
pub proof fn lemma_rejected_stays_rejected(
    files: Seq<TemplateFileView>,
    extension: Seq<char>,
    k: int,
)
    requires
        0 <= k <= files.len(),
        registered_from(files.take(k), extension) is None,
    ensures
        registered_from(files, extension) is None,
    decreases files.len(),
{
    if k == files.len() {
        assert(files.take(k) =~= files);
    } else {
        assert(files.drop_last().take(k) =~= files.take(k));
        lemma_rejected_stays_rejected(files.drop_last(), extension, k);
    }
}

} // verus!
