//! The view renderer: named templates rendered against the data of a page.
//!
//! The templates live in a Handlebars registry that only this module builds:
//! it starts empty, with the engine's built-in helpers, is put into strict
//! mode, so that a field that the data lacks is an error and not an empty
//! text, and gains templates through `Templates::register` alone. No
//! registered template includes another one: the engine would follow a circle
//! of includes without end, so a source with an include tag is refused. What the
//! engine makes of a template and its data is not modelled; it has a name,
//! `rendered`, and the contracts here say which template and which data the
//! engine is asked about.

use vstd::prelude::*;
use crate::error::Error;
use crate::includes::{has_include, holds_include};
use crate::json::{cat_value, cats_value, json_content, json_null, json_set, json_text, Json};
use crate::models::{cat_views, Cat, CatView};

verus! {

/// `handlebars::Handlebars`, the template registry, opaque to the verifier.
#[verifier::external_type_specification]
#[verifier::external_body]
pub struct ExHandlebars<'reg>(handlebars::Handlebars<'reg>);

/// The registry as this module holds it: it borrows nothing.
pub type Registry = handlebars::Handlebars<'static>;

/// `handlebars::RenderError`, opaque to the verifier.
#[verifier::external_type_specification]
#[verifier::external_body]
pub struct ExRenderError(handlebars::RenderError);

/// `handlebars::TemplateError`, opaque to the verifier.
#[verifier::external_type_specification]
#[verifier::external_body]
pub struct ExTemplateError(handlebars::TemplateError);

/// Template sources by template name.
pub type Sources = Map<Seq<char>, Seq<char>>;

/// The templates that a registry holds: the source each name was last
/// registered with.
pub uninterp spec fn registered_templates(registry: Registry) -> Sources;

/// Whether none of the sources holds an include tag.
pub open spec fn include_free(templates: Sources) -> bool {
    forall|name: Seq<char>| templates.contains_key(name) ==> !has_include(#[trigger] templates[name])
}

/// Whether a registry is in strict mode.
pub uninterp spec fn is_strict(registry: Registry) -> bool;

/// Whether Handlebars accepts `source` as the template `name`: whether it
/// parses.
pub uninterp spec fn template_compiles(name: Seq<char>, source: Seq<char>) -> bool;

/// Whether the service takes `source` as the template `name`: it holds no
/// include tag and the engine accepts it.
pub open spec fn is_accepted(name: Seq<char>, source: Seq<char>) -> bool {
    !has_include(source) && template_compiles(name, source)
}

/// The text that Handlebars renders the template `name` to, among the given
/// templates, in strict mode or not, and with the given data; `None` where
/// rendering fails.
pub uninterp spec fn rendered(
    templates: Sources,
    strict: bool,
    name: Seq<char>,
    data: Json,
) -> Option<Seq<char>>;

/// `Handlebars::new`: a registry with the built-in helpers and the default
/// settings, strict mode off, and no template.
#[verifier::external_body]
fn new_registry() -> (registry: Registry)
    ensures
        registered_templates(registry) == Sources::empty(),
        !is_strict(registry),
{
    handlebars::Handlebars::new()
}

/// `Handlebars::set_strict_mode`: switches strict mode on or off and leaves
/// the templates as they are.
#[verifier::external_body]
fn set_strict_mode(registry: &mut Registry, enabled: bool)
    ensures
        is_strict(*final(registry)) == enabled,
        registered_templates(*final(registry)) == registered_templates(*old(registry)),
{
    registry.set_strict_mode(enabled)
}

/// `Handlebars::register_template_string`: parses `source` and, if it parses,
/// registers it under `name`, in place of what the name held. If it does not
/// parse, the registry stays as it was. The mode stays as it was either way.
#[verifier::external_body]
fn register_template_string(
    registry: &mut Registry,
    name: &str,
    source: &str,
) -> (outcome: Result<(), handlebars::TemplateError>)
    ensures
        outcome is Ok <==> template_compiles(name@, source@),
        outcome is Ok ==> registered_templates(*final(registry)) == registered_templates(
            *old(registry),
        ).insert(name@, source@),
        outcome is Err ==> registered_templates(*final(registry)) == registered_templates(
            *old(registry),
        ),
        is_strict(*final(registry)) == is_strict(*old(registry)),
{
    registry.register_template_string(name, source)
}

/// `Handlebars::has_template`: whether a template is registered under `name`.
#[verifier::external_body]
fn has_template(registry: &Registry, name: &str) -> (found: bool)
    ensures
        found == registered_templates(*registry).contains_key(name@),
{
    registry.has_template(name)
}

/// `Handlebars::render`: renders the template `name` with `data`. The text or
/// the failure is what the engine makes of the registered templates, its
/// mode, the name and the data, and of nothing else.
///
/// The engine follows a circle of templates that include one another until
/// the stack is used up. It is asked only where no registered source holds an
/// include tag: then it renders no template but the one named.
#[verifier::external_body]
fn render_template(
    registry: &Registry,
    name: &str,
    data: &handlebars::JsonValue,
) -> (outcome: Result<String, handlebars::RenderError>)
    requires
        include_free(registered_templates(*registry)),
    ensures
        match outcome {
            Ok(text) => rendered(
                registered_templates(*registry),
                is_strict(*registry),
                name@,
                json_content(*data),
            ) == Some(text@),
            Err(_) => rendered(
                registered_templates(*registry),
                is_strict(*registry),
                name@,
                json_content(*data),
            ) is None,
        },
{
    registry.render(name, data)
}

/// The data of a page.
#[derive(Debug, PartialEq, Eq)]
pub enum PageData {
    /// Nothing: the add form.
    Empty,
    /// One cat: the detail page.
    Detail(Cat),
    /// The project's name and the cats to list: the index page.
    Index { project_name: String, cats: Vec<Cat> },
}

/// The mathematical value of a `PageData`.
pub enum PageDataView {
    Empty,
    Detail(CatView),
    Index { project_name: Seq<char>, cats: Seq<CatView> },
}

impl View for PageData {
    type V = PageDataView;

    open spec fn view(&self) -> PageDataView {
        match self {
            PageData::Empty => PageDataView::Empty,
            PageData::Detail(cat) => PageDataView::Detail(cat@),
            PageData::Index { project_name, cats } => PageDataView::Index {
                project_name: project_name@,
                cats: cat_views(cats@),
            },
        }
    }
}

impl PageDataView {
    /// The JSON value that the engine gets: `null` for no data, the cat's
    /// object for a cat, and an object with the fields `project_name` and
    /// `cats` for the index.
    pub open spec fn json(self) -> Json {
        match self {
            PageDataView::Empty => Json::Null,
            PageDataView::Detail(cat) => Json::of_cat(cat),
            PageDataView::Index { project_name, cats } => Json::Object(
                Map::<Seq<char>, Json>::empty().insert(
                    "project_name"@,
                    Json::Text(project_name),
                ).insert("cats"@, Json::of_cats(cats)),
            ),
        }
    }
}

impl PageData {
    /// Builds the JSON value of the page's data.
    pub(crate) fn to_json(&self) -> (value: handlebars::JsonValue)
        ensures
            json_content(value) == self@.json(),
    {
        match self {
            PageData::Empty => json_null(),
            PageData::Detail(cat) => cat_value(cat),
            PageData::Index { project_name, cats } => {
                let mut value = json_null();
                json_set(&mut value, "project_name", json_text(project_name.as_str()));
                json_set(&mut value, "cats", cats_value(cats));
                value
            },
        }
    }
}

/// The mathematical value of a set of templates: the source of each
/// template by name, and the mode of the engine.
pub struct TemplateSet {
    pub sources: Sources,
    pub strict: bool,
}

/// What rendering the template `name` with `data` comes to:
/// `TemplateNotFound` if no template has the name, else the engine's text, or
/// `Render` if the engine fails.
pub open spec fn render_outcome(templates: TemplateSet, name: Seq<char>, data: Json) -> Result<
    Seq<char>,
    Error,
> {
    if !templates.sources.contains_key(name) {
        Err(Error::TemplateNotFound)
    } else {
        match rendered(templates.sources, templates.strict, name, data) {
            Some(text) => Ok(text),
            None => Err(Error::Render),
        }
    }
}

/// The view of a result that carries text.
pub open spec fn text_outcome(outcome: Result<String, Error>) -> Result<Seq<char>, Error> {
    match outcome {
        Ok(text) => Ok(text@),
        Err(error) => Err(error),
    }
}

/// The set of templates of the service.
pub struct Templates {
    registry: Registry,
}

impl View for Templates {
    type V = TemplateSet;

    closed spec fn view(&self) -> TemplateSet {
        TemplateSet {
            sources: registered_templates(self.registry),
            strict: is_strict(self.registry),
        }
    }
}

impl Templates {
    /// No registered source holds an include tag.
    #[verifier::type_invariant]
    spec fn includes_nothing(self) -> bool {
        include_free(registered_templates(self.registry))
    }

    /// An empty set of templates, with the engine in strict mode.
    pub fn new() -> (templates: Templates)
        ensures
            templates@ == (TemplateSet { sources: Sources::empty(), strict: true }),
    {
        let mut registry = new_registry();
        set_strict_mode(&mut registry, true);
        Templates { registry }
    }

    /// The set with `source` registered under `name`, in place of what the
    /// name held.
    ///
    /// Fails with `Startup` if the source holds an include tag or the engine
    /// does not accept it.
    pub fn register(self, name: &str, source: &str) -> (outcome: Result<Templates, Error>)
        ensures
            outcome is Ok <==> is_accepted(name@, source@),
            outcome matches Ok(templates) ==> templates@ == (TemplateSet {
                sources: self@.sources.insert(name@, source@),
                strict: self@.strict,
            }),
            outcome matches Err(error) ==> error == Error::Startup,
    {
        if holds_include(source) {
            return Err(Error::Startup);
        }
        proof {
            use_type_invariant(&self);
        }
        let mut registry = self.registry;
        match register_template_string(&mut registry, name, source) {
            Ok(_) => Ok(Templates { registry }),
            Err(_) => Err(Error::Startup),
        }
    }

    /// Whether a template is registered under `name`.
    pub fn has(&self, name: &str) -> (found: bool)
        ensures
            found == self@.sources.contains_key(name@),
    {
        has_template(&self.registry, name)
    }

    /// Renders the template `name` with the data of a page.
    ///
    /// Fails with `TemplateNotFound` if no template is registered under the
    /// name. Otherwise the engine is asked for that template with the JSON
    /// value of the data, and the result is its text, or `Render` if it fails.
    pub fn render(&self, name: &str, data: &PageData) -> (outcome: Result<String, Error>)
        ensures
            text_outcome(outcome) == render_outcome(self@, name@, data@.json()),
    {
        if !has_template(&self.registry, name) {
            return Err(Error::TemplateNotFound);
        }
        proof {
            use_type_invariant(self);
        }
        let value = data.to_json();
        match render_template(&self.registry, name, &value) {
            Ok(text) => Ok(text),
            Err(_) => Err(Error::Render),
        }
    }
}

} // verus!
