use catdex::error::Error;
use catdex::renderer::PageData;
use catdex::startup::{load_templates, template_name, TemplateFile, TEMPLATE_EXTENSION};

fn file(path: &str, source: &str) -> TemplateFile {
    TemplateFile { path: path.to_string(), source: source.to_string() }
}

#[test]
fn the_extension_is_html() {
    assert_eq!(TEMPLATE_EXTENSION, ".html");
}

#[test]
fn a_template_is_named_by_its_path_without_the_extension() {
    assert_eq!(template_name("index.html", ".html"), Some("index".to_string()));
    assert_eq!(template_name("catdetail.html", ".html"), Some("catdetail".to_string()));
    assert_eq!(template_name("pages/about.html", ".html"), Some("pages/about".to_string()));
    assert_eq!(template_name("a.b.html", ".html"), Some("a.b".to_string()));
    assert_eq!(template_name("übersicht.html", ".html"), Some("übersicht".to_string()));
    assert_eq!(template_name("page.hbs", ".hbs"), Some("page".to_string()));
}

#[test]
fn other_files_are_no_templates() {
    assert_eq!(template_name("style.css", ".html"), None);
    assert_eq!(template_name("images/whiskers.png", ".html"), None);
    assert_eq!(template_name("index.htm", ".html"), None);
    assert_eq!(template_name("html", ".html"), None);
    assert_eq!(template_name("", ".html"), None);
    assert_eq!(template_name("index.html.bak", ".html"), None);
}

#[test]
fn hidden_and_temporary_files_are_passed_over() {
    assert_eq!(template_name(".hidden.html", ".html"), None);
    assert_eq!(template_name("#draft.html", ".html"), None);
    assert_eq!(template_name(".html", ".html"), None);
    assert_eq!(template_name("pages/.hidden.html", ".html"), None);
    assert_eq!(template_name("pages/#draft.html", ".html"), None);
    assert_eq!(template_name(".pages/shown.html", ".html"), Some(".pages/shown".to_string()));
    assert_eq!(template_name("pages/", ""), None);
}

#[test]
fn loading_registers_every_template() {
    let files = vec![
        file("index.html", "list"),
        file("style.css", "{{ not a template"),
        file("add.html", "form"),
        file("catdetail.html", "cat {{name}}"),
        file(".hidden.html", "{{#if}}"),
    ];
    let templates = load_templates(&files, TEMPLATE_EXTENSION).ok().unwrap();
    assert!(templates.has("index"));
    assert!(templates.has("add"));
    assert!(templates.has("catdetail"));
    assert!(!templates.has("style"));
    assert!(!templates.has(".hidden"));
    assert!(!templates.has("index.html"));
    assert_eq!(templates.render("add", &PageData::Empty), Ok("form".to_string()));
}

#[test]
fn a_later_file_replaces_an_earlier_one_of_the_same_name() {
    let files = vec![file("add.html", "first"), file("add.html", "second")];
    let templates = load_templates(&files, TEMPLATE_EXTENSION).ok().unwrap();
    assert_eq!(templates.render("add", &PageData::Empty), Ok("second".to_string()));
}

#[test]
fn an_empty_directory_stops_the_start() {
    assert_eq!(load_templates(&vec![], TEMPLATE_EXTENSION).err(), Some(Error::Startup));
}

#[test]
fn a_directory_without_templates_stops_the_start() {
    let files = vec![file("style.css", "body {}"), file("#index.html", "list")];
    assert_eq!(load_templates(&files, TEMPLATE_EXTENSION).err(), Some(Error::Startup));
}

#[test]
fn a_template_that_does_not_parse_stops_the_start() {
    let files = vec![file("index.html", "list"), file("add.html", "{{#if x}} never closed")];
    assert_eq!(load_templates(&files, TEMPLATE_EXTENSION).err(), Some(Error::Startup));
}

#[test]
fn a_template_that_includes_another_stops_the_start() {
    let files = vec![file("header.html", "<h1>Catdex</h1>"), file("index.html", "{{> header}} list")];
    assert_eq!(load_templates(&files, TEMPLATE_EXTENSION).err(), Some(Error::Startup));
}
