use catdex::includes::holds_include;

#[test]
fn an_include_tag_is_found() {
    assert!(holds_include("{{> header}}"));
    assert!(holds_include("<p>{{>header}}</p>"));
    assert!(holds_include("{{#> layout}}body{{/layout}}"));
    assert!(holds_include("{{~> header}}"));
    assert!(holds_include("{{~#> layout}}"));
    assert!(holds_include("{{ \t\r\n > header}}"));
    assert!(holds_include("{{ ~ # > layout}}"));
    assert!(holds_include("{{> @partial-block}}"));
    assert!(!holds_include("{{"));
    assert!(!holds_include("{{~#"));
}

#[test]
fn an_include_tag_is_found_behind_more_braces() {
    assert!(holds_include("{{{> header}}}"));
    assert!(holds_include("{{{{> header}}}}"));
    assert!(holds_include("{ {{> header}}"));
    assert!(holds_include("{{name}}{{> header}}"));
}

#[test]
fn an_include_tag_is_found_where_the_engine_passes_over_it() {
    assert!(holds_include("{{!-- {{> header}} --}}"));
    assert!(holds_include("\\{{> header}}"));
}

#[test]
fn other_tags_are_no_includes() {
    assert!(!holds_include(""));
    assert!(!holds_include("plain text"));
    assert!(!holds_include("{{name}}"));
    assert!(!holds_include("{{{name}}}"));
    assert!(!holds_include("{{#each cats}}{{id}}{{/each}}"));
    assert!(!holds_include("{{#if (gt id 3)}}big{{/if}}"));
    assert!(!holds_include("{{~name~}}"));
    assert!(!holds_include("{{!-- a comment --}}"));
    assert!(!holds_include("{{*inline}}"));
    assert!(!holds_include("{{& name}}"));
}

#[test]
fn a_greater_than_sign_elsewhere_is_no_include() {
    assert!(!holds_include(">"));
    assert!(!holds_include("a > b"));
    assert!(!holds_include("{>"));
    assert!(!holds_include("{ {> x"));
    assert!(!holds_include("<p>{{name}}</p>"));
    assert!(!holds_include("{{name}}>"));
    assert!(!holds_include("{{name >}}"));
    assert!(!holds_include("{{# each > }}"));
    assert!(!holds_include("{{ \n x > y}}"));
}
