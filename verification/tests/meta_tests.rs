use udrb::meta::{HtmlElement, PageInfo};

/// One element as the runner's HTML parse hands it to the extractor.
fn elem(tag: &str, attrs: &[(&str, &str)]) -> HtmlElement {
    HtmlElement {
        tag: tag.to_string(),
        attrs: attrs.iter().map(|(k, v)| (k.to_string(), v.to_string())).collect(),
    }
}

/// The surrounding document structure every parse produces.
fn document(head: Vec<HtmlElement>) -> Vec<HtmlElement> {
    let mut elems = vec![elem("html", &[]), elem("head", &[])];
    elems.extend(head);
    elems.push(elem("body", &[]));
    elems
}

#[test]
fn description_name_wins_over_property() {
    let info = PageInfo::from_elements(&document(vec![
        elem("meta", &[("name", "description"), ("content", "A")]),
        elem("meta", &[("property", "og:description"), ("content", "B")]),
    ]));
    assert_eq!(info.description.as_deref(), Some("A"));
}

#[test]
fn description_falls_back_to_property() {
    let info = PageInfo::from_elements(&document(vec![
        elem("meta", &[("property", "og:description"), ("content", "B")]),
    ]));
    assert_eq!(info.description.as_deref(), Some("B"));
}

#[test]
fn author_with_dot_is_discarded() {
    let info = PageInfo::from_elements(&document(vec![
        elem("meta", &[("name", "author"), ("content", "example.com")]),
    ]));
    assert_eq!(info.author, None);
}

#[test]
fn author_without_dot_is_kept() {
    let info = PageInfo::from_elements(&document(vec![
        elem("meta", &[("name", "author"), ("content", "Jane Doe")]),
    ]));
    assert_eq!(info.author.as_deref(), Some("Jane Doe"));
}

#[test]
fn image_comes_from_og_image() {
    let info = PageInfo::from_elements(&document(vec![
        elem("meta", &[("property", "og:image"), ("content", "http://x/i.png")]),
    ]));
    assert_eq!(info.image.as_deref(), Some("http://x/i.png"));
}

#[test]
fn icon_comes_from_icon_link() {
    let info = PageInfo::from_elements(&document(vec![
        elem("link", &[("rel", "icon"), ("href", "/favicon.svg")]),
    ]));
    assert_eq!(info.icon.as_deref(), Some("/favicon.svg"));
}

#[test]
fn icon_falls_back_to_shortcut_icon() {
    let info = PageInfo::from_elements(&document(vec![
        elem("link", &[("rel", "shortcut icon"), ("type", "image/x-icon"), ("href", "/f.ico")]),
    ]));
    assert_eq!(info.icon.as_deref(), Some("/f.ico"));
}

#[test]
fn any_icon_beats_typed_candidates() {
    let info = PageInfo::from_elements(&document(vec![
        elem("link", &[("rel", "shortcut icon"), ("type", "image/x-icon"), ("href", "/old.ico")]),
        elem("link", &[("rel", "icon"), ("type", "image/svg+xml"), ("href", "/new.svg")]),
    ]));
    assert_eq!(info.icon.as_deref(), Some("/new.svg"));
}

#[test]
fn later_element_overwrites_earlier() {
    let info = PageInfo::from_elements(&document(vec![
        elem("meta", &[("name", "description"), ("content", "first")]),
        elem("meta", &[("name", "description"), ("content", "second")]),
    ]));
    assert_eq!(info.description.as_deref(), Some("second"));
}

#[test]
fn meta_without_content_contributes_nothing() {
    let info = PageInfo::from_elements(&document(vec![
        elem("meta", &[("name", "description"), ("content", "kept")]),
        elem("meta", &[("name", "description")]),
    ]));
    assert_eq!(info.description.as_deref(), Some("kept"));
}

#[test]
fn empty_document_has_no_fields() {
    let info = PageInfo::from_elements(&document(vec![]));
    assert_eq!(info.icon, None);
    assert_eq!(info.description, None);
    assert_eq!(info.image, None);
    assert_eq!(info.author, None);
}

#[test]
fn non_meta_elements_are_ignored() {
    let info = PageInfo::from_elements(&document(vec![
        elem("div", &[("name", "description"), ("content", "X")]),
        elem("meta", &[("name", "description"), ("content", "real")]),
    ]));
    assert_eq!(info.description.as_deref(), Some("real"));
}
