//! Best-effort page metadata: the `<meta>` and `<link>` tags of one HTML
//! document resolved into a small fixed set of optional fields. Parsing the
//! markup is delegated to an HTML parser; everything after the parse — which
//! element wins, in which order candidates are tried, the author heuristic —
//! is verified here.

use vstd::prelude::*;

use html5ever::parse_document;
use html5ever::tendril::TendrilSink;
use markup5ever_rcdom::NodeData;
use std::io::Cursor;
use markup5ever_rcdom::RcDom;

verus! {

/// One element of the parsed document, in document order: its (lowercased)
/// tag name and its attributes as (name, value) pairs.
pub struct HtmlElement {
    pub tag: String,
    pub attrs: Vec<(String, String)>,
}

/// The value of the first attribute with the given name, if any.
pub open spec fn attr_of(attrs: Seq<(String, String)>, name: Seq<char>) -> Option<Seq<char>>
    decreases attrs.len(),
{
    if attrs.len() == 0 {
        None
    } else if attrs.first().0@ == name {
        Some(attrs.first().1@)
    } else {
        attr_of(attrs.drop_first(), name)
    }
}

/// Whether an attribute value satisfies a constraint: `None` constrains
/// nothing, `Some(w)` asks for the attribute to be present with value `w`.
pub open spec fn opt_match(actual: Option<Seq<char>>, wanted: Option<Seq<char>>) -> bool {
    match wanted {
        Option::None => true,
        Option::Some(w) => actual == Some(w),
    }
}

/// The `content` a `<meta>` element contributes under the given name and
/// property constraints, if any.
pub open spec fn meta_content(
    e: HtmlElement,
    name: Option<Seq<char>>,
    property: Option<Seq<char>>,
) -> Option<Seq<char>> {
    if e.tag@ == "meta"@ && opt_match(attr_of(e.attrs@, "name"@), name) && opt_match(
        attr_of(e.attrs@, "property"@),
        property,
    ) {
        attr_of(e.attrs@, "content"@)
    } else {
        None
    }
}

/// The `href` a `<link>` element contributes under the given rel and type
/// constraints, if any.
pub open spec fn link_href(e: HtmlElement, rel: Seq<char>, ty: Option<Seq<char>>) -> Option<
    Seq<char>,
> {
    if e.tag@ == "link"@ && attr_of(e.attrs@, "rel"@) == Some(rel) && opt_match(
        attr_of(e.attrs@, "type"@),
        ty,
    ) {
        attr_of(e.attrs@, "href"@)
    } else {
        None
    }
}

/// The winning `<meta>` content for a key: the last contributing element of
/// the document overwrites every earlier one.
pub open spec fn lookup_meta(
    elems: Seq<HtmlElement>,
    name: Option<Seq<char>>,
    property: Option<Seq<char>>,
) -> Option<Seq<char>>
    decreases elems.len(),
{
    if elems.len() == 0 {
        None
    } else if meta_content(elems.last(), name, property) is Some {
        meta_content(elems.last(), name, property)
    } else {
        lookup_meta(elems.drop_last(), name, property)
    }
}

/// The winning `<link>` href for a key, later elements overwriting earlier
/// ones.
pub open spec fn lookup_link(elems: Seq<HtmlElement>, rel: Seq<char>, ty: Option<Seq<char>>) -> Option<
    Seq<char>,
>
    decreases elems.len(),
{
    if elems.len() == 0 {
        None
    } else if link_href(elems.last(), rel, ty) is Some {
        link_href(elems.last(), rel, ty)
    } else {
        lookup_link(elems.drop_last(), rel, ty)
    }
}

/// Whether the text contains a dot.
pub open spec fn has_dot(s: Seq<char>) -> bool {
    exists|i: int| 0 <= i < s.len() && s[i] == '.'
}

/// The icon candidates, in order: any icon link, then a PNG icon, then a
/// legacy shortcut icon.
pub open spec fn icon_of(elems: Seq<HtmlElement>) -> Option<Seq<char>> {
    if lookup_link(elems, "icon"@, None) is Some {
        lookup_link(elems, "icon"@, None)
    } else if lookup_link(elems, "icon"@, Some("image/png"@)) is Some {
        lookup_link(elems, "icon"@, Some("image/png"@))
    } else {
        lookup_link(elems, "shortcut icon"@, Some("image/x-icon"@))
    }
}

/// The description candidates: the name keyed form wins over the social
/// property form.
pub open spec fn description_of(elems: Seq<HtmlElement>) -> Option<Seq<char>> {
    if lookup_meta(elems, Some("description"@), None) is Some {
        lookup_meta(elems, Some("description"@), None)
    } else {
        lookup_meta(elems, None, Some("og:description"@))
    }
}

/// The social image field.
pub open spec fn image_of(elems: Seq<HtmlElement>) -> Option<Seq<char>> {
    lookup_meta(elems, None, Some("og:image"@))
}

/// The author field, discarded when it contains a dot: such values are
/// usually domains or addresses misplaced in the author slot.
pub open spec fn author_of(elems: Seq<HtmlElement>) -> Option<Seq<char>> {
    match lookup_meta(elems, Some("author"@), None) {
        Option::Some(a) => if has_dot(a) {
            None
        } else {
            Some(a)
        },
        Option::None => None,
    }
}

/// The view of an optional owned string.
pub open spec fn opt_str_view(o: Option<String>) -> Option<Seq<char>> {
    match o {
        Option::Some(s) => Some(s@),
        Option::None => None,
    }
}

/// The view of an optional borrowed string.
pub open spec fn opt_ref_view(o: Option<&str>) -> Option<Seq<char>> {
    match o {
        Option::Some(s) => Some(s@),
        Option::None => None,
    }
}

/// Page metadata extracted from one HTML document; every field is optional
/// and absence is never an error.
pub struct PageInfo {
    pub icon: Option<String>,
    pub description: Option<String>,
    pub image: Option<String>,
    pub author: Option<String>,
}

/// Whether `r` holds exactly the metadata of the given element list.
pub open spec fn page_info_matches(elems: Seq<HtmlElement>, r: PageInfo) -> bool {
    &&& opt_str_view(r.icon) == icon_of(elems)
    &&& opt_str_view(r.description) == description_of(elems)
    &&& opt_str_view(r.image) == image_of(elems)
    &&& opt_str_view(r.author) == author_of(elems)
}

/// The value of the first attribute with the given name, if any.
pub fn get_attribute(name: &str, attrs: &Vec<(String, String)>) -> (r: Option<String>)
    ensures
        opt_str_view(r) == attr_of(attrs@, name@),
{
    let n = attrs.len();
    proof {
        assert(attrs@.skip(0) =~= attrs@);
    }
    for i in 0..n
        invariant
            n == attrs@.len(),
            attr_of(attrs@, name@) == attr_of(attrs@.skip(i as int), name@),
    {
        proof {
            assert(attrs@.skip(i as int).first() == attrs@[i as int]);
            assert(attrs@.skip(i as int).drop_first() =~= attrs@.skip(i + 1));
        }
        if crate::strutil::str_eq(attrs[i].0.as_str(), name) {
            let r = Some(attrs[i].1.clone());
            return r;
        }
    }
    None
}

/// Whether an optional attribute value satisfies an optional constraint.
fn opt_attr_matches(wanted: Option<&str>, actual: &Option<String>) -> (r: bool)
    ensures
        r == opt_match(opt_str_view(*actual), opt_ref_view(wanted)),
{
    match wanted {
        Option::None => true,
        Option::Some(w) => match actual {
            Option::Some(a) => crate::strutil::str_eq(a.as_str(), w),
            Option::None => false,
        },
    }
}

/// The winning `<meta>` content for the given constraints, scanning the
/// document backwards so that later elements overwrite earlier ones.
fn find_meta(elems: &Vec<HtmlElement>, name: Option<&str>, property: Option<&str>) -> (r: Option<
    String,
>)
    ensures
        opt_str_view(r) == lookup_meta(elems@, opt_ref_view(name), opt_ref_view(property)),
{
    let ghost n = opt_ref_view(name);
    let ghost p = opt_ref_view(property);
    let mut i = elems.len();
    proof {
        assert(elems@.take(i as int) =~= elems@);
    }
    while i > 0
        invariant
            i <= elems@.len(),
            n == opt_ref_view(name),
            p == opt_ref_view(property),
            lookup_meta(elems@, n, p) == lookup_meta(elems@.take(i as int), n, p),
        decreases i,
    {
        i = i - 1;
        let e = &elems[i];
        proof {
            assert(elems@.take(i + 1).last() == elems@[i as int]);
            assert(elems@.take(i + 1).drop_last() =~= elems@.take(i as int));
        }
        let is_meta = crate::strutil::str_eq(e.tag.as_str(), "meta");
        let name_attr = get_attribute("name", &e.attrs);
        let name_ok = opt_attr_matches(name, &name_attr);
        let prop_attr = get_attribute("property", &e.attrs);
        let prop_ok = opt_attr_matches(property, &prop_attr);
        proof {
            assert(is_meta == (elems@[i as int].tag@ == "meta"@));
            assert(opt_str_view(name_attr) == attr_of(elems@[i as int].attrs@, "name"@));
            assert(name_ok == opt_match(attr_of(elems@[i as int].attrs@, "name"@), n));
            assert(prop_ok == opt_match(attr_of(elems@[i as int].attrs@, "property"@), p));
        }
        if is_meta && name_ok && prop_ok {
            let content = get_attribute("content", &e.attrs);
            if content.is_some() {
                proof {
                    assert(meta_content(elems@[i as int], n, p) == opt_str_view(content));
                }
                return content;
            }
        }
        proof {
            assert(meta_content(elems@[i as int], n, p) is None);
        }
    }
    proof {
        assert(elems@.take(0) =~= Seq::<HtmlElement>::empty());
    }
    None
}

/// The winning `<link>` href for the given constraints, scanning the
/// document backwards so that later elements overwrite earlier ones.
fn find_link(elems: &Vec<HtmlElement>, rel: &str, ty: Option<&str>) -> (r: Option<String>)
    ensures
        opt_str_view(r) == lookup_link(elems@, rel@, opt_ref_view(ty)),
{
    let ghost t = opt_ref_view(ty);
    let mut i = elems.len();
    proof {
        assert(elems@.take(i as int) =~= elems@);
    }
    while i > 0
        invariant
            i <= elems@.len(),
            t == opt_ref_view(ty),
            lookup_link(elems@, rel@, t) == lookup_link(elems@.take(i as int), rel@, t),
        decreases i,
    {
        i = i - 1;
        let e = &elems[i];
        proof {
            assert(elems@.take(i + 1).last() == elems@[i as int]);
            assert(elems@.take(i + 1).drop_last() =~= elems@.take(i as int));
        }
        let is_link = crate::strutil::str_eq(e.tag.as_str(), "link");
        let rel_attr = get_attribute("rel", &e.attrs);
        let rel_ok = match &rel_attr {
            Option::Some(a) => crate::strutil::str_eq(a.as_str(), rel),
            Option::None => false,
        };
        let ty_attr = get_attribute("type", &e.attrs);
        if is_link && rel_ok && opt_attr_matches(ty, &ty_attr) {
            let href = get_attribute("href", &e.attrs);
            if href.is_some() {
                return href;
            }
        }
        proof {
            assert(link_href(elems@[i as int], rel@, t) is None);
        }
    }
    proof {
        assert(elems@.take(0) =~= Seq::<HtmlElement>::empty());
    }
    None
}

/// Whether the text contains a dot.
fn contains_dot(s: &str) -> (r: bool)
    ensures
        r == has_dot(s@),
{
    let v = crate::strutil::str_chars(s);
    let n = v.len();
    for i in 0..n
        invariant
            n == v@.len(),
            v@ == s@,
            forall|k: int| 0 <= k < i ==> s@[k] != '.',
    {
        if v[i] == '.' {
            return true;
        }
    }
    false
}

impl PageInfo {
    /// Extracts the metadata fields from one parsed element list. Absence of
    /// every candidate yields an empty field, never an error.
    pub fn from_elements(elems: &Vec<HtmlElement>) -> (r: PageInfo)
        ensures
            page_info_matches(elems@, r),
    {
        let icon = match find_link(elems, "icon", None) {
            Option::Some(v) => Some(v),
            Option::None => match find_link(elems, "icon", Some("image/png")) {
                Option::Some(v) => Some(v),
                Option::None => find_link(elems, "shortcut icon", Some("image/x-icon")),
            },
        };
        let description = match find_meta(elems, Some("description"), None) {
            Option::Some(v) => Some(v),
            Option::None => find_meta(elems, None, Some("og:description")),
        };
        let image = find_meta(elems, None, Some("og:image"));
        let author = match find_meta(elems, Some("author"), None) {
            Option::Some(a) => if contains_dot(a.as_str()) {
                None
            } else {
                Some(a)
            },
            Option::None => None,
        };
        PageInfo { icon, description, image, author }
    }
}

/// The name-keyed description always wins over the social property form:
/// whenever `<meta name="description">` contributes a value, that value is
/// the description, whatever `og:description` says.
pub proof fn lemma_description_prefers_name(elems: Seq<HtmlElement>)
    requires
        lookup_meta(elems, Some("description"@), None) is Some,
    ensures
        description_of(elems) == lookup_meta(elems, Some("description"@), None),
{
}

/// An author value containing a dot is always discarded.
pub proof fn lemma_author_dot_discarded(elems: Seq<HtmlElement>)
    requires
        match lookup_meta(elems, Some("author"@), None) {
            Option::Some(a) => has_dot(a),
            Option::None => true,
        },
    ensures
        author_of(elems) is None,
{
}

} // verus!
