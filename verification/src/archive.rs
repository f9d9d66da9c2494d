//! The archive writer: turns one multipart saved-page snapshot into a plan
//! for a self-contained directory of files — the raw payload, each referenced
//! resource under a numbered name, and a rewritten root document whose
//! references point at the numbered files. Splitting the MIME message is
//! delegated to a mail parser; which parts are written, under which names,
//! and how the root document is rewritten is verified here.

use vstd::prelude::*;

use crate::hashing::spec_content_name;
use crate::strutil::dec_str;
use crate::strutil::replaced;
use crate::strutil::replace_all;
use crate::strutil::str_chars;
use crate::strutil::str_eq;
use crate::strutil::chars_to_string;
use crate::strutil::u64_to_string;
use vstd::utf8::encode_utf8;

verus! {

/// One header of a MIME part, reduced to what the archive writer reads: the
/// content type, the content id and the content location, each either with
/// its parsed value or marked as present but unreadable.
pub enum MimeHeader {
    /// A Content-Type header with its type and optional subtype.
    TypeHeader(String, Option<String>),
    /// A Content-Type header whose value could not be read as a content type.
    TypeHeaderBad,
    /// A Content-ID header with its text value.
    IdHeader(String),
    /// A Content-ID header whose value is not plain text.
    IdHeaderBad,
    /// A Content-Location header with its text value.
    LocationHeader(String),
    /// A Content-Location header whose value is not plain text.
    LocationHeaderBad,
    /// Any other header.
    OtherHeader,
}

/// The decoded body of one MIME part.
pub enum PartBody {
    TextBody(String),
    HtmlBody(String),
    BinaryBody(Vec<u8>),
    InlineBinaryBody(Vec<u8>),
    NestedMessage,
    MultipartBody,
}

/// One part of a parsed MIME message.
pub struct MimePart {
    pub headers: Vec<MimeHeader>,
    pub body: PartBody,
}

/// The parts the mail parser splits a text into, in message order, or `None`
/// where the text cannot be parsed at all. A function of the text alone.
pub uninterp spec fn mime_parts_of(s: Seq<char>) -> Option<Seq<MimePart>>;

#[verifier::external_type_specification]
#[verifier::external_body]
pub struct ExMessagePart<'x>(mail_parser::MessagePart<'x>);

#[verifier::external_type_specification]
#[verifier::external_body]
pub struct ExHeader<'x>(mail_parser::Header<'x>);

/// Conversion helper of `parse_mime`: reduces one header of the outside
/// parser to the cases the archive writer distinguishes, one arm per case.
#[verifier::external_body]
fn convert_header(h: &mail_parser::Header) -> MimeHeader {
    match (&h.name, &h.value) {
        (mail_parser::HeaderName::ContentType, mail_parser::HeaderValue::ContentType(ct)) =>
            MimeHeader::TypeHeader(ct.ctype().to_owned(), ct.subtype().map(|s| s.to_owned())),
        (mail_parser::HeaderName::ContentType, _) => MimeHeader::TypeHeaderBad,
        (mail_parser::HeaderName::ContentId, mail_parser::HeaderValue::Text(t)) =>
            MimeHeader::IdHeader(t.to_string()),
        (mail_parser::HeaderName::ContentId, _) => MimeHeader::IdHeaderBad,
        (mail_parser::HeaderName::ContentLocation, mail_parser::HeaderValue::Text(t)) =>
            MimeHeader::LocationHeader(t.to_string()),
        (mail_parser::HeaderName::ContentLocation, _) => MimeHeader::LocationHeaderBad,
        _ => MimeHeader::OtherHeader,
    }
}

/// Conversion helper of `parse_mime`: moves one part of the outside parser
/// into the library's model, one arm per body kind.
#[verifier::external_body]
fn convert_part(p: &mail_parser::MessagePart) -> MimePart {
    let headers = p.headers.iter().map(convert_header).collect();
    let body = match &p.body {
        mail_parser::PartType::Text(t) => PartBody::TextBody(t.to_string()),
        mail_parser::PartType::Html(t) => PartBody::HtmlBody(t.to_string()),
        mail_parser::PartType::Binary(b) => PartBody::BinaryBody(b.to_vec()),
        mail_parser::PartType::InlineBinary(b) => PartBody::InlineBinaryBody(b.to_vec()),
        mail_parser::PartType::Message(_) => PartBody::NestedMessage,
        mail_parser::PartType::Multipart(_) => PartBody::MultipartBody,
    };
    MimePart { headers, body }
}

/// Relies on mail_parser::MessageParser::parse: splits the text into MIME
/// parts with decoded bodies, in message order, failing exactly where the
/// parser cannot read the text as a message; the parse is a function of the
/// text alone.
#[verifier::external_body]
fn parse_mime(data: &str) -> (r: Option<Vec<MimePart>>)
    ensures
        r is Some <==> mime_parts_of(data@) is Some,
        r matches Some(v) ==> mime_parts_of(data@) matches Some(m) && v@ == m,
{
    let message = mail_parser::MessageParser::default().parse(data.as_bytes())?;
    Some(message.parts.iter().map(convert_part).collect())
}

/// The file extension for a declared content type, covering the fixed set of
/// types a snapshot may reference; anything else has no extension.
pub open spec fn ext_for(t: Seq<char>, s: Option<Seq<char>>) -> Option<Seq<char>> {
    if t == "text"@ && s == Some("html"@) { Some("html"@) }
    else if t == "text"@ && s == Some("css"@) { Some("css"@) }
    else if t == "text"@ && s == Some("javascript"@) { Some("js"@) }
    else if t == "image"@ && s == Some("jpeg"@) { Some("jpg"@) }
    else if t == "image"@ && s == Some("png"@) { Some("png"@) }
    else if t == "image"@ && s == Some("gif"@) { Some("gif"@) }
    else if t == "image"@ && s == Some("bmp"@) { Some("bmp"@) }
    else if t == "image"@ && s == Some("svg+xml"@) { Some("svg"@) }
    else if t == "image"@ && s == Some("webp"@) { Some("webp"@) }
    else if t == "application"@ && s == Some("pdf"@) { Some("pdf"@) }
    else { None }
}

/// The extension a part's headers yield: the first readable Content-Type
/// header decides; an unreadable one is passed over; a part without any
/// readable Content-Type has no extension.
pub open spec fn spec_extension_of(headers: Seq<MimeHeader>) -> Option<Seq<char>>
    decreases headers.len(),
{
    if headers.len() == 0 {
        None
    } else {
        match headers.first() {
            MimeHeader::TypeHeader(t, s) => ext_for(t@, crate::meta::opt_str_view(s)),
            MimeHeader::TypeHeaderBad => spec_extension_of(headers.drop_first()),
            _ => spec_extension_of(headers.drop_first()),
        }
    }
}

/// Text with every leading occurrence of a character removed.
pub open spec fn trim_lead(s: Seq<char>, c: char) -> Seq<char>
    decreases s.len(),
{
    if s.len() > 0 && s.first() == c {
        trim_lead(s.drop_first(), c)
    } else {
        s
    }
}

/// Text with every trailing occurrence of a character removed.
pub open spec fn trim_trail(s: Seq<char>, c: char) -> Seq<char>
    decreases s.len(),
{
    if s.len() > 0 && s.last() == c {
        trim_trail(s.drop_last(), c)
    } else {
        s
    }
}

/// The in-document reference a Content-ID value names: the id without its
/// angle brackets, behind a `cid:` scheme, as the browser itself rewrites
/// inline references.
pub open spec fn cid_ref(t: Seq<char>) -> Seq<char> {
    "cid:"@ + trim_trail(trim_lead(t, '<'), '>')
}

/// What the first Content-ID header yields: `None` when no such header
/// exists, `Some(None)` when the first one is unreadable (the part is then
/// skipped), `Some(Some(r))` for the rewritten reference.
pub open spec fn ref_from_id(headers: Seq<MimeHeader>) -> Option<Option<Seq<char>>>
    decreases headers.len(),
{
    if headers.len() == 0 {
        None
    } else {
        match headers.first() {
            MimeHeader::IdHeader(t) => Some(Some(cid_ref(t@))),
            MimeHeader::IdHeaderBad => Some(None),
            _ => ref_from_id(headers.drop_first()),
        }
    }
}

/// What the first Content-Location header yields, in the same shape.
pub open spec fn ref_from_location(headers: Seq<MimeHeader>) -> Option<Option<Seq<char>>>
    decreases headers.len(),
{
    if headers.len() == 0 {
        None
    } else {
        match headers.first() {
            MimeHeader::LocationHeader(t) => Some(Some(t@)),
            MimeHeader::LocationHeaderBad => Some(None),
            _ => ref_from_location(headers.drop_first()),
        }
    }
}

/// The original in-document reference of a part: its Content-ID first, since
/// the browser rewrote inline references to `cid:` form, falling back to its
/// Content-Location; a part with neither cannot be referenced and is skipped.
pub open spec fn spec_reference_of(headers: Seq<MimeHeader>) -> Option<Seq<char>> {
    match ref_from_id(headers) {
        Option::Some(x) => x,
        Option::None => match ref_from_location(headers) {
            Option::Some(x) => x,
            Option::None => None,
        },
    }
}

/// Whether a part body can be written out as a file.
pub open spec fn writable(b: PartBody) -> bool {
    b is TextBody || b is HtmlBody || b is BinaryBody
}

/// The content of one planned file: either text or raw bytes.
pub enum FileContent {
    TextContent(String),
    BytesContent(Vec<u8>),
}

/// One file of the planned archive directory.
pub struct ArchiveFile {
    pub name: String,
    pub content: FileContent,
}

/// The planned archive directory: its content-addressed name, its files in
/// order (the raw payload first, then the numbered resources, the rewritten
/// root document last), and the relative entry path.
pub struct ArchivePlan {
    pub dir: String,
    pub files: Vec<ArchiveFile>,
    pub entry: String,
}

/// Why a snapshot cannot be turned into an archive.
#[derive(Debug, PartialEq, Eq, Structural)]
pub enum ArchiveError {
    /// The payload is not a MIME message.
    ParseFailed,
    /// The message has fewer than three parts: container, root document and
    /// at least one resource are expected.
    TooFewParts,
    /// The first part is not a multipart container.
    RootNotMultipart,
    /// A resource part declares a content type outside the supported set.
    UnknownContentType,
    /// A referenced resource part has a body that cannot be written.
    UnexpectedBody,
    /// The second part, expected to be the root document, is not HTML.
    UnexpectedIndexBody,
}

/// Whether a planned file content reproduces a part body exactly.
pub open spec fn content_matches(c: FileContent, b: PartBody) -> bool {
    match b {
        PartBody::TextBody(t) => c matches FileContent::TextContent(s) && s@ == t@,
        PartBody::HtmlBody(t) => c matches FileContent::TextContent(s) && s@ == t@,
        PartBody::BinaryBody(v) => c matches FileContent::BytesContent(w) && w@ == v@,
        _ => false,
    }
}

/// The first error among the resource parts from index `k` on: an unknown
/// content type fails the part outright; a part that is referenced but whose
/// body cannot be written fails too; an unreferenced part is skipped.
pub open spec fn spec_resource_scan(parts: Seq<MimePart>, k: int) -> Option<ArchiveError>
    decreases parts.len() - k,
{
    if k < 0 || k >= parts.len() {
        None
    } else if spec_extension_of(parts[k].headers@) is None {
        Some(ArchiveError::UnknownContentType)
    } else if spec_reference_of(parts[k].headers@) is Some && !writable(parts[k].body) {
        Some(ArchiveError::UnexpectedBody)
    } else {
        spec_resource_scan(parts, k + 1)
    }
}

/// The error an archive attempt on this payload yields, or `None` where it
/// succeeds; errors are found in order: the parse, the part count, the
/// container, the resource parts front to back, the root document.
pub open spec fn spec_archive_error(data: Seq<char>) -> Option<ArchiveError> {
    match mime_parts_of(data) {
        Option::None => Some(ArchiveError::ParseFailed),
        Option::Some(parts) => if parts.len() < 3 {
            Some(ArchiveError::TooFewParts)
        } else if !(parts[0].body is MultipartBody) {
            Some(ArchiveError::RootNotMultipart)
        } else {
            match spec_resource_scan(parts, 2) {
                Option::Some(e) => Some(e),
                Option::None => if !(parts[1].body is HtmlBody) {
                    Some(ArchiveError::UnexpectedIndexBody)
                } else {
                    None
                },
            }
        },
    }
}

/// The numbered filename of the next written resource: resources are counted
/// from one, and carry the extension their content type yields.
pub open spec fn numbered_name(count: int, ext: Seq<char>) -> Seq<char> {
    dec_str(count + 1) + seq!['.'] + ext
}

/// The written resources from part `k` on, given `count` resources written
/// before: each referenced part becomes (filename, body); unreferenced parts
/// are skipped and do not advance the numbering.
pub open spec fn spec_files(parts: Seq<MimePart>, k: int, count: int) -> Seq<(Seq<char>, PartBody)>
    decreases parts.len() - k,
{
    if k < 0 || k >= parts.len() {
        Seq::empty()
    } else if spec_reference_of(parts[k].headers@) is None {
        spec_files(parts, k + 1, count)
    } else {
        seq![
            (
                numbered_name(count, spec_extension_of(parts[k].headers@).unwrap()),
                parts[k].body,
            ),
        ] + spec_files(parts, k + 1, count + 1)
    }
}

/// The reference substitutions the rewrite applies, in part order: each
/// written resource maps its original reference to its numbered filename.
pub open spec fn spec_maps(parts: Seq<MimePart>, k: int, count: int) -> Seq<(Seq<char>, Seq<char>)>
    decreases parts.len() - k,
{
    if k < 0 || k >= parts.len() {
        Seq::empty()
    } else if spec_reference_of(parts[k].headers@) is None {
        spec_maps(parts, k + 1, count)
    } else {
        seq![
            (
                spec_reference_of(parts[k].headers@).unwrap(),
                numbered_name(count, spec_extension_of(parts[k].headers@).unwrap()),
            ),
        ] + spec_maps(parts, k + 1, count + 1)
    }
}

/// A text after all substitutions have been applied, first mapping first.
pub open spec fn apply_replacements(text: Seq<char>, maps: Seq<(Seq<char>, Seq<char>)>) -> Seq<char>
    decreases maps.len(),
{
    if maps.len() == 0 {
        text
    } else {
        apply_replacements(replaced(text, maps.first().0, maps.first().1), maps.drop_first())
    }
}

/// The rewritten root document of a successfully parsed snapshot.
pub open spec fn spec_rewritten(parts: Seq<MimePart>) -> Seq<char> {
    apply_replacements(parts[1].body->HtmlBody_0@, spec_maps(parts, 2, 0))
}

/// Whether a plan is exactly the archive of the given payload and parts.
pub open spec fn plan_matches(data: Seq<char>, parts: Seq<MimePart>, plan: ArchivePlan) -> bool {
    let resources = spec_files(parts, 2, 0);
    &&& plan.dir@ == spec_content_name(encode_utf8(data))
    &&& plan.entry@ == spec_content_name(encode_utf8(data)) + "/index.html"@
    &&& plan.files@.len() == resources.len() + 2
    &&& plan.files@[0].name@ == "raw.mhtml"@
    &&& plan.files@[0].content matches FileContent::TextContent(s) && s@ == data
    &&& forall|j: int|
        0 <= j < resources.len() ==> #[trigger] plan.files@[j + 1].name@ == resources[j].0
            && content_matches(plan.files@[j + 1].content, resources[j].1)
    &&& plan.files@.last().name@ == "index.html"@
    &&& plan.files@.last().content matches FileContent::TextContent(s) && s@ == spec_rewritten(parts)
}

/// The first readable Content-Type header decides the extension of a part.
pub fn get_extension(headers: &Vec<MimeHeader>) -> (r: Option<String>)
    ensures
        crate::meta::opt_str_view(r) == spec_extension_of(headers@),
{
    let n = headers.len();
    proof {
        assert(headers@.skip(0) =~= headers@);
    }
    for i in 0..n
        invariant
            n == headers@.len(),
            spec_extension_of(headers@) == spec_extension_of(headers@.skip(i as int)),
    {
        proof {
            assert(headers@.skip(i as int).first() == headers@[i as int]);
            assert(headers@.skip(i as int).drop_first() =~= headers@.skip(i + 1));
        }
        match &headers[i] {
            MimeHeader::TypeHeader(t, s) => {
                return extension_for(t, s);
            },
            _ => {},
        }
    }
    None
}

/// The extension of one declared content type pair.
fn extension_for(t: &String, s: &Option<String>) -> (r: Option<String>)
    ensures
        crate::meta::opt_str_view(r) == ext_for(t@, crate::meta::opt_str_view(*s)),
{
    if str_eq(t.as_str(), "text") && sub_is(s, "html") { Some("html".to_owned()) }
    else if str_eq(t.as_str(), "text") && sub_is(s, "css") { Some("css".to_owned()) }
    else if str_eq(t.as_str(), "text") && sub_is(s, "javascript") { Some("js".to_owned()) }
    else if str_eq(t.as_str(), "image") && sub_is(s, "jpeg") { Some("jpg".to_owned()) }
    else if str_eq(t.as_str(), "image") && sub_is(s, "png") { Some("png".to_owned()) }
    else if str_eq(t.as_str(), "image") && sub_is(s, "gif") { Some("gif".to_owned()) }
    else if str_eq(t.as_str(), "image") && sub_is(s, "bmp") { Some("bmp".to_owned()) }
    else if str_eq(t.as_str(), "image") && sub_is(s, "svg+xml") { Some("svg".to_owned()) }
    else if str_eq(t.as_str(), "image") && sub_is(s, "webp") { Some("webp".to_owned()) }
    else if str_eq(t.as_str(), "application") && sub_is(s, "pdf") { Some("pdf".to_owned()) }
    else { None }
}

/// Whether an optional subtype equals the given text.
fn sub_is(s: &Option<String>, w: &str) -> (r: bool)
    ensures
        r == (crate::meta::opt_str_view(*s) == Some(w@)),
{
    match s {
        Option::Some(v) => str_eq(v.as_str(), w),
        Option::None => false,
    }
}

/// Removes the angle brackets around a Content-ID value and puts it behind
/// the `cid:` scheme.
fn make_cid_ref(t: &str) -> (r: String)
    ensures
        r@ == cid_ref(t@),
{
    let v = str_chars(t);
    let n = v.len();
    let mut a: usize = 0;
    while a < n && v[a] == '<'
        invariant
            a <= n,
            n == v@.len(),
            forall|k: int| 0 <= k < a ==> v@[k] == '<',
        decreases n - a,
    {
        a += 1;
    }
    proof {
        lemma_trim_lead_skip(v@, '<', a as int);
    }
    let mut b: usize = n;
    while b > a && v[b - 1] == '>'
        invariant
            a <= b <= n,
            n == v@.len(),
            forall|k: int| b <= k < n ==> v@[k] == '>',
        decreases b,
    {
        b -= 1;
    }
    let ghost inner = v@.skip(a as int);
    proof {
        lemma_trim_trail_take(inner, '>', (b - a) as int);
    }
    let mut out: Vec<char> = Vec::new();
    out.push('c');
    out.push('i');
    out.push('d');
    out.push(':');
    let mut k: usize = a;
    while k < b
        invariant
            a <= k <= b <= n,
            n == v@.len(),
            out@ =~= seq!['c', 'i', 'd', ':'] + v@.subrange(a as int, k as int),
        decreases b - k,
    {
        out.push(v[k]);
        proof {
            assert(v@.subrange(a as int, k + 1) =~= v@.subrange(a as int, k as int).push(
                v@[k as int]));
        }
        k += 1;
    }
    let r = chars_to_string(&out);
    proof {
        reveal_strlit("cid:");
        assert("cid:"@ =~= seq!['c', 'i', 'd', ':']);
        assert(inner.take((b - a) as int) =~= v@.subrange(a as int, b as int));
        assert(r@ =~= cid_ref(t@));
    }
    r
}

/// Trimming every leading `c` is dropping the longest `c`-prefix.
proof fn lemma_trim_lead_skip(s: Seq<char>, c: char, a: int)
    requires
        0 <= a <= s.len(),
        forall|k: int| 0 <= k < a ==> s[k] == c,
        a < s.len() ==> s[a] != c,
    ensures
        trim_lead(s, c) == s.skip(a),
    decreases a,
{
    if a == 0 {
        assert(s.skip(0) =~= s);
    } else {
        assert(s.first() == c);
        lemma_trim_lead_skip(s.drop_first(), c, a - 1);
        assert(s.drop_first().skip(a - 1) =~= s.skip(a));
    }
}

/// Trimming every trailing `c` is keeping the longest prefix before the
/// trailing `c`-run.
proof fn lemma_trim_trail_take(s: Seq<char>, c: char, b: int)
    requires
        0 <= b <= s.len(),
        forall|k: int| b <= k < s.len() ==> s[k] == c,
        b > 0 ==> s[b - 1] != c,
    ensures
        trim_trail(s, c) == s.take(b),
    decreases s.len(),
{
    if b == s.len() {
        if s.len() > 0 && s.last() == c {
            assert(false);
        }
        assert(s.take(b) =~= s);
    } else {
        assert(s.last() == c);
        lemma_trim_trail_take(s.drop_last(), c, b);
        assert(s.drop_last().take(b) =~= s.take(b));
    }
}

/// The original reference of a part: Content-ID first, rewritten to `cid:`
/// form; Content-Location as the fallback.
pub fn get_content_location(headers: &Vec<MimeHeader>) -> (r: Option<String>)
    ensures
        crate::meta::opt_str_view(r) == spec_reference_of(headers@),
{
    let n = headers.len();
    proof {
        assert(headers@.skip(0) =~= headers@);
    }
    for i in 0..n
        invariant
            n == headers@.len(),
            ref_from_id(headers@) == ref_from_id(headers@.skip(i as int)),
    {
        proof {
            assert(headers@.skip(i as int).first() == headers@[i as int]);
            assert(headers@.skip(i as int).drop_first() =~= headers@.skip(i + 1));
        }
        match &headers[i] {
            MimeHeader::IdHeader(t) => {
                return Some(make_cid_ref(t.as_str()));
            },
            MimeHeader::IdHeaderBad => {
                return None;
            },
            _ => {},
        }
    }
    proof {
        assert(headers@.skip(n as int) =~= Seq::<MimeHeader>::empty());
    }
    for i in 0..n
        invariant
            n == headers@.len(),
            ref_from_id(headers@) is None,
            ref_from_location(headers@) == ref_from_location(headers@.skip(i as int)),
    {
        proof {
            assert(headers@.skip(i as int).first() == headers@[i as int]);
            assert(headers@.skip(i as int).drop_first() =~= headers@.skip(i + 1));
        }
        match &headers[i] {
            MimeHeader::LocationHeader(t) => {
                return Some(t.clone());
            },
            MimeHeader::LocationHeaderBad => {
                return None;
            },
            _ => {},
        }
    }
    proof {
        assert(headers@.skip(n as int) =~= Seq::<MimeHeader>::empty());
    }
    None
}

/// Plans the archive of one snapshot payload: parses it as a MIME message,
/// numbers and collects every referenced resource, and rewrites the root
/// document's references to the numbered filenames. Pure: the plan lists the
/// directory and files to create, it does not touch any disk.
pub fn build_archive_plan(data: &str) -> (r: Result<ArchivePlan, ArchiveError>)
    ensures
        r is Err <==> spec_archive_error(data@) is Some,
        r matches Err(e) ==> Some(e) == spec_archive_error(data@),
        r matches Ok(plan) ==> mime_parts_of(data@) matches Some(parts) && plan_matches(
            data@,
            parts,
            plan,
        ),
{
    let parts = match parse_mime(data) {
        Option::Some(p) => p,
        Option::None => {
            return Err(ArchiveError::ParseFailed);
        },
    };
    if parts.len() < 3 {
        return Err(ArchiveError::TooFewParts);
    }
    let root_ok = match &parts[0].body {
        PartBody::MultipartBody => true,
        _ => false,
    };
    if !root_ok {
        return Err(ArchiveError::RootNotMultipart);
    }

    let ghost pseq = parts@;
    let dir = crate::hashing::bytes_to_hash(data.as_bytes());

    let mut files: Vec<ArchiveFile> = Vec::new();
    files.push(ArchiveFile { name: "raw.mhtml".to_owned(), content: FileContent::TextContent(data.to_owned()) });

    let mut maps: Vec<(String, String)> = Vec::new();
    let n = parts.len();
    let mut k: usize = 2;
    proof {
        assert(spec_resource_scan(pseq, 2) == spec_resource_scan(pseq, k as int));
        assert(spec_files(pseq, 2, 0) =~= spec_files(pseq, 2, 0).skip(0));
        assert(spec_maps(pseq, 2, 0) =~= spec_maps(pseq, 2, 0).skip(0));
    }
    while k < n
        invariant
            2 <= k <= n,
            n == pseq.len(),
            pseq == parts@,
            mime_parts_of(data@) == Some(pseq),
            3 <= n,
            pseq[0].body is MultipartBody,
            spec_resource_scan(pseq, 2) == spec_resource_scan(pseq, k as int),
            maps@.len() <= k - 2,
            maps@.len() + 1 == files@.len(),
            files@[0].name@ == "raw.mhtml"@,
            files@[0].content matches FileContent::TextContent(s) && s@ == data@,
            spec_files(pseq, 2, 0).skip(maps@.len() as int) =~= spec_files(
                pseq,
                k as int,
                maps@.len() as int,
            ),
            spec_maps(pseq, 2, 0).skip(maps@.len() as int) =~= spec_maps(
                pseq,
                k as int,
                maps@.len() as int,
            ),
            spec_files(pseq, 2, 0).len() == maps@.len() + spec_files(
                pseq,
                k as int,
                maps@.len() as int,
            ).len(),
            spec_maps(pseq, 2, 0).len() == maps@.len() + spec_maps(
                pseq,
                k as int,
                maps@.len() as int,
            ).len(),
            forall|j: int|
                0 <= j < maps@.len() ==> #[trigger] files@[j + 1].name@ == spec_files(
                    pseq,
                    2,
                    0,
                )[j].0 && content_matches(files@[j + 1].content, spec_files(pseq, 2, 0)[j].1),
            forall|j: int|
                0 <= j < maps@.len() ==> #[trigger] maps@[j].0@ == spec_maps(pseq, 2, 0)[j].0
                    && maps@[j].1@ == spec_maps(pseq, 2, 0)[j].1,
        decreases n - k,
    {
        let count = maps.len();
        let ext = match get_extension(&parts[k].headers) {
            Option::Some(e) => e,
            Option::None => {
                return Err(ArchiveError::UnknownContentType);
            },
        };
        let reference = match get_content_location(&parts[k].headers) {
            Option::Some(cl) => cl,
            Option::None => {
                // A part that nothing can refer to is passed over rather than
                // written: the rewritten document could never point at it.
                k += 1;
                continue;
            },
        };
        let content = match &parts[k].body {
            PartBody::TextBody(t) => FileContent::TextContent(t.clone()),
            PartBody::HtmlBody(t) => FileContent::TextContent(t.clone()),
            PartBody::BinaryBody(b) => FileContent::BytesContent(b.clone()),
            _ => {
                return Err(ArchiveError::UnexpectedBody);
            },
        };
        let mut filename = u64_to_string((count as u64) + 1);
        filename.push('.');
        filename.append(ext.as_str());
        proof {
            assert(filename@ == numbered_name(count as int, ext@));
            assert(spec_files(pseq, k as int, count as int).first() == (
                numbered_name(count as int, spec_extension_of(pseq[k as int].headers@).unwrap()),
                pseq[k as int].body,
            ));
            assert(spec_files(pseq, k as int, count as int).len() >= 1);
            assert(spec_files(pseq, 2, 0).skip(count as int)[0] == spec_files(pseq, 2, 0)[count as int]);
            assert(spec_files(pseq, 2, 0)[count as int] == spec_files(
                pseq,
                k as int,
                count as int,
            ).first());
            assert(spec_maps(pseq, k as int, count as int).len() >= 1);
            assert(spec_maps(pseq, 2, 0).skip(count as int)[0] == spec_maps(pseq, 2, 0)[count as int]);
            assert(spec_maps(pseq, 2, 0)[count as int] == spec_maps(
                pseq,
                k as int,
                count as int,
            ).first());
            assert(spec_files(pseq, 2, 0).skip(count as int).drop_first() =~= spec_files(
                pseq,
                2,
                0,
            ).skip(count + 1));
            assert(spec_maps(pseq, 2, 0).skip(count as int).drop_first() =~= spec_maps(
                pseq,
                2,
                0,
            ).skip(count + 1));
        }
        files.push(ArchiveFile { name: filename.clone(), content });
        maps.push((reference, filename));
        k += 1;
    }
    proof {
        assert(spec_resource_scan(pseq, n as int) is None);
        assert(spec_files(pseq, n as int, maps@.len() as int) =~= Seq::<(Seq<char>, PartBody)>::empty());
        assert(spec_maps(pseq, n as int, maps@.len() as int) =~= Seq::<(Seq<char>, Seq<char>)>::empty());
        assert(spec_files(pseq, 2, 0).len() == maps@.len());
        assert(spec_maps(pseq, 2, 0).len() == maps@.len());
    }

    let html = match &parts[1].body {
        PartBody::HtmlBody(t) => t.clone(),
        _ => {
            return Err(ArchiveError::UnexpectedIndexBody);
        },
    };

    let mut text = html;
    let mcount = maps.len();
    let mut m: usize = 0;
    proof {
        assert(spec_maps(pseq, 2, 0).skip(0) =~= spec_maps(pseq, 2, 0));
    }
    while m < mcount
        invariant
            m <= mcount,
            mcount == maps@.len(),
            pseq == parts@,
            pseq.len() >= 3,
            pseq[1].body is HtmlBody,
            forall|j: int|
                0 <= j < maps@.len() ==> #[trigger] maps@[j].0@ == spec_maps(pseq, 2, 0)[j].0
                    && maps@[j].1@ == spec_maps(pseq, 2, 0)[j].1,
            spec_maps(pseq, 2, 0).len() == mcount,
            spec_rewritten(pseq) == apply_replacements(text@, spec_maps(pseq, 2, 0).skip(m as int)),
        decreases mcount - m,
    {
        proof {
            assert(spec_maps(pseq, 2, 0).skip(m as int).first() == spec_maps(pseq, 2, 0)[m as int]);
            assert(spec_maps(pseq, 2, 0).skip(m as int).drop_first() =~= spec_maps(
                pseq,
                2,
                0,
            ).skip(m + 1));
        }
        text = replace_all(text.as_str(), maps[m].0.as_str(), maps[m].1.as_str());
        m += 1;
    }
    proof {
        assert(spec_maps(pseq, 2, 0).skip(mcount as int) =~= Seq::<(Seq<char>, Seq<char>)>::empty());
        assert(spec_rewritten(pseq) == text@);
    }

    files.push(ArchiveFile { name: "index.html".to_owned(), content: FileContent::TextContent(text) });

    let mut entry = dir.clone();
    entry.append("/index.html");

    let plan = ArchivePlan { dir, files, entry };
    proof {
        assert(plan.files@.last().name@ == "index.html"@);
        assert(plan_matches(data@, pseq, plan));
    }
    Ok(plan)
}

} // verus!
