//! The protocol client's verified half: the wire format of outbound command
//! frames (ids, methods, escaped parameters), the interpretation of inbound
//! frames (id correlation, result extraction), the session's id counter, and
//! the readers for each capture operation's response. The socket itself, and
//! every send, receive and sleep, live outside the library; they hand frames
//! in and out as plain text.

use vstd::prelude::*;

use crate::hashing::Artifact;
use crate::hashing::base64_decode_of;
use crate::hashing::decode_artifact;
use crate::hashing::hex_digit;
use crate::hashing::spec_content_name;
use crate::json::Json;
use crate::json::int_field;
use crate::json::json_get;
use crate::json::json_parse_of;
use crate::json::get_field;
use crate::json::get_int_field;
use crate::json::get_str_field;
use crate::json::parse_json;
use crate::json::str_field;
use crate::json::take_field;
use crate::meta::opt_str_view;
use crate::strutil::chars_to_string;
use crate::strutil::dec_str;
use crate::strutil::int_str;
use crate::strutil::i64_to_string;
use crate::strutil::str_chars;
use crate::strutil::u64_to_string;

verus! {

/// A character as it stands inside a JSON string literal: quotes and
/// backslashes are escaped, control characters take the `\u00XX` form, and
/// everything else stands as itself.
pub open spec fn escaped_char(c: char) -> Seq<char> {
    if c == '"' {
        seq!['\\', '"']
    } else if c == '\\' {
        seq!['\\', '\\']
    } else if (c as u32) < 32 {
        seq!['\\', 'u', '0', '0', hex_digit((c as u32) as int / 16), hex_digit((c as u32) as int % 16)]
    } else {
        seq![c]
    }
}

/// A text as it stands inside a JSON string literal.
pub open spec fn json_escaped(s: Seq<char>) -> Seq<char>
    decreases s.len(),
{
    if s.len() == 0 {
        Seq::empty()
    } else {
        json_escaped(s.drop_last()) + escaped_char(s.last())
    }
}

/// A text as a complete JSON string literal, quotes included.
pub open spec fn json_quoted(s: Seq<char>) -> Seq<char> {
    seq!['"'] + json_escaped(s) + seq!['"']
}

/// Renders a text as a JSON string literal.
pub fn quote_json_string(s: &str) -> (r: String)
    ensures
        r@ == json_quoted(s@),
{
    let v = str_chars(s);
    let n = v.len();
    let mut out: Vec<char> = Vec::new();
    out.push('"');
    for i in 0..n
        invariant
            n == v@.len(),
            v@ == s@,
            out@ =~= seq!['"'] + json_escaped(s@.take(i as int)),
    {
        let c = v[i];
        proof {
            assert(s@.take(i + 1).drop_last() =~= s@.take(i as int));
            assert(s@.take(i + 1).last() == s@[i as int]);
        }
        if c == '"' {
            out.push('\\');
            out.push('"');
        } else if c == '\\' {
            out.push('\\');
            out.push('\\');
        } else if (c as u32) < 32 {
            out.push('\\');
            out.push('u');
            out.push('0');
            out.push('0');
            let lo: u32 = (c as u32) % 16;
            let hi: u32 = (c as u32) / 16;
            out.push(hex_char_of(hi));
            out.push(hex_char_of(lo));
        } else {
            out.push(c);
        }
        proof {
            assert(out@ =~= seq!['"'] + json_escaped(s@.take(i + 1)));
        }
    }
    out.push('"');
    let r = chars_to_string(&out);
    proof {
        assert(s@.take(n as int) =~= s@);
        assert(r@ =~= json_quoted(s@));
    }
    r
}

/// The lowercase hex digit character of a value below 16.
fn hex_char_of(v: u32) -> (c: char)
    requires
        v < 16,
    ensures
        c == hex_digit(v as int),
{
    if v == 0 { '0' } else if v == 1 { '1' } else if v == 2 { '2' }
    else if v == 3 { '3' } else if v == 4 { '4' } else if v == 5 { '5' }
    else if v == 6 { '6' } else if v == 7 { '7' } else if v == 8 { '8' }
    else if v == 9 { '9' } else if v == 10 { 'a' } else if v == 11 { 'b' }
    else if v == 12 { 'c' } else if v == 13 { 'd' } else if v == 14 { 'e' }
    else { 'f' }
}

/// One outbound command frame: `{"id":N,"method":"M","params":P}`, with the
/// method name taken verbatim and the params already rendered as JSON.
pub open spec fn spec_frame(id: int, method: Seq<char>, params: Seq<char>) -> Seq<char> {
    "{\"id\":"@ + dec_str(id) + ",\"method\":\""@ + method + "\",\"params\":"@ + params + "}"@
}

/// Renders one outbound command frame. The method name is embedded verbatim:
/// the protocol's method names need no escaping.
pub fn build_frame(id: u64, method: &str, params: &str) -> (r: String)
    ensures
        r@ == spec_frame(id as int, method@, params@),
{
    let mut r = "{\"id\":".to_owned();
    let ids = u64_to_string(id);
    r.append(ids.as_str());
    r.append(",\"method\":\"");
    r.append(method);
    r.append("\",\"params\":");
    r.append(params);
    r.append("}");
    r
}

/// The session of the protocol client: its message-id counter. Ids strictly
/// increase and are never reused within one session.
pub struct Session {
    pub next_id: u64,
}

impl Session {
    /// A fresh session, counting from zero.
    pub fn new() -> (s: Session)
        ensures
            s.next_id == 0,
    {
        Session { next_id: 0 }
    }

    /// Allocates the next message id and renders the command frame carrying
    /// it. The id counter strictly increases with every command.
    pub fn next_command(&mut self, method: &str, params: &str) -> (r: (u64, String))
        requires
            old(self).next_id < u64::MAX,
        ensures
            final(self).next_id == old(self).next_id + 1,
            r.0 == old(self).next_id,
            r.1@ == spec_frame(old(self).next_id as int, method@, params@),
    {
        let id = self.next_id;
        self.next_id = self.next_id + 1;
        let frame = build_frame(id, method, params);
        (id, frame)
    }
}

/// What one inbound frame means to a command awaiting its reply.
pub enum FrameOutcome {
    /// The frame answers some other id and is discarded.
    Mismatch,
    /// The frame is not valid JSON, or matches the id without carrying a
    /// result: the call fails.
    Malformed,
    /// The frame answers the awaited id; its `result` field.
    Reply(Json),
}

/// Whether a parsed frame answers the awaited id.
pub open spec fn id_matches(j: Json, id: int) -> bool {
    int_field(j, "id"@) == Some(id)
}

/// Whether `r` is the meaning of an inbound frame text for a command with
/// the awaited id: unparsable text is malformed, a foreign id is discarded,
/// a matching frame must carry a `result` field.
pub open spec fn outcome_matches(s: Seq<char>, id: int, r: FrameOutcome) -> bool {
    match json_parse_of(s) {
        Option::None => r is Malformed,
        Option::Some(j) => if !id_matches(j, id) {
            r is Mismatch
        } else {
            match json_get(j, "result"@) {
                Option::Some(res) => r matches FrameOutcome::Reply(x) && x == res,
                Option::None => r is Malformed,
            }
        },
    }
}

/// Interprets one inbound frame for the command with the given id.
pub fn match_frame(frame: &str, id: u64) -> (r: FrameOutcome)
    ensures
        outcome_matches(frame@, id as int, r),
{
    let j = match parse_json(frame) {
        Option::Some(j) => j,
        Option::None => {
            return FrameOutcome::Malformed;
        },
    };
    let matches_id = match get_int_field(&j, "id") {
        Option::Some(v) => v >= 0 && (v as u64) == id,
        Option::None => false,
    };
    if !matches_id {
        return FrameOutcome::Mismatch;
    }
    match take_field(j, "result") {
        Option::Some(res) => FrameOutcome::Reply(res),
        Option::None => FrameOutcome::Malformed,
    }
}

/// The base64 payload a capture result carries under its `data` field.
pub open spec fn spec_data_of(j: Json) -> Option<Seq<char>> {
    str_field(j, "data"@)
}

/// Reads the `data` field of a capture result and stores it by content: the
/// decoded bytes under the hex digest of those bytes plus the given suffix.
/// Fails where the field is missing, not a string, or not valid base64.
pub fn capture_artifact(result: &Json, suffix: &str) -> (r: Option<Artifact>)
    ensures
        r is Some <==> (spec_data_of(*result) matches Some(d) && base64_decode_of(d) is Some),
        r matches Some(a) ==> spec_data_of(*result) matches Some(d) && base64_decode_of(d)
            matches Some(m) && a.bytes@ == m && a.filename@ == spec_content_name(m) + suffix@,
{
    match get_str_field(result, "data") {
        Option::Some(data) => decode_artifact(data.as_str(), suffix),
        Option::None => None,
    }
}

/// The content width and height a layout-metrics result reports.
pub open spec fn spec_dims_of(j: Json) -> Option<(int, int)> {
    match json_get(j, "contentSize"@) {
        Option::Some(cs) => match (int_field(cs, "width"@), int_field(cs, "height"@)) {
            (Option::Some(w), Option::Some(h)) => Some((w, h)),
            _ => None,
        },
        Option::None => None,
    }
}

/// Reads the content dimensions out of a layout-metrics result.
pub fn layout_dims(result: &Json) -> (r: Option<(i64, i64)>)
    ensures
        match r {
            Option::Some(d) => spec_dims_of(*result) == Some((d.0 as int, d.1 as int)),
            Option::None => spec_dims_of(*result) is None,
        },
{
    match get_field(result, "contentSize") {
        Option::Some(cs) => {
            let w = get_int_field(cs, "width");
            let h = get_int_field(cs, "height");
            match (w, h) {
                (Option::Some(w), Option::Some(h)) => Some((w, h)),
                _ => None,
            }
        },
        Option::None => None,
    }
}

/// The title an evaluation result carries under `result.value`.
pub open spec fn spec_title_of(j: Json) -> Option<Seq<char>> {
    match json_get(j, "result"@) {
        Option::Some(inner) => str_field(inner, "value"@),
        Option::None => None,
    }
}

/// Reads the page title out of a `document.title` evaluation result; the
/// value must be a string.
pub fn read_title(result: &Json) -> (r: Option<String>)
    ensures
        opt_str_view(r) == spec_title_of(*result),
{
    match get_field(result, "result") {
        Option::Some(inner) => get_str_field(inner, "value"),
        Option::None => None,
    }
}

/// Why no debuggable target can be taken from a discovery response.
#[derive(Debug, PartialEq, Eq, Structural)]
pub enum TargetError {
    /// The response is not valid JSON.
    Unparsable,
    /// The response is not an array of targets.
    NotArray,
    /// The target list is empty: no tab to attach to.
    NoTargets,
    /// The first target carries no debugger URL.
    MissingUrl,
}

/// The debugger URL of the first discovered target, or why there is none.
pub open spec fn spec_target_of(s: Seq<char>) -> Result<Seq<char>, TargetError> {
    match json_parse_of(s) {
        Option::None => Err(TargetError::Unparsable),
        Option::Some(j) => match j {
            Json::JArr(items) => if items@.len() == 0 {
                Err(TargetError::NoTargets)
            } else {
                match str_field(items@[0], "webSocketDebuggerUrl"@) {
                    Option::Some(u) => Ok(u),
                    Option::None => Err(TargetError::MissingUrl),
                }
            },
            _ => Err(TargetError::NotArray),
        },
    }
}

/// Selects the first debuggable target out of a discovery response: the
/// `webSocketDebuggerUrl` of the first entry of the returned array.
pub fn select_target(body: &str) -> (r: Result<String, TargetError>)
    ensures
        r matches Ok(u) ==> spec_target_of(body@) == Ok::<Seq<char>, TargetError>(u@),
        r matches Err(e) ==> spec_target_of(body@) == Err::<Seq<char>, TargetError>(e),
{
    let j = match parse_json(body) {
        Option::Some(j) => j,
        Option::None => {
            return Err(TargetError::Unparsable);
        },
    };
    match &j {
        Json::JArr(items) => {
            if items.len() == 0 {
                Err(TargetError::NoTargets)
            } else {
                match get_str_field(&items[0], "webSocketDebuggerUrl") {
                    Option::Some(u) => Ok(u),
                    Option::None => Err(TargetError::MissingUrl),
                }
            }
        },
        _ => Err(TargetError::NotArray),
    }
}

/// The navigation parameters: the target URL as an escaped JSON string.
pub open spec fn spec_navigate_params(url: Seq<char>) -> Seq<char> {
    "{\"url\":"@ + json_quoted(url) + "}"@
}

/// Renders the parameters of a navigation command.
pub fn navigate_params(url: &str) -> (r: String)
    ensures
        r@ == spec_navigate_params(url@),
{
    let mut r = "{\"url\":".to_owned();
    let q = quote_json_string(url);
    r.append(q.as_str());
    r.append("}");
    r
}

/// The evaluation parameters: the expression as an escaped JSON string, and
/// whether the resulting value is to be returned.
pub open spec fn spec_evaluate_params(script: Seq<char>, by_value: bool) -> Seq<char> {
    "{\"expression\":"@ + json_quoted(script) + ",\"returnByValue\":"@ + (if by_value {
        "true"@
    } else {
        "false"@
    }) + "}"@
}

/// Renders the parameters of a script evaluation command.
pub fn evaluate_params(script: &str, by_value: bool) -> (r: String)
    ensures
        r@ == spec_evaluate_params(script@, by_value),
{
    let mut r = "{\"expression\":".to_owned();
    let q = quote_json_string(script);
    r.append(q.as_str());
    r.append(",\"returnByValue\":");
    if by_value {
        r.append("true");
    } else {
        r.append("false");
    }
    r.append("}");
    r
}

/// The device-metrics override matching a page's content size one to one.
pub open spec fn spec_device_metrics_params(w: int, h: int) -> Seq<char> {
    "{\"width\":"@ + int_str(w) + ",\"screenWidth\":"@ + int_str(w) + ",\"height\":"@ + int_str(h)
        + ",\"screenHeight\":"@ + int_str(h)
        + ",\"scale\":1,\"deviceScaleFactor\":1,\"mobile\":false}"@
}

/// Renders the parameters of a device-metrics override sized to the page.
pub fn device_metrics_params(w: i64, h: i64) -> (r: String)
    ensures
        r@ == spec_device_metrics_params(w as int, h as int),
{
    let ws = i64_to_string(w);
    let hs = i64_to_string(h);
    let mut r = "{\"width\":".to_owned();
    r.append(ws.as_str());
    r.append(",\"screenWidth\":");
    r.append(ws.as_str());
    r.append(",\"height\":");
    r.append(hs.as_str());
    r.append(",\"screenHeight\":");
    r.append(hs.as_str());
    r.append(",\"scale\":1,\"deviceScaleFactor\":1,\"mobile\":false}");
    r
}

/// The screenshot clip covering the whole page.
pub open spec fn spec_screenshot_params(w: int, h: int) -> Seq<char> {
    "{\"clip\":{\"x\":0,\"y\":0,\"width\":"@ + int_str(w) + ",\"height\":"@ + int_str(h)
        + ",\"scale\":1}}"@
}

/// Renders the parameters of a screenshot capture clipped to the page.
pub fn screenshot_params(w: i64, h: i64) -> (r: String)
    ensures
        r@ == spec_screenshot_params(w as int, h as int),
{
    let ws = i64_to_string(w);
    let hs = i64_to_string(h);
    let mut r = "{\"clip\":{\"x\":0,\"y\":0,\"width\":".to_owned();
    r.append(ws.as_str());
    r.append(",\"height\":");
    r.append(hs.as_str());
    r.append(",\"scale\":1}}");
    r
}

/// The fixed print-to-PDF parameters: portrait A4 paper, given in inches.
pub fn pdf_params() -> (r: String)
    ensures
        r@ == "{\"landscape\":false,\"scale\":1,\"paperWidth\":8.27,\"paperHeight\":11.69}"@,
{
    "{\"landscape\":false,\"scale\":1,\"paperWidth\":8.27,\"paperHeight\":11.69}".to_owned()
}

/// The parameters of a command that takes none.
pub fn null_params() -> (r: String)
    ensures
        r@ == "null"@,
{
    "null".to_owned()
}

} // verus!
