//! The chat-integration boundary: the slash request that carries a render
//! job in, its authentication (timestamp freshness and signed payload), and
//! the outbound messages reporting a result or a failure. Serialization of
//! the messages and every HTTP exchange stay outside the library.

use vstd::prelude::*;

use crate::pipeline::RenderError;
use crate::pipeline::RenderRequest;
use crate::pipeline::RenderResult;
use crate::pipeline::url_parse_of;
use crate::pipeline::parse_url;
use crate::strutil::int_str;
use crate::strutil::i64_to_string;
use crate::strutil::str_chars;
use crate::strutil::str_eq;
use crate::strutil::chars_to_string;

verus! {

/// The authentication configuration: the shared signing secret (requests are
/// unauthenticated where it is absent) and the accepted clock skew.
pub struct SlackConfig {
    pub secret: Option<String>,
    pub max_age_seconds: i64,
}

/// One slash command as sent by the chat service.
pub struct SlashRequest {
    pub command: String,
    pub text: String,
    pub response_url: String,
    pub user_id: Option<String>,
    pub channel_name: Option<String>,
    pub team_domain: Option<String>,
}

/// How a message is shown: to the requester alone, or to the channel.
pub enum SlackResponseType {
    Ephemeral,
    InChannel,
}

/// The text of a button.
pub struct SlackButtonText {
    pub type_: String,
    pub text: String,
    pub emoji: bool,
}

/// The text of a header block.
pub struct SlackTextBlock {
    pub type_: String,
    pub text: String,
}

/// One element of a block: a text note, an image, or a link button.
pub struct SlackBlockElement {
    pub type_: String,
    pub text: Option<String>,
    pub image_url: Option<String>,
    pub alt_text: Option<String>,
    pub button_text: Option<SlackButtonText>,
    pub url: Option<String>,
}

/// One block of a message.
pub struct SlackBlock {
    pub type_: String,
    pub elements: Vec<SlackBlockElement>,
    pub text: Option<SlackTextBlock>,
}

/// One outbound message.
pub struct SlackMessage {
    pub response_type: SlackResponseType,
    pub blocks: Vec<SlackBlock>,
}

/// Why an inbound request is rejected before any rendering.
#[derive(Debug, PartialEq, Eq, Structural)]
pub enum SlackParserError {
    /// The service configuration is unavailable.
    ConfigError,
    /// The timestamp or signature header is missing.
    MissingHeaders,
    /// The body cannot be read as a slash command.
    BadQueryString,
    /// The request timestamp is too far from the current time.
    TimestampTooDifferent,
    /// The request signature does not match the payload.
    SignatureInvalid,
}

/// An element carrying nothing but a markdown note.
pub open spec fn note_element_matches(e: SlackBlockElement, text: Seq<char>) -> bool {
    &&& e.type_@ == "mrkdwn"@
    &&& e.text matches Some(t) && t@ == text
    &&& e.image_url is None
    &&& e.alt_text is None
    &&& e.button_text is None
    &&& e.url is None
}

/// A message of one context block holding one markdown note.
pub open spec fn note_message_matches(m: SlackMessage, text: Seq<char>) -> bool {
    &&& m.response_type is Ephemeral
    &&& m.blocks@.len() == 1
    &&& m.blocks@[0].type_@ == "context"@
    &&& m.blocks@[0].text is None
    &&& m.blocks@[0].elements@.len() == 1
    &&& note_element_matches(m.blocks@[0].elements@[0], text)
}

/// Builds the message of one markdown note.
fn note_message(text: String) -> (m: SlackMessage)
    ensures
        note_message_matches(m, text@),
{
    let element = SlackBlockElement {
        type_: "mrkdwn".to_owned(),
        text: Some(text),
        image_url: None,
        alt_text: None,
        button_text: None,
        url: None,
    };
    let mut elements: Vec<SlackBlockElement> = Vec::new();
    elements.push(element);
    let block = SlackBlock { type_: "context".to_owned(), elements, text: None };
    let mut blocks: Vec<SlackBlock> = Vec::new();
    blocks.push(block);
    SlackMessage { response_type: SlackResponseType::Ephemeral, blocks }
}

impl SlashRequest {
    /// Turns a slash command into a render job and the immediate reply: a
    /// usage note for a foreign command or an unparsable URL, else the job
    /// and a wait note. The job's URL is the parsed command text, and the
    /// requester identifiers are carried into the job.
    pub fn render_and_reply(self) -> (r: (Option<RenderRequest>, SlackMessage))
        ensures
            r.0 is Some <==> self.command@ == "/udrb"@ && url_parse_of(self.text@) is Some,
            r.0 matches Some(req) ==> {
                &&& url_parse_of(self.text@) == Some(req.url)
                &&& req.slack_callback == self.response_url
                &&& req.user == self.user_id
                &&& req.channel == self.channel_name
                &&& req.team == self.team_domain
            },
            r.0 is Some ==> note_message_matches(r.1, "_Downloading, please wait..._"@),
            r.0 is None ==> note_message_matches(
                r.1,
                "Bad request. Usage: `/udrb http://...`"@,
            ),
    {
        if !str_eq(self.command.as_str(), "/udrb") {
            return (None, note_message("Bad request. Usage: `/udrb http://...`".to_owned()));
        }
        match parse_url(self.text.as_str()) {
            Option::Some(url) => {
                let request = RenderRequest {
                    url,
                    slack_callback: self.response_url,
                    user: self.user_id,
                    channel: self.channel_name,
                    team: self.team_domain,
                };
                (Some(request), note_message("_Downloading, please wait..._".to_owned()))
            },
            Option::None => {
                (None, note_message("Bad request. Usage: `/udrb http://...`".to_owned()))
            },
        }
    }
}

/// The failure note sent back to the requester.
pub fn post_failure(error: &RenderError) -> (m: SlackMessage)
    ensures
        note_message_matches(m, "Error downloading: "@ + error.spec_message()),
{
    let mut text = "Error downloading: ".to_owned();
    let msg = error.message();
    text.append(msg.as_str());
    note_message(text)
}

/// A link button with the given caption and target.
pub open spec fn button_matches(e: SlackBlockElement, caption: Seq<char>, url: String) -> bool {
    &&& e.type_@ == "button"@
    &&& e.text is None
    &&& e.image_url is None
    &&& e.alt_text is None
    &&& e.button_text matches Some(b) && b.type_@ == "plain_text"@ && b.text@ == caption && b.emoji
    &&& e.url == Some(url)
}

/// Builds a link button.
fn link_button(caption: &str, url: String) -> (e: SlackBlockElement)
    ensures
        button_matches(e, caption@, url),
{
    SlackBlockElement {
        type_: "button".to_owned(),
        text: None,
        image_url: None,
        alt_text: None,
        button_text: Some(
            SlackButtonText { type_: "plain_text".to_owned(), text: caption.to_owned(), emoji: true },
        ),
        url: Some(url),
    }
}

/// The address under which a site's default favicon is expected.
pub open spec fn spec_favicon_url(scheme: Seq<char>, host: Seq<char>) -> Seq<char> {
    scheme + "://"@ + host + "/favicon.ico"@
}

/// The success message: a header with the page title; a row of link buttons
/// for the original page and every captured artifact; and, where known, a
/// context row with the site's favicon and the requesting user.
pub open spec fn success_message_matches(result: RenderResult, m: SlackMessage) -> bool {
    let has_pdf = result.pdf_url is Some;
    let has_png = result.png_url is Some;
    let has_host = result.orig_url.host is Some;
    let has_user = result.user is Some;
    let buttons = m.blocks@[1].elements@;
    &&& m.response_type is InChannel
    &&& m.blocks@.len() == (if has_host || has_user { 3int } else { 2int })
    &&& m.blocks@[0].type_@ == "header"@
    &&& m.blocks@[0].elements@.len() == 0
    &&& m.blocks@[0].text matches Some(t) && t.type_@ == "plain_text"@ && t.text == result.title
    &&& m.blocks@[1].type_@ == "actions"@
    &&& m.blocks@[1].text is None
    &&& buttons.len() == 1 + (if has_pdf { 1int } else { 0int }) + (if has_png { 1int } else { 0int })
    &&& button_matches(buttons[0], ":lock: Original"@, result.orig_url.raw)
    &&& has_pdf ==> button_matches(buttons[1], ":unlock: PDF"@, result.pdf_url.unwrap())
    &&& has_png ==> button_matches(
        buttons[if has_pdf { 2int } else { 1int }],
        ":camera: Screenshot"@,
        result.png_url.unwrap(),
    )
    &&& (has_host || has_user) ==> {
        let ctx = m.blocks@[2];
        &&& ctx.type_@ == "context"@
        &&& ctx.text is None
        &&& ctx.elements@.len() == (if has_host { 1int } else { 0int }) + (if has_user {
            1int
        } else {
            0int
        })
        &&& has_host ==> {
            let e = ctx.elements@[0];
            &&& e.type_@ == "image"@
            &&& e.image_url matches Some(u) && u@ == spec_favicon_url(
                result.orig_url.scheme@,
                result.orig_url.host.unwrap()@,
            )
            &&& e.alt_text == Some(result.orig_url.host.unwrap())
            &&& e.text is None
            &&& e.button_text is None
            &&& e.url is None
        }
        &&& has_user ==> note_element_matches(
            ctx.elements@[if has_host { 1int } else { 0int }],
            "Shared by <@"@ + result.user.unwrap()@ + ">"@,
        )
    }
}

/// The message announcing a completed render to the channel.
pub fn post_success(result: &RenderResult) -> (m: SlackMessage)
    ensures
        success_message_matches(*result, m),
{
    let mut blocks: Vec<SlackBlock> = Vec::new();

    let header = SlackBlock {
        type_: "header".to_owned(),
        elements: Vec::new(),
        text: Some(SlackTextBlock { type_: "plain_text".to_owned(), text: result.title.clone() }),
    };
    blocks.push(header);

    let mut buttons: Vec<SlackBlockElement> = Vec::new();
    buttons.push(link_button(":lock: Original", result.orig_url.raw.clone()));
    match &result.pdf_url {
        Option::Some(u) => {
            buttons.push(link_button(":unlock: PDF", u.clone()));
        },
        Option::None => {},
    }
    match &result.png_url {
        Option::Some(u) => {
            buttons.push(link_button(":camera: Screenshot", u.clone()));
        },
        Option::None => {},
    }
    let actions = SlackBlock { type_: "actions".to_owned(), elements: buttons, text: None };
    blocks.push(actions);

    let mut context: Vec<SlackBlockElement> = Vec::new();
    match &result.orig_url.host {
        Option::Some(host) => {
            let mut favicon = result.orig_url.scheme.clone();
            favicon.append("://");
            favicon.append(host.as_str());
            favicon.append("/favicon.ico");
            context.push(
                SlackBlockElement {
                    type_: "image".to_owned(),
                    text: None,
                    image_url: Some(favicon),
                    alt_text: Some(host.clone()),
                    button_text: None,
                    url: None,
                },
            );
        },
        Option::None => {},
    }
    match &result.user {
        Option::Some(user) => {
            let mut note = "Shared by <@".to_owned();
            note.append(user.as_str());
            note.append(">");
            context.push(
                SlackBlockElement {
                    type_: "mrkdwn".to_owned(),
                    text: Some(note),
                    image_url: None,
                    alt_text: None,
                    button_text: None,
                    url: None,
                },
            );
        },
        Option::None => {},
    }
    if context.len() > 0 {
        blocks.push(SlackBlock { type_: "context".to_owned(), elements: context, text: None });
    }

    SlackMessage { response_type: SlackResponseType::InChannel, blocks }
}

/// The pairs a form-encoded body decodes to, in body order, with percent
/// escapes resolved. A function of the body alone.
pub uninterp spec fn form_pairs_of(s: Seq<char>) -> Seq<(String, String)>;

/// Relies on url::form_urlencoded::parse: splits a form-encoded body into
/// decoded key/value pairs, in order; a function of the body alone.
#[verifier::external_body]
fn parse_form(data: &str) -> (r: Vec<(String, String)>)
    ensures
        r@ == form_pairs_of(data@),
{
    url::form_urlencoded::parse(data.as_bytes()).into_owned().collect()
}

/// The value under the first occurrence of a key.
pub open spec fn form_first(pairs: Seq<(String, String)>, key: Seq<char>) -> Option<String>
    decreases pairs.len(),
{
    if pairs.len() == 0 {
        None
    } else if pairs.first().0@ == key {
        Some(pairs.first().1)
    } else {
        form_first(pairs.drop_first(), key)
    }
}

/// The value under the first occurrence of a key.
fn form_value(pairs: &Vec<(String, String)>, key: &str) -> (r: Option<String>)
    ensures
        r == form_first(pairs@, key@),
{
    let n = pairs.len();
    proof {
        assert(pairs@.skip(0) =~= pairs@);
    }
    for i in 0..n
        invariant
            n == pairs@.len(),
            form_first(pairs@, key@) == form_first(pairs@.skip(i as int), key@),
    {
        proof {
            assert(pairs@.skip(i as int).first() == pairs@[i as int]);
            assert(pairs@.skip(i as int).drop_first() =~= pairs@.skip(i + 1));
        }
        if str_eq(pairs[i].0.as_str(), key) {
            return Some(pairs[i].1.clone());
        }
    }
    proof {
        assert(pairs@.skip(n as int) =~= Seq::<(String, String)>::empty());
    }
    None
}

/// The slash command a decoded body holds, requiring the command, text and
/// reply address; the requester identifiers are optional.
pub open spec fn spec_slash_request(pairs: Seq<(String, String)>) -> Option<SlashRequest> {
    match (form_first(pairs, "command"@), form_first(pairs, "text"@), form_first(
        pairs,
        "response_url"@,
    )) {
        (Option::Some(c), Option::Some(t), Option::Some(r)) => Some(
            SlashRequest {
                command: c,
                text: t,
                response_url: r,
                user_id: form_first(pairs, "user_id"@),
                channel_name: form_first(pairs, "channel_name"@),
                team_domain: form_first(pairs, "team_domain"@),
            },
        ),
        _ => None,
    }
}

/// Whether a request timestamp lies within the accepted skew of the current
/// time, in either direction.
pub open spec fn timestamp_fresh(now: int, ts: int, max_age: int) -> bool {
    -max_age <= now - ts <= max_age
}

/// A value below 16 for every hex digit, upper or lower case.
pub open spec fn hex_val(c: char) -> Option<int> {
    if c == '0' { Some(0) } else if c == '1' { Some(1) } else if c == '2' { Some(2) }
    else if c == '3' { Some(3) } else if c == '4' { Some(4) } else if c == '5' { Some(5) }
    else if c == '6' { Some(6) } else if c == '7' { Some(7) } else if c == '8' { Some(8) }
    else if c == '9' { Some(9) } else if c == 'a' || c == 'A' { Some(10) }
    else if c == 'b' || c == 'B' { Some(11) } else if c == 'c' || c == 'C' { Some(12) }
    else if c == 'd' || c == 'D' { Some(13) } else if c == 'e' || c == 'E' { Some(14) }
    else if c == 'f' || c == 'F' { Some(15) } else { None }
}

/// What a hex text decodes to: one byte per digit pair, either case
/// accepted; odd length or a foreign character decodes to nothing.
pub open spec fn hex_decode_of(s: Seq<char>) -> Option<Seq<u8>>
    decreases s.len(),
{
    if s.len() % 2 != 0 {
        None
    } else if s.len() == 0 {
        Some(Seq::empty())
    } else {
        match (hex_val(s[0]), hex_val(s[1])) {
            (Option::Some(hi), Option::Some(lo)) => match hex_decode_of(s.skip(2)) {
                Option::Some(rest) => Some(seq![(hi * 16 + lo) as u8] + rest),
                Option::None => None,
            },
            _ => None,
        }
    }
}

/// Relies on hex::decode: one byte per pair of hex digits, upper or lower
/// case, failing on odd length or any other character.
#[verifier::external_body]
fn hex_decode(s: &str) -> (r: Option<Vec<u8>>)
    ensures
        r is Some <==> hex_decode_of(s@) is Some,
        r matches Some(v) ==> hex_decode_of(s@) matches Some(m) && v@ == m,
{
    hex::decode(s).ok()
}

/// The authentication code the signing scheme produces for a message under
/// a key: 32 bytes, a function of message and key alone.
pub uninterp spec fn hmac_sha256_of(msg: Seq<char>, key: Seq<char>) -> Seq<u8>;

/// Relies on hmac_sha256::HMAC::mac: the 32-byte authentication code of the
/// message under the key, a function of both alone.
#[verifier::external_body]
fn hmac_mac(msg: &str, key: &str) -> (r: Vec<u8>)
    ensures
        r@ == hmac_sha256_of(msg@, key@),
        r@.len() == 32,
{
    hmac_sha256::HMAC::mac(msg, key).to_vec()
}

/// Relies on constant_time_eq::constant_time_eq: whether the byte strings
/// are equal, compared without data-dependent timing.
#[verifier::external_body]
fn bytes_equal_ct(a: &[u8], b: &[u8]) -> (r: bool)
    ensures
        r == (a@ == b@),
{
    constant_time_eq::constant_time_eq(a, b)
}

/// Text with every leading occurrence of the version prefix removed.
pub open spec fn strip_version_prefixes(s: Seq<char>) -> Seq<char>
    decreases s.len(),
{
    if s.len() >= 3 && s.take(3) == "v0="@ {
        strip_version_prefixes(s.skip(3))
    } else {
        s
    }
}

/// Removes every leading `v0=` version marker from a signature header.
fn strip_signature_prefix(s: &str) -> (r: String)
    ensures
        r@ == strip_version_prefixes(s@),
{
    let v = str_chars(s);
    let n = v.len();
    let mut a: usize = 0;
    proof {
        reveal_strlit("v0=");
        assert(v@.skip(0) =~= v@);
    }
    while a <= n && n - a >= 3 && v[a] == 'v' && v[a + 1] == '0' && v[a + 2] == '='
        invariant
            a <= n,
            n == v@.len(),
            v@ == s@,
            "v0="@ =~= seq!['v', '0', '='],
            strip_version_prefixes(s@) == strip_version_prefixes(v@.skip(a as int)),
        decreases n - a,
    {
        proof {
            assert(v@.skip(a as int).take(3) =~= seq![v@[a as int], v@[a + 1], v@[a + 2]]);
            assert(v@.skip(a as int).skip(3) =~= v@.skip(a + 3));
        }
        a += 3;
    }
    proof {
        let rest = v@.skip(a as int);
        if rest.len() >= 3 {
            assert(rest.take(3) =~= seq![v@[a as int], v@[a + 1], v@[a + 2]]);
        }
        assert(strip_version_prefixes(rest) == rest);
    }
    let mut out: Vec<char> = Vec::new();
    let mut k: usize = a;
    while k < n
        invariant
            a <= k <= n,
            n == v@.len(),
            out@ =~= v@.subrange(a as int, k as int),
        decreases n - k,
    {
        out.push(v[k]);
        proof {
            assert(v@.subrange(a as int, k + 1) =~= v@.subrange(a as int, k as int).push(
                v@[k as int]));
        }
        k += 1;
    }
    let r = chars_to_string(&out);
    proof {
        assert(v@.subrange(a as int, n as int) =~= v@.skip(a as int));
    }
    r
}

/// The text the signature signs: the version, the timestamp and the body.
pub open spec fn spec_basestring(ts: int, data: Seq<char>) -> Seq<char> {
    "v0:"@ + int_str(ts) + ":"@ + data
}

/// Whether the parser's signature header authenticates the body: without a
/// configured secret every request passes; with one, the header (less its
/// version markers) must be the hex of the 32-byte code of the basestring
/// under the secret.
pub open spec fn spec_signature_ok(parser: SlackRequestParser, data: Seq<char>) -> bool {
    match parser.config.secret {
        Option::None => true,
        Option::Some(secret) => match hex_decode_of(strip_version_prefixes(parser.signature@)) {
            Option::Some(sig) => sig.len() == 32 && sig == hmac_sha256_of(
                spec_basestring(parser.timestamp as int, data),
                secret@,
            ),
            Option::None => false,
        },
    }
}

/// What parsing a body under this parser yields: the decoded slash command,
/// or the first failing check — the body's shape, then the timestamp's
/// freshness, then the signature.
pub open spec fn spec_parse_slash(
    parser: SlackRequestParser,
    data: Seq<char>,
    now: int,
) -> Result<SlashRequest, SlackParserError> {
    match spec_slash_request(form_pairs_of(data)) {
        Option::None => Err(SlackParserError::BadQueryString),
        Option::Some(req) => if !timestamp_fresh(
            now,
            parser.timestamp as int,
            parser.config.max_age_seconds as int,
        ) {
            Err(SlackParserError::TimestampTooDifferent)
        } else if !spec_signature_ok(parser, data) {
            Err(SlackParserError::SignatureInvalid)
        } else {
            Ok(req)
        },
    }
}

/// The authentication state of one inbound request: its timestamp and
/// signature headers, and the configuration to check them against.
pub struct SlackRequestParser {
    pub timestamp: i64,
    pub signature: String,
    pub config: SlackConfig,
}

impl SlackRequestParser {
    /// Decodes and authenticates one slash-command body: the body must hold
    /// the command, its text and the reply address; the timestamp must lie
    /// within the accepted skew of `now_seconds`; and, where a secret is
    /// configured, the signature header must authenticate the body.
    pub fn parse_slash(&self, data: &str, now_seconds: i64) -> (r: Result<
        SlashRequest,
        SlackParserError,
    >)
        ensures
            r == spec_parse_slash(*self, data@, now_seconds as int),
    {
        let pairs = parse_form(data);
        let command = form_value(&pairs, "command");
        let text = form_value(&pairs, "text");
        let response_url = form_value(&pairs, "response_url");
        let (command, text, response_url) = match (command, text, response_url) {
            (Option::Some(c), Option::Some(t), Option::Some(r)) => (c, t, r),
            _ => {
                return Err(SlackParserError::BadQueryString);
            },
        };
        let request = SlashRequest {
            command,
            text,
            response_url,
            user_id: form_value(&pairs, "user_id"),
            channel_name: form_value(&pairs, "channel_name"),
            team_domain: form_value(&pairs, "team_domain"),
        };

        let diff: i128 = (now_seconds as i128) - (self.timestamp as i128);
        let max_age: i128 = self.config.max_age_seconds as i128;
        if diff > max_age || diff < -max_age {
            return Err(SlackParserError::TimestampTooDifferent);
        }

        match &self.config.secret {
            Option::Some(secret) => {
                let stripped = strip_signature_prefix(self.signature.as_str());
                let sig = match hex_decode(stripped.as_str()) {
                    Option::Some(s) => s,
                    Option::None => {
                        return Err(SlackParserError::SignatureInvalid);
                    },
                };
                if sig.len() != 32 {
                    return Err(SlackParserError::SignatureInvalid);
                }
                let mut basestring = "v0:".to_owned();
                let ts = i64_to_string(self.timestamp);
                basestring.append(ts.as_str());
                basestring.append(":");
                basestring.append(data);
                let mac = hmac_mac(basestring.as_str(), secret.as_str());
                if !bytes_equal_ct(mac.as_slice(), sig.as_slice()) {
                    return Err(SlackParserError::SignatureInvalid);
                }
            },
            Option::None => {},
        }
        Ok(request)
    }
}

} // verus!
