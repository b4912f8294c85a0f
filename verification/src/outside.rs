//! The calls into other crates, each with what the library relies on.

use crate::ids::{stands_for, uuid_text, Uuid};
use crate::text::{decimal, occurs_at, view_of};
use vstd::prelude::*;
use vstd::utf8::{decode_utf8, valid_utf8};

verus! {

/// The parts of a URL that tell one destination host from another.
pub struct UrlParts {
    /// The scheme, without the colon.
    pub scheme: String,
    /// The host, where the URL has one.
    pub host: Option<String>,
    /// The port, where the URL gives one that is not the scheme's default.
    pub port: Option<u16>,
}

/// What `url::Url::parse` makes of a text: its scheme, its host and its port, or `None` where
/// the text is no absolute URL.
pub uninterp spec fn url_parts(url: Seq<char>) -> Option<
    (Seq<char>, Option<Seq<char>>, Option<u16>),
>;

/// The port that a URL means: the one that it gives, else 443 where its scheme is `https`, and 80
/// otherwise.
pub open spec fn effective_port(scheme: Seq<char>, port: Option<u16>) -> nat {
    match port {
        Some(p) => p as nat,
        None => if scheme == "https"@ {
            443
        } else {
            80
        },
    }
}

/// A scheme, a host and a port, written out.
pub open spec fn origin_text(scheme: Seq<char>, host: Seq<char>, port: nat) -> Seq<char> {
    scheme + "://"@ + host + ":"@ + decimal(port)
}

/// Whether a label of a host, one of the parts between its dots, begins with `xn--`: it is then in
/// the ASCII form of an internationalised name.
pub open spec fn has_encoded_label(host: Seq<char>) -> bool {
    exists|i: int| #[trigger] occurs_at(host, "xn--"@, i) && (i == 0 || host[i - 1] == '.')
}

/// Whether a text is plain ASCII without a percent sign, so that nothing in it stands for a
/// character beyond ASCII.
pub open spec fn is_plain(text: Seq<char>) -> bool {
    forall|i: int| 0 <= i < text.len() ==> (#[trigger] text[i] as int) < 0x80 && text[i] != '%'
}

/// Whether `url`, read as `parts`, is a web URL whose host keeps its form: one without a label in
/// the ASCII form of an internationalised name, or one that was written in plain ASCII.
pub open spec fn keeps_its_host(
    url: Seq<char>,
    parts: Option<(Seq<char>, Option<Seq<char>>, Option<u16>)>,
) -> bool {
    parts matches Some((scheme, Some(host), _)) && (scheme == "http"@ || scheme == "https"@) && (
    !has_encoded_label(host) || is_plain(url))
}

/// Calls `url::Url::parse` and reads the scheme, the host and the port of its result with
/// `scheme`, `host_str` and `port`. What is relied on: whether the text is a URL, and then these
/// three parts, are determined by the text; and the scheme, the host and the effective port of an
/// `http` or `https` URL, written out, are a URL with the same three parts. The second is not said
/// of a host that the parser put into the ASCII form of an internationalised name: it may write
/// more characters of such a label than it takes. A label that was written in that form is kept,
/// in lower case.
#[verifier::external_body]
pub(crate) fn parse_url(url: &str) -> (res: Option<UrlParts>)
    ensures
        match res {
            Some(parts) => url_parts(url@) == Some(
                (parts.scheme@, view_of(parts.host), parts.port),
            ),
            None => url_parts(url@) is None,
        },
        res matches Some(parts) ==> {
            let read = Some((parts.scheme@, view_of(parts.host), parts.port));
            keeps_its_host(url@, read) ==> url_parts(
                origin_text(
                    parts.scheme@,
                    view_of(parts.host)->0,
                    effective_port(parts.scheme@, parts.port),
                ),
            ) == read
        },
{
    match url::Url::parse(url) {
        Ok(parsed) => {
            let host = match parsed.host_str() {
                Some(host) => Some(host.to_string()),
                None => None,
            };
            Some(UrlParts { scheme: parsed.scheme().to_string(), host, port: parsed.port() })
        },
        Err(_) => None,
    }
}

/// Calls `uuid::Uuid::parse_str`, which takes the 32 digits of an identifier, its hyphenated text,
/// that in braces and that behind `urn:uuid:`, with letters in either case, and no other text.
#[verifier::external_body]
pub(crate) fn parse_uuid(text: &str) -> (res: Option<Uuid>)
    ensures
        match res {
            Some(id) => stands_for(text@, id),
            None => forall|id: Uuid| !stands_for(text@, id),
        },
{
    match uuid::Uuid::parse_str(text) {
        Ok(id) => Some(Uuid { bits: id.as_u128() }),
        Err(_) => None,
    }
}

/// Calls `to_string` of `uuid::Uuid`, which writes the hyphenated form in lower case.
#[verifier::external_body]
pub(crate) fn uuid_to_text(id: Uuid) -> (res: String)
    ensures
        res@ == uuid_text(id),
{
    uuid::Uuid::from_u128(id.bits).to_string()
}

/// A member of a JSON object: its name, and its text where its value is a string.
pub struct JsonMember {
    /// The member's name.
    pub name: String,
    /// The member's value, where that is a string.
    pub text: Option<String>,
}

/// A JSON document, as far as its members go.
pub struct JsonDocument {
    /// The members, where the document is an object.
    pub members: Option<Vec<JsonMember>>,
}

/// The members by name, the last of a name where it occurs twice.
pub open spec fn members_by_name(members: Seq<JsonMember>) -> Map<Seq<char>, Option<Seq<char>>>
    decreases members.len(),
{
    if members.len() == 0 {
        Map::empty()
    } else {
        members_by_name(members.drop_last()).insert(
            members.last().name@,
            view_of(members.last().text),
        )
    }
}

impl View for JsonDocument {
    type V = Option<Map<Seq<char>, Option<Seq<char>>>>;

    open spec fn view(&self) -> Option<Map<Seq<char>, Option<Seq<char>>>> {
        match self.members {
            Some(list) => Some(members_by_name(list@)),
            None => None,
        }
    }
}

/// What `serde_json::from_str` reads in a text: for an object its members, each with its text where
/// `as_str` gives one; for another value `Some(None)`; `None` where the text is no JSON document.
pub uninterp spec fn json_document(text: Seq<char>) -> Option<
    Option<Map<Seq<char>, Option<Seq<char>>>>,
>;

/// Calls `serde_json::from_str` for a `serde_json::Value` and reads it with `as_object`, and each
/// member of an object with `as_str`. What is relied on: what they give is determined by the text.
#[verifier::external_body]
pub(crate) fn parse_json(text: &str) -> (res: Option<JsonDocument>)
    ensures
        match res {
            Some(document) => json_document(text@) == Some(document@),
            None => json_document(text@) is None,
        },
{
    match serde_json::from_str::<serde_json::Value>(text) {
        Ok(value) => {
            let members = value.as_object().map(
                |map| map.iter().map(
                    |(name, value)| JsonMember {
                        name: name.clone(),
                        text: value.as_str().map(str::to_string),
                    },
                ).collect(),
            );
            Some(JsonDocument { members })
        },
        Err(_) => None,
    }
}

/// What `String::from_utf8_lossy` makes of bytes.
pub uninterp spec fn utf8_lossy(bytes: Seq<u8>) -> Seq<char>;

/// Calls `String::from_utf8_lossy`. What is relied on: the text is determined by the bytes, and
/// bytes that are valid UTF-8 give the text that they encode.
#[verifier::external_body]
pub(crate) fn text_from_utf8_lossy(bytes: &[u8]) -> (res: String)
    ensures
        res@ == utf8_lossy(bytes@),
        valid_utf8(bytes@) ==> res@ == decode_utf8(bytes@),
{
    String::from_utf8_lossy(bytes).into_owned()
}

} // verus!
