//! Game server status API
//!
//! <https://www.edsm.net/ja/api-status-v1>

use vstd::prelude::*;
use chrono::NaiveDateTime;
use serde_json::Value;
use crate::json::{
    document, json_member, json_parse, member_text, member_u64, mismatch, text_field, u64_field,
};
use crate::text::same_text;
use crate::{answers, check_empty_object, empty_object, Error};

verus! {

/// `chrono::NaiveDateTime`: a date and a time of day, without a time zone.
#[verifier::external_type_specification]
#[verifier::external_body]
pub struct ExNaiveDateTime(NaiveDateTime);

/// `chrono::ParseError`: why a text is no date and time.
#[verifier::external_type_specification]
#[verifier::external_body]
pub struct ExChronoParseError(chrono::ParseError);

/// `NaiveDateTime::clone`, which `chrono` derives: the copy is the same
/// date and time.
pub assume_specification[ <NaiveDateTime as Clone>::clone ](t: &NaiveDateTime) -> (r:
    NaiveDateTime)
    ensures
        r == *t,
;

/// The date and time that `NaiveDateTime::parse_from_str` reads from `text`
/// by the strftime pattern `format`, or `None` where it reads none.
pub uninterp spec fn datetime_parse(text: Seq<char>, format: Seq<char>) -> Option<NaiveDateTime>;

/// `NaiveDateTime::parse_from_str`. Its outcome depends on the text and the
/// pattern alone and is named [`datetime_parse`].
#[verifier::external_body]
fn parse_from_str(text: &str, format: &str) -> (r: Result<NaiveDateTime, chrono::ParseError>)
    ensures
        match r {
            Ok(t) => datetime_parse(text@, format@) == Some(t),
            Err(_) => datetime_parse(text@, format@) is None,
        },
{
    NaiveDateTime::parse_from_str(text, format)
}

/// Where the status of the game server is asked for.
pub open spec fn elite_server_endpoint() -> Seq<char> {
    "https://www.edsm.net/api-status-v1/elite-server"@
}

/// The URL of a request for the status of the game server, which takes no
/// parameter.
pub fn elite_server_url() -> (r: &'static str)
    ensures
        r@ == elite_server_endpoint(),
{
    "https://www.edsm.net/api-status-v1/elite-server"
}

/// The classes of server status.
#[derive(Debug, Clone, Copy, PartialEq, Eq, PartialOrd, Ord, Hash, Structural)]
pub enum StatusType {
    /// Frontier server is running normally.
    Success,
    /// Server issue detected.
    Warning,
    /// Severe server issue.
    Danger,
}

impl StatusType {
    /// The class that a text names on the wire: `success`, `warning` or
    /// `danger`, in lower case. Any other text names none.
    pub open spec fn named(text: Seq<char>) -> Option<StatusType> {
        if text == "success"@ {
            Some(StatusType::Success)
        } else if text == "warning"@ {
            Some(StatusType::Warning)
        } else if text == "danger"@ {
            Some(StatusType::Danger)
        } else {
            None
        }
    }

    /// Reads the class that `text` names.
    pub fn from_name(text: &str) -> (r: Option<StatusType>)
        ensures
            r == StatusType::named(text@),
    {
        if same_text(text, "success") {
            Some(StatusType::Success)
        } else if same_text(text, "warning") {
            Some(StatusType::Warning)
        } else if same_text(text, "danger") {
            Some(StatusType::Danger)
        } else {
            None
        }
    }
}

/// The pattern of the server's last-update time, as in
/// `2018-03-21 13:56:29`.
pub open spec fn last_update_format() -> Seq<char> {
    "%Y-%m-%d %H:%M:%S"@
}

/// What the API answers to a request for the status of the game server.
#[derive(Debug, Clone)]
pub struct EliteServer {
    /// Datetime, in UTC, when we last checked the status from the Elite: Dangerous server.
    pub last_update: NaiveDateTime,
    /// Server status classes.
    pub typ: StatusType,
    /// Message from Elite: Dangerous server.
    pub message: String,
    /// Status code from Elite: Dangerous server.
    pub status: u64,
}

/// What an [`EliteServer`] holds.
pub struct EliteServerView {
    pub last_update: NaiveDateTime,
    pub typ: StatusType,
    pub message: Seq<char>,
    pub status: u64,
}

impl View for EliteServer {
    type V = EliteServerView;

    open spec fn view(&self) -> EliteServerView {
        EliteServerView {
            last_update: self.last_update,
            typ: self.typ,
            message: self.message@,
            status: self.status,
        }
    }
}

/// The time that the member `key` of `v` holds: a string in the pattern of
/// [`last_update_format`].
pub open spec fn member_last_update(v: Value, key: Seq<char>) -> Option<NaiveDateTime> {
    match member_text(v, key) {
        Some(text) => datetime_parse(text, last_update_format()),
        None => None,
    }
}

/// The class that the member `key` of `v` holds: a string that names one.
pub open spec fn member_status_type(v: Value, key: Seq<char>) -> Option<StatusType> {
    match member_text(v, key) {
        Some(text) => StatusType::named(text),
        None => None,
    }
}

/// The server status that the document `v` describes: an object with the
/// members `lastUpdate`, `type`, `message` and `status`, each of its kind.
/// `None` where one of them is missing or of another kind.
pub open spec fn elite_server_of(v: Value) -> Option<EliteServerView> {
    match (
        member_last_update(v, "lastUpdate"@),
        member_status_type(v, "type"@),
        member_text(v, "message"@),
        member_u64(v, "status"@),
    ) {
        (Some(last_update), Some(typ), Some(message), Some(status)) => Some(
            EliteServerView { last_update, typ, message, status },
        ),
        _ => None,
    }
}

/// A document describes a server status exactly when it holds each of the
/// four members in its kind, and the status then holds those very values.
pub proof fn lemma_elite_server_holds_wire_values(v: Value)
    ensures
        elite_server_of(v) is Some <==> member_last_update(v, "lastUpdate"@) is Some
            && member_status_type(v, "type"@) is Some && member_text(v, "message"@) is Some
            && member_u64(v, "status"@) is Some,
        elite_server_of(v) is Some ==> {
            let status = elite_server_of(v)->Some_0;
            &&& member_last_update(v, "lastUpdate"@) == Some(status.last_update)
            &&& member_status_type(v, "type"@) == Some(status.typ)
            &&& member_text(v, "message"@) == Some(status.message)
            &&& member_u64(v, "status"@) == Some(status.status)
        },
{
}

impl EliteServer {
    /// Decodes the server status that `v` describes.
    pub fn decode(v: &Value) -> (r: Result<EliteServer, Error>)
        ensures
            match r {
                Ok(status) => elite_server_of(*v) == Some(status@),
                Err(e) => e is DecodeError && elite_server_of(*v) is None,
            },
    {
        let written = text_field(v, "lastUpdate")?;
        let last_update = match parse_from_str(written.as_str(), "%Y-%m-%d %H:%M:%S") {
            Ok(last_update) => last_update,
            Err(_) => { return Err(mismatch("lastUpdate", "a date and time")); },
        };
        let class = text_field(v, "type")?;
        let typ = match StatusType::from_name(class.as_str()) {
            Some(typ) => typ,
            None => { return Err(mismatch("type", "a status class")); },
        };
        let message = text_field(v, "message")?;
        let status = u64_field(v, "status")?;
        Ok(EliteServer { last_update, typ, message, status })
    }
}

/// The server status that the payload `bytes` describes, or `None` where
/// the bytes are no JSON text or the document describes none.
pub open spec fn elite_server_in(bytes: Seq<u8>) -> Option<EliteServerView> {
    match json_parse(bytes) {
        Some(v) => elite_server_of(v),
        None => None,
    }
}

/// Reads the payload of a request for the server status. The payload `{}`
/// is refused as an empty response and never decoded. Any other payload is
/// decoded, whole or not at all.
pub fn elite_server_payload(bytes: &[u8]) -> (r: Result<EliteServer, Error>)
    ensures
        answers(r, bytes@ == empty_object(), elite_server_in(bytes@)),
{
    check_empty_object(bytes)?;
    let v = document(bytes)?;
    EliteServer::decode(&v)
}

/// Turns what the transport brought for a request for the server status
/// into the answer of the call: the transport's failure, the empty
/// response, the decode failure, or the status.
pub fn elite_server_response(fetched: Result<Vec<u8>, String>) -> (r: Result<EliteServer, Error>)
    ensures
        match fetched {
            Err(failure) => r == Err::<EliteServer, Error>(Error::HTTP(failure)),
            Ok(bytes) => answers(r, bytes@ == empty_object(), elite_server_in(bytes@)),
        },
{
    match fetched {
        Err(failure) => Err(Error::HTTP(failure)),
        Ok(bytes) => elite_server_payload(bytes.as_slice()),
    }
}

} // verus!
