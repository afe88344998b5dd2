//! Typed client core for the EDSM HTTP API.
//!
//! A call to the API runs in four steps: a [`SystemSpecifier`] is rendered
//! into the request URL, the transport fetches the raw payload, the payload
//! is held against the API's "nothing found" answers, and what remains is
//! decoded into a typed record. Everything but the network exchange itself
//! lives here, and each step states what it returns.

use vstd::prelude::*;

pub mod json;
pub mod query;
pub mod status;
pub mod system;
pub mod systems;
pub mod text;

verus! {

/// Why a call to the API gave no record. Every failure of a call is one of
/// these three.
#[derive(Debug)]
pub enum Error {
    /// The transport failed; holds its description of the failure.
    HTTP(String),
    /// The API answered that it found nothing (`{}` or `[]`).
    EmptyResponse,
    /// The payload is no JSON text, or does not describe the record.
    DecodeError(serde_json::Error),
}

impl Error {
    /// What [`Error::message`] returns.
    pub open spec fn message_text(self) -> Seq<char> {
        match self {
            Error::HTTP(failure) => "HTTP error: "@ + failure@,
            Error::EmptyResponse => "empty response"@,
            Error::DecodeError(e) => "failed to decode JSON: "@ + json::json_error_text(e),
        }
    }

    /// Describes the error in a line of text.
    pub fn message(&self) -> (r: String)
        ensures
            r@ == self.message_text(),
    {
        match self {
            Error::HTTP(failure) => "HTTP error: ".to_owned().concat(failure.as_str()),
            Error::EmptyResponse => "empty response".to_owned(),
            Error::DecodeError(e) => "failed to decode JSON: ".to_owned().concat(
                json::to_string(e).as_str(),
            ),
        }
    }
}

impl From<serde_json::Error> for Error {
    fn from(e: serde_json::Error) -> (r: Error) {
        Error::DecodeError(e)
    }
}

impl vstd::std_specs::convert::FromSpecImpl<serde_json::Error> for Error {
    open spec fn obeys_from_spec() -> bool {
        true
    }

    open spec fn from_spec(e: serde_json::Error) -> Error {
        Error::DecodeError(e)
    }
}

/// Says which system a request is about.
///
/// Most of the EDSM API takes a system by its name or by its ID.
#[derive(Debug, Clone, Copy)]
pub enum SystemSpecifier<'a> {
    /// Specify system by name.
    Name(&'a str),
    /// Specify system by ID.
    Id(u64),
}

impl<'a> SystemSpecifier<'a> {
    /// The query parameter, name and value, that stands for this specifier:
    /// `systemName` with the name as it is, or `systemId` with the ID in
    /// base ten.
    pub open spec fn parameter(self) -> (Seq<char>, Seq<char>) {
        match self {
            SystemSpecifier::Name(name) => ("systemName"@, name@),
            SystemSpecifier::Id(id) => ("systemId"@, text::decimal_text(id as nat)),
        }
    }

    /// Appends this specifier's parameter to `query`, after what is there.
    pub fn apply(self, query: &mut Vec<(String, String)>)
        ensures
            final(query).deep_view() == old(query).deep_view().push(self.parameter()),
    {
        match self {
            SystemSpecifier::Name(name) => query::append_pair(query, "systemName", name),
            SystemSpecifier::Id(id) => query::append_pair(
                query,
                "systemId",
                text::decimal(id).as_str(),
            ),
        }
    }
}

impl<'a> From<&'a str> for SystemSpecifier<'a> {
    fn from(v: &'a str) -> (r: SystemSpecifier<'a>) {
        SystemSpecifier::Name(v)
    }
}

impl<'a> vstd::std_specs::convert::FromSpecImpl<&'a str> for SystemSpecifier<'a> {
    open spec fn obeys_from_spec() -> bool {
        true
    }

    open spec fn from_spec(v: &'a str) -> SystemSpecifier<'a> {
        SystemSpecifier::Name(v)
    }
}

impl<'a> From<u64> for SystemSpecifier<'a> {
    fn from(v: u64) -> (r: SystemSpecifier<'a>) {
        SystemSpecifier::Id(v)
    }
}

impl<'a> vstd::std_specs::convert::FromSpecImpl<u64> for SystemSpecifier<'a> {
    open spec fn obeys_from_spec() -> bool {
        true
    }

    open spec fn from_spec(v: u64) -> SystemSpecifier<'a> {
        SystemSpecifier::Id(v)
    }
}

/// Whether a query parameter says which system is meant.
pub open spec fn names_system(pair: (Seq<char>, Seq<char>)) -> bool {
    pair.0 == "systemName"@ || pair.0 == "systemId"@
}

/// Every specifier applies as a parameter that names the system, by its
/// name or by its ID and never by both.
pub proof fn lemma_specifier_names_system(system: SystemSpecifier)
    ensures
        names_system(system.parameter()),
        (system.parameter().0 == "systemName"@) != (system.parameter().0 == "systemId"@),
{
    reveal_strlit("systemName");
    reveal_strlit("systemId");
    assert("systemName"@.len() != "systemId"@.len());
}

/// A specifier made from a name applies as `systemName=<name>`, whatever the
/// name holds, and never as `systemId`.
pub proof fn lemma_name_applies_as_system_name(name: &str)
    ensures
        <SystemSpecifier as vstd::std_specs::convert::FromSpec<&str>>::from_spec(name).parameter()
            == ("systemName"@, name@),
        <SystemSpecifier as vstd::std_specs::convert::FromSpec<&str>>::from_spec(
            name,
        ).parameter().0 != "systemId"@,
{
    reveal_strlit("systemName");
    reveal_strlit("systemId");
    assert("systemName"@.len() != "systemId"@.len());
}

/// A specifier made from an ID applies as `systemId=<ID in base ten>`, and
/// never as `systemName`.
pub proof fn lemma_id_applies_as_system_id(id: u64)
    ensures
        <SystemSpecifier as vstd::std_specs::convert::FromSpec<u64>>::from_spec(id).parameter() == (
            "systemId"@,
            text::decimal_text(id as nat),
        ),
        <SystemSpecifier as vstd::std_specs::convert::FromSpec<u64>>::from_spec(
            id,
        ).parameter().0 != "systemName"@,
{
    reveal_strlit("systemName");
    reveal_strlit("systemId");
    assert("systemName"@.len() != "systemId"@.len());
}

/// The payload `{}`.
pub open spec fn empty_object() -> Seq<u8> {
    seq![0x7bu8, 0x7du8]
}

/// The payload `[]`.
pub open spec fn empty_array() -> Seq<u8> {
    seq![0x5bu8, 0x5du8]
}

/// The payloads with which the API says that it found nothing.
pub open spec fn is_empty_payload(bytes: Seq<u8>) -> bool {
    bytes == empty_object() || bytes == empty_array()
}

/// Whether `bytes` is exactly the two bytes `first`, `second`.
fn is_pair(bytes: &[u8], first: u8, second: u8) -> (r: bool)
    ensures
        r == (bytes@ == seq![first, second]),
{
    if bytes.len() == 2 {
        let same = bytes[0] == first && bytes[1] == second;
        assert(same ==> bytes@ =~= seq![first, second]);
        assert(!same ==> bytes@[0] != seq![first, second][0] || bytes@[1] != seq![first, second][1]);
        same
    } else {
        assert(seq![first, second].len() == 2);
        false
    }
}

/// Refuses a payload that is exactly `{}` or `[]`; lets any other pass.
pub fn check_empty(bytes: &[u8]) -> (r: Result<(), Error>)
    ensures
        is_empty_payload(bytes@) ==> r == Err::<(), Error>(Error::EmptyResponse),
        !is_empty_payload(bytes@) ==> r == Ok::<(), Error>(()),
{
    if is_pair(bytes, 0x7b, 0x7d) || is_pair(bytes, 0x5b, 0x5d) {
        Err(Error::EmptyResponse)
    } else {
        Ok(())
    }
}

/// Refuses a payload that is exactly `{}`; lets any other pass, `[]` too.
pub fn check_empty_object(bytes: &[u8]) -> (r: Result<(), Error>)
    ensures
        bytes@ == empty_object() ==> r == Err::<(), Error>(Error::EmptyResponse),
        bytes@ != empty_object() ==> r == Ok::<(), Error>(()),
{
    if is_pair(bytes, 0x7b, 0x7d) {
        Err(Error::EmptyResponse)
    } else {
        Ok(())
    }
}

/// How a call answers a payload. A payload that the guard refuses gives
/// the empty response, whatever a decoder would make of it. One that passes
/// the guard gives the record that it describes, or the decode failure
/// where it describes none; there is no record in between.
pub open spec fn answers<T: View>(r: Result<T, Error>, refused: bool, described: Option<T::V>) -> bool {
    &&& refused ==> r == Err::<T, Error>(Error::EmptyResponse)
    &&& !refused && described is None ==> r is Err && r->Err_0 is DecodeError
    &&& !refused && described is Some ==> r is Ok && described == Some(r->Ok_0@)
}

} // verus!
