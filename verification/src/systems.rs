//! Search systems API
//!
//! <https://www.edsm.net/en/api-v1>

use vstd::prelude::*;
use edsm_dumps_model::model::body::StarSubType;
use edsm_dumps_model::model::system::Coords;
use serde::Deserialize;
use serde_json::Error as JsonError;
use serde_json::Value;
use crate::json::{
    bool_field, document, field, json_member, json_parse, member_bool, member_text, member_u64,
    text_field, u64_field,
};
use crate::query::{append_pair, request_url, url_with_params};
use crate::{
    answers, check_empty_object, empty_object, lemma_specifier_names_system, names_system, Error,
    SystemSpecifier,
};

verus! {

/// Where the system information is asked for.
pub open spec fn system_endpoint() -> Seq<char> {
    "https://www.edsm.net/api-v1/system"@
}

/// The parameters of a request for system information: the specifier, then
/// the six switches that ask for the ID, the coordinates, the permit flag,
/// the information, the primary star, and for hidden systems too.
pub open spec fn system_query(system: SystemSpecifier) -> Seq<(Seq<char>, Seq<char>)> {
    seq![
        system.parameter(),
        ("showId"@, "1"@),
        ("showCoordinates"@, "1"@),
        ("showPermit"@, "1"@),
        ("showInformation"@, "1"@),
        ("showPrimaryStar"@, "1"@),
        ("includeHidden"@, "1"@),
    ]
}

/// A request for system information names its system exactly once: in its
/// first parameter, and in none of the switches behind it.
pub proof fn lemma_system_query_names_one_system(system: SystemSpecifier)
    ensures
        system_query(system).len() == 7,
        names_system(system_query(system)[0]),
        forall|i: int| 1 <= i < 7 ==> !names_system(#[trigger] system_query(system)[i]),
{
    lemma_specifier_names_system(system);
    reveal_strlit("systemName");
    reveal_strlit("systemId");
    reveal_strlit("showId");
    reveal_strlit("showCoordinates");
    reveal_strlit("showPermit");
    reveal_strlit("showInformation");
    reveal_strlit("showPrimaryStar");
    reveal_strlit("includeHidden");
    assert("showId"@[1] != "systemId"@[1]);
    assert("showPermit"@[1] != "systemName"@[1]);
    assert("showId"@.len() == 6);
    assert("showCoordinates"@.len() == 15);
    assert("showInformation"@.len() == 15);
    assert("showPrimaryStar"@.len() == 15);
    assert("includeHidden"@.len() == 13);
}

/// Builds the parameters of a request for system information.
pub fn system_parameters(system: SystemSpecifier) -> (r: Vec<(String, String)>)
    ensures
        r.deep_view() == system_query(system),
{
    let mut query: Vec<(String, String)> = Vec::new();
    system.apply(&mut query);
    append_pair(&mut query, "showId", "1");
    append_pair(&mut query, "showCoordinates", "1");
    append_pair(&mut query, "showPermit", "1");
    append_pair(&mut query, "showInformation", "1");
    append_pair(&mut query, "showPrimaryStar", "1");
    append_pair(&mut query, "includeHidden", "1");
    assert(query.deep_view() =~= system_query(system));
    query
}

/// The URL of a request for system information, or `None` if the `url` crate
/// rejects the endpoint.
pub fn system_url(system: SystemSpecifier) -> (r: Option<String>)
    ensures
        match r {
            Some(text) => url_with_params(system_endpoint(), system_query(system)) == Some(text@),
            None => url_with_params(system_endpoint(), system_query(system)) is None,
        },
{
    let query = system_parameters(system);
    proof {
        reveal_strlit("https://www.edsm.net/api-v1/system");
    }
    request_url("https://www.edsm.net/api-v1/system", &query)
}

/// `edsm_dumps_model::model::system::Coords`: where a system lies.
#[verifier::external_type_specification]
#[verifier::external_body]
pub struct ExCoords(Coords);

/// `edsm_dumps_model::model::body::StarSubType`: the class of a star.
#[verifier::external_type_specification]
#[verifier::external_body]
pub struct ExStarSubType(StarSubType);

/// `Coords::clone`, which `edsm_dumps_model` derives: the copy holds what the
/// coordinates hold.
pub assume_specification[ <Coords as Clone>::clone ](c: &Coords) -> (r: Coords)
    ensures
        r == *c,
;

/// `StarSubType::clone`, which `edsm_dumps_model` derives: the copy is the
/// same class.
pub assume_specification[ <StarSubType as Clone>::clone ](t: &StarSubType) -> (r: StarSubType)
    ensures
        r == *t,
;

/// The coordinates that `Coords::deserialize` reads from the document `v`,
/// or `None` where it reads none.
pub uninterp spec fn json_coords(v: Value) -> Option<Coords>;

/// The class of star that `StarSubType::deserialize` reads from the
/// document `v`, or `None` where it reads none.
pub uninterp spec fn json_star_sub_type(v: Value) -> Option<StarSubType>;

/// `Coords::deserialize` on a parsed document: the decoder that
/// `edsm_dumps_model` derives for its coordinates. Its outcome depends on
/// the document alone and is named [`json_coords`].
#[verifier::external_body]
fn coords(v: &Value) -> (r: Result<Coords, JsonError>)
    ensures
        match r {
            Ok(c) => json_coords(*v) == Some(c),
            Err(_) => json_coords(*v) is None,
        },
{
    Coords::deserialize(v)
}

/// `StarSubType::deserialize` on a parsed document: the decoder that
/// `edsm_dumps_model` derives for its classes of stars. Its outcome depends
/// on the document alone and is named [`json_star_sub_type`].
#[verifier::external_body]
fn star_sub_type(v: &Value) -> (r: Result<StarSubType, JsonError>)
    ensures
        match r {
            Ok(t) => json_star_sub_type(*v) == Some(t),
            Err(_) => json_star_sub_type(*v) is None,
        },
{
    StarSubType::deserialize(v)
}

/// Information of primary star in [`SystemInfo`]
#[derive(Debug, Clone)]
pub struct PrimaryStar {
    /// Primary star's name
    pub name: String,
    /// Type of star
    pub typ: StarSubType,
    /// `true` if star is scoopable
    pub is_scoopable: bool,
}

/// What a [`PrimaryStar`] holds.
pub struct PrimaryStarView {
    pub name: Seq<char>,
    pub typ: StarSubType,
    pub is_scoopable: bool,
}

impl View for PrimaryStar {
    type V = PrimaryStarView;

    open spec fn view(&self) -> PrimaryStarView {
        PrimaryStarView { name: self.name@, typ: self.typ, is_scoopable: self.is_scoopable }
    }
}

/// The class of star that the member `key` of `v` holds.
pub open spec fn member_star_sub_type(v: Value, key: Seq<char>) -> Option<StarSubType> {
    match json_member(v, key) {
        Some(member) => json_star_sub_type(member),
        None => None,
    }
}

/// The coordinates that the member `key` of `v` holds.
pub open spec fn member_coords(v: Value, key: Seq<char>) -> Option<Coords> {
    match json_member(v, key) {
        Some(member) => json_coords(member),
        None => None,
    }
}

/// The primary star that the document `v` describes: an object with the
/// members `name`, `type` and `isScoopable`, each of its kind. `None` where
/// one of them is missing or of another kind.
pub open spec fn primary_star_of(v: Value) -> Option<PrimaryStarView> {
    match (
        member_text(v, "name"@),
        member_star_sub_type(v, "type"@),
        member_bool(v, "isScoopable"@),
    ) {
        (Some(name), Some(typ), Some(is_scoopable)) => Some(
            PrimaryStarView { name, typ, is_scoopable },
        ),
        _ => None,
    }
}

/// A document describes a primary star exactly when it holds each of the
/// three members in its kind, and the star then holds those very values.
pub proof fn lemma_primary_star_holds_wire_values(v: Value)
    ensures
        primary_star_of(v) is Some <==> member_text(v, "name"@) is Some && member_star_sub_type(
            v,
            "type"@,
        ) is Some && member_bool(v, "isScoopable"@) is Some,
        primary_star_of(v) is Some ==> {
            let star = primary_star_of(v)->Some_0;
            &&& member_text(v, "name"@) == Some(star.name)
            &&& member_star_sub_type(v, "type"@) == Some(star.typ)
            &&& member_bool(v, "isScoopable"@) == Some(star.is_scoopable)
        },
{
}

impl PrimaryStar {
    /// Decodes the primary star that `v` describes.
    pub fn decode(v: &Value) -> (r: Result<PrimaryStar, Error>)
        ensures
            match r {
                Ok(star) => primary_star_of(*v) == Some(star@),
                Err(e) => e is DecodeError && primary_star_of(*v) is None,
            },
    {
        let name = text_field(v, "name")?;
        let typ = match star_sub_type(field(v, "type")?) {
            Ok(typ) => typ,
            Err(e) => { return Err(Error::from(e)); },
        };
        let is_scoopable = bool_field(v, "isScoopable")?;
        Ok(PrimaryStar { name, typ, is_scoopable })
    }
}

/// What the API answers to a request for system information.
#[derive(Debug, Clone)]
pub struct SystemInfo {
    /// System's ID
    pub id: u64,
    /// In-game system ID
    pub id64: u64,
    /// System's name
    pub name: String,
    /// Coords of system
    pub coords: Coords,
    /// `true` if system is locked.
    pub coords_locked: bool,
    /// `true` if permit is required.
    pub require_permit: bool,
    /// Information of primary star
    pub primary_star: PrimaryStar,
}

/// What a [`SystemInfo`] holds.
pub struct SystemInfoView {
    pub id: u64,
    pub id64: u64,
    pub name: Seq<char>,
    pub coords: Coords,
    pub coords_locked: bool,
    pub require_permit: bool,
    pub primary_star: PrimaryStarView,
}

impl View for SystemInfo {
    type V = SystemInfoView;

    open spec fn view(&self) -> SystemInfoView {
        SystemInfoView {
            id: self.id,
            id64: self.id64,
            name: self.name@,
            coords: self.coords,
            coords_locked: self.coords_locked,
            require_permit: self.require_permit,
            primary_star: self.primary_star@,
        }
    }
}

/// The primary star that the member `key` of `v` describes.
pub open spec fn member_primary_star(v: Value, key: Seq<char>) -> Option<PrimaryStarView> {
    match json_member(v, key) {
        Some(member) => primary_star_of(member),
        None => None,
    }
}

/// The system that the document `v` describes: an object with the members
/// `id`, `id64`, `name`, `coords`, `coordsLocked`, `requirePermit` and
/// `primaryStar`, each of its kind. `None` where one of them is missing or
/// of another kind. Other members are passed over.
pub open spec fn system_info_of(v: Value) -> Option<SystemInfoView> {
    match (
        member_u64(v, "id"@),
        member_u64(v, "id64"@),
        member_text(v, "name"@),
        member_coords(v, "coords"@),
        member_bool(v, "coordsLocked"@),
        member_bool(v, "requirePermit"@),
        member_primary_star(v, "primaryStar"@),
    ) {
        (
            Some(id),
            Some(id64),
            Some(name),
            Some(coords),
            Some(coords_locked),
            Some(require_permit),
            Some(primary_star),
        ) => Some(
            SystemInfoView { id, id64, name, coords, coords_locked, require_permit, primary_star },
        ),
        _ => None,
    }
}

/// A document describes a system exactly when it holds each of the seven
/// members in its kind, and the system then holds those very values.
pub proof fn lemma_system_info_holds_wire_values(v: Value)
    ensures
        system_info_of(v) is Some <==> member_u64(v, "id"@) is Some && member_u64(v, "id64"@)
            is Some && member_text(v, "name"@) is Some && member_coords(v, "coords"@) is Some
            && member_bool(v, "coordsLocked"@) is Some && member_bool(v, "requirePermit"@)
            is Some && member_primary_star(v, "primaryStar"@) is Some,
        system_info_of(v) is Some ==> {
            let info = system_info_of(v)->Some_0;
            &&& member_u64(v, "id"@) == Some(info.id)
            &&& member_u64(v, "id64"@) == Some(info.id64)
            &&& member_text(v, "name"@) == Some(info.name)
            &&& member_coords(v, "coords"@) == Some(info.coords)
            &&& member_bool(v, "coordsLocked"@) == Some(info.coords_locked)
            &&& member_bool(v, "requirePermit"@) == Some(info.require_permit)
            &&& member_primary_star(v, "primaryStar"@) == Some(info.primary_star)
        },
{
}

impl SystemInfo {
    /// Decodes the system that `v` describes.
    pub fn decode(v: &Value) -> (r: Result<SystemInfo, Error>)
        ensures
            match r {
                Ok(info) => system_info_of(*v) == Some(info@),
                Err(e) => e is DecodeError && system_info_of(*v) is None,
            },
    {
        let id = u64_field(v, "id")?;
        let id64 = u64_field(v, "id64")?;
        let name = text_field(v, "name")?;
        let coords = match coords(field(v, "coords")?) {
            Ok(coords) => coords,
            Err(e) => { return Err(Error::from(e)); },
        };
        let coords_locked = bool_field(v, "coordsLocked")?;
        let require_permit = bool_field(v, "requirePermit")?;
        let primary_star = PrimaryStar::decode(field(v, "primaryStar")?)?;
        Ok(SystemInfo { id, id64, name, coords, coords_locked, require_permit, primary_star })
    }
}

/// The system that the payload `bytes` describes, or `None` where the
/// bytes are no JSON text or the document describes no system.
pub open spec fn system_info_in(bytes: Seq<u8>) -> Option<SystemInfoView> {
    match json_parse(bytes) {
        Some(v) => system_info_of(v),
        None => None,
    }
}

/// Reads the payload of a request for system information. The payload `{}`
/// says that there is no such system: it is refused as an empty response
/// and never decoded. Any other payload is decoded, whole or not at all.
pub fn system_payload(bytes: &[u8]) -> (r: Result<SystemInfo, Error>)
    ensures
        answers(r, bytes@ == empty_object(), system_info_in(bytes@)),
{
    check_empty_object(bytes)?;
    let v = document(bytes)?;
    SystemInfo::decode(&v)
}

/// Turns what the transport brought for a request for system information
/// into the answer of the call: the transport's failure, the empty
/// response, the decode failure, or the system.
pub fn system_response(fetched: Result<Vec<u8>, String>) -> (r: Result<SystemInfo, Error>)
    ensures
        match fetched {
            Err(failure) => r == Err::<SystemInfo, Error>(Error::HTTP(failure)),
            Ok(bytes) => answers(r, bytes@ == empty_object(), system_info_in(bytes@)),
        },
{
    match fetched {
        Err(failure) => Err(Error::HTTP(failure)),
        Ok(bytes) => system_payload(bytes.as_slice()),
    }
}

} // verus!
