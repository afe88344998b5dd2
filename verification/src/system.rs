//! In-system informations API
//!
//! <https://www.edsm.net/ja/api-system-v1>

use vstd::prelude::*;
use edsm_dumps_model::model::body::Body;
use serde::Deserialize;
use serde_json::Error as JsonError;
use serde_json::Value;
use crate::json::{
    as_array, document, field, json_items, json_member, json_parse, member_text, member_u64,
    mismatch, text_field, u64_field,
};
use crate::query::{request_url, url_with_params};
use crate::{
    answers, check_empty, is_empty_payload, lemma_specifier_names_system, names_system, Error,
    SystemSpecifier,
};

verus! {

/// `edsm_dumps_model::model::body::Body`: a body of a system, such as a
/// star or a planet.
#[verifier::external_type_specification]
#[verifier::external_body]
pub struct ExBody(Body);

/// `Body::clone`, which `edsm_dumps_model` derives: the copy holds what the
/// body holds.
pub assume_specification[ <Body as Clone>::clone ](b: &Body) -> (r: Body)
    ensures
        r == *b,
;

/// The body that `Body::deserialize` reads from the document `v`, or `None`
/// where it reads none.
pub uninterp spec fn json_body(v: Value) -> Option<Body>;

/// `Body::deserialize` on a parsed document: the decoder that
/// `edsm_dumps_model` derives for its bodies. Its outcome depends on the
/// document alone and is named [`json_body`].
#[verifier::external_body]
fn body(v: &Value) -> (r: Result<Body, JsonError>)
    ensures
        match r {
            Ok(b) => json_body(*v) == Some(b),
            Err(_) => json_body(*v) is None,
        },
{
    Body::deserialize(v)
}

/// Where the bodies of a system are asked for.
pub open spec fn bodies_endpoint() -> Seq<char> {
    "https://www.edsm.net/api-system-v1/bodies"@
}

/// The parameters of a request for the bodies of a system: the specifier
/// and nothing else.
pub open spec fn bodies_query(system: SystemSpecifier) -> Seq<(Seq<char>, Seq<char>)> {
    seq![system.parameter()]
}

/// A request for the bodies of a system names its system exactly once.
pub proof fn lemma_bodies_query_names_one_system(system: SystemSpecifier)
    ensures
        bodies_query(system).len() == 1,
        names_system(bodies_query(system)[0]),
{
    lemma_specifier_names_system(system);
}

/// Builds the parameters of a request for the bodies of a system.
pub fn bodies_parameters(system: SystemSpecifier) -> (r: Vec<(String, String)>)
    ensures
        r.deep_view() == bodies_query(system),
{
    let mut query: Vec<(String, String)> = Vec::new();
    system.apply(&mut query);
    assert(query.deep_view() =~= bodies_query(system));
    query
}

/// The URL of a request for the bodies of a system, or `None` if the `url`
/// crate rejects the endpoint.
pub fn bodies_url(system: SystemSpecifier) -> (r: Option<String>)
    ensures
        match r {
            Some(text) => url_with_params(bodies_endpoint(), bodies_query(system)) == Some(text@),
            None => url_with_params(bodies_endpoint(), bodies_query(system)) is None,
        },
{
    let query = bodies_parameters(system);
    proof {
        reveal_strlit("https://www.edsm.net/api-system-v1/bodies");
    }
    request_url("https://www.edsm.net/api-system-v1/bodies", &query)
}

/// What the API answers to a request for the bodies of a system.
#[derive(Debug, Clone)]
pub struct Bodies {
    /// System ID
    pub id: u64,
    /// In-game system ID
    pub id64: u64,
    /// System name
    pub name: String,
    /// EDSM page url
    pub url: String,
    /// body count in system
    pub body_count: u64,
    /// Bodies in system
    pub bodies: Vec<Body>,
}

/// What a [`Bodies`] holds.
pub struct BodiesView {
    pub id: u64,
    pub id64: u64,
    pub name: Seq<char>,
    pub url: Seq<char>,
    pub body_count: u64,
    pub bodies: Seq<Body>,
}

impl View for Bodies {
    type V = BodiesView;

    open spec fn view(&self) -> BodiesView {
        BodiesView {
            id: self.id,
            id64: self.id64,
            name: self.name@,
            url: self.url@,
            body_count: self.body_count,
            bodies: self.bodies@,
        }
    }
}

/// The bodies that the document `v` lists: an array whose items each
/// describe a body, in the array's order. `None` where `v` is no array or
/// one item describes no body.
pub open spec fn body_list_of(v: Value) -> Option<Seq<Body>> {
    match json_items(v) {
        Some(items) => if forall|i: int| 0 <= i < items.len() ==> (#[trigger] json_body(
            items[i],
        )) is Some {
            Some(Seq::new(items.len(), |i: int| json_body(items[i]).unwrap()))
        } else {
            None
        },
        None => None,
    }
}

/// The bodies that the member `key` of `v` lists.
pub open spec fn member_body_list(v: Value, key: Seq<char>) -> Option<Seq<Body>> {
    match json_member(v, key) {
        Some(member) => body_list_of(member),
        None => None,
    }
}

/// The bodies of a system that the document `v` describes: an object with
/// the members `id`, `id64`, `name`, `url`, `bodyCount` and `bodies`, each
/// of its kind. `None` where one of them is missing or of another kind.
pub open spec fn bodies_of(v: Value) -> Option<BodiesView> {
    match (
        member_u64(v, "id"@),
        member_u64(v, "id64"@),
        member_text(v, "name"@),
        member_text(v, "url"@),
        member_u64(v, "bodyCount"@),
        member_body_list(v, "bodies"@),
    ) {
        (Some(id), Some(id64), Some(name), Some(url), Some(body_count), Some(bodies)) => Some(
            BodiesView { id, id64, name, url, body_count, bodies },
        ),
        _ => None,
    }
}

/// A list of bodies has as many bodies as the array has items, each read
/// from the item in its place; and an array lists bodies exactly when each
/// of its items describes one.
pub proof fn lemma_body_list_follows_the_array(v: Value)
    ensures
        body_list_of(v) is Some <==> json_items(v) is Some && forall|i: int|
            0 <= i < json_items(v)->Some_0.len() ==> (#[trigger] json_body(
                json_items(v)->Some_0[i],
            )) is Some,
        body_list_of(v) is Some ==> {
            let items = json_items(v)->Some_0;
            let bodies = body_list_of(v)->Some_0;
            &&& bodies.len() == items.len()
            &&& forall|i: int|
                0 <= i < items.len() ==> json_body(#[trigger] items[i]) == Some(bodies[i])
        },
{
}

/// A document describes the bodies of a system exactly when it holds each
/// of the six members in its kind, and the record then holds those very
/// values.
pub proof fn lemma_bodies_hold_wire_values(v: Value)
    ensures
        bodies_of(v) is Some <==> member_u64(v, "id"@) is Some && member_u64(v, "id64"@) is Some
            && member_text(v, "name"@) is Some && member_text(v, "url"@) is Some && member_u64(
            v,
            "bodyCount"@,
        ) is Some && member_body_list(v, "bodies"@) is Some,
        bodies_of(v) is Some ==> {
            let bodies = bodies_of(v)->Some_0;
            &&& member_u64(v, "id"@) == Some(bodies.id)
            &&& member_u64(v, "id64"@) == Some(bodies.id64)
            &&& member_text(v, "name"@) == Some(bodies.name)
            &&& member_text(v, "url"@) == Some(bodies.url)
            &&& member_u64(v, "bodyCount"@) == Some(bodies.body_count)
            &&& member_body_list(v, "bodies"@) == Some(bodies.bodies)
        },
{
}

/// Decodes the bodies that `v` lists, in order; fails at the first item
/// that describes no body.
pub fn body_list(v: &Value) -> (r: Result<Vec<Body>, Error>)
    ensures
        match r {
            Ok(bodies) => body_list_of(*v) == Some(bodies@),
            Err(e) => e is DecodeError && body_list_of(*v) is None,
        },
{
    let items = match as_array(v) {
        Some(items) => items,
        None => { return Err(mismatch("bodies", "an array")); },
    };
    let mut bodies: Vec<Body> = Vec::new();
    let mut i: usize = 0;
    while i < items.len()
        invariant
            i <= items.len(),
            json_items(*v) == Some(items@),
            bodies.len() == i,
            forall|k: int| 0 <= k < i ==> (#[trigger] json_body(items@[k])) == Some(bodies@[k]),
        decreases items.len() - i,
    {
        match body(&items[i]) {
            Ok(b) => { bodies.push(b); },
            Err(e) => {
                assert(json_body(items@[i as int]) is None);
                return Err(Error::from(e));
            },
        }
        i += 1;
    }
    assert(bodies@ =~= Seq::new(items@.len(), |i: int| json_body(items@[i]).unwrap()));
    Ok(bodies)
}

impl Bodies {
    /// Decodes the bodies of a system that `v` describes.
    pub fn decode(v: &Value) -> (r: Result<Bodies, Error>)
        ensures
            match r {
                Ok(bodies) => bodies_of(*v) == Some(bodies@),
                Err(e) => e is DecodeError && bodies_of(*v) is None,
            },
    {
        let id = u64_field(v, "id")?;
        let id64 = u64_field(v, "id64")?;
        let name = text_field(v, "name")?;
        let url = text_field(v, "url")?;
        let body_count = u64_field(v, "bodyCount")?;
        let bodies = body_list(field(v, "bodies")?)?;
        Ok(Bodies { id, id64, name, url, body_count, bodies })
    }
}

/// The bodies of a system that the payload `bytes` describes, or `None`
/// where the bytes are no JSON text or the document describes none.
pub open spec fn bodies_in(bytes: Seq<u8>) -> Option<BodiesView> {
    match json_parse(bytes) {
        Some(v) => bodies_of(v),
        None => None,
    }
}

/// Reads the payload of a request for the bodies of a system. The payloads
/// `{}` and `[]` say that there is no such system: they are refused as an
/// empty response and never decoded. Any other payload is decoded, whole or
/// not at all.
pub fn bodies_payload(bytes: &[u8]) -> (r: Result<Bodies, Error>)
    ensures
        answers(r, is_empty_payload(bytes@), bodies_in(bytes@)),
{
    check_empty(bytes)?;
    let v = document(bytes)?;
    Bodies::decode(&v)
}

/// Turns what the transport brought for a request for the bodies of a
/// system into the answer of the call: the transport's failure, the empty
/// response, the decode failure, or the bodies.
pub fn bodies_response(fetched: Result<Vec<u8>, String>) -> (r: Result<Bodies, Error>)
    ensures
        match fetched {
            Err(failure) => r == Err::<Bodies, Error>(Error::HTTP(failure)),
            Ok(bytes) => answers(r, is_empty_payload(bytes@), bodies_in(bytes@)),
        },
{
    match fetched {
        Err(failure) => Err(Error::HTTP(failure)),
        Ok(bytes) => bodies_payload(bytes.as_slice()),
    }
}

} // verus!
