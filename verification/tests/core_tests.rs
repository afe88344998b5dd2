use edsm_api::json::{bool_field, field, text_field, u64_field};
use edsm_api::query::append_pair;
use edsm_api::status::{EliteServer, StatusType};
use edsm_api::system::{bodies_parameters, body_list, Bodies};
use edsm_api::systems::{system_parameters, PrimaryStar, SystemInfo};
use edsm_api::text::{decimal, same_text};
use edsm_api::{check_empty, check_empty_object, Error, SystemSpecifier};

use serde_json::Value;

/**** specifier ****/

#[test]
fn name_applies_as_system_name() {
    let mut query: Vec<(String, String)> = Vec::new();
    SystemSpecifier::from("Sol").apply(&mut query);
    assert_eq!(query, vec![("systemName".to_string(), "Sol".to_string())]);
    assert!(query.iter().all(|(name, _)| name != "systemId"));
}

#[test]
fn name_is_passed_through_as_it_is() {
    for name in ["", " ", "Not Exist XX-X x0", "27", "a&b=c", "Col 285 Sector é"] {
        let mut query: Vec<(String, String)> = Vec::new();
        SystemSpecifier::from(name).apply(&mut query);
        assert_eq!(query, vec![("systemName".to_string(), name.to_string())]);
    }
}

#[test]
fn id_applies_as_system_id() {
    let mut query: Vec<(String, String)> = Vec::new();
    SystemSpecifier::from(27u64).apply(&mut query);
    assert_eq!(query, vec![("systemId".to_string(), "27".to_string())]);
    assert!(query.iter().all(|(name, _)| name != "systemName"));
}

#[test]
fn id_is_written_in_base_ten() {
    for (id, written) in [(0u64, "0"), (9, "9"), (10, "10"), (10477373803, "10477373803"), (u64::MAX, "18446744073709551615")] {
        let mut query: Vec<(String, String)> = Vec::new();
        SystemSpecifier::Id(id).apply(&mut query);
        assert_eq!(query, vec![("systemId".to_string(), written.to_string())]);
    }
}

#[test]
fn apply_appends_behind_what_is_there() {
    let mut query = vec![("showId".to_string(), "1".to_string())];
    SystemSpecifier::Name("Sol").apply(&mut query);
    SystemSpecifier::Id(27).apply(&mut query);
    assert_eq!(
        query,
        vec![
            ("showId".to_string(), "1".to_string()),
            ("systemName".to_string(), "Sol".to_string()),
            ("systemId".to_string(), "27".to_string()),
        ]
    );
}

#[test]
fn specifier_is_copied() {
    let system = SystemSpecifier::Name("Sol");
    let copy = system;
    match (system, copy.clone()) {
        (SystemSpecifier::Name(a), SystemSpecifier::Name(b)) => assert_eq!(a, b),
        other => panic!("Invalid specifiers: {:?}", other),
    }
}

/**** query ****/

#[test]
fn append_pair_appends_one_pair() {
    let mut query: Vec<(String, String)> = Vec::new();
    append_pair(&mut query, "showId", "1");
    append_pair(&mut query, "", "");
    assert_eq!(
        query,
        vec![("showId".to_string(), "1".to_string()), (String::new(), String::new())]
    );
}

#[test]
fn system_parameters_are_the_specifier_and_six_switches() {
    let query = system_parameters(SystemSpecifier::Name("Sol"));
    let expected: Vec<(String, String)> = [
        ("systemName", "Sol"),
        ("showId", "1"),
        ("showCoordinates", "1"),
        ("showPermit", "1"),
        ("showInformation", "1"),
        ("showPrimaryStar", "1"),
        ("includeHidden", "1"),
    ]
    .iter()
    .map(|(name, value)| (name.to_string(), value.to_string()))
    .collect();
    assert_eq!(query, expected);
    let by_id = system_parameters(SystemSpecifier::Id(27));
    assert_eq!(by_id[0], ("systemId".to_string(), "27".to_string()));
    assert_eq!(by_id[1..], expected[1..]);
}

#[test]
fn queries_name_their_system_once() {
    for query in [
        system_parameters(SystemSpecifier::Name("Sol")),
        system_parameters(SystemSpecifier::Id(27)),
        bodies_parameters(SystemSpecifier::Name("Sol")),
        bodies_parameters(SystemSpecifier::Id(27)),
    ] {
        let naming = query.iter().filter(|(name, _)| name == "systemName" || name == "systemId").count();
        assert_eq!(naming, 1);
    }
}

#[test]
fn bodies_parameters_are_the_specifier_alone() {
    assert_eq!(
        bodies_parameters(SystemSpecifier::Id(27)),
        vec![("systemId".to_string(), "27".to_string())]
    );
    assert_eq!(
        bodies_parameters(SystemSpecifier::Name("Sol")),
        vec![("systemName".to_string(), "Sol".to_string())]
    );
}

/**** guard ****/

#[test]
fn check_empty_refuses_both_empty_payloads() {
    assert!(matches!(check_empty(b"{}"), Err(Error::EmptyResponse)));
    assert!(matches!(check_empty(b"[]"), Err(Error::EmptyResponse)));
}

#[test]
fn check_empty_lets_everything_else_pass() {
    for payload in [&b""[..], b"{", b"}", b"[", b"{]", b"[}", b"}{", b"{} ", b" {}", b"{ }", b"[ ]", b"{}{}", b"null", b"{\"id\":27}", b"[1]"] {
        assert!(matches!(check_empty(payload), Ok(())));
    }
}

#[test]
fn check_empty_object_refuses_the_empty_object_alone() {
    assert!(matches!(check_empty_object(b"{}"), Err(Error::EmptyResponse)));
    for payload in [&b""[..], b"[]", b"{", b"{ }", b"{}\n", b"{\"id\":27}"] {
        assert!(matches!(check_empty_object(payload), Ok(())));
    }
}

/**** error ****/

#[test]
fn error_messages() {
    assert_eq!(Error::HTTP("connection refused".to_string()).message(), "HTTP error: connection refused");
    assert_eq!(Error::EmptyResponse.message(), "empty response");
    let failure = serde_json::from_str::<Value>("{").unwrap_err();
    let described = failure.to_string();
    assert_eq!(Error::from(failure).message(), format!("failed to decode JSON: {}", described));
}

#[test]
fn decode_failure_names_the_member() {
    let v: Value = serde_json::from_str("{\"id\":\"27\",\"flag\":0,\"name\":0}").unwrap();
    assert_eq!(
        field(&v, "id64").unwrap_err().message(),
        "failed to decode JSON: member `id64`: expected a value"
    );
    assert_eq!(
        u64_field(&v, "id").unwrap_err().message(),
        "failed to decode JSON: member `id`: expected an unsigned integer"
    );
    assert_eq!(
        bool_field(&v, "flag").unwrap_err().message(),
        "failed to decode JSON: member `flag`: expected a boolean"
    );
    assert_eq!(
        text_field(&v, "name").unwrap_err().message(),
        "failed to decode JSON: member `name`: expected a string"
    );
}

#[test]
fn decode_failure_converts_into_decode_error() {
    let failure = serde_json::from_str::<Value>("nul").unwrap_err();
    assert!(matches!(Error::from(failure), Error::DecodeError(_)));
}

/**** text ****/

#[test]
fn decimal_renders_base_ten() {
    assert_eq!(decimal(0), "0");
    assert_eq!(decimal(7), "7");
    assert_eq!(decimal(10), "10");
    assert_eq!(decimal(27), "27");
    assert_eq!(decimal(1234567890), "1234567890");
    assert_eq!(decimal(u64::MAX), "18446744073709551615");
    for n in 0..2000u64 {
        assert_eq!(decimal(n), n.to_string());
    }
}

#[test]
fn same_text_compares_characters() {
    assert!(same_text("", ""));
    assert!(same_text("success", "success"));
    assert!(same_text("é", "\u{e9}"));
    assert!(!same_text("success", "Success"));
    assert!(!same_text("success", "succes"));
    assert!(!same_text("", " "));
    assert!(!same_text("warning", "success"));
}

#[test]
fn status_type_names() {
    assert_eq!(StatusType::from_name("success"), Some(StatusType::Success));
    assert_eq!(StatusType::from_name("warning"), Some(StatusType::Warning));
    assert_eq!(StatusType::from_name("danger"), Some(StatusType::Danger));
    assert_eq!(StatusType::from_name("Success"), None);
    assert_eq!(StatusType::from_name(""), None);
    assert_eq!(StatusType::from_name("dangerous"), None);
    assert!(StatusType::Success < StatusType::Warning);
    assert!(StatusType::Warning < StatusType::Danger);
}

/**** members ****/

#[test]
fn field_finds_a_member_of_an_object() {
    let v: Value = serde_json::from_str("{\"id\":27,\"name\":null}").unwrap();
    assert_eq!(field(&v, "id").unwrap(), &Value::from(27u64));
    assert_eq!(field(&v, "name").unwrap(), &Value::Null);
    assert!(matches!(field(&v, "id64"), Err(Error::DecodeError(_))));
    assert!(matches!(field(&v, "ID"), Err(Error::DecodeError(_))));
    let list: Value = serde_json::from_str("[27]").unwrap();
    assert!(matches!(field(&list, "id"), Err(Error::DecodeError(_))));
}

#[test]
fn u64_field_reads_unsigned_integers() {
    let v: Value = serde_json::from_str("{\"a\":0,\"b\":18446744073709551615,\"c\":-1,\"d\":1.0,\"e\":\"1\",\"f\":18446744073709551616,\"g\":true}").unwrap();
    assert_eq!(u64_field(&v, "a").unwrap(), 0);
    assert_eq!(u64_field(&v, "b").unwrap(), u64::MAX);
    for key in ["c", "d", "e", "f", "g", "h"] {
        assert!(matches!(u64_field(&v, key), Err(Error::DecodeError(_))), "{}", key);
    }
}

#[test]
fn bool_field_reads_truth_values() {
    let v: Value = serde_json::from_str("{\"a\":true,\"b\":false,\"c\":1,\"d\":\"true\",\"e\":null}").unwrap();
    assert!(bool_field(&v, "a").unwrap());
    assert!(!bool_field(&v, "b").unwrap());
    for key in ["c", "d", "e", "f"] {
        assert!(matches!(bool_field(&v, key), Err(Error::DecodeError(_))), "{}", key);
    }
}

#[test]
fn text_field_reads_strings() {
    let v: Value = serde_json::from_str("{\"a\":\"Sol\",\"b\":\"\",\"c\":\"\\u00e9\\n\",\"d\":27,\"e\":[\"Sol\"]}").unwrap();
    assert_eq!(text_field(&v, "a").unwrap(), "Sol");
    assert_eq!(text_field(&v, "b").unwrap(), "");
    assert_eq!(text_field(&v, "c").unwrap(), "é\n");
    for key in ["d", "e", "f"] {
        assert!(matches!(text_field(&v, key), Err(Error::DecodeError(_))), "{}", key);
    }
}

/**** records ****/

#[test]
fn primary_star_decodes_from_a_document() {
    let v: Value = serde_json::from_str("{\"name\":\"Sol\",\"type\":\"G (White-Yellow) Star\",\"isScoopable\":true}").unwrap();
    let star = PrimaryStar::decode(&v).unwrap();
    assert_eq!(star.name, "Sol");
    assert_eq!(star.typ, edsm_dumps_model::model::body::StarSubType::GWhiteYellowStar);
    assert!(star.is_scoopable);
    let copy = star.clone();
    assert_eq!(copy.name, star.name);
    assert_eq!(copy.typ, star.typ);
    let bad: Value = serde_json::from_str("{\"name\":\"Sol\",\"type\":\"G\",\"isScoopable\":true}").unwrap();
    assert!(matches!(PrimaryStar::decode(&bad), Err(Error::DecodeError(_))));
}

#[test]
fn system_info_decodes_from_a_document() {
    let v: Value = serde_json::from_str("{\"id\":27,\"id64\":10477373803,\"name\":\"Sol\",\"coords\":{\"x\":1.5,\"y\":-2,\"z\":0},\"coordsLocked\":true,\"requirePermit\":false,\"primaryStar\":{\"name\":\"Sol\",\"type\":\"G (White-Yellow) Star\",\"isScoopable\":true}}").unwrap();
    let info = SystemInfo::decode(&v).unwrap();
    assert_eq!(info.id, 27);
    assert_eq!(info.coords.x, 1.5);
    assert_eq!(info.coords.y, -2.0);
    assert_eq!(info.clone().name, "Sol");
    assert!(matches!(SystemInfo::decode(&Value::Null), Err(Error::DecodeError(_))));
}

#[test]
fn elite_server_decodes_from_a_document() {
    let v: Value = serde_json::from_str("{\"lastUpdate\":\"1999-12-31 23:59:59\",\"type\":\"danger\",\"message\":\"\",\"status\":0}").unwrap();
    let status = EliteServer::decode(&v).unwrap();
    assert_eq!(status.last_update.to_string(), "1999-12-31 23:59:59");
    assert_eq!(status.typ, StatusType::Danger);
    assert_eq!(status.message, "");
    assert_eq!(status.status, 0);
    assert_eq!(status.clone().last_update, status.last_update);
}

#[test]
fn body_list_decodes_an_array() {
    let empty: Value = serde_json::from_str("[]").unwrap();
    assert!(body_list(&empty).unwrap().is_empty());
    let not_a_list: Value = serde_json::from_str("{}").unwrap();
    assert!(matches!(body_list(&not_a_list), Err(Error::DecodeError(_))));
    let bad_item: Value = serde_json::from_str("[27]").unwrap();
    assert!(matches!(body_list(&bad_item), Err(Error::DecodeError(_))));
    let no_bodies: Value = serde_json::from_str("{\"id\":27,\"id64\":1,\"name\":\"Sol\",\"url\":\"u\",\"bodyCount\":3,\"bodies\":[]}").unwrap();
    let bodies = Bodies::decode(&no_bodies).unwrap();
    assert_eq!(bodies.body_count, 3);
    assert_eq!(bodies.clone().url, "u");
}
