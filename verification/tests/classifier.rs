use voidinvestor::json::Json;
use voidinvestor::model::{Agent, Extraction, Sale, Transit};
use voidinvestor::parsers::{
    classify, classify_entity, extract_resources_response_parser, get_agent_response_parser,
    is_recognized, sell_cargo_response_parser, travel_request_response_parser, ClassifiedError,
    RemoteError,
};

fn payload(code: Json, message: Json) -> Json {
    Json::Object(vec![(
        "error".to_string(),
        Json::Object(vec![("message".to_string(), message), ("code".to_string(), code)]),
    )])
}

fn rejected(entity: Option<Json>) -> RemoteError {
    RemoteError::Response { status: 400, content: "body".to_string(), entity }
}

fn structured(code: i64, message: &str) -> RemoteError {
    rejected(Some(payload(Json::Int(code), Json::Text(message.to_string()))))
}

#[test]
fn member_lookup_finds_named_member() {
    let object = Json::Object(vec![
        ("a".to_string(), Json::Int(1)),
        ("b".to_string(), Json::Text("two".to_string())),
    ]);
    assert_eq!(object.get("a"), Some(&Json::Int(1)));
    assert_eq!(object.get("b"), Some(&Json::Text("two".to_string())));
    assert_eq!(object.get("c"), None);
}

#[test]
fn member_lookup_takes_the_later_of_two() {
    let object = Json::Object(vec![
        ("a".to_string(), Json::Int(1)),
        ("a".to_string(), Json::Int(2)),
    ]);
    assert_eq!(object.get("a"), Some(&Json::Int(2)));
}

#[test]
fn member_lookup_on_what_is_no_object() {
    assert_eq!(Json::Null.get("a"), None);
    assert_eq!(Json::List(vec![Json::Int(1)]).get("a"), None);
    assert_eq!(Json::Text("a".to_string()).get("a"), None);
}

#[test]
fn json_leaves_are_read() {
    assert_eq!(Json::Int(-7).as_i64(), Some(-7));
    assert_eq!(Json::Number("1.5".to_string()).as_i64(), None);
    assert_eq!(Json::Text("x".to_string()).as_str(), Some("x"));
    assert_eq!(Json::Bool(true).as_str(), None);
}

#[test]
fn structured_error_is_extracted_exactly() {
    let error = classify_entity(&Some(payload(
        Json::Int(4228),
        Json::Text("Failed to update ship cargo. Cargo is full.".to_string()),
    )));
    assert_eq!(
        error,
        ClassifiedError {
            code: 4228,
            message: "Failed to update ship cargo. Cargo is full.".to_string()
        }
    );
}

#[test]
fn structured_error_keeps_negative_code_and_empty_message() {
    let error = classify_entity(&Some(payload(Json::Int(-2147483648), Json::Text(String::new()))));
    assert_eq!(error, ClassifiedError { code: -2147483648, message: String::new() });
    let error = classify_entity(&Some(payload(Json::Int(2147483647), Json::Text("m".to_string()))));
    assert_eq!(error, ClassifiedError { code: 2147483647, message: "m".to_string() });
}

#[test]
fn unstructured_payloads_are_code_zero() {
    let zero = ClassifiedError { code: 0, message: String::new() };
    assert_eq!(classify_entity(&None), zero);
    assert_eq!(classify_entity(&Some(Json::Null)), zero);
    assert_eq!(classify_entity(&Some(Json::Text("error".to_string()))), zero);
    assert_eq!(classify_entity(&Some(Json::Object(vec![]))), zero);
    assert_eq!(
        classify_entity(&Some(Json::Object(vec![("error".to_string(), Json::Int(4228))]))),
        zero
    );
    assert_eq!(
        classify_entity(&Some(Json::Object(vec![(
            "error".to_string(),
            Json::Object(vec![("code".to_string(), Json::Int(4228))])
        )]))),
        zero
    );
    assert_eq!(
        classify_entity(&Some(Json::Object(vec![(
            "error".to_string(),
            Json::Object(vec![("message".to_string(), Json::Text("m".to_string()))])
        )]))),
        zero
    );
    assert_eq!(
        classify_entity(&Some(payload(
            Json::Text("4228".to_string()),
            Json::Text("m".to_string())
        ))),
        zero
    );
    assert_eq!(
        classify_entity(&Some(payload(
            Json::Number("4228.5".to_string()),
            Json::Text("m".to_string())
        ))),
        zero
    );
    assert_eq!(classify_entity(&Some(payload(Json::Int(4228), Json::Null))), zero);
    assert_eq!(
        classify_entity(&Some(payload(Json::Int(2147483648), Json::Text("m".to_string())))),
        zero
    );
    assert_eq!(
        classify_entity(&Some(payload(Json::Int(-2147483649), Json::Text("m".to_string())))),
        zero
    );
}

#[test]
fn classifier_is_identity_on_success() {
    assert_eq!(classify(Ok::<i32, RemoteError>(5)), Ok(5));
    assert_eq!(
        classify(Ok::<String, RemoteError>("kept".to_string())),
        Ok("kept".to_string())
    );
}

#[test]
fn classifier_turns_error_response_into_code_and_message() {
    assert_eq!(
        classify(Err::<i32, RemoteError>(structured(4203, "no fuel"))),
        Err(ClassifiedError { code: 4203, message: "no fuel".to_string() })
    );
    assert_eq!(
        classify(Err::<i32, RemoteError>(rejected(None))),
        Err(ClassifiedError { code: 0, message: String::new() })
    );
}

#[test]
fn recognized_levels() {
    assert!(is_recognized(&Ok::<i32, RemoteError>(1)));
    assert!(is_recognized(&Err::<i32, RemoteError>(rejected(None))));
    assert!(!is_recognized(&Err::<i32, RemoteError>(RemoteError::Transport {
        detail: "connection refused".to_string()
    })));
}

#[test]
fn sell_parser_success_and_errors() {
    let sale = Sale { symbol: "IRON_ORE".to_string(), units: 12 };
    let parsed = sell_cargo_response_parser(Ok(sale.clone()));
    assert_eq!(parsed.unwrap(), sale);
    let parsed = sell_cargo_response_parser(Err(structured(4602, "not sold here")));
    let error = parsed.unwrap_err();
    assert_eq!(error.code, 4602);
    assert_eq!(error.message, "not sold here");
    let error = sell_cargo_response_parser(Err(rejected(Some(Json::Null)))).unwrap_err();
    assert_eq!(error.code, 0);
    assert_eq!(error.message, "");
}

#[test]
fn extract_parser_success_and_errors() {
    let extraction = Extraction { symbol: "ICE_WATER".to_string(), units: 3 };
    let parsed = extract_resources_response_parser(Ok(extraction.clone()));
    assert_eq!(parsed.unwrap(), extraction);
    let error = extract_resources_response_parser(Err(structured(4000, "cooldown"))).unwrap_err();
    assert_eq!(error.code, 4000);
    assert_eq!(error.message, "cooldown");
    let error = extract_resources_response_parser(Err(rejected(None))).unwrap_err();
    assert_eq!(error.code, 0);
    assert_eq!(error.message, "");
}

#[test]
fn travel_parser_success_and_errors() {
    let transit = Transit { destination: "X1-DC54-89945X".to_string() };
    let parsed = travel_request_response_parser(Ok(transit.clone()));
    assert_eq!(parsed.unwrap(), transit);
    let error = travel_request_response_parser(Err(structured(4203, "fuel"))).unwrap_err();
    assert_eq!(error.code, 4203);
    assert_eq!(error.message, "fuel");
    let error =
        travel_request_response_parser(Err(rejected(Some(Json::List(vec![]))))).unwrap_err();
    assert_eq!(error.code, 0);
    assert_eq!(error.message, "");
}

#[test]
fn agent_parser_success_and_errors() {
    let agent = Agent { symbol: "YVONNE".to_string(), credits: 150000 };
    let parsed = get_agent_response_parser(Ok(agent.clone()));
    assert_eq!(parsed.unwrap(), agent);
    let error = get_agent_response_parser(Err(structured(4104, "gone"))).unwrap_err();
    assert_eq!(error.code, 4104);
    assert_eq!(error.message, "gone");
    let error = get_agent_response_parser(Err(rejected(Some(Json::Bool(false))))).unwrap_err();
    assert_eq!(error.code, 0);
    assert_eq!(error.message, "");
}

#[test]
fn four_parsers_agree_on_one_payload() {
    let make = || structured(4228, "full");
    let a = sell_cargo_response_parser(Err(make())).unwrap_err();
    let b = extract_resources_response_parser(Err(make())).unwrap_err();
    let c = travel_request_response_parser(Err(make())).unwrap_err();
    let d = get_agent_response_parser(Err(make())).unwrap_err();
    assert_eq!((a.code, a.message.as_str()), (4228, "full"));
    assert_eq!((b.code, b.message.as_str()), (4228, "full"));
    assert_eq!((c.code, c.message.as_str()), (4228, "full"));
    assert_eq!((d.code, d.message.as_str()), (4228, "full"));
}
