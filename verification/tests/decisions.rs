use rag::decision::{
    decide, decision_from_json, extract_embedded, name_embedded_failure, parse_json_object,
    read_envelope, DecisionEnvelope,
};
use rag::{parse_decision, Decision, Json, Member};

fn object(members: Vec<(&str, Json)>) -> Json {
    Json::Object(
        members
            .into_iter()
            .map(|(key, value)| Member { key: key.to_string(), value })
            .collect(),
    )
}

fn text(s: &str) -> Json {
    Json::Str(s.to_string())
}

fn envelope(action: &str) -> DecisionEnvelope {
    DecisionEnvelope {
        action: action.to_string(),
        name: None,
        arguments: Json::Null,
        answer: None,
        uri: None,
    }
}

#[test]
fn missing_query_is_named_in_the_failure() {
    let err = parse_decision(r#"{"action":"retrieve","arguments":{}}"#).unwrap_err();
    assert_eq!(err, "retrieve action requires arguments.query");
    let err = parse_decision(r#"{"action":"retrieve"}"#).unwrap_err();
    assert_eq!(err, "retrieve action requires arguments.query");
    let err = parse_decision(r#"{"action":"retrieve","arguments":{"query":5}}"#).unwrap_err();
    assert_eq!(err, "retrieve action requires arguments.query");
    assert_eq!(
        parse_decision(r#"{"action":"retrieve","arguments":{"query":""}}"#),
        Ok(Decision::Retrieve { query: String::new() })
    );
}

#[test]
fn final_answer_is_found_in_each_place_in_order() {
    for raw in [
        r#"{"action":"final","arguments":{"text":"4"}}"#,
        r#"{"action":"final","arguments":"4"}"#,
        r#"{"action":"final","answer":"4"}"#,
        r#"{"action":"final","arguments":{"final":"4"}}"#,
        r#"{"action":"final","arguments":{"response":"4"}}"#,
        r#"{"action":"final","name":"4"}"#,
        r#"{"action":"final","answer":"  ","arguments":{"answer":"4","text":"5"},"name":"6"}"#,
        r#"{"action":"final","answer":"4","arguments":"5","name":"6"}"#,
        r#"{"action":"final","arguments":{"final":"4","text":"5","response":"6"}}"#,
    ] {
        assert_eq!(parse_decision(raw), Ok(Decision::FinalAnswer("4".to_string())), "{}", raw);
    }
    assert_eq!(
        parse_decision(r#"{"action":"final","answer":" padded "}"#),
        Ok(Decision::FinalAnswer(" padded ".to_string()))
    );
    assert_eq!(
        parse_decision(r#"{"action":"final","answer":"","arguments":{"text":" "}}"#),
        Err("final action requires answer".to_string())
    );
    assert_eq!(
        parse_decision(r#"{"action":"final"}"#),
        Err("final action requires answer".to_string())
    );
}

#[test]
fn tool_and_prompt_need_a_name_and_default_their_arguments() {
    assert_eq!(
        parse_decision(r#"{"action":"tool","name":"fetch-weather","arguments":{"city":"Delhi"}}"#),
        Ok(Decision::ToolCall {
            name: "fetch-weather".to_string(),
            args: object(vec![("city", text("Delhi"))]),
        })
    );
    assert_eq!(
        parse_decision(r#"{"action":"tool","name":"t"}"#),
        Ok(Decision::ToolCall { name: "t".to_string(), args: object(vec![]) })
    );
    assert_eq!(
        parse_decision(r#"{"action":"prompt","name":"p","arguments":null}"#),
        Ok(Decision::PromptCall { name: "p".to_string(), args: object(vec![]) })
    );
    assert_eq!(
        parse_decision(r#"{"action":"tool","name":"t","arguments":[1,true]}"#),
        Ok(Decision::ToolCall {
            name: "t".to_string(),
            args: Json::Array(vec![Json::Number(serde_json::Number::from(1u64)), Json::Bool(true)]),
        })
    );
    assert_eq!(
        parse_decision(r#"{"action":"tool","name":"  "}"#),
        Err("tool action requires name".to_string())
    );
    assert_eq!(
        parse_decision(r#"{"action":"tool"}"#),
        Err("tool action requires name".to_string())
    );
    assert_eq!(
        parse_decision(r#"{"action":"prompt","name":null}"#),
        Err("prompt action requires name".to_string())
    );
}

#[test]
fn resource_address_is_taken_from_uri_then_arguments_then_name() {
    assert_eq!(
        parse_decision(r#"{"action":"resource","uri":"config://app"}"#),
        Ok(Decision::ResourceRead { uri: "config://app".to_string() })
    );
    assert_eq!(
        parse_decision(r#"{"action":"resource","uri":"a","arguments":{"uri":"b"},"name":"c"}"#),
        Ok(Decision::ResourceRead { uri: "a".to_string() })
    );
    assert_eq!(
        parse_decision(r#"{"action":"resource","arguments":{"uri":"b"},"name":"c"}"#),
        Ok(Decision::ResourceRead { uri: "b".to_string() })
    );
    assert_eq!(
        parse_decision(r#"{"action":"resource","name":"c"}"#),
        Ok(Decision::ResourceRead { uri: "c".to_string() })
    );
    assert_eq!(
        parse_decision(r#"{"action":"resource","uri":" ","name":"c"}"#),
        Err("resource action requires uri".to_string())
    );
    assert_eq!(
        parse_decision(r#"{"action":"resource"}"#),
        Err("resource action requires uri".to_string())
    );
}

#[test]
fn action_is_trimmed_and_compared_without_regard_to_case() {
    assert_eq!(
        parse_decision(r#"{"action":"  FiNaL ","answer":"x"}"#),
        Ok(Decision::FinalAnswer("x".to_string()))
    );
    assert_eq!(
        parse_decision(r#"{"action":"RETRIEVE","arguments":{"query":"q"}}"#),
        Ok(Decision::Retrieve { query: "q".to_string() })
    );
    assert_eq!(
        parse_decision(r#"{"action":" Dance "}"#),
        Err("unknown action: dance".to_string())
    );
    assert_eq!(
        parse_decision(r#"{"action":"ÉCRIRE"}"#),
        Err("unknown action: écrire".to_string())
    );
    assert_eq!(parse_decision(r#"{"action":""}"#), Err("unknown action: ".to_string()));
}

#[test]
fn objects_without_a_proper_envelope_are_refused() {
    assert_eq!(parse_decision(r#"{"name":"x"}"#), Err("missing field `action`".to_string()));
    assert_eq!(
        parse_decision(r#"{"action":5}"#),
        Err("invalid type for field `action`: expected a string".to_string())
    );
    assert_eq!(
        parse_decision(r#"{"action":null}"#),
        Err("invalid type for field `action`: expected a string".to_string())
    );
    assert_eq!(
        parse_decision(r#"{"action":"final","answer":4}"#),
        Err("invalid type for field `answer`: expected a string".to_string())
    );
    assert_eq!(
        parse_decision(r#"{"action":"tool","name":["x"]}"#),
        Err("invalid type for field `name`: expected a string".to_string())
    );
    assert_eq!(
        parse_decision(r#"{"action":"resource","uri":{}}"#),
        Err("invalid type for field `uri`: expected a string".to_string())
    );
    assert_eq!(
        parse_decision(r#"{"uri":1,"name":2}"#),
        Err("invalid type for field `name`: expected a string".to_string())
    );
    assert_eq!(
        parse_decision(r#""final""#),
        Err("invalid type: expected a JSON object".to_string())
    );
    assert_eq!(
        parse_decision(r#"["final"]"#),
        Err("invalid type: expected a JSON object".to_string())
    );
    assert_eq!(parse_decision("42"), Err("invalid type: expected a JSON object".to_string()));
}

#[test]
fn text_without_an_object_is_refused() {
    assert_eq!(
        parse_decision("I cannot answer that."),
        Err("No JSON object found in model output".to_string())
    );
    assert_eq!(parse_decision(""), Err("No JSON object found in model output".to_string()));
    assert_eq!(
        parse_decision("only { opens"),
        Err("No JSON object found in model output".to_string())
    );
    assert_eq!(
        parse_decision("only } closes"),
        Err("No JSON object found in model output".to_string())
    );
    assert_eq!(
        parse_decision("} before {"),
        Err("No JSON object found in model output".to_string())
    );
    let err = parse_decision("see {not json} here").unwrap_err();
    assert!(err.starts_with("Failed to parse JSON decision: "), "{}", err);
    assert!(err.len() > "Failed to parse JSON decision: ".len());
}

#[test]
fn embedded_object_reads_as_the_bare_object() {
    let bare = r#"{"action":"tool","name":"t","arguments":{"k":{"n":[1,2,{"x":null}]}}}"#;
    let expected = parse_decision(bare);
    assert!(expected.is_ok());
    for (before, after) in [
        ("assistant says:\n", "\n"),
        ("", " trailing prose"),
        ("```json\n", "\n```"),
        ("Sure! } here it is: ", " { done"),
        ("  ", "  "),
    ] {
        let wrapped = format!("{}{}{}", before, bare, after);
        assert_eq!(parse_decision(&wrapped), expected, "{:?}", wrapped);
    }
    assert_eq!(
        parse_decision("assistant says:\n{\"action\":\"final\",\"answer\":\"ok\"}\n"),
        Ok(Decision::FinalAnswer("ok".to_string()))
    );
}

#[test]
fn embedded_part_runs_from_the_first_opening_to_the_last_closing_brace() {
    assert_eq!(extract_embedded("a {b} c {d} e"), Some("{b} c {d}".to_string()));
    assert_eq!(extract_embedded("{}"), Some("{}".to_string()));
    assert_eq!(extract_embedded("é{ü}é"), Some("{ü}".to_string()));
    assert_eq!(extract_embedded("}{"), None);
    assert_eq!(extract_embedded("no braces"), None);
    assert_eq!(extract_embedded("{"), None);
    assert_eq!(extract_embedded("}"), None);
}

#[test]
fn whole_text_is_preferred_to_the_embedded_object() {
    assert_eq!(parse_json_object("  [1]  "), Ok(Json::Array(vec![Json::Number(1u64.into())])));
    assert_eq!(parse_json_object("x {\"a\":\"b\"} y"), Ok(object(vec![("a", text("b"))])));
    assert_eq!(
        name_embedded_failure(Err("boom".to_string())),
        Err("Failed to parse JSON decision: boom".to_string())
    );
    assert_eq!(name_embedded_failure(Ok(Json::Null)), Ok(Json::Null));
}

#[test]
fn parsed_objects_hand_their_members_out_in_key_order() {
    assert_eq!(
        parse_json_object(r#"{"b":1,"a":{"z":true,"y":"s"},"b":2}"#),
        Ok(object(vec![
            ("a", object(vec![("y", text("s")), ("z", Json::Bool(true))])),
            ("b", Json::Number(2u64.into())),
        ]))
    );
}

#[test]
fn envelope_holds_the_fields_of_the_object() {
    let data = object(vec![
        ("action", text("tool")),
        ("name", text("n")),
        ("arguments", object(vec![("k", Json::Null)])),
        ("answer", Json::Null),
        ("extra", Json::Bool(true)),
    ]);
    let env = read_envelope(&data).unwrap();
    assert_eq!(env.action, "tool");
    assert_eq!(env.name, Some("n".to_string()));
    assert_eq!(env.arguments, object(vec![("k", Json::Null)]));
    assert_eq!(env.answer, None);
    assert_eq!(env.uri, None);
    let env = read_envelope(&object(vec![("action", text("final"))])).unwrap();
    assert_eq!(env.arguments, Json::Null);
    assert!(read_envelope(&Json::Null).is_err());
}

#[test]
fn decide_goes_by_the_lowered_action_exactly() {
    let mut env = envelope("whatever");
    env.answer = Some("yes".to_string());
    assert_eq!(decide("final", env), Ok(Decision::FinalAnswer("yes".to_string())));
    let mut env = envelope("whatever");
    env.answer = Some("yes".to_string());
    assert_eq!(decide("Final", env), Err("unknown action: Final".to_string()));
    let mut env = envelope("x");
    env.arguments = object(vec![("query", text("q"))]);
    assert_eq!(decide("retrieve", env), Ok(Decision::Retrieve { query: "q".to_string() }));
    let mut env = envelope("x");
    env.name = Some("p".to_string());
    env.arguments = text("raw");
    assert_eq!(
        decide("prompt", env),
        Ok(Decision::PromptCall { name: "p".to_string(), args: text("raw") })
    );
    assert_eq!(
        decision_from_json(&object(vec![("action", text(" TOOL")), ("name", text("t"))])),
        Ok(Decision::ToolCall { name: "t".to_string(), args: object(vec![]) })
    );
}
