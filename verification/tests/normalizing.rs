use rag::normalize::{
    clean_city_candidate, extract_city_from_args, infer_city_from_text, normalize_tool_args,
    take_after_case_insensitive,
};
use rag::{AgentState, Json, Member};

fn object(members: Vec<(&str, Json)>) -> Json {
    Json::Object(
        members
            .into_iter()
            .map(|(key, value)| Member { key: key.to_string(), value })
            .collect(),
    )
}

fn text(s: &str) -> Json {
    Json::Str(s.to_string())
}

fn state_with_question(question: &str) -> AgentState {
    let mut state = AgentState::new(3);
    state.append_system("rules".to_string());
    state.append_user(question.to_string());
    state
}

#[test]
fn other_tools_keep_their_arguments() {
    let state = state_with_question("weather in Pune");
    let args = object(vec![("q", text("x"))]);
    assert_eq!(normalize_tool_args("search", args.clone(), &state), args);
    assert_eq!(normalize_tool_args("fetch-weather2", Json::Null, &state), Json::Null);
}

#[test]
fn weather_tool_is_known_in_any_letter_case() {
    let state = AgentState::new(1);
    let expected = object(vec![("city", text("Delhi"))]);
    for name in ["fetch-weather", "FETCH-WEATHER", "Fetch-Weather"] {
        assert_eq!(normalize_tool_args(name, text(" Delhi "), &state), expected, "{}", name);
    }
}

#[test]
fn city_is_taken_from_the_arguments_first() {
    let state = state_with_question("weather in Pune");
    let expected = object(vec![("city", text("Delhi"))]);
    assert_eq!(normalize_tool_args("fetch-weather", text("Delhi"), &state), expected);
    assert_eq!(
        normalize_tool_args("fetch-weather", object(vec![("town", text(" Delhi"))]), &state),
        expected
    );
    assert_eq!(
        normalize_tool_args(
            "fetch-weather",
            object(vec![("query", text("Agra")), ("location", text("Delhi"))]),
            &state
        ),
        expected
    );
    assert_eq!(
        normalize_tool_args(
            "fetch-weather",
            object(vec![("units", text("metric")), ("targetCITYname", text("Delhi"))]),
            &state
        ),
        expected
    );
}

#[test]
fn city_is_taken_from_the_question_when_the_arguments_hold_none() {
    let state = state_with_question("What is the weather in Pune, India today?");
    let expected = object(vec![("city", text("Pune"))]);
    assert_eq!(normalize_tool_args("fetch-weather", Json::Null, &state), expected);
    assert_eq!(normalize_tool_args("fetch-weather", text("   "), &state), expected);
    assert_eq!(
        normalize_tool_args("fetch-weather", object(vec![("city", text(" "))]), &state),
        expected
    );
    assert_eq!(
        normalize_tool_args("fetch-weather", object(vec![("city", Json::Bool(true))]), &state),
        expected
    );
}

#[test]
fn arguments_stay_when_no_city_is_found() {
    let state = state_with_question("hello");
    let args = object(vec![("units", text("metric"))]);
    assert_eq!(normalize_tool_args("fetch-weather", args.clone(), &state), args);
    let empty = AgentState::new(1);
    assert_eq!(normalize_tool_args("fetch-weather", Json::Null, &empty), Json::Null);
}

#[test]
fn usual_keys_are_tried_in_order_before_keys_that_hold_city() {
    assert_eq!(extract_city_from_args(&text("  Oslo ")), Some("Oslo".to_string()));
    assert_eq!(extract_city_from_args(&text("  ")), None);
    assert_eq!(extract_city_from_args(&Json::Null), None);
    assert_eq!(extract_city_from_args(&Json::Array(vec![text("Oslo")])), None);
    assert_eq!(
        extract_city_from_args(&object(vec![
            ("query", text("q")),
            ("town", text("t")),
            ("place", text("p")),
            ("location", text("l")),
            ("city", text("c")),
        ])),
        Some("c".to_string())
    );
    assert_eq!(
        extract_city_from_args(&object(vec![
            ("query", text("q")),
            ("town", text("t")),
            ("place", text("p")),
        ])),
        Some("p".to_string())
    );
    assert_eq!(
        extract_city_from_args(&object(vec![
            ("a_city", text(" ")),
            ("b_City", Json::Null),
            ("c_CITY", text(" Rome ")),
            ("d_city", text("Bern")),
            ("query", text("")),
        ])),
        Some("Rome".to_string())
    );
    assert_eq!(extract_city_from_args(&object(vec![("country", text("x"))])), None);
}

#[test]
fn cues_in_the_question_are_tried_in_order() {
    assert_eq!(infer_city_from_text("city=Paris; units=c"), Some("Paris".to_string()));
    assert_eq!(infer_city_from_text("CITY: \"New York\", please"), Some("New York".to_string()));
    assert_eq!(infer_city_from_text("weather in Tokyo\ntomorrow"), Some("Tokyo".to_string()));
    assert_eq!(infer_city_from_text("forecast for 'Lima'"), Some("Lima".to_string()));
    assert_eq!(
        infer_city_from_text("forecast for Lima in city=Quito"),
        Some("Quito".to_string())
    );
    assert_eq!(infer_city_from_text("what IN Cairo"), Some("Cairo".to_string()));
    assert_eq!(infer_city_from_text("city=, then in Goa"), Some("Goa".to_string()));
    assert_eq!(infer_city_from_text("nothing here"), None);
    assert_eq!(infer_city_from_text("ends in "), None);
    assert_eq!(infer_city_from_text(""), None);
}

#[test]
fn text_after_a_cue_is_found_without_regard_to_ascii_case() {
    assert_eq!(take_after_case_insensitive("Weather IN Pune", " in "), Some("Pune".to_string()));
    assert_eq!(take_after_case_insensitive("él CITY=Á x", "city="), Some("Á x".to_string()));
    assert_eq!(take_after_case_insensitive("abc", "abc"), Some(String::new()));
    assert_eq!(take_after_case_insensitive("abc", ""), Some("abc".to_string()));
    assert_eq!(take_after_case_insensitive("abc", "abcd"), None);
    assert_eq!(take_after_case_insensitive("a in b in c", " in "), Some("b in c".to_string()));
}

#[test]
fn candidate_is_unquoted_cut_and_unquoted_again() {
    assert_eq!(clean_city_candidate("  \"Pune\" "), "Pune");
    assert_eq!(clean_city_candidate("Pune, India"), "Pune");
    assert_eq!(clean_city_candidate("Pune; now"), "Pune");
    assert_eq!(clean_city_candidate("Pune\nnext"), "Pune");
    assert_eq!(clean_city_candidate("a;b,c"), "a");
    assert_eq!(clean_city_candidate("a,b;c"), "a");
    assert_eq!(clean_city_candidate("'Pune' , x"), "Pune");
    assert_eq!(clean_city_candidate("\"'Pune'\""), "Pune");
    assert_eq!(clean_city_candidate("'\"Pune\"'"), "Pune");
    assert_eq!(clean_city_candidate("x\"'Pune'\"y"), "x\"'Pune'\"y");
    for sample in [
        "'\"'Pune'\"'",
        "  \"\"a\"\" ",
        "'a, b'",
        "\" a ; b \"",
        "a\n\"b\"",
        "\"',;\n",
        " ' x ' ",
        "''\"\"",
    ] {
        let mut out = sample.trim().trim_matches('"').trim_matches('\'').to_string();
        for delim in [',', ';', '\n'] {
            if let Some(i) = out.find(delim) {
                out.truncate(i);
            }
        }
        let expected = out.trim().trim_matches('"').trim_matches('\'').to_string();
        assert_eq!(clean_city_candidate(sample), expected, "{:?}", sample);
    }
    assert_eq!(clean_city_candidate(" , x"), "");
    assert_eq!(clean_city_candidate(""), "");
    assert_eq!(clean_city_candidate("\"New York\", NY"), "New York");
}
