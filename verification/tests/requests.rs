use completion_client::client::CompletionClient;
use completion_client::config::Config;
use completion_client::error::CallError;
use completion_client::exchange::ENDPOINT;
use completion_client::message::{
    CompletionRequest, Message, MAX_TEMPERATURE_TENTHS, MODEL, TEMPERATURE_TENTHS,
};

fn message(role: &str, content: &str) -> Message {
    Message { role: role.to_string(), content: content.to_string() }
}

fn client(api_key: &str, api_org: &str) -> CompletionClient {
    CompletionClient::new(Config { api_key: api_key.to_string(), api_org: api_org.to_string() })
}

fn to_json(request: &CompletionRequest) -> serde_json::Value {
    let mut messages = Vec::new();
    for message in &request.messages {
        let mut entry = serde_json::Map::new();
        entry.insert("role".to_string(), serde_json::Value::from(message.role.clone()));
        entry.insert("content".to_string(), serde_json::Value::from(message.content.clone()));
        messages.push(serde_json::Value::Object(entry));
    }
    let mut body = serde_json::Map::new();
    body.insert("model".to_string(), serde_json::Value::from(request.model.clone()));
    body.insert("messages".to_string(), serde_json::Value::Array(messages));
    body.insert(
        "temperature".to_string(),
        serde_json::Value::from(f64::from(request.temperature_tenths) / 10.0),
    );
    serde_json::Value::Object(body)
}

fn from_json(body: &serde_json::Value) -> CompletionRequest {
    let messages = body["messages"]
        .as_array()
        .unwrap()
        .iter()
        .map(|entry| message(entry["role"].as_str().unwrap(), entry["content"].as_str().unwrap()))
        .collect();
    let tenths = (body["temperature"].as_f64().unwrap() * 10.0).round();
    CompletionRequest {
        model: body["model"].as_str().unwrap().to_string(),
        messages,
        temperature_tenths: tenths as u8,
    }
}

#[test]
fn a_request_names_the_model_and_the_temperature() {
    let request = CompletionRequest::new(vec![message("user", "hi")]);
    assert_eq!(request.model, "gpt-4");
    assert_eq!(request.temperature_tenths, 1);
    assert_eq!(request.messages, vec![message("user", "hi")]);
    assert_eq!(MODEL, "gpt-4");
    assert_eq!(TEMPERATURE_TENTHS, 1);
    assert!(request.temperature_tenths <= MAX_TEMPERATURE_TENTHS);
}

#[test]
fn a_request_round_trips_through_json() {
    let request = CompletionRequest::new(vec![message("user", "hi")]);
    let text = serde_json::to_string(&to_json(&request)).unwrap();
    let parsed: serde_json::Value = serde_json::from_str(&text).unwrap();
    let fields = parsed.as_object().unwrap();
    let mut names: Vec<&str> = fields.keys().map(|name| name.as_str()).collect();
    names.sort();
    assert_eq!(names, vec!["messages", "model", "temperature"]);
    assert_eq!(fields["model"], serde_json::Value::from("gpt-4"));
    assert_eq!(fields["temperature"], serde_json::Value::from(0.1));
    assert_eq!(fields["messages"].as_array().unwrap().len(), 1);
    assert_eq!(fields["messages"][0]["role"], serde_json::Value::from("user"));
    assert_eq!(fields["messages"][0]["content"], serde_json::Value::from("hi"));
    assert_eq!(from_json(&parsed), request);
}

#[test]
fn messages_keep_their_order() {
    let turns = vec![
        message("system", "be brief"),
        message("user", "one"),
        message("assistant", "two"),
        message("user", "three"),
    ];
    let request = CompletionRequest::new(turns.clone());
    assert_eq!(request.messages, turns);
}

#[test]
fn an_empty_conversation_is_passed_on() {
    let request = CompletionRequest::new(vec![]);
    assert!(request.messages.is_empty());
    match client("sk-test", "org-test").prepare(vec![]) {
        Ok(outbound) => assert!(outbound.payload.messages.is_empty()),
        Err(error) => panic!("unexpected error: {:?}", error),
    }
}

#[test]
fn a_prepared_request_goes_to_the_endpoint() {
    let outbound = match client("sk-test", "org-test").prepare(vec![message("user", "hi")]) {
        Ok(outbound) => outbound,
        Err(error) => panic!("unexpected error: {:?}", error),
    };
    assert_eq!(outbound.url, "https://api.openai.com/v1/chat/completions");
    assert_eq!(outbound.url, ENDPOINT);
    assert_eq!(outbound.payload, CompletionRequest::new(vec![message("user", "hi")]));
    assert_eq!(outbound.headers.len(), 2);
    assert_eq!(outbound.headers.get("authorization").unwrap().as_bytes(), b"Bearer sk-test");
    assert_eq!(outbound.headers.get("openai-organization").unwrap().as_bytes(), b"org-test");
}

#[test]
fn nothing_is_prepared_under_a_bad_key() {
    let outcome = client("sk\r\ntest", "org-test").prepare(vec![message("user", "hi")]);
    assert_eq!(outcome.err(), Some(CallError::InvalidCredentialEncoding));
}

#[test]
fn nothing_is_prepared_under_a_bad_organization() {
    let outcome = client("sk-test", "org\u{7f}").prepare(vec![message("user", "hi")]);
    assert_eq!(outcome.err(), Some(CallError::InvalidCredentialEncoding));
}
