use completion_client::args::RequestDescriptor;
use completion_client::client::Client;
use completion_client::errors::ClientError;

fn descriptor(prompt: &str, model: &str, temperature: &str, max_tokens: usize) -> RequestDescriptor {
    RequestDescriptor {
        prompt: prompt.to_string(),
        model: model.to_string(),
        temperature: temperature.to_string(),
        max_tokens,
    }
}

#[test]
fn missing_credential_fails() {
    let r = Client::new(None);
    assert!(matches!(r, Err(ClientError::MissingCredential)));
}

#[test]
fn present_credential_builds_bearer_header() {
    let client = Client::new(Some("test-key".to_string())).unwrap();
    let req = client.build_request(&descriptor("hi", "gpt-x", "0.5", 16));
    assert_eq!(req.authorization, "Bearer test-key");
    assert_eq!(req.url, "https://api.openai.com/v1/completions");
    assert_eq!(req.content_type, "application/json");
}

#[test]
fn body_round_trip_exact() {
    let client = Client::new(Some("k".to_string())).unwrap();
    let req = client.build_request(&descriptor("hi", "gpt-x", "0.5", 16));
    assert_eq!(
        req.body,
        "{\"prompt\":\"hi\",\"model\":\"gpt-x\",\"temperature\":0.5,\"max_tokens\":16}"
    );
    // Key presence and value equality, order irrelevant.
    let got: serde_json::Value = serde_json::from_str(&req.body).unwrap();
    let want: serde_json::Value = serde_json::from_str(
        "{\"max_tokens\":16,\"temperature\":0.5,\"model\":\"gpt-x\",\"prompt\":\"hi\"}",
    )
    .unwrap();
    assert_eq!(got, want);
}

#[test]
fn body_escapes_prompt_text() {
    let client = Client::new(Some("k".to_string())).unwrap();
    let prompt = "say \"hi\"\\now\nplease\ttab\u{1}";
    let req = client.build_request(&descriptor(prompt, "m", "0", 1));
    // The body is well-formed JSON and the prompt survives unchanged.
    let v: serde_json::Value = serde_json::from_str(&req.body).unwrap();
    assert_eq!(v["prompt"].as_str().unwrap(), prompt);
    // Control characters take the \u00XY form.
    assert!(req.body.contains("\\u000a"));
    assert!(req.body.contains("\\u0009"));
    assert!(req.body.contains("\\u0001"));
    assert!(req.body.contains("\\\"hi\\\""));
}

#[test]
fn body_keeps_unicode_text() {
    let client = Client::new(Some("k".to_string())).unwrap();
    let prompt = "gr\u{fc}ezi \u{1f600}";
    let req = client.build_request(&descriptor(prompt, "m", "0", 1));
    let v: serde_json::Value = serde_json::from_str(&req.body).unwrap();
    assert_eq!(v["prompt"].as_str().unwrap(), prompt);
}

#[test]
fn body_renders_numbers_bare() {
    let client = Client::new(Some("k".to_string())).unwrap();
    let req = client.build_request(&descriptor("p", "m", "1e-3", 0));
    let v: serde_json::Value = serde_json::from_str(&req.body).unwrap();
    assert_eq!(v["temperature"].as_f64().unwrap(), 0.001);
    assert_eq!(v["max_tokens"].as_u64().unwrap(), 0);
    assert!(req.body.contains("\"temperature\":1e-3,"));
}

#[test]
fn body_renders_large_max_tokens() {
    let client = Client::new(Some("k".to_string())).unwrap();
    let req = client.build_request(&descriptor("p", "m", "0", 18446744073709551615));
    let v: serde_json::Value = serde_json::from_str(&req.body).unwrap();
    assert_eq!(v["max_tokens"].as_u64().unwrap(), 18446744073709551615);
}
