use weatherbot::chatbot::{
    OpenAIResponse, Choice, Message, extract_completion, fact_prompt, joke_prompt, json_escape,
    completion_request_body,
};

fn response_with(contents: Vec<&str>) -> OpenAIResponse {
    OpenAIResponse {
        id: "cmpl-0".to_string(),
        object: "chat.completion".to_string(),
        created: 1_700_000_000,
        model: "gpt-3.5-turbo".to_string(),
        choices: contents
            .into_iter()
            .enumerate()
            .map(|(i, c)| Choice {
                index: i as u64,
                message: Message { role: "assistant".to_string(), content: c.to_string() },
                finish_reason: "stop".to_string(),
            })
            .collect(),
    }
}

#[test]
fn first_candidate_text_is_extracted() {
    let resp = response_with(vec!["first answer", "second answer"]);
    assert_eq!(extract_completion(&resp), "first answer");
}

#[test]
fn zero_candidates_yield_the_sentinel() {
    let resp = response_with(vec![]);
    assert_eq!(extract_completion(&resp), "No response");
}

#[test]
fn the_fixed_prompts() {
    assert_eq!(
        joke_prompt(),
        "tell me a joke about the weather or jokes about meteorologists"
    );
    assert_eq!(
        fact_prompt("Charlotte"),
        "what is a different crazy historical weather fact for the city of Charlotte in only 2 sentences"
    );
}

#[test]
fn json_escaping_of_plain_text_is_identity() {
    assert_eq!(json_escape("hello world"), "hello world");
    assert_eq!(json_escape(""), "");
    assert_eq!(json_escape("Zürich ☀"), "Zürich ☀");
}

#[test]
fn json_escaping_of_special_characters() {
    assert_eq!(json_escape("say \"hi\""), "say \\\"hi\\\"");
    assert_eq!(json_escape("a\\b"), "a\\\\b");
    assert_eq!(json_escape("line1\nline2"), "line1\\nline2");
    assert_eq!(json_escape("a\tb\rc"), "a\\tb\\rc");
    assert_eq!(json_escape("\u{8}\u{c}"), "\\b\\f");
    assert_eq!(json_escape("\u{1}\u{1f}"), "\\u0001\\u001f");
}

#[test]
fn completion_request_body_is_exact_json() {
    assert_eq!(
        completion_request_body("tell me a joke", 50),
        "{\"max_tokens\":50,\"messages\":[{\"content\":\"tell me a joke\",\"role\":\"user\"}],\"model\":\"gpt-3.5-turbo\"}"
    );
}

#[test]
fn completion_request_body_escapes_the_prompt() {
    assert_eq!(
        completion_request_body("a \"quoted\" prompt", 100),
        "{\"max_tokens\":100,\"messages\":[{\"content\":\"a \\\"quoted\\\" prompt\",\"role\":\"user\"}],\"model\":\"gpt-3.5-turbo\"}"
    );
}

#[test]
fn completion_request_body_parses_back() {
    let body = completion_request_body("line1\nline2 \"x\"", 77);
    let v: serde_json::Value = serde_json::from_str(&body).expect("valid json");
    assert_eq!(v["max_tokens"], 77);
    assert_eq!(v["model"], "gpt-3.5-turbo");
    assert_eq!(v["messages"][0]["role"], "user");
    assert_eq!(v["messages"][0]["content"], "line1\nline2 \"x\"");
}
