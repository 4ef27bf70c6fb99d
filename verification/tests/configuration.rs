use nanocodex::config::{
    ModelConfig, OpenAiAuth, OpenAiAuthMode, ReasoningMode, ResponsesHistory, ResponsesTransport,
    Thinking,
};
use nanocodex::prompt::{ImageDetail, Prompt, PromptInput, UserInput};
use nanocodex::{CONTEXT_WINDOW_TOKENS, MODEL};

#[test]
fn reasoning_configuration_parses_every_public_value() {
    assert_eq!("standard".parse(), Ok(ReasoningMode::Standard));
    assert_eq!("pro".parse(), Ok(ReasoningMode::Pro));

    for (value, expected) in [
        ("none", Thinking::Disabled),
        ("low", Thinking::Low),
        ("medium", Thinking::Medium),
        ("high", Thinking::High),
        ("xhigh", Thinking::Xhigh),
        ("max", Thinking::Max),
    ] {
        assert_eq!(value.parse(), Ok(expected));
        assert_eq!(expected.as_str(), value);
    }
}

#[test]
fn other_reasoning_values_are_refused() {
    assert!("Standard".parse::<ReasoningMode>().is_err());
    assert!("".parse::<Thinking>().is_err());
    let refused = Thinking::parse("ultra").unwrap_err();
    assert!(refused.contains("ultra"));
    assert_eq!(ReasoningMode::Standard.request_value(), None);
    assert_eq!(ReasoningMode::Pro.request_value(), Some("pro"));
    assert_eq!(ReasoningMode::default(), ReasoningMode::Standard);
}

#[test]
fn the_model_is_fixed() {
    assert_eq!(MODEL, "gpt-5.6-sol");
    assert_eq!(CONTEXT_WINDOW_TOKENS, 272_000);
}

#[test]
fn authentication_decides_what_is_stored() {
    assert!(OpenAiAuthMode::ApiKey.supports_stored_responses());
    assert!(!OpenAiAuthMode::ChatGpt.supports_stored_responses());
    let mut auth = OpenAiAuth::api_key();
    assert!(auth.validate().is_ok());
    auth.problem = Some("no token".to_owned());
    assert_eq!(auth.validate().unwrap_err().message, "no token");
}

#[test]
fn endpoints_follow_the_configuration() {
    let mut config = ModelConfig::new(OpenAiAuth::api_key(), "prompt".to_owned());
    config.api_base_url = "https://host/v1//".to_owned();
    config.websocket_url = "wss://host/v1/responses".to_owned();
    assert_eq!(config.search_endpoint(), "https://host/v1/alpha/search");
    config.responses_transport = ResponsesTransport::WebSocket;
    assert_eq!(config.responses_endpoint(), "wss://host/v1/responses");
    config.responses_transport = ResponsesTransport::Https;
    assert_eq!(config.responses_endpoint(), "https://host/v1//");
    assert_eq!(config.system_prompt(), "prompt");
    assert_eq!(ResponsesTransport::default(), ResponsesTransport::WebSocket);
    assert_eq!(ResponsesHistory::default(), ResponsesHistory::Incremental);
}

fn text(text: &str) -> UserInput {
    UserInput::Text { text: text.to_owned() }
}

#[test]
fn characters_never_outnumber_bytes() {
    for (written, chars, bytes) in [("", 0, 0), ("ascii", 5, 5), ("é", 1, 2), ("€a", 2, 4), ("😀", 1, 4)]
    {
        let prompt = Prompt::content(vec![text(written), text("")]);
        assert_eq!(prompt.instruction.text_chars(), chars);
        assert_eq!(prompt.instruction.text_bytes(), bytes);
        assert!(chars <= bytes && bytes <= 4 * chars);
        assert_eq!(chars == bytes, written.is_ascii());
    }
}

#[test]
fn prompts_measure_their_text() {
    let prompt = Prompt::new("aé");
    assert_eq!(prompt.instruction.text_bytes(), 3);
    assert_eq!(prompt.instruction.text_chars(), 2);
    assert!(!prompt.instruction.is_empty());
    assert!(Prompt::new(" \n").instruction.is_empty());

    let image = UserInput::Image {
        image_url: "data:image/png;base64,AAAA".to_owned(),
        detail: Some(ImageDetail::High),
    };
    let mixed = Prompt::content(vec![text("ab"), image, text("é")]);
    assert_eq!(mixed.instruction.text_bytes(), 4);
    assert_eq!(mixed.instruction.text_chars(), 3);
    assert!(!mixed.instruction.is_empty());
    assert!(Prompt::content(vec![text(" "), text("")]).instruction.is_empty());
    assert!(Prompt::content(Vec::new()).instruction.is_empty());
    assert!(matches!(Prompt::from("x".to_owned()).instruction, PromptInput::Text(t) if t == "x"));
}
