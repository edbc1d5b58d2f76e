use mcpg_backend_llm_types::normalized::{
    AudioContent, AudioFormat, AudioSource, ContentPart, FileContent, FileSource, FinishReason,
    ImageContent, ImageDetail, ImageSource, Message, MessageContent, NormalizedChatResponse, Role,
    TokenUsage, ToolCall, ToolChoiceWire, ToolDef,
};

#[test]
fn message_text_constructors_produce_text_variant() {
    let m = Message::system("rules");
    assert!(matches!(m.content, MessageContent::Text(ref s) if s == "rules"));

    let m = Message::user("hello");
    assert!(matches!(m.content, MessageContent::Text(ref s) if s == "hello"));

    let m = Message::tool_result("t1", "{\"ok\":true}");
    assert!(matches!(m.content, MessageContent::Text(ref s) if s == "{\"ok\":true}"));
}

#[test]
fn user_parts_constructor_produces_parts_variant() {
    let m = Message::user_parts(vec![
        ContentPart::Text("look at this".into()),
        ContentPart::Image(ImageContent {
            source: ImageSource::Url("https://example.com/a.png".into()),
            detail: Some(ImageDetail::High),
        }),
    ]);
    assert!(matches!(m.content, MessageContent::Parts(_)));
    assert_eq!(m.content.as_text(), "look at this");
    assert!(!m.content.is_text_only());
}

#[test]
fn as_text_concatenates_text_parts_only() {
    let c = MessageContent::Parts(vec![
        ContentPart::Text("first".into()),
        ContentPart::Image(ImageContent {
            source: ImageSource::Base64 {
                mime_type: "image/png".into(),
                data: "abc".into(),
            },
            detail: None,
        }),
        ContentPart::Text("second".into()),
    ]);
    assert_eq!(c.as_text(), "first\nsecond");
}

#[test]
fn is_text_only_true_for_only_text_parts() {
    let c = MessageContent::Parts(vec![ContentPart::Text("x".into())]);
    assert!(c.is_text_only());
    let c = MessageContent::Parts(vec![
        ContentPart::Text("x".into()),
        ContentPart::Audio(AudioContent {
            source: AudioSource::Base64 { data: "abc".into() },
            format: AudioFormat::Mp3,
        }),
    ]);
    assert!(!c.is_text_only());
}

#[test]
fn audio_format_mime_types() {
    assert_eq!(AudioFormat::Mp3.mime_type(), "audio/mpeg");
    assert_eq!(AudioFormat::Wav.mime_type(), "audio/wav");
    assert_eq!(AudioFormat::Flac.mime_type(), "audio/flac");
    assert_eq!(AudioFormat::Ogg.mime_type(), "audio/ogg");
}

// ----- further cases -------------------------------------------------------

fn file_part() -> ContentPart {
    ContentPart::File(FileContent {
        source: FileSource::McpResource("mcpg-resource://doc-1".into()),
        mime_type: "application/pdf".into(),
        filename: Some("report.pdf".into()),
    })
}

#[test]
fn audio_format_remaining_mime_types() {
    assert_eq!(AudioFormat::Aac.mime_type(), "audio/aac");
    assert_eq!(AudioFormat::Pcm.mime_type(), "audio/pcm");
}

#[test]
fn mime_types_are_distinct_audio_types() {
    let all = [
        AudioFormat::Mp3,
        AudioFormat::Wav,
        AudioFormat::Flac,
        AudioFormat::Ogg,
        AudioFormat::Aac,
        AudioFormat::Pcm,
    ];
    for (i, a) in all.iter().enumerate() {
        assert!(a.mime_type().starts_with("audio/"));
        for (j, b) in all.iter().enumerate() {
            assert_eq!(a.mime_type() == b.mime_type(), i == j);
        }
    }
}

#[test]
fn as_text_of_text_is_the_string() {
    let c = MessageContent::Text("plain words".into());
    assert_eq!(c.as_text(), "plain words");
    assert!(c.is_text_only());
    assert!(!c.is_empty());
}

#[test]
fn as_text_of_no_parts_is_empty() {
    let c = MessageContent::Parts(vec![]);
    assert_eq!(c.as_text(), "");
    assert!(c.is_empty());
    assert!(c.is_text_only());
}

#[test]
fn as_text_skips_separator_while_nothing_gathered() {
    let c = MessageContent::Parts(vec![
        ContentPart::Text("".into()),
        ContentPart::Text("a".into()),
        ContentPart::Text("".into()),
        ContentPart::Text("b".into()),
    ]);
    assert_eq!(c.as_text(), "a\n\nb");
}

#[test]
fn as_text_of_media_only_is_empty() {
    let c = MessageContent::Parts(vec![
        file_part(),
        ContentPart::Audio(AudioContent {
            source: AudioSource::Url("https://example.com/a.mp3".into()),
            format: AudioFormat::Wav,
        }),
    ]);
    assert_eq!(c.as_text(), "");
    assert!(!c.is_empty());
    assert!(!c.is_text_only());
}

#[test]
fn media_between_texts_adds_no_separator() {
    let c = MessageContent::Parts(vec![
        ContentPart::Text("one".into()),
        file_part(),
        file_part(),
        ContentPart::Text("two".into()),
        ContentPart::Text("three".into()),
    ]);
    assert_eq!(c.as_text(), "one\ntwo\nthree");
}

#[test]
fn is_empty_cases() {
    assert!(MessageContent::Text(String::new()).is_empty());
    assert!(!MessageContent::Text("x".into()).is_empty());
    assert!(MessageContent::Parts(vec![]).is_empty());
    // a part, even an empty text part, is something
    assert!(!MessageContent::Parts(vec![ContentPart::Text(String::new())]).is_empty());
}

#[test]
fn empty_content_has_no_text() {
    for c in [MessageContent::Text(String::new()), MessageContent::Parts(vec![])] {
        assert!(c.is_empty());
        assert_eq!(c.as_text(), "");
    }
}

#[test]
fn text_only_content_keeps_every_part() {
    let c = MessageContent::Parts(vec![
        ContentPart::Text("x".into()),
        ContentPart::Text("y".into()),
        ContentPart::Text("z".into()),
    ]);
    assert!(c.is_text_only());
    assert_eq!(c.as_text(), "x\ny\nz");
}

#[test]
fn text_constructors_read_back() {
    let from_string = String::from("owned text");
    for m in [
        Message::system("s"),
        Message::user("s"),
        Message::tool_result("id-9", "s"),
        Message::assistant_text_and_tool_calls("s", vec![]),
    ] {
        assert!(m.content.is_text_only());
        assert_eq!(m.content.as_text(), "s");
        assert!(!m.content.is_empty());
    }
    let m = Message::user(from_string);
    assert_eq!(m.content.as_text(), "owned text");
    assert!(Message::system("").content.is_empty());
}

#[test]
fn constructor_roles_and_fields() {
    let m = Message::system("rules");
    assert_eq!(m.role, Role::System);
    assert!(m.tool_calls.is_empty());
    assert!(m.tool_call_id.is_none());

    let m = Message::user("hi");
    assert_eq!(m.role, Role::User);
    assert!(m.tool_calls.is_empty());
    assert!(m.tool_call_id.is_none());

    let m = Message::tool_result("call-7", "done");
    assert_eq!(m.role, Role::Tool);
    assert_eq!(m.tool_call_id.as_deref(), Some("call-7"));
    assert!(m.tool_calls.is_empty());
    assert_eq!(m.content.as_text(), "done");

    let m = Message::user_parts(vec![file_part()]);
    assert_eq!(m.role, Role::User);
    assert!(m.tool_call_id.is_none());
}

fn call(id: &str, name: &str) -> ToolCall {
    ToolCall {
        id: id.into(),
        name: name.into(),
        arguments: serde_json::from_str("{\"table\":\"users\",\"limit\":3}").unwrap(),
    }
}

#[test]
fn assistant_constructors_keep_tool_calls() {
    let m = Message::assistant_tool_calls(vec![call("a", "query"), call("b", "fetch")]);
    assert_eq!(m.role, Role::Assistant);
    assert!(m.content.is_empty());
    assert_eq!(m.content.as_text(), "");
    assert_eq!(m.tool_calls.len(), 2);
    assert_eq!(m.tool_calls[0].id, "a");
    assert_eq!(m.tool_calls[1].name, "fetch");
    assert!(m.tool_call_id.is_none());

    let m = Message::assistant_text_and_tool_calls("let me check", vec![call("c", "query")]);
    assert_eq!(m.role, Role::Assistant);
    assert_eq!(m.content.as_text(), "let me check");
    assert_eq!(m.tool_calls.len(), 1);
    assert_eq!(m.tool_calls[0].id, "c");
}

#[test]
fn tool_shapes_clone_their_json() {
    let c = call("x", "query");
    let d = c.clone();
    assert_eq!(d.arguments, c.arguments);
    assert_eq!(d.arguments["limit"], serde_json::Value::from(3));
    let def = ToolDef {
        name: "query".into(),
        description: "run a query".into(),
        parameters: serde_json::from_str("{\"type\":\"object\"}").unwrap(),
    };
    let def2 = def.clone();
    assert_eq!(def2.parameters, def.parameters);
    assert_eq!(def2.name, "query");
}

#[test]
fn token_usage_default_is_zero() {
    let u = TokenUsage::default();
    assert_eq!(u.input_tokens, 0);
    assert_eq!(u.output_tokens, 0);
    assert_eq!(u.cached_input_tokens, 0);
}

#[test]
fn response_shape_carries_fields() {
    let r = NormalizedChatResponse {
        content: String::new(),
        tool_calls: vec![call("a", "query")],
        finish_reason: FinishReason::ToolCalls,
        usage: TokenUsage { input_tokens: 10, output_tokens: 2, cached_input_tokens: 4 },
    };
    let r2 = r.clone();
    assert_eq!(r2.finish_reason, FinishReason::ToolCalls);
    assert_ne!(r2.finish_reason, FinishReason::Stop);
    assert_eq!(r2.usage.input_tokens, 10);
    assert_eq!(r2.tool_calls.len(), 1);
    assert_eq!(ToolChoiceWire::Auto, ToolChoiceWire::Auto);
    assert_ne!(ToolChoiceWire::Required, ToolChoiceWire::NoTools);
}
