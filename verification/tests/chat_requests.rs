use openai::api::chat::{
    Chat, ChatCompletionMessage, ChatCompletionMessageRequestBuilder, CreateChatRequest,
    CreateChatRequestBuilder, LogitBias, Role, Single, Stop, parse_role,
};
use openai::api::extraction_prompt::{Field, PromptTemplate, StringHashMap};
use openai::client::{AzureOpenAI, ClientEnum, Method, OpenAI, Payload};
use openai::json::{FromJson, Json, ToJson};
use openai::response_wrapper::OpenAIError;

fn to_value(doc: &Json) -> serde_json::Value {
    match doc {
        Json::Null => serde_json::Value::Null,
        Json::Bool(b) => serde_json::Value::Bool(*b),
        Json::Unsigned(n) => serde_json::Value::from(*n),
        Json::Signed(n) => serde_json::Value::from(*n),
        Json::Single(bits) => serde_json::Value::from(f32::from_bits(*bits)),
        Json::Double(bits) => serde_json::Value::from(f64::from_bits(*bits)),
        Json::Text(s) => serde_json::Value::String(s.clone()),
        Json::Array(items) => serde_json::Value::Array(items.iter().map(to_value).collect()),
        Json::Object(members) => serde_json::Value::Object(
            members.iter().map(|(k, v)| (k.clone(), to_value(v))).collect(),
        ),
    }
}

fn names(doc: &Json) -> Vec<String> {
    match doc {
        Json::Object(members) => members.iter().map(|(k, _)| k.clone()).collect(),
        other => panic!("expected an object, got {:?}", other),
    }
}

fn user(content: &str) -> ChatCompletionMessage {
    ChatCompletionMessage { role: Role::User, content: content.to_string(), name: None }
}

fn minimal() -> CreateChatRequest {
    CreateChatRequestBuilder::default()
        .model("gpt-test".to_string())
        .messages(vec![user("hi")])
        .build()
        .unwrap()
}

#[test]
fn role_names() {
    assert_eq!(Role::System.to_string(), "system");
    assert_eq!(Role::User.to_string(), "user");
    assert_eq!(Role::Assistant.to_string(), "assistant");
    assert_eq!(Role::System.as_str(), "system");
    assert_eq!(Role::default(), Role::User);
}

#[test]
fn role_parsing_knows_exactly_three_names() {
    assert_eq!(parse_role("system"), Some(Role::System));
    assert_eq!(parse_role("user"), Some(Role::User));
    assert_eq!(parse_role("assistant"), Some(Role::Assistant));
    assert_eq!(parse_role("User"), None);
    assert_eq!(parse_role("tool"), None);
    assert_eq!(parse_role(""), None);
}

#[test]
fn message_builder_defaults() {
    let message = ChatCompletionMessageRequestBuilder::default().build().unwrap();
    assert_eq!(message.role, Role::User);
    assert_eq!(message.content, "");
    assert_eq!(message.name, None);
}

#[test]
fn message_builder_keeps_what_was_set() {
    let message = ChatCompletionMessageRequestBuilder::default()
        .role(Role::Assistant)
        .content("answer".to_string())
        .name("bot".to_string())
        .build()
        .unwrap();
    assert_eq!(message.role, Role::Assistant);
    assert_eq!(message.content, "answer");
    assert_eq!(message.name.as_deref(), Some("bot"));
    let mut builder = ChatCompletionMessageRequestBuilder::default();
    builder.role(Role::System);
    builder.role(Role::User).content("later".to_string());
    let message = builder.build().unwrap();
    assert_eq!(message.role, Role::User);
    assert_eq!(message.content, "later");
}

#[test]
fn message_document_omits_an_unset_name() {
    let doc = user("hi").to_json();
    assert_eq!(names(&doc), vec!["role", "content"]);
    assert_eq!(to_value(&doc).to_string(), r#"{"content":"hi","role":"user"}"#);
    let named = ChatCompletionMessage {
        role: Role::System,
        content: "c".to_string(),
        name: Some("n".to_string()),
    };
    let doc = named.to_json();
    assert_eq!(names(&doc), vec!["role", "content", "name"]);
    assert_eq!(doc.get("role").unwrap().as_str(), Some("system"));
    assert_eq!(doc.get("name").unwrap().as_str(), Some("n"));
}

#[test]
fn message_reads_back_from_its_document() {
    let named = ChatCompletionMessage {
        role: Role::Assistant,
        content: "c".to_string(),
        name: Some("n".to_string()),
    };
    let back = ChatCompletionMessage::from_json(&named.to_json()).unwrap();
    assert_eq!(back.role, Role::Assistant);
    assert_eq!(back.content, "c");
    assert_eq!(back.name.as_deref(), Some("n"));
    assert!(ChatCompletionMessage::from_json(&Json::Null).is_none());
}

#[test]
fn build_succeeds_with_model_and_messages() {
    let request = minimal();
    assert_eq!(request.model, "gpt-test");
    assert_eq!(request.messages.len(), 1);
    assert_eq!(request.messages[0].content, "hi");
    assert!(request.temperature.is_none());
    assert!(request.top_p.is_none());
    assert!(request.n.is_none());
    assert!(request.stream.is_none());
    assert!(request.stop.is_none());
    assert!(request.max_tokens.is_none());
    assert!(request.presence_penalty.is_none());
    assert!(request.frequency_penalty.is_none());
    assert!(request.logit_bias.is_none());
    assert!(request.user.is_none());
}

#[test]
fn unset_fields_have_no_key_in_the_serialized_request() {
    let doc = minimal().to_json();
    assert_eq!(names(&doc), vec!["model", "messages"]);
    let text = to_value(&doc).to_string();
    assert_eq!(text, r#"{"messages":[{"content":"hi","role":"user"}],"model":"gpt-test"}"#);
    assert!(!text.contains("null"));
    for key in [
        "temperature", "top_p", "n", "stream", "stop", "max_tokens", "presence_penalty",
        "frequency_penalty", "logit_bias", "user",
    ] {
        assert!(doc.get(key).is_none(), "{}", key);
        assert!(!text.contains(&format!("\"{}\":", key)), "{}", key);
    }
}

#[test]
fn set_fields_are_serialized_in_order_with_their_values() {
    let mut bias = LogitBias::new();
    bias.insert("50256", Json::Signed(-100));
    let request = CreateChatRequestBuilder::default()
        .model("gpt-test".to_string())
        .messages(vec![user("hi")])
        .temperature(Single::from_bits(0.5f32.to_bits()))
        .top_p(Single::from_bits(0.25f32.to_bits()))
        .n(2)
        .stream(false)
        .stop(Stop::Sequences(vec!["\n".to_string(), "END".to_string()]))
        .max_tokens(128)
        .presence_penalty(Single::from_bits((-1.5f32).to_bits()))
        .frequency_penalty(Single::from_bits(2.0f32.to_bits()))
        .logit_bias(bias)
        .user("u-1".to_string())
        .build()
        .unwrap();
    let doc = request.to_json();
    assert_eq!(
        names(&doc),
        vec![
            "model", "messages", "temperature", "top_p", "n", "stream", "stop", "max_tokens",
            "presence_penalty", "frequency_penalty", "logit_bias", "user",
        ]
    );
    let value = to_value(&doc);
    assert_eq!(value["model"], "gpt-test");
    assert_eq!(value["temperature"], 0.5);
    assert_eq!(value["top_p"], 0.25);
    assert_eq!(value["n"], 2);
    assert_eq!(value["stream"], false);
    assert_eq!(value["stop"][0], "\n");
    assert_eq!(value["stop"][1], "END");
    assert_eq!(value["max_tokens"], 128);
    assert_eq!(value["presence_penalty"], -1.5);
    assert_eq!(value["frequency_penalty"], 2.0);
    assert_eq!(value["logit_bias"]["50256"], -100);
    assert_eq!(value["user"], "u-1");
    assert!(matches!(doc.get("temperature"), Some(Json::Single(bits)) if *bits == 0.5f32.to_bits()));
}

#[test]
fn some_set_some_unset() {
    let request = CreateChatRequestBuilder::default()
        .model("m".to_string())
        .messages(vec![user("hi")])
        .max_tokens(5)
        .stop(Stop::Text("###".to_string()))
        .build()
        .unwrap();
    let doc = request.to_json();
    assert_eq!(names(&doc), vec!["model", "messages", "stop", "max_tokens"]);
    assert_eq!(doc.get("stop").unwrap().as_str(), Some("###"));
    assert_eq!(doc.get("max_tokens").unwrap().as_u64(), Some(5));
}

#[test]
fn build_refuses_a_missing_or_empty_model() {
    let unset = CreateChatRequestBuilder::default().messages(vec![user("hi")]).build();
    match unset {
        Err(OpenAIError::InvalidArgument(text)) => assert_eq!(text, "model must not be empty"),
        other => panic!("expected an invalid argument, got {:?}", other),
    }
    let empty = CreateChatRequestBuilder::default()
        .model(String::new())
        .messages(vec![user("hi")])
        .build();
    match empty {
        Err(OpenAIError::InvalidArgument(text)) => assert_eq!(text, "model must not be empty"),
        other => panic!("expected an invalid argument, got {:?}", other),
    }
}

#[test]
fn build_refuses_missing_or_empty_messages() {
    let unset = CreateChatRequestBuilder::default().model("m".to_string()).build();
    match unset {
        Err(OpenAIError::InvalidArgument(text)) => assert_eq!(text, "messages must not be empty"),
        other => panic!("expected an invalid argument, got {:?}", other),
    }
    let empty = CreateChatRequestBuilder::default().model("m".to_string()).messages(vec![]).build();
    match empty {
        Err(OpenAIError::InvalidArgument(text)) => assert_eq!(text, "messages must not be empty"),
        other => panic!("expected an invalid argument, got {:?}", other),
    }
}

#[test]
fn build_names_the_model_first_where_both_are_missing() {
    match CreateChatRequestBuilder::default().build() {
        Err(OpenAIError::InvalidArgument(text)) => assert_eq!(text, "model must not be empty"),
        other => panic!("expected an invalid argument, got {:?}", other),
    }
}

#[test]
fn a_builder_can_be_finished_twice() {
    let mut builder = CreateChatRequestBuilder::default();
    builder.model("m".to_string()).messages(vec![user("a"), user("b")]);
    let first = builder.build().unwrap();
    builder.n(3);
    let second = builder.build().unwrap();
    assert_eq!(first.messages.len(), 2);
    assert_eq!(first.n, None);
    assert_eq!(second.n, Some(3));
    assert_eq!(second.messages[1].content, "b");
}

#[test]
fn sampling_numbers_keep_their_bits() {
    let number = Single::from_bits(0.7f32.to_bits());
    assert_eq!(number.to_bits(), 0.7f32.to_bits());
    assert_eq!(f32::from_bits(number.to_bits()), 0.7f32);
}

#[test]
fn stop_documents() {
    assert_eq!(Stop::Text("x".to_string()).to_json().as_str(), Some("x"));
    let doc = Stop::Sequences(vec!["a".to_string(), "b".to_string()]).to_json();
    let items = doc.as_array().unwrap();
    assert_eq!(items.len(), 2);
    assert_eq!(items[1].as_str(), Some("b"));
    let copy = Stop::Sequences(vec!["a".to_string()]).duplicate();
    assert!(matches!(copy, Stop::Sequences(ref texts) if texts == &vec!["a".to_string()]));
}

#[test]
fn logit_bias_holds_each_token_once() {
    let mut bias = LogitBias::new();
    assert_eq!(bias.len(), 0);
    bias.insert("1", Json::Signed(-1));
    bias.insert("2", Json::Unsigned(2));
    bias.insert("1", Json::Unsigned(10));
    assert_eq!(bias.len(), 2);
    let doc = bias.to_json();
    assert_eq!(names(&doc), vec!["1", "2"]);
    assert_eq!(doc.get("1").unwrap().as_u64(), Some(10));
    assert_eq!(doc.get("2").unwrap().as_u64(), Some(2));
    assert_eq!(bias.duplicate().len(), 2);
}

#[test]
fn create_posts_the_request_to_the_completions_route() {
    let chat = Chat::new(ClientEnum::OpenAI(OpenAI::new("sk".to_string(), None)));
    let request = chat.create(&minimal());
    assert_eq!(request.method, Method::Post);
    assert_eq!(request.url, "https://api.openai.com/v1/chat/completions");
    assert_eq!(request.bearer_token, "sk");
    match request.payload {
        Payload::Json(doc) => assert_eq!(
            to_value(&doc).to_string(),
            r#"{"messages":[{"content":"hi","role":"user"}],"model":"gpt-test"}"#
        ),
        other => panic!("expected a body, got {:?}", other),
    }
}

#[test]
fn create_through_the_gateway_uses_the_deployment_route() {
    let client = AzureOpenAI::new(
        "k".to_string(),
        "acme".to_string(),
        "gpt-x".to_string(),
        "2023-05-15".to_string(),
    );
    let chat = Chat::new(ClientEnum::AzureOpenAI(client));
    let request = chat.create(&minimal());
    assert_eq!(
        request.url,
        "https://acme.openai.azure.com/openai/deployments/gpt-x/chat/completions?api-version=2023-05-15"
    );
}

fn template() -> PromptTemplate {
    PromptTemplate::new(
        vec![Field {
            name: "city".to_string(),
            field_type: "string".to_string(),
            description: "where".to_string(),
        }],
        None,
        Some("Berlin".to_string()),
    )
}

#[test]
fn create_with_template_sends_the_prompt_as_one_user_message() {
    let chat = Chat::new(ClientEnum::OpenAI(OpenAI::new("sk".to_string(), None)));
    let mut objects = StringHashMap::new();
    objects.insert("city".to_string(), "Berlin".to_string());
    let request = chat.create_with_template(template(), objects, "gpt-test").unwrap();
    assert_eq!(request.method, Method::Post);
    assert_eq!(request.url, "https://api.openai.com/v1/chat/completions");
    match request.payload {
        Payload::Json(doc) => {
            assert_eq!(names(&doc), vec!["model", "messages"]);
            assert_eq!(doc.get("model").unwrap().as_str(), Some("gpt-test"));
            let messages = doc.get("messages").unwrap().as_array().unwrap();
            assert_eq!(messages.len(), 1);
            assert_eq!(names(&messages[0]), vec!["role", "content"]);
            assert_eq!(messages[0].get("role").unwrap().as_str(), Some("user"));
            assert_eq!(
                messages[0].get("content").unwrap().as_str(),
                Some("User Input: Berlin\nJSON INSTRUCT with Fields:\ncity (string): Berlin\n")
            );
        }
        other => panic!("expected a body, got {:?}", other),
    }
}

#[test]
fn create_with_template_without_a_model_is_an_invalid_argument() {
    let chat = Chat::new(ClientEnum::OpenAI(OpenAI::new("sk".to_string(), None)));
    match chat.create_with_template(template(), StringHashMap::new(), "") {
        Err(OpenAIError::InvalidArgument(text)) => {
            assert_eq!(text, "Failed to build CreateChatRequest")
        }
        other => panic!("expected an invalid argument, got {:?}", other),
    }
}

#[test]
fn a_stream_error_carries_its_text() {
    let error = OpenAIError::StreamError("cut".to_string());
    assert!(matches!(error, OpenAIError::StreamError(ref text) if text == "cut"));
}
