use openai_api::endpoint::{check_status, Operation};
use openai_api::error::Error;
use openai_api::json::Json;
use openai_api::model::create_chat::{
    abandon_turn, add_user_turn, take_reply, Choice, FinishReason, FunctionCall, Message, Model as ChatModel,
    Request as ChatRequest, Role, TurnAction,
};
use openai_api::model::create_completion::{Model as CompletionModel, Request as CompletionRequest};
use openai_api::model::create_edit::{Model as EditModel, Request as EditRequest};
use openai_api::model::create_embedding::{Model as EmbeddingModel, Request as EmbeddingRequest};
use openai_api::model::create_image::{Request as ImageRequest, ResponseFormat};
use openai_api::model::function::{Function, JsonObject, JsonString, Parameter};
use openai_api::number::{isize_text, parse_usize, usize_text};
use openai_api::temperature::Temperature;

fn keys(text: &str) -> Vec<String> {
    let v: serde_json::Value = serde_json::from_str(text).unwrap();
    v.as_object().unwrap().keys().cloned().collect()
}

fn message(role: Role, content: &str) -> Message {
    Message { role, content: Some(String::from(content)), name: None, function_call: None }
}

#[test]
fn chat_request_payload() {
    let model = ChatModel::parse("gpt-4").unwrap();
    let messages = vec![message(Role::System, "You are helpful"), message(Role::User, "Hello")];
    let text = ChatRequest::new(&model, messages).to_json();
    let v: serde_json::Value = serde_json::from_str(&text).unwrap();
    assert_eq!(v["model"], "gpt-4");
    let ms = v["messages"].as_array().unwrap();
    assert_eq!(ms.len(), 2);
    assert!(ms.iter().all(|m| m.is_object()));
    assert_eq!(ms[0]["role"], "system");
    assert_eq!(ms[1]["role"], "user");
    assert_eq!(ms[1]["content"], "Hello");
    assert_eq!(keys(&ms[1].to_string()), vec!["content", "role"]);
    assert!(v.get("temperature").is_none());
    assert_eq!(keys(&text), vec!["messages", "model"]);
}

#[test]
fn completion_request_omits_unset_parameters() {
    let r = CompletionRequest::new(CompletionModel::TextDavinci003, String::from("Say hi"));
    let text = r.to_json();
    assert_eq!(text, "{\"model\":\"text-davinci-003\",\"prompt\":\"Say hi\"}");
    assert!(!text.contains("null"));
}

#[test]
fn completion_request_writes_set_parameters() {
    let r = CompletionRequest::new(CompletionModel::TextAda001, String::from("a \"quoted\" prompt"))
        .suffix(String::from("end"))
        .max_tokens(100)
        .temperature(Temperature::from_thousandths(1500));
    let text = r.to_json();
    assert_eq!(
        text,
        "{\"model\":\"text-ada-001\",\"prompt\":\"a \\\"quoted\\\" prompt\",\"suffix\":\"end\",\"max_tokens\":100,\"temperature\":1.500}"
    );
    let v: serde_json::Value = serde_json::from_str(&text).unwrap();
    assert_eq!(v["temperature"].as_f64().unwrap(), 1.5);
}

#[test]
fn completion_request_writes_every_kind_of_value() {
    let mut r = CompletionRequest::new(CompletionModel::TextCurie001, String::from("p"));
    r.stream = Some(false);
    r.echo = Some(true);
    r.presence_penalty = Some(-2);
    r.frequency_penalty = Some(1);
    r.user = Some(String::from("u"));
    let text = r.to_json();
    assert_eq!(
        text,
        "{\"model\":\"text-curie-001\",\"prompt\":\"p\",\"stream\":false,\"echo\":true,\"presence_penalty\":-2,\"frequency_penalty\":1,\"user\":\"u\"}"
    );
}

#[test]
fn temperature_keeps_in_range_value() {
    let r = CompletionRequest::new(CompletionModel::TextDavinci003, String::new())
        .temperature(Temperature::from_thousandths(1500));
    assert_eq!(r.temperature, Some(Temperature { thousandths: 1500 }));
}

#[test]
fn temperature_keeps_negative_value() {
    // The bound check admits every value, so -1.0 is kept although it lies
    // outside the documented range of 0.0 to 2.0.
    let t = Temperature::from_thousandths(-1000);
    assert!(!(t.thousandths >= 0 && t.thousandths <= 2000));
    let r = CompletionRequest::new(CompletionModel::TextDavinci003, String::new()).temperature(t);
    assert_eq!(r.temperature, Some(t));
    assert!(r.to_json().contains("\"temperature\":-1.000"));
    let model = ChatModel::Gpt4;
    let c = ChatRequest::new(&model, vec![]).temperature(Some(t));
    assert_eq!(c.temperature, Some(t));
}

#[test]
fn chat_temperature_none_keeps_previous() {
    let model = ChatModel::Gpt4;
    let c = ChatRequest::new(&model, vec![])
        .temperature(Some(Temperature::from_thousandths(700)))
        .temperature(None);
    assert_eq!(c.temperature, Some(Temperature::from_thousandths(700)));
    assert!(c.to_json().contains("\"temperature\":0.700"));
}

#[test]
fn temperature_text() {
    assert_eq!(Temperature::from_thousandths(0).to_text(), "0.000");
    assert_eq!(Temperature::from_thousandths(2000).to_text(), "2.000");
    assert_eq!(Temperature::from_thousandths(-1).to_text(), "-0.001");
    assert_eq!(Temperature::from_thousandths(12345).to_text(), "12.345");
}

#[test]
fn chat_request_with_functions() {
    let model = ChatModel::Gpt3dot5Turbo_0613;
    let f = Function::new(String::from("lookup"), String::from("Looks a word up"))
        .add_property(
            String::from("word"),
            Parameter::String(JsonString::new(Some(String::from("The word")), None)),
            true,
        )
        .add_property(
            String::from("mode"),
            Parameter::String(JsonString::new(
                None,
                Some(vec![String::from("short"), String::from("long")]),
            )),
            false,
        );
    let text = ChatRequest::new(&model, vec![message(Role::User, "Hi")])
        .functions(vec![f])
        .max_tokens(Some(10))
        .to_json();
    let v: serde_json::Value = serde_json::from_str(&text).unwrap();
    assert_eq!(v["model"], "gpt-3.5-turbo-0613");
    assert_eq!(v["max_tokens"], 10);
    let f = &v["functions"][0];
    assert_eq!(f["name"], "lookup");
    assert_eq!(f["parameters"]["type"], "object");
    assert_eq!(f["parameters"]["properties"]["word"]["type"], "string");
    assert_eq!(f["parameters"]["properties"]["word"]["description"], "The word");
    assert!(f["parameters"]["properties"]["word"].get("enum").is_none());
    assert_eq!(f["parameters"]["properties"]["mode"]["enum"][1], "long");
    assert_eq!(f["parameters"]["required"].as_array().unwrap().len(), 1);
    assert_eq!(f["parameters"]["required"][0], "word");
}

#[test]
fn add_property_replaces_same_name() {
    let f = Function::new(String::from("f"), String::from("d"))
        .add_property(String::from("a"), Parameter::String(JsonString::new(None, None)), false)
        .add_property(
            String::from("a"),
            Parameter::Object(JsonObject::new(vec![], vec![])),
            true,
        );
    assert_eq!(f.parameters.properties.len(), 1);
    assert!(matches!(f.parameters.properties[0].1, Parameter::Object(_)));
    assert_eq!(f.parameters.required, vec![String::from("a")]);
}

#[test]
fn nested_object_schema() {
    let inner = JsonObject::new(
        vec![(
            String::from("leaf"),
            Parameter::String(JsonString::new(None, Some(vec![String::from("x")]))),
        )],
        vec![],
    );
    let p = Parameter::Object(JsonObject::new(vec![(String::from("inner"), Parameter::Object(inner))], vec![]));
    assert_eq!(
        p.to_json(),
        "{\"type\":\"object\",\"properties\":{\"inner\":{\"type\":\"object\",\"properties\":{\"leaf\":{\"type\":\"string\",\"enum\":[\"x\"]}},\"required\":[]}},\"required\":[]}"
    );
}

#[test]
fn empty_function_declaration() {
    let f = Function::new(String::from("f"), String::from("d"));
    assert_eq!(
        f.to_json(),
        "{\"name\":\"f\",\"description\":\"d\",\"parameters\":{\"type\":\"object\",\"properties\":{},\"required\":[]}}"
    );
}

#[test]
fn message_with_function_call_payload() {
    let call = FunctionCall {
        name: String::from("lookup"),
        arguments: Some(vec![(String::from("x"), Json::Number(String::from("1")))]),
    };
    let m = Message { role: Role::Assistant, content: None, name: None, function_call: Some(call) };
    let text = m.to_json();
    assert_eq!(text, "{\"role\":\"assistant\",\"function_call\":{\"name\":\"lookup\",\"arguments\":\"{\\\"x\\\":1}\"}}");
    let none = FunctionCall { name: String::from("f"), arguments: None };
    assert_eq!(none.to_json(), "{\"name\":\"f\",\"arguments\":\"{}\"}");
}

#[test]
fn edit_request_payload() {
    let r = EditRequest::new(EditModel::CodeDavinciEdit001, String::from("fn main() {}"), String::from("Add a comment"));
    assert_eq!(
        r.to_json(),
        "{\"model\":\"code-davinci-edit-001\",\"input\":\"fn main() {}\",\"instruction\":\"Add a comment\"}"
    );
}

#[test]
fn embedding_request_payload() {
    let input = String::from("hello");
    let no_user: Option<String> = None;
    let r = EmbeddingRequest::new(EmbeddingModel::TextEmbeddingAda002, &input, &no_user);
    assert_eq!(r.to_json(), "{\"model\":\"text-embedding-ada-002\",\"input\":\"hello\"}");
    let user = Some(String::from("me"));
    let r = EmbeddingRequest::new(EmbeddingModel::TextEmbeddingAda002, &input, &user);
    assert_eq!(keys(&r.to_json()), vec!["input", "model", "user"]);
}

#[test]
fn image_request_payload() {
    let r = ImageRequest::new(String::from("a cat")).response_format(ResponseFormat::B64Json);
    assert_eq!(r.to_json(), "{\"prompt\":\"a cat\",\"response_format\":\"b64_json\"}");
    assert_eq!(ImageRequest::new(String::from("a cat")).to_json(), "{\"prompt\":\"a cat\"}");
}

#[test]
fn decimal_text() {
    assert_eq!(usize_text(0), "0");
    assert_eq!(usize_text(1234567890), "1234567890");
    assert_eq!(usize_text(usize::MAX), usize::MAX.to_string());
    assert_eq!(isize_text(-42), "-42");
    assert_eq!(isize_text(isize::MIN), isize::MIN.to_string());
}

#[test]
fn decimal_parse() {
    assert_eq!(parse_usize("0"), Some(0));
    assert_eq!(parse_usize("1024"), Some(1024));
    assert_eq!(parse_usize(&usize::MAX.to_string()), Some(usize::MAX));
    assert_eq!(parse_usize("18446744073709551616"), None);
    assert_eq!(parse_usize(""), None);
    assert_eq!(parse_usize("1.5"), None);
    assert_eq!(parse_usize("-1"), None);
}

#[test]
fn operation_paths() {
    assert_eq!(Operation::ListModels.path(), "/v1/models");
    assert_eq!(Operation::CreateCompletion.path(), "/v1/completions");
    assert_eq!(Operation::CreateChat.path(), "/v1/chat/completions");
    assert_eq!(Operation::CreateImage.path(), "/v1/images/generations");
    assert_eq!(Operation::CreateEdit.path(), "/v1/edits");
    assert_eq!(Operation::ListFiles.path(), "/v1/files");
    assert_eq!(Operation::CreateEmbedding.path(), "/v1/embeddings");
    assert!(!Operation::ListFiles.sends_payload());
    assert!(Operation::CreateChat.sends_payload());
}

#[test]
fn status_classification() {
    assert_eq!(check_status(200, String::from("ok")), Ok(String::from("ok")));
    assert_eq!(check_status(299, String::new()), Ok(String::new()));
    assert_eq!(
        check_status(404, String::from("missing")),
        Err(Error::InvalidHttpResponse(String::from("HTTP status 404: missing")))
    );
    assert!(check_status(199, String::new()).is_err());
}


#[test]
fn conversation_turns() {
    let mut history = vec![message(Role::System, "Be brief")];
    add_user_turn(&mut history, String::from("Hello"));
    assert_eq!(history.len(), 2);
    assert_eq!(history[1].role, Role::User);
    assert_eq!(history[1].content.as_deref(), Some("Hello"));
    let reply = Choice { index: 0, message: message(Role::Assistant, "Hi"), finish_reason: FinishReason::Stop };
    assert!(matches!(take_reply(&mut history, reply), TurnAction::Replied));
    assert_eq!(history.len(), 3);
    assert_eq!(history[2].content.as_deref(), Some("Hi"));
    add_user_turn(&mut history, String::from("Call it"));
    let call = Message {
        role: Role::Assistant,
        content: None,
        name: None,
        function_call: Some(FunctionCall { name: String::from("f"), arguments: None }),
    };
    let reply = Choice { index: 0, message: call, finish_reason: FinishReason::FunctionCall };
    assert!(matches!(take_reply(&mut history, reply), TurnAction::CallRequested(_)));
    assert_eq!(history.len(), 4);
    abandon_turn(&mut history);
    assert_eq!(history.len(), 3);
    abandon_turn(&mut history);
    assert_eq!(history.len(), 3);
}
