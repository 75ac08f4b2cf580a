use openai_api::decode::{from_body, Decode};
use openai_api::error::Error;
use openai_api::json::Json;
use openai_api::model::create_chat::{
    FinishReason as ChatFinishReason, FunctionCall, Model as ChatModel, Response as ChatResponse, Role,
};
use openai_api::model::create_completion::{FinishReason, Model as CompletionModel, Response as CompletionResponse};
use openai_api::model::create_edit::{Object as EditObject, Response as EditResponse};
use openai_api::model::create_embedding::{Model as EmbeddingModel, Response as EmbeddingResponse};
use openai_api::model::create_image::Response as ImageResponse;
use openai_api::model::list_files::Response as FilesResponse;
use openai_api::model::list_models::Response as ModelsResponse;
use openai_api::model::object::Object;

const COMPLETION: &str = r#"{"id":"cmpl-1","object":"text_completion","created":1680000000,
 "model":"text-davinci-003",
 "choices":[{"text":"Hello there","index":0,"logprobs":null,"finish_reason":"length"}],
 "usage":{"prompt_tokens":5,"completion_tokens":7,"total_tokens":12}}"#;

#[test]
fn completion_finish_reason_length() {
    let r: CompletionResponse = from_body(COMPLETION).unwrap();
    assert_eq!(r.id, "cmpl-1");
    assert_eq!(r.object, Object::TextCompletion);
    assert_eq!(r.created, 1680000000);
    assert_eq!(r.model, CompletionModel::TextDavinci003);
    assert_eq!(r.choices.len(), 1);
    assert_eq!(r.choices[0].text, "Hello there");
    assert_eq!(r.choices[0].logprobs, None);
    assert_eq!(r.choices[0].finish_reason, Some(FinishReason::Length));
    assert_eq!(r.usage.total_tokens, 12);
}

#[test]
fn completion_without_finish_reason() {
    let body = r#"{"id":"c","object":"text_completion","created":1,"model":"text-ada-001",
      "choices":[{"text":"x","index":0,"logprobs":3}],
      "usage":{"prompt_tokens":1,"completion_tokens":1,"total_tokens":2}}"#;
    let r: CompletionResponse = from_body(body).unwrap();
    assert_eq!(r.choices[0].finish_reason, None);
    assert_eq!(r.choices[0].logprobs, Some(3));
}

#[test]
fn completion_missing_usage_is_invalid() {
    let body = r#"{"id":"c","object":"text_completion","created":1,"model":"text-ada-001","choices":[]}"#;
    let r: Result<CompletionResponse, Error> = from_body(body);
    assert!(matches!(r, Err(Error::InvalidResponse(_))));
}

#[test]
fn unknown_finish_reason_is_invalid() {
    let body = COMPLETION.replace("\"length\"", "\"tired\"");
    let r: Result<CompletionResponse, Error> = from_body(&body);
    assert!(matches!(r, Err(Error::InvalidResponse(_))));
}

#[test]
fn body_that_is_not_json_is_invalid() {
    let r: Result<CompletionResponse, Error> = from_body("not json");
    assert!(matches!(r, Err(Error::InvalidResponse(_))));
}

#[test]
fn negative_count_is_invalid() {
    let body = COMPLETION.replace("1680000000", "-1");
    let r: Result<CompletionResponse, Error> = from_body(&body);
    assert!(matches!(r, Err(Error::InvalidResponse(_))));
}

fn chat_body(message: &str, finish: &str) -> String {
    format!(
        r#"{{"id":"chatcmpl-1","object":"chat.completion","created":1690000000,"model":"gpt-4-0613",
        "choices":[{{"index":0,"message":{},"finish_reason":"{}"}}],
        "usage":{{"prompt_tokens":9,"completion_tokens":12,"total_tokens":21}}}}"#,
        message, finish
    )
}

#[test]
fn chat_reply_decodes() {
    let body = chat_body(r#"{"role":"assistant","content":"Hi!"}"#, "stop");
    let r = from_body::<ChatResponse>(&body).unwrap();
    assert_eq!(r.model, ChatModel::Gpt4_0613);
    assert_eq!(r.object, Object::ChatCompletion);
    assert_eq!(r.choices[0].message.role, Role::Assistant);
    assert_eq!(r.choices[0].message.content.as_deref(), Some("Hi!"));
    assert!(r.choices[0].message.function_call.is_none());
    assert_eq!(r.choices[0].finish_reason, ChatFinishReason::Stop);
    assert_eq!(r.usage.completion_tokens, 12);
}

#[test]
fn function_call_empty_arguments_are_absent() {
    let body = chat_body(
        r#"{"role":"assistant","content":null,"function_call":{"name":"now","arguments":"{}"}}"#,
        "function_call",
    );
    let r = from_body::<ChatResponse>(&body).unwrap();
    assert_eq!(r.choices[0].finish_reason, ChatFinishReason::FunctionCall);
    assert!(r.choices[0].message.content.is_none());
    let call = r.choices[0].message.function_call.as_ref().unwrap();
    assert_eq!(call.name, "now");
    assert!(call.arguments.is_none());
}

#[test]
fn function_call_arguments_decode() {
    let body = chat_body(
        r#"{"role":"assistant","function_call":{"name":"f","arguments":"{\"x\":1}"}}"#,
        "function_call",
    );
    let r = from_body::<ChatResponse>(&body).unwrap();
    let call = r.choices[0].message.function_call.as_ref().unwrap();
    let args = call.arguments.as_ref().unwrap();
    assert_eq!(args.len(), 1);
    assert_eq!(args[0].0, "x");
    assert!(matches!(&args[0].1, Json::Number(t) if t == "1"));
}

#[test]
fn function_call_bad_arguments_are_invalid() {
    let body = chat_body(
        r#"{"role":"assistant","function_call":{"name":"f","arguments":"{oops"}}"#,
        "function_call",
    );
    assert!(matches!(from_body::<ChatResponse>(&body), Err(Error::InvalidResponse(_))));
    let body = chat_body(
        r#"{"role":"assistant","function_call":{"name":"f","arguments":"[1]"}}"#,
        "function_call",
    );
    assert!(matches!(from_body::<ChatResponse>(&body), Err(Error::InvalidResponse(_))));
}

#[test]
fn arguments_from_parsed_values() {
    assert!(FunctionCall::arguments_from(Json::Object(vec![])).unwrap().is_none());
    let one = FunctionCall::arguments_from(Json::Object(vec![(String::from("x"), Json::Number(String::from("1")))]))
        .unwrap()
        .unwrap();
    assert_eq!(one.len(), 1);
    assert!(matches!(FunctionCall::arguments_from(Json::Null), Err(Error::InvalidResponse(_))));
}

#[test]
fn function_role_decodes() {
    let body = chat_body(r#"{"role":"function","name":"now","content":"12:00"}"#, "stop");
    let r = from_body::<ChatResponse>(&body).unwrap();
    assert_eq!(r.choices[0].message.role, Role::Function);
    assert_eq!(r.choices[0].message.name.as_deref(), Some("now"));
}

#[test]
fn image_b64_entry() {
    let body = r#"{"created":1700000000,"data":[{"b64_json":"aGVsbG8="}]}"#;
    let r: ImageResponse = from_body(body).unwrap();
    assert_eq!(r.created, 1700000000);
    assert!(r.data[0].url.is_none());
    assert_eq!(r.data[0].b64_json.as_deref(), Some("aGVsbG8="));
    assert_eq!(r.data[0].decode_b64_json().unwrap(), b"hello".to_vec());
}

#[test]
fn image_url_entry() {
    let body = r#"{"created":1,"data":[{"url":"https://example.com/a.png"}]}"#;
    let r: ImageResponse = from_body(body).unwrap();
    assert_eq!(r.data[0].url.as_ref().unwrap().as_str(), "https://example.com/a.png");
    assert!(r.data[0].b64_json.is_none());
    assert!(r.data[0].decode_b64_json().is_none());
}

#[test]
fn image_bad_url_is_invalid() {
    let body = r#"{"created":1,"data":[{"url":"not a url"}]}"#;
    let r: Result<ImageResponse, Error> = from_body(body);
    assert!(matches!(r, Err(Error::InvalidResponse(_))));
}

#[test]
fn image_bad_base64_does_not_decode() {
    let body = r#"{"created":1,"data":[{"b64_json":"@@@"}]}"#;
    let r: ImageResponse = from_body(body).unwrap();
    assert!(r.data[0].decode_b64_json().is_none());
}

#[test]
fn embedding_model_decodes_from_suffixed_name() {
    let body = r#"{"object":"list","data":[{"object":"embedding","embedding":[0.5,-0.25],"index":0}],
      "model":"text-embedding-ada-002-v2","usage":{"prompt_tokens":2,"total_tokens":2}}"#;
    let r: EmbeddingResponse = from_body(body).unwrap();
    assert_eq!(r.model, EmbeddingModel::TextEmbeddingAda002);
    assert_eq!(r.model.as_str(), "text-embedding-ada-002");
    assert_eq!(r.data[0].object, Object::Embedding);
    assert_eq!(r.data[0].embedding, vec![String::from("0.5"), String::from("-0.25")]);
    assert_eq!(r.usage.prompt_tokens, 2);
}

#[test]
fn embedding_model_unsuffixed_name_is_not_a_response_model() {
    let body = r#"{"object":"list","data":[],"model":"text-embedding-ada-002","usage":{"prompt_tokens":2,"total_tokens":2}}"#;
    let r: Result<EmbeddingResponse, Error> = from_body(body);
    assert!(matches!(r, Err(Error::InvalidResponse(_))));
}

#[test]
fn edit_response_decodes() {
    let body = r#"{"object":"edit","created":1,"choices":[{"text":"fixed","index":0}],
      "usage":{"prompt_tokens":1,"completion_tokens":2,"total_tokens":3}}"#;
    let r: EditResponse = from_body(body).unwrap();
    assert_eq!(r.object, EditObject::Edit);
    assert_eq!(r.choices[0].text, "fixed");
}

#[test]
fn files_response_decodes() {
    let body = r#"{"object":"list","data":[{"id":"file-1","object":"file","bytes":140,"created_at":1613779121,
      "filename":"data.jsonl","purpose":"fine-tune"}]}"#;
    let r: FilesResponse = from_body(body).unwrap();
    assert_eq!(r.object, Object::List);
    assert_eq!(r.data[0].bytes, 140);
    assert_eq!(r.data[0].filename, "data.jsonl");
}

#[test]
fn models_response_tolerates_absent_optionals() {
    let body = r#"{"object":"list","data":[{"id":"gpt-4","object":"model","created":1,"owned_by":"openai",
      "permission":[{"id":"p","object":"model_permission","created":1,"allow_create_engine":false,
      "allow_sampling":true,"allow_logprobs":true,"allow_search_indices":false,"allow_view":true,
      "allow_fine_tuning":false,"organization":"*","group":null,"is_blocking":false}],
      "root":"gpt-4"}]}"#;
    let r: ModelsResponse = from_body(body).unwrap();
    assert_eq!(r.data[0].parent, None);
    assert_eq!(r.data[0].permission[0].group, None);
    assert!(r.data[0].permission[0].allow_sampling);
    assert_eq!(r.data[0].permission[0].object, Object::ModelPermission);
}

#[test]
fn json_parse_and_text() {
    let j = Json::parse(r#"{"a":[1,true,null,"s"],"b":{}}"#).unwrap();
    assert_eq!(j.to_text(), r#"{"a":[1,true,null,"s"],"b":{}}"#);
    assert!(matches!(j.get("a"), Some(Json::Array(_))));
    assert!(j.get("c").is_none());
    assert!(matches!(Json::parse("{"), Err(Error::InvalidResponse(_))));
}

#[test]
fn decode_through_trait() {
    let j = Json::parse(r#""stop""#).unwrap();
    assert_eq!(<ChatFinishReason as Decode>::from_json(&j).unwrap(), ChatFinishReason::Stop);
}

#[test]
fn function_call_without_arguments_decodes() {
    let j = Json::parse(r#"{"name":"now"}"#).unwrap();
    let call = <FunctionCall as Decode>::from_json(&j).unwrap();
    assert_eq!(call.name, "now");
    assert!(call.arguments.is_none());
    let j = Json::parse(r#"{"name":"now","arguments":null}"#).unwrap();
    assert!(<FunctionCall as Decode>::from_json(&j).unwrap().arguments.is_none());
}
