use openai_api::error::Error;
use openai_api::model::create_chat::{Model as ChatModel, Role};
use openai_api::model::create_completion::Model as CompletionModel;
use openai_api::model::create_edit::Model as EditModel;
use openai_api::model::create_embedding::Model as EmbeddingModel;
use openai_api::model::create_image::{ResponseFormat, Size};
use openai_api::model::model::Model as AnyModel;
use std::str::FromStr;

#[test]
fn chat_models_round_trip() {
    for name in [
        "gpt-4",
        "gpt-4-0613",
        "gpt-4-32k",
        "gpt-4-32k-0613",
        "gpt-3.5-turbo",
        "gpt-3.5-turbo-16k",
        "gpt-3.5-turbo-0613",
        "gpt-3.5-turbo-16k-0613",
    ] {
        assert_eq!(ChatModel::parse(name).unwrap().as_str(), name);
    }
}

#[test]
fn completion_models_round_trip() {
    for name in [
        "text-davinci-003",
        "text-davinci-002",
        "text-curie-001",
        "text-babbage-001",
        "text-ada-001",
    ] {
        assert_eq!(CompletionModel::parse(name).unwrap().as_str(), name);
    }
}

#[test]
fn edit_models_round_trip() {
    assert_eq!(EditModel::parse("text-davinci-edit-001").unwrap().as_str(), "text-davinci-edit-001");
    assert_eq!(EditModel::parse("code-davinci-edit-001").unwrap().as_str(), "code-davinci-edit-001");
}

#[test]
fn edit_model_misspelling_is_refused() {
    assert_eq!(
        EditModel::parse("code-davinci-code-001").unwrap_err(),
        Error::UnsupportedModel(String::from("code-davinci-code-001"))
    );
}

#[test]
fn shared_models_round_trip() {
    for name in ["gpt-3.5-turbo", "gpt-4", "text-davinci-003"] {
        assert_eq!(AnyModel::parse(name).unwrap().as_str(), name);
    }
}

#[test]
fn embedding_model_serializes_without_suffix() {
    let m = EmbeddingModel::parse("text-embedding-ada-002").unwrap();
    assert_eq!(m.as_str(), "text-embedding-ada-002");
    assert!(EmbeddingModel::parse("text-embedding-ada-002-v2").is_err());
}

#[test]
fn from_str_matches_parse() {
    assert_eq!(ChatModel::from_str("gpt-4").unwrap(), ChatModel::Gpt4);
    assert_eq!("user".parse::<Role>().unwrap(), Role::User);
}

#[test]
fn roles_round_trip() {
    for name in ["system", "assistant", "user", "function"] {
        assert_eq!(Role::parse(name).unwrap().as_str(), name);
    }
}

#[test]
fn unknown_model_is_refused() {
    assert_eq!(ChatModel::parse("gpt-5").unwrap_err(), Error::UnsupportedModel(String::from("gpt-5")));
    assert_eq!(
        CompletionModel::parse("gpt-4").unwrap_err(),
        Error::UnsupportedModel(String::from("gpt-4"))
    );
    assert_eq!(
        EmbeddingModel::parse("gpt-4").unwrap_err(),
        Error::UnsupportedModel(String::from("gpt-4"))
    );
    assert_eq!(AnyModel::parse("").unwrap_err(), Error::UnsupportedModel(String::new()));
    assert_eq!(ChatModel::parse("GPT-4").unwrap_err(), Error::UnsupportedModel(String::from("GPT-4")));
}

#[test]
fn unknown_role_is_refused() {
    assert_eq!(Role::parse("robot").unwrap_err(), Error::UnsupportedRole(String::from("robot")));
}

#[test]
fn image_sizes_parse() {
    assert_eq!(Size::parse("256x256").unwrap(), Size::_256x256_);
    assert_eq!(Size::parse("512x512").unwrap().as_str(), "512x512");
    assert_eq!(Size::parse("1024x1024").unwrap().as_str(), "1024x1024");
    assert_eq!(Size::parse("100x100").unwrap_err(), Error::UnsupportedImageSize(String::from("100x100")));
}

#[test]
fn response_formats_parse() {
    assert_eq!(ResponseFormat::parse("url").unwrap().as_str(), "url");
    assert_eq!(ResponseFormat::parse("b64json").unwrap().as_str(), "b64_json");
    assert_eq!(
        ResponseFormat::parse("png").unwrap_err(),
        Error::UnsupportedResponseFormat(String::from("png"))
    );
}
