//! Request and response shapes, one module per operation.
pub mod model;
pub mod object;
pub mod create_completion;
pub mod function;
pub mod create_edit;
pub mod create_embedding;
pub mod create_image;
pub mod list_files;
pub mod list_models;
pub mod create_chat;
