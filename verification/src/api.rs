pub mod chat;
pub mod extraction_prompt;
