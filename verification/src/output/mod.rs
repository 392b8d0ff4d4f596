//! Output formats: text for people, prompt text for language models.
pub mod json;
pub mod prompt;
pub mod table;
pub mod types;
