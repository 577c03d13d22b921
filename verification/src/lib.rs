//! A small prompt-engineering library for banking use cases.
//!
//! Prompts are ordered sequences of labeled sections, assembled through a
//! fluent builder, pre-populated from domain templates, and rendered to a
//! canonical text form consumed by a generation backend.

pub mod backend;
pub mod builder;
pub mod prompt;
pub mod template;

pub use backend::GenerationError;
pub use backend::MockLLMClient;
pub use builder::PromptBuilder;
pub use prompt::Prompt;
pub use prompt::PromptSection;
pub use template::BankingTemplate;
