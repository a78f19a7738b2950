//! Line-oriented question and answer prompts: what to print, how to read the
//! answer, and how defaults, choices and validators decide what is accepted.
pub mod error;
pub mod prompt;
pub mod prompt_config;
pub mod prompt_list;
pub mod text;
pub mod validators;

pub use crate::error::PromptError;
pub use crate::prompt::Prompt;
pub use crate::prompt_config::PromptConfig;
pub use crate::prompt_list::PromptList;
