//! What a prompt is configured with: its validator, choices and default.
use vstd::prelude::*;
use vstd::string::*;
use crate::text::views;
use crate::validators::{NotBlank, YesNo};

verus! {

/// The configuration of one question.
pub struct PromptConfig<V> {
    /// Decides on the answer; takes precedence over `choices` when set.
    pub validator: Option<V>,
    /// The closed set of accepted answers, in the order they are shown.
    pub choices: Option<Vec<String>>,
    /// Used when the answer is empty and nothing validates it.
    pub default: Option<String>,
}

impl<V> PromptConfig<V> {
    /// The choices as text, in order.
    pub open spec fn choices_view(&self) -> Option<Seq<Seq<char>>> {
        match self.choices {
            Some(c) => Some(views(c@)),
            None => None,
        }
    }

    /// The default as text.
    pub open spec fn default_view(&self) -> Option<Seq<char>> {
        match self.default {
            Some(d) => Some(d@),
            None => None,
        }
    }
}

impl<V> Default for PromptConfig<V> {
    /// No validator, no choices, no default.
    fn default() -> (r: Self)
        ensures
            r.validator is None,
            r.choices is None,
            r.default is None,
    {
        PromptConfig { validator: None, choices: None, default: None }
    }
}

impl PromptConfig<NotBlank> {
    /// Rejects blank answers; no choices, no default.
    pub fn not_blank() -> (r: Self)
        ensures
            r.validator == Some(NotBlank),
            r.choices is None,
            r.default is None,
    {
        PromptConfig { validator: Some(NotBlank), choices: None, default: None }
    }
}

impl PromptConfig<YesNo> {
    /// Accepts `y` or `n` in either case; no choices, no default.
    pub fn yn() -> (r: Self)
        ensures
            r.validator == Some(YesNo),
            r.choices is None,
            r.default is None,
    {
        PromptConfig { validator: Some(YesNo), choices: None, default: None }
    }
}

} // verus!
