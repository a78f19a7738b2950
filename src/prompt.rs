//! One question: how it is shown and how an answer to it is settled.
use vstd::prelude::*;
use vstd::string::*;
use crate::error::{PromptError, rejects_with};
use crate::prompt_config::PromptConfig;
use crate::text::{body_of, chomp, join, joined, line_end_of, line_end_len, trim, trimmed};
use crate::validators::{
    Custom, NoCheck, NotBlank, Validator, YesNo, choices_message, is_choice, one_of,
};

verus! {

/// The hint shown after the question: the choices if there are any, else the
/// default if there is one.
pub open spec fn hint(choices: Option<Seq<Seq<char>>>, default: Option<Seq<char>>) -> Seq<char> {
    match choices {
        Some(c) => " ["@ + joined(c, ", "@) + "]"@,
        None => match default {
            Some(d) => " ["@ + d + "]"@,
            None => Seq::empty(),
        },
    }
}

/// The text written before an answer is read: the question trimmed, its
/// hint, its own line terminator and one space.
pub open spec fn decorated(
    question: Seq<char>,
    choices: Option<Seq<Seq<char>>>,
    default: Option<Seq<char>>,
) -> Seq<char> {
    trimmed(body_of(question)) + hint(choices, default) + line_end_of(question) + " "@
}

/// `s` ends with `t`.
pub open spec fn ends_with(s: Seq<char>, t: Seq<char>) -> bool {
    t.len() <= s.len() && s.subrange(s.len() - t.len(), s.len() as int) == t
}

proof fn lemma_ends_with(a: Seq<char>, t: Seq<char>)
    ensures
        ends_with(a + t, t),
{
    assert((a + t).subrange(a.len() as int, (a + t).len() as int) =~= t);
}

/// A question with no line terminator, no choices and no default is shown
/// trimmed, followed by one space.
pub proof fn lemma_plain_format(q: Seq<char>)
    requires
        line_end_len(q) == 0,
    ensures
        decorated(q, None, None) == trimmed(q) + " "@,
{
    assert(body_of(q) =~= q);
    assert(line_end_of(q) =~= Seq::<char>::empty());
    assert(trimmed(q) + Seq::<char>::empty() + Seq::<char>::empty() + " "@ =~= trimmed(q) + " "@);
}

/// Without choices, a question with no line terminator is shown with its
/// default in brackets at the end.
pub proof fn lemma_default_format(q: Seq<char>, d: Seq<char>)
    requires
        line_end_len(q) == 0,
    ensures
        decorated(q, None, Some(d)) == trimmed(q) + " ["@ + d + "] "@,
        ends_with(decorated(q, None, Some(d)), " ["@ + d + "] "@),
{
    reveal_strlit("]");
    reveal_strlit(" ");
    reveal_strlit("] ");
    assert(body_of(q) =~= q);
    assert(line_end_of(q) =~= Seq::<char>::empty());
    assert(decorated(q, None, Some(d)) =~= trimmed(q) + (" ["@ + d + "] "@));
    assert(trimmed(q) + " ["@ + d + "] "@ =~= trimmed(q) + (" ["@ + d + "] "@));
    lemma_ends_with(trimmed(q), " ["@ + d + "] "@);
}

/// A question with no line terminator and with choices is shown with the
/// choices in brackets at the end, whatever its default.
pub proof fn lemma_choices_format(q: Seq<char>, c: Seq<Seq<char>>, d: Option<Seq<char>>)
    requires
        line_end_len(q) == 0,
    ensures
        decorated(q, Some(c), d) == trimmed(q) + " ["@ + joined(c, ", "@) + "] "@,
        ends_with(decorated(q, Some(c), d), " ["@ + joined(c, ", "@) + "] "@),
{
    reveal_strlit("]");
    reveal_strlit(" ");
    reveal_strlit("] ");
    let t = " ["@ + joined(c, ", "@) + "] "@;
    assert(body_of(q) =~= q);
    assert(line_end_of(q) =~= Seq::<char>::empty());
    assert(decorated(q, Some(c), d) =~= trimmed(q) + t);
    assert(trimmed(q) + " ["@ + joined(c, ", "@) + "] "@ =~= trimmed(q) + t);
    lemma_ends_with(trimmed(q), t);
}

/// What one answer leads to.
#[derive(Debug)]
pub enum Step {
    /// The answer is accepted; this is the result of the question.
    Accept(String),
    /// The answer was rejected: show the error and ask again.
    Retry(PromptError),
    /// The answer was rejected and the question gives up with this error.
    Fail(PromptError),
}

/// `step` is where a validation result `out` leads under the retry policy.
pub open spec fn settles(step: Step, out: Result<String, PromptError>, retry: bool) -> bool {
    match out {
        Ok(v) => step == Step::Accept(v),
        Err(e) => if retry {
            step == Step::Retry(e)
        } else {
            step == Step::Fail(e)
        },
    }
}

/// A question with its configuration and its retry policy.
pub struct Prompt<V> {
    /// The question as written, line terminator included.
    pub question: String,
    /// Validator, choices and default.
    pub config: PromptConfig<V>,
    /// Whether a rejected answer asks again (else the rejection is returned).
    pub retry: bool,
}

impl Prompt<NoCheck> {
    /// A question with no default, no choices, no validator, asking again on
    /// rejection.
    pub fn new(question: &str) -> (r: Self)
        ensures
            r.question@ == question@,
            r.config.validator is None,
            r.config.choices is None,
            r.config.default is None,
            r.retry,
    {
        Prompt { question: String::from_str(question), config: PromptConfig::default(), retry: true }
    }
}

impl Prompt<NotBlank> {
    /// A question that rejects blank answers.
    pub fn not_blank(question: &str) -> (r: Self)
        ensures
            r.question@ == question@,
            r.config.validator == Some(NotBlank),
            r.config.choices is None,
            r.config.default is None,
            r.retry,
    {
        Prompt { question: String::from_str(question), config: PromptConfig::not_blank(), retry: true }
    }
}

impl Prompt<YesNo> {
    /// A question that accepts `y` or `n` in either case.
    pub fn yn(question: &str) -> (r: Self)
        ensures
            r.question@ == question@,
            r.config.validator == Some(YesNo),
            r.config.choices is None,
            r.config.default is None,
            r.retry,
    {
        Prompt { question: String::from_str(question), config: PromptConfig::yn(), retry: true }
    }
}

impl<V> Prompt<V> {
    /// Sets the default answer.
    pub fn default(self, default: &str) -> (r: Self)
        ensures
            r.config.default_view() == Some(default@),
            r.question == self.question,
            r.config.validator == self.config.validator,
            r.config.choices == self.config.choices,
            r.retry == self.retry,
    {
        let mut p = self;
        p.config.default = Some(String::from_str(default));
        p
    }

    /// Sets the choices, kept in the order given.
    pub fn choices(self, choices: Vec<&str>) -> (r: Self)
        ensures
            r.config.choices_view() == Some(choices@.map_values(|c: &str| c@)),
            r.question == self.question,
            r.config.validator == self.config.validator,
            r.config.default == self.config.default,
            r.retry == self.retry,
    {
        let mut mapped: Vec<String> = Vec::new();
        let n = choices.len();
        let mut i: usize = 0;
        while i < n
            invariant
                n == choices@.len(),
                0 <= i <= n,
                mapped@.len() == i,
                forall|j: int| 0 <= j < i ==> #[trigger] mapped@[j]@ == choices@[j]@,
            decreases n - i,
        {
            mapped.push(String::from_str(choices[i]));
            i = i + 1;
        }
        assert(crate::text::views(mapped@) =~= choices@.map_values(|c: &str| c@));
        let mut p = self;
        p.config.choices = Some(mapped);
        p
    }

    /// Sets the validator, which takes precedence over the choices.
    pub fn validate<F: Fn(String) -> Result<String, PromptError>>(self, func: F) -> (r: Prompt<
        Custom<F>,
    >)
        ensures
            r.config.validator == Some(Custom(func)),
            r.question == self.question,
            r.config.choices == self.config.choices,
            r.config.default == self.config.default,
            r.retry == self.retry,
    {
        Prompt {
            question: self.question,
            config: PromptConfig {
                validator: Some(Custom(func)),
                choices: self.config.choices,
                default: self.config.default,
            },
            retry: self.retry,
        }
    }

    /// Sets whether a rejected answer asks again.
    pub fn retry(self, enabled: bool) -> (r: Self)
        ensures
            r.retry == enabled,
            r.question == self.question,
            r.config.validator == self.config.validator,
            r.config.choices == self.config.choices,
            r.config.default == self.config.default,
    {
        let mut p = self;
        p.retry = enabled;
        p
    }

    /// The text written before an answer is read.
    pub open spec fn shown(&self) -> Seq<char> {
        decorated(self.question@, self.config.choices_view(), self.config.default_view())
    }

    /// The question as it is written before an answer is read.
    pub fn format(&self) -> (r: String)
        ensures
            r@ == self.shown(),
    {
        let mut body = self.question.clone();
        let line_end = chomp(&mut body);
        let mut r = String::from_str(trim(body.as_str()));
        match &self.config.choices {
            Some(c) => {
                r.append(" [");
                let list = join(c, ", ");
                r.append(list.as_str());
                r.append("]");
            },
            None => match &self.config.default {
                Some(d) => {
                    r.append(" [");
                    r.append(d.as_str());
                    r.append("]");
                },
                None => {},
            },
        }
        r.append(line_end.as_str());
        r.append(" ");
        r
    }

    /// Where a validation result leads under this prompt's retry policy.
    pub fn settle(&self, out: Result<String, PromptError>) -> (step: Step)
        ensures
            settles(step, out, self.retry),
    {
        match out {
            Ok(v) => Step::Accept(v),
            Err(e) => if self.retry {
                Step::Retry(e)
            } else {
                Step::Fail(e)
            },
        }
    }
}

/// Formatting depends on the prompt alone: two results of `format` on the
/// same prompt are the same text.
pub proof fn lemma_format_stable<V>(p: Prompt<V>, a: Seq<char>, b: Seq<char>)
    requires
        a == p.shown(),
        b == p.shown(),
    ensures
        a == b,
{
}

impl<V: Validator> Prompt<V> {
    /// The validator, if any, may be called on every answer.
    pub open spec fn ready(&self) -> bool {
        self.config.validator matches Some(v) ==> forall|s: String| #[trigger] v.admits(s)
    }

    /// Settles one answer line (its terminator already removed). A validator
    /// decides if there is one; else the choices decide if there are any;
    /// else the answer is accepted, the default standing in for an empty one.
    pub fn answer(&self, line: String) -> (step: Step)
        requires
            self.ready(),
        ensures
            !self.retry ==> !(step is Retry),
            self.config.validator matches Some(v) ==> exists|out: Result<String, PromptError>|
                #[trigger] v.gives(line, out) && settles(step, out, self.retry),
            self.config.validator is None ==> (self.config.choices_view() matches Some(c) ==> {
                if is_choice(c, line@) {
                    step == Step::Accept(line)
                } else if self.retry {
                    step matches Step::Retry(e) && rejects_with(Err(e), choices_message(c))
                } else {
                    step matches Step::Fail(e) && rejects_with(Err(e), choices_message(c))
                }
            }),
            self.config.validator is None && self.config.choices is None ==> {
                if line@.len() == 0 && self.config.default is Some {
                    step == Step::Accept(self.config.default->Some_0)
                } else {
                    step == Step::Accept(line)
                }
            },
    {
        match &self.config.validator {
            Some(v) => {
                let out = v.check(line);
                self.settle(out)
            },
            None => match &self.config.choices {
                Some(c) => {
                    let out = one_of(c, line);
                    self.settle(out)
                },
                None => {
                    if line.as_str().unicode_len() == 0 {
                        match &self.config.default {
                            Some(d) => Step::Accept(d.clone()),
                            None => Step::Accept(line),
                        }
                    } else {
                        Step::Accept(line)
                    }
                },
            },
        }
    }
}

} // verus!
