//! Validators: functions from a raw answer to the accepted answer or a
//! rejection with a message.
use vstd::prelude::*;
use vstd::string::*;
use crate::error::{PromptError, rejects_with};
use crate::text::{is_blank, joined, lemma_trimmed_empty_iff_blank, trim, views};

verus! {

/// What `not_blank` gives for `input`: a rejection for blank text, the input
/// itself otherwise.
pub open spec fn not_blank_outcome(input: String, out: Result<String, PromptError>) -> bool {
    if is_blank(input@) {
        rejects_with(out, "Cannot be blank"@)
    } else {
        out == Ok::<String, PromptError>(input)
    }
}

/// Rejects an answer made of whitespace alone (the empty one too); passes any
/// other answer through unchanged.
pub fn not_blank(input: String) -> (out: Result<String, PromptError>)
    ensures
        not_blank_outcome(input, out),
{
    let blank = trim(input.as_str()).unicode_len() == 0;
    proof {
        lemma_trimmed_empty_iff_blank(input@);
    }
    if blank {
        Err(PromptError::ValidateError(String::from_str("Cannot be blank")))
    } else {
        Ok(input)
    }
}

/// `s` is one of `y`, `Y`, `n`, `N`.
pub open spec fn is_yes_no(s: Seq<char>) -> bool {
    s.len() == 1 && (s[0] == 'y' || s[0] == 'Y' || s[0] == 'n' || s[0] == 'N')
}

/// The answers that `yes_no` accepts are exactly `y`, `Y`, `n` and `N`.
pub proof fn lemma_yes_no_words(s: Seq<char>)
    ensures
        is_yes_no(s) <==> (s == "y"@ || s == "Y"@ || s == "n"@ || s == "N"@),
{
    reveal_strlit("y");
    reveal_strlit("Y");
    reveal_strlit("n");
    reveal_strlit("N");
    if s.len() == 1 {
        if s[0] == 'y' {
            assert(s =~= "y"@);
        } else if s[0] == 'Y' {
            assert(s =~= "Y"@);
        } else if s[0] == 'n' {
            assert(s =~= "n"@);
        } else if s[0] == 'N' {
            assert(s =~= "N"@);
        }
    }
}

/// What `yes_no` gives for `input`.
pub open spec fn yes_no_outcome(input: String, out: Result<String, PromptError>) -> bool {
    if is_yes_no(input@) {
        out == Ok::<String, PromptError>(input)
    } else {
        rejects_with(out, "Valid options are: y, n"@)
    }
}

/// Accepts `y` or `n` in either case, unchanged; rejects anything else.
pub fn yes_no(input: String) -> (out: Result<String, PromptError>)
    ensures
        yes_no_outcome(input, out),
{
    let ok = input.as_str().unicode_len() == 1 && {
        let c = input.as_str().get_char(0);
        c == 'y' || c == 'Y' || c == 'n' || c == 'N'
    };
    if ok {
        Ok(input)
    } else {
        Err(PromptError::ValidateError(String::from_str("Valid options are: y, n")))
    }
}

/// `s` equals one of `choices`.
pub open spec fn is_choice(choices: Seq<Seq<char>>, s: Seq<char>) -> bool {
    exists|i: int| 0 <= i < choices.len() && choices[i] == s
}

/// The message of a rejected choice: the choices in order, comma separated.
pub open spec fn choices_message(choices: Seq<Seq<char>>) -> Seq<char> {
    "Valid options are: "@ + joined(choices, ", "@)
}

/// What `one_of` gives for `input`.
pub open spec fn one_of_outcome(
    choices: Seq<Seq<char>>,
    input: String,
    out: Result<String, PromptError>,
) -> bool {
    if is_choice(choices, input@) {
        out == Ok::<String, PromptError>(input)
    } else {
        rejects_with(out, choices_message(choices))
    }
}

/// Accepts exactly the answers equal to one of `choices`, unchanged; the
/// rejection lists the choices.
pub fn one_of(choices: &Vec<String>, input: String) -> (out: Result<String, PromptError>)
    ensures
        one_of_outcome(views(choices@), input, out),
{
    let n = choices.len();
    let mut i: usize = 0;
    while i < n
        invariant
            n == choices@.len(),
            0 <= i <= n,
            forall|j: int| 0 <= j < i ==> choices@[j]@ != input@,
        decreases n - i,
    {
        if choices[i] == input {
            assert(views(choices@)[i as int] == input@);
            return Ok(input);
        }
        i = i + 1;
    }
    assert forall|j: int| 0 <= j < views(choices@).len() implies views(choices@)[j] != input@ by {
        assert(views(choices@)[j] == choices@[j]@);
    }
    let mut msg = String::from_str("Valid options are: ");
    let list = crate::text::join(choices, ", ");
    msg.append(list.as_str());
    Err(PromptError::ValidateError(msg))
}

/// A rule that decides whether an answer is accepted, and what is kept of it.
pub trait Validator {
    /// `check` may be called on `input`.
    spec fn admits(&self, input: String) -> bool;

    /// `out` is a result that `check` may give for `input`.
    spec fn gives(&self, input: String, out: Result<String, PromptError>) -> bool;

    fn check(&self, input: String) -> (out: Result<String, PromptError>)
        requires
            self.admits(input),
        ensures
            self.gives(input, out),
    ;
}

/// No rule: every answer is accepted as it is.
pub struct NoCheck;

/// The rule of `not_blank`.
pub struct NotBlank;

/// The rule of `yes_no`.
pub struct YesNo;

/// A rule given by the caller as a function.
pub struct Custom<F>(pub F);

impl Validator for NoCheck {
    open spec fn admits(&self, input: String) -> bool {
        true
    }

    open spec fn gives(&self, input: String, out: Result<String, PromptError>) -> bool {
        out == Ok::<String, PromptError>(input)
    }

    fn check(&self, input: String) -> (out: Result<String, PromptError>) {
        Ok(input)
    }
}

impl Validator for NotBlank {
    open spec fn admits(&self, input: String) -> bool {
        true
    }

    open spec fn gives(&self, input: String, out: Result<String, PromptError>) -> bool {
        not_blank_outcome(input, out)
    }

    fn check(&self, input: String) -> (out: Result<String, PromptError>) {
        not_blank(input)
    }
}

impl Validator for YesNo {
    open spec fn admits(&self, input: String) -> bool {
        true
    }

    open spec fn gives(&self, input: String, out: Result<String, PromptError>) -> bool {
        yes_no_outcome(input, out)
    }

    fn check(&self, input: String) -> (out: Result<String, PromptError>) {
        yes_no(input)
    }
}

impl<F: Fn(String) -> Result<String, PromptError>> Validator for Custom<F> {
    open spec fn admits(&self, input: String) -> bool {
        call_requires(self.0, (input,))
    }

    open spec fn gives(&self, input: String, out: Result<String, PromptError>) -> bool {
        call_ensures(self.0, (input,), out)
    }

    fn check(&self, input: String) -> (out: Result<String, PromptError>) {
        (self.0)(input)
    }
}

} // verus!
