use prompts::error::PromptError;
use prompts::prompt::{Prompt, Step};
use prompts::prompt_config::PromptConfig;
use prompts::text::chomp;
use prompts::validators::{not_blank, one_of, yes_no, NotBlank, YesNo};

fn rejection(r: &Result<String, PromptError>) -> Option<String> {
    match r {
        Err(PromptError::ValidateError(m)) => Some(m.clone()),
        _ => None,
    }
}

fn accepted(s: &Step) -> Option<String> {
    match s {
        Step::Accept(v) => Some(v.clone()),
        _ => None,
    }
}

#[test]
fn format_plain() {
    let prompt = Prompt::new("Dummy");
    assert_eq!(prompt.format(), "Dummy ");
}

#[test]
fn format_with_default() {
    let prompt = Prompt::new("Dummy").default("def");
    assert_eq!(prompt.format(), "Dummy [def] ");
}

#[test]
fn format_with_choices() {
    let prompt = Prompt::new("Dummy").choices(["a", "b", "c"].to_vec());
    assert_eq!(prompt.format(), "Dummy [a, b, c] ");
}

#[test]
fn format_with_choices_and_default() {
    let prompt = Prompt::new("Dummy").choices(["a", "b", "c"].to_vec()).default("a");
    assert_eq!(prompt.format(), "Dummy [a, b, c] ");
}

#[test]
fn format_trims_question() {
    assert_eq!(Prompt::new("  Dummy \t").format(), "Dummy ");
    assert_eq!(Prompt::new("  Dummy  ").default("x").format(), "Dummy [x] ");
}

#[test]
fn format_keeps_line_end() {
    assert_eq!(Prompt::new("Name?\n").format(), "Name?\n ");
    assert_eq!(Prompt::new("Name?\r\n").default("d").format(), "Name? [d]\r\n ");
    assert_eq!(Prompt::new(" Pick \n").choices(vec!["x", "y"]).format(), "Pick [x, y]\n ");
}

#[test]
fn format_is_repeatable() {
    let prompt = Prompt::new("Dummy").default("def");
    assert_eq!(prompt.format(), prompt.format());
}

#[test]
fn format_single_choice_and_empty_default() {
    assert_eq!(Prompt::new("Q").choices(vec!["only"]).format(), "Q [only] ");
    assert_eq!(Prompt::new("Q").default("").format(), "Q [] ");
    assert_eq!(Prompt::new("").format(), " ");
}

#[test]
fn chomp_line_ends() {
    let mut s = String::from("abc\n");
    assert_eq!(chomp(&mut s), "\n");
    assert_eq!(s, "abc");
    let mut s = String::from("abc\r\n");
    assert_eq!(chomp(&mut s), "\r\n");
    assert_eq!(s, "abc");
    let mut s = String::from("abc\r");
    assert_eq!(chomp(&mut s), "\r");
    assert_eq!(s, "abc");
    let mut s = String::from("abc");
    assert_eq!(chomp(&mut s), "");
    assert_eq!(s, "abc");
    let mut s = String::from("a\n\n");
    assert_eq!(chomp(&mut s), "\n");
    assert_eq!(s, "a\n");
    let mut s = String::new();
    assert_eq!(chomp(&mut s), "");
    assert_eq!(s, "");
}

#[test]
fn not_blank_rejects_whitespace() {
    assert_eq!(rejection(&not_blank(String::from(""))), Some(String::from("Cannot be blank")));
    assert_eq!(rejection(&not_blank(String::from(" \t\r\n"))), Some(String::from("Cannot be blank")));
    assert_eq!(rejection(&not_blank(String::from("\u{3000}\u{a0}"))), Some(String::from("Cannot be blank")));
    assert_eq!(not_blank(String::from(" a ")).unwrap(), " a ");
    assert_eq!(not_blank(String::from("x")).unwrap(), "x");
}

#[test]
fn yes_no_accepts_four_answers() {
    for s in ["y", "Y", "n", "N"] {
        assert_eq!(yes_no(String::from(s)).unwrap(), s);
    }
    for s in ["", "yes", "no", " y", "x", "yn"] {
        assert_eq!(rejection(&yes_no(String::from(s))), Some(String::from("Valid options are: y, n")));
    }
}

#[test]
fn one_of_checks_membership() {
    let choices = vec![String::from("a"), String::from("b"), String::from("c")];
    assert_eq!(one_of(&choices, String::from("b")).unwrap(), "b");
    assert_eq!(
        rejection(&one_of(&choices, String::from("B"))),
        Some(String::from("Valid options are: a, b, c"))
    );
    assert_eq!(
        rejection(&one_of(&choices, String::from(""))),
        Some(String::from("Valid options are: a, b, c"))
    );
    assert_eq!(rejection(&one_of(&Vec::new(), String::from("a"))), Some(String::from("Valid options are: ")));
}

#[test]
fn answer_uses_default_for_empty_line() {
    let prompt = Prompt::new("Q").default("def");
    assert_eq!(accepted(&prompt.answer(String::from(""))), Some(String::from("def")));
    assert_eq!(accepted(&prompt.answer(String::from("x"))), Some(String::from("x")));
    let plain = Prompt::new("Q");
    assert_eq!(accepted(&plain.answer(String::from(""))), Some(String::from("")));
}

#[test]
fn answer_name_scenario() {
    let prompt = Prompt::new("Name?\n");
    assert_eq!(prompt.format(), "Name?\n ");
    let mut line = String::from("Alice\n");
    chomp(&mut line);
    assert_eq!(accepted(&prompt.answer(line)), Some(String::from("Alice")));
}

#[test]
fn answer_checks_choices() {
    let prompt = Prompt::new("Q").choices(vec!["a", "b"]).default("a");
    assert_eq!(accepted(&prompt.answer(String::from("b"))), Some(String::from("b")));
    match prompt.answer(String::from("")) {
        Step::Retry(PromptError::ValidateError(m)) => assert_eq!(m, "Valid options are: a, b"),
        other => panic!("unexpected {:?}", other),
    }
    let strict = Prompt::new("Q").choices(vec!["a", "b"]).retry(false);
    match strict.answer(String::from("c")) {
        Step::Fail(PromptError::ValidateError(m)) => assert_eq!(m, "Valid options are: a, b"),
        other => panic!("unexpected {:?}", other),
    }
}

#[test]
fn answer_validator_overrides_choices() {
    let prompt = Prompt::new("Q")
        .choices(vec!["a"])
        .validate(|s: String| Ok(s.to_uppercase()));
    assert_eq!(accepted(&prompt.answer(String::from("zz"))), Some(String::from("ZZ")));
}

#[test]
fn answer_without_retry_fails_at_once() {
    let prompt = Prompt::new("Q")
        .validate(|_s: String| Err(PromptError::ValidateError(String::from("never"))))
        .retry(false);
    match prompt.answer(String::from("x")) {
        Step::Fail(PromptError::ValidateError(m)) => assert_eq!(m, "never"),
        other => panic!("unexpected {:?}", other),
    }
    let again = Prompt::new("Q").validate(|_s: String| Err(PromptError::InconcievableError()));
    assert!(matches!(again.answer(String::from("x")), Step::Retry(PromptError::InconcievableError())));
}

#[test]
fn answer_with_builtin_validators() {
    let p = Prompt::not_blank("Q");
    assert!(matches!(p.answer(String::from("  ")), Step::Retry(PromptError::ValidateError(_))));
    assert_eq!(accepted(&p.answer(String::from(" v "))), Some(String::from(" v ")));
    let y = Prompt::yn("Q").default("y");
    assert!(matches!(y.answer(String::from("")), Step::Retry(PromptError::ValidateError(_))));
    assert_eq!(accepted(&y.answer(String::from("N"))), Some(String::from("N")));
    assert_eq!(y.format(), "Q [y] ");
}

#[test]
fn settle_follows_policy() {
    let p = Prompt::new("Q");
    assert_eq!(accepted(&p.settle(Ok(String::from("v")))), Some(String::from("v")));
    assert!(matches!(p.settle(Err(PromptError::InconcievableError())), Step::Retry(_)));
    let q = Prompt::new("Q").retry(false);
    assert!(matches!(q.settle(Err(PromptError::InconcievableError())), Step::Fail(_)));
}

#[test]
fn builders_keep_other_settings() {
    let p = Prompt::new("Q\n").default("d").choices(vec!["x"]).retry(false);
    assert_eq!(p.question, "Q\n");
    assert_eq!(p.config.default, Some(String::from("d")));
    assert_eq!(p.config.choices, Some(vec![String::from("x")]));
    assert!(!p.retry);
    assert!(Prompt::new("Q").retry);
}

#[test]
fn config_presets() {
    let c: PromptConfig<NotBlank> = PromptConfig::not_blank();
    assert!(c.validator.is_some() && c.choices.is_none() && c.default.is_none());
    let c: PromptConfig<YesNo> = PromptConfig::yn();
    assert!(c.validator.is_some() && c.choices.is_none() && c.default.is_none());
    let c: PromptConfig<YesNo> = PromptConfig::default();
    assert!(c.validator.is_none() && c.choices.is_none() && c.default.is_none());
}
