use completion_client::args::parse_arguments;
use completion_client::errors::{ArgError, Flag};

fn argv(tokens: &[&str]) -> Vec<String> {
    tokens.iter().map(|t| t.to_string()).collect()
}

#[test]
fn parse_ok_long_flags() {
    let args = argv(&[
        "--prompt",
        "hi",
        "--model",
        "gpt-x",
        "--temperature",
        "0.5",
        "--max_tokens",
        "16",
    ]);
    let d = parse_arguments(&args).unwrap();
    assert_eq!(d.prompt, "hi");
    assert_eq!(d.model, "gpt-x");
    assert_eq!(d.temperature, "0.5");
    assert_eq!(d.max_tokens, 16);
}

#[test]
fn parse_ok_short_flags() {
    let args = argv(&["-p", "say hello", "-m", "gpt-x", "-t", "1", "-x", "0"]);
    let d = parse_arguments(&args).unwrap();
    assert_eq!(d.prompt, "say hello");
    assert_eq!(d.model, "gpt-x");
    assert_eq!(d.temperature, "1");
    assert_eq!(d.max_tokens, 0);
}

#[test]
fn parse_ok_any_order() {
    let args = argv(&["-x", "250", "--temperature", "0.9", "-m", "m1", "--prompt", "p"]);
    let d = parse_arguments(&args).unwrap();
    assert_eq!(d.prompt, "p");
    assert_eq!(d.model, "m1");
    assert_eq!(d.temperature, "0.9");
    assert_eq!(d.max_tokens, 250);
}

#[test]
fn parse_value_may_look_like_a_flag() {
    // A value token is taken verbatim, never read as a flag name.
    let args = argv(&["-p", "-m", "-m", "-p", "-t", "0", "-x", "1"]);
    let d = parse_arguments(&args).unwrap();
    assert_eq!(d.prompt, "-m");
    assert_eq!(d.model, "-p");
}

#[test]
fn missing_model_flag_is_rejected() {
    let args = argv(&["--prompt", "hi", "--temperature", "0.5", "--max_tokens", "16"]);
    assert_eq!(parse_arguments(&args).unwrap_err(), ArgError::MissingFlag(Flag::Model));
}

#[test]
fn empty_command_line_is_rejected() {
    let args: Vec<String> = Vec::new();
    assert_eq!(parse_arguments(&args).unwrap_err(), ArgError::MissingFlag(Flag::Prompt));
}

#[test]
fn unknown_token_is_rejected() {
    let args = argv(&["--oops", "hi"]);
    assert_eq!(parse_arguments(&args).unwrap_err(), ArgError::UnknownFlag);
}

#[test]
fn flag_without_value_is_rejected() {
    let args = argv(&["--prompt"]);
    assert_eq!(parse_arguments(&args).unwrap_err(), ArgError::MissingValue(Flag::Prompt));
}

#[test]
fn repeated_flag_is_rejected() {
    let args = argv(&["-p", "a", "--prompt", "b", "-m", "m", "-t", "0", "-x", "1"]);
    assert_eq!(parse_arguments(&args).unwrap_err(), ArgError::RepeatedFlag(Flag::Prompt));
}

#[test]
fn malformed_temperature_is_rejected() {
    for bad in ["abc", "1.", ".5", "--1", "0x2", "1e", "1e+", "", "2.5.1", "01"] {
        let args = argv(&["-p", "p", "-m", "m", "-t", bad, "-x", "1"]);
        assert_eq!(
            parse_arguments(&args).unwrap_err(),
            ArgError::BadValue(Flag::Temperature),
            "temperature {:?} should be rejected",
            bad
        );
    }
}

#[test]
fn temperature_number_forms_are_kept_verbatim() {
    for good in ["0", "0.5", "-0.5", "10", "1e-3", "2E+4", "123.456", "-0"] {
        let args = argv(&["-p", "p", "-m", "m", "-t", good, "-x", "1"]);
        let d = parse_arguments(&args).unwrap();
        assert_eq!(d.temperature, good);
    }
}

#[test]
fn malformed_max_tokens_is_rejected() {
    for bad in ["-1", "16.5", "abc", "", "1e3", "99999999999999999999999"] {
        let args = argv(&["-p", "p", "-m", "m", "-t", "0.5", "-x", bad]);
        assert_eq!(
            parse_arguments(&args).unwrap_err(),
            ArgError::BadValue(Flag::MaxTokens),
            "max_tokens {:?} should be rejected",
            bad
        );
    }
}

#[test]
fn max_tokens_fits_usize_exactly() {
    let args = argv(&["-p", "p", "-m", "m", "-t", "0.5", "-x", "18446744073709551615"]);
    let d = parse_arguments(&args).unwrap();
    assert_eq!(d.max_tokens, 18446744073709551615);
    let args = argv(&["-p", "p", "-m", "m", "-t", "0.5", "-x", "18446744073709551616"]);
    assert_eq!(parse_arguments(&args).unwrap_err(), ArgError::BadValue(Flag::MaxTokens));
}

#[test]
fn max_tokens_accepts_leading_zeros() {
    let args = argv(&["-p", "p", "-m", "m", "-t", "0.5", "-x", "016"]);
    let d = parse_arguments(&args).unwrap();
    assert_eq!(d.max_tokens, 16);
}

#[test]
fn missing_flag_order_prompt_first() {
    // Both model and max_tokens are missing: the report follows the fixed
    // order prompt, model, temperature, max_tokens.
    let args = argv(&["-t", "0.5", "-p", "p"]);
    assert_eq!(parse_arguments(&args).unwrap_err(), ArgError::MissingFlag(Flag::Model));
}
