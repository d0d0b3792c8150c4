use polishd::polisher::completion;
use polishd::failure::{classify, failure_notice, Failure, Job};
use polishd::polisher::{
    api_error, bearer, first_choice, instruction_content, is_success, optimize_prompt, polish_text,
    transform_text, Purpose, MAX_TOKENS, MODEL,
};
use polishd::prompt::{PROMPT_SYSTEM_PROMPT, SYSTEM_PROMPT, TRANSFORM_SYSTEM_PROMPT};
use polishd::text::{chars_of, contains, decimal_string, is_white_space_char, trim};

#[test]
fn trim_removes_ascii_white_space_at_both_ends() {
    assert_eq!(trim("  hello world \n\t"), "hello world");
    assert_eq!(trim("inner  space"), "inner  space");
    assert_eq!(trim(""), "");
    assert_eq!(trim(" \r\n "), "");
}

#[test]
fn trim_agrees_with_std_on_unicode_white_space() {
    let samples = [
        "\u{3000}x\u{00A0}",
        "\u{2028}\u{205F}a b\u{1680}",
        "\u{200B}zero width is not white space\u{200B}",
        "\u{0085}next line\u{202F}",
        "ünïcödé",
    ];
    for s in samples {
        assert_eq!(trim(s), s.trim());
    }
    for c in ['\u{9}', '\u{D}', ' ', '\u{85}', '\u{A0}', '\u{1680}', '\u{2000}', '\u{200A}', '\u{3000}', 'a', '\u{200B}', '\u{180E}'] {
        assert_eq!(is_white_space_char(c), c.is_whitespace());
    }
}

#[test]
fn chars_of_keeps_every_character() {
    assert_eq!(chars_of("añb"), vec!['a', 'ñ', 'b']);
}

#[test]
fn contains_finds_substrings() {
    assert!(contains("API 401: Unauthorized", "401"));
    assert!(contains("abc", ""));
    assert!(!contains("ab", "abc"));
    assert!(!contains("API 500: oops", "429"));
    assert!(contains("xx429", "429"));
}

#[test]
fn decimal_numerals() {
    assert_eq!(decimal_string(0), "0");
    assert_eq!(decimal_string(7), "7");
    assert_eq!(decimal_string(429), "429");
    assert_eq!(decimal_string(65535), "65535");
}

#[test]
fn polish_request_carries_prompt_text_and_key() {
    let r = polish_text("teh cat", "sk-1");
    assert_eq!(r.model, MODEL);
    assert_eq!(r.model, "openai/gpt-4o-mini");
    assert_eq!(r.max_tokens, 2048);
    assert_eq!(r.max_tokens, MAX_TOKENS);
    assert_eq!(r.purpose, Purpose::Polish);
    assert_eq!(r.authorization, "Bearer sk-1");
    assert_eq!(r.messages.len(), 2);
    assert_eq!(r.messages[0].role, "system");
    assert_eq!(r.messages[0].content, SYSTEM_PROMPT);
    assert_eq!(r.messages[1].role, "user");
    assert_eq!(r.messages[1].content, "teh cat");
}

#[test]
fn transform_and_prompt_requests_carry_the_instruction() {
    assert_eq!(instruction_content("shorter", "long text"), "Instruction: shorter\n\nText:\nlong text");
    let r = transform_text("long text", "shorter", "k");
    assert_eq!(r.purpose, Purpose::Transform);
    assert_eq!(r.messages[0].content, TRANSFORM_SYSTEM_PROMPT);
    assert_eq!(r.messages[1].content, "Instruction: shorter\n\nText:\nlong text");
    let p = optimize_prompt("write poem", "make it precise", "k");
    assert_eq!(p.purpose, Purpose::Prompt);
    assert_eq!(p.messages[0].content, PROMPT_SYSTEM_PROMPT);
    assert_eq!(p.messages[1].content, "Instruction: make it precise\n\nText:\nwrite poem");
    assert_eq!(bearer(""), "Bearer ");
}

#[test]
fn responses_and_statuses() {
    assert!(is_success(200));
    assert!(is_success(299));
    assert!(!is_success(199));
    assert!(!is_success(300));
    assert!(!is_success(401));
    assert_eq!(api_error(401, "{\"error\":\"bad key\"}"), "API 401: {\"error\":\"bad key\"}");
    assert_eq!(api_error(502, ""), "API 502: ");
    assert_eq!(first_choice(&vec![]), Err("Empty response from API".to_string()));
    assert_eq!(first_choice(&vec!["  Polished.\n".to_string(), "second".to_string()]), Ok("Polished.".to_string()));
}

#[test]
fn failures_are_classified_by_status_in_the_error_text() {
    assert_eq!(classify(&api_error(401, "x")), Failure::InvalidKey);
    assert_eq!(classify(&api_error(403, "")), Failure::InvalidKey);
    assert_eq!(classify(&api_error(429, "slow down")), Failure::RateLimited);
    assert_eq!(classify(&api_error(429, "see 401")), Failure::InvalidKey);
    assert_eq!(classify("error sending request"), Failure::Other);
    assert_eq!(
        failure_notice("API 401: no", Job::Polish),
        "Invalid API key. Check your OpenRouter key in Settings."
    );
    assert_eq!(failure_notice("API 429: no", Job::Transform), "Rate limited — try again in a moment.");
    assert_eq!(failure_notice("dns", Job::Polish), "Polish failed. Check your internet connection.");
    assert_eq!(failure_notice("dns", Job::Transform), "Transform failed. Check your internet connection.");
}

#[test]
fn completion_of_each_kind_of_reply() {
    assert_eq!(completion(Err("dns failure".to_string()), "", Ok(vec![])), Err("dns failure".to_string()));
    assert_eq!(
        completion(Ok(401), "{\"error\":\"no auth\"}", Ok(vec!["ignored".to_string()])),
        Err("API 401: {\"error\":\"no auth\"}".to_string())
    );
    assert_eq!(completion(Ok(500), "", Ok(vec![])), Err("API 500: ".to_string()));
    assert_eq!(completion(Ok(200), "", Err("missing field `choices`".to_string())), Err("missing field `choices`".to_string()));
    assert_eq!(completion(Ok(200), "", Ok(vec![])), Err("Empty response from API".to_string()));
    assert_eq!(
        completion(Ok(201), "", Ok(vec!["\n  Fixed text. ".to_string(), "other".to_string()])),
        Ok("Fixed text.".to_string())
    );
    let answer = completion(Ok(200), "", Ok(vec![" \u{3000}a b\t".to_string()])).unwrap();
    assert_eq!(trim(&answer), answer);
}
