use wasm_filter::directive::{Field, ValidationError};
use wasm_filter::headers::RequestHeaders;
use wasm_filter::text::{name_matches, parse_count, text_eq, text_matches};
use wasm_filter::validate::{
    parse_field_count, parse_service, require, validate_prompt, validate_service, Service,
    ValidatedFields,
};

#[test]
fn empty_request_has_no_headers() {
    let h = RequestHeaders::new();
    assert_eq!(h.len(), 0);
    assert_eq!(h.get("service"), None);
}

#[test]
fn header_is_found_by_name() {
    let h = RequestHeaders::new().with("service", "short").with("lora", "sql-tuned");
    assert_eq!(h.len(), 2);
    assert_eq!(h.get("service"), Some("short"));
    assert_eq!(h.get("lora"), Some("sql-tuned"));
    assert_eq!(h.get("max_tokens"), None);
}

#[test]
fn header_names_ignore_ascii_case() {
    let h = RequestHeaders::new().with("Service", "short").with("INPUT_TOKENS", "5");
    assert_eq!(h.get("service"), Some("short"));
    assert_eq!(h.get("SERVICE"), Some("short"));
    assert_eq!(h.get("input_tokens"), Some("5"));
    assert_eq!(h.get("input-tokens"), None);
}

#[test]
fn header_values_keep_their_case() {
    let h = RequestHeaders::new().with("service", "Short");
    assert_eq!(h.get("service"), Some("Short"));
    assert_eq!(
        validate_service(&h),
        Err(ValidationError::InvalidEnumValue(Field::Service))
    );
}

#[test]
fn first_of_repeated_headers_counts() {
    let mut h = RequestHeaders::new();
    h.append("service", "long");
    h.append("Service", "short");
    assert_eq!(h.len(), 2);
    assert_eq!(h.get("service"), Some("long"));
}

#[test]
fn names_match_up_to_ascii_case_only() {
    assert!(name_matches("x-route-to", "X-Route-To"));
    assert!(name_matches("", ""));
    assert!(!name_matches("service", "services"));
    assert!(!name_matches("service", "servicE "));
    assert!(!name_matches("a[", "a{"));
    assert!(!name_matches("a@", "a`"));
    assert!(name_matches("straße", "STRAßE"));
    assert!(!name_matches("é", "É"));
    assert!(!name_matches("é", "e"));
    assert!(!name_matches("ab", "é"));
    assert!(text_matches("Zz", "zZ", true));
    assert!(!text_matches("Zz", "zZ", false));
}

#[test]
fn texts_are_equal_character_by_character() {
    assert!(text_eq("prompt", "prompt"));
    assert!(!text_eq("prompt", "Prompt"));
    assert!(!text_eq("prompt", "prompt "));
    assert!(!text_eq("", "x"));
    assert!(text_eq("", ""));
    assert!(text_eq("naïve", "naïve"));
    assert!(!text_eq("naïve", "naive"));
    assert!(!text_eq("naïve", "naïvé"));
}

#[test]
fn counts_are_plain_decimal_numbers() {
    assert_eq!(parse_count("0"), Some(0));
    assert_eq!(parse_count("50"), Some(50));
    assert_eq!(parse_count("150"), Some(150));
    assert_eq!(parse_count("007"), Some(7));
    assert_eq!(parse_count("1234567890"), Some(1234567890));
}

#[test]
fn counts_take_no_sign_and_no_blanks() {
    assert_eq!(parse_count(""), None);
    assert_eq!(parse_count("+5"), None);
    assert_eq!(parse_count("-5"), None);
    assert_eq!(parse_count(" 5"), None);
    assert_eq!(parse_count("5 "), None);
    assert_eq!(parse_count("5\n"), None);
    assert_eq!(parse_count("abc"), None);
    assert_eq!(parse_count("12a"), None);
    assert_eq!(parse_count("1.5"), None);
    assert_eq!(parse_count("1e3"), None);
    assert_eq!(parse_count("0x10"), None);
    assert_eq!(parse_count("/"), None);
    assert_eq!(parse_count(":"), None);
    assert_eq!(parse_count("٣"), None);
    assert_eq!(parse_count("5é"), None);
}

#[test]
fn counts_stay_within_the_platform_range() {
    let max = format!("{}", usize::MAX);
    assert_eq!(parse_count(&max), Some(usize::MAX));
    assert_eq!(parse_count(&format!("000{}", max)), Some(usize::MAX));
    assert_eq!(parse_count(&format!("{}0", max)), None);
    let above = format!("{}", usize::MAX as u128 + 1);
    assert_eq!(parse_count(&above), None);
    assert_eq!(parse_count("99999999999999999999999999999999999999"), None);
}

#[test]
fn service_words_are_read_exactly() {
    assert_eq!(parse_service("prompt"), Some(Service::Prompt));
    assert_eq!(parse_service("short"), Some(Service::Short));
    assert_eq!(parse_service("long"), Some(Service::Long));
    assert_eq!(parse_service("random"), Some(Service::Random));
    assert_eq!(parse_service("Random"), None);
    assert_eq!(parse_service(""), None);
    assert_eq!(parse_service("medium"), None);
    assert_eq!(parse_service(" short"), None);
}

#[test]
fn required_header_is_found_or_missing() {
    let h = RequestHeaders::new().with("Max_Tokens", "12");
    assert_eq!(require(&h, Field::MaxTokens), Ok("12"));
    assert_eq!(
        require(&h, Field::InputTokens),
        Err(ValidationError::MissingHeader(Field::InputTokens))
    );
    assert_eq!(
        require(&h, Field::Service),
        Err(ValidationError::MissingHeader(Field::Service))
    );
}

#[test]
fn field_count_is_parsed_or_unparseable() {
    assert_eq!(parse_field_count("12", Field::MaxTokens), Ok(12));
    assert_eq!(
        parse_field_count("abc", Field::MaxTokens),
        Err(ValidationError::UnparseableHeader(Field::MaxTokens))
    );
    assert_eq!(
        parse_field_count("", Field::InputTokens),
        Err(ValidationError::UnparseableHeader(Field::InputTokens))
    );
}

#[test]
fn service_header_is_validated() {
    let none = RequestHeaders::new().with("lora", "sql-tuned");
    assert_eq!(
        validate_service(&none),
        Err(ValidationError::MissingHeader(Field::Service))
    );
    let bad = RequestHeaders::new().with("service", "medium");
    assert_eq!(
        validate_service(&bad),
        Err(ValidationError::InvalidEnumValue(Field::Service))
    );
    let good = RequestHeaders::new().with("service", "random");
    assert_eq!(validate_service(&good), Ok(Service::Random));
}

#[test]
fn prompt_fields_are_validated_in_order() {
    let both = RequestHeaders::new().with("input_tokens", "150").with("max_tokens", "100");
    assert_eq!(
        validate_prompt(&both),
        Ok(ValidatedFields { input_tokens: 150, max_tokens: 100 })
    );
    let none = RequestHeaders::new();
    assert_eq!(
        validate_prompt(&none),
        Err(ValidationError::MissingHeader(Field::InputTokens))
    );
    let no_input = RequestHeaders::new().with("max_tokens", "abc");
    assert_eq!(
        validate_prompt(&no_input),
        Err(ValidationError::MissingHeader(Field::InputTokens))
    );
    let no_max = RequestHeaders::new().with("input_tokens", "abc");
    assert_eq!(
        validate_prompt(&no_max),
        Err(ValidationError::MissingHeader(Field::MaxTokens))
    );
    let bad_max = RequestHeaders::new().with("input_tokens", "1").with("max_tokens", "abc");
    assert_eq!(
        validate_prompt(&bad_max),
        Err(ValidationError::UnparseableHeader(Field::MaxTokens))
    );
    let bad_input = RequestHeaders::new().with("input_tokens", "x").with("max_tokens", "1");
    assert_eq!(
        validate_prompt(&bad_input),
        Err(ValidationError::UnparseableHeader(Field::InputTokens))
    );
    let bad_both = RequestHeaders::new().with("input_tokens", "x").with("max_tokens", "y");
    assert_eq!(
        validate_prompt(&bad_both),
        Err(ValidationError::UnparseableHeader(Field::MaxTokens))
    );
}
