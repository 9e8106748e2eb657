use aircade_api::utils::game_code::{generate_game_code, is_valid_game_code, normalize_game_code};

#[test]
fn test_generate_game_code_length() {
    let code = generate_game_code();
    assert_eq!(code.len(), 6);
}

#[test]
fn test_generate_game_code_valid_chars() {
    for _ in 0..100 {
        let code = generate_game_code();
        assert!(is_valid_game_code(&code));
    }
}

#[test]
fn test_game_code_uniqueness() {
    let codes: std::collections::HashSet<String> =
        (0..1000).map(|_| generate_game_code()).collect();
    // Should have very few collisions (likely none in 1000 codes)
    assert!(codes.len() > 990);
}

#[test]
fn test_is_valid_game_code() {
    assert!(is_valid_game_code("ABC234"));
    assert!(is_valid_game_code("XYZNMK"));
    assert!(!is_valid_game_code("abc")); // too short
    assert!(!is_valid_game_code("ABC1234")); // too long (7 chars)
    assert!(!is_valid_game_code("ABC12!")); // invalid char
}

#[test]
fn test_normalize_game_code() {
    assert_eq!(normalize_game_code("  abc234  "), "ABC234");
    assert_eq!(normalize_game_code("XyZ789"), "XYZ789");
}

#[test]
fn lower_case_codes_are_valid_and_confusable_letters_are_not() {
    assert!(is_valid_game_code("abc234"));
    assert!(!is_valid_game_code("ABCDEO"));
    assert!(!is_valid_game_code("ABCDEL"));
    assert!(!is_valid_game_code("ABCDEI"));
    assert!(!is_valid_game_code("ABCDE0"));
    assert!(!is_valid_game_code("ABCDE1"));
    // six bytes but fewer characters
    assert!(!is_valid_game_code("ABCDé"));
}

#[test]
fn generated_codes_avoid_confusable_characters() {
    for _ in 0..200 {
        let code = generate_game_code();
        assert!(code.chars().all(|c| !"0O1IL".contains(c)));
        assert_eq!(normalize_game_code(&code), code);
    }
}

#[test]
fn game_codes_count_characters() {
    assert!(!is_valid_game_code("ŁŁŁ"));
    assert!(!is_valid_game_code("ABCŁ2"));
    assert!(is_valid_game_code("abc234"));
    assert!(!is_valid_game_code("ABC0O1"));
    assert!(!is_valid_game_code("ABC23"));
}

#[test]
fn normalizing_ascii_codes() {
    assert_eq!(normalize_game_code("  ab3cd9 "), "AB3CD9");
    let once = normalize_game_code(" xy7k2m\t");
    assert_eq!(normalize_game_code(&once), once);
    assert_eq!(is_valid_game_code(&once), is_valid_game_code("xy7k2m"));
}
