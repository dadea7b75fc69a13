use recommended_config::schema::StringMatch;
use recommended_config::string_match::regex_verdict;

#[test]
fn exact_match_matches() {
    let m = StringMatch::Exact("foo".to_string());
    assert!(m.matches("foo"));
}

#[test]
fn exact_non_match_does_not_match() {
    let m = StringMatch::Exact("foo".to_string());
    assert!(!m.matches("bar"));
}

#[test]
fn regex_pattern_matches() {
    let m = StringMatch::Regex {
        regex: "fo.*".to_string(),
    };
    assert!(m.matches("foobar"));
    assert!(m.matches("fo"));
}

#[test]
fn regex_pattern_non_match() {
    let m = StringMatch::Regex {
        regex: "fo.*".to_string(),
    };
    assert!(!m.matches("baz"));
}

#[test]
fn invalid_regex_returns_false_not_panic() {
    let m = StringMatch::Regex {
        regex: "[invalid".to_string(),
    };
    assert!(!m.matches("anything"));
}

#[test]
fn exact_version_string_does_not_treat_dot_as_regex() {
    // "4.2" as Exact must match only "4.2" and must not match "4x2"
    // (which a regex "." would match).
    let m = StringMatch::Exact("4.2".to_string());
    assert!(m.matches("4.2"));
    assert!(!m.matches("4x2"));
    assert!(!m.matches("42"));
    assert!(!m.matches("4.a2"));
}

#[test]
fn same_text_as_regex_does_treat_dot_as_wildcard() {
    let m = StringMatch::Regex {
        regex: "4.2".to_string(),
    };
    assert!(m.matches("4.2"));
    assert!(m.matches("4x2"));
    assert!(!m.matches("42"));
}

#[test]
fn regex_match_is_unanchored() {
    let m = StringMatch::Regex {
        regex: "granite".to_string(),
    };
    assert!(m.matches("ibm-granite-4.0"));
    assert!(!m.matches("llama"));
}

#[test]
fn anchored_regex_respects_anchors() {
    let m = StringMatch::Regex {
        regex: "^granite$".to_string(),
    };
    assert!(m.matches("granite"));
    assert!(!m.matches("ibm-granite"));
}

#[test]
fn exact_match_is_case_sensitive_and_total() {
    let m = StringMatch::Exact("Q4_K_M".to_string());
    assert!(!m.matches("q4_k_m"));
    assert!(!m.matches("Q4_K_M "));
    assert!(!m.matches(""));
    let empty = StringMatch::Exact(String::new());
    assert!(empty.matches(""));
    assert!(!empty.matches("x"));
}

#[test]
fn invalid_regex_never_matches_even_its_own_text() {
    let m = StringMatch::Regex {
        regex: "(unclosed".to_string(),
    };
    assert!(!m.matches("(unclosed"));
    assert!(!m.matches(""));
}

#[test]
fn regex_verdict_cases() {
    assert!(regex_verdict(Some(true)));
    assert!(!regex_verdict(Some(false)));
    assert!(!regex_verdict(None));
}

#[test]
fn string_match_clone_is_equal() {
    let a = StringMatch::Regex {
        regex: "x+".to_string(),
    };
    assert_eq!(a.clone(), a);
    let b = StringMatch::Exact("y".to_string());
    assert_eq!(b.clone(), b);
    assert_ne!(a, b);
}
