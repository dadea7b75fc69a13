use recommended_config::builtin::builtin_from_parsed;
use recommended_config::resolution::effective_capabilities;
use recommended_config::schema::{RecommendedCapability, RecommendedConfiguration};
use std::collections::HashMap;

fn config(launcher: &str, capability: &str) -> RecommendedConfiguration {
    RecommendedConfiguration {
        launcher: launcher.to_string(),
        capabilities: vec![RecommendedCapability {
            capability: capability.to_string(),
            models: HashMap::new(),
        }],
    }
}

#[test]
fn sources_that_failed_to_parse_are_skipped_in_order() {
    let parsed = vec![
        Some(config("bob", "a")),
        None,
        Some(config("*", "b")),
        None,
        Some(config("pi", "c")),
    ];
    let builtin = builtin_from_parsed(parsed);
    let launchers: Vec<&str> = builtin.iter().map(|c| c.launcher.as_str()).collect();
    assert_eq!(launchers, vec!["bob", "*", "pi"]);
}

#[test]
fn no_sources_gives_no_builtin_entries() {
    assert!(builtin_from_parsed(vec![]).is_empty());
    assert!(builtin_from_parsed(vec![None, None]).is_empty());
}

#[test]
fn unrelated_entries_do_not_change_the_result() {
    let user = HashMap::new();
    let before = vec![config("*", "wild"), config("goose", "g")];
    let caps_before = effective_capabilities("goose", &before, &user);
    let after = vec![config("bob", "x"), config("*", "wild"), config("pi", "y"), config("goose", "g")];
    let caps_after = effective_capabilities("goose", &after, &user);
    assert_eq!(caps_before.len(), caps_after.len());
    assert_eq!(caps_before[0].capability, caps_after[0].capability);

    let mut user2 = HashMap::new();
    user2.insert("openclaw".to_string(), config("openclaw", "z"));
    let caps_user = effective_capabilities("goose", &before, &user2);
    assert_eq!(caps_user.len(), 1);
    assert_eq!(caps_user[0].capability, "g");
}
