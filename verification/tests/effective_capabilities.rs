use recommended_config::resolution::{effective_capabilities, resolve_entry};
use recommended_config::schema::{
    RecommendedCapability, RecommendedConfiguration, RecommendedModel, RecommendedModelSet,
    StringMatch,
};
use std::collections::HashMap;

fn make_config(launcher: &str, capability: &str, model_val: &str) -> RecommendedConfiguration {
    let mut models = HashMap::new();
    models.insert(
        "model_id".to_string(),
        RecommendedModelSet {
            min_context_length: None,
            models: vec![RecommendedModel {
                model: StringMatch::Exact(model_val.to_string()),
                variant_formats: vec![],
                variant_precisions: vec![],
            }],
        },
    );
    RecommendedConfiguration {
        launcher: launcher.to_string(),
        capabilities: vec![RecommendedCapability {
            capability: capability.to_string(),
            models,
        }],
    }
}

fn model_of(cap: &RecommendedCapability) -> &StringMatch {
    &cap.models.get("model_id").expect("model_id present").models[0].model
}

#[test]
fn user_entry_fully_replaces_builtin_for_same_launcher() {
    // Builtin has capability X with model "builtin-model".
    // User override for the same launcher has capability Y with model "user-model".
    // Result must be exactly Y, not X+Y.
    let builtin = vec![make_config("hermes", "cap-x", "builtin-model")];
    let mut user = HashMap::new();
    user.insert(
        "hermes".to_string(),
        make_config("hermes", "cap-y", "user-model"),
    );

    let caps = effective_capabilities("hermes", &builtin, &user);
    assert_eq!(caps.len(), 1);
    assert_eq!(caps[0].capability, "cap-y");
}

#[test]
fn wildcard_applies_to_launcher_with_no_specific_entry() {
    let builtin = vec![make_config("*", "wildcap", "wildcard-model")];
    let user = HashMap::new();

    let caps = effective_capabilities("bob", &builtin, &user);
    assert_eq!(caps.len(), 1);
    assert_eq!(caps[0].capability, "wildcap");
}

#[test]
fn specific_entry_wins_over_wildcard_when_both_define_the_same_capability() {
    // Both wildcard and specific define capability "agent-model". The
    // specific launcher's entry is authoritative, so its
    // RecommendedCapability must win.
    let mut specific_models = HashMap::new();
    specific_models.insert(
        "model_id".to_string(),
        RecommendedModelSet {
            min_context_length: None,
            models: vec![RecommendedModel {
                model: StringMatch::Exact("specific-model".to_string()),
                variant_formats: vec![],
                variant_precisions: vec![],
            }],
        },
    );

    let mut wildcard_models = HashMap::new();
    wildcard_models.insert(
        "model_id".to_string(),
        RecommendedModelSet {
            min_context_length: None,
            models: vec![RecommendedModel {
                model: StringMatch::Exact("wildcard-model".to_string()),
                variant_formats: vec![],
                variant_precisions: vec![],
            }],
        },
    );

    let builtin = vec![
        RecommendedConfiguration {
            launcher: "hermes".to_string(),
            capabilities: vec![RecommendedCapability {
                capability: "agent-model".to_string(),
                models: specific_models,
            }],
        },
        RecommendedConfiguration {
            launcher: "*".to_string(),
            capabilities: vec![RecommendedCapability {
                capability: "agent-model".to_string(),
                models: wildcard_models,
            }],
        },
    ];
    let user = HashMap::new();

    let caps = effective_capabilities("hermes", &builtin, &user);
    assert_eq!(caps.len(), 1);
    // Verify the specific launcher's model value wins
    let model_slot = caps[0].models.get("model_id").expect("model_id present");
    assert_eq!(
        model_slot.models[0].model,
        StringMatch::Exact("specific-model".to_string())
    );
}

#[test]
fn a_launchers_own_entry_excludes_wildcard_capabilities_entirely() {
    // Specific launcher defines only "agent-model"; wildcard separately
    // defines "sub-agent-cap". A launcher's own entry is authoritative and
    // complete: the wildcard must not be blended in.
    let builtin = vec![
        make_config("hermes", "agent-model", "specific-model"),
        make_config("*", "sub-agent-cap", "wildcard-model"),
    ];
    let user = HashMap::new();

    let caps = effective_capabilities("hermes", &builtin, &user);
    assert_eq!(caps.len(), 1);
    assert_eq!(caps[0].capability, "agent-model");
}

#[test]
fn no_builtin_no_user_returns_empty() {
    let builtin: Vec<RecommendedConfiguration> = vec![];
    let user = HashMap::new();
    let caps = effective_capabilities("hermes", &builtin, &user);
    assert!(caps.is_empty());
}

#[test]
fn user_wildcard_replaces_builtin_wildcard() {
    let builtin = vec![make_config("*", "builtin-wild", "m1")];
    let mut user = HashMap::new();
    user.insert("*".to_string(), make_config("*", "user-wild", "m2"));
    let caps = effective_capabilities("goose", &builtin, &user);
    assert_eq!(caps.len(), 1);
    assert_eq!(caps[0].capability, "user-wild");
    assert_eq!(model_of(&caps[0]), &StringMatch::Exact("m2".to_string()));
}

#[test]
fn builtin_specific_beats_user_wildcard() {
    let builtin = vec![make_config("pi", "pi-cap", "m1")];
    let mut user = HashMap::new();
    user.insert("*".to_string(), make_config("*", "user-wild", "m2"));
    let caps = effective_capabilities("pi", &builtin, &user);
    assert_eq!(caps.len(), 1);
    assert_eq!(caps[0].capability, "pi-cap");
}

#[test]
fn first_builtin_entry_for_a_launcher_wins() {
    let builtin = vec![
        make_config("pi", "first", "m1"),
        make_config("pi", "second", "m2"),
    ];
    let user = HashMap::new();
    let caps = effective_capabilities("pi", &builtin, &user);
    assert_eq!(caps.len(), 1);
    assert_eq!(caps[0].capability, "first");
}

#[test]
fn entries_for_other_launchers_are_ignored() {
    let builtin = vec![
        make_config("hermes", "hermes-cap", "m1"),
        make_config("goose", "goose-cap", "m2"),
    ];
    let mut user = HashMap::new();
    user.insert("bob".to_string(), make_config("bob", "bob-cap", "m3"));
    let caps = effective_capabilities("openclaw", &builtin, &user);
    assert!(caps.is_empty());
}

#[test]
fn own_entry_with_no_capabilities_still_excludes_wildcard() {
    let builtin = vec![
        RecommendedConfiguration {
            launcher: "bob".to_string(),
            capabilities: vec![],
        },
        make_config("*", "wild", "m"),
    ];
    let user = HashMap::new();
    let caps = effective_capabilities("bob", &builtin, &user);
    assert!(caps.is_empty());
}

#[test]
fn capability_order_and_slots_are_preserved() {
    let mut cfg = make_config("opencode", "a", "m-a");
    cfg.capabilities.push(make_config("opencode", "b", "m-b").capabilities.remove(0));
    let builtin = vec![cfg];
    let user = HashMap::new();
    let caps = effective_capabilities("opencode", &builtin, &user);
    assert_eq!(caps.len(), 2);
    assert_eq!(caps[0].capability, "a");
    assert_eq!(caps[1].capability, "b");
    assert_eq!(model_of(&caps[1]), &StringMatch::Exact("m-b".to_string()));
}

#[test]
fn launcher_named_wildcard_gets_the_wildcard_entry() {
    let builtin = vec![make_config("*", "wild", "m")];
    let user = HashMap::new();
    let caps = effective_capabilities("*", &builtin, &user);
    assert_eq!(caps.len(), 1);
    assert_eq!(caps[0].capability, "wild");
}

#[test]
fn resolve_entry_prefers_user_then_builtin() {
    let builtin = vec![make_config("hermes", "b", "m1"), make_config("bob", "c", "m2")];
    let mut user = HashMap::new();
    user.insert("hermes".to_string(), make_config("hermes", "u", "m3"));
    let from_user = resolve_entry("hermes", &builtin, &user).expect("hermes resolves");
    assert_eq!(from_user.capabilities[0].capability, "u");
    let from_builtin = resolve_entry("bob", &builtin, &user).expect("bob resolves");
    assert_eq!(from_builtin.capabilities[0].capability, "c");
    assert!(resolve_entry("pi", &builtin, &user).is_none());
}
