use crate::schema::{
    capabilities_view, RecommendedCapability, RecommendedCapabilityView, RecommendedConfiguration,
};
use crate::string_match::str_eq;
use std::collections::HashMap;
use vstd::prelude::*;

verus! {

/// The reserved launcher key whose entry applies to every launcher that has
/// no entry of its own.
pub open spec fn wildcard_launcher() -> Seq<char> {
    seq!['*']
}

/// Whether some key of `m` spells `name`.
pub open spec fn has_named<V>(m: Map<String, V>, name: Seq<char>) -> bool {
    exists|k: String| #[trigger] m.contains_key(k) && k@ == name
}

/// The keys of `m` that spell `name`.
pub open spec fn keys_spelling<V>(m: Map<String, V>, name: Seq<char>) -> Set<String> {
    m.dom().filter(|k: String| k@ == name)
}

/// The value stored in `m` under the key that spells `name`, if any.
pub open spec fn named_entry<V>(m: Map<String, V>, name: Seq<char>) -> Option<V> {
    if has_named(m, name) {
        Some(m[keys_spelling(m, name).choose()])
    } else {
        None
    }
}

/// The first built-in configuration, in list order, whose launcher is `key`.
pub open spec fn builtin_entry(builtin: Seq<RecommendedConfiguration>, key: Seq<char>) -> Option<
    RecommendedConfiguration,
>
    decreases builtin.len(),
{
    if builtin.len() == 0 {
        None
    } else if builtin[0].launcher@ == key {
        Some(builtin[0])
    } else {
        builtin_entry(builtin.drop_first(), key)
    }
}

/// The effective entry for one launcher key: a user-authored entry wins
/// outright over the built-in entry for the same key.
pub open spec fn resolved_entry(
    key: Seq<char>,
    builtin: Seq<RecommendedConfiguration>,
    user: Map<String, RecommendedConfiguration>,
) -> Option<RecommendedConfiguration> {
    match named_entry(user, key) {
        Some(c) => Some(c),
        None => builtin_entry(builtin, key),
    }
}

/// The effective capability list of a launcher: its own entry (user or
/// built-in) if it has one, whole and alone; otherwise the wildcard's entry;
/// otherwise nothing.
pub open spec fn effective_capabilities_spec(
    launcher: Seq<char>,
    builtin: Seq<RecommendedConfiguration>,
    user: Map<String, RecommendedConfiguration>,
) -> Seq<RecommendedCapabilityView> {
    match resolved_entry(launcher, builtin, user) {
        Some(own) => own@.capabilities,
        None => match resolved_entry(wildcard_launcher(), builtin, user) {
            Some(wildcard) => wildcard@.capabilities,
            None => Seq::empty(),
        },
    }
}

/// Calls `HashMap::<String, RecommendedConfiguration>::get` with a `&str`
/// key. The contract claims that the lookup returns the value stored under
/// the key whose characters equal `key`'s, and `None` when no key has them:
/// keys are compared by `String`'s equality, which is equality of contents,
/// and a map never holds two keys that compare equal.
#[verifier::external_body]
fn user_entry<'a>(user: &'a HashMap<String, RecommendedConfiguration>, key: &str) -> (res: Option<
    &'a RecommendedConfiguration,
>)
    ensures
        match res {
            Some(c) => named_entry(user@, key@) == Some(*c),
            None => named_entry(user@, key@) is None,
        },
{
    user.get(key)
}

/// The first entry of `builtin` whose launcher is `key`.
fn find_builtin<'a>(key: &str, builtin: &'a [RecommendedConfiguration]) -> (res: Option<
    &'a RecommendedConfiguration,
>)
    ensures
        match res {
            Some(c) => builtin_entry(builtin@, key@) == Some(*c),
            None => builtin_entry(builtin@, key@) is None,
        },
{
    let mut i: usize = 0;
    assert(builtin@.skip(0) =~= builtin@);
    while i < builtin.len()
        invariant
            i <= builtin@.len(),
            builtin_entry(builtin@, key@) == builtin_entry(builtin@.skip(i as int), key@),
        decreases builtin.len() - i,
    {
        assert(builtin@.skip(i as int)[0] == builtin@[i as int]);
        if str_eq(builtin[i].launcher.as_str(), key) {
            return Some(&builtin[i]);
        }
        assert(builtin@.skip(i as int).drop_first() =~= builtin@.skip(i + 1));
        i = i + 1;
    }
    None
}

/// Look up one launcher key's effective configuration: a user-authored entry
/// wins outright over the built-in entry for that same key (whole-entry
/// replace, not a field-level merge).
pub fn resolve_entry<'a>(
    key: &str,
    builtin: &'a [RecommendedConfiguration],
    user: &'a HashMap<String, RecommendedConfiguration>,
) -> (res: Option<&'a RecommendedConfiguration>)
    ensures
        match res {
            Some(c) => resolved_entry(key@, builtin@, user@) == Some(*c),
            None => resolved_entry(key@, builtin@, user@) is None,
        },
{
    match user_entry(user, key) {
        Some(c) => Some(c),
        None => find_builtin(key, builtin),
    }
}

/// The effective capability list for one launcher: if the launcher has its
/// own entry (user- or builtin-authored), that entry is authoritative and
/// complete; the wildcard ("*") entry is consulted only when the launcher has
/// no entry of its own at all. The two are never blended.
pub fn effective_capabilities(
    launcher_type: &str,
    builtin: &[RecommendedConfiguration],
    user: &HashMap<String, RecommendedConfiguration>,
) -> (res: Vec<RecommendedCapability>)
    ensures
        capabilities_view(res@) == effective_capabilities_spec(launcher_type@, builtin@, user@),
{
    if let Some(specific) = resolve_entry(launcher_type, builtin, user) {
        let caps = specific.capabilities.clone();
        proof {
            assert(capabilities_view(caps@) =~= capabilities_view(specific.capabilities@));
        }
        return caps;
    }
    let wildcard_key = "*";
    proof {
        reveal_strlit("*");
        assert(wildcard_key@ =~= wildcard_launcher());
    }
    match resolve_entry(wildcard_key, builtin, user) {
        Some(wildcard) => {
            let caps = wildcard.capabilities.clone();
            proof {
                assert(capabilities_view(caps@) =~= capabilities_view(wildcard.capabilities@));
            }
            caps
        },
        None => {
            let caps: Vec<RecommendedCapability> = Vec::new();
            proof {
                assert(capabilities_view(caps@) =~= Seq::<RecommendedCapabilityView>::empty());
            }
            caps
        },
    }
}

} // verus!
