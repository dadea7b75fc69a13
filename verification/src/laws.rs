use crate::resolution::{
    builtin_entry, effective_capabilities_spec, has_named, keys_spelling, named_entry, resolved_entry,
    wildcard_launcher,
};
use crate::schema::{
    capabilities_view, RecommendedCapability, RecommendedCapabilityView, RecommendedConfiguration,
    RecommendedModel, RecommendedModelSet, StringMatch,
};
use crate::builtin::parsed_configurations;
use crate::string_match::{regex_compiles, regex_finds, string_match_spec};
use vstd::prelude::*;

verus! {

/// The built-in list is searched in order: the entry chosen for a launcher
/// is the first one that names it.
pub proof fn first_builtin_entry_wins(
    builtin: Seq<RecommendedConfiguration>,
    key: Seq<char>,
    i: int,
)
    requires
        0 <= i < builtin.len(),
        builtin[i].launcher@ == key,
        forall|j: int| 0 <= j < i ==> #[trigger] builtin[j].launcher@ != key,
    ensures
        builtin_entry(builtin, key) == Some(builtin[i]),
    decreases i,
{
    if i > 0 {
        assert forall|j: int| 0 <= j < i - 1 implies #[trigger] builtin.drop_first()[j].launcher@
            != key by {
            assert(builtin.drop_first()[j] == builtin[j + 1]);
        }
        first_builtin_entry_wins(builtin.drop_first(), key, i - 1);
    }
}

/// A launcher that no built-in entry names has no built-in entry.
pub proof fn unnamed_launcher_has_no_builtin_entry(
    builtin: Seq<RecommendedConfiguration>,
    key: Seq<char>,
)
    requires
        forall|j: int| 0 <= j < builtin.len() ==> #[trigger] builtin[j].launcher@ != key,
    ensures
        builtin_entry(builtin, key) is None,
    decreases builtin.len(),
{
    if builtin.len() > 0 {
        assert(builtin[0].launcher@ != key);
        assert forall|j: int| 0 <= j < builtin.len() - 1 implies #[trigger] builtin.drop_first()[
            j].launcher@ != key by {
            assert(builtin.drop_first()[j] == builtin[j + 1]);
        }
        unnamed_launcher_has_no_builtin_entry(builtin.drop_first(), key);
    }
}

/// A user-authored entry for a launcher replaces the built-in one whole: the
/// launcher's capabilities are exactly the user entry's, whatever the
/// built-in list holds.
pub proof fn user_entry_replaces_builtin(
    launcher: Seq<char>,
    builtin: Seq<RecommendedConfiguration>,
    other_builtin: Seq<RecommendedConfiguration>,
    user: Map<String, RecommendedConfiguration>,
)
    requires
        has_named(user, launcher),
    ensures
        effective_capabilities_spec(launcher, builtin, user) == named_entry(
            user,
            launcher,
        )->0@.capabilities,
        effective_capabilities_spec(launcher, builtin, user) == effective_capabilities_spec(
            launcher,
            other_builtin,
            user,
        ),
{
}

/// A launcher's own entry, user- or built-in-authored, is authoritative and
/// complete: its capabilities are exactly that entry's, and nothing of the
/// wildcard entry is blended in.
pub proof fn own_entry_excludes_wildcard(
    launcher: Seq<char>,
    builtin: Seq<RecommendedConfiguration>,
    user: Map<String, RecommendedConfiguration>,
)
    requires
        resolved_entry(launcher, builtin, user) is Some,
    ensures
        effective_capabilities_spec(launcher, builtin, user) == resolved_entry(
            launcher,
            builtin,
            user,
        )->0@.capabilities,
{
}

/// A launcher without an entry of its own gets the wildcard entry's
/// capabilities, and none at all when there is no wildcard entry either.
pub proof fn wildcard_applies_without_own_entry(
    launcher: Seq<char>,
    builtin: Seq<RecommendedConfiguration>,
    user: Map<String, RecommendedConfiguration>,
)
    requires
        !has_named(user, launcher),
        forall|j: int| 0 <= j < builtin.len() ==> #[trigger] builtin[j].launcher@ != launcher,
    ensures
        effective_capabilities_spec(launcher, builtin, user) == match resolved_entry(
            wildcard_launcher(),
            builtin,
            user,
        ) {
            Some(w) => w@.capabilities,
            None => Seq::empty(),
        },
{
    unnamed_launcher_has_no_builtin_entry(builtin, launcher);
}

/// With no entry for the launcher and no wildcard entry, the effective
/// capability list is empty.
pub proof fn no_entries_no_capabilities(
    launcher: Seq<char>,
    builtin: Seq<RecommendedConfiguration>,
    user: Map<String, RecommendedConfiguration>,
)
    requires
        !has_named(user, launcher),
        !has_named(user, wildcard_launcher()),
        forall|j: int|
            0 <= j < builtin.len() ==> #[trigger] builtin[j].launcher@ != launcher
                && builtin[j].launcher@ != wildcard_launcher(),
    ensures
        effective_capabilities_spec(launcher, builtin, user) == Seq::<RecommendedCapabilityView>::empty(),
{
    unnamed_launcher_has_no_builtin_entry(builtin, launcher);
    unnamed_launcher_has_no_builtin_entry(builtin, wildcard_launcher());
}

/// Inserting, anywhere in the built-in list, an entry for another launcher
/// leaves the built-in entry found for `key` unchanged.
pub proof fn builtin_entry_ignores_other_launchers(
    builtin: Seq<RecommendedConfiguration>,
    key: Seq<char>,
    i: int,
    other: RecommendedConfiguration,
)
    requires
        0 <= i <= builtin.len(),
        other.launcher@ != key,
    ensures
        builtin_entry(builtin.insert(i, other), key) == builtin_entry(builtin, key),
    decreases i,
{
    let grown = builtin.insert(i, other);
    if i == 0 {
        assert(grown[0] == other);
        assert(grown.drop_first() =~= builtin);
    } else {
        assert(grown[0] == builtin[0]);
        if builtin[0].launcher@ != key {
            builtin_entry_ignores_other_launchers(builtin.drop_first(), key, i - 1, other);
            assert(grown.drop_first() =~= builtin.drop_first().insert(i - 1, other));
        }
    }
}

/// Adding a user entry under a key that spells neither `name` nor anything
/// equal to it leaves the user entry found for `name` unchanged.
pub proof fn named_entry_ignores_other_keys(
    user: Map<String, RecommendedConfiguration>,
    name: Seq<char>,
    key: String,
    entry: RecommendedConfiguration,
)
    requires
        key@ != name,
    ensures
        has_named(user.insert(key, entry), name) == has_named(user, name),
        named_entry(user.insert(key, entry), name) == named_entry(user, name),
{
    let grown = user.insert(key, entry);
    assert(keys_spelling(grown, name) =~= keys_spelling(user, name));
    if has_named(user, name) {
        let k = choose|k: String| #[trigger] user.contains_key(k) && k@ == name;
        assert(grown.contains_key(k) && k@ == name);
    }
    if has_named(grown, name) {
        let k = choose|k: String| #[trigger] grown.contains_key(k) && k@ == name;
        assert(user.contains_key(k) && k@ == name);
        assert(keys_spelling(user, name).contains(k));
        let chosen = keys_spelling(user, name).choose();
        assert(keys_spelling(user, name).contains(chosen));
        assert(chosen != key);
    }
}

/// Entries for launchers other than the one asked about and the wildcard
/// have no bearing on its effective capabilities, whether they are added to
/// the built-in list or to the user's entries.
pub proof fn other_launchers_are_irrelevant(
    launcher: Seq<char>,
    builtin: Seq<RecommendedConfiguration>,
    user: Map<String, RecommendedConfiguration>,
    i: int,
    builtin_extra: RecommendedConfiguration,
    user_key: String,
    user_extra: RecommendedConfiguration,
)
    requires
        0 <= i <= builtin.len(),
        builtin_extra.launcher@ != launcher,
        builtin_extra.launcher@ != wildcard_launcher(),
        user_key@ != launcher,
        user_key@ != wildcard_launcher(),
    ensures
        effective_capabilities_spec(launcher, builtin.insert(i, builtin_extra), user)
            == effective_capabilities_spec(launcher, builtin, user),
        effective_capabilities_spec(launcher, builtin, user.insert(user_key, user_extra))
            == effective_capabilities_spec(launcher, builtin, user),
{
    builtin_entry_ignores_other_launchers(builtin, launcher, i, builtin_extra);
    builtin_entry_ignores_other_launchers(builtin, wildcard_launcher(), i, builtin_extra);
    named_entry_ignores_other_keys(user, launcher, user_key, user_extra);
    named_entry_ignores_other_keys(user, wildcard_launcher(), user_key, user_extra);
}

/// An exact pattern is taken literally: it matches a string exactly when
/// the two hold the same characters, so no character of it (such as ".")
/// acts as a wildcard.
pub proof fn exact_match_is_literal(pattern: String, s: Seq<char>)
    ensures
        string_match_spec(StringMatch::Exact(pattern), s) <==> pattern@ == s,
{
}

/// A regular expression that does not compile matches nothing.
pub proof fn invalid_regex_matches_nothing(pattern: String, s: Seq<char>)
    requires
        !regex_compiles(pattern@),
    ensures
        !string_match_spec(StringMatch::Regex { regex: pattern }, s),
{
}

/// When exactly one user key spells the launcher, the launcher's entry is
/// the value under that key, and its effective capabilities are exactly that
/// entry's capabilities, whatever the built-in list holds.
pub proof fn user_key_decides(
    launcher: Seq<char>,
    builtin: Seq<RecommendedConfiguration>,
    user: Map<String, RecommendedConfiguration>,
    key: String,
)
    requires
        user.contains_key(key),
        key@ == launcher,
        forall|k: String| #[trigger] user.contains_key(k) && k@ == launcher ==> k == key,
    ensures
        resolved_entry(launcher, builtin, user) == Some(user[key]),
        effective_capabilities_spec(launcher, builtin, user) == user[key]@.capabilities,
{
    assert(has_named(user, launcher));
    assert(keys_spelling(user, launcher).contains(key));
    let chosen = keys_spelling(user, launcher).choose();
    assert(keys_spelling(user, launcher).contains(chosen));
    assert(user.contains_key(chosen) && chosen@ == launcher);
}

/// Without a user entry for the launcher, the first built-in entry that
/// names it is the launcher's entry, whatever it holds (any number of
/// capabilities, none included), and its capabilities are exactly the
/// launcher's effective capabilities: the wildcard is not consulted.
pub proof fn first_builtin_entry_decides_without_user_entry(
    launcher: Seq<char>,
    builtin: Seq<RecommendedConfiguration>,
    user: Map<String, RecommendedConfiguration>,
    i: int,
)
    requires
        forall|k: String| #[trigger] user.contains_key(k) ==> k@ != launcher,
        0 <= i < builtin.len(),
        builtin[i].launcher@ == launcher,
        forall|j: int| 0 <= j < i ==> #[trigger] builtin[j].launcher@ != launcher,
    ensures
        resolved_entry(launcher, builtin, user) == Some(builtin[i]),
        effective_capabilities_spec(launcher, builtin, user) == builtin[i]@.capabilities,
{
    first_builtin_entry_wins(builtin, launcher, i);
}

/// A launcher with no entry of its own, user or built-in, whose wildcard
/// ("*") entry is a user entry, gets exactly that entry's capabilities.
pub proof fn user_wildcard_applies_without_own_entry(
    launcher: Seq<char>,
    builtin: Seq<RecommendedConfiguration>,
    user: Map<String, RecommendedConfiguration>,
    key: String,
)
    requires
        forall|k: String| #[trigger] user.contains_key(k) ==> k@ != launcher,
        forall|j: int| 0 <= j < builtin.len() ==> #[trigger] builtin[j].launcher@ != launcher,
        user.contains_key(key),
        key@ == seq!['*'],
        forall|k: String| #[trigger] user.contains_key(k) && k@ == seq!['*'] ==> k == key,
    ensures
        resolved_entry(launcher, builtin, user) is None,
        effective_capabilities_spec(launcher, builtin, user) == user[key]@.capabilities,
{
    unnamed_launcher_has_no_builtin_entry(builtin, launcher);
    assert(wildcard_launcher() =~= seq!['*']);
    user_key_decides(seq!['*'], builtin, user, key);
}

/// A launcher with no entry of its own, and no user wildcard entry, gets
/// exactly the capabilities of the first built-in wildcard ("*") entry.
pub proof fn builtin_wildcard_applies_without_own_entry(
    launcher: Seq<char>,
    builtin: Seq<RecommendedConfiguration>,
    user: Map<String, RecommendedConfiguration>,
    i: int,
)
    requires
        forall|k: String| #[trigger] user.contains_key(k) ==> k@ != launcher && k@ != seq!['*'],
        forall|j: int| 0 <= j < builtin.len() ==> #[trigger] builtin[j].launcher@ != launcher,
        0 <= i < builtin.len(),
        builtin[i].launcher@ == seq!['*'],
        forall|j: int| 0 <= j < i ==> #[trigger] builtin[j].launcher@ != seq!['*'],
    ensures
        resolved_entry(launcher, builtin, user) is None,
        effective_capabilities_spec(launcher, builtin, user) == builtin[i]@.capabilities,
{
    unnamed_launcher_has_no_builtin_entry(builtin, launcher);
    assert(wildcard_launcher() =~= seq!['*']);
    first_builtin_entry_decides_without_user_entry(seq!['*'], builtin, user, i);
}

/// With no entry anywhere for the launcher nor for the wildcard ("*"), the
/// launcher has no entry and no capabilities.
pub proof fn nothing_applies_without_any_entry(
    launcher: Seq<char>,
    builtin: Seq<RecommendedConfiguration>,
    user: Map<String, RecommendedConfiguration>,
)
    requires
        forall|k: String| #[trigger] user.contains_key(k) ==> k@ != launcher && k@ != seq!['*'],
        forall|j: int|
            0 <= j < builtin.len() ==> #[trigger] builtin[j].launcher@ != launcher
                && builtin[j].launcher@ != seq!['*'],
    ensures
        resolved_entry(launcher, builtin, user) is None,
        effective_capabilities_spec(launcher, builtin, user).len() == 0,
{
    assert(wildcard_launcher() =~= seq!['*']);
    unnamed_launcher_has_no_builtin_entry(builtin, launcher);
    unnamed_launcher_has_no_builtin_entry(builtin, seq!['*']);
}

/// A regular expression matches a string exactly when it compiles and finds
/// a match somewhere in the whole string.
pub proof fn regex_match_searches_whole_haystack(pattern: String, s: Seq<char>)
    ensures
        string_match_spec(StringMatch::Regex { regex: pattern }, s) == (regex_compiles(pattern@)
            && regex_finds(pattern@, s)),
{
}

/// With no sources there are no built-in entries.
pub proof fn no_sources_no_entries()
    ensures
        parsed_configurations(Seq::empty()).len() == 0,
{
}

/// A source that parsed contributes its configuration, whatever it holds,
/// after the entries of the sources before it.
pub proof fn parsed_source_is_kept(
    parsed: Seq<Option<RecommendedConfiguration>>,
    c: RecommendedConfiguration,
)
    ensures
        parsed_configurations(parsed.push(Some(c))) == parsed_configurations(parsed).push(c),
{
    assert(parsed.push(Some(c)).drop_last() =~= parsed);
}

/// A source that failed to parse contributes nothing.
pub proof fn failed_source_is_skipped(parsed: Seq<Option<RecommendedConfiguration>>)
    ensures
        parsed_configurations(parsed.push(None)) == parsed_configurations(parsed),
{
    assert(parsed.push(None).drop_last() =~= parsed);
}

/// When every source parsed, the built-in list is exactly the parsed
/// configurations, one per source, in source order.
pub proof fn all_parsed_sources_are_kept(configs: Seq<RecommendedConfiguration>)
    ensures
        parsed_configurations(configs.map_values(|c: RecommendedConfiguration| Some(c)))
            == configs,
    decreases configs.len(),
{
    let wrapped = configs.map_values(|c: RecommendedConfiguration| Some(c));
    if configs.len() > 0 {
        let shorter = configs.drop_last();
        all_parsed_sources_are_kept(shorter);
        assert(wrapped.drop_last() =~= shorter.map_values(|c: RecommendedConfiguration| Some(c)));
        assert(wrapped.last() == Some(configs.last()));
        assert(shorter.push(configs.last()) =~= configs);
    } else {
        assert(wrapped.len() == 0);
        assert(configs =~= Seq::<RecommendedConfiguration>::empty());
    }
}

/// Equal abstract values of candidate models mean equal patterns and equal
/// allow-lists.
pub proof fn model_view_determines_contents(a: RecommendedModel, b: RecommendedModel)
    requires
        a@ == b@,
    ensures
        a.model == b.model,
        a.variant_formats@ == b.variant_formats@,
        a.variant_precisions@ == b.variant_precisions@,
{
}

/// Equal abstract values of model sets mean equal context floors and, in
/// order, candidates with equal abstract values.
pub proof fn model_set_view_determines_contents(a: RecommendedModelSet, b: RecommendedModelSet)
    requires
        a@ == b@,
    ensures
        a.min_context_length == b.min_context_length,
        a.models@.len() == b.models@.len(),
        forall|i: int| 0 <= i < a.models@.len() ==> #[trigger] a.models@[i]@ == b.models@[i]@,
{
    assert(a@.models.len() == a.models@.len());
    assert(b@.models.len() == b.models@.len());
    assert forall|i: int| 0 <= i < a.models@.len() implies #[trigger] a.models@[i]@
        == b.models@[i]@ by {
        assert(a@.models[i] == a.models@[i]@);
        assert(b@.models[i] == b.models@[i]@);
    }
}

/// Equal abstract values of capabilities mean equal names, the same slot
/// keys, and slots whose model sets have equal abstract values.
pub proof fn capability_view_determines_contents(a: RecommendedCapability, b: RecommendedCapability)
    requires
        a@ == b@,
    ensures
        a.capability@ == b.capability@,
        a.models@.dom() == b.models@.dom(),
        forall|k: String| #[trigger] a.models@.contains_key(k) ==> a.models@[k]@ == b.models@[k]@,
{
    assert(a.models@.dom() =~= a@.models.dom());
    assert(b.models@.dom() =~= b@.models.dom());
    assert forall|k: String| #[trigger] a.models@.contains_key(k) implies a.models@[k]@
        == b.models@[k]@ by {
        assert(a@.models.contains_key(k));
        assert(a@.models[k] == a.models@[k]@);
        assert(b.models@.contains_key(k));
        assert(b@.models[k] == b.models@[k]@);
    }
}

/// Equal abstract capability lists have the same length and, position by
/// position, capabilities with equal abstract values.
pub proof fn capability_list_view_determines_contents(
    a: Seq<RecommendedCapability>,
    b: Seq<RecommendedCapability>,
)
    requires
        capabilities_view(a) == capabilities_view(b),
    ensures
        a.len() == b.len(),
        forall|i: int| 0 <= i < a.len() ==> #[trigger] a[i]@ == b[i]@,
{
    assert(capabilities_view(a).len() == a.len());
    assert(capabilities_view(b).len() == b.len());
    assert forall|i: int| 0 <= i < a.len() implies #[trigger] a[i]@ == b[i]@ by {
        assert(capabilities_view(a)[i] == a[i]@);
        assert(capabilities_view(b)[i] == b[i]@);
    }
}

/// Equal abstract values of configurations mean equal launcher keys and
/// equal abstract capability lists.
pub proof fn configuration_view_determines_contents(
    a: RecommendedConfiguration,
    b: RecommendedConfiguration,
)
    requires
        a@ == b@,
    ensures
        a.launcher@ == b.launcher@,
        capabilities_view(a.capabilities@) == capabilities_view(b.capabilities@),
{
}

} // verus!
