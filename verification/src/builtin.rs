use crate::schema::RecommendedConfiguration;
use vstd::prelude::*;

verus! {

/// The configurations among `parsed` that parsed, in their original order;
/// a source that failed to parse (`None`) contributes nothing.
pub open spec fn parsed_configurations(parsed: Seq<Option<RecommendedConfiguration>>) -> Seq<
    RecommendedConfiguration,
>
    decreases parsed.len(),
{
    if parsed.len() == 0 {
        Seq::empty()
    } else {
        let earlier = parsed_configurations(parsed.drop_last());
        match parsed.last() {
            Some(c) => earlier.push(c),
            None => earlier,
        }
    }
}

/// The built-in configuration list from the parse result of each embedded
/// source, one per source in source order: every source that parsed becomes
/// one entry, and a source that failed to parse is skipped.
pub fn builtin_from_parsed(parsed: Vec<Option<RecommendedConfiguration>>) -> (res: Vec<
    RecommendedConfiguration,
>)
    ensures
        res@ == parsed_configurations(parsed@),
{
    let ghost all = parsed@;
    let mut kept: Vec<RecommendedConfiguration> = Vec::new();
    for item in it: parsed.into_iter()
        invariant
            it.seq() == all,
            kept@ == parsed_configurations(all.take(it.index() as int)),
    {
        proof {
            assert(all.take(it.index() + 1).drop_last() =~= all.take(it.index() as int));
            assert(all.take(it.index() + 1).last() == item);
        }
        match item {
            Some(c) => kept.push(c),
            None => {},
        }
    }
    proof {
        assert(all.take(all.len() as int) =~= all);
    }
    kept
}

} // verus!
