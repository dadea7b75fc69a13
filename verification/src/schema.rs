use std::collections::HashMap;
use vstd::prelude::*;

verus! {

/// Exact match by default; an explicit regular-expression form so that a
/// plain version-like string (e.g. "4.2") is never read as a pattern.
#[derive(Debug, PartialEq, Eq)]
pub enum StringMatch {
    Exact(String),
    Regex { regex: String },
}

/// One candidate model and which of its variants are acceptable.
///
/// A variant is admitted when it matches `variant_formats` (or that list is
/// empty) and matches `variant_precisions` (or that list is empty): AND
/// between the two fields, OR within each.
#[derive(Debug)]
pub struct RecommendedModel {
    pub model: StringMatch,
    /// Per-model format allow-list; empty means any format.
    pub variant_formats: Vec<StringMatch>,
    /// Per-model precision allow-list; empty means any variant.
    pub variant_precisions: Vec<StringMatch>,
}

/// A slot's requirements plus its ordered list of admissible candidates.
#[derive(Debug)]
pub struct RecommendedModelSet {
    /// Minimum useful achieved context length for this slot.
    pub min_context_length: Option<u64>,
    /// Ordered by preference: callers try candidates in order and take the
    /// first that resolves.
    pub models: Vec<RecommendedModel>,
}

/// One capability a launcher can auto-enable, and how to fill each of its
/// model dependency slots (keyed by the slot's config key, e.g. "model_id").
#[derive(Debug)]
pub struct RecommendedCapability {
    pub capability: String,
    pub models: HashMap<String, RecommendedModelSet>,
}

/// One launcher's curated auto-setup recommendation. `launcher` is the
/// launcher's registry key, or the reserved wildcard "*" that applies to any
/// launcher without an entry of its own.
#[derive(Debug)]
pub struct RecommendedConfiguration {
    pub launcher: String,
    pub capabilities: Vec<RecommendedCapability>,
}

/// Abstract value of a `RecommendedModel`: its pattern and its two
/// allow-lists as sequences.
pub struct RecommendedModelView {
    pub model: StringMatch,
    pub variant_formats: Seq<StringMatch>,
    pub variant_precisions: Seq<StringMatch>,
}

impl View for RecommendedModel {
    type V = RecommendedModelView;

    open spec fn view(&self) -> RecommendedModelView {
        RecommendedModelView {
            model: self.model,
            variant_formats: self.variant_formats@,
            variant_precisions: self.variant_precisions@,
        }
    }
}

/// Abstract value of a `RecommendedModelSet`: its context floor and its
/// candidates, in preference order.
pub struct RecommendedModelSetView {
    pub min_context_length: Option<u64>,
    pub models: Seq<RecommendedModelView>,
}

impl View for RecommendedModelSet {
    type V = RecommendedModelSetView;

    open spec fn view(&self) -> RecommendedModelSetView {
        RecommendedModelSetView {
            min_context_length: self.min_context_length,
            models: self.models@.map_values(|m: RecommendedModel| m@),
        }
    }
}

/// Abstract value of a `RecommendedCapability`: its name's characters and,
/// per slot key, the abstract value of the slot's model set.
pub struct RecommendedCapabilityView {
    pub capability: Seq<char>,
    pub models: Map<String, RecommendedModelSetView>,
}

impl View for RecommendedCapability {
    type V = RecommendedCapabilityView;

    open spec fn view(&self) -> RecommendedCapabilityView {
        RecommendedCapabilityView {
            capability: self.capability@,
            models: self.models@.map_values(|s: RecommendedModelSet| s@),
        }
    }
}

/// Abstract value of a `RecommendedConfiguration`: its launcher key's
/// characters and its capabilities' abstract values, in order.
pub struct RecommendedConfigurationView {
    pub launcher: Seq<char>,
    pub capabilities: Seq<RecommendedCapabilityView>,
}

impl View for RecommendedConfiguration {
    type V = RecommendedConfigurationView;

    open spec fn view(&self) -> RecommendedConfigurationView {
        RecommendedConfigurationView {
            launcher: self.launcher@,
            capabilities: capabilities_view(self.capabilities@),
        }
    }
}

/// The abstract capability list of a configuration, element by element.
pub open spec fn capabilities_view(caps: Seq<RecommendedCapability>) -> Seq<
    RecommendedCapabilityView,
> {
    caps.map_values(|c: RecommendedCapability| c@)
}

impl Clone for StringMatch {
    fn clone(&self) -> (res: Self)
        ensures
            res == *self,
    {
        match self {
            StringMatch::Exact(s) => StringMatch::Exact(s.clone()),
            StringMatch::Regex { regex } => StringMatch::Regex { regex: regex.clone() },
        }
    }
}

impl Clone for RecommendedModel {
    fn clone(&self) -> (res: Self)
        ensures
            res@ == self@,
    {
        RecommendedModel {
            model: self.model.clone(),
            variant_formats: self.variant_formats.clone(),
            variant_precisions: self.variant_precisions.clone(),
        }
    }
}

impl Clone for RecommendedModelSet {
    fn clone(&self) -> (res: Self)
        ensures
            res@ == self@,
    {
        let models = self.models.clone();
        proof {
            assert(models@.map_values(|m: RecommendedModel| m@) =~= self.models@.map_values(
                |m: RecommendedModel| m@,
            ));
        }
        RecommendedModelSet { min_context_length: self.min_context_length, models }
    }
}

impl Clone for RecommendedCapability {
    fn clone(&self) -> (res: Self)
        ensures
            res@ == self@,
    {
        RecommendedCapability { capability: self.capability.clone(), models: self.models.clone() }
    }
}

impl Clone for RecommendedConfiguration {
    fn clone(&self) -> (res: Self)
        ensures
            res@ == self@,
    {
        let caps = self.capabilities.clone();
        proof {
            assert(capabilities_view(caps@) =~= capabilities_view(self.capabilities@));
        }
        RecommendedConfiguration { launcher: self.launcher.clone(), capabilities: caps }
    }
}

} // verus!
