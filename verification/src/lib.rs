//! Generate a colorful palette of labels for an issue tracker.
//!
//! The library turns a configuration of label groups into a concrete list of named, colored
//! labels. Every group chooses a palette; its labels are sorted by name and receive the colors of
//! that palette in order.
//!
//! A configuration is read from a TOML document ([`config::v1::ConfigV1::from_toml`]), turned
//! into labels ([`Labelflair::generate`]), and the labels are written as YAML
//! ([`yaml::to_yaml`]). The functions of the library are verified against the contracts they
//! state. The documents themselves are parsed and written by the `toml` and `serde_yaml_ng`
//! crates, which are not verified; what the library believes of them is said in [`document`]
//! and in [`yaml`].

use vstd::prelude::*;

use crate::config::v1::ConfigV1;
use crate::label::{Label, LabelView};

pub mod colors;
pub mod config;
pub mod document;
pub mod error;
pub mod label;
pub mod sorting;
pub mod text;
pub mod yaml;

verus! {

/// The entry point of the library: turns a configuration into the list of labels it stands
/// for.
#[derive(Copy, Clone, Eq, PartialEq, Ord, PartialOrd, Hash, Debug, Default)]
pub struct Labelflair {}

impl Labelflair {
    /// Generates the list of labels of a configuration
    ///
    /// The list starts with the labels that the configuration gives one by one, unchanged
    /// and in their order. The labels of the groups follow, group by group in the order of
    /// the configuration, each group expanded as [`Group::expand`](config::v1::Group::expand)
    /// says. Labels with the same name are all kept.
    ///
    /// Given this configuration:
    ///
    /// ```toml
    /// [[group]]
    /// prefix = "C-"
    /// colors = { tailwind = "red" }
    /// labels = ["bug", "feature"]
    /// ```
    ///
    /// It will generate the following labels:
    ///
    /// ```yaml
    /// - name: C-bug
    ///   color: '#ef4444'
    /// - name: C-feature
    ///   color: '#f87171'
    /// ```
    pub fn generate(config: &ConfigV1) -> (labels: Vec<Label>)
        ensures
            labels.deep_view() == config@.generated(),
    {
        let given = config.labels();
        let groups = config.groups();
        let mut labels: Vec<Label> = Vec::new();
        for i in 0..given.len()
            invariant
                labels@.len() == i,
                forall|k: int| 0 <= k < i ==> (#[trigger] labels@[k])@ == given@[k]@,
        {
            labels.push(given[i].clone());
        }
        assert(labels.deep_view() =~= config@.labels);
        let ghost expansions = config@.expansions();
        assert(expansions.take(0).flatten_alt() =~= Seq::<LabelView>::empty());
        for i in 0..groups.len()
            invariant
                given.deep_view() == config@.labels,
                groups.deep_view() == config@.groups,
                expansions == config@.expansions(),
                labels.deep_view() == config@.labels + expansions.take(i as int).flatten_alt(),
        {
            let ghost before = labels.deep_view();
            let mut expanded = groups[i].expand();
            let ghost added = expanded.deep_view();
            labels.append(&mut expanded);
            proof {
                assert(added == expansions[i as int]);
                assert(expansions.take(i + 1).drop_last() =~= expansions.take(i as int));
                assert(labels.deep_view() =~= before + added);
            }
        }
        proof {
            assert(expansions.take(groups@.len() as int) =~= expansions);
            expansions.lemma_flatten_and_flatten_alt_are_equivalent();
        }
        labels
    }
}

} // verus!
