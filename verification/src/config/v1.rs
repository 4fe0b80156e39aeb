//! Version 1 of the configuration.
//!
//! A configuration holds the labels that are given one by one, each with its color, and the
//! groups of labels that get their colors from a generator.

use vstd::prelude::*;

use crate::document::{lemma_read_each_fails, read_each, toml_document, Node, NodeView};
use crate::error::{outcome, ConfigurationError, ConfigurationErrorView};
use crate::label::{Label, LabelView};

pub use self::group::{Group, GroupBuilder, GroupName, GroupView, Prefix};
pub use self::label_variant::{LabelVariant, LabelVariantView};

pub mod group;
pub mod label_variant;

verus! {

/// What a [`ConfigV1`] holds, as plain text.
pub struct ConfigView {
    /// The labels that are given one by one.
    pub labels: Seq<LabelView>,
    /// The groups of labels.
    pub groups: Seq<GroupView>,
}

impl ConfigView {
    /// What becomes of a document that is given as a configuration.
    ///
    /// The document has to be a table. The labels that are given one by one stand in a list
    /// under `label`, the groups in a list under `group`. The document may go without
    /// either: then the configuration has no such labels, or no groups. Each label and each
    /// group has to pass as one. What else the document holds is passed over.
    pub open spec fn read(node: NodeView) -> Result<ConfigView, ConfigurationErrorView> {
        let given = node.optional_list_at("label"@);
        let grouped = node.optional_list_at("group"@);
        if !(node is Table) {
            Err(ConfigurationErrorView::Unexpected("document"@))
        } else if given is Err {
            Err(given->Err_0)
        } else if read_each(given->Ok_0, |label: NodeView| LabelView::read(label)) is Err {
            Err(read_each(given->Ok_0, |label: NodeView| LabelView::read(label))->Err_0)
        } else if grouped is Err {
            Err(grouped->Err_0)
        } else {
            match read_each(grouped->Ok_0, |group: NodeView| GroupView::read(group)) {
                Ok(groups) => Ok(
                    ConfigView {
                        labels: read_each(
                            given->Ok_0,
                            |label: NodeView| LabelView::read(label),
                        )->Ok_0,
                        groups,
                    },
                ),
                Err(error) => Err(error),
            }
        }
    }

    /// The labels that each group expands to, group by group.
    pub open spec fn expansions(self) -> Seq<Seq<LabelView>> {
        self.groups.map_values(|group: GroupView| group.expansion())
    }

    /// The labels that the configuration stands for: first the labels that are given one by
    /// one, as they are and in their order, then the labels that the groups expand to, in
    /// the order of the groups. Nothing is left out, also where two labels have one name.
    pub open spec fn generated(self) -> Seq<LabelView> {
        self.labels + self.expansions().flatten()
    }
}

impl ConfigView {
    /// A configuration without groups stands for the labels that it gives one by one, and
    /// for no others.
    pub proof fn lemma_generated_without_groups(self)
        requires
            self.groups.len() == 0,
        ensures
            self.generated() == self.labels,
    {
        assert(self.expansions() =~= Seq::<Seq<LabelView>>::empty());
        assert(self.generated() =~= self.labels);
    }

    /// A group that is added behind the groups of a configuration adds the labels that it
    /// expands to behind the labels that the configuration stood for, and changes none of
    /// them.
    pub proof fn lemma_generated_with_group(self, group: GroupView)
        ensures
            (ConfigView { labels: self.labels, groups: self.groups.push(group) }).generated()
                == self.generated() + group.expansion(),
    {
        let grown = ConfigView { labels: self.labels, groups: self.groups.push(group) };
        assert(grown.expansions() =~= self.expansions().push(group.expansion()));
        self.expansions().lemma_flatten_push(group.expansion());
        assert(grown.generated() =~= self.generated() + group.expansion());
    }
}

/// Version 1 of the configuration: a list of labels and a list of groups of labels.
#[derive(Eq, PartialEq, Hash, Debug)]
pub struct ConfigV1 {
    labels: Vec<Label>,
    groups: Vec<Group>,
}

impl DeepView for ConfigV1 {
    type V = ConfigView;

    closed spec fn deep_view(&self) -> ConfigView {
        ConfigView { labels: self.labels.deep_view(), groups: self.groups.deep_view() }
    }
}

impl View for ConfigV1 {
    type V = ConfigView;

    open spec fn view(&self) -> ConfigView {
        self.deep_view()
    }
}

impl ConfigV1 {
    /// Makes the labels of a configuration of the items of a list.
    fn labels_from(items: &Vec<Node>) -> (result: Result<Vec<Label>, ConfigurationError>)
        ensures
            outcome(result) == read_each(
                items.deep_view(),
                |label: NodeView| LabelView::read(label),
            ),
    {
        let ghost all = items.deep_view();
        let ghost read = |label: NodeView| LabelView::read(label);
        let mut labels: Vec<Label> = Vec::new();
        assert(all.take(0) =~= Seq::<NodeView>::empty());
        assert(labels.deep_view() =~= Seq::<LabelView>::empty());
        for i in 0..items.len()
            invariant
                all == items.deep_view(),
                read == (|label: NodeView| LabelView::read(label)),
                read_each(all.take(i as int), read) == Ok::<Seq<LabelView>, ConfigurationErrorView>(
                    labels.deep_view(),
                ),
        {
            let ghost before = labels.deep_view();
            assert(all.take(i + 1).drop_last() =~= all.take(i as int));
            assert(all.take(i + 1).last() == items@[i as int]@);
            let label = match Label::from_node(&items[i]) {
                Ok(label) => label,
                Err(error) => {
                    proof {
                        lemma_read_each_fails(all, read, i as int);
                    }
                    return Err(error);
                },
            };
            labels.push(label);
            assert(labels.deep_view() =~= before.push(label@));
        }
        assert(all.take(items@.len() as int) =~= all);
        Ok(labels)
    }

    /// Makes the groups of a configuration of the items of a list.
    fn groups_from(items: &Vec<Node>) -> (result: Result<Vec<Group>, ConfigurationError>)
        ensures
            outcome(result) == read_each(
                items.deep_view(),
                |group: NodeView| GroupView::read(group),
            ),
    {
        let ghost all = items.deep_view();
        let ghost read = |group: NodeView| GroupView::read(group);
        let mut groups: Vec<Group> = Vec::new();
        assert(all.take(0) =~= Seq::<NodeView>::empty());
        assert(groups.deep_view() =~= Seq::<GroupView>::empty());
        for i in 0..items.len()
            invariant
                all == items.deep_view(),
                read == (|group: NodeView| GroupView::read(group)),
                read_each(all.take(i as int), read) == Ok::<Seq<GroupView>, ConfigurationErrorView>(
                    groups.deep_view(),
                ),
        {
            let ghost before = groups.deep_view();
            assert(all.take(i + 1).drop_last() =~= all.take(i as int));
            assert(all.take(i + 1).last() == items@[i as int]@);
            let group = match Group::from_node(&items[i]) {
                Ok(group) => group,
                Err(error) => {
                    proof {
                        lemma_read_each_fails(all, read, i as int);
                    }
                    return Err(error);
                },
            };
            groups.push(group);
            assert(groups.deep_view() =~= before.push(group@));
        }
        assert(all.take(items@.len() as int) =~= all);
        Ok(groups)
    }

    /// Makes a configuration of a document, as [`ConfigView::read`] says.
    pub fn from_node(node: &Node) -> (result: Result<ConfigV1, ConfigurationError>)
        ensures
            outcome(result) == ConfigView::read(node@),
    {
        if !node.is_table() {
            return Err(ConfigurationError::Unexpected("document".to_owned()));
        }
        let labels = match node.optional_list_at("label")? {
            Some(items) => Self::labels_from(items)?,
            None => {
                let none: Vec<Label> = Vec::new();
                assert(none.deep_view() =~= Seq::<LabelView>::empty());
                none
            },
        };
        let groups = match node.optional_list_at("group")? {
            Some(items) => Self::groups_from(items)?,
            None => {
                let none: Vec<Group> = Vec::new();
                assert(none.deep_view() =~= Seq::<GroupView>::empty());
                none
            },
        };
        Ok(ConfigV1 { labels, groups })
    }

    /// Reads a configuration from a TOML document.
    ///
    /// A text that the parser does not take for a document is rejected with what the parser
    /// said about it. Of a document, the configuration is made as [`ConfigView::read`] says.
    pub fn from_toml(text: &str) -> (result: Result<ConfigV1, ConfigurationError>)
        ensures
            match toml_document(text@) {
                Some(document) => outcome(result) == ConfigView::read(document),
                None => result matches Err(error) && error is Syntax,
            },
    {
        let document = Node::from_toml(text)?;
        Self::from_node(&document)
    }

    /// Starts to build a configuration. The labels and the groups have to be given before
    /// the configuration can be built.
    pub fn builder() -> (builder: ConfigV1Builder<(), ()>)
        ensures
            builder.fields() == ((), ()),
    {
        ConfigV1Builder { labels: (), groups: () }
    }

    /// The labels that are given one by one.
    pub fn labels(&self) -> (labels: &Vec<Label>)
        ensures
            labels.deep_view() == self@.labels,
    {
        &self.labels
    }

    /// The groups of labels.
    pub fn groups(&self) -> (groups: &Vec<Group>)
        ensures
            groups.deep_view() == self@.groups,
    {
        &self.groups
    }
}

impl Clone for ConfigV1 {
    fn clone(&self) -> (copy: Self)
        ensures
            copy@ == self@,
    {
        let mut labels: Vec<Label> = Vec::new();
        for i in 0..self.labels.len()
            invariant
                labels@.len() == i,
                forall|k: int| 0 <= k < i ==> (#[trigger] labels@[k])@ == self.labels@[k]@,
        {
            labels.push(self.labels[i].clone());
        }
        let mut groups: Vec<Group> = Vec::new();
        for i in 0..self.groups.len()
            invariant
                groups@.len() == i,
                forall|k: int| 0 <= k < i ==> (#[trigger] groups@[k])@ == self.groups@[k]@,
        {
            groups.push(self.groups[i].clone());
        }
        assert(labels.deep_view() =~= self.labels.deep_view());
        assert(groups.deep_view() =~= self.groups.deep_view());
        ConfigV1 { labels, groups }
    }
}

/// Builds a [`ConfigV1`] field by field.
///
/// The type parameters record which fields have been given: `L` is `Vec<Label>` once the
/// labels are set, and `G` is `Vec<Group>` once the groups are set. Only a builder that has
/// both can build.
pub struct ConfigV1Builder<L, G> {
    labels: L,
    groups: G,
}

impl<L, G> ConfigV1Builder<L, G> {
    /// The labels and the groups that the builder holds.
    pub closed spec fn fields(self) -> (L, G) {
        (self.labels, self.groups)
    }
}

impl<G> ConfigV1Builder<(), G> {
    /// Sets the labels that are given one by one.
    pub fn labels(self, labels: Vec<Label>) -> (builder: ConfigV1Builder<Vec<Label>, G>)
        ensures
            builder.fields() == (labels, self.fields().1),
    {
        ConfigV1Builder { labels, groups: self.groups }
    }
}

impl<L> ConfigV1Builder<L, ()> {
    /// Sets the groups of labels.
    pub fn groups(self, groups: Vec<Group>) -> (builder: ConfigV1Builder<L, Vec<Group>>)
        ensures
            builder.fields() == (self.fields().0, groups),
    {
        ConfigV1Builder { labels: self.labels, groups }
    }
}

impl ConfigV1Builder<Vec<Label>, Vec<Group>> {
    /// Builds the configuration from the fields that were given.
    pub fn build(self) -> (config: ConfigV1)
        ensures
            config@ == (ConfigView {
                labels: self.fields().0.deep_view(),
                groups: self.fields().1.deep_view(),
            }),
    {
        ConfigV1 { labels: self.labels, groups: self.groups }
    }
}

} // verus!
