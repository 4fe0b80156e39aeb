//! A group of labels in the configuration.
//!
//! The configuration groups labels by their purpose. A group has a prefix, a color generator,
//! and a list of labels. The prefix is put in front of the name of each label, and the
//! generator gives the labels of the group their colors, so that labels that belong together
//! look alike.

use vstd::prelude::*;
use vstd::string::StringExecFns;

use crate::colors::{Colors, ColorsView, Generate};
use crate::config::v1::label_variant::{LabelVariant, LabelVariantView};
use crate::document::{lemma_read_each_fails, read_each, Node, NodeView};
use crate::error::{outcome, ConfigurationError, ConfigurationErrorView};
use crate::label::{Label, LabelName, LabelView};
use crate::sorting::{
    is_stable_order, lemma_stable_order_ascends, lemma_stable_order_exists, sort_order,
    stable_order,
};
use crate::text::{chars_of, lemma_precedes_with_prefix, precedes};

verus! {

/// A name for a group of labels.
#[derive(Eq, PartialEq, Ord, PartialOrd, Hash, Debug)]
pub struct GroupName {
    value: String,
}

impl View for GroupName {
    type V = Seq<char>;

    closed spec fn view(&self) -> Seq<char> {
        self.value@
    }
}

impl DeepView for GroupName {
    type V = Seq<char>;

    open spec fn deep_view(&self) -> Seq<char> {
        self@
    }
}

impl GroupName {
    /// Creates a group name that holds `value`.
    pub fn new(value: &str) -> (name: GroupName)
        ensures
            name@ == value@,
    {
        GroupName { value: value.to_owned() }
    }

    /// The text of the name.
    pub fn get(&self) -> (value: &str)
        ensures
            value@ == self@,
    {
        self.value.as_str()
    }
}

impl Clone for GroupName {
    fn clone(&self) -> (copy: Self)
        ensures
            copy@ == self@,
    {
        GroupName { value: self.value.clone() }
    }
}

/// A prefix for the names of the labels of a group.
#[derive(Eq, PartialEq, Ord, PartialOrd, Hash, Debug)]
pub struct Prefix {
    value: String,
}

impl View for Prefix {
    type V = Seq<char>;

    closed spec fn view(&self) -> Seq<char> {
        self.value@
    }
}

impl DeepView for Prefix {
    type V = Seq<char>;

    open spec fn deep_view(&self) -> Seq<char> {
        self@
    }
}

impl Prefix {
    /// Creates a prefix that holds `value`.
    pub fn new(value: &str) -> (prefix: Prefix)
        ensures
            prefix@ == value@,
    {
        Prefix { value: value.to_owned() }
    }

    /// The text of the prefix.
    pub fn get(&self) -> (value: &str)
        ensures
            value@ == self@,
    {
        self.value.as_str()
    }
}

impl Clone for Prefix {
    fn clone(&self) -> (copy: Self)
        ensures
            copy@ == self@,
    {
        Prefix { value: self.value.clone() }
    }
}

/// What a [`Group`] holds, as plain text.
pub struct GroupView {
    /// The prefix for the names of the labels, if the group has one.
    pub prefix: Option<Seq<char>>,
    /// The color generator of the group.
    pub colors: ColorsView,
    /// The labels of the group, as they are written in the configuration.
    pub labels: Seq<LabelVariantView>,
}

impl GroupView {
    /// What becomes of a value of a document that is given as a group.
    ///
    /// The value has to be a table. It may have a prefix, which has to be a text. It has to
    /// have the choice of a generator under `colors`, and a list of labels under `labels`,
    /// each of which has to pass as what it stands for. What else the table holds is passed
    /// over.
    pub open spec fn read(node: NodeView) -> Result<GroupView, ConfigurationErrorView> {
        let prefix = node.optional_text_at("prefix"@);
        let chosen = node.entry("colors"@);
        let listed = node.list_at("labels"@);
        if !(node is Table) {
            Err(ConfigurationErrorView::Unexpected("group"@))
        } else if prefix is Err {
            Err(prefix->Err_0)
        } else if chosen is None {
            Err(ConfigurationErrorView::Missing("colors"@))
        } else if ColorsView::read(chosen->0) is Err {
            Err(ColorsView::read(chosen->0)->Err_0)
        } else if listed is Err {
            Err(listed->Err_0)
        } else {
            match read_each(listed->Ok_0, |label: NodeView| LabelVariantView::read(label)) {
                Ok(labels) => Ok(
                    GroupView {
                        prefix: prefix->Ok_0,
                        colors: ColorsView::read(chosen->0)->Ok_0,
                        labels,
                    },
                ),
                Err(error) => Err(error),
            }
        }
    }

    /// The names of the labels of the group, in the order of the configuration.
    pub open spec fn names(self) -> Seq<Seq<char>> {
        self.labels.map_values(|label: LabelVariantView| label.name())
    }

    /// The text that is put in front of every name: the prefix, or nothing if the group has
    /// none.
    pub open spec fn prefix_text(self) -> Seq<char> {
        match self.prefix {
            Some(prefix) => prefix,
            None => Seq::empty(),
        }
    }

    /// The labels that the group expands to.
    ///
    /// The labels of the group are sorted by name, in the stable order of their names. The
    /// label that comes `k`-th gets the `k`-th color of the palette that the generator of
    /// the group hands out for as many colors as the group has labels. It keeps its
    /// description, and its name is the prefix followed by the name it was given.
    pub open spec fn expansion(self) -> Seq<LabelView> {
        let order = stable_order(self.names());
        let palette = self.colors.palette(self.labels.len());
        Seq::new(
            self.labels.len(),
            |k: int|
                LabelView {
                    name: self.prefix_text() + self.labels[order[k]].name(),
                    color: palette[k],
                    description: self.labels[order[k]].description(),
                },
        )
    }

    /// The labels that a group expands to take the colors of its palette in order: the
    /// label that comes `k`-th by name has the `k`-th color, whatever place it has in the
    /// configuration.
    pub proof fn lemma_expansion_takes_colors_in_order(self, k: int)
        requires
            0 <= k < self.labels.len(),
        ensures
            self.expansion().len() == self.labels.len(),
            self.expansion()[k].color == self.colors.palette(self.labels.len())[k],
    {
    }

    /// The names of the labels that a group expands to are in ascending order.
    pub proof fn lemma_expansion_ascends(self, j: int, k: int)
        requires
            0 <= j <= k < self.labels.len(),
        ensures
            !precedes(self.expansion()[k].name, self.expansion()[j].name),
    {
        let names = self.names();
        let order = stable_order(names);
        lemma_stable_order_exists(names);
        lemma_stable_order_ascends(names, j, k);
        assert(0 <= order[j] < names.len() && 0 <= order[k] < names.len());
        lemma_precedes_with_prefix(self.prefix_text(), names[order[k]], names[order[j]]);
    }

    /// A group expands to one label for each of its labels: every label of the group is
    /// found among them, with the prefix in front of its name and with its description.
    pub proof fn lemma_expansion_holds_every_label(self, i: int) -> (k: int)
        requires
            0 <= i < self.labels.len(),
        ensures
            0 <= k < self.expansion().len(),
            self.expansion().len() == self.labels.len(),
            self.expansion()[k].name == self.prefix_text() + self.labels[i].name(),
            self.expansion()[k].description == self.labels[i].description(),
    {
        let order = stable_order(self.names());
        lemma_stable_order_exists(self.names());
        assert(order.contains(i));
        choose|k: int| 0 <= k < order.len() && order[k] == i
    }
}

/// A group of labels.
///
/// A group has an optional prefix, a color generator, and a list of labels. If it has a
/// prefix, the prefix is put in front of the name of each of its labels.
#[derive(Eq, PartialEq, Hash, Debug)]
pub struct Group {
    prefix: Option<Prefix>,
    colors: Colors,
    labels: Vec<LabelVariant>,
}

impl DeepView for Group {
    type V = GroupView;

    closed spec fn deep_view(&self) -> GroupView {
        GroupView {
            prefix: self.prefix.deep_view(),
            colors: self.colors.deep_view(),
            labels: self.labels.deep_view(),
        }
    }
}

impl View for Group {
    type V = GroupView;

    open spec fn view(&self) -> GroupView {
        self.deep_view()
    }
}

impl Group {
    /// Makes the labels of a group of the items of a list.
    fn labels_from(items: &Vec<Node>) -> (result: Result<Vec<LabelVariant>, ConfigurationError>)
        ensures
            outcome(result) == read_each(
                items.deep_view(),
                |label: NodeView| LabelVariantView::read(label),
            ),
    {
        let ghost all = items.deep_view();
        let ghost read = |label: NodeView| LabelVariantView::read(label);
        let mut labels: Vec<LabelVariant> = Vec::new();
        assert(all.take(0) =~= Seq::<NodeView>::empty());
        assert(labels.deep_view() =~= Seq::<LabelVariantView>::empty());
        for i in 0..items.len()
            invariant
                all == items.deep_view(),
                read == (|label: NodeView| LabelVariantView::read(label)),
                read_each(all.take(i as int), read) == Ok::<
                    Seq<LabelVariantView>,
                    ConfigurationErrorView,
                >(labels.deep_view()),
        {
            let ghost before = labels.deep_view();
            assert(all.take(i + 1).drop_last() =~= all.take(i as int));
            assert(all.take(i + 1).last() == items@[i as int]@);
            let label = match LabelVariant::from_node(&items[i]) {
                Ok(label) => label,
                Err(error) => {
                    proof {
                        lemma_read_each_fails(all, read, i as int);
                    }
                    return Err(error);
                },
            };
            labels.push(label);
            assert(labels.deep_view() =~= before.push(label@));
        }
        assert(all.take(items@.len() as int) =~= all);
        Ok(labels)
    }

    /// Makes a group of a value of a document, as [`GroupView::read`] says.
    pub fn from_node(node: &Node) -> (result: Result<Group, ConfigurationError>)
        ensures
            outcome(result) == GroupView::read(node@),
    {
        if !node.is_table() {
            return Err(ConfigurationError::Unexpected("group".to_owned()));
        }
        let prefix = match node.optional_text_at("prefix")? {
            Some(text) => Some(Prefix::new(text)),
            None => None,
        };
        let colors = match node.entry("colors") {
            Some(chosen) => Colors::from_node(chosen)?,
            None => {
                return Err(ConfigurationError::Missing("colors".to_owned()));
            },
        };
        let labels = Self::labels_from(node.list_at("labels")?)?;
        Ok(Group { prefix, colors, labels })
    }

    /// Starts to build a group. The prefix, the color generator and the labels have to be
    /// given before the group can be built.
    pub fn builder() -> (builder: GroupBuilder<(), (), ()>)
        ensures
            builder.fields() == ((), (), ()),
    {
        GroupBuilder { prefix: (), colors: (), labels: () }
    }

    /// The prefix for the names of the labels, if the group has one.
    pub fn prefix(&self) -> (prefix: &Option<Prefix>)
        ensures
            prefix.deep_view() == self@.prefix,
    {
        &self.prefix
    }

    /// The color generator of the group.
    pub fn colors(&self) -> (colors: &Colors)
        ensures
            colors@ == self@.colors,
    {
        &self.colors
    }

    /// The labels of the group, as they are written in the configuration.
    pub fn labels(&self) -> (labels: &Vec<LabelVariant>)
        ensures
            labels.deep_view() == self@.labels,
    {
        &self.labels
    }

    /// Reads the names of the labels of the group, in the order of the configuration.
    fn names(&self) -> (names: Vec<Vec<char>>)
        ensures
            names.deep_view() == self@.names(),
    {
        let mut names: Vec<Vec<char>> = Vec::new();
        for i in 0..self.labels.len()
            invariant
                names@.len() == i,
                forall|k: int| 0 <= k < i ==> (#[trigger] names@[k])@ == self.labels@[k]@.name(),
        {
            names.push(chars_of(self.labels[i].name().get()));
        }
        assert forall|k: int| 0 <= k < names@.len() implies #[trigger] names.deep_view()[k]
            == self@.names()[k] by {
            assert(names@[k].deep_view() =~= names@[k]@);
        }
        assert(names.deep_view() =~= self@.names());
        names
    }

    /// Expands the group into a list of labels
    ///
    /// The labels of the group are sorted by name, so that the colors of the palette follow
    /// the alphabet wherever the labels are listed. Each gets the next color of the
    /// generator of the group, and the prefix of the group in front of its name.
    pub fn expand(&self) -> (labels: Vec<Label>)
        ensures
            labels@.len() == self@.labels.len(),
            labels.deep_view() == self@.expansion(),
    {
        let count = self.labels.len();
        let colors = self.colors.generate(count);
        let names = self.names();
        let order = sort_order(&names);
        proof {
            lemma_stable_order_exists(self@.names());
        }
        let mut labels: Vec<Label> = Vec::new();
        for k in 0..count
            invariant
                count == self.labels@.len(),
                colors@.len() == count,
                colors.deep_view() == self@.colors.palette(count as nat),
                order@.len() == count,
                order@.map_values(|position: usize| position as int) == stable_order(
                    self@.names(),
                ),
                is_stable_order(self@.names(), stable_order(self@.names())),
                labels@.len() == k,
                forall|j: int| 0 <= j < k ==> (#[trigger] labels@[j])@ == self@.expansion()[j],
        {
            assert(order@[k as int] as int == order@.map_values(|position: usize| position as int)[k as int]);
            let variant = &self.labels[order[k]];
            let mut name = match &self.prefix {
                Some(prefix) => prefix.get().to_owned(),
                None => String::new(),
            };
            name.append(variant.name().get());
            let description = match variant.description() {
                Some(description) => Some(description.clone()),
                None => None,
            };
            assert(colors@[k as int]@ == colors.deep_view()[k as int]);
            let label = Label::builder().name(LabelName::from_text(name)).color(
                colors[k].clone(),
            ).description(description).build();
            labels.push(label);
        }
        assert(labels.deep_view() =~= self@.expansion());
        labels
    }
}

impl Clone for Group {
    fn clone(&self) -> (copy: Self)
        ensures
            copy@ == self@,
    {
        let mut labels: Vec<LabelVariant> = Vec::new();
        for i in 0..self.labels.len()
            invariant
                labels@.len() == i,
                forall|k: int| 0 <= k < i ==> (#[trigger] labels@[k])@ == self.labels@[k]@,
        {
            labels.push(self.labels[i].clone());
        }
        assert(labels.deep_view() =~= self.labels.deep_view());
        Group {
            prefix: match &self.prefix {
                Some(prefix) => Some(prefix.clone()),
                None => None,
            },
            colors: self.colors.clone(),
            labels,
        }
    }
}

/// Builds a [`Group`] field by field.
///
/// The type parameters record which fields have been given: `P` is `Option<Prefix>` once
/// the prefix is set, `C` is [`Colors`] once the generator is set, and `L` is
/// `Vec<LabelVariant>` once the labels are set. Only a builder that has all three can build.
pub struct GroupBuilder<P, C, L> {
    prefix: P,
    colors: C,
    labels: L,
}

impl<P, C, L> GroupBuilder<P, C, L> {
    /// The prefix, the color generator and the labels that the builder holds.
    pub closed spec fn fields(self) -> (P, C, L) {
        (self.prefix, self.colors, self.labels)
    }
}

impl<C, L> GroupBuilder<(), C, L> {
    /// Sets the prefix of the group; `None` for a group without one.
    pub fn prefix(self, prefix: Option<Prefix>) -> (builder: GroupBuilder<Option<Prefix>, C, L>)
        ensures
            builder.fields() == (prefix, self.fields().1, self.fields().2),
    {
        GroupBuilder { prefix, colors: self.colors, labels: self.labels }
    }
}

impl<P, L> GroupBuilder<P, (), L> {
    /// Sets the color generator of the group.
    pub fn colors(self, colors: Colors) -> (builder: GroupBuilder<P, Colors, L>)
        ensures
            builder.fields() == (self.fields().0, colors, self.fields().2),
    {
        GroupBuilder { prefix: self.prefix, colors, labels: self.labels }
    }
}

impl<P, C> GroupBuilder<P, C, ()> {
    /// Sets the labels of the group.
    pub fn labels(self, labels: Vec<LabelVariant>) -> (builder: GroupBuilder<
        P,
        C,
        Vec<LabelVariant>,
    >)
        ensures
            builder.fields() == (self.fields().0, self.fields().1, labels),
    {
        GroupBuilder { prefix: self.prefix, colors: self.colors, labels }
    }
}

impl GroupBuilder<Option<Prefix>, Colors, Vec<LabelVariant>> {
    /// Builds the group from the fields that were given.
    pub fn build(self) -> (group: Group)
        ensures
            group@ == (GroupView {
                prefix: self.fields().0.deep_view(),
                colors: self.fields().1@,
                labels: self.fields().2.deep_view(),
            }),
    {
        Group { prefix: self.prefix, colors: self.colors, labels: self.labels }
    }
}

} // verus!
