//! The ways to write a label in the configuration.
//!
//! A label of a group is written as its name alone, or as a record that gives the name
//! together with a description and aliases.

use vstd::prelude::*;

use crate::document::{lemma_read_each_fails, read_each, Node, NodeView};
use crate::error::{outcome, ConfigurationError, ConfigurationErrorView};
use crate::label::{Description, LabelName};

verus! {

/// A label as it is written in the configuration of a group.
#[derive(Eq, PartialEq, Hash, Debug)]
pub enum LabelVariant {
    /// A label with just a name
    Name(LabelName),
    /// A label with a name, and optionally a description and aliases
    WithDescription {
        /// The name of the label
        name: LabelName,
        /// The description of the label
        description: Option<Description>,
        /// Other names for the label. They are kept, but no label is generated for them.
        aliases: Vec<LabelName>,
    },
}

/// What a [`LabelVariant`] holds, as plain text.
pub enum LabelVariantView {
    /// A label with just a name
    Name(Seq<char>),
    /// A label with a name, and optionally a description and aliases
    WithDescription {
        /// The name of the label
        name: Seq<char>,
        /// The description of the label
        description: Option<Seq<char>>,
        /// Other names for the label
        aliases: Seq<Seq<char>>,
    },
}

/// What becomes of a value of a document that is given as an alias of a label: it has to be a
/// text that passes as a label name.
pub open spec fn read_alias(node: NodeView) -> Result<Seq<char>, ConfigurationErrorView> {
    match node {
        NodeView::Text(text) => LabelName::read(text),
        _ => Err(ConfigurationErrorView::Unexpected("aliases"@)),
    }
}

impl LabelVariantView {
    /// What becomes of a value of a document that is given as a label of a group.
    ///
    /// A text is a label with just a name. A table is a label with a name, which the table
    /// has to have, and a description and aliases, which it may go without: then the label
    /// has no description, and no aliases. What else the table holds is passed over. Every
    /// name has to pass as a label name.
    pub open spec fn read(node: NodeView) -> Result<LabelVariantView, ConfigurationErrorView> {
        match node {
            NodeView::Text(text) => match LabelName::read(text) {
                Ok(name) => Ok(LabelVariantView::Name(name)),
                Err(error) => Err(error),
            },
            NodeView::Table(_) => {
                let name = node.text_at("name"@);
                let description = node.optional_text_at("description"@);
                let listed = node.optional_list_at("aliases"@);
                if name is Err {
                    Err(name->Err_0)
                } else if LabelName::read(name->Ok_0) is Err {
                    Err(LabelName::read(name->Ok_0)->Err_0)
                } else if description is Err {
                    Err(description->Err_0)
                } else if listed is Err {
                    Err(listed->Err_0)
                } else {
                    match read_each(listed->Ok_0, |alias: NodeView| read_alias(alias)) {
                        Ok(aliases) => Ok(
                            LabelVariantView::WithDescription {
                                name: name->Ok_0,
                                description: description->Ok_0,
                                aliases,
                            },
                        ),
                        Err(error) => Err(error),
                    }
                }
            },
            _ => Err(ConfigurationErrorView::Unexpected("labels"@)),
        }
    }

    /// A label that is written as a text is a label with just a name: that text.
    pub proof fn lemma_read_text(text: Seq<char>)
        requires
            text.len() > 0,
        ensures
            Self::read(NodeView::Text(text)) == Ok::<LabelVariantView, ConfigurationErrorView>(
                LabelVariantView::Name(text),
            ),
    {
    }

    /// A label that is written as a table is a label with the name and the description that
    /// the table gives. Where the table gives no description the label has none, and where
    /// it gives no aliases the label has an empty list of them.
    pub proof fn lemma_read_table(node: NodeView, name: Seq<char>)
        requires
            node is Table,
            node.entry("name"@) == Some(NodeView::Text(name)),
            name.len() > 0,
            node.entry("description"@) matches Some(description) ==> description is Text,
            node.entry("aliases"@) is None,
        ensures
            Self::read(node) == Ok::<LabelVariantView, ConfigurationErrorView>(
                LabelVariantView::WithDescription {
                    name,
                    description: match node.entry("description"@) {
                        Some(description) => Some(description->Text_0),
                        None => None,
                    },
                    aliases: Seq::empty(),
                },
            ),
    {
        assert(read_each(Seq::<NodeView>::empty(), |alias: NodeView| read_alias(alias))
            == Ok::<Seq<Seq<char>>, ConfigurationErrorView>(Seq::empty()));
    }

    /// The name of the label.
    pub open spec fn name(self) -> Seq<char> {
        match self {
            LabelVariantView::Name(name) => name,
            LabelVariantView::WithDescription { name, .. } => name,
        }
    }

    /// The description of the label. A label that is written as its name alone has none.
    pub open spec fn description(self) -> Option<Seq<char>> {
        match self {
            LabelVariantView::Name(_) => None,
            LabelVariantView::WithDescription { description, .. } => description,
        }
    }

    /// The aliases of the label. A label that is written as its name alone has none, which is
    /// not the same as an empty list of them.
    pub open spec fn aliases(self) -> Option<Seq<Seq<char>>> {
        match self {
            LabelVariantView::Name(_) => None,
            LabelVariantView::WithDescription { aliases, .. } => Some(aliases),
        }
    }
}

impl DeepView for LabelVariant {
    type V = LabelVariantView;

    open spec fn deep_view(&self) -> LabelVariantView {
        match self {
            LabelVariant::Name(name) => LabelVariantView::Name(name@),
            LabelVariant::WithDescription { name, description, aliases } => {
                LabelVariantView::WithDescription {
                    name: name@,
                    description: description.deep_view(),
                    aliases: aliases.deep_view(),
                }
            },
        }
    }
}

impl View for LabelVariant {
    type V = LabelVariantView;

    open spec fn view(&self) -> LabelVariantView {
        self.deep_view()
    }
}

impl LabelVariant {
    /// Makes the aliases of a label of the items of a list.
    fn aliases_from(items: &Vec<Node>) -> (result: Result<Vec<LabelName>, ConfigurationError>)
        ensures
            outcome(result) == read_each(
                items.deep_view(),
                |alias: NodeView| read_alias(alias),
            ),
    {
        let ghost all = items.deep_view();
        let ghost read = |alias: NodeView| read_alias(alias);
        let mut aliases: Vec<LabelName> = Vec::new();
        assert(all.take(0) =~= Seq::<NodeView>::empty());
        assert(aliases.deep_view() =~= Seq::<Seq<char>>::empty());
        for i in 0..items.len()
            invariant
                all == items.deep_view(),
                read == (|alias: NodeView| read_alias(alias)),
                read_each(all.take(i as int), read) == Ok::<
                    Seq<Seq<char>>,
                    ConfigurationErrorView,
                >(aliases.deep_view()),
        {
            let ghost before = aliases.deep_view();
            assert(all.take(i + 1).drop_last() =~= all.take(i as int));
            assert(all.take(i + 1).last() == items@[i as int]@);
            let alias = match items[i].as_text() {
                Some(text) => match LabelName::new(text) {
                    Ok(alias) => alias,
                    Err(error) => {
                        proof {
                            lemma_read_each_fails(all, read, i as int);
                        }
                        return Err(error);
                    },
                },
                None => {
                    proof {
                        lemma_read_each_fails(all, read, i as int);
                    }
                    return Err(ConfigurationError::Unexpected("aliases".to_owned()));
                },
            };
            aliases.push(alias);
            assert(aliases.deep_view() =~= before.push(alias@));
        }
        assert(all.take(items@.len() as int) =~= all);
        Ok(aliases)
    }

    /// Makes a label of a group of a value of a document, as [`LabelVariantView::read`]
    /// says. The value is first tried as a text, which gives a label with just a name; only
    /// a value that is no text is tried as a table.
    pub fn from_node(node: &Node) -> (result: Result<LabelVariant, ConfigurationError>)
        ensures
            outcome(result) == LabelVariantView::read(node@),
    {
        match node.as_text() {
            Some(text) => {
                return Ok(LabelVariant::Name(LabelName::new(text)?));
            },
            None => {},
        }
        if !node.is_table() {
            return Err(ConfigurationError::Unexpected("labels".to_owned()));
        }
        let name = LabelName::new(node.text_at("name")?)?;
        let description = match node.optional_text_at("description")? {
            Some(text) => Some(Description::new(text)),
            None => None,
        };
        let aliases = match node.optional_list_at("aliases")? {
            Some(items) => Self::aliases_from(items)?,
            None => {
                let none: Vec<LabelName> = Vec::new();
                assert(none.deep_view() =~= Seq::<Seq<char>>::empty());
                none
            },
        };
        Ok(LabelVariant::WithDescription { name, description, aliases })
    }

    /// Returns the name of the label
    pub fn name(&self) -> (name: &LabelName)
        ensures
            name@ == self@.name(),
    {
        match self {
            LabelVariant::Name(name) => name,
            LabelVariant::WithDescription { name, .. } => name,
        }
    }

    /// Returns the description of the label, if it has one
    pub fn description(&self) -> (description: Option<&Description>)
        ensures
            description.deep_view() == self@.description(),
    {
        match self {
            LabelVariant::Name(_) => None,
            LabelVariant::WithDescription { description, .. } => description.as_ref(),
        }
    }

    /// Returns the aliases of the label, if it is written as a record
    pub fn aliases(&self) -> (aliases: Option<&Vec<LabelName>>)
        ensures
            aliases.deep_view() == self@.aliases(),
    {
        match self {
            LabelVariant::Name(_) => None,
            LabelVariant::WithDescription { aliases, .. } => Some(aliases),
        }
    }

    /// Returns the label as text: its name.
    pub fn to_string(&self) -> (text: String)
        ensures
            text@ == self@.name(),
    {
        self.name().get().to_owned()
    }
}

impl Clone for LabelVariant {
    fn clone(&self) -> (copy: Self)
        ensures
            copy@ == self@,
    {
        match self {
            LabelVariant::Name(name) => LabelVariant::Name(name.clone()),
            LabelVariant::WithDescription { name, description, aliases } => {
                let mut names: Vec<LabelName> = Vec::new();
                for i in 0..aliases.len()
                    invariant
                        names@.len() == i,
                        forall|k: int| 0 <= k < i ==> (#[trigger] names@[k])@ == aliases@[k]@,
                {
                    names.push(aliases[i].clone());
                }
                assert(names.deep_view() =~= aliases.deep_view());
                LabelVariant::WithDescription {
                    name: name.clone(),
                    description: match description {
                        Some(description) => Some(description.clone()),
                        None => None,
                    },
                    aliases: names,
                }
            },
        }
    }
}

} // verus!
