//! A configuration document as a tree of texts, lists and tables.
//!
//! A configuration is written as a TOML document. The parser of the `toml` crate reads the
//! text; what it finds is copied into a [`Node`], from which the values of the data model are
//! made. The parser is not verified: what this module believes of it is said at the end of
//! the file.

use vstd::prelude::*;

use crate::error::{ConfigurationError, ConfigurationErrorView};

verus! {

/// A value in a document.
#[derive(Eq, PartialEq, Debug)]
pub enum Node {
    /// A text
    Text(String),
    /// A list of values
    List(Vec<Node>),
    /// A table: entries of a key and a value
    Table(Vec<(String, Node)>),
    /// A value of another kind: a number, a truth value, a date. No configuration has one.
    Other,
}

/// What a [`Node`] holds, as plain text.
pub enum NodeView {
    /// A text
    Text(Seq<char>),
    /// A list of values
    List(Seq<NodeView>),
    /// A table: entries of a key and a value
    Table(Seq<(Seq<char>, NodeView)>),
    /// A value of another kind
    Other,
}

impl DeepView for Node {
    type V = NodeView;

    open spec fn deep_view(&self) -> NodeView
        decreases self,
    {
        match self {
            Node::Text(text) => NodeView::Text(text@),
            Node::List(items) => NodeView::List(
                Seq::new(
                    items@.len(),
                    |i: int|
                        if 0 <= i < items@.len() {
                            items@[i].deep_view()
                        } else {
                            NodeView::Other
                        },
                ),
            ),
            Node::Table(entries) => NodeView::Table(
                Seq::new(
                    entries@.len(),
                    |i: int|
                        if 0 <= i < entries@.len() {
                            (entries@[i].0@, entries@[i].1.deep_view())
                        } else {
                            (Seq::empty(), NodeView::Other)
                        },
                ),
            ),
            Node::Other => NodeView::Other,
        }
    }
}

impl View for Node {
    type V = NodeView;

    open spec fn view(&self) -> NodeView {
        self.deep_view()
    }
}

/// The value of the first of `entries` that has the key `key`.
pub open spec fn find(entries: Seq<(Seq<char>, NodeView)>, key: Seq<char>) -> Option<NodeView>
    decreases entries.len(),
{
    if entries.len() == 0 {
        None
    } else if entries[0].0 == key {
        Some(entries[0].1)
    } else {
        find(entries.drop_first(), key)
    }
}

/// Makes a value of every item of `items` with `read`. The result is the list of the values
/// in the order of the items, or the error of the first item that `read` rejects.
pub open spec fn read_each<T>(
    items: Seq<NodeView>,
    read: spec_fn(NodeView) -> Result<T, ConfigurationErrorView>,
) -> Result<Seq<T>, ConfigurationErrorView>
    decreases items.len(),
{
    if items.len() == 0 {
        Ok(Seq::empty())
    } else {
        match read_each(items.drop_last(), read) {
            Err(error) => Err(error),
            Ok(values) => match read(items.last()) {
                Err(error) => Err(error),
                Ok(value) => Ok(values.push(value)),
            },
        }
    }
}

/// Where `read` rejects the item at `at` and takes all items before it, the whole list is
/// rejected with the error of that item.
pub proof fn lemma_read_each_fails<T>(
    items: Seq<NodeView>,
    read: spec_fn(NodeView) -> Result<T, ConfigurationErrorView>,
    at: int,
)
    requires
        0 <= at < items.len(),
        read_each(items.take(at), read) is Ok,
        read(items[at]) is Err,
    ensures
        read_each(items, read) == Err::<Seq<T>, ConfigurationErrorView>(read(items[at])->Err_0),
    decreases items.len(),
{
    if at == items.len() - 1 {
        assert(items.drop_last() =~= items.take(at));
    } else {
        assert(items.drop_last().take(at) =~= items.take(at));
        lemma_read_each_fails(items.drop_last(), read, at);
    }
}

impl NodeView {
    /// The value under `key`, if this is a table that has an entry with that key.
    pub open spec fn entry(self, key: Seq<char>) -> Option<NodeView> {
        match self {
            NodeView::Table(entries) => find(entries, key),
            _ => None,
        }
    }

    /// The text under `key`, which the table has to have.
    pub open spec fn text_at(self, key: Seq<char>) -> Result<Seq<char>, ConfigurationErrorView> {
        match self.entry(key) {
            None => Err(ConfigurationErrorView::Missing(key)),
            Some(NodeView::Text(text)) => Ok(text),
            Some(_) => Err(ConfigurationErrorView::Unexpected(key)),
        }
    }

    /// The text under `key`, which the table may go without.
    pub open spec fn optional_text_at(self, key: Seq<char>) -> Result<
        Option<Seq<char>>,
        ConfigurationErrorView,
    > {
        match self.entry(key) {
            None => Ok(None),
            Some(NodeView::Text(text)) => Ok(Some(text)),
            Some(_) => Err(ConfigurationErrorView::Unexpected(key)),
        }
    }

    /// The list under `key`, which the table has to have.
    pub open spec fn list_at(self, key: Seq<char>) -> Result<
        Seq<NodeView>,
        ConfigurationErrorView,
    > {
        match self.entry(key) {
            None => Err(ConfigurationErrorView::Missing(key)),
            Some(NodeView::List(items)) => Ok(items),
            Some(_) => Err(ConfigurationErrorView::Unexpected(key)),
        }
    }

    /// The list under `key`. A table without such an entry counts as one with an empty list.
    pub open spec fn optional_list_at(self, key: Seq<char>) -> Result<
        Seq<NodeView>,
        ConfigurationErrorView,
    > {
        match self.entry(key) {
            None => Ok(Seq::empty()),
            Some(NodeView::List(items)) => Ok(items),
            Some(_) => Err(ConfigurationErrorView::Unexpected(key)),
        }
    }
}

impl Node {
    /// Parses a TOML document.
    ///
    /// The result holds what the parser found in `text`; a text that the parser does not take
    /// for a document is rejected with what the parser said about it.
    pub fn from_toml(text: &str) -> (result: Result<Node, ConfigurationError>)
        ensures
            match result {
                Ok(node) => toml_document(text@) == Some(node@),
                Err(error) => toml_document(text@).is_none() && error is Syntax,
            },
    {
        match parse_document(text) {
            Ok(value) => Ok(node_of(&value)),
            Err(error) => Err(ConfigurationError::Syntax(error.to_string())),
        }
    }

    /// Whether the value is a table.
    pub fn is_table(&self) -> (table: bool)
        ensures
            table == (self@ is Table),
    {
        match self {
            Node::Table(_) => true,
            _ => false,
        }
    }

    /// The text, if the value is one.
    pub fn as_text(&self) -> (text: Option<&str>)
        ensures
            match text {
                Some(text) => self@ == NodeView::Text(text@),
                None => !(self@ is Text),
            },
    {
        match self {
            Node::Text(text) => Some(text.as_str()),
            _ => None,
        }
    }

    /// The items, if the value is a list.
    pub fn as_list(&self) -> (items: Option<&Vec<Node>>)
        ensures
            match items {
                Some(items) => self@ == NodeView::List(items.deep_view()),
                None => !(self@ is List),
            },
    {
        match self {
            Node::List(items) => {
                assert(self@->List_0 =~= items.deep_view());
                Some(items)
            },
            _ => None,
        }
    }

    /// The entries, if the value is a table.
    pub fn as_table(&self) -> (entries: Option<&Vec<(String, Node)>>)
        ensures
            match entries {
                Some(entries) => self@ == NodeView::Table(entries.deep_view()),
                None => !(self@ is Table),
            },
    {
        match self {
            Node::Table(entries) => {
                proof {
                    reveal_with_fuel(<Node as DeepView>::deep_view, 2);
                }
                assert(self@->Table_0 =~= entries.deep_view());
                Some(entries)
            },
            _ => None,
        }
    }

    /// The value under `key`, if this is a table that has an entry with that key. Where it
    /// has more than one, the first counts.
    pub fn entry(&self, key: &str) -> (value: Option<&Node>)
        ensures
            value.deep_view() == self@.entry(key@),
    {
        match self {
            Node::Table(entries) => {
                let ghost all = self@->Table_0;
                proof {
                    reveal_with_fuel(<Node as DeepView>::deep_view, 2);
                }
                let wanted = key.to_owned();
                let mut i: usize = 0;
                assert(all.skip(0) =~= all);
                while i < entries.len()
                    invariant
                        i <= entries@.len(),
                        wanted@ == key@,
                        self@ == NodeView::Table(all),
                        all.len() == entries@.len(),
                        forall|k: int|
                            0 <= k < entries@.len() ==> #[trigger] all[k] == (
                                entries@[k].0@,
                                entries@[k].1.deep_view(),
                            ),
                        find(all, key@) == find(all.skip(i as int), key@),
                    decreases entries@.len() - i,
                {
                    assert(all.skip(i as int)[0] == all[i as int]);
                    if entries[i].0 == wanted {
                        return Some(&entries[i].1);
                    }
                    assert(all.skip(i as int).drop_first() =~= all.skip(i + 1));
                    i += 1;
                }
                None
            },
            _ => None,
        }
    }

    /// The text under `key`, which the table has to have.
    pub fn text_at(&self, key: &str) -> (result: Result<&str, ConfigurationError>)
        ensures
            crate::error::outcome(result) == self@.text_at(key@),
    {
        match self.entry(key) {
            None => Err(ConfigurationError::Missing(key.to_owned())),
            Some(value) => match value.as_text() {
                Some(text) => Ok(text),
                None => Err(ConfigurationError::Unexpected(key.to_owned())),
            },
        }
    }

    /// The text under `key`, which the table may go without.
    pub fn optional_text_at(&self, key: &str) -> (result: Result<
        Option<&str>,
        ConfigurationError,
    >)
        ensures
            crate::error::outcome(result) == self@.optional_text_at(key@),
    {
        match self.entry(key) {
            None => Ok(None),
            Some(value) => match value.as_text() {
                Some(text) => Ok(Some(text)),
                None => Err(ConfigurationError::Unexpected(key.to_owned())),
            },
        }
    }

    /// The list under `key`, which the table has to have.
    pub fn list_at(&self, key: &str) -> (result: Result<&Vec<Node>, ConfigurationError>)
        ensures
            crate::error::outcome(result) == self@.list_at(key@),
    {
        match self.entry(key) {
            None => Err(ConfigurationError::Missing(key.to_owned())),
            Some(value) => match value.as_list() {
                Some(items) => Ok(items),
                None => Err(ConfigurationError::Unexpected(key.to_owned())),
            },
        }
    }

    /// The list under `key`, if the table has one. A table without such an entry counts as
    /// one with an empty list.
    pub fn optional_list_at(&self, key: &str) -> (result: Result<
        Option<&Vec<Node>>,
        ConfigurationError,
    >)
        ensures
            match result {
                Ok(Some(items)) => self@.optional_list_at(key@) == Ok::<
                    Seq<NodeView>,
                    ConfigurationErrorView,
                >(items.deep_view()) && self@.entry(key@) is Some,
                Ok(None) => self@.entry(key@) is None,
                Err(error) => self@.optional_list_at(key@) == Err::<
                    Seq<NodeView>,
                    ConfigurationErrorView,
                >(error@),
            },
    {
        match self.entry(key) {
            None => Ok(None),
            Some(value) => match value.as_list() {
                Some(items) => Ok(Some(items)),
                None => Err(ConfigurationError::Unexpected(key.to_owned())),
            },
        }
    }
}

// What follows is believed of the `toml` crate, not proved.

/// The error of the parser of the `toml` crate. Nothing is known of its content.
#[verifier::external_type_specification]
#[verifier::external_body]
pub struct ExTomlError(toml::de::Error);

/// A value as the parser of the `toml` crate hands it out. Its content is known only as
/// [`toml_content`].
#[verifier::external_type_specification]
#[verifier::external_body]
pub struct ExTomlValue(toml::Value);

/// What `toml::from_str` makes of a text when it is asked for a table: the document that the
/// text holds, or nothing where it takes the text for no document.
pub uninterp spec fn toml_document(text: Seq<char>) -> Option<NodeView>;

/// What a value of the `toml` crate holds: its text, its items or its entries, in the order in
/// which the value hands them out; a number, a truth value or a date counts as a value of
/// another kind.
pub uninterp spec fn toml_content(value: toml::Value) -> NodeView;

/// Calls `toml::from_str` for a `toml::Table`. The contract claims that the outcome depends
/// on the text alone: whether the text is taken for a document, and what the table that comes
/// back holds.
#[verifier::external_body]
fn parse_document(text: &str) -> (result: Result<toml::Value, toml::de::Error>)
    ensures
        match result {
            Ok(value) => toml_document(text@) == Some(toml_content(value)),
            Err(_) => toml_document(text@).is_none(),
        },
{
    toml::from_str::<toml::Table>(text).map(toml::Value::Table)
}

/// Copies a `toml::Value` into a [`Node`], variant by variant: a string becomes a text, an
/// array a list, a table a table with its entries in the order of its iterator, and every
/// other variant a value of another kind. The contract claims that the copy holds what the
/// value holds.
#[verifier::external_body]
fn node_of(value: &toml::Value) -> (node: Node)
    ensures
        node@ == toml_content(*value),
{
    match value {
        toml::Value::String(text) => Node::Text(text.clone()),
        toml::Value::Array(items) => Node::List(items.iter().map(node_of).collect()),
        toml::Value::Table(entries) => Node::Table(
            entries.iter().map(|(key, item)| (key.clone(), node_of(item))).collect(),
        ),
        toml::Value::Integer(_) => Node::Other,
        toml::Value::Float(_) => Node::Other,
        toml::Value::Boolean(_) => Node::Other,
        toml::Value::Datetime(_) => Node::Other,
    }
}

} // verus!
