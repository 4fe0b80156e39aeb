//! A label of an issue tracker.
//!
//! This module defines [`Label`], the record that the library produces, and the types of its
//! fields. Each field type wraps a string and checks it once, when the value is made.

use vstd::prelude::*;

use crate::document::{Node, NodeView};
use crate::error::{outcome, ConfigurationError, ConfigurationErrorView};
use crate::text::{hex_color, is_hex_color};

verus! {

/// The name of a label: a text of at least one character.
#[derive(Eq, PartialEq, Ord, PartialOrd, Hash, Debug)]
pub struct LabelName {
    value: String,
}

impl View for LabelName {
    type V = Seq<char>;

    closed spec fn view(&self) -> Seq<char> {
        self.value@
    }
}

impl DeepView for LabelName {
    type V = Seq<char>;

    open spec fn deep_view(&self) -> Seq<char> {
        self@
    }
}

impl LabelName {
    #[verifier::type_invariant]
    spec fn well_formed(&self) -> bool {
        self.value@.len() > 0
    }

    /// What becomes of a text that is given as a label name: it is taken as it is, unless
    /// it is empty.
    pub open spec fn read(text: Seq<char>) -> Result<Seq<char>, ConfigurationErrorView> {
        if text.len() > 0 {
            Ok(text)
        } else {
            Err(ConfigurationErrorView::EmptyLabelName)
        }
    }

    /// Creates a label name from `value`, which must hold at least one character.
    pub fn new(value: &str) -> (result: Result<LabelName, ConfigurationError>)
        ensures
            outcome(result) == Self::read(value@),
    {
        if value.is_empty() {
            Err(ConfigurationError::EmptyLabelName)
        } else {
            Ok(LabelName { value: value.to_owned() })
        }
    }

    /// Creates a label name from a text that is known to hold at least one character.
    pub(crate) fn from_text(value: String) -> (name: LabelName)
        requires
            value@.len() > 0,
        ensures
            name@ == value@,
    {
        LabelName { value }
    }

    /// The text of the name. It is never empty.
    pub fn get(&self) -> (value: &str)
        ensures
            value@ == self@,
            value@.len() > 0,
    {
        proof {
            use_type_invariant(self);
        }
        self.value.as_str()
    }
}

impl Clone for LabelName {
    fn clone(&self) -> (copy: Self)
        ensures
            copy@ == self@,
    {
        proof {
            use_type_invariant(self);
        }
        LabelName { value: self.value.clone() }
    }
}

/// The color of a label in hex format: `#` followed by six hexadecimal digits.
#[derive(Eq, PartialEq, Ord, PartialOrd, Hash, Debug)]
pub struct Color {
    value: String,
}

impl View for Color {
    type V = Seq<char>;

    closed spec fn view(&self) -> Seq<char> {
        self.value@
    }
}

impl DeepView for Color {
    type V = Seq<char>;

    open spec fn deep_view(&self) -> Seq<char> {
        self@
    }
}

impl Color {
    #[verifier::type_invariant]
    spec fn well_formed(&self) -> bool {
        is_hex_color(self.value@)
    }

    /// What becomes of a text that is given as a color: it is taken as it is, if it is in
    /// hex format.
    pub open spec fn read(text: Seq<char>) -> Result<Seq<char>, ConfigurationErrorView> {
        if is_hex_color(text) {
            Ok(text)
        } else {
            Err(ConfigurationErrorView::InvalidColor(text))
        }
    }

    /// Creates a color from `value`, which must be in hex format. The error holds the text
    /// that was rejected.
    pub fn new(value: &str) -> (result: Result<Color, ConfigurationError>)
        ensures
            outcome(result) == Self::read(value@),
    {
        if hex_color(value) {
            Ok(Color { value: value.to_owned() })
        } else {
            Err(ConfigurationError::InvalidColor(value.to_owned()))
        }
    }

    /// Creates a color from a text that is known to be in hex format.
    pub(crate) fn from_hex(value: &str) -> (color: Color)
        requires
            is_hex_color(value@),
        ensures
            color@ == value@,
    {
        Color { value: value.to_owned() }
    }

    /// The text of the color. It is always in hex format.
    pub fn get(&self) -> (value: &str)
        ensures
            value@ == self@,
            is_hex_color(value@),
    {
        proof {
            use_type_invariant(self);
        }
        self.value.as_str()
    }
}

impl Clone for Color {
    fn clone(&self) -> (copy: Self)
        ensures
            copy@ == self@,
    {
        proof {
            use_type_invariant(self);
        }
        Color { value: self.value.clone() }
    }
}

/// The description of a label: free-form text.
#[derive(Eq, PartialEq, Ord, PartialOrd, Hash, Debug)]
pub struct Description {
    value: String,
}

impl View for Description {
    type V = Seq<char>;

    closed spec fn view(&self) -> Seq<char> {
        self.value@
    }
}

impl DeepView for Description {
    type V = Seq<char>;

    open spec fn deep_view(&self) -> Seq<char> {
        self@
    }
}

impl Description {
    /// Creates a description that holds `value`.
    pub fn new(value: &str) -> (description: Description)
        ensures
            description@ == value@,
    {
        Description { value: value.to_owned() }
    }

    /// The text of the description.
    pub fn get(&self) -> (value: &str)
        ensures
            value@ == self@,
    {
        self.value.as_str()
    }
}

impl Clone for Description {
    fn clone(&self) -> (copy: Self)
        ensures
            copy@ == self@,
    {
        Description { value: self.value.clone() }
    }
}

/// What a [`Label`] holds, as plain text.
pub struct LabelView {
    /// The name of the label.
    pub name: Seq<char>,
    /// The color of the label.
    pub color: Seq<char>,
    /// The description of the label, if it has one.
    pub description: Option<Seq<char>>,
}

/// A label of an issue tracker: a name, a color, and an optional description.
#[derive(Eq, PartialEq, Ord, PartialOrd, Hash, Debug)]
pub struct Label {
    name: LabelName,
    color: Color,
    description: Option<Description>,
}

impl DeepView for Label {
    type V = LabelView;

    closed spec fn deep_view(&self) -> LabelView {
        LabelView {
            name: self.name@,
            color: self.color@,
            description: self.description.deep_view(),
        }
    }
}

impl View for Label {
    type V = LabelView;

    open spec fn view(&self) -> LabelView {
        self.deep_view()
    }
}

impl LabelView {
    /// What becomes of a value of a document that is given as a label.
    ///
    /// The value has to be a table with a name and a color, each a text that passes as one.
    /// The table may have a description, which has to be a text. What else the table holds
    /// is passed over.
    pub open spec fn read(node: NodeView) -> Result<LabelView, ConfigurationErrorView> {
        let name = node.text_at("name"@);
        let color = node.text_at("color"@);
        let description = node.optional_text_at("description"@);
        if !(node is Table) {
            Err(ConfigurationErrorView::Unexpected("label"@))
        } else if name is Err {
            Err(name->Err_0)
        } else if LabelName::read(name->Ok_0) is Err {
            Err(LabelName::read(name->Ok_0)->Err_0)
        } else if color is Err {
            Err(color->Err_0)
        } else if Color::read(color->Ok_0) is Err {
            Err(Color::read(color->Ok_0)->Err_0)
        } else if description is Err {
            Err(description->Err_0)
        } else {
            Ok(LabelView { name: name->Ok_0, color: color->Ok_0, description: description->Ok_0 })
        }
    }
}

impl Label {
    /// Makes a label of a value of a document, as [`LabelView::read`] says.
    pub fn from_node(node: &Node) -> (result: Result<Label, ConfigurationError>)
        ensures
            outcome(result) == LabelView::read(node@),
    {
        if !node.is_table() {
            return Err(ConfigurationError::Unexpected("label".to_owned()));
        }
        let name = LabelName::new(node.text_at("name")?)?;
        let color = Color::new(node.text_at("color")?)?;
        let description = match node.optional_text_at("description")? {
            Some(text) => Some(Description::new(text)),
            None => None,
        };
        Ok(Label { name, color, description })
    }

    /// Starts to build a label. The name and the color have to be given before the label can
    /// be built; a label has no description unless one is given.
    pub fn builder() -> (builder: LabelBuilder<(), ()>)
        ensures
            builder.fields() == ((), (), None::<Description>),
    {
        LabelBuilder { name: (), color: (), description: None }
    }

    /// The name of the label.
    pub fn name(&self) -> (name: &LabelName)
        ensures
            name@ == self@.name,
    {
        &self.name
    }

    /// The color of the label.
    pub fn color(&self) -> (color: &Color)
        ensures
            color@ == self@.color,
    {
        &self.color
    }

    /// The description of the label, if it has one.
    pub fn description(&self) -> (description: &Option<Description>)
        ensures
            description.deep_view() == self@.description,
    {
        &self.description
    }
}

impl Clone for Label {
    fn clone(&self) -> (copy: Self)
        ensures
            copy@ == self@,
    {
        Label {
            name: self.name.clone(),
            color: self.color.clone(),
            description: match &self.description {
                Some(description) => Some(description.clone()),
                None => None,
            },
        }
    }
}

/// Builds a [`Label`] field by field.
///
/// The type parameters record which of the required fields have been given: `N` is
/// [`LabelName`] once the name is set, and `C` is [`Color`] once the color is set. Only a
/// builder that has both can build.
pub struct LabelBuilder<N, C> {
    name: N,
    color: C,
    description: Option<Description>,
}

impl<N, C> LabelBuilder<N, C> {
    /// The name, the color and the description that the builder holds.
    pub closed spec fn fields(self) -> (N, C, Option<Description>) {
        (self.name, self.color, self.description)
    }

    /// Sets the description of the label.
    pub fn description(self, description: Option<Description>) -> (builder: LabelBuilder<N, C>)
        ensures
            builder.fields() == (self.fields().0, self.fields().1, description),
    {
        LabelBuilder { name: self.name, color: self.color, description }
    }
}

impl<C> LabelBuilder<(), C> {
    /// Sets the name of the label.
    pub fn name(self, name: LabelName) -> (builder: LabelBuilder<LabelName, C>)
        ensures
            builder.fields() == (name, self.fields().1, self.fields().2),
    {
        LabelBuilder { name, color: self.color, description: self.description }
    }
}

impl<N> LabelBuilder<N, ()> {
    /// Sets the color of the label.
    pub fn color(self, color: Color) -> (builder: LabelBuilder<N, Color>)
        ensures
            builder.fields() == (self.fields().0, color, self.fields().2),
    {
        LabelBuilder { name: self.name, color, description: self.description }
    }
}

impl LabelBuilder<LabelName, Color> {
    /// Builds the label from the fields that were given.
    pub fn build(self) -> (label: Label)
        ensures
            label@ == (LabelView {
                name: self.fields().0@,
                color: self.fields().1@,
                description: self.fields().2.deep_view(),
            }),
    {
        Label { name: self.name, color: self.color, description: self.description }
    }
}

} // verus!
