//! The errors of the library.
//!
//! Every value of the data model is checked when it is made, from a text or from a document.
//! What does not pass is rejected with a [`ConfigurationError`] that says what was wrong.

use vstd::prelude::*;
use vstd::string::StringExecFns;

verus! {

/// Why a configuration was rejected.
#[derive(Eq, PartialEq, Debug)]
pub enum ConfigurationError {
    /// The text is not a document. Holds what the parser said about it.
    Syntax(String),
    /// A table lacks an entry that it has to have. Holds the key of the entry.
    Missing(String),
    /// An entry holds a value of another kind than the configuration has there: a number in
    /// the place of a text, a text in the place of a table. Holds the key of the entry.
    Unexpected(String),
    /// A color generator is chosen that does not exist. Holds the name that was given.
    UnknownGenerator(String),
    /// A palette family that the catalog does not have. Holds the name that was given.
    UnknownPalette(String),
    /// A color that is not `#` followed by six hexadecimal digits. Holds the text that was
    /// given.
    InvalidColor(String),
    /// A label name without a single character.
    EmptyLabelName,
}

/// What a [`ConfigurationError`] holds, as plain text.
pub enum ConfigurationErrorView {
    /// The text is not a document.
    Syntax(Seq<char>),
    /// A table lacks an entry that it has to have.
    Missing(Seq<char>),
    /// An entry holds a value of another kind than the configuration has there.
    Unexpected(Seq<char>),
    /// A color generator is chosen that does not exist.
    UnknownGenerator(Seq<char>),
    /// A palette family that the catalog does not have.
    UnknownPalette(Seq<char>),
    /// A color that is not in hex format.
    InvalidColor(Seq<char>),
    /// A label name without a single character.
    EmptyLabelName,
}

impl ConfigurationErrorView {
    /// The cause of the error as a sentence: a fixed explanation, followed by the text that
    /// the error holds.
    pub open spec fn cause(self) -> Seq<char> {
        match self {
            ConfigurationErrorView::Syntax(text) => "invalid document: "@ + text,
            ConfigurationErrorView::Missing(key) => "missing entry: "@ + key,
            ConfigurationErrorView::Unexpected(key) => "unexpected kind of value: "@ + key,
            ConfigurationErrorView::UnknownGenerator(name) => "unknown color generator: "@ + name,
            ConfigurationErrorView::UnknownPalette(name) => "unknown palette: "@ + name,
            ConfigurationErrorView::InvalidColor(text) => "invalid color: "@ + text,
            ConfigurationErrorView::EmptyLabelName => "label name is empty"@,
        }
    }
}

impl DeepView for ConfigurationError {
    type V = ConfigurationErrorView;

    open spec fn deep_view(&self) -> ConfigurationErrorView {
        match self {
            ConfigurationError::Syntax(text) => ConfigurationErrorView::Syntax(text@),
            ConfigurationError::Missing(key) => ConfigurationErrorView::Missing(key@),
            ConfigurationError::Unexpected(key) => ConfigurationErrorView::Unexpected(key@),
            ConfigurationError::UnknownGenerator(name) => ConfigurationErrorView::UnknownGenerator(
                name@,
            ),
            ConfigurationError::UnknownPalette(name) => ConfigurationErrorView::UnknownPalette(
                name@,
            ),
            ConfigurationError::InvalidColor(text) => ConfigurationErrorView::InvalidColor(text@),
            ConfigurationError::EmptyLabelName => ConfigurationErrorView::EmptyLabelName,
        }
    }
}

impl View for ConfigurationError {
    type V = ConfigurationErrorView;

    open spec fn view(&self) -> ConfigurationErrorView {
        self.deep_view()
    }
}

impl ConfigurationError {
    /// Returns the human-readable cause of the error.
    pub fn message(&self) -> (text: String)
        ensures
            text@ == self@.cause(),
    {
        let (explanation, held) = match self {
            ConfigurationError::Syntax(text) => ("invalid document: ", text.as_str()),
            ConfigurationError::Missing(key) => ("missing entry: ", key.as_str()),
            ConfigurationError::Unexpected(key) => ("unexpected kind of value: ", key.as_str()),
            ConfigurationError::UnknownGenerator(name) => (
                "unknown color generator: ",
                name.as_str(),
            ),
            ConfigurationError::UnknownPalette(name) => ("unknown palette: ", name.as_str()),
            ConfigurationError::InvalidColor(text) => ("invalid color: ", text.as_str()),
            ConfigurationError::EmptyLabelName => ("label name is empty", ""),
        };
        proof {
            reveal_strlit("");
            assert("label name is empty"@ + ""@ =~= "label name is empty"@);
        }
        let mut text = explanation.to_owned();
        text.append(held);
        text
    }
}

/// What came of making a value: the value as plain text, or the error as plain text.
pub open spec fn outcome<T: DeepView>(result: Result<T, ConfigurationError>) -> Result<
    T::V,
    ConfigurationErrorView,
> {
    match result {
        Ok(value) => Ok(value.deep_view()),
        Err(error) => Err(error@),
    }
}

} // verus!
