//! Generators of color palettes.
//!
//! A generator implements [`Generate`]: asked for a number of colors, it returns that many.
//! The generators that a configuration can choose from are listed in [`Colors`].

use vstd::prelude::*;

use crate::document::{Node, NodeView};
use crate::error::{outcome, ConfigurationError, ConfigurationErrorView};
use crate::label::Color;

pub use self::fixed::Fixed;
pub use self::tailwind::Tailwind;

pub mod fixed;
pub mod tailwind;

verus! {

/// A generator of colors.
pub trait Generate {
    /// The colors that the generator hands out when asked for `count` of them, as text.
    spec fn palette(&self, count: nat) -> Seq<Seq<char>>;

    /// Generates `count` colors.
    fn generate(&self, count: usize) -> (colors: Vec<Color>)
        ensures
            colors@.len() == count,
            colors.deep_view() == self.palette(count as nat),
    ;
}

/// Generating is a function of the generator and the count: whatever two calls of
/// [`Generate::generate`] return for one generator and one count, they return the same
/// colors in the same order, and `count` of them.
pub proof fn lemma_generate_is_a_function<G: Generate>(
    generator: G,
    count: usize,
    first: Vec<Color>,
    second: Vec<Color>,
)
    requires
        call_ensures(G::generate, (&generator, count), first),
        call_ensures(G::generate, (&generator, count), second),
    ensures
        first.deep_view() == second.deep_view(),
        first@.len() == count,
        second@.len() == count,
{
}

/// The generators that a configuration can choose from.
#[derive(Eq, PartialEq, Ord, PartialOrd, Hash, Debug)]
pub enum Colors {
    /// One color for all labels.
    Fixed(Fixed),
    /// The shades of one family of the Tailwind CSS palette.
    Tailwind(Tailwind),
}

/// What a [`Colors`] holds, as plain text.
pub enum ColorsView {
    /// One color for all labels.
    Fixed(Seq<char>),
    /// The shades of one family of the Tailwind CSS palette.
    Tailwind(Tailwind),
}

impl ColorsView {
    /// What becomes of a value of a document that is given as the choice of a generator.
    ///
    /// The value has to be a table with a single entry. Its key names the generator: under
    /// `fixed` stands the color for all labels, under `tailwind` the name of a family. Each
    /// has to be a text that passes as what it stands for.
    pub open spec fn read(node: NodeView) -> Result<ColorsView, ConfigurationErrorView> {
        match node {
            NodeView::Table(entries) => if entries.len() != 1 {
                Err(ConfigurationErrorView::Unexpected("colors"@))
            } else if entries[0].0 == "fixed"@ {
                match entries[0].1 {
                    NodeView::Text(text) => match Color::read(text) {
                        Ok(color) => Ok(ColorsView::Fixed(color)),
                        Err(error) => Err(error),
                    },
                    _ => Err(ConfigurationErrorView::Unexpected("fixed"@)),
                }
            } else if entries[0].0 == "tailwind"@ {
                match entries[0].1 {
                    NodeView::Text(text) => match Tailwind::read(text) {
                        Ok(family) => Ok(ColorsView::Tailwind(family)),
                        Err(error) => Err(error),
                    },
                    _ => Err(ConfigurationErrorView::Unexpected("tailwind"@)),
                }
            } else {
                Err(ConfigurationErrorView::UnknownGenerator(entries[0].0))
            },
            _ => Err(ConfigurationErrorView::Unexpected("colors"@)),
        }
    }

    /// The colors that the chosen generator hands out when asked for `count` of them.
    pub open spec fn palette(self, count: nat) -> Seq<Seq<char>> {
        match self {
            ColorsView::Fixed(color) => Seq::new(count, |i: int| color),
            ColorsView::Tailwind(family) => family.palette(count),
        }
    }
}

impl DeepView for Colors {
    type V = ColorsView;

    open spec fn deep_view(&self) -> ColorsView {
        match self {
            Colors::Fixed(fixed) => ColorsView::Fixed(fixed@),
            Colors::Tailwind(family) => ColorsView::Tailwind(*family),
        }
    }
}

impl View for Colors {
    type V = ColorsView;

    open spec fn view(&self) -> ColorsView {
        self.deep_view()
    }
}

impl Colors {
    /// Makes the choice of a generator of a value of a document, as [`ColorsView::read`]
    /// says.
    pub fn from_node(node: &Node) -> (result: Result<Colors, ConfigurationError>)
        ensures
            outcome(result) == ColorsView::read(node@),
    {
        let entries = match node.as_table() {
            Some(entries) => entries,
            None => {
                return Err(ConfigurationError::Unexpected("colors".to_owned()));
            },
        };
        if entries.len() != 1 {
            return Err(ConfigurationError::Unexpected("colors".to_owned()));
        }
        assert(entries.deep_view()[0] == entries@[0].deep_view());
        let key = &entries[0].0;
        let value = &entries[0].1;
        if *key == "fixed".to_owned() {
            match value.as_text() {
                Some(text) => Ok(Colors::Fixed(Fixed::new(Color::new(text)?))),
                None => Err(ConfigurationError::Unexpected("fixed".to_owned())),
            }
        } else if *key == "tailwind".to_owned() {
            match value.as_text() {
                Some(text) => Ok(Colors::Tailwind(Tailwind::from_name(text)?)),
                None => Err(ConfigurationError::Unexpected("tailwind".to_owned())),
            }
        } else {
            Err(ConfigurationError::UnknownGenerator(key.clone()))
        }
    }
}

impl Clone for Colors {
    fn clone(&self) -> (copy: Self)
        ensures
            copy@ == self@,
    {
        match self {
            Colors::Fixed(fixed) => Colors::Fixed(fixed.clone()),
            Colors::Tailwind(family) => Colors::Tailwind(*family),
        }
    }
}

impl Generate for Colors {
    /// The palette of the chosen generator.
    open spec fn palette(&self, count: nat) -> Seq<Seq<char>> {
        self@.palette(count)
    }

    fn generate(&self, count: usize) -> (colors: Vec<Color>) {
        match self {
            Colors::Fixed(fixed) => fixed.generate(count),
            Colors::Tailwind(family) => family.generate(count),
        }
    }
}

} // verus!
