//! Color generator that gives every label the same color.

use vstd::prelude::*;

use crate::colors::Generate;
use crate::label::Color;

verus! {

/// A generator that hands out one color, as often as it is asked to.
#[derive(Eq, PartialEq, Ord, PartialOrd, Hash, Debug)]
pub struct Fixed(Color);

impl View for Fixed {
    type V = Seq<char>;

    /// The color that the generator hands out, as text.
    closed spec fn view(&self) -> Seq<char> {
        self.0@
    }
}

impl DeepView for Fixed {
    type V = Seq<char>;

    open spec fn deep_view(&self) -> Seq<char> {
        self@
    }
}

impl Fixed {
    /// Creates a generator that hands out `color`.
    pub fn new(color: Color) -> (fixed: Fixed)
        ensures
            fixed@ == color@,
    {
        Fixed(color)
    }
}

impl Clone for Fixed {
    fn clone(&self) -> (copy: Self)
        ensures
            copy@ == self@,
    {
        Fixed(self.0.clone())
    }
}

impl Generate for Fixed {
    /// The one color, `count` times.
    open spec fn palette(&self, count: nat) -> Seq<Seq<char>> {
        Seq::new(count, |i: int| self@)
    }

    fn generate(&self, count: usize) -> (colors: Vec<Color>)
        ensures
            forall|i: int| 0 <= i < count ==> (#[trigger] colors@[i])@ == self@,
    {
        let mut colors: Vec<Color> = Vec::new();
        for i in 0..count
            invariant
                colors@.len() == i,
                forall|k: int| 0 <= k < i ==> (#[trigger] colors@[k])@ == self@,
        {
            colors.push(self.0.clone());
        }
        assert(colors.deep_view() =~= self.palette(count as nat));
        colors
    }
}

} // verus!
