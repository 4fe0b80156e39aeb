//! Color generator based on the palettes of Tailwind CSS.
//!
//! Every family of the palette has nine shades, from the lightest to the darkest. The very
//! bright and the very dark shades of Tailwind are left out, because they are hard to tell
//! apart. The generator hands out the shades of one family, starting at the center shade and
//! alternating outward, so that the strongest colors are used first.

use vstd::prelude::*;

use crate::colors::Generate;
use crate::error::{outcome, ConfigurationError, ConfigurationErrorView};
use crate::label::Color;
use crate::text::{chars_of, is_hex_color, lowered, same_chars, to_lower};

verus! {

/// The number of shades in every family.
pub const SHADES: usize = 9;

/// A family of the Tailwind CSS palette.
#[derive(Copy, Clone, Eq, PartialEq, Ord, PartialOrd, Hash, Debug)]
pub enum Tailwind {
    Red,
    Orange,
    Amber,
    Yellow,
    Lime,
    Green,
    Emerald,
    Teal,
    Cyan,
    Sky,
    Blue,
    Indigo,
    Violet,
    Purple,
    Fuchsia,
    Pink,
    Rose,
    Slate,
    Gray,
    Zinc,
    Natural,
    Stone,
}

impl DeepView for Tailwind {
    type V = Tailwind;

    open spec fn deep_view(&self) -> Tailwind {
        *self
    }
}

impl Tailwind {
    /// The name of the family, as it is written in a configuration.
    pub open spec fn name(self) -> Seq<char> {
        match self {
            Tailwind::Red => "red"@,
            Tailwind::Orange => "orange"@,
            Tailwind::Amber => "amber"@,
            Tailwind::Yellow => "yellow"@,
            Tailwind::Lime => "lime"@,
            Tailwind::Green => "green"@,
            Tailwind::Emerald => "emerald"@,
            Tailwind::Teal => "teal"@,
            Tailwind::Cyan => "cyan"@,
            Tailwind::Sky => "sky"@,
            Tailwind::Blue => "blue"@,
            Tailwind::Indigo => "indigo"@,
            Tailwind::Violet => "violet"@,
            Tailwind::Purple => "purple"@,
            Tailwind::Fuchsia => "fuchsia"@,
            Tailwind::Pink => "pink"@,
            Tailwind::Rose => "rose"@,
            Tailwind::Slate => "slate"@,
            Tailwind::Gray => "gray"@,
            Tailwind::Zinc => "zinc"@,
            Tailwind::Natural => "natural"@,
            Tailwind::Stone => "stone"@,
        }
    }

    /// The family that goes by the name `text`. Upper and lower case count as the same.
    pub open spec fn named(text: Seq<char>) -> Option<Tailwind> {
        if exists|family: Tailwind| family.name() == lowered(text) {
            Some(choose|family: Tailwind| family.name() == lowered(text))
        } else {
            None
        }
    }

    /// What becomes of a text that is given as the name of a family.
    pub open spec fn read(text: Seq<char>) -> Result<Tailwind, ConfigurationErrorView> {
        match Self::named(text) {
            Some(family) => Ok(family),
            None => Err(ConfigurationErrorView::UnknownPalette(text)),
        }
    }

    /// No two families have the same name.
    pub proof fn lemma_names_differ(a: Tailwind, b: Tailwind)
        requires
            a.name() == b.name(),
        ensures
            a == b,
    {
        Self::lemma_names_spelled();
    }

    /// Every family is found by its name.
    pub proof fn lemma_named_by_name(family: Tailwind)
        ensures
            Self::named(family.name()) == Some(family),
    {
        Self::lemma_names_spelled();
        assert(lowered(family.name()) =~= family.name());
        let found = choose|other: Tailwind| other.name() == lowered(family.name());
        Self::lemma_names_differ(found, family);
    }

    /// How long the names are, and how they begin: enough to tell them apart and to see that
    /// they are written in lower case.
    proof fn lemma_names_spelled()
        ensures
            forall|family: Tailwind| 3 <= (#[trigger] family.name()).len() <= 7,
            forall|family: Tailwind, i: int|
                0 <= i < family.name().len() ==> 'a' <= #[trigger] family.name()[i] <= 'z',
            forall|a: Tailwind, b: Tailwind|
                a != b ==> (#[trigger] a.name()).len() != (#[trigger] b.name()).len()
                    || a.name()[0] != b.name()[0] || a.name()[1] != b.name()[1]
                    || a.name()[2] != b.name()[2],
    {
        reveal_strlit("red");
        reveal_strlit("orange");
        reveal_strlit("amber");
        reveal_strlit("yellow");
        reveal_strlit("lime");
        reveal_strlit("green");
        reveal_strlit("emerald");
        reveal_strlit("teal");
        reveal_strlit("cyan");
        reveal_strlit("sky");
        reveal_strlit("blue");
        reveal_strlit("indigo");
        reveal_strlit("violet");
        reveal_strlit("purple");
        reveal_strlit("fuchsia");
        reveal_strlit("pink");
        reveal_strlit("rose");
        reveal_strlit("slate");
        reveal_strlit("gray");
        reveal_strlit("zinc");
        reveal_strlit("natural");
        reveal_strlit("stone");
    }

    /// Returns the name of the family, as it is written in a configuration.
    pub fn as_str(&self) -> (name: &'static str)
        ensures
            name@ == self.name(),
    {
        match self {
            Tailwind::Red => "red",
            Tailwind::Orange => "orange",
            Tailwind::Amber => "amber",
            Tailwind::Yellow => "yellow",
            Tailwind::Lime => "lime",
            Tailwind::Green => "green",
            Tailwind::Emerald => "emerald",
            Tailwind::Teal => "teal",
            Tailwind::Cyan => "cyan",
            Tailwind::Sky => "sky",
            Tailwind::Blue => "blue",
            Tailwind::Indigo => "indigo",
            Tailwind::Violet => "violet",
            Tailwind::Purple => "purple",
            Tailwind::Fuchsia => "fuchsia",
            Tailwind::Pink => "pink",
            Tailwind::Rose => "rose",
            Tailwind::Slate => "slate",
            Tailwind::Gray => "gray",
            Tailwind::Zinc => "zinc",
            Tailwind::Natural => "natural",
            Tailwind::Stone => "stone",
        }
    }

    /// Returns all families, in the order of the catalog.
    fn all() -> (families: [Tailwind; 22])
        ensures
            forall|family: Tailwind| families@.contains(family),
    {
        let families = [
            Tailwind::Red, Tailwind::Orange, Tailwind::Amber, Tailwind::Yellow, Tailwind::Lime,
            Tailwind::Green, Tailwind::Emerald, Tailwind::Teal, Tailwind::Cyan, Tailwind::Sky,
            Tailwind::Blue, Tailwind::Indigo, Tailwind::Violet, Tailwind::Purple, Tailwind::Fuchsia,
            Tailwind::Pink, Tailwind::Rose, Tailwind::Slate, Tailwind::Gray, Tailwind::Zinc,
            Tailwind::Natural, Tailwind::Stone,
        ];
        assert forall|family: Tailwind| families@.contains(family) by {
            let i: int = match family {
                Tailwind::Red => 0,
                Tailwind::Orange => 1,
                Tailwind::Amber => 2,
                Tailwind::Yellow => 3,
                Tailwind::Lime => 4,
                Tailwind::Green => 5,
                Tailwind::Emerald => 6,
                Tailwind::Teal => 7,
                Tailwind::Cyan => 8,
                Tailwind::Sky => 9,
                Tailwind::Blue => 10,
                Tailwind::Indigo => 11,
                Tailwind::Violet => 12,
                Tailwind::Purple => 13,
                Tailwind::Fuchsia => 14,
                Tailwind::Pink => 15,
                Tailwind::Rose => 16,
                Tailwind::Slate => 17,
                Tailwind::Gray => 18,
                Tailwind::Zinc => 19,
                Tailwind::Natural => 20,
                Tailwind::Stone => 21,
            };
            assert(families@[i] == family);
        }
        families
    }

    /// Finds the family that goes by the name `text`. Upper and lower case count as the same.
    pub fn from_name(text: &str) -> (result: Result<Tailwind, ConfigurationError>)
        ensures
            outcome(result) == Self::read(text@),
    {
        let name = to_lower(text);
        let families = Self::all();
        for i in 0..22
            invariant
                name@ == lowered(text@),
                forall|family: Tailwind| families@.contains(family),
                forall|k: int| 0 <= k < i ==> (#[trigger] families@[k]).name() != lowered(text@),
        {
            let candidate = chars_of(families[i].as_str());
            if same_chars(&name, &candidate) {
                proof {
                    let found = choose|family: Tailwind| family.name() == lowered(text@);
                    Self::lemma_names_differ(found, families@[i as int]);
                }
                return Ok(families[i]);
            }
        }
        proof {
            assert forall|family: Tailwind| family.name() != lowered(text@) by {
                assert(families@.contains(family));
                let k = choose|k: int| 0 <= k < families@.len() && families@[k] == family;
                assert(families@[k].name() != lowered(text@));
            }
        }
        Err(ConfigurationError::UnknownPalette(text.to_owned()))
    }

    /// The nine shades of the family, from the lightest (shade 0) to the darkest (shade 8).
    pub open spec fn shades(self) -> Seq<Seq<char>> {
        match self {
            Tailwind::Red => seq![
                "#fee2e2"@, "#fecaca"@, "#fca5a5"@, "#f87171"@, "#ef4444"@, "#dc2626"@, "#b91c1c"@,
                "#991b1b"@, "#7f1d1d"@,
            ],
            Tailwind::Orange => seq![
                "#ffedd5"@, "#fed7aa"@, "#fdba74"@, "#fb923c"@, "#f97316"@, "#ea580c"@, "#c2410c"@,
                "#9a3412"@, "#7c2d12"@,
            ],
            Tailwind::Amber => seq![
                "#fef3c7"@, "#fde68a"@, "#fcd34d"@, "#fbbf24"@, "#f59e0b"@, "#d97706"@, "#b45309"@,
                "#92400e"@, "#78350f"@,
            ],
            Tailwind::Yellow => seq![
                "#fef9c3"@, "#fef08a"@, "#fde047"@, "#facc15"@, "#eab308"@, "#ca8a04"@, "#a16207"@,
                "#854d0e"@, "#713f12"@,
            ],
            Tailwind::Lime => seq![
                "#ecfccb"@, "#d9f99d"@, "#bef264"@, "#a3e635"@, "#84cc16"@, "#65a30d"@, "#4d7c0f"@,
                "#3f6212"@, "#365314"@,
            ],
            Tailwind::Green => seq![
                "#dcfce7"@, "#bbf7d0"@, "#86efac"@, "#4ade80"@, "#22c55e"@, "#16a34a"@, "#15803d"@,
                "#166534"@, "#14532d"@,
            ],
            Tailwind::Emerald => seq![
                "#d1fae5"@, "#a7f3d0"@, "#6ee7b7"@, "#34d399"@, "#10b981"@, "#059669"@, "#047857"@,
                "#065f46"@, "#064e3b"@,
            ],
            Tailwind::Teal => seq![
                "#ccfbf1"@, "#99f6e4"@, "#5eead4"@, "#2dd4bf"@, "#14b8a6"@, "#0d9488"@, "#0f766e"@,
                "#115e59"@, "#134e4a"@,
            ],
            Tailwind::Cyan => seq![
                "#cffafe"@, "#a5f3fc"@, "#67e8f9"@, "#22d3ee"@, "#06b6d4"@, "#0891b2"@, "#0e7490"@,
                "#155e75"@, "#164e63"@,
            ],
            Tailwind::Sky => seq![
                "#e0f2fe"@, "#bae6fd"@, "#7dd3fc"@, "#38bdf8"@, "#0ea5e9"@, "#0284c7"@, "#0369a1"@,
                "#075985"@, "#0c4a6e"@,
            ],
            Tailwind::Blue => seq![
                "#dbeafe"@, "#bfdbfe"@, "#93c5fd"@, "#60a5fa"@, "#3b82f6"@, "#2563eb"@, "#1d4ed8"@,
                "#1e40af"@, "#1e3a8a"@,
            ],
            Tailwind::Indigo => seq![
                "#e0e7ff"@, "#c7d2fe"@, "#a5b4fc"@, "#818cf8"@, "#6366f1"@, "#4f46e5"@, "#4338ca"@,
                "#3730a3"@, "#312e81"@,
            ],
            Tailwind::Violet => seq![
                "#ede9fe"@, "#ddd6fe"@, "#c4b5fd"@, "#a78bfa"@, "#8b5cf6"@, "#7c3aed"@, "#6d28d9"@,
                "#5b21b6"@, "#4c1d95"@,
            ],
            Tailwind::Purple => seq![
                "#f3e8ff"@, "#e9d5ff"@, "#d8b4fe"@, "#c084fc"@, "#a855f7"@, "#9333ea"@, "#7e22ce"@,
                "#6b21a8"@, "#581c87"@,
            ],
            Tailwind::Fuchsia => seq![
                "#fae8ff"@, "#f5d0fe"@, "#f0abfc"@, "#e879f9"@, "#d946ef"@, "#c026d3"@, "#a21caf"@,
                "#86198f"@, "#701a75"@,
            ],
            Tailwind::Pink => seq![
                "#fce7f3"@, "#fbcfe8"@, "#f9a8d4"@, "#f472b6"@, "#ec4899"@, "#db2777"@, "#be185d"@,
                "#9d174d"@, "#831843"@,
            ],
            Tailwind::Rose => seq![
                "#ffe4e6"@, "#fecdd3"@, "#fda4af"@, "#fb7185"@, "#f43f5e"@, "#e11d48"@, "#be123c"@,
                "#9f1239"@, "#881337"@,
            ],
            Tailwind::Slate => seq![
                "#f1f5f9"@, "#e2e8f0"@, "#cbd5e1"@, "#94a3b8"@, "#64748b"@, "#475569"@, "#334155"@,
                "#1e293b"@, "#0f172a"@,
            ],
            Tailwind::Gray => seq![
                "#f3f4f6"@, "#e5e7eb"@, "#d1d5db"@, "#9ca3af"@, "#6b7280"@, "#4b5563"@, "#374151"@,
                "#1f2937"@, "#111827"@,
            ],
            Tailwind::Zinc => seq![
                "#f4f4f5"@, "#e4e4e7"@, "#d4d4d8"@, "#a1a1aa"@, "#71717a"@, "#52525b"@, "#3f3f46"@,
                "#27272a"@, "#18181b"@,
            ],
            Tailwind::Natural => seq![
                "#f5f5f5"@, "#e5e5e5"@, "#d4d4d4"@, "#a3a3a3"@, "#737373"@, "#525252"@, "#404040"@,
                "#262626"@, "#171717"@,
            ],
            Tailwind::Stone => seq![
                "#f5f5f4"@, "#e7e5e4"@, "#d6d3d1"@, "#a8a29e"@, "#78716c"@, "#57534e"@, "#44403c"@,
                "#292524"@, "#1c1917"@,
            ],
        }
    }

    /// Returns the nine shades of the family, from the lightest to the darkest.
    pub fn colors(&self) -> (colors: [Color; 9])
        ensures
            colors.deep_view() == self.shades(),
    {
        let shades: [&'static str; 9] = match self {
            Tailwind::Red => [
                "#fee2e2", "#fecaca", "#fca5a5", "#f87171", "#ef4444", "#dc2626", "#b91c1c",
                "#991b1b", "#7f1d1d",
            ],
            Tailwind::Orange => [
                "#ffedd5", "#fed7aa", "#fdba74", "#fb923c", "#f97316", "#ea580c", "#c2410c",
                "#9a3412", "#7c2d12",
            ],
            Tailwind::Amber => [
                "#fef3c7", "#fde68a", "#fcd34d", "#fbbf24", "#f59e0b", "#d97706", "#b45309",
                "#92400e", "#78350f",
            ],
            Tailwind::Yellow => [
                "#fef9c3", "#fef08a", "#fde047", "#facc15", "#eab308", "#ca8a04", "#a16207",
                "#854d0e", "#713f12",
            ],
            Tailwind::Lime => [
                "#ecfccb", "#d9f99d", "#bef264", "#a3e635", "#84cc16", "#65a30d", "#4d7c0f",
                "#3f6212", "#365314",
            ],
            Tailwind::Green => [
                "#dcfce7", "#bbf7d0", "#86efac", "#4ade80", "#22c55e", "#16a34a", "#15803d",
                "#166534", "#14532d",
            ],
            Tailwind::Emerald => [
                "#d1fae5", "#a7f3d0", "#6ee7b7", "#34d399", "#10b981", "#059669", "#047857",
                "#065f46", "#064e3b",
            ],
            Tailwind::Teal => [
                "#ccfbf1", "#99f6e4", "#5eead4", "#2dd4bf", "#14b8a6", "#0d9488", "#0f766e",
                "#115e59", "#134e4a",
            ],
            Tailwind::Cyan => [
                "#cffafe", "#a5f3fc", "#67e8f9", "#22d3ee", "#06b6d4", "#0891b2", "#0e7490",
                "#155e75", "#164e63",
            ],
            Tailwind::Sky => [
                "#e0f2fe", "#bae6fd", "#7dd3fc", "#38bdf8", "#0ea5e9", "#0284c7", "#0369a1",
                "#075985", "#0c4a6e",
            ],
            Tailwind::Blue => [
                "#dbeafe", "#bfdbfe", "#93c5fd", "#60a5fa", "#3b82f6", "#2563eb", "#1d4ed8",
                "#1e40af", "#1e3a8a",
            ],
            Tailwind::Indigo => [
                "#e0e7ff", "#c7d2fe", "#a5b4fc", "#818cf8", "#6366f1", "#4f46e5", "#4338ca",
                "#3730a3", "#312e81",
            ],
            Tailwind::Violet => [
                "#ede9fe", "#ddd6fe", "#c4b5fd", "#a78bfa", "#8b5cf6", "#7c3aed", "#6d28d9",
                "#5b21b6", "#4c1d95",
            ],
            Tailwind::Purple => [
                "#f3e8ff", "#e9d5ff", "#d8b4fe", "#c084fc", "#a855f7", "#9333ea", "#7e22ce",
                "#6b21a8", "#581c87",
            ],
            Tailwind::Fuchsia => [
                "#fae8ff", "#f5d0fe", "#f0abfc", "#e879f9", "#d946ef", "#c026d3", "#a21caf",
                "#86198f", "#701a75",
            ],
            Tailwind::Pink => [
                "#fce7f3", "#fbcfe8", "#f9a8d4", "#f472b6", "#ec4899", "#db2777", "#be185d",
                "#9d174d", "#831843",
            ],
            Tailwind::Rose => [
                "#ffe4e6", "#fecdd3", "#fda4af", "#fb7185", "#f43f5e", "#e11d48", "#be123c",
                "#9f1239", "#881337",
            ],
            Tailwind::Slate => [
                "#f1f5f9", "#e2e8f0", "#cbd5e1", "#94a3b8", "#64748b", "#475569", "#334155",
                "#1e293b", "#0f172a",
            ],
            Tailwind::Gray => [
                "#f3f4f6", "#e5e7eb", "#d1d5db", "#9ca3af", "#6b7280", "#4b5563", "#374151",
                "#1f2937", "#111827",
            ],
            Tailwind::Zinc => [
                "#f4f4f5", "#e4e4e7", "#d4d4d8", "#a1a1aa", "#71717a", "#52525b", "#3f3f46",
                "#27272a", "#18181b",
            ],
            Tailwind::Natural => [
                "#f5f5f5", "#e5e5e5", "#d4d4d4", "#a3a3a3", "#737373", "#525252", "#404040",
                "#262626", "#171717",
            ],
            Tailwind::Stone => [
                "#f5f5f4", "#e7e5e4", "#d6d3d1", "#a8a29e", "#78716c", "#57534e", "#44403c",
                "#292524", "#1c1917",
            ],
        };
        proof {
            self.lemma_shades();
            assert(shades.deep_view() =~= self.shades());
        }
        let colors = [
            Color::from_hex(shades[0]),
            Color::from_hex(shades[1]),
            Color::from_hex(shades[2]),
            Color::from_hex(shades[3]),
            Color::from_hex(shades[4]),
            Color::from_hex(shades[5]),
            Color::from_hex(shades[6]),
            Color::from_hex(shades[7]),
            Color::from_hex(shades[8]),
        ];
        assert(colors.deep_view() =~= self.shades());
        colors
    }

    /// The six characters behind the `#` of a color, read as one number. Two colors that give
    /// different numbers are different colors.
    spec fn digits(color: Seq<char>) -> int {
        ((((color[1] as int * 128 + color[2] as int) * 128 + color[3] as int) * 128
            + color[4] as int) * 128 + color[5] as int) * 128 + color[6] as int
    }

    /// Every family has nine shades, each a color in hex format, and no two of them the same.
    pub proof fn lemma_shades(self)
        ensures
            self.shades().len() == SHADES,
            forall|i: int| 0 <= i < SHADES ==> is_hex_color(#[trigger] self.shades()[i]),
            forall|i: int, j: int|
                0 <= i < j < SHADES ==> #[trigger] self.shades()[i] != #[trigger] self.shades()[j],
    {
        match self {
            Tailwind::Red => {
                reveal_strlit("#fee2e2");
                reveal_strlit("#fecaca");
                reveal_strlit("#fca5a5");
                reveal_strlit("#f87171");
                reveal_strlit("#ef4444");
                reveal_strlit("#dc2626");
                reveal_strlit("#b91c1c");
                reveal_strlit("#991b1b");
                reveal_strlit("#7f1d1d");
            },
            Tailwind::Orange => {
                reveal_strlit("#ffedd5");
                reveal_strlit("#fed7aa");
                reveal_strlit("#fdba74");
                reveal_strlit("#fb923c");
                reveal_strlit("#f97316");
                reveal_strlit("#ea580c");
                reveal_strlit("#c2410c");
                reveal_strlit("#9a3412");
                reveal_strlit("#7c2d12");
            },
            Tailwind::Amber => {
                reveal_strlit("#fef3c7");
                reveal_strlit("#fde68a");
                reveal_strlit("#fcd34d");
                reveal_strlit("#fbbf24");
                reveal_strlit("#f59e0b");
                reveal_strlit("#d97706");
                reveal_strlit("#b45309");
                reveal_strlit("#92400e");
                reveal_strlit("#78350f");
            },
            Tailwind::Yellow => {
                reveal_strlit("#fef9c3");
                reveal_strlit("#fef08a");
                reveal_strlit("#fde047");
                reveal_strlit("#facc15");
                reveal_strlit("#eab308");
                reveal_strlit("#ca8a04");
                reveal_strlit("#a16207");
                reveal_strlit("#854d0e");
                reveal_strlit("#713f12");
            },
            Tailwind::Lime => {
                reveal_strlit("#ecfccb");
                reveal_strlit("#d9f99d");
                reveal_strlit("#bef264");
                reveal_strlit("#a3e635");
                reveal_strlit("#84cc16");
                reveal_strlit("#65a30d");
                reveal_strlit("#4d7c0f");
                reveal_strlit("#3f6212");
                reveal_strlit("#365314");
            },
            Tailwind::Green => {
                reveal_strlit("#dcfce7");
                reveal_strlit("#bbf7d0");
                reveal_strlit("#86efac");
                reveal_strlit("#4ade80");
                reveal_strlit("#22c55e");
                reveal_strlit("#16a34a");
                reveal_strlit("#15803d");
                reveal_strlit("#166534");
                reveal_strlit("#14532d");
            },
            Tailwind::Emerald => {
                reveal_strlit("#d1fae5");
                reveal_strlit("#a7f3d0");
                reveal_strlit("#6ee7b7");
                reveal_strlit("#34d399");
                reveal_strlit("#10b981");
                reveal_strlit("#059669");
                reveal_strlit("#047857");
                reveal_strlit("#065f46");
                reveal_strlit("#064e3b");
            },
            Tailwind::Teal => {
                reveal_strlit("#ccfbf1");
                reveal_strlit("#99f6e4");
                reveal_strlit("#5eead4");
                reveal_strlit("#2dd4bf");
                reveal_strlit("#14b8a6");
                reveal_strlit("#0d9488");
                reveal_strlit("#0f766e");
                reveal_strlit("#115e59");
                reveal_strlit("#134e4a");
            },
            Tailwind::Cyan => {
                reveal_strlit("#cffafe");
                reveal_strlit("#a5f3fc");
                reveal_strlit("#67e8f9");
                reveal_strlit("#22d3ee");
                reveal_strlit("#06b6d4");
                reveal_strlit("#0891b2");
                reveal_strlit("#0e7490");
                reveal_strlit("#155e75");
                reveal_strlit("#164e63");
            },
            Tailwind::Sky => {
                reveal_strlit("#e0f2fe");
                reveal_strlit("#bae6fd");
                reveal_strlit("#7dd3fc");
                reveal_strlit("#38bdf8");
                reveal_strlit("#0ea5e9");
                reveal_strlit("#0284c7");
                reveal_strlit("#0369a1");
                reveal_strlit("#075985");
                reveal_strlit("#0c4a6e");
            },
            Tailwind::Blue => {
                reveal_strlit("#dbeafe");
                reveal_strlit("#bfdbfe");
                reveal_strlit("#93c5fd");
                reveal_strlit("#60a5fa");
                reveal_strlit("#3b82f6");
                reveal_strlit("#2563eb");
                reveal_strlit("#1d4ed8");
                reveal_strlit("#1e40af");
                reveal_strlit("#1e3a8a");
            },
            Tailwind::Indigo => {
                reveal_strlit("#e0e7ff");
                reveal_strlit("#c7d2fe");
                reveal_strlit("#a5b4fc");
                reveal_strlit("#818cf8");
                reveal_strlit("#6366f1");
                reveal_strlit("#4f46e5");
                reveal_strlit("#4338ca");
                reveal_strlit("#3730a3");
                reveal_strlit("#312e81");
            },
            Tailwind::Violet => {
                reveal_strlit("#ede9fe");
                reveal_strlit("#ddd6fe");
                reveal_strlit("#c4b5fd");
                reveal_strlit("#a78bfa");
                reveal_strlit("#8b5cf6");
                reveal_strlit("#7c3aed");
                reveal_strlit("#6d28d9");
                reveal_strlit("#5b21b6");
                reveal_strlit("#4c1d95");
            },
            Tailwind::Purple => {
                reveal_strlit("#f3e8ff");
                reveal_strlit("#e9d5ff");
                reveal_strlit("#d8b4fe");
                reveal_strlit("#c084fc");
                reveal_strlit("#a855f7");
                reveal_strlit("#9333ea");
                reveal_strlit("#7e22ce");
                reveal_strlit("#6b21a8");
                reveal_strlit("#581c87");
            },
            Tailwind::Fuchsia => {
                reveal_strlit("#fae8ff");
                reveal_strlit("#f5d0fe");
                reveal_strlit("#f0abfc");
                reveal_strlit("#e879f9");
                reveal_strlit("#d946ef");
                reveal_strlit("#c026d3");
                reveal_strlit("#a21caf");
                reveal_strlit("#86198f");
                reveal_strlit("#701a75");
            },
            Tailwind::Pink => {
                reveal_strlit("#fce7f3");
                reveal_strlit("#fbcfe8");
                reveal_strlit("#f9a8d4");
                reveal_strlit("#f472b6");
                reveal_strlit("#ec4899");
                reveal_strlit("#db2777");
                reveal_strlit("#be185d");
                reveal_strlit("#9d174d");
                reveal_strlit("#831843");
            },
            Tailwind::Rose => {
                reveal_strlit("#ffe4e6");
                reveal_strlit("#fecdd3");
                reveal_strlit("#fda4af");
                reveal_strlit("#fb7185");
                reveal_strlit("#f43f5e");
                reveal_strlit("#e11d48");
                reveal_strlit("#be123c");
                reveal_strlit("#9f1239");
                reveal_strlit("#881337");
            },
            Tailwind::Slate => {
                reveal_strlit("#f1f5f9");
                reveal_strlit("#e2e8f0");
                reveal_strlit("#cbd5e1");
                reveal_strlit("#94a3b8");
                reveal_strlit("#64748b");
                reveal_strlit("#475569");
                reveal_strlit("#334155");
                reveal_strlit("#1e293b");
                reveal_strlit("#0f172a");
            },
            Tailwind::Gray => {
                reveal_strlit("#f3f4f6");
                reveal_strlit("#e5e7eb");
                reveal_strlit("#d1d5db");
                reveal_strlit("#9ca3af");
                reveal_strlit("#6b7280");
                reveal_strlit("#4b5563");
                reveal_strlit("#374151");
                reveal_strlit("#1f2937");
                reveal_strlit("#111827");
            },
            Tailwind::Zinc => {
                reveal_strlit("#f4f4f5");
                reveal_strlit("#e4e4e7");
                reveal_strlit("#d4d4d8");
                reveal_strlit("#a1a1aa");
                reveal_strlit("#71717a");
                reveal_strlit("#52525b");
                reveal_strlit("#3f3f46");
                reveal_strlit("#27272a");
                reveal_strlit("#18181b");
            },
            Tailwind::Natural => {
                reveal_strlit("#f5f5f5");
                reveal_strlit("#e5e5e5");
                reveal_strlit("#d4d4d4");
                reveal_strlit("#a3a3a3");
                reveal_strlit("#737373");
                reveal_strlit("#525252");
                reveal_strlit("#404040");
                reveal_strlit("#262626");
                reveal_strlit("#171717");
            },
            Tailwind::Stone => {
                reveal_strlit("#f5f5f4");
                reveal_strlit("#e7e5e4");
                reveal_strlit("#d6d3d1");
                reveal_strlit("#a8a29e");
                reveal_strlit("#78716c");
                reveal_strlit("#57534e");
                reveal_strlit("#44403c");
                reveal_strlit("#292524");
                reveal_strlit("#1c1917");
            },
        }
        assert forall|i: int, j: int| 0 <= i < j < SHADES implies #[trigger] self.shades()[i]
            != #[trigger] self.shades()[j] by {
            assert(Self::digits(self.shades()[i]) != Self::digits(self.shades()[j]));
        }
    }

    /// The shade in the middle of a family.
    pub open spec fn center() -> int {
        SHADES as int / 2
    }

    /// The shade at position `j` of the base sequence. The sequence starts at the center
    /// shade; after it come, for every distance `d` from 1 on, the shade `d` below the center
    /// and then the shade `d` above it.
    pub open spec fn base_index(j: int) -> int {
        if j == 0 {
            Self::center()
        } else if j % 2 == 1 {
            Self::center() - (j + 1) / 2
        } else {
            Self::center() + j / 2
        }
    }

    /// The base sequence: the order in which the shades of a family are handed out.
    pub open spec fn base() -> Seq<int> {
        Seq::new(SHADES as nat, |j: int| Self::base_index(j))
    }

    /// The shades of the first `count` colors: the base sequence, repeated as often as needed.
    pub open spec fn indices(count: nat) -> Seq<int> {
        Seq::new(count, |i: int| Self::base()[i % (SHADES as int)])
    }

    /// The base sequence, written out.
    pub proof fn lemma_base()
        ensures
            Self::base() == seq![4int, 3, 5, 2, 6, 1, 7, 0, 8],
    {
        assert(Self::base() =~= seq![4int, 3, 5, 2, 6, 1, 7, 0, 8]);
    }

    /// The base sequence visits every shade exactly once, and never moves closer to the center.
    pub proof fn lemma_base_visits_every_shade()
        ensures
            Self::base().len() == SHADES,
            forall|j: int| 0 <= j < SHADES ==> 0 <= #[trigger] Self::base()[j] < SHADES,
            forall|j: int, k: int|
                0 <= j < k < SHADES ==> #[trigger] Self::base()[j] != #[trigger] Self::base()[k],
            forall|j: int, k: int|
                0 <= j <= k < SHADES ==> vstd::math::abs(#[trigger] Self::base()[j] - Self::center())
                    <= vstd::math::abs(#[trigger] Self::base()[k] - Self::center()),
    {
        Self::lemma_base();
    }

    /// Asking for more colors never changes the colors already handed out: the shade at
    /// position `i` is the shade at position `i % 9` of a sequence of nine.
    pub proof fn lemma_indices_wrap(count: nat, i: int)
        requires
            0 <= i < count,
        ensures
            Self::indices(count)[i] == Self::indices(SHADES as nat)[i % (SHADES as int)],
    {
    }

    /// Generates the shades of `count` colors: the position in the family of each of them.
    ///
    /// With nine shades, the first three are `[4, 3, 5]`: the center shade, then its two
    /// neighbors. When more colors are asked for than there are shades, the sequence starts
    /// over.
    pub fn alternating_indices(&self, count: usize) -> (indices: Vec<usize>)
        ensures
            indices@.len() == count,
            indices@.map_values(|index: usize| index as int) == Self::indices(count as nat),
            forall|i: int|
                0 <= i < count ==> #[trigger] indices@[i] == Self::base()[i % (SHADES as int)],
    {
        let center: usize = SHADES / 2;
        let mut base: Vec<usize> = Vec::new();
        base.push(center);
        let mut d: usize = 1;
        while d <= center
            invariant
                center == Self::center(),
                1 <= d <= center + 1,
                base@.len() == 2 * d - 1,
                forall|j: int| 0 <= j < base@.len() ==> base@[j] == Self::base_index(j),
            decreases center + 1 - d,
        {
            base.push(center - d);
            base.push(center + d);
            d += 1;
        }
        let mut indices: Vec<usize> = Vec::new();
        for i in 0..count
            invariant
                base@.len() == SHADES,
                forall|j: int| 0 <= j < base@.len() ==> base@[j] == Self::base_index(j),
                indices@.len() == i,
                forall|k: int|
                    0 <= k < i ==> indices@[k] == Self::base()[k % (SHADES as int)],
        {
            indices.push(base[i % base.len()]);
        }
        assert(indices@.map_values(|index: usize| index as int) =~= Self::indices(count as nat));
        indices
    }
}

impl Tailwind {
    /// The colors of a family repeat after nine: the color at a position is the color nine
    /// positions earlier.
    pub proof fn lemma_palette_repeats(self, count: nat, i: int)
        requires
            SHADES <= i < count,
        ensures
            self.palette(count)[i] == self.palette(count)[i - SHADES],
    {
    }

    /// Among the first nine colors of a family none comes twice.
    pub proof fn lemma_palette_starts_without_repeat(self, count: nat, i: int, j: int)
        requires
            0 <= i < j < SHADES,
            j < count,
        ensures
            self.palette(count)[i] != self.palette(count)[j],
    {
        self.lemma_shades();
        Self::lemma_base_visits_every_shade();
        let first = Self::base()[i];
        let second = Self::base()[j];
        if first < second {
            assert(self.shades()[first] != self.shades()[second]);
        } else {
            assert(self.shades()[second] != self.shades()[first]);
        }
    }

    /// Every shade of a family is among its first nine colors.
    pub proof fn lemma_palette_starts_with_every_shade(self, count: nat, shade: int) -> (i: int)
        requires
            SHADES <= count,
            0 <= shade < SHADES,
        ensures
            0 <= i < SHADES,
            self.palette(count)[i] == self.shades()[shade],
    {
        Self::lemma_base();
        if shade == 4 {
            0
        } else if shade < 4 {
            2 * (4 - shade) - 1
        } else {
            2 * (shade - 4)
        }
    }
}

impl Generate for Tailwind {
    /// The shades of the family in the order of the base sequence, repeated as often as
    /// needed.
    open spec fn palette(&self, count: nat) -> Seq<Seq<char>> {
        Seq::new(count, |i: int| self.shades()[Tailwind::indices(count)[i]])
    }

    fn generate(&self, count: usize) -> (colors: Vec<Color>) {
        let shades = self.colors();
        let indices = self.alternating_indices(count);
        let mut colors: Vec<Color> = Vec::new();
        for i in 0..count
            invariant
                shades.deep_view() == self.shades(),
                indices@.len() == count,
                indices@.map_values(|index: usize| index as int) == Tailwind::indices(
                    count as nat,
                ),
                colors@.len() == i,
                forall|k: int|
                    0 <= k < i ==> (#[trigger] colors@[k])@ == self.shades()[Tailwind::indices(
                        count as nat,
                    )[k]],
        {
            assert(indices@[i as int] as int == indices@.map_values(|index: usize| index as int)[i as int]);
            let color = shades[indices[i] % shades.len()].clone();
            colors.push(color);
        }
        assert(colors.deep_view() =~= self.palette(count as nat));
        colors
    }
}

} // verus!
