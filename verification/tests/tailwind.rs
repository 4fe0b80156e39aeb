use labelflair::colors::{Generate, Tailwind};
use labelflair::error::ConfigurationError;
use labelflair::label::Color;

fn assert_send<T: Send>() {}

fn assert_sync<T: Sync>() {}

fn assert_unpin<T: Unpin>() {}

fn color(text: &str) -> Color {
    Color::new(text).unwrap()
}

#[test]
fn alternating_indices_for_1() {
    let tailwind = Tailwind::Red;

    let indices = tailwind.alternating_indices(1);

    assert_eq!(indices, vec![4]);
}

#[test]
fn alternating_indices_for_2() {
    let tailwind = Tailwind::Red;

    let indices = tailwind.alternating_indices(2);

    assert_eq!(indices, vec![4, 3]);
}

#[test]
fn alternating_indices_for_3() {
    let tailwind = Tailwind::Red;

    let indices = tailwind.alternating_indices(3);

    assert_eq!(indices, vec![4, 3, 5]);
}

#[test]
fn alternating_indices_for_9() {
    let tailwind = Tailwind::Red;

    let indices = tailwind.alternating_indices(9);

    assert_eq!(indices, vec![4, 3, 5, 2, 6, 1, 7, 0, 8]);
}

#[test]
fn alternating_indices_for_10() {
    let tailwind = Tailwind::Red;

    let indices = tailwind.alternating_indices(10);

    assert_eq!(indices, vec![4, 3, 5, 2, 6, 1, 7, 0, 8, 4]);
}

#[test]
fn alternating_indices_for_18() {
    let tailwind = Tailwind::Red;

    let indices = tailwind.alternating_indices(18);

    assert_eq!(
        indices,
        vec![4, 3, 5, 2, 6, 1, 7, 0, 8, 4, 3, 5, 2, 6, 1, 7, 0, 8]
    );
}

#[test]
fn alternating_indices_for_0() {
    let tailwind = Tailwind::Stone;

    let indices = tailwind.alternating_indices(0);

    assert_eq!(indices, Vec::<usize>::new());
}

#[test]
fn alternating_indices_repeat_the_first_nine() {
    let nine = Tailwind::Red.alternating_indices(9);

    let indices = Tailwind::Red.alternating_indices(40);

    assert_eq!(indices.len(), 40);
    for i in 0..40 {
        assert_eq!(indices[i], nine[i % 9]);
    }
}

#[test]
fn alternating_indices_are_the_same_for_every_family() {
    assert_eq!(
        Tailwind::Sky.alternating_indices(11),
        Tailwind::Red.alternating_indices(11)
    );
}

#[test]
fn trait_generate_red() {
    let tailwind = Tailwind::Red;
    let colors = tailwind.generate(5);

    assert_eq!(
        colors,
        vec![
            color("#ef4444"),
            color("#f87171"),
            color("#dc2626"),
            color("#fca5a5"),
            color("#b91c1c")
        ]
    );
}

#[test]
fn trait_generate_blue() {
    let tailwind = Tailwind::Blue;
    let colors = tailwind.generate(12);

    assert_eq!(
        colors,
        vec![
            color("#3b82f6"),
            color("#60a5fa"),
            color("#2563eb"),
            color("#93c5fd"),
            color("#1d4ed8"),
            color("#bfdbfe"),
            color("#1e40af"),
            color("#dbeafe"),
            color("#1e3a8a"),
            color("#3b82f6"),
            color("#60a5fa"),
            color("#2563eb"),
        ]
    );
}

#[test]
fn generate_for_0_is_empty_for_every_family() {
    assert_eq!(Tailwind::Red.generate(0), Vec::<Color>::new());
    assert_eq!(Tailwind::Natural.generate(0), Vec::<Color>::new());
}

#[test]
fn generate_twice_gives_the_same_colors() {
    let first = Tailwind::Emerald.generate(14);
    let second = Tailwind::Emerald.generate(14);

    assert_eq!(first.len(), 14);
    assert_eq!(first, second);
}

#[test]
fn colors_are_the_shades_from_lightest_to_darkest() {
    let red = Tailwind::Red.colors();
    let expected = [
        color("#fee2e2"),
        color("#fecaca"),
        color("#fca5a5"),
        color("#f87171"),
        color("#ef4444"),
        color("#dc2626"),
        color("#b91c1c"),
        color("#991b1b"),
        color("#7f1d1d"),
    ];
    assert_eq!(red, expected);

    let stone = Tailwind::Stone.colors();
    assert_eq!(stone[0], color("#f5f5f4"));
    assert_eq!(stone[4], color("#78716c"));
    assert_eq!(stone[8], color("#1c1917"));
}

#[test]
fn every_family_has_nine_shades_of_its_own() {
    let families = [
        Tailwind::Red,
        Tailwind::Orange,
        Tailwind::Amber,
        Tailwind::Yellow,
        Tailwind::Lime,
        Tailwind::Green,
        Tailwind::Emerald,
        Tailwind::Teal,
        Tailwind::Cyan,
        Tailwind::Sky,
        Tailwind::Blue,
        Tailwind::Indigo,
        Tailwind::Violet,
        Tailwind::Purple,
        Tailwind::Fuchsia,
        Tailwind::Pink,
        Tailwind::Rose,
        Tailwind::Slate,
        Tailwind::Gray,
        Tailwind::Zinc,
        Tailwind::Natural,
        Tailwind::Stone,
    ];
    let centers = [
        "#ef4444", "#f97316", "#f59e0b", "#eab308", "#84cc16", "#22c55e", "#10b981", "#14b8a6",
        "#06b6d4", "#0ea5e9", "#3b82f6", "#6366f1", "#8b5cf6", "#a855f7", "#d946ef", "#ec4899",
        "#f43f5e", "#64748b", "#6b7280", "#71717a", "#737373", "#78716c",
    ];

    for (family, center) in families.iter().zip(centers.iter()) {
        assert_eq!(family.colors().len(), 9);
        assert_eq!(family.generate(1), vec![color(center)]);
    }
}

#[test]
fn from_name_finds_every_family_by_its_name() {
    let names = [
        "red", "orange", "amber", "yellow", "lime", "green", "emerald", "teal", "cyan", "sky",
        "blue", "indigo", "violet", "purple", "fuchsia", "pink", "rose", "slate", "gray", "zinc",
        "natural", "stone",
    ];
    let families = [
        Tailwind::Red,
        Tailwind::Orange,
        Tailwind::Amber,
        Tailwind::Yellow,
        Tailwind::Lime,
        Tailwind::Green,
        Tailwind::Emerald,
        Tailwind::Teal,
        Tailwind::Cyan,
        Tailwind::Sky,
        Tailwind::Blue,
        Tailwind::Indigo,
        Tailwind::Violet,
        Tailwind::Purple,
        Tailwind::Fuchsia,
        Tailwind::Pink,
        Tailwind::Rose,
        Tailwind::Slate,
        Tailwind::Gray,
        Tailwind::Zinc,
        Tailwind::Natural,
        Tailwind::Stone,
    ];

    for (family, name) in families.iter().zip(names.iter()) {
        assert_eq!(family.as_str(), *name);
        assert_eq!(Tailwind::from_name(name), Ok(*family));
    }
}

#[test]
fn from_name_takes_upper_and_lower_case() {
    assert_eq!(Tailwind::from_name("Red"), Ok(Tailwind::Red));
    assert_eq!(Tailwind::from_name("SKY"), Ok(Tailwind::Sky));
    assert_eq!(Tailwind::from_name("fuchSIA"), Ok(Tailwind::Fuchsia));
}

#[test]
fn from_name_rejects_what_is_no_family() {
    for name in ["", "re", "reds", "mauve", " red", "neutral", "r\u{e9}d"] {
        assert_eq!(
            Tailwind::from_name(name),
            Err(ConfigurationError::UnknownPalette(name.to_string()))
        );
    }
}

#[test]
fn first_nine_colors_are_the_nine_shades_each_once() {
    for family in [Tailwind::Red, Tailwind::Gray, Tailwind::Zinc, Tailwind::Natural, Tailwind::Stone] {
        let shades = family.colors();
        let colors = family.generate(9);

        for (i, color) in colors.iter().enumerate() {
            assert!(shades.contains(color));
            assert!(!colors[..i].contains(color));
        }
    }
}

#[test]
fn tailwind_trait_send() {
    assert_send::<Tailwind>();
}

#[test]
fn tailwind_trait_sync() {
    assert_sync::<Tailwind>();
}

#[test]
fn tailwind_trait_unpin() {
    assert_unpin::<Tailwind>();
}
