use labelflair::colors::{Colors, Fixed, Tailwind};
use labelflair::config::v1::{Group, GroupName, LabelVariant, Prefix};
use labelflair::label::{Color, Description, Label, LabelName};

fn assert_send<T: Send>() {}

fn assert_sync<T: Sync>() {}

fn assert_unpin<T: Unpin>() {}

fn name(text: &str) -> LabelName {
    LabelName::new(text).unwrap()
}

fn color(text: &str) -> Color {
    Color::new(text).unwrap()
}

fn label(label_name: &str, label_color: &str) -> Label {
    Label::builder().name(name(label_name)).color(color(label_color)).build()
}

#[test]
fn expand() {
    let group = Group::builder()
        .prefix(Some(Prefix::new("C-")))
        .colors(Colors::Tailwind(Tailwind::Red))
        .labels(vec![
            LabelVariant::Name(name("bug")),
            LabelVariant::Name(name("feature")),
        ])
        .build();

    let labels = group.expand();
    let expected = vec![label("C-bug", "#ef4444"), label("C-feature", "#f87171")];

    assert_eq!(labels, expected);
}

#[test]
fn expand_sorts_labels() {
    let group = Group::builder()
        .prefix(Some(Prefix::new("C-")))
        .colors(Colors::Tailwind(Tailwind::Red))
        .labels(vec![
            LabelVariant::Name(name("feature")),
            LabelVariant::Name(name("alpha")),
            LabelVariant::Name(name("bug")),
        ])
        .build();

    let labels = group.expand();
    let expected = vec![
        label("C-alpha", "#ef4444"),
        label("C-bug", "#f87171"),
        label("C-feature", "#dc2626"),
    ];

    assert_eq!(labels, expected);
}

#[test]
fn expand_without_prefix_keeps_the_names() {
    let group = Group::builder()
        .prefix(None)
        .colors(Colors::Fixed(Fixed::new(color("#0000FF"))))
        .labels(vec![
            LabelVariant::Name(name("zeta")),
            LabelVariant::Name(name("eta")),
        ])
        .build();

    let labels = group.expand();
    let expected = vec![label("eta", "#0000FF"), label("zeta", "#0000FF")];

    assert_eq!(labels, expected);
}

#[test]
fn expand_of_no_labels_is_empty() {
    let group = Group::builder()
        .prefix(Some(Prefix::new("C-")))
        .colors(Colors::Tailwind(Tailwind::Blue))
        .labels(Vec::new())
        .build();

    assert_eq!(group.expand(), Vec::<Label>::new());
}

#[test]
fn expand_keeps_descriptions_and_drops_aliases() {
    let group = Group::builder()
        .prefix(Some(Prefix::new("T-")))
        .colors(Colors::Tailwind(Tailwind::Green))
        .labels(vec![
            LabelVariant::WithDescription {
                name: name("infra"),
                description: Some(Description::new("The infrastructure team")),
                aliases: vec![name("ops")],
            },
            LabelVariant::Name(name("docs")),
            LabelVariant::WithDescription {
                name: name("core"),
                description: None,
                aliases: Vec::new(),
            },
        ])
        .build();

    let labels = group.expand();
    let expected = vec![
        label("T-core", "#22c55e"),
        label("T-docs", "#4ade80"),
        Label::builder()
            .name(name("T-infra"))
            .color(color("#16a34a"))
            .description(Some(Description::new("The infrastructure team")))
            .build(),
    ];

    assert_eq!(labels, expected);
}

#[test]
fn expand_sorts_by_name_whatever_the_variant() {
    let group = Group::builder()
        .prefix(None)
        .colors(Colors::Tailwind(Tailwind::Red))
        .labels(vec![
            LabelVariant::Name(name("b")),
            LabelVariant::WithDescription {
                name: name("a"),
                description: Some(Description::new("first")),
                aliases: Vec::new(),
            },
        ])
        .build();

    let labels = group.expand();

    assert_eq!(labels[0].name().get(), "a");
    assert_eq!(labels[0].color().get(), "#ef4444");
    assert_eq!(labels[1].name().get(), "b");
    assert_eq!(labels[1].color().get(), "#f87171");
}

#[test]
fn expand_keeps_labels_of_one_name_in_their_order() {
    let group = Group::builder()
        .prefix(None)
        .colors(Colors::Tailwind(Tailwind::Red))
        .labels(vec![
            LabelVariant::WithDescription {
                name: name("same"),
                description: Some(Description::new("first")),
                aliases: Vec::new(),
            },
            LabelVariant::Name(name("other")),
            LabelVariant::WithDescription {
                name: name("same"),
                description: Some(Description::new("second")),
                aliases: Vec::new(),
            },
        ])
        .build();

    let labels = group.expand();

    assert_eq!(labels.len(), 3);
    assert_eq!(labels[0].name().get(), "other");
    assert_eq!(labels[1].description(), &Some(Description::new("first")));
    assert_eq!(labels[2].description(), &Some(Description::new("second")));
}

#[test]
fn expand_orders_names_by_code_point() {
    let group = Group::builder()
        .prefix(None)
        .colors(Colors::Tailwind(Tailwind::Red))
        .labels(vec![
            LabelVariant::Name(name("bug")),
            LabelVariant::Name(name("b")),
            LabelVariant::Name(name("Zed")),
            LabelVariant::Name(name("\u{e9}t\u{e9}")),
            LabelVariant::Name(name("bu")),
        ])
        .build();

    let names: Vec<String> = group
        .expand()
        .iter()
        .map(|label| label.name().get().to_string())
        .collect();

    assert_eq!(names, vec!["Zed", "b", "bu", "bug", "\u{e9}t\u{e9}"]);
}

#[test]
fn expand_repeats_colors_after_nine_labels() {
    let names = ["a", "b", "c", "d", "e", "f", "g", "h", "i", "j", "k"];
    let group = Group::builder()
        .prefix(None)
        .colors(Colors::Tailwind(Tailwind::Blue))
        .labels(names.iter().map(|text| LabelVariant::Name(name(text))).collect())
        .build();

    let labels = group.expand();

    assert_eq!(labels.len(), 11);
    assert_eq!(labels[9].color(), labels[0].color());
    assert_eq!(labels[10].color(), labels[1].color());
    assert_eq!(labels[8].color().get(), "#1e3a8a");
}

#[test]
fn expand_leaves_the_group_as_it_was() {
    let group = Group::builder()
        .prefix(Some(Prefix::new("C-")))
        .colors(Colors::Tailwind(Tailwind::Red))
        .labels(vec![
            LabelVariant::Name(name("feature")),
            LabelVariant::Name(name("alpha")),
        ])
        .build();
    let before = group.clone();

    let first = group.expand();
    let second = group.expand();

    assert_eq!(group, before);
    assert_eq!(first, second);
    assert_eq!(group.labels()[0], LabelVariant::Name(name("feature")));
}

#[test]
fn prefix_and_group_name_take_any_text() {
    assert_eq!(Prefix::new("C-").get(), "C-");
    assert_eq!(Prefix::new("").get(), "");
    assert_eq!(Prefix::new("C-").clone(), Prefix::new("C-"));
    assert_eq!(GroupName::new("category").get(), "category");
    assert_eq!(GroupName::new("category").clone(), GroupName::new("category"));
}

#[test]
fn expand_takes_an_empty_prefix_for_none() {
    let with_empty = Group::builder()
        .prefix(Some(Prefix::new("")))
        .colors(Colors::Tailwind(Tailwind::Red))
        .labels(vec![LabelVariant::Name(name("bug"))])
        .build();
    let without = Group::builder()
        .prefix(None)
        .colors(Colors::Tailwind(Tailwind::Red))
        .labels(vec![LabelVariant::Name(name("bug"))])
        .build();

    assert_eq!(with_empty.expand(), without.expand());
    assert_eq!(without.expand(), vec![label("bug", "#ef4444")]);
}

#[test]
fn group_trait_send() {
    assert_send::<Group>();
}

#[test]
fn group_trait_sync() {
    assert_sync::<Group>();
}

#[test]
fn group_trait_unpin() {
    assert_unpin::<Group>();
}
