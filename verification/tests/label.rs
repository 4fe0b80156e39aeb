use labelflair::document::Node;
use labelflair::error::ConfigurationError;
use labelflair::label::{Color, Description, Label, LabelName};
use labelflair::yaml::{to_yaml, YamlError};

fn assert_send<T: Send>() {}

fn assert_sync<T: Sync>() {}

fn assert_unpin<T: Unpin>() {}

#[test]
fn color_takes_hex_format() {
    assert_eq!(Color::new("#ff0000").unwrap().get(), "#ff0000");
    assert_eq!(Color::new("#0000FF").unwrap().get(), "#0000FF");
    assert_eq!(Color::new("#09afAF").unwrap().get(), "#09afAF");
}

#[test]
fn color_rejects_what_is_not_hex_format() {
    for text in [
        "", "#", "ff0000", "#ff000", "#ff00000", "#ff000g", "#gf0000", "0ff0000", "#ff 000",
        "#ff000\u{e9}", "#FF000G", "#ff00/0", "#ff00:0", "#ff00@0", "#ff00`0", "red",
    ] {
        assert_eq!(
            Color::new(text),
            Err(ConfigurationError::InvalidColor(text.to_string()))
        );
    }
}

#[test]
fn label_name_takes_any_text_but_the_empty_one() {
    assert_eq!(LabelName::new("bug").unwrap().get(), "bug");
    assert_eq!(LabelName::new("good first issue").unwrap().get(), "good first issue");
    assert_eq!(LabelName::new(" ").unwrap().get(), " ");
    assert_eq!(LabelName::new(""), Err(ConfigurationError::EmptyLabelName));
}

#[test]
fn description_takes_any_text() {
    assert_eq!(Description::new("").get(), "");
    assert_eq!(Description::new("a description").get(), "a description");
}

#[test]
fn errors_say_what_was_wrong() {
    assert_eq!(
        ConfigurationError::Syntax("expected `=`".to_string()).message(),
        "invalid document: expected `=`"
    );
    assert_eq!(
        ConfigurationError::Missing("name".to_string()).message(),
        "missing entry: name"
    );
    assert_eq!(
        ConfigurationError::Unexpected("labels".to_string()).message(),
        "unexpected kind of value: labels"
    );
    assert_eq!(
        ConfigurationError::UnknownGenerator("bootstrap".to_string()).message(),
        "unknown color generator: bootstrap"
    );
    assert_eq!(
        ConfigurationError::UnknownPalette("mauve".to_string()).message(),
        "unknown palette: mauve"
    );
    assert_eq!(
        ConfigurationError::InvalidColor("red".to_string()).message(),
        "invalid color: red"
    );
    assert_eq!(ConfigurationError::EmptyLabelName.message(), "label name is empty");
}

#[test]
fn trait_serialize() {
    let label = Label::builder()
        .name(LabelName::new("bug").unwrap())
        .color(Color::new("#FF0000").unwrap())
        .description(Some(Description::new("a description for the label")))
        .build();

    let serialized = label.to_yaml().unwrap();
    let expected = "name: bug\ncolor: '#FF0000'\ndescription: a description for the label\n";

    assert_eq!(serialized, expected);
}

#[test]
fn trait_serialize_without_description() {
    let label = Label::builder()
        .name(LabelName::new("bug").unwrap())
        .color(Color::new("#FF0000").unwrap())
        .build();

    let serialized = label.to_yaml().unwrap();
    let expected = "name: bug\ncolor: '#FF0000'\n";

    assert_eq!(serialized, expected);
}

#[test]
fn serialize_a_list_of_labels() {
    let labels = vec![
        Label::builder()
            .name(LabelName::new("C-bug").unwrap())
            .color(Color::new("#ef4444").unwrap())
            .build(),
        Label::builder()
            .name(LabelName::new("good first issue").unwrap())
            .color(Color::new("#4ade80").unwrap())
            .description(Some(Description::new("Good issue for newcomers")))
            .build(),
    ];

    let serialized = to_yaml(&labels).unwrap();
    let expected = "- name: C-bug\n  color: '#ef4444'\n- name: good first issue\n  color: '#4ade80'\n  description: Good issue for newcomers\n";

    assert_eq!(serialized, expected);
}

#[test]
fn yaml_error_holds_what_the_serializer_said() {
    let error = YamlError::new("the emitter failed".to_string());

    assert_eq!(error.message(), "the emitter failed");
}

#[test]
fn serialize_no_labels() {
    assert_eq!(to_yaml(&Vec::new()).unwrap(), "[]\n");
}

#[test]
fn record_has_a_description_only_if_the_label_has_one() {
    let plain = Label::builder()
        .name(LabelName::new("bug").unwrap())
        .color(Color::new("#FF0000").unwrap())
        .build();
    let described = Label::builder()
        .name(LabelName::new("bug").unwrap())
        .color(Color::new("#FF0000").unwrap())
        .description(Some(Description::new("")))
        .build();

    assert_eq!(
        plain.record(),
        vec![
            ("name".to_string(), "bug".to_string()),
            ("color".to_string(), "#FF0000".to_string()),
        ]
    );
    assert_eq!(
        described.record(),
        vec![
            ("name".to_string(), "bug".to_string()),
            ("color".to_string(), "#FF0000".to_string()),
            ("description".to_string(), "".to_string()),
        ]
    );
}

#[test]
fn deserialize_a_label() {
    let document = Node::from_toml(
        "name = \"good first issue\"\ncolor = \"#4ade80\"\ndescription = \"Good issue for newcomers\"\naliases = [\"help wanted\"]\n",
    )
    .unwrap();

    let label = Label::from_node(&document).unwrap();
    let expected = Label::builder()
        .name(LabelName::new("good first issue").unwrap())
        .color(Color::new("#4ade80").unwrap())
        .description(Some(Description::new("Good issue for newcomers")))
        .build();

    assert_eq!(label, expected);
}

#[test]
fn deserialize_rejects_what_is_no_label_record() {
    let label_from = |toml: &str| Label::from_node(&Node::from_toml(toml).unwrap());

    assert_eq!(
        label_from("color = \"#4ade80\"\n"),
        Err(ConfigurationError::Missing("name".to_string()))
    );
    assert_eq!(
        label_from("name = \"bug\"\n"),
        Err(ConfigurationError::Missing("color".to_string()))
    );
    assert_eq!(
        label_from("name = \"\"\ncolor = \"#4ade80\"\n"),
        Err(ConfigurationError::EmptyLabelName)
    );
    assert_eq!(
        label_from("name = \"bug\"\ncolor = \"4ade80\"\n"),
        Err(ConfigurationError::InvalidColor("4ade80".to_string()))
    );
    assert_eq!(
        label_from("name = \"bug\"\ncolor = 4\n"),
        Err(ConfigurationError::Unexpected("color".to_string()))
    );
    assert_eq!(
        label_from("name = \"bug\"\ncolor = \"#4ade80\"\ndescription = false\n"),
        Err(ConfigurationError::Unexpected("description".to_string()))
    );
    assert_eq!(
        Label::from_node(&Node::List(Vec::new())),
        Err(ConfigurationError::Unexpected("label".to_string()))
    );
}

#[test]
fn builder_sets_the_fields() {
    let label = Label::builder()
        .name(LabelName::new("bug").unwrap())
        .color(Color::new("#FF0000").unwrap())
        .description(Some(Description::new("a description for the label")))
        .build();

    assert_eq!(label.name().get(), "bug");
    assert_eq!(label.color().get(), "#FF0000");
    assert_eq!(
        label.description(),
        &Some(Description::new("a description for the label"))
    );
}

#[test]
fn builder_leaves_the_description_out_unless_given() {
    let label = Label::builder()
        .color(Color::new("#FF0000").unwrap())
        .name(LabelName::new("bug").unwrap())
        .build();

    assert_eq!(label.description(), &None);
    assert_eq!(label.clone(), label);
}

#[test]
fn label_trait_send() {
    assert_send::<Label>();
}

#[test]
fn label_trait_sync() {
    assert_sync::<Label>();
}

#[test]
fn label_trait_unpin() {
    assert_unpin::<Label>();
}
