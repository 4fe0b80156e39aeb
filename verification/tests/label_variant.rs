use labelflair::config::v1::LabelVariant;
use labelflair::document::Node;
use labelflair::error::ConfigurationError;
use labelflair::label::{Description, LabelName};

fn assert_send<T: Send>() {}

fn assert_sync<T: Sync>() {}

fn assert_unpin<T: Unpin>() {}

fn name(text: &str) -> LabelName {
    LabelName::new(text).unwrap()
}

#[derive(Eq, PartialEq, Debug)]
struct Container {
    labels: Vec<LabelVariant>,
}

fn container_from(toml: &str) -> Result<Container, ConfigurationError> {
    let document = Node::from_toml(toml)?;
    let mut labels = Vec::new();
    for item in document.list_at("labels")? {
        labels.push(LabelVariant::from_node(item)?);
    }
    Ok(Container { labels })
}

#[test]
fn label_variant_trait_deserialize() {
    let toml = "labels = [\"bug\", { name = \"enhancement\", description = \"A new feature or improvement\" }]\n";

    let container: Container = container_from(toml).unwrap();
    let expected = Container {
        labels: vec![
            LabelVariant::Name(name("bug")),
            LabelVariant::WithDescription {
                name: name("enhancement"),
                description: Some(Description::new("A new feature or improvement")),
                aliases: Vec::new(),
            },
        ],
    };

    assert_eq!(container, expected);
}

#[test]
fn deserialize_record_with_name_alone_has_no_description_and_no_aliases() {
    let container = container_from("labels = [{ name = \"bug\", color = \"red\" }]\n").unwrap();

    assert_eq!(
        container.labels,
        vec![LabelVariant::WithDescription {
            name: name("bug"),
            description: None,
            aliases: Vec::new(),
        }]
    );
}

#[test]
fn deserialize_record_with_aliases_keeps_them() {
    let container = container_from(
        "labels = [{ name = \"bug\", aliases = [\"defect\", \"error\"] }, \"docs\"]\n",
    )
    .unwrap();

    assert_eq!(
        container.labels,
        vec![
            LabelVariant::WithDescription {
                name: name("bug"),
                description: None,
                aliases: vec![name("defect"), name("error")],
            },
            LabelVariant::Name(name("docs")),
        ]
    );
}

#[test]
fn deserialize_rejects_what_is_no_label() {
    assert_eq!(
        container_from("labels = [\"bug\", 7]\n"),
        Err(ConfigurationError::Unexpected("labels".to_string()))
    );
    assert_eq!(
        container_from("labels = [\"bug\", \"\"]\n"),
        Err(ConfigurationError::EmptyLabelName)
    );
    assert_eq!(
        container_from("labels = [{ description = \"nameless\" }]\n"),
        Err(ConfigurationError::Missing("name".to_string()))
    );
    assert_eq!(
        container_from("labels = [{ name = \"\" }]\n"),
        Err(ConfigurationError::EmptyLabelName)
    );
    assert_eq!(
        container_from("labels = [{ name = [\"bug\"] }]\n"),
        Err(ConfigurationError::Unexpected("name".to_string()))
    );
    assert_eq!(
        container_from("labels = [{ name = \"bug\", description = 3 }]\n"),
        Err(ConfigurationError::Unexpected("description".to_string()))
    );
    assert_eq!(
        container_from("labels = [{ name = \"bug\", aliases = \"defect\" }]\n"),
        Err(ConfigurationError::Unexpected("aliases".to_string()))
    );
    assert_eq!(
        container_from("labels = [{ name = \"bug\", aliases = [\"defect\", true] }]\n"),
        Err(ConfigurationError::Unexpected("aliases".to_string()))
    );
    assert_eq!(
        container_from("labels = [{ name = \"bug\", aliases = [\"\"] }]\n"),
        Err(ConfigurationError::EmptyLabelName)
    );
}

#[test]
fn deserialize_reports_the_first_label_that_fails() {
    assert_eq!(
        container_from("labels = [\"bug\", { name = 1 }, \"\", 7]\n"),
        Err(ConfigurationError::Unexpected("name".to_string()))
    );
}

#[test]
fn name_alone_has_neither_description_nor_aliases() {
    let variant = LabelVariant::Name(name("bug"));

    assert_eq!(variant.name(), &name("bug"));
    assert_eq!(variant.description(), None);
    assert_eq!(variant.aliases(), None);
    assert_eq!(variant.to_string(), "bug");
}

#[test]
fn record_gives_what_it_holds() {
    let variant = LabelVariant::WithDescription {
        name: name("enhancement"),
        description: Some(Description::new("A new feature or improvement")),
        aliases: vec![name("feature")],
    };

    assert_eq!(variant.name(), &name("enhancement"));
    assert_eq!(
        variant.description(),
        Some(&Description::new("A new feature or improvement"))
    );
    assert_eq!(variant.aliases(), Some(&vec![name("feature")]));
    assert_eq!(variant.to_string(), "enhancement");
    assert_eq!(variant.clone(), variant);
}

#[test]
fn record_without_description_has_empty_aliases_not_none() {
    let variant = LabelVariant::WithDescription {
        name: name("enhancement"),
        description: None,
        aliases: Vec::new(),
    };

    assert_eq!(variant.description(), None);
    assert_eq!(variant.aliases(), Some(&Vec::new()));
}

#[test]
fn label_variant_trait_send() {
    assert_send::<LabelVariant>();
}

#[test]
fn label_variant_trait_sync() {
    assert_sync::<LabelVariant>();
}

#[test]
fn label_variant_trait_unpin() {
    assert_unpin::<LabelVariant>();
}
