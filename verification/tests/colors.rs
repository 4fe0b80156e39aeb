use labelflair::colors::{Colors, Fixed, Generate, Tailwind};
use labelflair::document::Node;
use labelflair::error::ConfigurationError;
use labelflair::label::Color;

fn assert_send<T: Send>() {}

fn assert_sync<T: Sync>() {}

fn assert_unpin<T: Unpin>() {}

fn colors_from(toml: &str) -> Result<Colors, ConfigurationError> {
    Colors::from_node(&Node::from_toml(toml).unwrap())
}

#[test]
fn trait_deserialize_tailwind() {
    let toml = "tailwind = \"red\"\n";

    let colors: Colors = colors_from(toml).unwrap();

    assert_eq!(Colors::Tailwind(Tailwind::Red), colors);
}

#[test]
fn trait_deserialize_fixed() {
    let toml = "fixed = \"#0000FF\"\n";

    let colors: Colors = colors_from(toml).unwrap();

    assert_eq!(
        colors,
        Colors::Fixed(Fixed::new(Color::new("#0000FF").unwrap()))
    );
}

#[test]
fn deserialize_rejects_a_color_that_is_not_hex() {
    assert_eq!(
        colors_from("fixed = \"blue\"\n"),
        Err(ConfigurationError::InvalidColor("blue".to_string()))
    );
}

#[test]
fn deserialize_rejects_a_family_that_is_not_in_the_catalog() {
    assert_eq!(
        colors_from("tailwind = \"mauve\"\n"),
        Err(ConfigurationError::UnknownPalette("mauve".to_string()))
    );
}

#[test]
fn deserialize_rejects_a_generator_that_does_not_exist() {
    assert_eq!(
        colors_from("bootstrap = \"red\"\n"),
        Err(ConfigurationError::UnknownGenerator("bootstrap".to_string()))
    );
}

#[test]
fn deserialize_rejects_anything_but_a_single_choice() {
    assert_eq!(
        colors_from(""),
        Err(ConfigurationError::Unexpected("colors".to_string()))
    );
    assert_eq!(
        colors_from("fixed = \"#0000FF\"\ntailwind = \"red\"\n"),
        Err(ConfigurationError::Unexpected("colors".to_string()))
    );
    assert_eq!(
        Colors::from_node(&Node::Text("red".to_string())),
        Err(ConfigurationError::Unexpected("colors".to_string()))
    );
}

#[test]
fn deserialize_rejects_a_choice_that_is_not_a_text() {
    assert_eq!(
        colors_from("fixed = 255\n"),
        Err(ConfigurationError::Unexpected("fixed".to_string()))
    );
    assert_eq!(
        colors_from("tailwind = [\"red\"]\n"),
        Err(ConfigurationError::Unexpected("tailwind".to_string()))
    );
}

#[test]
fn colors_generate_like_the_generator_they_hold() {
    let fixed = Colors::Fixed(Fixed::new(Color::new("#0000FF").unwrap()));
    let tailwind = Colors::Tailwind(Tailwind::Red);

    assert_eq!(
        fixed.generate(2),
        vec![Color::new("#0000FF").unwrap(), Color::new("#0000FF").unwrap()]
    );
    assert_eq!(tailwind.generate(7), Tailwind::Red.generate(7));
}

#[test]
fn colors_trait_send() {
    assert_send::<Colors>();
}

#[test]
fn colors_trait_sync() {
    assert_sync::<Colors>();
}

#[test]
fn colors_trait_unpin() {
    assert_unpin::<Colors>();
}
