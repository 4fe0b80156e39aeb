use labelflair::colors::{Fixed, Generate};
use labelflair::label::Color;

fn assert_send<T: Send>() {}

fn assert_sync<T: Sync>() {}

fn assert_unpin<T: Unpin>() {}

#[test]
fn trait_generate_for_1() {
    let fixed = Fixed::new(Color::new("#ff0000").unwrap());

    let colors = fixed.generate(1);
    let expected = vec![Color::new("#ff0000").unwrap()];

    assert_eq!(colors, expected);
}

#[test]
fn trait_generate_for_3() {
    let fixed = Fixed::new(Color::new("#00ff00").unwrap());

    let colors = fixed.generate(3);
    let expected = vec![Color::new("#00ff00").unwrap(); 3];

    assert_eq!(colors, expected);
}

#[test]
fn generate_for_0_is_empty() {
    let fixed = Fixed::new(Color::new("#00ff00").unwrap());

    let colors = fixed.generate(0);

    assert_eq!(colors, Vec::<Color>::new());
}

#[test]
fn fixed_trait_send() {
    assert_send::<Fixed>();
}

#[test]
fn fixed_trait_sync() {
    assert_sync::<Fixed>();
}

#[test]
fn fixed_trait_unpin() {
    assert_unpin::<Fixed>();
}
