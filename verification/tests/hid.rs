use gbc_m4::io::hid::{Buttons, Pressed};

fn idle() -> Buttons {
    Buttons { a: false, b: false, up: false, down: false, left: false, right: false, menu: false }
}

#[test]
fn nothing_pressed() {
    assert_eq!(idle().pressed(), Pressed::Nothing);
}

#[test]
fn each_button_alone() {
    assert_eq!(Buttons { up: true, ..idle() }.pressed(), Pressed::Up);
    assert_eq!(Buttons { down: true, ..idle() }.pressed(), Pressed::Down);
    assert_eq!(Buttons { right: true, ..idle() }.pressed(), Pressed::Right);
    assert_eq!(Buttons { left: true, ..idle() }.pressed(), Pressed::Left);
    assert_eq!(Buttons { a: true, ..idle() }.pressed(), Pressed::A);
    assert_eq!(Buttons { b: true, ..idle() }.pressed(), Pressed::B);
    assert_eq!(Buttons { menu: true, ..idle() }.pressed(), Pressed::Menu);
}

#[test]
fn order_of_precedence() {
    let all = Buttons { a: true, b: true, up: true, down: true, left: true, right: true, menu: true };
    assert_eq!(all.pressed(), Pressed::Up);
    assert_eq!(Buttons { up: false, ..all }.pressed(), Pressed::Down);
    assert_eq!(Buttons { up: false, down: false, ..all }.pressed(), Pressed::Right);
    assert_eq!(Buttons { up: false, down: false, right: false, ..all }.pressed(), Pressed::Left);
    assert_eq!(
        Buttons { a: true, b: true, menu: true, ..idle() }.pressed(),
        Pressed::A
    );
    assert_eq!(Buttons { b: true, menu: true, ..idle() }.pressed(), Pressed::B);
}

#[test]
fn right_wins_over_left() {
    assert_eq!(Buttons { left: true, right: true, ..idle() }.pressed(), Pressed::Right);
}
