use webview::error::Error;
use webview::{ActionState, ImeAction, MouseAction, Position};

#[test]
fn down_is_pressed() {
    assert!(ActionState::Down.is_pressed());
}

#[test]
fn up_is_not_pressed() {
    assert!(!ActionState::Up.is_pressed());
}

#[test]
fn positions_compare_by_coordinates() {
    let a = Position { x: 3, y: -4 };
    let b = a;
    assert_eq!(a, b);
    assert_ne!(a, Position { x: 3, y: 4 });
}

#[test]
fn mouse_actions_can_be_cloned() {
    let click = MouseAction::Click(2u8, ActionState::Up, Some(Position { x: 1, y: 2 }));
    match click.clone() {
        MouseAction::Click(button, state, Some(pos)) => {
            assert_eq!(button, 2);
            assert_eq!(state, ActionState::Up);
            assert_eq!(pos, Position { x: 1, y: 2 });
        }
        _ => panic!("a click stays a click"),
    }
}

#[test]
fn ime_actions_hold_their_text() {
    match ImeAction::Pre("ni", 0, 2) {
        ImeAction::Pre(text, from, to) => {
            assert_eq!(text, "ni");
            assert_eq!((from, to), (0, 2));
        }
        ImeAction::Composition(_) => panic!("a composition in progress stays one"),
    }
}

#[test]
fn errors_are_named_after_their_variant() {
    assert_eq!(Error::CreateWebviewError.message(), "CreateWebviewError");
    assert_eq!(Error::CreatePageError.message(), "CreatePageError");
    assert_eq!(
        Error::CreatePageError.message(),
        format!("{:?}", Error::CreatePageError)
    );
}
