use rush_console::event::{Event, Intent, KeyCode, KeyModifiers, CONTROL, SHIFT};

fn key(bits: u8, code: KeyCode) -> Event {
    Event::Key(KeyModifiers { bits }, code)
}

#[test]
fn characters_are_typed_plain_or_shifted() {
    assert_eq!(key(0, KeyCode::Char('a')).classify(), Intent::Insert('a'));
    assert_eq!(key(SHIFT, KeyCode::Char('A')).classify(), Intent::Insert('A'));
    assert_eq!(key(0, KeyCode::Char(' ')).classify(), Intent::Insert(' '));
    assert_eq!(key(0, KeyCode::Char('c')).classify(), Intent::Insert('c'));
    assert_eq!(key(SHIFT, KeyCode::Char('l')).classify(), Intent::Insert('l'));
    assert_eq!(key(0, KeyCode::Char('\u{e9}')).classify(), Intent::Insert('\u{e9}'));
}

#[test]
fn editing_keys_count_without_modifiers() {
    assert_eq!(key(0, KeyCode::Backspace).classify(), Intent::Backspace);
    assert_eq!(key(0, KeyCode::Left).classify(), Intent::Left);
    assert_eq!(key(0, KeyCode::Right).classify(), Intent::Right);
    assert_eq!(key(0, KeyCode::Enter).classify(), Intent::Enter);
}

#[test]
fn control_keys() {
    assert_eq!(key(CONTROL, KeyCode::Char('c')).classify(), Intent::Interrupt);
    assert_eq!(key(CONTROL, KeyCode::Char('l')).classify(), Intent::ClearScreen);
}

#[test]
fn everything_else_asks_for_nothing() {
    assert_eq!(Event::Other.classify(), Intent::Nothing);
    assert_eq!(key(0, KeyCode::Other).classify(), Intent::Nothing);
    assert_eq!(key(CONTROL, KeyCode::Char('d')).classify(), Intent::Nothing);
    assert_eq!(key(CONTROL, KeyCode::Char('L')).classify(), Intent::Nothing);
    assert_eq!(key(CONTROL | SHIFT, KeyCode::Char('c')).classify(), Intent::Nothing);
    assert_eq!(key(0x04, KeyCode::Char('c')).classify(), Intent::Nothing);
    assert_eq!(key(SHIFT, KeyCode::Backspace).classify(), Intent::Nothing);
    assert_eq!(key(CONTROL, KeyCode::Left).classify(), Intent::Nothing);
    assert_eq!(key(SHIFT, KeyCode::Right).classify(), Intent::Nothing);
    assert_eq!(key(CONTROL, KeyCode::Enter).classify(), Intent::Nothing);
    assert_eq!(key(0xff, KeyCode::Enter).classify(), Intent::Nothing);
}
