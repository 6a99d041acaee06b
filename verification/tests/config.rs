use spree::color::{Color, ConfigColor};
use spree::config::{
    validate_buttons, Config, ConfigButton, KeyGlyphs, NavigationModes, ValidationError,
    MAX_BUTTONS,
};
use spree::icon::Icon;

const GLYPHS: KeyGlyphs =
    KeyGlyphs { tab: '\t', enter: '\n', left_arrow: '\u{f702}', right_arrow: '\u{f703}' };

fn button(key: Option<&str>) -> ConfigButton {
    ConfigButton {
        icon: Icon { content: "<svg/>".into() },
        command: vec!["true".to_string()],
        key: key.map(|k| k.to_string()),
    }
}

fn buttons(keys: &[Option<&str>]) -> Vec<ConfigButton> {
    keys.iter().map(|k| button(*k)).collect()
}

fn validate(keys: &[Option<&str>], vim: bool) -> Result<Vec<(u16, Option<char>)>, ValidationError> {
    validate_buttons(&buttons(keys), vim, &GLYPHS)
}

#[test]
fn slint_names_the_reserved_keys() {
    assert_eq!(KeyGlyphs::slint(), GLYPHS);
    let glyphs = KeyGlyphs::slint();
    assert_eq!(glyphs.tab, char::from(slint::platform::Key::Tab));
    assert_eq!(glyphs.enter, char::from(slint::platform::Key::Return));
    assert_eq!(glyphs.left_arrow, char::from(slint::platform::Key::LeftArrow));
    assert_eq!(glyphs.right_arrow, char::from(slint::platform::Key::RightArrow));
}

#[test]
fn keys_of_slint_are_reserved() {
    let glyphs = KeyGlyphs::slint();
    for key in [
        slint::platform::Key::Tab,
        slint::platform::Key::Return,
        slint::platform::Key::LeftArrow,
        slint::platform::Key::RightArrow,
    ] {
        let text = String::from(char::from(key));
        let list = buttons(&[Some(text.as_str())]);
        assert_eq!(validate_buttons(&list, false, &glyphs), Err(ValidationError::ReservedKey(text)));
    }
    let escape = String::from(char::from(slint::platform::Key::Escape));
    let list = buttons(&[Some(escape.as_str())]);
    assert_eq!(validate_buttons(&list, false, &glyphs), Ok(vec![(0, Some('\u{1b}'))]));
}

#[test]
fn the_bound_is_ten_and_fits_an_index() {
    assert_eq!(MAX_BUTTONS, 10);
    assert!(u16::try_from(MAX_BUTTONS).is_ok());
}

#[test]
fn eleven_buttons_fail() {
    assert_eq!(
        validate(&[None; 11], false),
        Err(ValidationError::TooManyButtons { current: 11, max: 10 })
    );
}

#[test]
fn no_buttons_fail() {
    assert_eq!(validate(&[], false), Err(ValidationError::NoButtons));
    assert_eq!(validate(&[], true), Err(ValidationError::NoButtons));
}

#[test]
fn ten_buttons_succeed() {
    let keys = validate(&[None; 10], true).unwrap();
    assert_eq!(keys.len(), 10);
    for (i, entry) in keys.iter().enumerate() {
        assert_eq!(*entry, (i as u16, None));
    }
}

#[test]
fn one_button_succeeds() {
    assert_eq!(validate(&[None], false), Ok(vec![(0, None)]));
}

#[test]
fn hotkeys_are_derived_in_order() {
    assert_eq!(
        validate(&[Some("a"), None, Some("é"), Some("1"), Some(" ")], true),
        Ok(vec![(0, Some('a')), (1, None), (2, Some('é')), (3, Some('1')), (4, Some(' '))])
    );
}

#[test]
fn equal_hotkeys_are_accepted() {
    assert_eq!(validate(&[Some("x"), Some("x")], false), Ok(vec![(0, Some('x')), (1, Some('x'))]));
}

#[test]
fn longer_keys_are_malformed() {
    assert_eq!(
        validate(&[Some("ab")], false),
        Err(ValidationError::MalformedKey("ab".to_string()))
    );
    assert_eq!(
        validate(&[None, Some("e\u{301}")], false),
        Err(ValidationError::MalformedKey("e\u{301}".to_string()))
    );
    assert_eq!(
        validate(&[Some("hl")], true),
        Err(ValidationError::MalformedKey("hl".to_string()))
    );
}

#[test]
fn empty_key_is_malformed() {
    assert_eq!(validate(&[Some("")], false), Err(ValidationError::MalformedKey(String::new())));
}

#[test]
fn reserved_keys_are_refused() {
    for key in ["\t", "\n", "\u{f702}", "\u{f703}"] {
        assert_eq!(
            validate(&[None, Some(key)], false),
            Err(ValidationError::ReservedKey(key.to_string()))
        );
    }
}

#[test]
fn reserved_keys_follow_the_glyphs() {
    let glyphs = KeyGlyphs { tab: 'T', enter: 'E', left_arrow: 'L', right_arrow: 'h' };
    let list = buttons(&[Some("\t")]);
    assert_eq!(validate_buttons(&list, true, &glyphs), Ok(vec![(0, Some('\t'))]));
    for key in ["T", "E", "L", "h"] {
        let list = buttons(&[Some(key)]);
        assert_eq!(
            validate_buttons(&list, true, &glyphs),
            Err(ValidationError::ReservedKey(key.to_string()))
        );
    }
}

#[test]
fn vim_keys_conflict_with_vim_navigation() {
    assert_eq!(validate(&[Some("h")], true), Err(ValidationError::VimKeyConflict));
    assert_eq!(validate(&[Some("l")], true), Err(ValidationError::VimKeyConflict));
    assert_eq!(validate(&[None, Some("a"), Some("l")], true), Err(ValidationError::VimKeyConflict));
}

#[test]
fn vim_keys_are_free_without_vim_navigation() {
    assert_eq!(validate(&[Some("h"), Some("l")], false), Ok(vec![(0, Some('h')), (1, Some('l'))]));
}

#[test]
fn other_vim_letters_are_free() {
    assert_eq!(
        validate(&[Some("j"), Some("k"), Some("H"), Some("L")], true),
        Ok(vec![(0, Some('j')), (1, Some('k')), (2, Some('H')), (3, Some('L'))])
    );
}

#[test]
fn the_first_refused_key_decides() {
    assert_eq!(
        validate(&[Some("ab"), Some("h")], true),
        Err(ValidationError::MalformedKey("ab".to_string()))
    );
    assert_eq!(validate(&[Some("h"), Some("ab")], true), Err(ValidationError::VimKeyConflict));
    assert_eq!(
        validate(&[Some("\t"), Some("cd"), Some("l")], true),
        Err(ValidationError::ReservedKey("\t".to_string()))
    );
}

#[test]
fn the_count_is_checked_before_the_keys() {
    let mut keys = vec![Some("ab"); 11];
    keys[0] = Some("h");
    assert_eq!(
        validate(&keys, true),
        Err(ValidationError::TooManyButtons { current: 11, max: 10 })
    );
}

#[test]
fn commands_play_no_part_in_validation() {
    let mut list = buttons(&[Some("a"), None, None]);
    list[1].command.clear();
    list[2].command.clear();
    assert_eq!(
        validate_buttons(&list, false, &GLYPHS),
        Ok(vec![(0, Some('a')), (1, None), (2, None)])
    );
    list[2].key = Some("ab".to_string());
    assert_eq!(
        validate_buttons(&list, false, &GLYPHS),
        Err(ValidationError::MalformedKey("ab".to_string()))
    );
}

#[test]
fn one_button_without_key_or_command_is_accepted() {
    let mut list = buttons(&[None]);
    list[0].command.clear();
    assert_eq!(validate_buttons(&list, true, &GLYPHS), Ok(vec![(0, None)]));
}

#[test]
fn validation_messages() {
    assert_eq!(
        ValidationError::TooManyButtons { current: 11, max: 10 }.message(),
        "Too many buttons. (current = 11, max = 10)"
    );
    assert_eq!(ValidationError::NoButtons.message(), "No buttons given.");
    assert_eq!(
        ValidationError::MalformedKey("ab".to_string()).message(),
        "Invalid button key 'ab'"
    );
    assert_eq!(
        ValidationError::ReservedKey("\t".to_string()).message(),
        "Invalid button key '\t'"
    );
    assert_eq!(
        ValidationError::VimKeyConflict.message(),
        "Key conflict with VIM-style navigation bindings"
    );
}

fn color(s: &str) -> Color {
    Color::try_from(ConfigColor::Hex(s.to_string())).unwrap()
}

fn config(vim: bool, keys: &[Option<&str>]) -> Config {
    Config {
        primary: color("#fff"),
        secondary: color("#000"),
        enable_tab_navigation: true,
        enable_vim_navigation: vim,
        enable_arrow_navigation: false,
        border_color: color("#888888"),
        buttons: buttons(keys),
    }
}

#[test]
fn configuration_validates_under_its_own_modes() {
    assert_eq!(config(true, &[Some("h")]).validate(&GLYPHS), Err(ValidationError::VimKeyConflict));
    assert_eq!(config(false, &[Some("h")]).validate(&GLYPHS), Ok(vec![(0, Some('h'))]));
    assert_eq!(config(false, &[]).validate(&GLYPHS), Err(ValidationError::NoButtons));
}

#[test]
fn configuration_reports_its_modes() {
    assert_eq!(
        config(true, &[None]).navigation_modes(),
        NavigationModes { tab: true, vim: true, arrow: false }
    );
    assert_eq!(
        config(false, &[None]).navigation_modes(),
        NavigationModes { tab: true, vim: false, arrow: false }
    );
}
