//! The configuration and its validation: the number of buttons, and the
//! hotkey that each button's `key` field gives.

use crate::color::Color;
use crate::icon::{option_text, Icon};
use crate::text::{decimal, push_decimal, spells};
use slint::platform::Key;
use vstd::prelude::*;
use vstd::string::{StrSliceExecFns, StringExecFns};

verus! {

/// The largest number of buttons that a configuration may hold. It fits in
/// the 16 bits of a button index.
pub const MAX_BUTTONS: usize = 10;

/// One button: what it shows, what it runs, and its optional hotkey.
#[derive(Debug, PartialEq, Eq)]
pub struct ConfigButton {
    pub icon: Icon,
    /// The program and its arguments.
    pub command: Vec<String>,
    /// A string of one character, if the button has a hotkey.
    pub key: Option<String>,
}

/// The whole configuration, without the layout numbers, which go to the
/// renderer untouched.
#[derive(Debug, PartialEq, Eq)]
pub struct Config {
    pub primary: Color,
    pub secondary: Color,
    pub enable_tab_navigation: bool,
    pub enable_vim_navigation: bool,
    pub enable_arrow_navigation: bool,
    pub border_color: Color,
    pub buttons: Vec<ConfigButton>,
}

/// The characters by which the front end names the keys that are reserved
/// for navigation.
#[derive(Clone, Copy, Debug, PartialEq, Eq, Structural)]
pub struct KeyGlyphs {
    pub tab: char,
    pub enter: char,
    pub left_arrow: char,
    pub right_arrow: char,
}

/// The keys that are reserved for navigation and for confirming.
#[derive(Clone, Copy, Debug, PartialEq, Eq, Structural)]
pub enum SpecialKey {
    Tab,
    Return,
    LeftArrow,
    RightArrow,
}

/// Which ways of moving the focus are switched on.
#[derive(Clone, Copy, Debug, PartialEq, Eq, Structural)]
pub struct NavigationModes {
    pub tab: bool,
    pub vim: bool,
    pub arrow: bool,
}

/// Why a configuration was refused.
#[derive(Debug, PartialEq, Eq)]
pub enum ValidationError {
    TooManyButtons { current: usize, max: usize },
    NoButtons,
    /// A `key` that is not exactly one character; it holds the key.
    MalformedKey(String),
    /// A `key` that names Tab, Enter or an arrow key; it holds the key.
    ReservedKey(String),
    /// `h` or `l` as a hotkey while vim-style navigation is on.
    VimKeyConflict,
}

/// A `ValidationError` with its strings as sequences of characters.
pub enum ValidationErrorView {
    TooManyButtons { current: usize, max: usize },
    NoButtons,
    MalformedKey(Seq<char>),
    ReservedKey(Seq<char>),
    VimKeyConflict,
}

impl View for ValidationError {
    type V = ValidationErrorView;

    open spec fn view(&self) -> ValidationErrorView {
        match self {
            ValidationError::TooManyButtons { current, max } => ValidationErrorView::TooManyButtons {
                current: *current,
                max: *max,
            },
            ValidationError::NoButtons => ValidationErrorView::NoButtons,
            ValidationError::MalformedKey(key) => ValidationErrorView::MalformedKey(key@),
            ValidationError::ReservedKey(key) => ValidationErrorView::ReservedKey(key@),
            ValidationError::VimKeyConflict => ValidationErrorView::VimKeyConflict,
        }
    }
}

impl SpecialKey {
    /// The character by which slint names the key in the text of a key event.
    pub open spec fn slint_glyph(self) -> char {
        match self {
            SpecialKey::Tab => '\u{9}',
            SpecialKey::Return => '\u{a}',
            SpecialKey::LeftArrow => '\u{f702}',
            SpecialKey::RightArrow => '\u{f703}',
        }
    }
}

/// The conversion of slint from `slint::platform::Key` to `char`. It gives
/// the character that slint puts in the text of a key event for the key:
/// U+0009 for Tab, U+000A for Return, U+F702 and U+F703 for the left and the
/// right arrow.
#[verifier::external_body]
fn slint_key_char(key: SpecialKey) -> (c: char)
    ensures
        c == key.slint_glyph(),
{
    char::from(
        match key {
            SpecialKey::Tab => Key::Tab,
            SpecialKey::Return => Key::Return,
            SpecialKey::LeftArrow => Key::LeftArrow,
            SpecialKey::RightArrow => Key::RightArrow,
        },
    )
}

impl KeyGlyphs {
    /// Whether `c` names one of the reserved keys.
    pub open spec fn reserves(self, c: char) -> bool {
        c == self.tab || c == self.enter || c == self.left_arrow || c == self.right_arrow
    }

    /// The names that a slint front end gives the reserved keys.
    pub fn slint() -> (glyphs: KeyGlyphs)
        ensures
            glyphs.tab == SpecialKey::Tab.slint_glyph(),
            glyphs.enter == SpecialKey::Return.slint_glyph(),
            glyphs.left_arrow == SpecialKey::LeftArrow.slint_glyph(),
            glyphs.right_arrow == SpecialKey::RightArrow.slint_glyph(),
    {
        KeyGlyphs {
            tab: slint_key_char(SpecialKey::Tab),
            enter: slint_key_char(SpecialKey::Return),
            left_arrow: slint_key_char(SpecialKey::LeftArrow),
            right_arrow: slint_key_char(SpecialKey::RightArrow),
        }
    }
}

impl ConfigButton {
    /// The characters of the `key` field.
    pub open spec fn key_text(self) -> Option<Seq<char>> {
        option_text(self.key)
    }
}

/// The hotkey that a `key` field gives, or why it is refused. The checks
/// are made in this order.
pub open spec fn derived_key(key: Option<Seq<char>>, vim: bool, glyphs: KeyGlyphs) -> Result<
    Option<char>,
    ValidationErrorView,
> {
    match key {
        None => Ok(None),
        Some(text) => if text.len() != 1 {
            Err(ValidationErrorView::MalformedKey(text))
        } else if glyphs.reserves(text[0]) {
            Err(ValidationErrorView::ReservedKey(text))
        } else if vim && (text[0] == 'h' || text[0] == 'l') {
            Err(ValidationErrorView::VimKeyConflict)
        } else {
            Ok(Some(text[0]))
        },
    }
}

/// Whether the key of button `i` is refused.
pub open spec fn key_refused(buttons: Seq<ConfigButton>, i: int, vim: bool, glyphs: KeyGlyphs) -> bool {
    derived_key(buttons[i].key_text(), vim, glyphs) is Err
}

/// Whether `i` is the first button whose key is refused.
pub open spec fn is_first_refused_key(buttons: Seq<ConfigButton>, i: int, vim: bool, glyphs: KeyGlyphs) -> bool {
    &&& 0 <= i < buttons.len()
    &&& key_refused(buttons, i, vim, glyphs)
    &&& forall|j: int| 0 <= j < i ==> !key_refused(buttons, j, vim, glyphs)
}

/// The index and hotkey of every button, in order.
pub open spec fn hotkeys(buttons: Seq<ConfigButton>, vim: bool, glyphs: KeyGlyphs) -> Seq<(u16, Option<char>)> {
    Seq::new(
        buttons.len(),
        |i: int| (i as u16, derived_key(buttons[i].key_text(), vim, glyphs)->Ok_0),
    )
}

/// What validation makes of a list of buttons. The number of buttons is
/// checked first; then the keys, where the first refused key decides. The
/// commands play no part.
pub open spec fn validated(buttons: Seq<ConfigButton>, vim: bool, glyphs: KeyGlyphs) -> Result<
    Seq<(u16, Option<char>)>,
    ValidationErrorView,
> {
    if buttons.len() > MAX_BUTTONS {
        Err(
            ValidationErrorView::TooManyButtons {
                current: buttons.len() as usize,
                max: MAX_BUTTONS,
            },
        )
    } else if buttons.len() == 0 {
        Err(ValidationErrorView::NoButtons)
    } else if exists|i: int| is_first_refused_key(buttons, i, vim, glyphs) {
        let i = choose|i: int| is_first_refused_key(buttons, i, vim, glyphs);
        Err(derived_key(buttons[i].key_text(), vim, glyphs)->Err_0)
    } else {
        Ok(hotkeys(buttons, vim, glyphs))
    }
}

/// Derives the hotkey of one button.
fn derive_key(key: &Option<String>, vim: bool, glyphs: &KeyGlyphs) -> (r: Result<
    Option<char>,
    ValidationError,
>)
    ensures
        match derived_key(option_text(*key), vim, *glyphs) {
            Ok(hotkey) => r == Ok::<Option<char>, ValidationError>(hotkey),
            Err(error) => r matches Err(e) && e@ == error,
        },
{
    let text = match key {
        None => {
            return Ok(None);
        },
        Some(text) => text,
    };
    if text.as_str().unicode_len() != 1 {
        return Err(ValidationError::MalformedKey(text.clone()));
    }
    let c = text.as_str().get_char(0);
    if c == glyphs.tab || c == glyphs.enter || c == glyphs.left_arrow || c == glyphs.right_arrow {
        return Err(ValidationError::ReservedKey(text.clone()));
    }
    if (c == 'h' || c == 'l') && vim {
        return Err(ValidationError::VimKeyConflict);
    }
    Ok(Some(c))
}

/// Validates the buttons of a configuration and derives their hotkeys.
///
/// It succeeds exactly when there are between one and `MAX_BUTTONS`
/// buttons and every `key` is one character that is neither reserved nor,
/// with vim-style navigation on, `h` or `l`.
pub fn validate_buttons(buttons: &Vec<ConfigButton>, vim: bool, glyphs: &KeyGlyphs) -> (r: Result<
    Vec<(u16, Option<char>)>,
    ValidationError,
>)
    ensures
        match validated(buttons@, vim, *glyphs) {
            Ok(keys) => r matches Ok(v) && v@ == keys,
            Err(error) => r matches Err(e) && e@ == error,
        },
{
    let n: usize = buttons.len();
    if n > MAX_BUTTONS {
        return Err(ValidationError::TooManyButtons { current: n, max: MAX_BUTTONS });
    }
    if n == 0 {
        return Err(ValidationError::NoButtons);
    }
    let mut keys: Vec<(u16, Option<char>)> = Vec::new();
    let mut i: usize = 0;
    while i < n
        invariant
            n == buttons.len(),
            0 < n <= MAX_BUTTONS,
            i <= n,
            keys.len() == i,
            forall|j: int| 0 <= j < i ==> !key_refused(buttons@, j, vim, *glyphs),
            forall|j: int| 0 <= j < i ==> keys[j] == hotkeys(buttons@, vim, *glyphs)[j],
        decreases n - i,
    {
        match derive_key(&buttons[i].key, vim, glyphs) {
            Ok(hotkey) => {
                keys.push((i as u16, hotkey));
            },
            Err(error) => {
                assert(is_first_refused_key(buttons@, i as int, vim, *glyphs));
                return Err(error);
            },
        }
        i += 1;
    }
    Ok(keys)
}

impl Config {
    /// Validates the buttons under this configuration's navigation modes.
    pub fn validate(&self, glyphs: &KeyGlyphs) -> (r: Result<Vec<(u16, Option<char>)>, ValidationError>)
        ensures
            match validated(self.buttons@, self.enable_vim_navigation, *glyphs) {
                Ok(keys) => r matches Ok(v) && v@ == keys,
                Err(error) => r matches Err(e) && e@ == error,
            },
    {
        validate_buttons(&self.buttons, self.enable_vim_navigation, glyphs)
    }

    /// The three navigation switches.
    pub fn navigation_modes(&self) -> (modes: NavigationModes)
        ensures
            modes == (NavigationModes {
                tab: self.enable_tab_navigation,
                vim: self.enable_vim_navigation,
                arrow: self.enable_arrow_navigation,
            }),
    {
        NavigationModes {
            tab: self.enable_tab_navigation,
            vim: self.enable_vim_navigation,
            arrow: self.enable_arrow_navigation,
        }
    }
}

impl ValidationErrorView {
    /// The sentence shown to the operator.
    pub open spec fn message_text(self) -> Seq<char> {
        match self {
            ValidationErrorView::TooManyButtons { current, max } => "Too many buttons. (current = "@
                + decimal(current as nat) + ", max = "@ + decimal(max as nat) + ")"@,
            ValidationErrorView::NoButtons => "No buttons given."@,
            ValidationErrorView::MalformedKey(key) => "Invalid button key '"@ + key + "'"@,
            ValidationErrorView::ReservedKey(key) => "Invalid button key '"@ + key + "'"@,
            ValidationErrorView::VimKeyConflict => "Key conflict with VIM-style navigation bindings"@,
        }
    }
}

impl ValidationError {
    /// Renders the error as a sentence.
    pub fn message(&self) -> (m: String)
        ensures
            m@ == self@.message_text(),
    {
        match self {
            ValidationError::TooManyButtons { current, max } => {
                let mut m = String::from_str("Too many buttons. (current = ");
                push_decimal(&mut m, *current as u64);
                m.append(", max = ");
                push_decimal(&mut m, *max as u64);
                m.append(")");
                m
            },
            ValidationError::NoButtons => String::from_str("No buttons given."),
            ValidationError::MalformedKey(key) | ValidationError::ReservedKey(key) => {
                let mut m = String::from_str("Invalid button key '");
                m.append(key.as_str());
                m.append("'");
                m
            },
            ValidationError::VimKeyConflict => String::from_str(
                "Key conflict with VIM-style navigation bindings",
            ),
        }
    }
}

/// With vim-style navigation on, a button whose key is `h` or `l` makes
/// validation fail, whatever else the configuration holds.
pub proof fn lemma_vim_keys_are_refused(buttons: Seq<ConfigButton>, glyphs: KeyGlyphs, i: int)
    requires
        0 <= i < buttons.len(),
        buttons[i].key_text() matches Some(key) && (spells(key, 'h') || spells(key, 'l')),
    ensures
        validated(buttons, true, glyphs) is Err,
{
    lemma_some_key_is_first_refused(buttons, i, true, glyphs);
}

/// Where the key of some button up to `i` is refused, one of them is the first.
proof fn lemma_some_key_is_first_refused(buttons: Seq<ConfigButton>, i: int, vim: bool, glyphs: KeyGlyphs)
    requires
        0 <= i < buttons.len(),
        key_refused(buttons, i, vim, glyphs),
    ensures
        exists|k: int| is_first_refused_key(buttons, k, vim, glyphs),
    decreases i,
{
    if exists|j: int| 0 <= j < i && key_refused(buttons, j, vim, glyphs) {
        let j = choose|j: int| 0 <= j < i && key_refused(buttons, j, vim, glyphs);
        lemma_some_key_is_first_refused(buttons, j, vim, glyphs);
    } else {
        assert(is_first_refused_key(buttons, i, vim, glyphs));
    }
}

/// What validation accepts is aligned with the buttons: one entry for each,
/// in order, with the button's position as its index.
pub proof fn lemma_hotkeys_are_aligned(buttons: Seq<ConfigButton>, vim: bool, glyphs: KeyGlyphs)
    requires
        validated(buttons, vim, glyphs) is Ok,
    ensures
        validated(buttons, vim, glyphs)->Ok_0.len() == buttons.len(),
        forall|i: int|
            0 <= i < buttons.len() ==> (#[trigger] validated(buttons, vim, glyphs)->Ok_0[i]).0 == i,
        forall|i: int|
            0 <= i < buttons.len() ==> derived_key(buttons[i].key_text(), vim, glyphs) == Ok::<
                Option<char>,
                ValidationErrorView,
            >((#[trigger] validated(buttons, vim, glyphs)->Ok_0[i]).1),
{
    assert forall|i: int| 0 <= i < buttons.len() implies derived_key(
        buttons[i].key_text(),
        vim,
        glyphs,
    ) is Ok by {
        if key_refused(buttons, i, vim, glyphs) {
            lemma_some_key_is_first_refused(buttons, i, vim, glyphs);
        }
    }
}

/// The largest number of buttons fits in a button index.
pub proof fn lemma_bound_fits_index()
    ensures
        MAX_BUTTONS <= u16::MAX,
{
}

/// The number of buttons alone decides in these cases: none, or more than
/// `MAX_BUTTONS`, is refused; and any number in between is accepted where
/// every key is in order, whatever the commands.
pub proof fn lemma_button_count_bounds(buttons: Seq<ConfigButton>, vim: bool, glyphs: KeyGlyphs)
    ensures
        buttons.len() == 0 ==> validated(buttons, vim, glyphs) == Err::<
            Seq<(u16, Option<char>)>,
            ValidationErrorView,
        >(ValidationErrorView::NoButtons),
        buttons.len() > MAX_BUTTONS ==> validated(buttons, vim, glyphs) is Err,
        1 <= buttons.len() <= MAX_BUTTONS && (forall|i: int|
            0 <= i < buttons.len() ==> !key_refused(buttons, i, vim, glyphs)) ==> validated(
            buttons,
            vim,
            glyphs,
        ) is Ok,
{
}

} // verus!
