//! Keyboard focus: a function from the focused button and a key event to
//! the button that is focused next, or -1 for none.

use crate::config::{KeyGlyphs, NavigationModes};
use crate::text::{is_char, spells};
use vstd::prelude::*;

verus! {

/// The modifier keys held while a key was pressed.
#[derive(Clone, Copy, Debug, PartialEq, Eq, Structural)]
pub struct KeyboardModifiers {
    pub alt: bool,
    pub control: bool,
    pub meta: bool,
    pub shift: bool,
}

/// A key press: the text that the key produces, and the modifiers held.
#[derive(Debug, PartialEq, Eq)]
pub struct KeyEvent {
    pub text: String,
    pub modifiers: KeyboardModifiers,
}

impl KeyboardModifiers {
    /// Control, alt or meta is held.
    pub open spec fn command_held(self) -> bool {
        self.control || self.alt || self.meta
    }

    /// Any of the four modifiers is held.
    pub open spec fn any_held(self) -> bool {
        self.command_held() || self.shift
    }
}

/// The button to the left of `selected` among `total`, going round: from
/// the first button, and from no button, to the last.
pub open spec fn left_of(selected: int, total: int) -> int {
    if selected <= 0 {
        total - 1
    } else {
        selected - 1
    }
}

/// The button to the right of `selected` among `total`, going round: from
/// the last button, and from no button, to the first.
pub open spec fn right_of(selected: int, total: int) -> int {
    if selected == -1 || selected == total - 1 {
        0
    } else {
        selected + 1
    }
}

/// The index of the first entry at or after `from` whose hotkey is the
/// whole of `text`; -1 where there is none.
pub open spec fn hotkey_target(text: Seq<char>, hotkeys: Seq<(u16, Option<char>)>, from: int) -> int
    decreases hotkeys.len() - from,
{
    if from < 0 || from >= hotkeys.len() {
        -1
    } else if hotkeys[from].1 matches Some(c) && spells(text, c) {
        hotkeys[from].0 as int
    } else {
        hotkey_target(text, hotkeys, from + 1)
    }
}

/// Whether one of the navigation rules, rather than a hotkey, answers the
/// key: Tab, `h`, `l` or an arrow key, with its mode switched on.
pub open spec fn is_navigation_key(text: Seq<char>, modes: NavigationModes, glyphs: KeyGlyphs) -> bool {
    ||| modes.tab && spells(text, glyphs.tab)
    ||| modes.vim && (spells(text, 'h') || spells(text, 'l'))
    ||| modes.arrow && (spells(text, glyphs.left_arrow) || spells(text, glyphs.right_arrow))
}

/// The focus after a key press. The first rule that matches decides.
pub open spec fn focus_after(
    selected: int,
    total: int,
    text: Seq<char>,
    modifiers: KeyboardModifiers,
    modes: NavigationModes,
    glyphs: KeyGlyphs,
    hotkeys: Seq<(u16, Option<char>)>,
) -> int {
    let left = left_of(selected, total);
    let right = right_of(selected, total);
    if modes.tab && spells(text, glyphs.tab) {
        if modifiers.command_held() {
            -1
        } else if modifiers.shift {
            left
        } else {
            right
        }
    } else if modes.vim && spells(text, 'h') {
        if modifiers.any_held() {
            -1
        } else {
            left
        }
    } else if modes.vim && spells(text, 'l') {
        if modifiers.any_held() {
            -1
        } else {
            right
        }
    } else if modes.arrow && spells(text, glyphs.left_arrow) {
        if modifiers.any_held() {
            -1
        } else {
            left
        }
    } else if modes.arrow && spells(text, glyphs.right_arrow) {
        if modifiers.any_held() {
            -1
        } else {
            right
        }
    } else {
        hotkey_target(text, hotkeys, 0)
    }
}

/// Looks for the first hotkey that is the whole of `text`.
fn find_hotkey(text: &str, hotkeys: &Vec<(u16, Option<char>)>) -> (r: i32)
    ensures
        r == hotkey_target(text@, hotkeys@, 0),
{
    let mut i: usize = 0;
    while i < hotkeys.len()
        invariant
            i <= hotkeys.len(),
            hotkey_target(text@, hotkeys@, 0) == hotkey_target(text@, hotkeys@, i as int),
        decreases hotkeys.len() - i,
    {
        let (index, hotkey) = hotkeys[i];
        if let Some(c) = hotkey {
            if is_char(text, c) {
                return index as i32;
            }
        }
        i += 1;
    }
    -1
}

/// Computes the focus after a key press.
///
/// `selected` is the focused button, or -1 for none; `total` is the number
/// of buttons; `hotkeys` is what validation gave. The result is a button
/// index or -1. `selected` below `i32::MAX` keeps the right neighbour within
/// the integer type.
pub fn next_focus(
    selected: i32,
    total: u16,
    event: &KeyEvent,
    modes: &NavigationModes,
    glyphs: &KeyGlyphs,
    hotkeys: &Vec<(u16, Option<char>)>,
) -> (next: i32)
    requires
        selected < i32::MAX,
    ensures
        next == focus_after(
            selected as int,
            total as int,
            event.text@,
            event.modifiers,
            *modes,
            *glyphs,
            hotkeys@,
        ),
{
    let left: i32 = if selected <= 0 {
        total as i32 - 1
    } else {
        selected - 1
    };
    let right: i32 = if selected == -1 || selected == total as i32 - 1 {
        0
    } else {
        selected + 1
    };
    let text = event.text.as_str();
    let m = event.modifiers;
    let command_held = m.control || m.alt || m.meta;
    let any_held = command_held || m.shift;
    if modes.tab && is_char(text, glyphs.tab) {
        if command_held {
            return -1;
        }
        return if m.shift {
            left
        } else {
            right
        };
    }
    if modes.vim && is_char(text, 'h') {
        if any_held {
            return -1;
        }
        return left;
    }
    if modes.vim && is_char(text, 'l') {
        if any_held {
            return -1;
        }
        return right;
    }
    if modes.arrow && is_char(text, glyphs.left_arrow) {
        if any_held {
            return -1;
        }
        return left;
    }
    if modes.arrow && is_char(text, glyphs.right_arrow) {
        if any_held {
            return -1;
        }
        return right;
    }
    find_hotkey(text, hotkeys)
}

/// A navigation key pressed together with control, alt or meta takes the
/// focus away, wherever it was.
pub proof fn lemma_command_modifier_defocuses(
    selected: int,
    total: int,
    text: Seq<char>,
    modifiers: KeyboardModifiers,
    modes: NavigationModes,
    glyphs: KeyGlyphs,
    hotkeys: Seq<(u16, Option<char>)>,
)
    requires
        is_navigation_key(text, modes, glyphs),
        modifiers.command_held(),
    ensures
        focus_after(selected, total, text, modifiers, modes, glyphs, hotkeys) == -1,
{
}

/// The focus stays a button or none: from a focus between -1 and the last
/// button, and with hotkeys that belong to buttons, every key press gives a
/// focus in that range again.
pub proof fn lemma_focus_stays_in_range(
    selected: int,
    total: int,
    text: Seq<char>,
    modifiers: KeyboardModifiers,
    modes: NavigationModes,
    glyphs: KeyGlyphs,
    hotkeys: Seq<(u16, Option<char>)>,
)
    requires
        total >= 1,
        -1 <= selected < total,
        forall|i: int| 0 <= i < hotkeys.len() ==> (#[trigger] hotkeys[i]).0 < total,
    ensures
        -1 <= focus_after(selected, total, text, modifiers, modes, glyphs, hotkeys) < total,
{
    lemma_hotkey_target_is_listed(text, hotkeys, 0);
}

/// A hotkey leads to the index of one of the entries, or nowhere.
proof fn lemma_hotkey_target_is_listed(text: Seq<char>, hotkeys: Seq<(u16, Option<char>)>, from: int)
    requires
        0 <= from,
    ensures
        hotkey_target(text, hotkeys, from) == -1 || exists|i: int|
            from <= i < hotkeys.len() && (#[trigger] hotkeys[i]).0 == hotkey_target(
                text,
                hotkeys,
                from,
            ),
    decreases hotkeys.len() - from,
{
    if from < hotkeys.len() {
        if hotkeys[from].1 matches Some(c) && spells(text, c) {
        } else {
            lemma_hotkey_target_is_listed(text, hotkeys, from + 1);
        }
    }
}

/// Left and right undo each other wherever a button is focused.
pub proof fn lemma_left_and_right_are_inverse(selected: int, total: int)
    requires
        0 <= selected < total,
    ensures
        left_of(right_of(selected, total), total) == selected,
        right_of(left_of(selected, total), total) == selected,
{
}

/// With a single button both neighbours are that button, so Tab focuses it
/// from every state.
pub proof fn lemma_single_button_tab(
    selected: int,
    text: Seq<char>,
    modifiers: KeyboardModifiers,
    modes: NavigationModes,
    glyphs: KeyGlyphs,
    hotkeys: Seq<(u16, Option<char>)>,
)
    requires
        -1 <= selected <= 0,
        modes.tab,
        spells(text, glyphs.tab),
        !modifiers.command_held(),
    ensures
        focus_after(selected, 1, text, modifiers, modes, glyphs, hotkeys) == 0,
{
}

} // verus!
