//! Icons: the four that ship with the library, and custom ones whose
//! markup the caller reads from a file.

use std::borrow::Cow;
use vstd::prelude::*;
use vstd::string::StringExecFns;

verus! {

/// The icons that ship with the library.
#[derive(Clone, Copy, Debug, PartialEq, Eq, Structural)]
pub enum BuiltInIcon {
    PowerOff,
    Reboot,
    Lock,
    Logout,
}

/// An icon as the configuration names it.
#[derive(Debug, PartialEq, Eq)]
pub enum ConfigIcon {
    /// One of the four tags.
    BuiltIn(BuiltInIcon),
    /// Anything else: the path of an SVG file.
    CustomIcon(String),
}

/// SVG markup, which may hold the two colour tokens.
#[derive(Debug, PartialEq, Eq)]
pub struct Icon {
    /// Borrowed where the icon is built in, owned where it was read.
    pub content: Cow<'static, str>,
}

/// A custom icon whose file could not be read as text.
#[derive(Debug, PartialEq, Eq)]
pub struct IconReadError {
    pub path: String,
}

/// The power symbol: a broken ring with a bar.
pub const POWEROFF_SVG: &'static str =
    "<svg xmlns=\"http://www.w3.org/2000/svg\" viewBox=\"0 0 24 24\" fill=\"none\" stroke=\"%primaryColor%\" stroke-width=\"2\" stroke-linecap=\"round\"><circle cx=\"12\" cy=\"12\" r=\"11\" fill=\"%secondaryColor%\" stroke=\"none\"/><path d=\"M12 5v7\"/><path d=\"M8 7.5a6 6 0 1 0 8 0\"/></svg>";

/// An arrow that goes round.
pub const REBOOT_SVG: &'static str =
    "<svg xmlns=\"http://www.w3.org/2000/svg\" viewBox=\"0 0 24 24\" fill=\"none\" stroke=\"%primaryColor%\" stroke-width=\"2\" stroke-linecap=\"round\" stroke-linejoin=\"round\"><circle cx=\"12\" cy=\"12\" r=\"11\" fill=\"%secondaryColor%\" stroke=\"none\"/><path d=\"M17 12a5 5 0 1 1-1.5-3.5\"/><path d=\"M17 6v3h-3\"/></svg>";

/// A padlock.
pub const LOCK_SVG: &'static str =
    "<svg xmlns=\"http://www.w3.org/2000/svg\" viewBox=\"0 0 24 24\" fill=\"none\" stroke=\"%primaryColor%\" stroke-width=\"2\" stroke-linecap=\"round\" stroke-linejoin=\"round\"><circle cx=\"12\" cy=\"12\" r=\"11\" fill=\"%secondaryColor%\" stroke=\"none\"/><rect x=\"8\" y=\"11\" width=\"8\" height=\"6\" rx=\"1\"/><path d=\"M9.5 11V9a2.5 2.5 0 0 1 5 0v2\"/></svg>";

/// A door with an arrow that leaves.
pub const LOGOUT_SVG: &'static str =
    "<svg xmlns=\"http://www.w3.org/2000/svg\" viewBox=\"0 0 24 24\" fill=\"none\" stroke=\"%primaryColor%\" stroke-width=\"2\" stroke-linecap=\"round\" stroke-linejoin=\"round\"><circle cx=\"12\" cy=\"12\" r=\"11\" fill=\"%secondaryColor%\" stroke=\"none\"/><path d=\"M11 7H8v10h3\"/><path d=\"M11 12h7\"/><path d=\"M15.5 9.5 18 12l-2.5 2.5\"/></svg>";

impl BuiltInIcon {
    /// The icon that a tag names. Tags are exact and lower case.
    pub open spec fn of_tag(tag: Seq<char>) -> Option<BuiltInIcon> {
        if tag == "poweroff"@ {
            Some(BuiltInIcon::PowerOff)
        } else if tag == "reboot"@ {
            Some(BuiltInIcon::Reboot)
        } else if tag == "lock"@ {
            Some(BuiltInIcon::Lock)
        } else if tag == "logout"@ {
            Some(BuiltInIcon::Logout)
        } else {
            None
        }
    }

    /// The markup of a built-in icon.
    pub open spec fn svg_text(self) -> Seq<char> {
        match self {
            BuiltInIcon::PowerOff => POWEROFF_SVG@,
            BuiltInIcon::Reboot => REBOOT_SVG@,
            BuiltInIcon::Lock => LOCK_SVG@,
            BuiltInIcon::Logout => LOGOUT_SVG@,
        }
    }

    /// Looks a tag up.
    pub fn from_tag(tag: &str) -> (r: Option<BuiltInIcon>)
        ensures
            r == Self::of_tag(tag@),
    {
        if str_eq(tag, "poweroff") {
            Some(BuiltInIcon::PowerOff)
        } else if str_eq(tag, "reboot") {
            Some(BuiltInIcon::Reboot)
        } else if str_eq(tag, "lock") {
            Some(BuiltInIcon::Lock)
        } else if str_eq(tag, "logout") {
            Some(BuiltInIcon::Logout)
        } else {
            None
        }
    }

    /// The embedded markup.
    pub fn svg(self) -> (s: &'static str)
        ensures
            s@ == self.svg_text(),
    {
        match self {
            BuiltInIcon::PowerOff => POWEROFF_SVG,
            BuiltInIcon::Reboot => REBOOT_SVG,
            BuiltInIcon::Lock => LOCK_SVG,
            BuiltInIcon::Logout => LOGOUT_SVG,
        }
    }
}

/// Equality of two string slices, character by character.
fn str_eq(a: &str, b: &str) -> (r: bool)
    ensures
        r == (a@ == b@),
{
    let a_owned = a.to_owned();
    let b_owned = b.to_owned();
    let r = a_owned == b_owned;
    r
}

impl ConfigIcon {
    /// What an icon field of the configuration names.
    pub open spec fn of_text(text: Seq<char>) -> ConfigIconView {
        match BuiltInIcon::of_tag(text) {
            Some(icon) => ConfigIconView::BuiltIn(icon),
            None => ConfigIconView::CustomIcon(text),
        }
    }

    /// Reads an icon field: one of the four tags, else a path.
    pub fn parse(text: String) -> (r: ConfigIcon)
        ensures
            r@ == Self::of_text(text@),
    {
        match BuiltInIcon::from_tag(text.as_str()) {
            Some(icon) => ConfigIcon::BuiltIn(icon),
            None => ConfigIcon::CustomIcon(text),
        }
    }

    /// The file that has to be read before the icon can be resolved.
    pub fn path(&self) -> (p: Option<&str>)
        ensures
            match self@ {
                ConfigIconView::BuiltIn(_) => p is None,
                ConfigIconView::CustomIcon(path) => p matches Some(s) && s@ == path,
            },
    {
        match self {
            ConfigIcon::BuiltIn(_) => None,
            ConfigIcon::CustomIcon(path) => Some(path.as_str()),
        }
    }
}

/// A `ConfigIcon` with its path as a sequence of characters.
pub enum ConfigIconView {
    BuiltIn(BuiltInIcon),
    CustomIcon(Seq<char>),
}

impl View for ConfigIcon {
    type V = ConfigIconView;

    open spec fn view(&self) -> ConfigIconView {
        match self {
            ConfigIcon::BuiltIn(icon) => ConfigIconView::BuiltIn(*icon),
            ConfigIcon::CustomIcon(path) => ConfigIconView::CustomIcon(path@),
        }
    }
}

impl View for Icon {
    type V = Seq<char>;

    open spec fn view(&self) -> Seq<char> {
        self.content@
    }
}

impl Icon {
    /// The markup that an icon resolves to, given what reading its file
    /// gave: a built-in icon needs no file; a custom one is the file's
    /// text, and fails without it.
    pub open spec fn resolved(value: ConfigIconView, file_text: Option<Seq<char>>) -> Result<
        Seq<char>,
        Seq<char>,
    > {
        match value {
            ConfigIconView::BuiltIn(icon) => Ok(icon.svg_text()),
            ConfigIconView::CustomIcon(path) => match file_text {
                Some(text) => Ok(text),
                None => Err(path),
            },
        }
    }

    /// Resolves an icon. `file_text` is the text of the file at
    /// `value.path()`, or `None` where there is no such path or the file
    /// could not be read.
    pub fn try_from(value: ConfigIcon, file_text: Option<String>) -> (r: Result<Icon, IconReadError>)
        ensures
            match Self::resolved(value@, option_text(file_text)) {
                Ok(content) => r matches Ok(icon) && icon@ == content,
                Err(path) => r matches Err(e) && e.path@ == path,
            },
    {
        match value {
            ConfigIcon::BuiltIn(icon) => Ok(Icon { content: Cow::Borrowed(icon.svg()) }),
            ConfigIcon::CustomIcon(path) => match file_text {
                Some(content) => Ok(Icon { content: Cow::Owned(content) }),
                None => Err(IconReadError { path }),
            },
        }
    }

    /// The markup.
    pub fn text(&self) -> (text: &str)
        ensures
            text@ == self@,
    {
        match &self.content {
            Cow::Borrowed(text) => text,
            Cow::Owned(text) => text.as_str(),
        }
    }
}

/// The characters of an optional string.
pub open spec fn option_text(s: Option<String>) -> Option<Seq<char>> {
    match s {
        Some(text) => Some(text@),
        None => None,
    }
}

impl IconReadError {
    /// The sentence shown to the operator.
    pub fn message(&self) -> (m: String)
        ensures
            m@ == "Failed to read icon file '"@ + self.path@ + "'"@,
    {
        let mut m = String::from_str("Failed to read icon file '");
        m.append(self.path.as_str());
        m.append("'");
        m
    }
}

} // verus!
