//! Icon theming: the two colour tokens in an icon's markup are replaced by
//! colour strings, once for the focused and once for the unfocused look.

use crate::color::Rgba;
use crate::config::ConfigButton;
use crate::text::{decimal, push_decimal};
use aho_corasick::{AhoCorasick, BuildError, MatchKind};
use vstd::prelude::*;
use vstd::string::StringExecFns;

verus! {

/// The token that stands for the primary colour.
pub const PRIMARY_TOKEN: &'static str = "%primaryColor%";

/// The token that stands for the secondary colour.
pub const SECONDARY_TOKEN: &'static str = "%secondaryColor%";

/// The two tokens, in the order in which they are matched.
pub open spec fn tokens() -> Seq<Seq<char>> {
    seq![PRIMARY_TOKEN@, SECONDARY_TOKEN@]
}

/// The first pattern at or after index `from`, in the order given, that
/// `text` starts with.
pub open spec fn leading_pattern(text: Seq<char>, patterns: Seq<Seq<char>>, from: int) -> Option<int>
    decreases patterns.len() - from,
{
    if from < 0 || from >= patterns.len() {
        None
    } else if patterns[from].is_prefix_of(text) {
        Some(from)
    } else {
        leading_pattern(text, patterns, from + 1)
    }
}

/// `text` with every match of a pattern replaced by the replacement of the
/// same index. Matches are taken from left to right and do not overlap;
/// where several patterns match at one place, the earliest in the list
/// wins. Text that no match covers stays as it is.
pub open spec fn substituted(
    text: Seq<char>,
    patterns: Seq<Seq<char>>,
    replace_with: Seq<Seq<char>>,
) -> Seq<char>
    decreases text.len(),
{
    if text.len() == 0 {
        text
    } else {
        match leading_pattern(text, patterns, 0) {
            Some(i) => if 0 < patterns[i].len() <= text.len() {
                replace_with[i] + substituted(
                    text.skip(patterns[i].len() as int),
                    patterns,
                    replace_with,
                )
            } else {
                seq![text[0]] + substituted(text.skip(1), patterns, replace_with)
            },
            None => seq![text[0]] + substituted(text.skip(1), patterns, replace_with),
        }
    }
}

/// The automaton of aho-corasick, which searches a text for several
/// patterns at once.
#[verifier::external_type_specification]
#[verifier::external_body]
pub struct ExAhoCorasick(AhoCorasick);

/// The error with which aho-corasick refuses to build an automaton.
#[verifier::external_type_specification]
#[verifier::external_body]
pub struct ExBuildError(BuildError);

/// The patterns that an automaton searches for, in the order in which they
/// were given when it was built.
pub uninterp spec fn automaton_patterns(automaton: AhoCorasick) -> Seq<Seq<char>>;

/// Whether an automaton reports leftmost matches and prefers, among those,
/// the pattern given first; it is otherwise as the builder makes it by default.
pub uninterp spec fn is_leftmost_first(automaton: AhoCorasick) -> bool;

/// Whether aho-corasick builds an automaton for these patterns. It refuses
/// where their number, the length of one of them, or the number of states
/// that they need exceeds a limit of the crate; the patterns alone decide.
pub uninterp spec fn build_accepts(patterns: Seq<Seq<char>>) -> bool;

/// `AhoCorasickBuilder::build` of aho-corasick, on a builder whose match
/// kind is `LeftmostFirst`. Whether it succeeds depends on the patterns
/// alone. Where it succeeds, the automaton searches for the given patterns
/// in the given order.
#[verifier::external_body]
fn build_leftmost_first(patterns: &Vec<String>) -> (r: Result<AhoCorasick, BuildError>)
    ensures
        r is Ok <==> build_accepts(patterns.deep_view()),
        r matches Ok(automaton) ==> automaton_patterns(automaton) == patterns.deep_view()
            && is_leftmost_first(automaton),
{
    AhoCorasick::builder().match_kind(MatchKind::LeftmostFirst).build(patterns)
}

/// `AhoCorasick::replace_all` of aho-corasick. The matches that it replaces
/// are those of `find_iter`: from left to right, without overlap, each the
/// leftmost match in what is left of the text and, among the patterns that
/// match there, the one given first. It panics unless there is one
/// replacement for each pattern.
#[verifier::external_body]
fn replace_all(automaton: &AhoCorasick, text: &str, replace_with: &Vec<String>) -> (out: String)
    requires
        is_leftmost_first(*automaton),
        replace_with.len() == automaton_patterns(*automaton).len(),
        forall|i: int|
            0 <= i < automaton_patterns(*automaton).len() ==> #[trigger] automaton_patterns(
                *automaton,
            )[i].len() > 0,
    ensures
        out@ == substituted(text@, automaton_patterns(*automaton), replace_with.deep_view()),
{
    automaton.replace_all(text, replace_with)
}

/// The `Display` text of a `BuildError` of aho-corasick.
#[verifier::external_body]
fn build_error_text(error: &BuildError) -> (text: String) {
    error.to_string()
}

/// The automaton for the two tokens could not be built.
#[derive(Debug, PartialEq, Eq)]
pub struct ThemeError {
    pub reason: String,
}

/// The two looks of one icon.
#[derive(Debug, PartialEq, Eq)]
pub struct ThemedIcon {
    pub focused: String,
    pub unfocused: String,
}

/// The two looks of one icon, as sequences of characters.
pub struct ThemedIconView {
    pub focused: Seq<char>,
    pub unfocused: Seq<char>,
}

impl View for ThemedIcon {
    type V = ThemedIconView;

    open spec fn view(&self) -> ThemedIconView {
        ThemedIconView { focused: self.focused@, unfocused: self.unfocused@ }
    }
}

impl ThemedIconView {
    /// The same two looks with their roles exchanged.
    pub open spec fn swapped(self) -> ThemedIconView {
        ThemedIconView { focused: self.unfocused, unfocused: self.focused }
    }
}

/// The two looks of an icon: focused, the primary token becomes the primary
/// colour and the secondary token the secondary colour; unfocused, the other
/// way round.
pub open spec fn themed(content: Seq<char>, primary: Seq<char>, secondary: Seq<char>) -> ThemedIconView {
    ThemedIconView {
        focused: substituted(content, tokens(), seq![primary, secondary]),
        unfocused: substituted(content, tokens(), seq![secondary, primary]),
    }
}

/// The `rgba(r,g,b,a)` form of a colour. `opacity` is the text of the alpha
/// channel as a fraction of 255, which the caller renders.
pub open spec fn rgba_text(color: Rgba, opacity: Seq<char>) -> Seq<char> {
    "rgba("@ + decimal(color.red as nat) + ","@ + decimal(color.green as nat) + ","@ + decimal(
        color.blue as nat,
    ) + ","@ + opacity + ")"@
}

/// Renders a colour as `rgba(r,g,b,a)`, with `opacity` for `a`.
pub fn color_text(color: Rgba, opacity: &str) -> (text: String)
    ensures
        text@ == rgba_text(color, opacity@),
{
    let mut text = String::from_str("rgba(");
    push_decimal(&mut text, color.red as u64);
    text.append(",");
    push_decimal(&mut text, color.green as u64);
    text.append(",");
    push_decimal(&mut text, color.blue as u64);
    text.append(",");
    text.append(opacity);
    text.append(")");
    text
}

/// Replaces the colour tokens in icon markup.
pub struct IconThemer {
    automaton: AhoCorasick,
}

impl IconThemer {
    #[verifier::type_invariant]
    spec fn searches_for_the_tokens(self) -> bool {
        self.patterns() == tokens() && self.takes_leftmost_first()
    }

    /// The patterns that the themer searches for, in the order in which
    /// they are matched.
    pub closed spec fn patterns(self) -> Seq<Seq<char>> {
        automaton_patterns(self.automaton)
    }

    /// Whether the themer takes the leftmost match and, where several
    /// patterns match there, the one that comes first in `patterns`.
    pub closed spec fn takes_leftmost_first(self) -> bool {
        is_leftmost_first(self.automaton)
    }

    /// Prepares the search for the two tokens. It succeeds exactly where
    /// aho-corasick builds an automaton for them, and the themer then
    /// searches for `tokens()`, leftmost first.
    pub fn new() -> (r: Result<IconThemer, ThemeError>)
        ensures
            r is Ok <==> build_accepts(tokens()),
            r matches Ok(themer) ==> themer.patterns() == tokens() && themer.takes_leftmost_first(),
    {
        let mut patterns: Vec<String> = Vec::new();
        patterns.push(String::from_str(PRIMARY_TOKEN));
        patterns.push(String::from_str(SECONDARY_TOKEN));
        assert(patterns.deep_view() =~= tokens());
        Self::from_built(build_leftmost_first(&patterns))
    }

    /// Takes what building the automaton for the two tokens gave: a themer
    /// around the automaton where it succeeded, and the builder's words
    /// where it failed.
    fn from_built(built: Result<AhoCorasick, BuildError>) -> (r: Result<IconThemer, ThemeError>)
        requires
            built matches Ok(automaton) ==> automaton_patterns(automaton) == tokens()
                && is_leftmost_first(automaton),
        ensures
            r is Ok <==> built is Ok,
            r matches Ok(themer) ==> themer.patterns() == tokens() && themer.takes_leftmost_first(),
    {
        match built {
            Ok(automaton) => Ok(IconThemer { automaton }),
            Err(error) => Err(ThemeError { reason: build_error_text(&error) }),
        }
    }

    /// Makes the two looks of one icon from its markup and the two colour
    /// strings.
    pub fn theme(&self, content: &str, primary: &str, secondary: &str) -> (icon: ThemedIcon)
        ensures
            icon@ == themed(content@, primary@, secondary@),
    {
        proof {
            use_type_invariant(self);
            lemma_tokens_are_not_empty();
        }
        let mut straight: Vec<String> = Vec::new();
        straight.push(String::from_str(primary));
        straight.push(String::from_str(secondary));
        let mut crossed: Vec<String> = Vec::new();
        crossed.push(String::from_str(secondary));
        crossed.push(String::from_str(primary));
        assert(straight.deep_view() =~= seq![primary@, secondary@]);
        assert(crossed.deep_view() =~= seq![secondary@, primary@]);
        let focused = replace_all(&self.automaton, content, &straight);
        let unfocused = replace_all(&self.automaton, content, &crossed);
        ThemedIcon { focused, unfocused }
    }

    /// Makes the two looks of every button's icon, in the order of the
    /// buttons.
    pub fn theme_all(&self, buttons: &Vec<ConfigButton>, primary: &str, secondary: &str) -> (icons: Vec<
        ThemedIcon,
    >)
        ensures
            icons.len() == buttons.len(),
            forall|i: int|
                0 <= i < buttons.len() ==> (#[trigger] icons[i])@ == themed(
                    buttons[i].icon@,
                    primary@,
                    secondary@,
                ),
    {
        let mut icons: Vec<ThemedIcon> = Vec::new();
        let mut i: usize = 0;
        while i < buttons.len()
            invariant
                i <= buttons.len(),
                icons.len() == i,
                forall|k: int|
                    0 <= k < i ==> (#[trigger] icons[k])@ == themed(
                        buttons[k].icon@,
                        primary@,
                        secondary@,
                    ),
            decreases buttons.len() - i,
        {
            let icon = self.theme(buttons[i].icon.text(), primary, secondary);
            icons.push(icon);
            i += 1;
        }
        icons
    }
}

/// Neither token is the empty string.
proof fn lemma_tokens_are_not_empty()
    ensures
        tokens().len() == 2,
        tokens()[0].len() > 0,
        tokens()[1].len() > 0,
{
    reveal_strlit("%primaryColor%");
    reveal_strlit("%secondaryColor%");
}

/// Exchanging the two colours exchanges the two looks; doing it twice
/// changes nothing.
pub proof fn lemma_swapped_colors_swap_looks(content: Seq<char>, primary: Seq<char>, secondary: Seq<char>)
    ensures
        themed(content, secondary, primary) == themed(content, primary, secondary).swapped(),
        themed(content, primary, secondary).swapped().swapped() == themed(content, primary, secondary),
{
}

/// Markup in which no token occurs is left as it is, whatever the colours.
pub proof fn lemma_text_without_match_is_kept(
    text: Seq<char>,
    patterns: Seq<Seq<char>>,
    replace_with: Seq<Seq<char>>,
)
    requires
        forall|k: int, i: int|
            0 <= k <= text.len() && 0 <= i < patterns.len() ==> !(#[trigger] patterns[i]).is_prefix_of(
                #[trigger] text.skip(k),
            ),
    ensures
        substituted(text, patterns, replace_with) == text,
    decreases text.len(),
{
    if text.len() > 0 {
        assert(text.skip(0) =~= text);
        lemma_no_leading_pattern(text, patterns, 0);
        let rest = text.skip(1);
        assert forall|k: int, i: int|
            0 <= k <= rest.len() && 0 <= i < patterns.len() implies !(#[trigger] patterns[i]).is_prefix_of(
            #[trigger] rest.skip(k),
        ) by {
            assert(rest.skip(k) =~= text.skip(k + 1));
        }
        lemma_text_without_match_is_kept(rest, patterns, replace_with);
    }
}

/// Where no pattern is a prefix of the text, none leads it.
proof fn lemma_no_leading_pattern(text: Seq<char>, patterns: Seq<Seq<char>>, from: int)
    requires
        0 <= from,
        forall|i: int| 0 <= i < patterns.len() ==> !(#[trigger] patterns[i]).is_prefix_of(text),
    ensures
        leading_pattern(text, patterns, from) is None,
    decreases patterns.len() - from,
{
    if from < patterns.len() {
        lemma_no_leading_pattern(text, patterns, from + 1);
    }
}

} // verus!
