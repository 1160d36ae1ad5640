//! The menu: one line for each theme of the catalog and one for each of the
//! two reserved keys, the key in blue and the name in red where the terminal
//! takes colours.
use vstd::prelude::*;
use colored::Colorize;
use crate::catalog::{catalog, themes, Theme, QUIT_KEY, RESET_KEY};

verus! {

/// The width to which a key is filled up with spaces.
pub const KEY_WIDTH: usize = 3;

/// What stands between a key and its name.
pub const SEPARATOR: &'static str = "- ";

/// The name the menu gives to the reset key.
pub const RESET_NAME: &'static str = "Reset";

/// The name the menu gives to the quit key.
pub const QUIT_NAME: &'static str = "Quit";

/// The escape sequence that switches the foreground to blue.
pub open spec fn blue_on() -> Seq<char> {
    seq!['\u{1b}', '[', '3', '4', 'm']
}

/// The escape sequence that switches the foreground to red.
pub open spec fn red_on() -> Seq<char> {
    seq!['\u{1b}', '[', '3', '1', 'm']
}

/// The escape sequence that switches all styling off.
pub open spec fn style_off() -> Seq<char> {
    seq!['\u{1b}', '[', '0', 'm']
}

/// `text` holds the escape character.
pub open spec fn has_escape(text: Seq<char>) -> bool {
    exists|i: int| 0 <= i < text.len() && text[i] == '\u{1b}'
}

/// `text`, followed by as many spaces as it lacks to `width` characters.
pub open spec fn padded(text: Seq<char>, width: nat) -> Seq<char> {
    if text.len() < width {
        text + Seq::new((width - text.len()) as nat, |i: int| ' ')
    } else {
        text
    }
}

/// `text` between the escape sequence `on` and the one that switches styling
/// off.
pub open spec fn styled(text: Seq<char>, on: Seq<char>) -> Seq<char> {
    on + text + style_off()
}

/// `out` shows `text` in the colour that `on` switches on, or as it stands
/// where colours are switched off.
pub open spec fn shown_as(out: Seq<char>, text: Seq<char>, on: Seq<char>) -> bool {
    out == text || out == styled(text, on)
}

/// A line of the menu, from the key and the name as they are shown.
pub open spec fn line_of(shown_key: Seq<char>, shown_name: Seq<char>) -> Seq<char> {
    shown_key + SEPARATOR@ + shown_name
}

/// `line` is the menu's line for `key` and `name`: the key filled up to
/// `KEY_WIDTH` and shown in blue, the separator, the name shown in red.
pub open spec fn is_menu_line(line: Seq<char>, key: Seq<char>, name: Seq<char>) -> bool {
    exists|shown_key: Seq<char>, shown_name: Seq<char>|
        shown_as(shown_key, padded(key, KEY_WIDTH as nat), blue_on()) && shown_as(
            shown_name,
            name,
            red_on(),
        ) && line == #[trigger] line_of(shown_key, shown_name)
}

/// The key and the name of each line of the menu, in order: the themes of
/// the catalog, then reset, then quit.
pub open spec fn menu_entries() -> Seq<(Seq<char>, Seq<char>)> {
    Seq::new(themes().len(), |i: int| (themes()[i].key, themes()[i].name)) + seq![
        (RESET_KEY@, RESET_NAME@),
        (QUIT_KEY@, QUIT_NAME@),
    ]
}

/// `lines` is the menu: the line of each entry, in order.
pub open spec fn is_menu(lines: Seq<Seq<char>>) -> bool {
    &&& lines.len() == menu_entries().len()
    &&& forall|i: int|
        0 <= i < lines.len() ==> is_menu_line(
            #[trigger] lines[i],
            menu_entries()[i].0,
            menu_entries()[i].1,
        )
}

/// `Colorize::blue` of the crate `colored`, written out with a minimum
/// width. Where the process has colours switched off, the crate writes the
/// text as it stands; where they are on, it writes the text between the
/// sequence for a blue foreground and the one that switches styling off. In
/// both cases the text itself is filled up with spaces to `width` characters;
/// the formatter takes no width above `u16::MAX`.
/// Which of the two it is depends on the process's surroundings, so the
/// contract allows both. Nothing is stated of a text that holds the escape
/// character, which the crate may rewrite.
#[verifier::external_body]
fn blue(text: &str, width: usize) -> (out: String)
    requires
        width <= u16::MAX,
    ensures
        !has_escape(text@) ==> shown_as(out@, padded(text@, width as nat), blue_on()),
{
    format!("{:width$}", text.blue(), width = width)
}

/// `Colorize::red` of the crate `colored`, written out. Where the process has
/// colours switched off, the crate writes the text as it stands; where they
/// are on, it writes the text between the sequence for a red foreground and
/// the one that switches styling off. Which of the two it is depends on the
/// process's surroundings, so the contract allows both. Nothing is stated of a
/// text that holds the escape character, which the crate may rewrite.
#[verifier::external_body]
fn red(text: &str) -> (out: String)
    ensures
        !has_escape(text@) ==> shown_as(out@, text@, red_on()),
{
    format!("{}", text.red())
}

/// Joins a key and a name, each as it is shown, into a line of the menu.
pub fn menu_line(shown_key: &str, shown_name: &str) -> (line: String)
    ensures
        line@ == line_of(shown_key@, shown_name@),
{
    let mut line = String::from_str(shown_key);
    line.append(SEPARATOR);
    line.append(shown_name);
    line
}

/// The menu's line for `key` and `name`.
pub fn print_colored(key: &str, text: &str) -> (line: String)
    ensures
        !has_escape(key@) && !has_escape(text@) ==> is_menu_line(line@, key@, text@),
{
    let shown_key = blue(key, KEY_WIDTH);
    let shown_name = red(text);
    menu_line(shown_key.as_str(), shown_name.as_str())
}

/// No key and no name of the menu holds the escape character.
proof fn lemma_entries_are_plain()
    ensures
        menu_entries().len() == 17,
        forall|i: int|
            0 <= i < menu_entries().len() ==> !has_escape((#[trigger] menu_entries()[i]).0)
                && !has_escape(menu_entries()[i].1),
{
    reveal_strlit("1");
    reveal_strlit("Base16 default dark");
    reveal_strlit("2");
    reveal_strlit("Base16 default light");
    reveal_strlit("3");
    reveal_strlit("Base16 greenscreen dark");
    reveal_strlit("4");
    reveal_strlit("Dracula");
    reveal_strlit("5");
    reveal_strlit("Gnometerm new");
    reveal_strlit("6");
    reveal_strlit("Gruvbox dark");
    reveal_strlit("7");
    reveal_strlit("Gruvbox light");
    reveal_strlit("8");
    reveal_strlit("Material");
    reveal_strlit("9");
    reveal_strlit("Solarized dark");
    reveal_strlit("10");
    reveal_strlit("Solarized light");
    reveal_strlit("11");
    reveal_strlit("Tokyo night dark");
    reveal_strlit("12");
    reveal_strlit("Tokyo night day");
    reveal_strlit("13");
    reveal_strlit("Tomorrow Night");
    reveal_strlit("14");
    reveal_strlit("Ubuntu");
    reveal_strlit("15");
    reveal_strlit("Zenburn");
    reveal_strlit("r");
    reveal_strlit("Reset");
    reveal_strlit("q");
    reveal_strlit("Quit");
}

/// The lines of the menu, in order: one for each theme of the catalog, then
/// one for reset and one for quit.
pub fn print_themes() -> (lines: Vec<String>)
    ensures
        is_menu(lines.deep_view()),
{
    let list = catalog();
    let mut lines: Vec<String> = Vec::new();
    proof {
        lemma_entries_are_plain();
    }
    let mut i: usize = 0;
    while i < list.len()
        invariant
            list.deep_view() == themes(),
            themes().len() + 2 == menu_entries().len(),
            i <= list.len(),
            lines.len() == i,
            forall|j: int|
                0 <= j < menu_entries().len() ==> !has_escape((#[trigger] menu_entries()[j]).0)
                    && !has_escape(menu_entries()[j].1),
            forall|j: int|
                0 <= j < i ==> is_menu_line(
                    #[trigger] lines.deep_view()[j],
                    menu_entries()[j].0,
                    menu_entries()[j].1,
                ),
        decreases list.len() - i,
    {
        let theme: Theme = list[i];
        let ghost before = lines.deep_view();
        lines.push(print_colored(theme.key, theme.name));
        assert forall|j: int| 0 <= j < i + 1 implies is_menu_line(
            #[trigger] lines.deep_view()[j],
            menu_entries()[j].0,
            menu_entries()[j].1,
        ) by {
            if j < i {
                assert(lines.deep_view()[j] == before[j]);
            }
        }
        i += 1;
    }
    let ghost before = lines.deep_view();
    lines.push(print_colored(RESET_KEY, RESET_NAME));
    lines.push(print_colored(QUIT_KEY, QUIT_NAME));
    assert forall|j: int| 0 <= j < 17 implies is_menu_line(
        #[trigger] lines.deep_view()[j],
        menu_entries()[j].0,
        menu_entries()[j].1,
    ) by {
        if j < 15 {
            assert(lines.deep_view()[j] == before[j]);
        }
    }
    lines
}

} // verus!
