//! The catalog of themes: which key selects which theme, and the lookup of a
//! theme's colour definitions by its key.
use vstd::prelude::*;
use crate::text::same_text;
use crate::theme_data::{
    BASE16_DEFAULT_DARK,
    BASE16_DEFAULT_LIGHT,
    BASE16_GREENSCREEN_DARK,
    DRACULA,
    GNOMETERM_NEW,
    GRUVBOX_DARK,
    GRUVBOX_LIGHT,
    MATERIAL,
    SOLARIZED_DARK,
    SOLARIZED_LIGHT,
    TOKYONIGHT_DARK,
    TOKYONIGHT_DAY,
    TOMORROW_NIGHT,
    UBUNTU,
    ZENBURN,
};

verus! {

/// A theme of the catalog.
#[derive(Clone, Copy, Debug)]
pub struct Theme {
    /// What the user types to select the theme.
    pub key: &'static str,
    /// The name the menu shows.
    pub name: &'static str,
    /// The text of the configuration file that sets the theme's colours.
    pub payload: &'static str,
}

/// A theme as contracts see it: the characters of its three texts.
pub struct ThemeView {
    pub key: Seq<char>,
    pub name: Seq<char>,
    pub payload: Seq<char>,
}

impl View for Theme {
    type V = ThemeView;

    open spec fn view(&self) -> ThemeView {
        ThemeView { key: self.key@, name: self.name@, payload: self.payload@ }
    }
}

impl DeepView for Theme {
    type V = ThemeView;

    open spec fn deep_view(&self) -> ThemeView {
        self.view()
    }
}

/// The key that asks for the configuration to be removed.
pub const RESET_KEY: &'static str = "r";

/// The key that ends the session with nothing done.
pub const QUIT_KEY: &'static str = "q";

/// The themes in the order of the menu.
pub open spec fn themes() -> Seq<ThemeView> {
    seq![
        ThemeView { key: "1"@, name: "Base16 default dark"@, payload: BASE16_DEFAULT_DARK@ },
        ThemeView { key: "2"@, name: "Base16 default light"@, payload: BASE16_DEFAULT_LIGHT@ },
        ThemeView { key: "3"@, name: "Base16 greenscreen dark"@, payload: BASE16_GREENSCREEN_DARK@ },
        ThemeView { key: "4"@, name: "Dracula"@, payload: DRACULA@ },
        ThemeView { key: "5"@, name: "Gnometerm new"@, payload: GNOMETERM_NEW@ },
        ThemeView { key: "6"@, name: "Gruvbox dark"@, payload: GRUVBOX_DARK@ },
        ThemeView { key: "7"@, name: "Gruvbox light"@, payload: GRUVBOX_LIGHT@ },
        ThemeView { key: "8"@, name: "Material"@, payload: MATERIAL@ },
        ThemeView { key: "9"@, name: "Solarized dark"@, payload: SOLARIZED_DARK@ },
        ThemeView { key: "10"@, name: "Solarized light"@, payload: SOLARIZED_LIGHT@ },
        ThemeView { key: "11"@, name: "Tokyo night dark"@, payload: TOKYONIGHT_DARK@ },
        ThemeView { key: "12"@, name: "Tokyo night day"@, payload: TOKYONIGHT_DAY@ },
        ThemeView { key: "13"@, name: "Tomorrow Night"@, payload: TOMORROW_NIGHT@ },
        ThemeView { key: "14"@, name: "Ubuntu"@, payload: UBUNTU@ },
        ThemeView { key: "15"@, name: "Zenburn"@, payload: ZENBURN@ },
    ]
}

/// `key` selects a theme of the catalog.
pub open spec fn is_theme_key(key: Seq<char>) -> bool {
    exists|i: int| 0 <= i < themes().len() && (#[trigger] themes()[i]).key == key
}

/// The colour definitions that `key` selects, if it selects a theme. The
/// match is exact: no other spelling of a key selects anything.
pub open spec fn payload_of(key: Seq<char>) -> Option<Seq<char>> {
    if is_theme_key(key) {
        let i = choose|i: int| 0 <= i < themes().len() && (#[trigger] themes()[i]).key == key;
        Some(themes()[i].payload)
    } else {
        None
    }
}

/// The keys of the catalog, position by position and character by character.
proof fn lemma_keys()
    ensures
        themes().len() == 15,
        themes()[0].key == "1"@,
        themes()[0].key.len() == 1,
        themes()[0].key[0] == '1',
        themes()[1].key == "2"@,
        themes()[1].key.len() == 1,
        themes()[1].key[0] == '2',
        themes()[2].key == "3"@,
        themes()[2].key.len() == 1,
        themes()[2].key[0] == '3',
        themes()[3].key == "4"@,
        themes()[3].key.len() == 1,
        themes()[3].key[0] == '4',
        themes()[4].key == "5"@,
        themes()[4].key.len() == 1,
        themes()[4].key[0] == '5',
        themes()[5].key == "6"@,
        themes()[5].key.len() == 1,
        themes()[5].key[0] == '6',
        themes()[6].key == "7"@,
        themes()[6].key.len() == 1,
        themes()[6].key[0] == '7',
        themes()[7].key == "8"@,
        themes()[7].key.len() == 1,
        themes()[7].key[0] == '8',
        themes()[8].key == "9"@,
        themes()[8].key.len() == 1,
        themes()[8].key[0] == '9',
        themes()[9].key == "10"@,
        themes()[9].key.len() == 2,
        themes()[9].key[0] == '1',
        themes()[9].key[1] == '0',
        themes()[10].key == "11"@,
        themes()[10].key.len() == 2,
        themes()[10].key[0] == '1',
        themes()[10].key[1] == '1',
        themes()[11].key == "12"@,
        themes()[11].key.len() == 2,
        themes()[11].key[0] == '1',
        themes()[11].key[1] == '2',
        themes()[12].key == "13"@,
        themes()[12].key.len() == 2,
        themes()[12].key[0] == '1',
        themes()[12].key[1] == '3',
        themes()[13].key == "14"@,
        themes()[13].key.len() == 2,
        themes()[13].key[0] == '1',
        themes()[13].key[1] == '4',
        themes()[14].key == "15"@,
        themes()[14].key.len() == 2,
        themes()[14].key[0] == '1',
        themes()[14].key[1] == '5',
{
    reveal_strlit("1");
    reveal_strlit("2");
    reveal_strlit("3");
    reveal_strlit("4");
    reveal_strlit("5");
    reveal_strlit("6");
    reveal_strlit("7");
    reveal_strlit("8");
    reveal_strlit("9");
    reveal_strlit("10");
    reveal_strlit("11");
    reveal_strlit("12");
    reveal_strlit("13");
    reveal_strlit("14");
    reveal_strlit("15");
}

/// No two themes share a key.
pub proof fn keys_are_distinct()
    ensures
        forall|i: int, j: int|
            0 <= i < j < themes().len() ==> (#[trigger] themes()[i]).key != (
            #[trigger] themes()[j]).key,
{
    lemma_keys();
}

/// The decimal digit for `d`.
pub open spec fn digit(d: nat) -> char {
    if d == 0 {
        '0'
    } else if d == 1 {
        '1'
    } else if d == 2 {
        '2'
    } else if d == 3 {
        '3'
    } else if d == 4 {
        '4'
    } else if d == 5 {
        '5'
    } else if d == 6 {
        '6'
    } else if d == 7 {
        '7'
    } else if d == 8 {
        '8'
    } else {
        '9'
    }
}

/// The decimal numeral of a number below a hundred.
pub open spec fn numeral(n: nat) -> Seq<char> {
    if n < 10 {
        seq![digit(n)]
    } else {
        seq![digit(n / 10), digit(n % 10)]
    }
}

/// The key of a theme is its position in the menu, counted from one and
/// written in decimal.
pub proof fn keys_are_positions()
    ensures
        themes().len() == 15,
        forall|i: int| 0 <= i < themes().len() ==> (#[trigger] themes()[i]).key == numeral(
            (i + 1) as nat,
        ),
{
    lemma_keys();
}

/// Neither reserved key selects a theme, and the two differ.
pub proof fn reserved_keys_select_no_theme()
    ensures
        !is_theme_key(RESET_KEY@),
        !is_theme_key(QUIT_KEY@),
        payload_of(RESET_KEY@) is None,
        payload_of(QUIT_KEY@) is None,
        RESET_KEY@ != QUIT_KEY@,
{
    lemma_keys();
    reveal_strlit("r");
    reveal_strlit("q");
    assert(RESET_KEY@.len() == 1 && RESET_KEY@[0] == 'r');
    assert(QUIT_KEY@.len() == 1 && QUIT_KEY@[0] == 'q');
}

/// The theme at position `i` is the one its key selects.
pub proof fn key_selects_its_theme(i: int)
    requires
        0 <= i < themes().len(),
    ensures
        payload_of(themes()[i].key) == Some(themes()[i].payload),
{
    keys_are_distinct();
    let key = themes()[i].key;
    let j = choose|j: int| 0 <= j < themes().len() && (#[trigger] themes()[j]).key == key;
    assert(j == i);
}

/// Lookup is a function of the key's characters: whatever two lookups of
/// keys with the same characters find, they find the same, whenever they are
/// made.
pub proof fn lookup_is_deterministic(
    first_key: Seq<char>,
    second_key: Seq<char>,
    first_found: Option<&'static str>,
    second_found: Option<&'static str>,
)
    requires
        first_key == second_key,
        first_found.deep_view() == payload_of(first_key),
        second_found.deep_view() == payload_of(second_key),
    ensures
        first_found is Some <==> second_found is Some,
        first_found is Some ==> first_found.unwrap()@ == second_found.unwrap()@,
{
}

/// A text that is the key of no theme selects nothing.
pub proof fn unknown_key_selects_nothing(key: Seq<char>)
    requires
        forall|i: int| 0 <= i < themes().len() ==> (#[trigger] themes()[i]).key != key,
    ensures
        payload_of(key) is None,
{
}

/// The themes in the order of the menu.
pub fn catalog() -> (list: Vec<Theme>)
    ensures
        list.deep_view() == themes(),
{
    let mut list: Vec<Theme> = Vec::new();
    list.push(Theme { key: "1", name: "Base16 default dark", payload: BASE16_DEFAULT_DARK });
    list.push(Theme { key: "2", name: "Base16 default light", payload: BASE16_DEFAULT_LIGHT });
    list.push(Theme { key: "3", name: "Base16 greenscreen dark", payload: BASE16_GREENSCREEN_DARK });
    list.push(Theme { key: "4", name: "Dracula", payload: DRACULA });
    list.push(Theme { key: "5", name: "Gnometerm new", payload: GNOMETERM_NEW });
    list.push(Theme { key: "6", name: "Gruvbox dark", payload: GRUVBOX_DARK });
    list.push(Theme { key: "7", name: "Gruvbox light", payload: GRUVBOX_LIGHT });
    list.push(Theme { key: "8", name: "Material", payload: MATERIAL });
    list.push(Theme { key: "9", name: "Solarized dark", payload: SOLARIZED_DARK });
    list.push(Theme { key: "10", name: "Solarized light", payload: SOLARIZED_LIGHT });
    list.push(Theme { key: "11", name: "Tokyo night dark", payload: TOKYONIGHT_DARK });
    list.push(Theme { key: "12", name: "Tokyo night day", payload: TOKYONIGHT_DAY });
    list.push(Theme { key: "13", name: "Tomorrow Night", payload: TOMORROW_NIGHT });
    list.push(Theme { key: "14", name: "Ubuntu", payload: UBUNTU });
    list.push(Theme { key: "15", name: "Zenburn", payload: ZENBURN });
    list
}

/// Looks up the colour definitions that `user_input` selects. The input is
/// matched as it stands, character for character, against the keys of the
/// catalog.
pub fn match_user_input(user_input: &str) -> (found: Option<&'static str>)
    ensures
        found.deep_view() == payload_of(user_input@),
{
    let list = catalog();
    let mut i: usize = 0;
    while i < list.len()
        invariant
            list.deep_view() == themes(),
            i <= list.len(),
            forall|j: int| 0 <= j < i ==> (#[trigger] themes()[j]).key != user_input@,
        decreases list.len() - i,
    {
        if same_text(user_input, list[i].key) {
            proof {
                key_selects_its_theme(i as int);
            }
            return Some(list[i].payload);
        }
        i += 1;
    }
    None
}

} // verus!
