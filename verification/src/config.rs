//! Configuration of the editor shell: theme colors, settings values and
//! recent workspaces, as plain data with the parsing and lookup rules
//! verified. Reading and writing the files themselves is the host's job.

use vstd::prelude::*;

verus! {

/// An RGBA color, one byte per channel, standing in for the host
/// toolkit's color type.
#[derive(Debug, Clone, Copy, PartialEq, Eq, Structural)]
pub struct Color {
    /// The red channel.
    pub r: u8,
    /// The green channel.
    pub g: u8,
    /// The blue channel.
    pub b: u8,
    /// The alpha channel; 255 is opaque.
    pub a: u8,
}

/// The value of a hexadecimal digit, or `None` for any other character.
pub open spec fn spec_hex_digit(c: char) -> Option<u8> {
    let v = c as u32;
    if 48 <= v <= 57 {
        Option::Some((v - 48) as u8)
    } else if 97 <= v <= 102 {
        Option::Some((v - 87) as u8)
    } else if 65 <= v <= 70 {
        Option::Some((v - 55) as u8)
    } else {
        Option::None
    }
}

/// The byte written as the two hexadecimal digits `hi` `lo`.
pub open spec fn spec_hex_byte(hi: char, lo: char) -> Option<u8> {
    match (spec_hex_digit(hi), spec_hex_digit(lo)) {
        (Option::Some(h), Option::Some(l)) => Option::Some((h * 16 + l) as u8),
        _ => Option::None,
    }
}

/// The color written as `#rrggbb` or `#rrggbbaa` (the `#` may be left
/// out); `None` for any other string.
pub open spec fn spec_hex_to_color(s: Seq<char>) -> Option<Color> {
    let t = if s.len() > 0 && s[0] == '#' {
        s.skip(1)
    } else {
        s
    };
    if t.len() == 6 {
        match (spec_hex_byte(t[0], t[1]), spec_hex_byte(t[2], t[3]), spec_hex_byte(t[4], t[5])) {
            (Option::Some(r), Option::Some(g), Option::Some(b)) => Option::Some(
                Color { r, g, b, a: 255 },
            ),
            _ => Option::None,
        }
    } else if t.len() == 8 {
        match (spec_hex_byte(t[0], t[1]), spec_hex_byte(t[2], t[3]), spec_hex_byte(t[4], t[5]),
        spec_hex_byte(t[6], t[7])) {
            (Option::Some(r), Option::Some(g), Option::Some(b), Option::Some(a)) => Option::Some(
                Color { r, g, b, a },
            ),
            _ => Option::None,
        }
    } else {
        Option::None
    }
}

/// The value of the hexadecimal digit `c`.
fn hex_digit(c: char) -> (r: Option<u8>)
    ensures
        r == spec_hex_digit(c),
{
    let v = c as u32;
    if 48 <= v && v <= 57 {
        Option::Some((v - 48) as u8)
    } else if 97 <= v && v <= 102 {
        Option::Some((v - 87) as u8)
    } else if 65 <= v && v <= 70 {
        Option::Some((v - 55) as u8)
    } else {
        Option::None
    }
}

/// The byte written as the two hexadecimal digits of `s` at `i` and
/// `i + 1`.
fn hex_byte(s: &str, i: usize) -> (r: Option<u8>)
    requires
        i + 2 <= s@.len(),
        i + 2 <= usize::MAX,
    ensures
        r == spec_hex_byte(s@[i as int], s@[i + 1]),
{
    let hi = s.get_char(i);
    let lo = s.get_char(i + 1);
    match (hex_digit(hi), hex_digit(lo)) {
        (Option::Some(h), Option::Some(l)) => Option::Some(h * 16 + l),
        _ => Option::None,
    }
}

/// Parses a theme color written as `#rrggbb` or `#rrggbbaa` (the `#` may
/// be left out); `None` for any other string.
pub fn hex_to_color(hex: &str) -> (r: Option<Color>)
    ensures
        r == spec_hex_to_color(hex@),
{
    let n = hex.unicode_len();
    let start: usize = if n > 0 && hex.get_char(0) == '#' {
        1
    } else {
        0
    };
    let ghost t = if hex@.len() > 0 && hex@[0] == '#' {
        hex@.skip(1)
    } else {
        hex@
    };
    proof {
        assert(t =~= hex@.skip(start as int));
    }
    if n - start == 6 {
        match (hex_byte(hex, start), hex_byte(hex, start + 2), hex_byte(hex, start + 4)) {
            (Option::Some(r), Option::Some(g), Option::Some(b)) => Option::Some(
                Color { r, g, b, a: 255 },
            ),
            _ => Option::None,
        }
    } else if n - start == 8 {
        match (hex_byte(hex, start), hex_byte(hex, start + 2), hex_byte(hex, start + 4),
        hex_byte(hex, start + 6)) {
            (Option::Some(r), Option::Some(g), Option::Some(b), Option::Some(a)) => Option::Some(
                Color { r, g, b, a },
            ),
            _ => Option::None,
        }
    } else {
        Option::None
    }
}

/// The names of the theme keys the editor shell reads.
pub struct LapceTheme {}

impl LapceTheme {
    pub const LAPCE_WARN: &'static str = "lapce.warn";

    pub const LAPCE_ERROR: &'static str = "lapce.error";

    pub const LAPCE_ACTIVE_TAB: &'static str = "lapce.active_tab";

    pub const LAPCE_INACTIVE_TAB: &'static str = "lapce.inactive_tab";

    pub const LAPCE_DROPDOWN_SHADOW: &'static str = "lapce.dropdown_shadow";

    pub const LAPCE_BORDER: &'static str = "lapce.border";

    pub const EDITOR_BACKGROUND: &'static str = "editor.background";

    pub const EDITOR_FOREGROUND: &'static str = "editor.foreground";

    pub const EDITOR_DIM: &'static str = "editor.dim";

    pub const EDITOR_CARET: &'static str = "editor.caret";

    pub const EDITOR_SELECTION: &'static str = "editor.selection";

    pub const EDITOR_CURRENT_LINE: &'static str = "editor.current_line";

    pub const TERMINAL_CURSOR: &'static str = "terminal.cursor";

    pub const TERMINAL_BACKGROUND: &'static str = "terminal.background";

    pub const TERMINAL_FOREGROUND: &'static str = "terminal.foreground";

    pub const TERMINAL_RED: &'static str = "terminal.red";

    pub const TERMINAL_BLUE: &'static str = "terminal.blue";

    pub const TERMINAL_GREEN: &'static str = "terminal.green";

    pub const TERMINAL_YELLOW: &'static str = "terminal.yellow";

    pub const TERMINAL_BLACK: &'static str = "terminal.black";

    pub const TERMINAL_WHITE: &'static str = "terminal.white";

    pub const TERMINAL_CYAN: &'static str = "terminal.cyan";

    pub const TERMINAL_MAGENTA: &'static str = "terminal.magenta";

    pub const TERMINAL_BRIGHT_RED: &'static str = "terminal.bright_red";

    pub const TERMINAL_BRIGHT_BLUE: &'static str = "terminal.bright_blue";

    pub const TERMINAL_BRIGHT_GREEN: &'static str = "terminal.bright_green";

    pub const TERMINAL_BRIGHT_YELLOW: &'static str = "terminal.bright_yellow";

    pub const TERMINAL_BRIGHT_BLACK: &'static str = "terminal.bright_black";

    pub const TERMINAL_BRIGHT_WHITE: &'static str = "terminal.bright_white";

    pub const TERMINAL_BRIGHT_CYAN: &'static str = "terminal.bright_cyan";

    pub const TERMINAL_BRIGHT_MAGENTA: &'static str = "terminal.bright_magenta";

    pub const PALETTE_BACKGROUND: &'static str = "palette.background";

    pub const PALETTE_CURRENT: &'static str = "palette.current";

    pub const COMPLETION_BACKGROUND: &'static str = "completion.background";

    pub const COMPLETION_CURRENT: &'static str = "completion.current";

    pub const PANEL_BACKGROUND: &'static str = "panel.background";

    pub const PANEL_CURRENT: &'static str = "panel.current";

    pub const STATUS_BACKGROUND: &'static str = "status.background";
}

/// The `lapce` section of the settings: the shell's own options.
#[derive(Debug, Clone)]
pub struct LapceConfig {
    /// Whether editing is modal.
    pub modal: bool,
    /// The name of the color theme in use.
    pub color_theme: String,
    /// The name of the icon theme in use.
    pub icon_theme: String,
}

/// The `editor` section of the settings.
#[derive(Debug, Clone)]
pub struct EditorConfig {
    /// The font family of the editing area.
    pub font_family: String,
    /// The font size of the editing area.
    pub font_size: usize,
    /// The height of a text line, in pixels.
    pub line_height: usize,
}

impl EditorConfig {
    /// The name of the font family, for the host to resolve against its
    /// font system.
    pub fn font_family(&self) -> (r: String)
        ensures
            r@ == self.font_family@,
    {
        self.font_family.clone()
    }
}

/// First-match lookup of `name` among theme entries.
pub open spec fn spec_theme_lookup(entries: Seq<(String, Color)>, name: Seq<char>) -> Option<
    Color,
>
    decreases entries.len(),
{
    if entries.len() == 0 {
        Option::None
    } else if entries[0].0@ == name {
        Option::Some(entries[0].1)
    } else {
        spec_theme_lookup(entries.skip(1), name)
    }
}

/// First-match lookup of `name` among string pairs.
pub open spec fn spec_pairs_lookup(pairs: Seq<(Seq<char>, Seq<char>)>, name: Seq<char>)
    -> Option<Seq<char>>
    decreases pairs.len(),
{
    if pairs.len() == 0 {
        Option::None
    } else if pairs[0].0 == name {
        Option::Some(pairs[0].1)
    } else {
        spec_pairs_lookup(pairs.skip(1), name)
    }
}

/// Looks `name` up among theme entries.
fn theme_get(entries: &Vec<(String, Color)>, name: &String) -> (r: Option<Color>)
    ensures
        r == spec_theme_lookup(entries@, name@),
{
    let n = entries.len();
    let mut i: usize = 0;
    proof {
        assert(entries@.skip(0) =~= entries@);
    }
    while i < n
        invariant
            i <= n,
            n == entries@.len(),
            spec_theme_lookup(entries@.skip(i as int), name@) == spec_theme_lookup(entries@,
                name@),
        decreases n - i,
    {
        if entries[i].0 == *name {
            return Option::Some(entries[i].1);
        }
        proof {
            assert(entries@.skip(i as int).skip(1) =~= entries@.skip(i + 1));
        }
        i = i + 1;
    }
    Option::None
}

/// The contents of a flat TOML document of string values: its key/value
/// pairs sorted by key, or `None` where the text is not such a document.
/// This names what `toml::from_str` returns for a map of strings; it is
/// a function of the text alone.
pub uninterp spec fn toml_string_table(s: Seq<char>) -> Option<Seq<(Seq<char>, Seq<char>)>>;

/// Relies on toml::from_str reading a `BTreeMap<String, String>`: the
/// result is a function of the text, with each key once, and iteration
/// hands the pairs out sorted by key.
#[verifier::external_body]
fn parse_string_table(content: &str) -> (r: Option<Vec<(String, String)>>)
    ensures
        r is Some <==> toml_string_table(content@) is Some,
        r is Some ==> r.unwrap()@.map_values(|p: (String, String)| (p.0@, p.1@))
            == toml_string_table(content@).unwrap(),
        r is Some ==> (forall|i: int, j: int|
            0 <= i < j < r.unwrap()@.len() ==> r.unwrap()@[i].0@ != r.unwrap()@[j].0@),
{
    match toml::from_str::<std::collections::BTreeMap<String, String>>(content) {
        Ok(m) => Option::Some(m.into_iter().collect()),
        Err(_) => Option::None,
    }
}

/// The color a raw theme entry resolves to: a value starting with `$`
/// names another entry, whose value must parse as a color; any other
/// value must itself parse as a color. `None` stands for an entry that
/// the theme leaves out.
pub open spec fn spec_theme_entry_color(
    pairs: Seq<(Seq<char>, Seq<char>)>,
    v: Seq<char>,
) -> Option<Color> {
    if v.len() > 0 && v[0] == '$' {
        match spec_pairs_lookup(pairs, v.skip(1)) {
            Option::Some(hex) => spec_hex_to_color(hex),
            Option::None => Option::None,
        }
    } else {
        spec_hex_to_color(v)
    }
}

/// The theme built from raw entries `rest`, with `$`-references resolved
/// against the whole table `all`: the entries that resolve, in order,
/// with their colors.
pub open spec fn spec_theme_of(
    all: Seq<(Seq<char>, Seq<char>)>,
    rest: Seq<(Seq<char>, Seq<char>)>,
) -> Seq<(Seq<char>, Color)>
    decreases rest.len(),
{
    if rest.len() == 0 {
        Seq::empty()
    } else {
        let tail = spec_theme_of(all, rest.skip(1));
        match spec_theme_entry_color(all, rest[0].1) {
            Option::Some(c) => seq![(rest[0].0, c)] + tail,
            Option::None => tail,
        }
    }
}

/// Looks `name` up among raw string pairs, handing back the index of the
/// first match.
fn pairs_find(pairs: &Vec<(String, String)>, name: &str) -> (r: Option<usize>)
    ensures
        match r {
            Option::Some(j) => 0 <= j < pairs@.len() && spec_pairs_lookup(
                pairs@.map_values(|p: (String, String)| (p.0@, p.1@)),
                name@,
            ) == Option::Some(pairs@[j as int].1@),
            Option::None => spec_pairs_lookup(
                pairs@.map_values(|p: (String, String)| (p.0@, p.1@)),
                name@,
            ) is None,
        },
{
    let ghost view = pairs@.map_values(|p: (String, String)| (p.0@, p.1@));
    let key: String = name.to_owned();
    let n = pairs.len();
    let mut i: usize = 0;
    proof {
        assert(view.skip(0) =~= view);
    }
    while i < n
        invariant
            i <= n,
            n == pairs@.len(),
            view == pairs@.map_values(|p: (String, String)| (p.0@, p.1@)),
            key@ == name@,
            spec_pairs_lookup(view.skip(i as int), name@) == spec_pairs_lookup(view, name@),
        decreases n - i,
    {
        if pairs[i].0 == key {
            proof {
                assert(view.skip(i as int)[0] == view[i as int]);
            }
            return Option::Some(i);
        }
        proof {
            assert(view.skip(i as int)[0] == view[i as int]);
            assert(view.skip(i as int).skip(1) =~= view.skip(i + 1));
        }
        i = i + 1;
    }
    Option::None
}

/// Reads a theme file: its string table parsed, `$`-references resolved
/// against the table itself, and every entry whose value names a color
/// kept with that color. `None` where the text is not a flat table of
/// strings.
pub fn get_theme(content: &str) -> (r: Option<Vec<(String, Color)>>)
    ensures
        r is Some <==> toml_string_table(content@) is Some,
        r is Some ==> {
            let all = toml_string_table(content@).unwrap();
            r.unwrap()@.map_values(|e: (String, Color)| (e.0@, e.1)) == spec_theme_of(all, all)
        },
{
    let pairs = match parse_string_table(content) {
        Option::Some(pairs) => pairs,
        Option::None => {
            return Option::None;
        },
    };
    let ghost all = pairs@.map_values(|p: (String, String)| (p.0@, p.1@));
    let mut theme: Vec<(String, Color)> = Vec::new();
    let n = pairs.len();
    let mut i: usize = 0;
    proof {
        assert(all.skip(0) =~= all);
        assert(theme@.map_values(|e: (String, Color)| (e.0@, e.1)) + spec_theme_of(all, all)
            =~= spec_theme_of(all, all));
    }
    while i < n
        invariant
            i <= n,
            n == pairs@.len(),
            all == pairs@.map_values(|p: (String, String)| (p.0@, p.1@)),
            toml_string_table(content@) == Option::Some(all),
            theme@.map_values(|e: (String, Color)| (e.0@, e.1)) + spec_theme_of(all,
                all.skip(i as int)) == spec_theme_of(all, all),
        decreases n - i,
    {
        let ghost pre = theme@;
        let v: &String = &pairs[i].1;
        let vn = v.as_str().unicode_len();
        let color: Option<Color> = if vn > 0 && v.as_str().get_char(0) == '$' {
            let var = v.as_str().substring_char(1, vn);
            match pairs_find(&pairs, var) {
                Option::Some(j) => hex_to_color(pairs[j].1.as_str()),
                Option::None => Option::None,
            }
        } else {
            hex_to_color(v.as_str())
        };
        proof {
            assert(all.skip(i as int)[0] == all[i as int]);
            assert(color == spec_theme_entry_color(all, all[i as int].1));
        }
        match color {
            Option::Some(c) => {
                let key = pairs[i].0.clone();
                theme.push((key, c));
            },
            Option::None => {},
        }
        proof {
            assert(all.skip(i as int).skip(1) =~= all.skip(i + 1));
            if color is Some {
                assert(theme@.map_values(|e: (String, Color)| (e.0@, e.1)) =~= pre.map_values(
                    |e: (String, Color)| (e.0@, e.1),
                ) + seq![(all[i as int].0, color.unwrap())]);
            }
            assert(theme@.map_values(|e: (String, Color)| (e.0@, e.1)) + spec_theme_of(all,
                all.skip(i + 1)) =~= spec_theme_of(all, all));
        }
        i = i + 1;
    }
    proof {
        assert(all.skip(n as int) =~= Seq::empty());
        assert(theme@.map_values(|e: (String, Color)| (e.0@, e.1)) =~= spec_theme_of(all, all));
    }
    Option::Some(theme)
}

/// First-match lookup of a theme by name among the named themes.
pub open spec fn spec_themes_lookup(
    themes: Seq<(String, Vec<(String, Color)>)>,
    name: Seq<char>,
) -> Option<Seq<(String, Color)>>
    decreases themes.len(),
{
    if themes.len() == 0 {
        Option::None
    } else if themes[0].0@ == name {
        Option::Some(themes[0].1@)
    } else {
        spec_themes_lookup(themes.skip(1), name)
    }
}

/// The editor shell's configuration: the settings sections and the
/// loaded themes, each theme a list of named colors.
#[derive(Debug, Clone)]
pub struct Config {
    /// The shell's own options.
    pub lapce: LapceConfig,
    /// The editing options.
    pub editor: EditorConfig,
    /// The default theme.
    pub theme: Vec<(String, Color)>,
    /// The installed themes, by name.
    pub themes: Vec<(String, Vec<(String, Color)>)>,
}

impl Config {
    /// The entries of the theme in use: the theme named by
    /// `lapce.color_theme` where it is installed, the default theme
    /// otherwise.
    pub open spec fn spec_current_theme(self) -> Seq<(String, Color)> {
        match spec_themes_lookup(self.themes@, self.lapce.color_theme@) {
            Option::Some(t) => t,
            Option::None => self.theme@,
        }
    }

    /// The color the current theme gives `name`.
    pub open spec fn spec_color(self, name: Seq<char>) -> Option<Color> {
        spec_theme_lookup(self.spec_current_theme(), name)
    }

    /// Looks a color up in the theme in use, falling back to the default
    /// theme when the configured theme is not installed.
    pub fn get_color(&self, name: &str) -> (r: Option<Color>)
        ensures
            r == self.spec_color(name@),
    {
        let key: String = name.to_owned();
        let n = self.themes.len();
        let mut i: usize = 0;
        proof {
            assert(self.themes@.skip(0) =~= self.themes@);
        }
        while i < n
            invariant
                i <= n,
                n == self.themes@.len(),
                key@ == name@,
                spec_themes_lookup(self.themes@.skip(i as int), self.lapce.color_theme@)
                    == spec_themes_lookup(self.themes@, self.lapce.color_theme@),
            decreases n - i,
        {
            if self.themes[i].0 == self.lapce.color_theme {
                return theme_get(&self.themes[i].1, &key);
            }
            proof {
                assert(self.themes@.skip(i as int).skip(1) =~= self.themes@.skip(i + 1));
            }
            i = i + 1;
        }
        theme_get(&self.theme, &key)
    }

    /// Looks a color up as [`Config::get_color`] does; the name must be
    /// present in the theme in use.
    pub fn get_color_unchecked(&self, name: &str) -> (r: Color)
        requires
            self.spec_color(name@) is Some,
        ensures
            Option::Some(r) == self.spec_color(name@),
    {
        match self.get_color(name) {
            Option::Some(c) => c,
            Option::None => {
                proof {
                    assert(false);
                }
                Color { r: 0, g: 0, b: 0, a: 0 }
            },
        }
    }

    /// Makes `theme` the color theme in use.
    ///
    /// Returns whether the choice is to be persisted to the settings
    /// file: it is unless this is only a preview. The host writes the
    /// `lapce.color-theme` settings entry when it is.
    pub fn set_theme(&mut self, theme: &str, preview: bool) -> (persist: bool)
        ensures
            final(self).lapce.color_theme@ == theme@,
            final(self).lapce.modal == old(self).lapce.modal,
            final(self).lapce.icon_theme == old(self).lapce.icon_theme,
            final(self).editor == old(self).editor,
            final(self).theme == old(self).theme,
            final(self).themes == old(self).themes,
            persist == !preview,
    {
        self.lapce.color_theme = theme.to_owned();
        !preview
    }
}

/// What kind of workspace a path names: a local directory, or one
/// reached over SSH as `user`, `host`.
#[derive(Debug, Clone)]
pub enum LapceWorkspaceType {
    /// A directory on this machine.
    Local,
    /// A directory reached over SSH: the user and the host.
    RemoteSSH(String, String),
}

/// A workspace the editor had open: its kind, its path and when it was
/// last opened.
#[derive(Debug, Clone)]
pub struct LapceWorkspace {
    /// Where the workspace lives.
    pub kind: LapceWorkspaceType,
    /// The workspace's path.
    pub path: String,
    /// Seconds since the epoch when the workspace was last opened.
    pub last_open: u64,
}

/// A workspace kind as mathematics: the payload strings as character
/// sequences.
pub enum WorkspaceKindView {
    /// A directory on this machine.
    Local,
    /// A directory reached over SSH: the user and the host.
    RemoteSSH(Seq<char>, Seq<char>),
}

/// The mathematical view of a workspace kind.
pub open spec fn spec_kind_view(k: LapceWorkspaceType) -> WorkspaceKindView {
    match k {
        LapceWorkspaceType::Local => WorkspaceKindView::Local,
        LapceWorkspaceType::RemoteSSH(u, h) => WorkspaceKindView::RemoteSSH(u@, h@),
    }
}

/// Whether `s` starts with the SSH scheme `ssh://`.
pub open spec fn spec_is_ssh(s: Seq<char>) -> bool {
    &&& s.len() >= 6
    &&& s[0] == 's'
    &&& s[1] == 's'
    &&& s[2] == 'h'
    &&& s[3] == ':'
    &&& s[4] == '/'
    &&& s[5] == '/'
}

/// The position of the first `c` in `s`.
pub open spec fn spec_find_char(s: Seq<char>, c: char) -> Option<int>
    decreases s.len(),
{
    if s.len() == 0 {
        Option::None
    } else if s[0] == c {
        Option::Some(0)
    } else {
        match spec_find_char(s.skip(1), c) {
            Option::Some(i) => Option::Some(i + 1),
            Option::None => Option::None,
        }
    }
}

/// The workspace kind a settings string names: `ssh://user@host` is an
/// SSH workspace (the user up to the first `@`, the host from there to
/// the next `@` or the end), any other string a local one. An SSH
/// string without `@` names nothing.
pub open spec fn spec_parse_kind(s: Seq<char>) -> Option<WorkspaceKindView> {
    if spec_is_ssh(s) {
        let rest = s.skip(6);
        match spec_find_char(rest, '@') {
            Option::Some(i) => {
                let user = rest.take(i);
                let tail = rest.skip(i + 1);
                let host = match spec_find_char(tail, '@') {
                    Option::Some(j) => tail.take(j),
                    Option::None => tail,
                };
                Option::Some(WorkspaceKindView::RemoteSSH(user, host))
            },
            Option::None => Option::None,
        }
    } else {
        Option::Some(WorkspaceKindView::Local)
    }
}

/// The settings string a workspace kind is written as.
pub open spec fn spec_format_kind(k: WorkspaceKindView) -> Seq<char> {
    match k {
        WorkspaceKindView::Local => "local"@,
        WorkspaceKindView::RemoteSSH(u, h) => "ssh://"@ + u + seq!['@'] + h,
    }
}

/// Where `c` first stands in `s`, found at `i`: before `i` it does not
/// occur, at `i` it does.
proof fn lemma_find_char_at(s: Seq<char>, c: char, i: int)
    requires
        0 <= i < s.len(),
        s[i] == c,
        forall|j: int| 0 <= j < i ==> s[j] != c,
    ensures
        spec_find_char(s, c) == Option::Some(i),
    decreases i,
{
    if i == 0 {
    } else {
        lemma_find_char_at(s.skip(1), c, i - 1);
    }
}

/// A sequence without `c` has no position of `c`.
proof fn lemma_find_char_none(s: Seq<char>, c: char)
    requires
        forall|j: int| 0 <= j < s.len() ==> s[j] != c,
    ensures
        spec_find_char(s, c) is None,
    decreases s.len(),
{
    if s.len() > 0 {
        lemma_find_char_none(s.skip(1), c);
    }
}

/// Writing a workspace kind to its settings string and reading it back
/// gives the kind again, as long as neither the user nor the host of an
/// SSH workspace contains `@`.
pub proof fn lemma_workspace_kind_round_trip(k: WorkspaceKindView)
    requires
        match k {
            WorkspaceKindView::RemoteSSH(u, h) => !u.contains('@') && !h.contains('@'),
            WorkspaceKindView::Local => true,
        },
    ensures
        spec_parse_kind(spec_format_kind(k)) == Option::Some(k),
{
    match k {
        WorkspaceKindView::Local => {
            reveal_strlit("local");
            assert(!spec_is_ssh("local"@));
        },
        WorkspaceKindView::RemoteSSH(u, h) => {
            reveal_strlit("ssh://");
            let s = spec_format_kind(k);
            assert(spec_is_ssh(s));
            let rest = s.skip(6);
            assert(rest =~= u + seq!['@'] + h);
            assert(forall|j: int| 0 <= j < u.len() ==> rest[j] == u[j]);
            assert(forall|j: int| 0 <= j < u.len() ==> u[j] != '@') by {
                assert(forall|j: int| 0 <= j < u.len() ==> u.contains(u[j]) || u[j] != '@');
            }
            lemma_find_char_at(rest, '@', u.len() as int);
            assert(rest.take(u.len() as int) =~= u);
            let tail = rest.skip(u.len() as int + 1);
            assert(tail =~= h);
            assert(forall|j: int| 0 <= j < h.len() ==> h[j] != '@') by {
                assert(forall|j: int| 0 <= j < h.len() ==> h.contains(h[j]) || h[j] != '@');
            }
            lemma_find_char_none(tail, '@');
        },
    }
}

/// Reads the workspace kind a settings string names, as
/// [`spec_parse_kind`] describes; `None` for an SSH string without `@`.
pub fn parse_workspace_kind(s: &str) -> (r: Option<LapceWorkspaceType>)
    ensures
        match r {
            Option::Some(k) => spec_parse_kind(s@) == Option::Some(spec_kind_view(k)),
            Option::None => spec_parse_kind(s@) is None,
        },
{
    let n = s.unicode_len();
    let is_ssh = n >= 6 && s.get_char(0) == 's' && s.get_char(1) == 's' && s.get_char(2) == 'h'
        && s.get_char(3) == ':' && s.get_char(4) == '/' && s.get_char(5) == '/';
    if !is_ssh {
        return Option::Some(LapceWorkspaceType::Local);
    }
    let ghost rest = s@.skip(6);
    let mut i: usize = 6;
    while i < n
        invariant
            6 <= i <= n,
            n == s@.len(),
            rest == s@.skip(6),
            spec_is_ssh(s@),
            forall|j: int| 6 <= j < i ==> s@[j] != '@',
        decreases n - i,
    {
        if s.get_char(i) == '@' {
            proof {
                assert(forall|j: int| 0 <= j < i - 6 ==> rest[j] == s@[j + 6] && rest[j] != '@');
                lemma_find_char_at(rest, '@', i - 6);
            }
            let user = s.substring_char(6, i);
            let ghost tail = rest.skip(i - 6 + 1);
            let mut m: usize = i + 1;
            while m < n
                invariant
                    i + 1 <= m <= n,
                    n == s@.len(),
                    6 <= i < n,
                    rest == s@.skip(6),
                    tail == rest.skip(i - 6 + 1),
                    user@ == s@.subrange(6, i as int),
                    spec_is_ssh(s@),
                    spec_find_char(rest, '@') == Option::Some(i - 6),
                    forall|j: int| i + 1 <= j < m ==> s@[j] != '@',
                decreases n - m,
            {
                if s.get_char(m) == '@' {
                    proof {
                        assert(forall|j: int|
                            0 <= j < m - i - 1 ==> tail[j] == s@[j + i + 1] && tail[j] != '@');
                        lemma_find_char_at(tail, '@', m - (i + 1));
                    }
                    let host = s.substring_char(i + 1, m);
                    proof {
                        assert(user@ =~= rest.take(i - 6));
                        assert(host@ =~= tail.take(m - (i + 1)));
                    }
                    return Option::Some(
                        LapceWorkspaceType::RemoteSSH(user.to_owned(), host.to_owned()),
                    );
                }
                m = m + 1;
            }
            proof {
                assert(forall|j: int| 0 <= j < tail.len() ==> tail[j] == s@[j + i + 1]);
                lemma_find_char_none(tail, '@');
            }
            let host = s.substring_char(i + 1, n);
            proof {
                assert(user@ =~= rest.take(i - 6));
                assert(host@ =~= tail);
            }
            return Option::Some(
                LapceWorkspaceType::RemoteSSH(user.to_owned(), host.to_owned()),
            );
        }
        i = i + 1;
    }
    proof {
        assert(forall|j: int| 0 <= j < rest.len() ==> rest[j] == s@[j + 6]);
        lemma_find_char_none(rest, '@');
    }
    Option::None
}

/// Writes a workspace kind as its settings string, as
/// [`spec_format_kind`] describes.
pub fn workspace_kind_to_string(k: &LapceWorkspaceType) -> (r: String)
    ensures
        r@ == spec_format_kind(spec_kind_view(*k)),
{
    match k {
        LapceWorkspaceType::Local => "local".to_owned(),
        LapceWorkspaceType::RemoteSSH(user, host) => {
            let mut out: String = "ssh://".to_owned();
            out.append(user.as_str());
            out.append("@");
            out.append(host.as_str());
            proof {
                reveal_strlit("@");
                assert("@"@ =~= seq!['@']);
                assert(out@ =~= "ssh://"@ + user@ + seq!['@'] + host@);
            }
            out
        },
    }
}

/// The plain fields of one entry of the recent-workspaces file, as the
/// host reads them out of the file's table: each field where the entry
/// has it with the right type.
#[derive(Debug, Clone)]
pub struct RawWorkspaceEntry {
    /// The `path` field.
    pub path: Option<String>,
    /// The `kind` field.
    pub kind: Option<String>,
    /// The `last_open` field.
    pub last_open: Option<i64>,
}

/// The mathematical view of a workspace: its kind, path and last-open
/// time.
pub open spec fn spec_ws_view(w: LapceWorkspace) -> (WorkspaceKindView, Seq<char>, u64) {
    (spec_kind_view(w.kind), w.path@, w.last_open)
}

/// The workspace a raw entry decodes to: it needs a path and a kind,
/// the kind string must name a kind, and a missing last-open time is
/// zero. `None` stands for an entry that is dropped.
pub open spec fn spec_workspace_of_entry(e: RawWorkspaceEntry) -> Option<
    (WorkspaceKindView, Seq<char>, u64),
> {
    match (e.path, e.kind) {
        (Option::Some(p), Option::Some(k)) => match spec_parse_kind(k@) {
            Option::Some(kv) => Option::Some(
                (
                    kv,
                    p@,
                    (match e.last_open {
                        Option::Some(v) => v,
                        Option::None => 0,
                    }) as u64,
                ),
            ),
            Option::None => Option::None,
        },
        _ => Option::None,
    }
}

/// The workspaces a list of raw entries decodes to, in order, dropping
/// the entries that decode to nothing.
pub open spec fn spec_workspaces_of(entries: Seq<RawWorkspaceEntry>) -> Seq<
    (WorkspaceKindView, Seq<char>, u64),
>
    decreases entries.len(),
{
    if entries.len() == 0 {
        Seq::empty()
    } else {
        let tail = spec_workspaces_of(entries.skip(1));
        match spec_workspace_of_entry(entries[0]) {
            Option::Some(w) => seq![w] + tail,
            Option::None => tail,
        }
    }
}

/// Decodes the entries of the recent-workspaces file: every entry with
/// a path and a well-formed kind becomes a workspace, in order; the
/// rest are dropped. A missing last-open time is zero.
pub fn recent_workspaces_from_entries(entries: &Vec<RawWorkspaceEntry>) -> (r: Vec<
    LapceWorkspace,
>)
    ensures
        r@.map_values(|w: LapceWorkspace| spec_ws_view(w)) == spec_workspaces_of(entries@),
{
    let mut out: Vec<LapceWorkspace> = Vec::new();
    let n = entries.len();
    let mut i: usize = 0;
    proof {
        assert(entries@.skip(0) =~= entries@);
        assert(out@.map_values(|w: LapceWorkspace| spec_ws_view(w)) + spec_workspaces_of(
            entries@) =~= spec_workspaces_of(entries@));
    }
    while i < n
        invariant
            i <= n,
            n == entries@.len(),
            out@.map_values(|w: LapceWorkspace| spec_ws_view(w)) + spec_workspaces_of(
                entries@.skip(i as int)) == spec_workspaces_of(entries@),
        decreases n - i,
    {
        let ghost pre = out@;
        let e = &entries[i];
        proof {
            assert(entries@.skip(i as int)[0] == entries@[i as int]);
        }
        match (&e.path, &e.kind) {
            (Option::Some(p), Option::Some(k)) => {
                match parse_workspace_kind(k.as_str()) {
                    Option::Some(kind) => {
                        let last_open = match e.last_open {
                            Option::Some(v) => #[verifier::truncate] (v as u64),
                            Option::None => 0u64,
                        };
                        let w = LapceWorkspace { kind, path: p.clone(), last_open };
                        proof {
                            assert(spec_workspace_of_entry(entries@[i as int])
                                == Option::Some(spec_ws_view(w)));
                        }
                        out.push(w);
                        proof {
                            assert(out@.map_values(|w: LapceWorkspace| spec_ws_view(w))
                                =~= pre.map_values(|w: LapceWorkspace| spec_ws_view(w))
                                + seq![spec_ws_view(out@[out@.len() - 1])]);
                        }
                    },
                    Option::None => {},
                }
            },
            _ => {},
        }
        proof {
            assert(entries@.skip(i as int).skip(1) =~= entries@.skip(i + 1));
            assert(out@.map_values(|w: LapceWorkspace| spec_ws_view(w)) + spec_workspaces_of(
                entries@.skip(i + 1)) =~= spec_workspaces_of(entries@));
        }
        i = i + 1;
    }
    proof {
        assert(entries@.skip(n as int) =~= Seq::<RawWorkspaceEntry>::empty());
        assert(out@.map_values(|w: LapceWorkspace| spec_ws_view(w)) =~= spec_workspaces_of(
            entries@));
    }
    out
}

/// Writes each workspace as the plain fields of one entry of the
/// recent-workspaces file: its kind as a settings string, its path, and
/// its last-open time as a signed integer.
pub fn workspaces_to_fields(workspaces: &Vec<LapceWorkspace>) -> (r: Vec<(String, String, i64)>)
    ensures
        r@.len() == workspaces@.len(),
        forall|i: int|
            0 <= i < r@.len() ==> {
                &&& (#[trigger] r@[i]).0@ == spec_format_kind(spec_kind_view(
                    workspaces@[i].kind))
                &&& r@[i].1@ == workspaces@[i].path@
                &&& r@[i].2 == workspaces@[i].last_open as i64
            },
{
    let mut out: Vec<(String, String, i64)> = Vec::new();
    let n = workspaces.len();
    let mut i: usize = 0;
    while i < n
        invariant
            i <= n,
            n == workspaces@.len(),
            out@.len() == i,
            forall|j: int|
                0 <= j < i ==> {
                    &&& (#[trigger] out@[j]).0@ == spec_format_kind(spec_kind_view(
                        workspaces@[j].kind))
                    &&& out@[j].1@ == workspaces@[j].path@
                    &&& out@[j].2 == workspaces@[j].last_open as i64
                },
        decreases n - i,
    {
        let w = &workspaces[i];
        let kind = workspace_kind_to_string(&w.kind);
        let last_open = #[verifier::truncate] (w.last_open as i64);
        out.push((kind, w.path.clone(), last_open));
        i = i + 1;
    }
    out
}

/// One node of a settings document: a leaf value, or a table of named
/// nodes. The leaf type is the host's; the update logic never looks
/// inside a leaf.
#[derive(Debug)]
pub enum SettingsNode<L> {
    /// A leaf value.
    Value(L),
    /// A table of named nodes.
    Table(Vec<(String, SettingsNode<L>)>),
}

/// First-match lookup of `k` in a settings table.
pub open spec fn spec_table_get<L>(t: Seq<(String, SettingsNode<L>)>, k: Seq<char>) -> Option<
    SettingsNode<L>,
>
    decreases t.len(),
{
    if t.len() == 0 {
        Option::None
    } else if t[0].0@ == k {
        Option::Some(t[0].1)
    } else {
        spec_table_get(t.skip(1), k)
    }
}

/// Whether inserting at `path` can succeed: every existing node along
/// the way must be a table. The last component always can (it is
/// replaced or appended); a missing intermediate table is created.
pub open spec fn spec_updatable<L>(t: Seq<(String, SettingsNode<L>)>, path: Seq<Seq<char>>)
    -> bool
    decreases path.len(),
{
    if path.len() <= 1 {
        true
    } else {
        match spec_table_get(t, path[0]) {
            Option::None => true,
            Option::Some(SettingsNode::Table(sub)) => spec_updatable(sub@, path.skip(1)),
            Option::Some(SettingsNode::Value(_)) => false,
        }
    }
}

/// The node at `path`, descending through tables.
pub open spec fn spec_get_path<L>(t: Seq<(String, SettingsNode<L>)>, path: Seq<Seq<char>>)
    -> Option<SettingsNode<L>>
    decreases path.len(),
{
    if path.len() == 0 {
        Option::None
    } else if path.len() == 1 {
        spec_table_get(t, path[0])
    } else {
        match spec_table_get(t, path[0]) {
            Option::Some(SettingsNode::Table(sub)) => spec_get_path(sub@, path.skip(1)),
            _ => Option::None,
        }
    }
}

/// Away from `path` nothing moved: at every level along the path, every
/// key but the path's own answers as before.
pub open spec fn spec_update_frame<L>(
    told: Seq<(String, SettingsNode<L>)>,
    tnew: Seq<(String, SettingsNode<L>)>,
    path: Seq<Seq<char>>,
) -> bool
    decreases path.len(),
{
    if path.len() == 0 {
        true
    } else {
        &&& (forall|k: Seq<char>|
            k != path[0] ==> #[trigger] spec_table_get(tnew, k) == spec_table_get(told, k))
        &&& (path.len() > 1 ==> match spec_table_get(tnew, path[0]) {
            Option::Some(SettingsNode::Table(sn)) => match spec_table_get(told, path[0]) {
                Option::Some(SettingsNode::Table(so)) => spec_update_frame(so@, sn@,
                    path.skip(1)),
                _ => spec_update_frame(Seq::empty(), sn@, path.skip(1)),
            },
            _ => false,
        })
    }
}

/// The table payload of the first node of `t`, where it is a table.
spec fn table0_head_table<L>(t: Seq<(String, SettingsNode<L>)>) -> Vec<
    (String, SettingsNode<L>),
>
    recommends
        t.len() > 0,
        t[0].1 is Table,
{
    t[0].1->Table_0
}

/// Inserts `value` at the path `parts[i..]` in `table`: descends
/// through existing tables, creates missing ones, and replaces or
/// appends at the last component. `None`, and nothing kept, where an
/// existing node along the way is a leaf.
fn update_at<L>(
    table: Vec<(String, SettingsNode<L>)>,
    parts: &Vec<String>,
    i: usize,
    value: SettingsNode<L>,
) -> (r: Option<Vec<(String, SettingsNode<L>)>>)
    requires
        i < parts@.len(),
    ensures
        ({
            let pv = parts@.skip(i as int).map_values(|p: String| p@);
            &&& (r is Some <==> spec_updatable(table@, pv))
            &&& (r is Some ==> spec_get_path(r.unwrap()@, pv) == Option::Some(value))
            &&& (r is Some ==> spec_update_frame(table@, r.unwrap()@, pv))
        }),
    decreases parts@.len() - i, table@.len(),
{
    let ghost pv = parts@.skip(i as int).map_values(|p: String| p@);
    proof {
        assert(pv[0] == parts@[i as int]@);
    }
    let n = parts.len();
    let mut table = table;
    if table.len() == 0 {
        let mut out: Vec<(String, SettingsNode<L>)> = Vec::new();
        if i + 1 == n {
            out.push((parts[i].clone(), value));
            proof {
                assert(pv.len() == 1);
                assert(spec_table_get(out@, pv[0]) == Option::Some(value));
                assert forall|k: Seq<char>| k != pv[0] implies #[trigger] spec_table_get(out@,
                    k) == spec_table_get(table@, k) by {
                    assert(out@.skip(1) =~= table@);
                }
                assert(spec_update_frame(table@, out@, pv));
            }
            Option::Some(out)
        } else {
            proof {
                assert(pv.skip(1) =~= parts@.skip(i + 1).map_values(|p: String| p@));
            }
            match update_at(Vec::new(), parts, i + 1, value) {
                Option::Some(sub) => {
                    out.push((parts[i].clone(), SettingsNode::Table(sub)));
                    proof {
                        assert(spec_table_get(out@, pv[0]) is Some);
                        assert(spec_get_path(out@, pv) == Option::Some(value));
                        assert forall|k: Seq<char>| k != pv[0] implies #[trigger]
                        spec_table_get(out@, k) == spec_table_get(table@, k) by {
                            assert(out@.skip(1) =~= table@);
                        }
                        assert(spec_update_frame(table@, out@, pv));
                    }
                    Option::Some(out)
                },
                Option::None => {
                    proof {
                        assert(false);
                    }
                    Option::None
                },
            }
        }
    } else if table[0].0 == parts[i] {
        let ghost t0 = table@;
        let (head_key, head_node) = table.remove(0);
        proof {
            assert(table@ =~= t0.skip(1))
        }
        if i + 1 == n {
            table.insert(0, (head_key, value));
            proof {
                assert(pv.len() == 1);
                assert(table@[0].1 == value);
                assert forall|k: Seq<char>| k != pv[0] implies #[trigger] spec_table_get(
                    table@, k) == spec_table_get(t0, k) by {
                    assert(table@.skip(1) =~= t0.skip(1));
                    assert(table@[0].0@ == pv[0]);
                    assert(t0[0].0@ == pv[0]);
                }
                assert(spec_update_frame(t0, table@, pv));
            }
            Option::Some(table)
        } else {
            proof {
                assert(pv.skip(1) =~= parts@.skip(i + 1).map_values(|p: String| p@));
            }
            match head_node {
                SettingsNode::Table(sub) => {
                    let ghost sub0 = sub@;
                    match update_at(sub, parts, i + 1, value) {
                        Option::Some(ns) => {
                            table.insert(0, (head_key, SettingsNode::Table(ns)));
                            proof {
                                assert(table@ =~= seq![
                                    (head_key, SettingsNode::Table(ns)),
                                ] + t0.skip(1));
                                assert(spec_table_get(table@, pv[0]) == Option::Some(
                                    SettingsNode::Table(ns)));
                                assert(spec_table_get(t0, pv[0]) == Option::Some(
                                    SettingsNode::<L>::Table(
                                    table0_head_table(t0)))) by {
                                    assert(t0[0].1 == SettingsNode::<L>::Table(
                                        table0_head_table(t0)));
                                }
                                assert(spec_get_path(table@, pv) == Option::Some(value));
                                assert forall|k: Seq<char>| k != pv[0] implies #[trigger]
                                spec_table_get(table@, k) == spec_table_get(t0, k) by {
                                    assert(table@.skip(1) =~= t0.skip(1));
                                    assert(table@[0].0@ == pv[0]);
                                    assert(t0[0].0@ == pv[0]);
                                }
                                assert(spec_update_frame(t0, table@, pv));
                            }
                            Option::Some(table)
                        },
                        Option::None => Option::None,
                    }
                },
                SettingsNode::Value(_) => Option::None,
            }
        }
    } else {
        let ghost t0 = table@;
        let head = table.remove(0);
        proof {
            assert(table@ =~= t0.skip(1))
        }
        match update_at(table, parts, i, value) {
            Option::Some(rest) => {
                let mut rest = rest;
                let ghost r0 = rest@;
                rest.insert(0, head);
                proof {
                    assert(rest@ =~= seq![head] + r0);
                    assert(rest@.skip(1) =~= r0);
                    assert(head == t0[0]);
                    assert(head.0@ != pv[0]);
                    assert(spec_table_get(rest@, pv[0]) == spec_table_get(r0, pv[0]));
                    assert(spec_get_path(rest@, pv) == Option::Some(value));
                    assert forall|k: Seq<char>| k != pv[0] implies #[trigger] spec_table_get(
                        rest@, k) == spec_table_get(t0, k) by {
                        assert(rest@.skip(1) =~= r0);
                        assert(rest@[0] == t0[0]);
                        assert(spec_update_frame(t0.skip(1), r0, pv));
                        assert(spec_table_get(r0, k) == spec_table_get(t0.skip(1), k));
                        assert(spec_table_get(rest@, k) == if t0[0].0@ == k {
                            Option::Some(t0[0].1)
                        } else {
                            spec_table_get(r0, k)
                        });
                        assert(spec_table_get(t0, k) == if t0[0].0@ == k {
                            Option::Some(t0[0].1)
                        } else {
                            spec_table_get(t0.skip(1), k)
                        });
                    }
                    assert(spec_update_frame(t0, rest@, pv));
                }
                Option::Some(rest)
            },
            Option::None => Option::None,
        }
    }
}

/// The components of a dotted settings key: the text split at every
/// `.`.
pub open spec fn spec_split_dotted(s: Seq<char>) -> Seq<Seq<char>>
    decreases s.len(),
    via spec_split_dotted_decreases
{
    match spec_find_char(s, '.') {
        Option::None => seq![s],
        Option::Some(i) => seq![s.take(i)] + spec_split_dotted(s.skip(i + 1)),
    }
}

#[via_fn]
proof fn spec_split_dotted_decreases(s: Seq<char>) {
    lemma_find_char_first(s, '.');
}

/// `c` does not occur before the position [`spec_find_char`] gives it.
proof fn lemma_find_char_first(s: Seq<char>, c: char)
    ensures
        match spec_find_char(s, c) {
            Option::Some(i) => 0 <= i < s.len() && s[i] == c && (forall|j: int|
                0 <= j < i ==> s[j] != c),
            Option::None => forall|j: int| 0 <= j < s.len() ==> s[j] != c,
        },
    decreases s.len(),
{
    if s.len() > 0 && s[0] != c {
        lemma_find_char_first(s.skip(1), c);
        match spec_find_char(s.skip(1), c) {
            Option::Some(i) => {
                assert(forall|j: int| 1 <= j < i + 1 ==> s[j] == s.skip(1)[j - 1]);
            },
            Option::None => {
                assert(forall|j: int| 1 <= j < s.len() ==> s[j] == s.skip(1)[j - 1]);
            },
        }
    }
}

/// Splits a dotted settings key at every `.`.
pub fn split_dotted(key: &str) -> (r: Vec<String>)
    ensures
        r@.map_values(|p: String| p@) == spec_split_dotted(key@),
        r@.len() >= 1,
    decreases key@.len(),
{
    let n = key.unicode_len();
    let mut i: usize = 0;
    while i < n
        invariant
            i <= n,
            n == key@.len(),
            forall|j: int| 0 <= j < i ==> key@[j] != '.',
        decreases n - i,
    {
        if key.get_char(i) == '.' {
            proof {
                lemma_find_char_at(key@, '.', i as int);
            }
            let head = key.substring_char(0, i);
            let rest = split_dotted(key.substring_char(i + 1, n));
            let mut out: Vec<String> = Vec::new();
            out.push(head.to_owned());
            let mut rest = rest;
            out.append(&mut rest);
            proof {
                assert(head@ =~= key@.take(i as int));
                assert(out@.map_values(|p: String| p@) =~= spec_split_dotted(key@));
            }
            return out;
        }
        i = i + 1;
    }
    proof {
        lemma_find_char_none(key@, '.');
    }
    let mut out: Vec<String> = Vec::new();
    out.push(key.to_owned());
    proof {
        assert(out@.map_values(|p: String| p@) =~= spec_split_dotted(key@));
    }
    out
}

/// Inserts `value` at the dotted `key` in a settings document, creating
/// intermediate tables as needed: afterwards the key's path holds the
/// value and every other key holds what it held. `None` where an
/// existing node along the path is a leaf, as when a table is asked of
/// a plain value.
pub fn update_settings<L>(
    table: Vec<(String, SettingsNode<L>)>,
    key: &str,
    value: SettingsNode<L>,
) -> (r: Option<Vec<(String, SettingsNode<L>)>>)
    ensures
        ({
            let pv = spec_split_dotted(key@);
            &&& (r is Some <==> spec_updatable(table@, pv))
            &&& (r is Some ==> spec_get_path(r.unwrap()@, pv) == Option::Some(value))
            &&& (r is Some ==> spec_update_frame(table@, r.unwrap()@, pv))
        }),
{
    let parts = split_dotted(key);
    proof {
        assert(parts@.skip(0) =~= parts@);
    }
    update_at(table, &parts, 0, value)
}

} // verus!
