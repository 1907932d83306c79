use lapce_core::config::{
    hex_to_color, get_theme, parse_workspace_kind, recent_workspaces_from_entries,
    split_dotted, update_settings, workspace_kind_to_string, workspaces_to_fields, Color,
    Config, EditorConfig, LapceConfig, LapceTheme, LapceWorkspace, LapceWorkspaceType,
    RawWorkspaceEntry, SettingsNode,
};

fn color(r: u8, g: u8, b: u8, a: u8) -> Color {
    Color { r, g, b, a }
}

#[test]
fn hex_color_six_digits() {
    assert_eq!(hex_to_color("#ffffff"), Some(color(255, 255, 255, 255)));
    assert_eq!(hex_to_color("#000000"), Some(color(0, 0, 0, 255)));
    assert_eq!(hex_to_color("#1a2B3c"), Some(color(0x1a, 0x2b, 0x3c, 255)));
    // The leading `#` may be left out.
    assert_eq!(hex_to_color("11AAff"), Some(color(0x11, 0xaa, 0xff, 255)));
}

#[test]
fn hex_color_eight_digits() {
    assert_eq!(hex_to_color("#11223344"), Some(color(0x11, 0x22, 0x33, 0x44)));
}

#[test]
fn hex_color_rejects_bad_strings() {
    assert_eq!(hex_to_color(""), None);
    assert_eq!(hex_to_color("#fff"), None);
    assert_eq!(hex_to_color("#ggijkl"), None);
    assert_eq!(hex_to_color("#1234567"), None);
}

#[test]
fn theme_resolves_references_and_drops_bad_entries() {
    let text = "foreground = \"#112233\"\nbackground = \"$foreground\"\nbad = \"oops\"\nmissing = \"$nowhere\"\n";
    let theme = get_theme(text).unwrap();
    // toml hands the keys out sorted; entries that resolve to no color
    // are dropped.
    assert_eq!(
        theme,
        vec![
            ("background".to_string(), color(0x11, 0x22, 0x33, 255)),
            ("foreground".to_string(), color(0x11, 0x22, 0x33, 255)),
        ]
    );
}

#[test]
fn theme_rejects_non_string_values() {
    assert!(get_theme("a = 3\n").is_none());
    assert!(get_theme("not toml [").is_none());
}

fn sample_config() -> Config {
    Config {
        lapce: LapceConfig {
            modal: false,
            color_theme: "Lapce Dark".to_string(),
            icon_theme: "".to_string(),
        },
        editor: EditorConfig {
            font_family: "monospace".to_string(),
            font_size: 13,
            line_height: 25,
        },
        theme: vec![
            ("editor.background".to_string(), color(1, 2, 3, 255)),
        ],
        themes: vec![
            (
                "Lapce Dark".to_string(),
                vec![("editor.background".to_string(), color(9, 9, 9, 255))],
            ),
        ],
    }
}

#[test]
fn get_color_prefers_the_selected_theme() {
    let config = sample_config();
    assert_eq!(
        config.get_color(LapceTheme::EDITOR_BACKGROUND),
        Some(color(9, 9, 9, 255))
    );
    assert_eq!(config.get_color("editor.foreground"), None);
}

#[test]
fn get_color_falls_back_to_default_theme() {
    let mut config = sample_config();
    config.lapce.color_theme = "Nope".to_string();
    assert_eq!(
        config.get_color(LapceTheme::EDITOR_BACKGROUND),
        Some(color(1, 2, 3, 255))
    );
    assert_eq!(
        config.get_color_unchecked(LapceTheme::EDITOR_BACKGROUND),
        color(1, 2, 3, 255)
    );
}

#[test]
fn set_theme_updates_and_asks_to_persist() {
    let mut config = sample_config();
    assert!(config.set_theme("Lapce Light", false));
    assert_eq!(config.lapce.color_theme, "Lapce Light");
    assert!(!config.set_theme("Lapce Dark", true));
    assert_eq!(config.lapce.color_theme, "Lapce Dark");
}

#[test]
fn font_family_hands_out_the_name() {
    let config = sample_config();
    assert_eq!(config.editor.font_family(), "monospace");
}

#[test]
fn workspace_kind_parses_local_and_ssh() {
    assert!(matches!(
        parse_workspace_kind("local"),
        Some(LapceWorkspaceType::Local)
    ));
    assert!(matches!(
        parse_workspace_kind("anything else"),
        Some(LapceWorkspaceType::Local)
    ));
    match parse_workspace_kind("ssh://alice@example.net") {
        Some(LapceWorkspaceType::RemoteSSH(user, host)) => {
            assert_eq!(user, "alice");
            assert_eq!(host, "example.net");
        }
        other => panic!("unexpected kind: {:?}", other),
    }
    // Everything after a second separator is dropped.
    match parse_workspace_kind("ssh://a@b@c") {
        Some(LapceWorkspaceType::RemoteSSH(user, host)) => {
            assert_eq!(user, "a");
            assert_eq!(host, "b");
        }
        other => panic!("unexpected kind: {:?}", other),
    }
    // An SSH string without a separator names nothing.
    assert!(parse_workspace_kind("ssh://nohost").is_none());
}

#[test]
fn workspace_kind_writes_its_string() {
    assert_eq!(
        workspace_kind_to_string(&LapceWorkspaceType::Local),
        "local"
    );
    assert_eq!(
        workspace_kind_to_string(&LapceWorkspaceType::RemoteSSH(
            "alice".to_string(),
            "example.net".to_string()
        )),
        "ssh://alice@example.net"
    );
}

#[test]
fn workspace_kind_round_trips() {
    let kind = LapceWorkspaceType::RemoteSSH("bob".to_string(), "host".to_string());
    let text = workspace_kind_to_string(&kind);
    match parse_workspace_kind(&text) {
        Some(LapceWorkspaceType::RemoteSSH(user, host)) => {
            assert_eq!(user, "bob");
            assert_eq!(host, "host");
        }
        other => panic!("unexpected kind: {:?}", other),
    }
}

#[test]
fn recent_workspaces_drops_incomplete_entries() {
    let entries = vec![
        RawWorkspaceEntry {
            path: Some("/home/alice/code".to_string()),
            kind: Some("local".to_string()),
            last_open: Some(77),
        },
        RawWorkspaceEntry {
            path: None,
            kind: Some("local".to_string()),
            last_open: Some(1),
        },
        RawWorkspaceEntry {
            path: Some("/srv".to_string()),
            kind: Some("ssh://u@h".to_string()),
            last_open: None,
        },
        RawWorkspaceEntry {
            path: Some("/tmp".to_string()),
            kind: Some("ssh://nobody".to_string()),
            last_open: Some(3),
        },
    ];
    let ws = recent_workspaces_from_entries(&entries);
    assert_eq!(ws.len(), 2);
    assert_eq!(ws[0].path, "/home/alice/code");
    assert_eq!(ws[0].last_open, 77);
    assert!(matches!(ws[0].kind, LapceWorkspaceType::Local));
    assert_eq!(ws[1].path, "/srv");
    assert_eq!(ws[1].last_open, 0);
    assert!(matches!(ws[1].kind, LapceWorkspaceType::RemoteSSH(_, _)));
}

#[test]
fn workspaces_write_their_fields() {
    let ws = vec![
        LapceWorkspace {
            kind: LapceWorkspaceType::RemoteSSH("u".to_string(), "h".to_string()),
            path: "/srv".to_string(),
            last_open: 42,
        },
        LapceWorkspace {
            kind: LapceWorkspaceType::Local,
            path: "/tmp".to_string(),
            last_open: 0,
        },
    ];
    let fields = workspaces_to_fields(&ws);
    assert_eq!(
        fields,
        vec![
            ("ssh://u@h".to_string(), "/srv".to_string(), 42),
            ("local".to_string(), "/tmp".to_string(), 0),
        ]
    );
}

#[test]
fn split_dotted_keys() {
    let parts = split_dotted("lapce.color-theme");
    assert_eq!(parts, vec!["lapce".to_string(), "color-theme".to_string()]);
    assert_eq!(split_dotted("plain"), vec!["plain".to_string()]);
    assert_eq!(
        split_dotted("a..b"),
        vec!["a".to_string(), "".to_string(), "b".to_string()]
    );
}

fn leaf(s: &str) -> SettingsNode<String> {
    SettingsNode::Value(s.to_string())
}

#[test]
fn update_settings_builds_nested_tables() {
    let table: Vec<(String, SettingsNode<String>)> = Vec::new();
    let table = update_settings(table, "lapce.color-theme", leaf("Lapce Dark")).unwrap();
    assert_eq!(table.len(), 1);
    assert_eq!(table[0].0, "lapce");
    match &table[0].1 {
        SettingsNode::Table(sub) => {
            assert_eq!(sub.len(), 1);
            assert_eq!(sub[0].0, "color-theme");
            match &sub[0].1 {
                SettingsNode::Value(v) => assert_eq!(v, "Lapce Dark"),
                _ => panic!("expected a value"),
            }
        }
        _ => panic!("expected a table"),
    }
}

#[test]
fn update_settings_keeps_siblings() {
    let table: Vec<(String, SettingsNode<String>)> = Vec::new();
    let table = update_settings(table, "lapce.modal", leaf("true")).unwrap();
    let table = update_settings(table, "lapce.color-theme", leaf("Lapce Light")).unwrap();
    let table = update_settings(table, "lapce.color-theme", leaf("Lapce Dark")).unwrap();
    assert_eq!(table.len(), 1);
    match &table[0].1 {
        SettingsNode::Table(sub) => {
            assert_eq!(sub.len(), 2);
            assert_eq!(sub[0].0, "modal");
            assert_eq!(sub[1].0, "color-theme");
            match &sub[1].1 {
                SettingsNode::Value(v) => assert_eq!(v, "Lapce Dark"),
                _ => panic!("expected a value"),
            }
        }
        _ => panic!("expected a table"),
    }
}

#[test]
fn update_settings_refuses_a_leaf_on_the_way() {
    let table: Vec<(String, SettingsNode<String>)> = Vec::new();
    let table = update_settings(table, "lapce", leaf("oops")).unwrap();
    assert!(update_settings(table, "lapce.color-theme", leaf("x")).is_none());
}
