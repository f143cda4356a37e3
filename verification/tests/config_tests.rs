use piri::config::{
    default_margin, default_size, ConfigError, Config, Direction, PluginsConfig, ScratchpadConfig,
    ScratchpadDefaults, StringOrVec, WidthValue, WindowOrderSection, SwallowSection,
};

#[test]
fn direction_names_round_trip() {
    for d in [Direction::FromTop, Direction::FromBottom, Direction::FromLeft, Direction::FromRight] {
        assert_eq!(Direction::from_str(d.as_str()).unwrap(), d);
    }
    assert_eq!(Direction::FromTop.as_str(), "fromTop");
    assert_eq!(Direction::FromRight.as_str(), "fromRight");
}

#[test]
fn direction_from_str_rejects_unknown_names() {
    match Direction::from_str("fromtop") {
        Err(ConfigError::InvalidDirection(s)) => assert_eq!(s, "fromtop"),
        other => panic!("unexpected {:?}", other),
    }
    assert!(Direction::from_str("").is_err());
    assert!(Direction::from_str("FromLeft").is_err());
}

#[test]
fn plugins_are_enabled_only_when_switched_on() {
    let mut p = PluginsConfig::default();
    assert!(!p.is_enabled("swallow"));
    p.swallow = Some(true);
    p.window_rule = Some(false);
    p.autofill = Some(true);
    assert!(p.is_enabled("swallow"));
    assert!(!p.is_enabled("window_rule"));
    assert!(!p.is_enabled("autofill"));
    assert!(!p.is_enabled("unknown"));
    p.workspace_rule = Some(true);
    assert!(p.is_enabled("workspace_rule"));
}

#[test]
fn defaults_match_documentation() {
    let d = ScratchpadDefaults::default();
    assert_eq!(d.default_size, "75% 60%");
    assert_eq!(d.default_margin, 50);
    assert_eq!(default_size(), "75% 60%");
    assert_eq!(default_margin(), 50);
    let w = WindowOrderSection::default();
    assert!(!w.enable_event_listener);
    assert_eq!(w.default_weight, 0);
    let s = SwallowSection::default();
    assert!(s.use_pid_matching);
    assert!(s.exclude.is_none());
    let c = Config::default();
    assert!(c.scratchpads.is_empty());
    assert!(c.window_rule.is_empty());
    assert!(c.piri.swallow.use_pid_matching);
    assert!(c.niri.socket_path.is_none());
    assert_eq!(c.piri.scratchpad.default_size, "75% 60%");
    assert_eq!(c.piri.scratchpad.default_margin, 50);
    assert!(c.piri.scratchpad.move_to_workspace.is_none());
    assert!(!c.piri.window_order.enable_event_listener);
    assert_eq!(c.piri.window_order.default_weight, 0);
    assert!(c.piri.window_order.workspaces.is_empty());
    assert!(c.piri.swallow.rules.is_empty() && c.piri.swallow.exclude.is_none());
    assert!(c.piri.workspace_rule.auto_width.is_empty());
    assert!(!c.piri.workspace_rule.auto_tile && !c.piri.workspace_rule.auto_fill);
    assert!(!c.piri.workspace_rule.auto_maximize);
    assert!(c.swallow.is_empty() && c.window_order.is_empty() && c.workspace_rule.is_empty());
    assert!(c.empty.is_empty() && c.singleton.is_empty());
}

fn pad(size: &str) -> ScratchpadConfig {
    ScratchpadConfig {
        direction: Direction::FromRight,
        command: "foot".to_string(),
        app_id: "foot".to_string(),
        size: size.to_string(),
        margin: 50,
        swallow_to_focus: false,
    }
}

#[test]
fn size_percentages_of_a_valid_size() {
    let (w, h) = pad("40% 60%").size_percentages().unwrap();
    assert_eq!(w, "40");
    assert_eq!(h, "60");
    let (w, h) = pad("  33.3%\t 50%  ").size_percentages().unwrap();
    assert_eq!(w, "33.3");
    assert_eq!(h, "50");
}

#[test]
fn size_percentages_errors() {
    match pad("40%").size_percentages() {
        Err(ConfigError::InvalidSize(s)) => assert_eq!(s, "40%"),
        other => panic!("unexpected {:?}", other),
    }
    match pad("40% 60% 10%").size_percentages() {
        Err(ConfigError::InvalidSize(_)) => {}
        other => panic!("unexpected {:?}", other),
    }
    match pad("40 60%").size_percentages() {
        Err(ConfigError::WidthWithoutPercent(s)) => assert_eq!(s, "40"),
        other => panic!("unexpected {:?}", other),
    }
    match pad("40% 60").size_percentages() {
        Err(ConfigError::HeightWithoutPercent(s)) => assert_eq!(s, "60"),
        other => panic!("unexpected {:?}", other),
    }
}

#[test]
fn scratchpad_from_table() {
    let table: toml::Table = "direction = 'fromTop'\ncommand = 'foot'\nsize = '40% 60%'\nmargin = 20\napp_id = 'foot'\nswallow_to_focus = true\n"
        .parse()
        .unwrap();
    let c = ScratchpadConfig::try_from_table(table).unwrap();
    assert_eq!(c.direction, Direction::FromTop);
    assert_eq!(c.command, "foot");
    assert_eq!(c.size, "40% 60%");
    assert_eq!(c.margin, 20);
    assert_eq!(c.app_id, "foot");
    assert!(c.swallow_to_focus);
}

#[test]
fn scratchpad_from_table_defaults_and_errors() {
    let table: toml::Table =
        "direction = 'fromLeft'\ncommand = 'a'\nsize = '1% 1%'\nmargin = 4294967297\napp_id = 'x'\nswallow_to_focus = 'yes'\n"
            .parse()
            .unwrap();
    let c = ScratchpadConfig::try_from_table(table).unwrap();
    assert_eq!(c.margin, 1);
    assert!(!c.swallow_to_focus);

    let missing: toml::Table = "direction = 'fromLeft'\nsize = '1% 1%'\nmargin = 4\napp_id = 'x'\n".parse().unwrap();
    match ScratchpadConfig::try_from_table(missing) {
        Err(ConfigError::MissingField(f)) => assert_eq!(f, "command"),
        other => panic!("unexpected {:?}", other),
    }
    let bad_dir: toml::Table = "direction = 'up'\n".parse().unwrap();
    match ScratchpadConfig::try_from_table(bad_dir) {
        Err(ConfigError::InvalidDirection(d)) => assert_eq!(d, "up"),
        other => panic!("unexpected {:?}", other),
    }
    let margin_text: toml::Table =
        "direction = 'fromLeft'\ncommand = 'a'\nsize = '1% 1%'\nmargin = '4'\napp_id = 'x'\n".parse().unwrap();
    match ScratchpadConfig::try_from_table(margin_text) {
        Err(ConfigError::MissingField(f)) => assert_eq!(f, "margin"),
        other => panic!("unexpected {:?}", other),
    }
    let empty = toml::Table::new();
    match ScratchpadConfig::try_from_table(empty) {
        Err(ConfigError::MissingField(f)) => assert_eq!(f, "direction"),
        other => panic!("unexpected {:?}", other),
    }
}

#[test]
fn string_or_vec_expands() {
    assert_eq!(StringOrVec::String("a".to_string()).into_vec(), vec!["a".to_string()]);
    assert_eq!(
        StringOrVec::Vec(vec!["a".to_string(), "b".to_string()]).into_vec(),
        vec!["a".to_string(), "b".to_string()]
    );
    assert_eq!(WidthValue::String("50%".to_string()).into_vec(), vec!["50%".to_string()]);
    assert_eq!(
        WidthValue::Vec(vec!["45%".to_string(), "55%".to_string()]).into_vec(),
        vec!["45%".to_string(), "55%".to_string()]
    );
}
