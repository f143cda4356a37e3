use piri::config::{Config, WindowRuleConfig};
use piri::plugins::swallow::{
    ParentSearch, SwallowExclude, SwallowPlugin, SwallowPluginConfig, SwallowRule,
};
use piri::plugins::window_rule::{is_already_on_workspace, WindowRulePlugin, WindowRulePluginConfig};
use piri::plugins::window_utils::{Window, WorkspaceInfo};
use piri::plugins::{
    plugin_action, plugin_enabled_with, plugin_kinds, plugin_list_action, EventWindow, FromConfig, PluginAction,
    PluginEvent, PluginKind,
};
use piri::utils::Throttle;

fn s(x: &str) -> String {
    x.to_string()
}

fn win(id: u64, app_id: &str, title: &str, pid: Option<u32>) -> Window {
    Window {
        id,
        app_id: Some(s(app_id)),
        title: s(title),
        workspace_id: None,
        workspace: None,
        pid,
        floating: false,
    }
}

fn rule(app_id: Option<Vec<&str>>, title: Option<Vec<&str>>, ws: Option<&str>, cmd: Option<&str>, once: bool) -> WindowRuleConfig {
    WindowRuleConfig {
        app_id: app_id.map(|v| v.into_iter().map(s).collect()),
        title: title.map(|v| v.into_iter().map(s).collect()),
        open_on_workspace: ws.map(s),
        focus_command: cmd.map(s),
        focus_command_once: once,
    }
}

#[test]
fn throttle_lets_the_first_call_through() {
    let mut t = Throttle::new();
    assert!(t.check_and_update(3_600_000));
    assert!(!t.check_and_update(3_600_000));
    assert!(t.check_and_update(0));
    t.reset();
    assert!(t.check_and_update_no_reset(3_600_000));
    assert!(!t.check_and_update_no_reset(3_600_000));
    assert_eq!(t.run(3_600_000, || 5), None);
    t.reset();
    assert_eq!(t.run(3_600_000, || 5), Some(5));
    let mut u = Throttle::default();
    assert_eq!(u.run_no_reset(3_600_000, || 1), Some(1));
    assert_eq!(u.run_no_reset(3_600_000, || 1), None);
}

#[test]
fn window_rule_config_from_config() {
    let mut c = Config::default();
    assert!(WindowRulePluginConfig::from_config(&c).is_none());
    c.window_rule.push(rule(Some(vec!["firefox"]), None, Some("2"), None, false));
    let p = WindowRulePluginConfig::from_config(&c).unwrap();
    assert_eq!(p.rules.len(), 1);
    assert_eq!(p.rules[0].open_on_workspace, Some(s("2")));
    assert!(WindowRulePluginConfig::default().rules.is_empty());
    assert_eq!(<() as FromConfig>::from_config(&c), Some(()));
}

#[test]
fn only_the_first_matching_rule_applies() {
    let cfg = WindowRulePluginConfig {
        rules: vec![
            rule(Some(vec!["^kitty$"]), None, Some("1"), None, false),
            rule(Some(vec![".*fire.*"]), None, Some("2"), None, false),
            rule(None, Some(vec![".*Mozilla.*"]), Some("3"), Some("notify-send hi"), false),
        ],
    };
    let mut p = WindowRulePlugin::new(cfg);
    let app = s("firefox");
    let title = s("Mozilla Firefox");
    assert_eq!(p.rule_for_opened_window(Some(&app), Some(&title)).unwrap(), Some(1));
    let w = win(1, "firefox", "Mozilla Firefox", None);
    // only rules with a focus command are considered on focus
    assert_eq!(p.focus_rule_for(&w).unwrap(), Some(2));
    let other = s("foot");
    assert_eq!(p.rule_for_opened_window(Some(&other), None).unwrap(), None);
}

#[test]
fn focus_command_once_runs_once() {
    let cfg = WindowRulePluginConfig { rules: vec![rule(None, Some(vec!["x"]), None, Some("true"), true)] };
    let mut p = WindowRulePlugin::new(cfg);
    assert!(p.focus_rule_should_run(0, true));
    p.record_focus_execution(7, 0, true);
    assert!(!p.focus_rule_should_run(0, true));
    p.update_config(WindowRulePluginConfig { rules: vec![rule(None, Some(vec!["x"]), None, Some("true"), true)] });
    // the execution throttle (200 ms) still holds right after a run
    assert!(!p.focus_rule_should_run(0, true));
}

#[test]
fn focus_handling_is_throttled() {
    let mut p = WindowRulePlugin::new(WindowRulePluginConfig::default());
    assert!(p.begin_focus_handling(1));
    assert!(!p.begin_focus_handling(2));
}

#[test]
fn window_rule_events() {
    let p = WindowRulePlugin::new(WindowRulePluginConfig::default());
    assert!(p.is_interested_in_event(&PluginEvent::WindowFocusChanged(Some(1))));
    assert!(!p.is_interested_in_event(&PluginEvent::WindowFocusChanged(None)));
    assert!(!p.is_interested_in_event(&PluginEvent::WindowClosed(1)));
    let ev = PluginEvent::WindowOpenedOrChanged(EventWindow {
        id: 1,
        title: None,
        app_id: None,
        pid: None,
        workspace_id: None,
        is_floating: false,
    });
    assert!(p.is_interested_in_event(&ev));
}

#[test]
fn already_on_workspace() {
    let list = vec![
        WorkspaceInfo { id: 1, idx: 1, name: Some(s("main")), is_focused: true },
        WorkspaceInfo { id: 2, idx: 2, name: None, is_focused: false },
    ];
    assert!(is_already_on_workspace(&list, Some(1), "main"));
    assert!(is_already_on_workspace(&list, Some(1), "1"));
    assert!(is_already_on_workspace(&list, Some(2), "2"));
    assert!(!is_already_on_workspace(&list, Some(2), "main"));
    assert!(!is_already_on_workspace(&list, None, "main"));
}

fn swallow_rule(parent: Option<&str>, child: Option<&str>) -> SwallowRule {
    SwallowRule {
        parent_app_id: parent.map(|p| vec![s(p)]),
        parent_title: None,
        child_app_id: child.map(|c| vec![s(c)]),
        child_title: None,
    }
}

#[test]
fn swallow_config_defaults() {
    let d = SwallowPluginConfig::default();
    assert!(d.use_pid_matching && d.rules.is_empty() && d.exclude.is_none());
    let mut c = Config::default();
    c.swallow.push(swallow_rule(Some("foot"), Some("mpv")));
    c.piri.swallow.use_pid_matching = false;
    let p = SwallowPluginConfig::from_config(&c).unwrap();
    assert_eq!(p.rules.len(), 1);
    assert!(!p.use_pid_matching);
}

#[test]
fn focus_queue_keeps_five_distinct_windows() {
    let mut p = SwallowPlugin::new(SwallowPluginConfig::default());
    for id in [1, 2, 3, 2, 4, 5, 6, 7] {
        p.push_focus(id);
    }
    // queue is now [3, 2, 5, 6, 7]? check through parent search order instead
    let rule = swallow_rule(None, None);
    let windows: Vec<Window> = (1..=7).map(|i| win(i, "app", "t", None)).collect();
    let child = win(7, "app", "t", None);
    let parent = p.check_focused_window_matches_parent_rule(&rule, 7, &child, &windows).unwrap().unwrap();
    assert_eq!(parent.id, 6);
    p.handle_window_closed(6);
    let parent = p.check_focused_window_matches_parent_rule(&rule, 7, &child, &windows).unwrap().unwrap();
    assert_eq!(parent.id, 5);
}

#[test]
fn parent_from_focused_window() {
    let mut p = SwallowPlugin::new(SwallowPluginConfig::default());
    let rule = swallow_rule(Some(".*foot.*"), Some("mpv"));
    let focused = win(1, "foot", "zsh", None);
    let found = p.check_focused_window_matches_parent_rule(&rule, 2, &focused, &Vec::new()).unwrap();
    assert_eq!(found.unwrap().id, 1);
    let focused = win(3, "kitty", "zsh", None);
    assert!(p.check_focused_window_matches_parent_rule(&rule, 2, &focused, &Vec::new()).unwrap().is_none());
    let child = win(2, "mpv", "video", None);
    assert!(p.check_child_window_matches_rule(&child, 2, &rule).unwrap());
    let other_child = win(4, "imv", "pic", None);
    assert!(!p.check_child_window_matches_rule(&other_child, 4, &rule).unwrap());
    assert!(p.check_child_window_matches_rule(&other_child, 4, &swallow_rule(None, None)).unwrap());
}

#[test]
fn opened_windows_are_admitted_in_order() {
    let cfg = SwallowPluginConfig {
        rules: vec![swallow_rule(None, Some("imv")), swallow_rule(Some("foot"), Some("mpv"))],
        use_pid_matching: true,
        exclude: Some(SwallowExclude { app_id: Some(vec![s(".*dialog.*")]), title: None }),
    };
    let mut p = SwallowPlugin::new(cfg);
    let child = win(10, "mpv", "video", Some(77));
    assert!(!p.is_known_window(10));
    let (missing, search) = p.admit_opened_window(&child).unwrap();
    assert!(!missing);
    assert_eq!(search, ParentSearch::ProcessTreeFirst);
    assert!(p.is_known_window(10));
    // the first rule's child conditions do not fit; the second's do, and its
    // parent conditions are met by the focused window
    let foot = win(3, "foot", "zsh", Some(60));
    let kitty = win(4, "kitty", "zsh", Some(61));
    let (idx, parent) = p.find_rule_parent(&child, Some(&foot), &Vec::new()).unwrap().unwrap();
    assert_eq!((idx, parent.id), (1, 3));
    assert!(p.find_rule_parent(&child, Some(&kitty), &Vec::new()).unwrap().is_none());
    assert!(p.find_rule_parent(&child, None, &Vec::new()).unwrap().is_none());
    let dialog = win(11, "gtk.dialog", "Open", None);
    let (missing, search) = p.admit_opened_window(&dialog).unwrap();
    assert!(missing);
    assert_eq!(search, ParentSearch::Excluded);
    p.handle_window_closed(10);
    assert!(!p.is_known_window(10));
    let ids = p.record_initial_windows(&vec![win(20, "a", "b", Some(5)), win(21, "a", "b", None)]);
    assert_eq!(ids, vec![21]);
    assert!(p.is_known_window(20));
}

#[test]
fn swallow_events() {
    let p = SwallowPlugin::new(SwallowPluginConfig::default());
    assert!(p.is_interested_in_event(&PluginEvent::WindowClosed(1)));
    assert!(p.is_interested_in_event(&PluginEvent::WindowFocusTimestampChanged(1)));
    assert!(!p.is_interested_in_event(&PluginEvent::WindowFocusChanged(Some(1))));
    assert!(!p.is_interested_in_event(&PluginEvent::Other));
}

#[test]
fn plugin_management_decisions() {
    assert_eq!(plugin_action(true, true), PluginAction::UpdateExisting);
    assert_eq!(plugin_action(false, true), PluginAction::Create);
    assert_eq!(plugin_action(true, false), PluginAction::Remove);
    assert_eq!(plugin_action(false, false), PluginAction::Nothing);
    assert!(plugin_enabled_with(true, true));
    assert!(!plugin_enabled_with(true, false));
    let names: Vec<&str> = plugin_kinds().iter().map(|k| k.name()).collect();
    assert_eq!(names, vec!["empty", "window_rule", "scratchpads", "singleton", "window_order", "swallow", "workspace_rule"]);
    assert_eq!(PluginKind::Swallow.name(), "swallow");
}

#[test]
fn process_tree_parent_must_meet_a_rule() {
    let cfg = SwallowPluginConfig {
        rules: vec![swallow_rule(Some("ghostty"), Some("mpv")), swallow_rule(None, Some("imv"))],
        use_pid_matching: true,
        exclude: None,
    };
    let mut p = SwallowPlugin::new(cfg);
    let ghostty = win(1, "com.mitchellh.ghostty", "zsh", Some(100));
    let kitty = win(2, "kitty", "zsh", Some(101));
    let mpv = win(3, "mpv", "video", Some(200));
    let imv = win(4, "imv", "picture", Some(201));
    let feh = win(5, "feh", "picture", Some(202));
    // the first rule accepts only a ghostty parent for mpv
    assert!(p.pid_parent_allowed(&mpv, &ghostty).unwrap());
    assert!(!p.pid_parent_allowed(&mpv, &kitty).unwrap());
    // the second rule has no parent conditions: any ancestor window will do
    assert!(p.pid_parent_allowed(&imv, &kitty).unwrap());
    // no rule's child conditions fit feh
    assert!(!p.pid_parent_allowed(&feh, &ghostty).unwrap());
}

#[test]
fn no_rules_swallow_nothing() {
    let mut p = SwallowPlugin::new(SwallowPluginConfig::default());
    let parent = win(1, "foot", "zsh", Some(100));
    let child = win(2, "mpv", "video", Some(200));
    assert!(!p.pid_parent_allowed(&child, &parent).unwrap());
    assert!(p.find_rule_parent(&child, Some(&parent), &Vec::new()).unwrap().is_none());
}

#[test]
fn exclude_rule_checks() {
    let mut p = SwallowPlugin::new(SwallowPluginConfig::default());
    let dialog = win(1, "gtk.dialog", "Open", None);
    let player = win(2, "mpv", "video", None);
    let exclude = SwallowExclude { app_id: Some(vec![s(".*dialog.*")]), title: Some(vec![s(".*error.*")]) };
    assert!(p.check_window_matches_exclude(&dialog, &exclude).unwrap());
    assert!(!p.check_window_matches_exclude(&player, &exclude).unwrap());
    let failing = win(3, "mpv", "playback error", None);
    assert!(p.check_window_matches_exclude(&failing, &exclude).unwrap());
    // an exclude rule without conditions excludes nothing
    let empty = SwallowExclude { app_id: None, title: None };
    assert!(!p.check_window_matches_exclude(&dialog, &empty).unwrap());
}

#[test]
fn throttle_readings_decide() {
    let d: u64 = 100;
    let ms: u128 = 1_000_000;
    let t0: u128 = 5_000 * ms;
    let mut t = Throttle::new();
    assert!(t.apply_reading(t0, d, true));
    assert!(!t.apply_reading(t0 + 50 * ms, d, true));
    assert!(!t.apply_reading(t0 + 100 * ms, d, true));
    assert!(t.apply_reading(t0 + 200 * ms, d, true));
    let mut u = Throttle::new();
    assert!(u.apply_reading(t0, d, false));
    assert!(!u.apply_reading(t0 + 50 * ms, d, false));
    assert!(u.apply_reading(t0 + 100 * ms, d, false));
}

#[test]
fn process_tree_parent_is_accepted_through_the_rules() {
    let cfg = SwallowPluginConfig {
        rules: vec![swallow_rule(Some("ghostty"), Some("mpv"))],
        use_pid_matching: true,
        exclude: None,
    };
    let mut p = SwallowPlugin::new(cfg);
    let ghostty = win(1, "ghostty", "zsh", Some(100));
    let kitty = win(2, "kitty", "zsh", Some(101));
    let mpv = win(3, "mpv", "video", Some(200));
    assert_eq!(p.accept_pid_parent(&mpv, Some(ghostty)).unwrap().map(|w| w.id), Some(1));
    assert!(p.accept_pid_parent(&mpv, Some(kitty)).unwrap().is_none());
    assert!(p.accept_pid_parent(&mpv, None).unwrap().is_none());
}

#[test]
fn floating_children_wait_until_tiled() {
    let cfg = SwallowPluginConfig {
        rules: vec![swallow_rule(Some("foot"), Some("mpv"))],
        use_pid_matching: true,
        exclude: None,
    };
    let mut p = SwallowPlugin::new(cfg);
    let mut child = win(10, "mpv", "video", Some(77));
    child.floating = true;
    // a floating child is registered but not swallowed
    let (missing, search) = p.admit_opened_window(&child).unwrap();
    assert!(!missing);
    assert_eq!(search, ParentSearch::Floating);
    assert!(p.is_known_window(10));
    // still floating: a plain change
    assert_eq!(p.admit_opened_window(&child).unwrap(), (false, ParentSearch::AlreadyKnown));
    // turned tiled: taken in again although it is known
    child.floating = false;
    assert_eq!(p.admit_opened_window(&child).unwrap(), (false, ParentSearch::ProcessTreeFirst));
    // tiled and seen before: a plain change again
    assert_eq!(p.admit_opened_window(&child).unwrap(), (false, ParentSearch::AlreadyKnown));
    // a tiled window that is new goes straight to the parent search
    let other = win(11, "mpv", "video", Some(78));
    assert_eq!(p.admit_opened_window(&other).unwrap(), (false, ParentSearch::ProcessTreeFirst));
    assert_eq!(p.admit_opened_window(&other).unwrap(), (false, ParentSearch::AlreadyKnown));
    // after it closed, the window is forgotten
    p.handle_window_closed(10);
    assert!(!p.is_known_window(10));
}

#[test]
fn plugin_list_actions() {
    let running = vec![PluginKind::WindowRule];
    assert_eq!(plugin_list_action(&running, PluginKind::WindowRule, true), PluginAction::UpdateExisting);
    assert_eq!(plugin_list_action(&running, PluginKind::WindowRule, false), PluginAction::Remove);
    assert_eq!(plugin_list_action(&running, PluginKind::Swallow, true), PluginAction::Create);
    assert_eq!(plugin_list_action(&running, PluginKind::Swallow, false), PluginAction::Nothing);
    assert_eq!(plugin_list_action(&Vec::new(), PluginKind::Empty, true), PluginAction::Create);
}
