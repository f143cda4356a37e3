use piri::config::Direction;
use piri::plugins::window_utils::{
    calculate_hide_position, calculate_position, escape_pattern, extract_margin,
    find_window_by_matcher,
    focus_change_is_programmatic, get_focused_window, get_focused_workspace_from_event,
    is_window_in_workspace, is_workspace_empty, match_workspace, matches_window,
    parent_pid_from_stat, relative_movement, swallow_steps, swallow_workspace_lookup,
    try_pid_matching, window_exists, window_match_pattern, workspace_reference,
    workspace_target, ColumnDisplayMode, ProgrammaticFocus, SwallowStep, Window, WindowError,
    WindowMatcher, WindowMatcherCache, WindowPidMap, Workspace, WorkspaceInfo, WorkspaceTarget,
};

fn s(x: &str) -> String {
    x.to_string()
}

fn win(id: u64, app_id: Option<&str>, title: &str) -> Window {
    Window {
        id,
        app_id: app_id.map(s),
        title: s(title),
        workspace_id: None,
        workspace: None,
        pid: None,
        floating: false,
    }
}

fn ws(id: u64, idx: u8, name: Option<&str>, is_focused: bool) -> WorkspaceInfo {
    WorkspaceInfo { id, idx, name: name.map(s), is_focused }
}

#[test]
fn matcher_uses_or_logic_over_app_id_and_title() {
    let mut cache = WindowMatcherCache::new();
    let m = WindowMatcher::new(Some(vec![s("^code$"), s(".*firefox.*")]), Some(vec![s(".*VS Code.*")]));
    let app = s("org.mozilla.firefox");
    let title = s("Home");
    assert_eq!(cache.matches(Some(&app), Some(&title), &m).unwrap(), true);
    let app = s("kitty");
    let title = s("main.rs - VS Code");
    assert_eq!(cache.matches(Some(&app), Some(&title), &m).unwrap(), true);
    let title = s("zsh");
    assert_eq!(cache.matches(Some(&app), Some(&title), &m).unwrap(), false);
    assert_eq!(cache.matches(None, None, &m).unwrap(), false);
    let none = WindowMatcher::new(None, None);
    assert_eq!(cache.matches(Some(&app), Some(&title), &none).unwrap(), false);
}

#[test]
fn matcher_reports_invalid_patterns() {
    let mut cache = WindowMatcherCache::new();
    let m = WindowMatcher::new(Some(vec![s("(unclosed")]), None);
    let app = s("x");
    let err = cache.matches(Some(&app), None, &m).unwrap_err();
    assert_eq!(err.pattern, "(unclosed");
    // a pattern that is never reached is not compiled
    let m = WindowMatcher::new(Some(vec![s("x"), s("(unclosed")]), None);
    assert_eq!(cache.matches(Some(&app), None, &m).unwrap(), true);
    cache.clear_cache();
    assert_eq!(cache.pattern_matches("^a+$", "aaa").unwrap(), true);
    assert_eq!(cache.pattern_matches("^a+$", "aab").unwrap(), false);
}

#[test]
fn exclusion_takes_precedence() {
    let mut cache = WindowMatcherCache::new();
    let w = win(1, Some("org.gnome.dialog"), "Error");
    let wanted = vec![s(".*gnome.*")];
    let exclude = vec![s(".*dialog.*")];
    assert_eq!(matches_window(&w, Some(&wanted), None, Some(&exclude), None, &mut cache).unwrap(), false);
    assert_eq!(matches_window(&w, Some(&wanted), None, None, None, &mut cache).unwrap(), true);
    let ex_title = vec![s("^Error$")];
    assert_eq!(matches_window(&w, None, None, None, Some(&ex_title), &mut cache).unwrap(), false);
    // no wanted patterns: everything not excluded matches
    let other = win(2, Some("kitty"), "zsh");
    assert_eq!(matches_window(&other, None, None, Some(&exclude), None, &mut cache).unwrap(), true);
}

#[test]
fn window_lookup() {
    let windows = vec![win(3, Some("a"), "one"), win(5, None, "two"), win(5, Some("b"), "dup")];
    assert_eq!(get_focused_window(None, &windows).unwrap_err(), WindowError::NoFocusedWindow);
    assert_eq!(get_focused_window(Some(9), &windows).unwrap_err(), WindowError::NotFound(9));
    let w = get_focused_window(Some(5), &windows).unwrap();
    assert_eq!(w.title, "two");
    assert!(window_exists(&windows, 3));
    assert!(!window_exists(&windows, 4));
    let m = WindowMatcher::new(Some(vec![s("^b$")]), None);
    let mut cache = WindowMatcherCache::new();
    let found = find_window_by_matcher(&windows, &m, &mut cache).unwrap().unwrap();
    assert_eq!(found.title, "dup");
    let m = WindowMatcher::new(None, Some(vec![s("nothing")]));
    assert!(find_window_by_matcher(&windows, &m, &mut cache).unwrap().is_none());
}

#[test]
fn workspace_emptiness() {
    let mut a = win(1, None, "a");
    a.workspace_id = Some(7);
    let windows = vec![a];
    assert!(!is_workspace_empty(&windows, 7));
    assert!(is_workspace_empty(&windows, 8));
    assert!(is_workspace_empty(&Vec::new(), 7));
}

#[test]
fn focused_workspace_from_event() {
    let list = vec![ws(1, 1, None, false), ws(2, 2, Some("dev"), true)];
    assert_eq!(get_focused_workspace_from_event(&list, 2).unwrap().name, Some(s("dev")));
    assert!(get_focused_workspace_from_event(&list, 1).is_none());
    assert!(get_focused_workspace_from_event(&list, 3).is_none());
}

#[test]
fn match_workspace_by_name_then_index() {
    let list = vec![ws(10, 1, Some("main"), false), ws(11, 2, None, false), ws(12, 3, Some("2"), false)];
    assert_eq!(match_workspace("main", &list), Some(s("main")));
    // a workspace named "2" wins over the workspace with index 2
    assert_eq!(match_workspace("2", &list), Some(s("2")));
    assert_eq!(match_workspace("1", &list), Some(s("main")));
    assert_eq!(match_workspace("+3", &list), Some(s("2")));
    assert_eq!(match_workspace("9", &list), None);
    assert_eq!(match_workspace("other", &list), None);
    let unnamed = vec![ws(20, 4, None, false)];
    assert_eq!(match_workspace("4", &unnamed), Some(s("4")));
    assert_eq!(match_workspace("004", &unnamed), Some(s("4")));
}

#[test]
fn window_in_workspace() {
    let current = Workspace { name: s("3") };
    let mut w = win(1, None, "t");
    assert!(!is_window_in_workspace(&w, &current));
    w.workspace_id = Some(3);
    assert!(is_window_in_workspace(&w, &current));
    w.workspace = Some(s("dev"));
    assert!(!is_window_in_workspace(&w, &current));
    let dev = Workspace { name: s("dev") };
    assert!(is_window_in_workspace(&w, &dev));
}

#[test]
fn positions() {
    assert_eq!(calculate_position(Direction::FromTop, 1920, 1080, 800, 600, 50), (560, 50));
    assert_eq!(calculate_position(Direction::FromBottom, 1920, 1080, 800, 600, 50), (560, 430));
    assert_eq!(calculate_position(Direction::FromLeft, 1920, 1080, 800, 600, 50), (50, 240));
    assert_eq!(calculate_position(Direction::FromRight, 1920, 1080, 800, 600, 50), (1070, 240));
    assert_eq!(calculate_hide_position(Direction::FromTop, 1920, 1080, 800, 600, 50), (560, -650));
    assert_eq!(calculate_hide_position(Direction::FromBottom, 1920, 1080, 800, 600, 50), (560, 1130));
    assert_eq!(calculate_hide_position(Direction::FromLeft, 1920, 1080, 800, 600, 50), (-850, 240));
    assert_eq!(calculate_hide_position(Direction::FromRight, 1920, 1080, 800, 600, 50), (1970, 240));
}

#[test]
fn margins_round_trip() {
    for d in [Direction::FromTop, Direction::FromBottom, Direction::FromLeft, Direction::FromRight] {
        let (x, y) = calculate_position(d, 1920, 1080, 800, 600, 73);
        assert_eq!(extract_margin(d, 1920, 1080, 800, 600, x, y), 73);
    }
    // beyond the edge the margin is 0
    assert_eq!(extract_margin(Direction::FromTop, 1920, 1080, 800, 600, 0, -20), 0);
    assert_eq!(extract_margin(Direction::FromRight, 1920, 1080, 800, 600, 1200, 0), 0);
}

#[test]
fn hidden_positions_are_off_screen() {
    let (ow, oh, ww, wh) = (1920i32, 1080i32, 800i32, 600i32);
    let (_, y) = calculate_hide_position(Direction::FromTop, 1920, 1080, 800, 600, 0);
    assert!(y + wh <= 0);
    let (_, y) = calculate_hide_position(Direction::FromBottom, 1920, 1080, 800, 600, 0);
    assert!(y >= oh);
    let (x, _) = calculate_hide_position(Direction::FromLeft, 1920, 1080, 800, 600, 0);
    assert!(x + ww <= 0);
    let (x, _) = calculate_hide_position(Direction::FromRight, 1920, 1080, 800, 600, 0);
    assert!(x >= ow);
}

#[test]
fn relative_moves() {
    assert_eq!(relative_movement(100, 200, 50, 260), (-50, 60));
}

#[test]
fn programmatic_focus_window() {
    let mut f = ProgrammaticFocus::new();
    assert!(!f.should_ignore_focus_change());
    f.mark_programmatic_focus_start();
    assert!(f.should_ignore_focus_change());
    assert!(!focus_change_is_programmatic(None));
    assert!(focus_change_is_programmatic(Some(499)));
    assert!(!focus_change_is_programmatic(Some(500)));
}

#[test]
fn wait_pattern_escapes_plain_names() {
    assert_eq!(window_match_pattern("float.dropterm"), "float.dropterm");
    assert_eq!(window_match_pattern("a+b"), "a+b");
    assert_eq!(window_match_pattern("foo-bar|x"), regex::escape("foo-bar|x"));
    assert_eq!(window_match_pattern("kitty"), "kitty");
    assert_eq!(window_match_pattern("a{2}"), "a\\{2\\}");
}

#[test]
fn stat_lines_give_parent_pids() {
    assert_eq!(parent_pid_from_stat("1234 (bash) S 987 1234 1234 0"), Some(987));
    assert_eq!(parent_pid_from_stat("1234 (bash) S 1 1234"), None);
    assert_eq!(parent_pid_from_stat("1234 (bash) S 0"), None);
    assert_eq!(parent_pid_from_stat("1234 (bash) S"), None);
    assert_eq!(parent_pid_from_stat("1234 (bash) S x"), None);
}

#[test]
fn pid_map_records_and_forgets_windows() {
    let mut m = WindowPidMap::new();
    assert!(!m.contains_window(1));
    m.record(10, 1);
    m.record(10, 2);
    m.record(11, 3);
    assert!(m.contains_window(1) && m.contains_window(2) && m.contains_window(3));
    m.remove_window(2);
    assert!(!m.contains_window(2));
    assert!(m.contains_window(1));
    m.remove_window(3);
    assert!(!m.contains_window(3));
    m.remove_window(1);
    assert!(!m.contains_window(1));
}

#[test]
fn pid_matching_finds_an_ancestor_window() {
    let mut child = win(9, Some("mpv"), "video");
    child.pid = Some(300);
    let mut term = win(2, Some("foot"), "zsh");
    term.pid = Some(100);
    let mut other = win(3, Some("kitty"), "zsh");
    other.pid = Some(50);
    let windows = vec![other.clone(), child.clone(), term.clone()];
    let mut map = WindowPidMap::new();
    let parent = try_pid_matching(&child, &windows, &vec![200, 100], &mut map).unwrap();
    assert_eq!(parent.id, 2);
    assert!(map.contains_window(9) && map.contains_window(3) && map.contains_window(2));
    let mut map = WindowPidMap::new();
    assert!(try_pid_matching(&child, &windows, &vec![7], &mut map).is_none());
    let mut no_pid = child.clone();
    no_pid.pid = None;
    let mut map = WindowPidMap::new();
    assert!(try_pid_matching(&no_pid, &windows, &vec![100], &mut map).is_none());
    assert!(!map.contains_window(9));
}

#[test]
fn swallow_plan() {
    let steps = swallow_steps(1, true, 2, ColumnDisplayMode::Tabbed, Some(s("3")));
    assert_eq!(
        steps,
        vec![
            SwallowStep::FocusWindow(1),
            SwallowStep::SetColumnDisplay(ColumnDisplayMode::Tabbed),
            SwallowStep::MoveWindowToTiling(2),
            SwallowStep::MoveWindowToWorkspace { window_id: 2, target: WorkspaceTarget::Index(3) },
            SwallowStep::ConsumeOrExpelWindowLeft(2),
            SwallowStep::FocusWindow(2),
        ]
    );
    let steps = swallow_steps(1, false, 2, ColumnDisplayMode::Normal, None);
    assert_eq!(steps.len(), 4);
    assert_eq!(workspace_target("dev"), WorkspaceTarget::Name(s("dev")));
    assert_eq!(workspace_target("300"), WorkspaceTarget::Id(300));
    assert_eq!(workspace_target("7"), WorkspaceTarget::Index(7));
}

#[test]
fn swallow_workspace_reference() {
    let mut parent = win(1, None, "p");
    let mut child = win(2, None, "c");
    assert_eq!(swallow_workspace_lookup(&parent, &child), None);
    parent.workspace_id = Some(5);
    assert_eq!(swallow_workspace_lookup(&parent, &child), Some(5));
    child.workspace_id = Some(5);
    assert_eq!(swallow_workspace_lookup(&parent, &child), None);
    let list = vec![ws(5, 2, None, false), ws(6, 3, Some("dev"), false)];
    assert_eq!(workspace_reference(&list, 5), Some(s("2")));
    assert_eq!(workspace_reference(&list, 6), Some(s("dev")));
    assert_eq!(workspace_reference(&list, 7), None);
}

#[test]
fn escaping_puts_a_backslash_before_meta_characters() {
    assert_eq!(escape_pattern("a.b-c"), "a\\.b\\-c");
    assert_eq!(escape_pattern("firefox"), "firefox");
    assert_eq!(escape_pattern("(x)|[y]{z}^$#&~*+?\\"), "\\(x\\)\\|\\[y\\]\\{z\\}\\^\\$\\#\\&\\~\\*\\+\\?\\\\");
    assert_eq!(escape_pattern("100%/\u{e9}"), "100%/\u{e9}");
}
