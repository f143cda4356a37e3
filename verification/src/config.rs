//! The configuration model: scratchpad directions, the plugin switches, the
//! per-plugin sections and their defaults, and the checks that turn loosely
//! typed configuration values into typed ones.
use vstd::prelude::*;
use std::collections::HashMap;

use crate::plugins::swallow::{SwallowExclude, SwallowRule};
use crate::text::{same_text, split_whitespace, strings_view, words};

verus! {

// ---------------------------------------------------------------------------
// Errors
// ---------------------------------------------------------------------------

/// Why a configuration value was refused.
#[derive(Debug, Clone)]
pub enum ConfigError {
    /// A direction other than `fromTop`, `fromBottom`, `fromLeft`, `fromRight`.
    InvalidDirection(String),
    /// A required field is absent or of the wrong kind; holds the field's name.
    MissingField(String),
    /// A size that is not two whitespace-separated parts; holds the size.
    InvalidSize(String),
    /// The width part of a size does not end with `%`; holds the part.
    WidthWithoutPercent(String),
    /// The height part of a size does not end with `%`; holds the part.
    HeightWithoutPercent(String),
}

/// A `ConfigError` with its texts as character sequences.
pub enum ConfigErrorView {
    InvalidDirection(Seq<char>),
    MissingField(Seq<char>),
    InvalidSize(Seq<char>),
    WidthWithoutPercent(Seq<char>),
    HeightWithoutPercent(Seq<char>),
}

impl View for ConfigError {
    type V = ConfigErrorView;

    open spec fn view(&self) -> ConfigErrorView {
        match self {
            ConfigError::InvalidDirection(s) => ConfigErrorView::InvalidDirection(s@),
            ConfigError::MissingField(s) => ConfigErrorView::MissingField(s@),
            ConfigError::InvalidSize(s) => ConfigErrorView::InvalidSize(s@),
            ConfigError::WidthWithoutPercent(s) => ConfigErrorView::WidthWithoutPercent(s@),
            ConfigError::HeightWithoutPercent(s) => ConfigErrorView::HeightWithoutPercent(s@),
        }
    }
}

// ---------------------------------------------------------------------------
// Direction
// ---------------------------------------------------------------------------

/// Direction from which the scratchpad appears
#[derive(Debug, Clone, Copy, PartialEq, Eq, Structural)]
pub enum Direction {
    FromTop,
    FromBottom,
    FromLeft,
    FromRight,
}

/// The configuration name of a direction.
pub open spec fn direction_name(d: Direction) -> Seq<char> {
    match d {
        Direction::FromTop => "fromTop"@,
        Direction::FromBottom => "fromBottom"@,
        Direction::FromLeft => "fromLeft"@,
        Direction::FromRight => "fromRight"@,
    }
}

/// The direction that a configuration name denotes, if any.
pub open spec fn direction_named(s: Seq<char>) -> Option<Direction> {
    if s == "fromTop"@ {
        Some(Direction::FromTop)
    } else if s == "fromBottom"@ {
        Some(Direction::FromBottom)
    } else if s == "fromLeft"@ {
        Some(Direction::FromLeft)
    } else if s == "fromRight"@ {
        Some(Direction::FromRight)
    } else {
        None
    }
}

impl Direction {
    /// Convert string to Direction
    pub fn from_str(s: &str) -> (r: Result<Direction, ConfigError>)
        ensures
            r matches Ok(d) ==> direction_named(s@) == Some(d),
            r matches Err(e) ==> direction_named(s@) is None && e@ == ConfigErrorView::InvalidDirection(
                s@,
            ),
    {
        if same_text(s, "fromTop") {
            Ok(Direction::FromTop)
        } else if same_text(s, "fromBottom") {
            Ok(Direction::FromBottom)
        } else if same_text(s, "fromLeft") {
            Ok(Direction::FromLeft)
        } else if same_text(s, "fromRight") {
            Ok(Direction::FromRight)
        } else {
            Err(ConfigError::InvalidDirection(String::from_str(s)))
        }
    }

    /// Convert Direction to string
    pub fn as_str(&self) -> (r: &'static str)
        ensures
            r@ == direction_name(*self),
    {
        match self {
            Direction::FromTop => "fromTop",
            Direction::FromBottom => "fromBottom",
            Direction::FromLeft => "fromLeft",
            Direction::FromRight => "fromRight",
        }
    }
}

/// Every direction is read back from its name: what `as_str` writes,
/// `from_str` accepts as the same direction, and no two directions share a
/// name.
pub proof fn law_direction_name_round_trip(d: Direction)
    ensures
        direction_named(direction_name(d)) == Some(d),
{
    reveal_strlit("fromTop");
    reveal_strlit("fromBottom");
    reveal_strlit("fromLeft");
    reveal_strlit("fromRight");
    assert("fromTop"@.len() == 7);
    assert("fromBottom"@.len() == 10);
    assert("fromLeft"@.len() == 8);
    assert("fromRight"@.len() == 9);
}

// ---------------------------------------------------------------------------
// Sections
// ---------------------------------------------------------------------------

#[derive(Debug, Clone)]
pub struct Config {
    pub niri: NiriConfig,
    pub piri: PiriConfig,
    pub scratchpads: HashMap<String, ScratchpadConfig>,
    pub empty: HashMap<String, EmptyWorkspaceConfig>,
    pub singleton: HashMap<String, SingletonConfig>,
    pub window_rule: Vec<WindowRuleConfig>,
    pub window_order: HashMap<String, u32>,
    pub swallow: Vec<SwallowRule>,
    pub workspace_rule: HashMap<String, WorkspaceRuleConfig>,
}

#[derive(Debug, Clone)]
pub struct WindowOrderSection {
    pub enable_event_listener: bool,
    pub default_weight: u32,
    pub workspaces: Vec<String>,
}

impl Default for WindowOrderSection {
    fn default() -> (r: Self)
        ensures
            !r.enable_event_listener,
            r.default_weight == 0,
            r.workspaces@.len() == 0,
    {
        Self {
            enable_event_listener: default_enable_event_listener(),
            default_weight: default_window_order_weight(),
            workspaces: Vec::new(),
        }
    }
}

#[derive(Debug, Clone)]
pub struct SwallowSection {
    pub rules: Vec<SwallowRule>,
    pub use_pid_matching: bool,
    pub exclude: Option<SwallowExclude>,
}

pub fn default_true() -> (r: bool)
    ensures
        r,
{
    true
}

impl Default for SwallowSection {
    fn default() -> (r: Self)
        ensures
            r.rules@.len() == 0,
            r.use_pid_matching,
            r.exclude is None,
    {
        Self { rules: Vec::new(), use_pid_matching: default_true(), exclude: None }
    }
}

#[derive(Debug, Clone)]
pub struct NiriConfig {
    /// Path to niri socket (default: $XDG_RUNTIME_DIR/niri or /tmp/niri)
    pub socket_path: Option<String>,
}

impl Default for NiriConfig {
    fn default() -> (r: Self)
        ensures
            r.socket_path is None,
    {
        Self { socket_path: None }
    }
}

#[derive(Debug, Clone)]
pub struct PiriConfig {
    pub scratchpad: ScratchpadDefaults,
    pub plugins: PluginsConfig,
    pub window_order: WindowOrderSection,
    pub swallow: SwallowSection,
    pub workspace_rule: WorkspaceRuleSection,
}

impl Default for PiriConfig {
    fn default() -> (r: Self)
        ensures
            r.scratchpad.default_size@ == default_size_text(),
            r.scratchpad.default_margin == 50,
            r.scratchpad.move_to_workspace is None,
            r.plugins.all_unset(),
            !r.window_order.enable_event_listener,
            r.window_order.default_weight == 0,
            r.window_order.workspaces@.len() == 0,
            r.swallow.rules@.len() == 0,
            r.swallow.use_pid_matching,
            r.swallow.exclude is None,
            r.workspace_rule.auto_width@.len() == 0,
            !r.workspace_rule.auto_tile,
            !r.workspace_rule.auto_fill,
            !r.workspace_rule.auto_maximize,
    {
        Self {
            scratchpad: ScratchpadDefaults::default(),
            plugins: PluginsConfig::default(),
            window_order: WindowOrderSection::default(),
            swallow: SwallowSection::default(),
            workspace_rule: WorkspaceRuleSection::default(),
        }
    }
}

/// Which plugins are switched on. A plugin that is not mentioned is off.
#[derive(Debug, Clone)]
pub struct PluginsConfig {
    pub scratchpads: Option<bool>,
    pub empty: Option<bool>,
    pub window_rule: Option<bool>,
    pub autofill: Option<bool>,
    pub singleton: Option<bool>,
    pub window_order: Option<bool>,
    pub swallow: Option<bool>,
    pub workspace_rule: Option<bool>,
}

/// Whether the switch of the plugin named `name` is on: `true` only for one of
/// the seven plugin names whose switch is set to `true`.
pub open spec fn plugin_enabled(p: PluginsConfig, name: Seq<char>) -> bool {
    if name == "scratchpads"@ {
        p.scratchpads == Some(true)
    } else if name == "empty"@ {
        p.empty == Some(true)
    } else if name == "window_rule"@ {
        p.window_rule == Some(true)
    } else if name == "singleton"@ {
        p.singleton == Some(true)
    } else if name == "window_order"@ {
        p.window_order == Some(true)
    } else if name == "swallow"@ {
        p.swallow == Some(true)
    } else if name == "workspace_rule"@ {
        p.workspace_rule == Some(true)
    } else {
        false
    }
}

impl PluginsConfig {
    pub open spec fn all_unset(&self) -> bool {
        &&& self.scratchpads is None
        &&& self.empty is None
        &&& self.window_rule is None
        &&& self.autofill is None
        &&& self.singleton is None
        &&& self.window_order is None
        &&& self.swallow is None
        &&& self.workspace_rule is None
    }

    pub fn is_enabled(&self, name: &str) -> (r: bool)
        ensures
            r == plugin_enabled(*self, name@),
    {
        if same_text(name, "scratchpads") {
            unwrap_or_false(self.scratchpads)
        } else if same_text(name, "empty") {
            unwrap_or_false(self.empty)
        } else if same_text(name, "window_rule") {
            unwrap_or_false(self.window_rule)
        } else if same_text(name, "singleton") {
            unwrap_or_false(self.singleton)
        } else if same_text(name, "window_order") {
            unwrap_or_false(self.window_order)
        } else if same_text(name, "swallow") {
            unwrap_or_false(self.swallow)
        } else if same_text(name, "workspace_rule") {
            unwrap_or_false(self.workspace_rule)
        } else {
            false
        }
    }
}

fn unwrap_or_false(b: Option<bool>) -> (r: bool)
    ensures
        r == (b == Some(true)),
{
    match b {
        Some(v) => v,
        None => false,
    }
}

impl Default for PluginsConfig {
    fn default() -> (r: Self)
        ensures
            r.all_unset(),
    {
        Self {
            scratchpads: None,
            empty: None,
            window_rule: None,
            autofill: None,
            singleton: None,
            window_order: None,
            swallow: None,
            workspace_rule: None,
        }
    }
}

/// A plugin whose switch is unset, or a name that is no plugin's, is off.
pub proof fn law_unset_plugins_are_disabled(p: PluginsConfig, name: Seq<char>)
    requires
        p.all_unset(),
    ensures
        !plugin_enabled(p, name),
{
}

#[derive(Debug, Clone)]
pub struct EmptyWorkspaceConfig {
    /// Command to execute when switching to this empty workspace
    pub command: String,
}

#[derive(Debug, Clone)]
pub struct SingletonConfig {
    /// Command to execute the application (can include environment variables and arguments)
    pub command: String,
    /// Optional app_id pattern to match windows (if not specified, extracted from command)
    pub app_id: Option<String>,
    /// Optional command to execute after the window is created (only executed when window is newly created)
    pub on_created_command: Option<String>,
}

/// One string or a list of strings, as configuration files may write either.
#[derive(Debug, Clone)]
pub enum StringOrVec {
    String(String),
    Vec(Vec<String>),
}

impl StringOrVec {
    pub fn into_vec(self) -> (r: Vec<String>)
        ensures
            r@ == (match self {
                StringOrVec::String(s) => seq![s],
                StringOrVec::Vec(v) => v@,
            }),
    {
        match self {
            StringOrVec::String(s) => {
                let mut v = Vec::new();
                v.push(s);
                v
            },
            StringOrVec::Vec(v) => v,
        }
    }
}

/// Window rule configuration
#[derive(Debug)]
pub struct WindowRuleConfig {
    /// Regex pattern(s) to match app_id (optional, can be a string or list of strings)
    pub app_id: Option<Vec<String>>,
    /// Regex pattern(s) to match title (optional, can be a string or list of strings)
    pub title: Option<Vec<String>>,
    /// Workspace to move matching windows to (name or idx, optional if focus_command is specified)
    pub open_on_workspace: Option<String>,
    /// Command to execute when a matching window is focused (optional)
    pub focus_command: Option<String>,
    /// If true, focus_command will only execute on the first focus (default: false)
    pub focus_command_once: bool,
}

/// A window rule with its texts as character sequences.
pub struct WindowRuleView {
    pub app_id: Option<Seq<Seq<char>>>,
    pub title: Option<Seq<Seq<char>>>,
    pub open_on_workspace: Option<Seq<char>>,
    pub focus_command: Option<Seq<char>>,
    pub focus_command_once: bool,
}

/// A list of patterns (or its absence) as character sequences.
pub open spec fn patterns_view(p: Option<Vec<String>>) -> Option<Seq<Seq<char>>> {
    match p {
        Some(v) => Some(strings_view(v@)),
        None => None,
    }
}

pub open spec fn opt_text(s: Option<String>) -> Option<Seq<char>> {
    match s {
        Some(v) => Some(v@),
        None => None,
    }
}

impl View for WindowRuleConfig {
    type V = WindowRuleView;

    open spec fn view(&self) -> WindowRuleView {
        WindowRuleView {
            app_id: patterns_view(self.app_id),
            title: patterns_view(self.title),
            open_on_workspace: opt_text(self.open_on_workspace),
            focus_command: opt_text(self.focus_command),
            focus_command_once: self.focus_command_once,
        }
    }
}

impl Clone for WindowRuleConfig {
    fn clone(&self) -> (r: Self)
        ensures
            r@ == self@,
    {
        WindowRuleConfig {
            app_id: clone_patterns(&self.app_id),
            title: clone_patterns(&self.title),
            open_on_workspace: clone_opt_string(&self.open_on_workspace),
            focus_command: clone_opt_string(&self.focus_command),
            focus_command_once: self.focus_command_once,
        }
    }
}

pub fn clone_opt_string(s: &Option<String>) -> (r: Option<String>)
    ensures
        r == *s,
{
    match s {
        Some(v) => Some(v.clone()),
        None => None,
    }
}

pub fn clone_strings(v: &Vec<String>) -> (r: Vec<String>)
    ensures
        r@ == v@,
{
    let mut out: Vec<String> = Vec::new();
    let mut i: usize = 0;
    while i < v.len()
        invariant
            i <= v@.len(),
            out@ == v@.subrange(0, i as int),
        decreases v@.len() - i,
    {
        out.push(v[i].clone());
        assert(v@.subrange(0, i + 1) =~= v@.subrange(0, i as int).push(v@[i as int]));
        i = i + 1;
    }
    assert(v@.subrange(0, v@.len() as int) =~= v@);
    out
}

pub fn clone_patterns(p: &Option<Vec<String>>) -> (r: Option<Vec<String>>)
    ensures
        patterns_view(r) == patterns_view(*p),
{
    match p {
        Some(v) => Some(clone_strings(v)),
        None => None,
    }
}

pub fn default_size() -> (r: String)
    ensures
        r@ == default_size_text(),
{
    String::from_str("75% 60%")
}

pub open spec fn default_size_text() -> Seq<char> {
    "75% 60%"@
}

pub fn default_margin() -> (r: u32)
    ensures
        r == 50,
{
    50
}

#[derive(Debug, Clone)]
pub struct ScratchpadDefaults {
    /// Default size for dynamically added scratchpads (e.g., "40% 60%")
    pub default_size: String,
    /// Default margin for dynamically added scratchpads (pixels)
    pub default_margin: u32,
    /// Optional workspace to move scratchpads to when hidden
    pub move_to_workspace: Option<String>,
}

impl Default for ScratchpadDefaults {
    fn default() -> (r: Self)
        ensures
            r.default_size@ == default_size_text(),
            r.default_margin == 50,
            r.move_to_workspace is None,
    {
        Self {
            default_size: default_size(),
            default_margin: default_margin(),
            move_to_workspace: None,
        }
    }
}

#[derive(Debug, Clone)]
pub struct ScratchpadConfig {
    /// Direction from which the scratchpad appears
    pub direction: Direction,
    /// Command to execute the application (can include environment variables and arguments)
    pub command: String,
    /// Explicit app_id to match windows (required)
    pub app_id: String,
    /// Size of the scratchpad (e.g., "75% 60%")
    pub size: String,
    /// Margin from the edge in pixels
    pub margin: u32,
    /// If true, swallow the scratchpad window to the focused window when shown
    pub swallow_to_focus: bool,
}

/// `s` ends with a percent sign.
pub open spec fn ends_with_percent(s: Seq<char>) -> bool {
    s.len() > 0 && s.last() == '%'
}

fn strip_percent(s: &str) -> (r: Option<String>)
    ensures
        r is Some <==> ends_with_percent(s@),
        r matches Some(t) ==> t@ == s@.drop_last(),
{
    let n = s.unicode_len();
    if n == 0 {
        return None;
    }
    if s.get_char(n - 1) != '%' {
        return None;
    }
    let t = s.substring_char(0, n - 1);
    assert(t@ =~= s@.drop_last());
    Some(String::from_str(t))
}

impl ScratchpadConfig {
    /// Splits the size (e.g. "75% 60%") into the texts of its width and height
    /// percentages, without the `%` signs. The size must be exactly two
    /// whitespace-separated parts, each ending with `%`.
    pub fn size_percentages(&self) -> (r: Result<(String, String), ConfigError>)
        ensures
            ({
                let w = words(self.size@);
                &&& r is Ok <==> (w.len() == 2 && ends_with_percent(w[0]) && ends_with_percent(
                    w[1],
                ))
                &&& r matches Ok((a, b)) ==> a@ == w[0].drop_last() && b@ == w[1].drop_last()
                &&& r matches Err(e) ==> e@ == (if w.len() != 2 {
                    ConfigErrorView::InvalidSize(self.size@)
                } else if !ends_with_percent(w[0]) {
                    ConfigErrorView::WidthWithoutPercent(w[0])
                } else {
                    ConfigErrorView::HeightWithoutPercent(w[1])
                })
            }),
    {
        let parts = split_whitespace(self.size.as_str());
        proof {
            assert(strings_view(parts@).len() == parts@.len());
        }
        if parts.len() != 2 {
            return Err(ConfigError::InvalidSize(self.size.clone()));
        }
        proof {
            assert(strings_view(parts@)[0] == parts@[0]@);
            assert(strings_view(parts@)[1] == parts@[1]@);
        }
        let width = match strip_percent(parts[0].as_str()) {
            Some(w) => w,
            None => {
                return Err(ConfigError::WidthWithoutPercent(parts[0].clone()));
            },
        };
        let height = match strip_percent(parts[1].as_str()) {
            Some(h) => h,
            None => {
                return Err(ConfigError::HeightWithoutPercent(parts[1].clone()));
            },
        };
        Ok((width, height))
    }
}

#[derive(Debug, Clone)]
pub enum WidthValue {
    String(String),
    Vec(Vec<String>),
}

impl WidthValue {
    /// Convert to Vec<String>, expanding single string to vec
    pub fn into_vec(self) -> (r: Vec<String>)
        ensures
            r@ == (match self {
                WidthValue::String(s) => seq![s],
                WidthValue::Vec(v) => v@,
            }),
    {
        match self {
            WidthValue::String(s) => {
                let mut v = Vec::new();
                v.push(s);
                v
            },
            WidthValue::Vec(v) => v,
        }
    }
}

/// Workspace rule configuration for a specific workspace
#[derive(Debug, Clone)]
pub struct WorkspaceRuleConfig {
    /// Auto width configuration: array where index corresponds to window count (1-based)
    pub auto_width: Vec<Vec<String>>,
    /// If true, automatically tile windows: allow up to 2 windows per column (except first column)
    pub auto_tile: bool,
    /// If true, automatically align last column (autofill)
    pub auto_fill: bool,
    /// If true, automatically maximize window when there's only one window, and unmaximize when there are multiple windows
    pub auto_maximize: bool,
}

/// Workspace rule section in piri config (default settings)
#[derive(Debug, Clone)]
pub struct WorkspaceRuleSection {
    pub auto_width: Vec<Vec<String>>,
    pub auto_tile: bool,
    pub auto_fill: bool,
    pub auto_maximize: bool,
}

impl Default for WorkspaceRuleSection {
    fn default() -> (r: Self)
        ensures
            r.auto_width@.len() == 0,
            !r.auto_tile,
            !r.auto_fill,
            !r.auto_maximize,
    {
        Self { auto_width: Vec::new(), auto_tile: false, auto_fill: false, auto_maximize: false }
    }
}

pub fn default_enable_event_listener() -> (r: bool)
    ensures
        !r,
{
    false  // Default: event listener disabled

}

pub fn default_window_order_weight() -> (r: u32)
    ensures
        r == 0,
{
    0  // Default: unconfigured windows have weight 0 (rightmost)

}

impl Default for Config {
    fn default() -> (r: Self)
        ensures
            r.niri.socket_path is None,
            r.piri.plugins.all_unset(),
            r.piri.scratchpad.default_size@ == default_size_text(),
            r.piri.scratchpad.default_margin == 50,
            r.piri.scratchpad.move_to_workspace is None,
            !r.piri.window_order.enable_event_listener,
            r.piri.window_order.default_weight == 0,
            r.piri.window_order.workspaces@.len() == 0,
            r.piri.swallow.rules@.len() == 0,
            r.piri.swallow.use_pid_matching,
            r.piri.swallow.exclude is None,
            r.piri.workspace_rule.auto_width@.len() == 0,
            !r.piri.workspace_rule.auto_tile,
            !r.piri.workspace_rule.auto_fill,
            !r.piri.workspace_rule.auto_maximize,
            r.scratchpads@ == Map::<String, ScratchpadConfig>::empty(),
            r.empty@ == Map::<String, EmptyWorkspaceConfig>::empty(),
            r.singleton@ == Map::<String, SingletonConfig>::empty(),
            r.window_rule@.len() == 0,
            r.window_order@ == Map::<String, u32>::empty(),
            r.swallow@.len() == 0,
            r.workspace_rule@ == Map::<String, WorkspaceRuleConfig>::empty(),
    {
        Self {
            niri: NiriConfig::default(),
            piri: PiriConfig::default(),
            scratchpads: HashMap::new(),
            empty: HashMap::new(),
            singleton: HashMap::new(),
            window_rule: Vec::new(),
            window_order: HashMap::new(),
            swallow: Vec::new(),
            workspace_rule: HashMap::new(),
        }
    }
}

// ---------------------------------------------------------------------------
// Scratchpads from a TOML table
// ---------------------------------------------------------------------------

/// `toml::map::Map`, the map type behind `toml::Table`.
#[verifier::external_type_specification]
#[verifier::external_body]
#[verifier::reject_recursive_types(K)]
#[verifier::reject_recursive_types(V)]
pub struct ExTomlMap<K, V>(toml::map::Map<K, V>);

/// `toml::Value`, one value of a TOML document.
#[verifier::external_type_specification]
#[verifier::external_body]
pub struct ExTomlValue(toml::Value);

/// A value of a TOML table entry, as far as the configuration reads it.
#[derive(Debug)]
pub enum TomlScalar {
    Str(String),
    Integer(i64),
    Boolean(bool),
    /// A float, datetime, array or table.
    Other,
}

pub enum TomlScalarView {
    Str(Seq<char>),
    Integer(i64),
    Boolean(bool),
    Other,
}

impl View for TomlScalar {
    type V = TomlScalarView;

    open spec fn view(&self) -> TomlScalarView {
        match self {
            TomlScalar::Str(s) => TomlScalarView::Str(s@),
            TomlScalar::Integer(i) => TomlScalarView::Integer(*i),
            TomlScalar::Boolean(b) => TomlScalarView::Boolean(*b),
            TomlScalar::Other => TomlScalarView::Other,
        }
    }
}

/// The entries of a TOML table: each key with its value.
pub uninterp spec fn table_entries(table: toml::map::Map<String, toml::Value>) -> Map<
    Seq<char>,
    TomlScalarView,
>;

/// Calls `toml::map::Map::get` and tells the variants of the `toml::Value`
/// found apart. Claims that the entry read is the table's entry for `key`, and
/// that nothing is found exactly when the table has no such key.
#[verifier::external_body]
fn table_field(table: &toml::map::Map<String, toml::Value>, key: &str) -> (r: Option<TomlScalar>)
    ensures
        r matches Some(v) ==> table_entries(*table).contains_key(key@) && table_entries(
            *table,
        )[key@] == v@,
        r is None ==> !table_entries(*table).contains_key(key@),
{
    match table.get(key) {
        Some(toml::Value::String(s)) => Some(TomlScalar::Str(s.clone())),
        Some(toml::Value::Integer(i)) => Some(TomlScalar::Integer(*i)),
        Some(toml::Value::Boolean(b)) => Some(TomlScalar::Boolean(*b)),
        Some(toml::Value::Float(_)) => Some(TomlScalar::Other),
        Some(toml::Value::Datetime(_)) => Some(TomlScalar::Other),
        Some(toml::Value::Array(_)) => Some(TomlScalar::Other),
        Some(toml::Value::Table(_)) => Some(TomlScalar::Other),
        None => None,
    }
}

/// The string stored under `key`, if the entry is a string.
pub open spec fn entry_str(e: Map<Seq<char>, TomlScalarView>, key: Seq<char>) -> Option<Seq<char>> {
    if e.contains_key(key) {
        match e[key] {
            TomlScalarView::Str(s) => Some(s),
            _ => None,
        }
    } else {
        None
    }
}

/// The integer stored under `key`, if the entry is an integer.
pub open spec fn entry_int(e: Map<Seq<char>, TomlScalarView>, key: Seq<char>) -> Option<i64> {
    if e.contains_key(key) {
        match e[key] {
            TomlScalarView::Integer(i) => Some(i),
            _ => None,
        }
    } else {
        None
    }
}

/// The boolean stored under `key`, if the entry is a boolean.
pub open spec fn entry_bool(e: Map<Seq<char>, TomlScalarView>, key: Seq<char>) -> Option<bool> {
    if e.contains_key(key) {
        match e[key] {
            TomlScalarView::Boolean(b) => Some(b),
            _ => None,
        }
    } else {
        None
    }
}

/// The first problem of a scratchpad table, fields checked in the order
/// direction, command, size, margin, app_id; `None` when there is none.
pub open spec fn scratchpad_table_error(e: Map<Seq<char>, TomlScalarView>) -> Option<
    ConfigErrorView,
> {
    if entry_str(e, "direction"@) is None {
        Some(ConfigErrorView::MissingField("direction"@))
    } else if direction_named(entry_str(e, "direction"@)->0) is None {
        Some(ConfigErrorView::InvalidDirection(entry_str(e, "direction"@)->0))
    } else if entry_str(e, "command"@) is None {
        Some(ConfigErrorView::MissingField("command"@))
    } else if entry_str(e, "size"@) is None {
        Some(ConfigErrorView::MissingField("size"@))
    } else if entry_int(e, "margin"@) is None {
        Some(ConfigErrorView::MissingField("margin"@))
    } else if entry_str(e, "app_id"@) is None {
        Some(ConfigErrorView::MissingField("app_id"@))
    } else {
        None
    }
}

fn table_str(table: &toml::map::Map<String, toml::Value>, key: &str) -> (r: Option<String>)
    ensures
        opt_text(r) == entry_str(table_entries(*table), key@),
{
    match table_field(table, key) {
        Some(TomlScalar::Str(s)) => Some(s),
        _ => None,
    }
}

fn missing(name: &str) -> (r: ConfigError)
    ensures
        r@ == ConfigErrorView::MissingField(name@),
{
    ConfigError::MissingField(String::from_str(name))
}

impl ScratchpadConfig {
    /// Reads a scratchpad from a TOML table: `direction`, `command`, `size`,
    /// `app_id` (strings) and `margin` (an integer, truncated to `u32`) are
    /// required; `swallow_to_focus` is taken when it is a boolean and is false
    /// otherwise.
    pub fn try_from_table(table: toml::map::Map<String, toml::Value>) -> (r: Result<
        ScratchpadConfig,
        ConfigError,
    >)
        ensures
            ({
                let e = table_entries(table);
                &&& r is Ok <==> scratchpad_table_error(e) is None
                &&& r matches Err(err) ==> Some(err@) == scratchpad_table_error(e)
                &&& r matches Ok(c) ==> {
                    &&& Some(c.direction) == direction_named(entry_str(e, "direction"@)->0)
                    &&& Some(c.command@) == entry_str(e, "command"@)
                    &&& Some(c.size@) == entry_str(e, "size"@)
                    &&& c.margin == entry_int(e, "margin"@)->0 as u32
                    &&& Some(c.app_id@) == entry_str(e, "app_id"@)
                    &&& c.swallow_to_focus == (entry_bool(e, "swallow_to_focus"@) == Some(true))
                }
            }),
    {
        let ghost e = table_entries(table);
        let direction = match table_str(&table, "direction") {
            Some(s) => match Direction::from_str(s.as_str()) {
                Ok(d) => d,
                Err(err) => {
                    return Err(err);
                },
            },
            None => {
                return Err(missing("direction"));
            },
        };
        let command = match table_str(&table, "command") {
            Some(s) => s,
            None => {
                return Err(missing("command"));
            },
        };
        let size = match table_str(&table, "size") {
            Some(s) => s,
            None => {
                return Err(missing("size"));
            },
        };
        let margin = match table_field(&table, "margin") {
            Some(TomlScalar::Integer(i)) => i as u32,
            _ => {
                return Err(missing("margin"));
            },
        };
        let app_id = match table_str(&table, "app_id") {
            Some(s) => s,
            None => {
                return Err(missing("app_id"));
            },
        };
        let swallow_to_focus = match table_field(&table, "swallow_to_focus") {
            Some(TomlScalar::Boolean(b)) => b,
            _ => false,
        };
        Ok(ScratchpadConfig { direction, command, app_id, size, margin, swallow_to_focus })
    }
}

} // verus!
