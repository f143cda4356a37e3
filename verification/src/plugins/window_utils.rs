//! Shared window logic: windows and workspaces as the plugins see them,
//! regex-based window matching, workspace lookup and scratchpad geometry.
use vstd::prelude::*;
use std::collections::HashMap;
use vstd::std_specs::iter::IteratorSpec;
use std::time::Instant;

use crate::clock::{duration_as_nanos, instant_duration_since, instant_now};
use crate::config::{opt_text, patterns_view, Direction};
use crate::utils::elapsed_nanos;
use crate::text::{
    decimal, parse_unsigned, parse_unsigned_spec, same_text, split_whitespace, strings_view,
    to_decimal, words,
};

verus! {

// ---------------------------------------------------------------------------
// Windows and workspaces
// ---------------------------------------------------------------------------

/// A window, with the fields the plugins read.
#[derive(Debug)]
pub struct Window {
    pub id: u64,
    pub app_id: Option<String>,
    pub title: String,
    pub workspace_id: Option<u64>,
    /// Name of the workspace the window is on, when known.
    pub workspace: Option<String>,
    pub pid: Option<u32>,
    pub floating: bool,
}

pub struct WindowView {
    pub id: u64,
    pub app_id: Option<Seq<char>>,
    pub title: Seq<char>,
    pub workspace_id: Option<u64>,
    pub workspace: Option<Seq<char>>,
    pub pid: Option<u32>,
    pub floating: bool,
}

impl View for Window {
    type V = WindowView;

    open spec fn view(&self) -> WindowView {
        WindowView {
            id: self.id,
            app_id: opt_text(self.app_id),
            title: self.title@,
            workspace_id: self.workspace_id,
            workspace: opt_text(self.workspace),
            pid: self.pid,
            floating: self.floating,
        }
    }
}

impl Clone for Window {
    fn clone(&self) -> (r: Self)
        ensures
            r@ == self@,
    {
        Window {
            id: self.id,
            app_id: crate::config::clone_opt_string(&self.app_id),
            title: self.title.clone(),
            workspace_id: self.workspace_id,
            workspace: crate::config::clone_opt_string(&self.workspace),
            pid: self.pid,
            floating: self.floating,
        }
    }
}

/// The current workspace, as far as window placement needs it.
#[derive(Debug, Clone)]
pub struct Workspace {
    pub name: String,
}

/// A workspace as the compositor reports it.
#[derive(Debug)]
pub struct WorkspaceInfo {
    pub id: u64,
    pub idx: u8,
    pub name: Option<String>,
    pub is_focused: bool,
}

pub struct WorkspaceInfoView {
    pub id: u64,
    pub idx: u8,
    pub name: Option<Seq<char>>,
    pub is_focused: bool,
}

impl View for WorkspaceInfo {
    type V = WorkspaceInfoView;

    open spec fn view(&self) -> WorkspaceInfoView {
        WorkspaceInfoView {
            id: self.id,
            idx: self.idx,
            name: opt_text(self.name),
            is_focused: self.is_focused,
        }
    }
}

impl Clone for WorkspaceInfo {
    fn clone(&self) -> (r: Self)
        ensures
            r@ == self@,
    {
        WorkspaceInfo {
            id: self.id,
            idx: self.idx,
            name: crate::config::clone_opt_string(&self.name),
            is_focused: self.is_focused,
        }
    }
}

/// Why a window could not be looked up.
#[derive(Debug, Clone, Copy, PartialEq, Eq, Structural)]
pub enum WindowError {
    /// No window has the focus.
    NoFocusedWindow,
    /// The focused window (this id) is not among the windows.
    NotFound(u64),
}

// ---------------------------------------------------------------------------
// Regular expressions
// ---------------------------------------------------------------------------

/// `regex::Regex`, a compiled regular expression.
#[verifier::external_type_specification]
#[verifier::external_body]
pub struct ExRegex(regex::Regex);

/// `regex::Error`, why a pattern does not compile.
#[verifier::external_type_specification]
#[verifier::external_body]
pub struct ExRegexError(regex::Error);

/// Whether `pattern` is a regular expression that `regex::Regex::new` accepts.
pub uninterp spec fn regex_is_valid(pattern: Seq<char>) -> bool;

/// Whether the regular expression `pattern` matches somewhere in `text`
/// (`regex::Regex::is_match`).
pub uninterp spec fn regex_matches(pattern: Seq<char>, text: Seq<char>) -> bool;

/// The characters that have a meaning in a regular expression and are escaped
/// to be matched literally (the meta characters of the regex syntax).
pub open spec fn is_meta_character(c: char) -> bool {
    c == '\\' || c == '.' || c == '+' || c == '*' || c == '?' || c == '(' || c == ')' || c == '|'
        || c == '[' || c == ']' || c == '{' || c == '}' || c == '^' || c == '$' || c == '#' || c
        == '&' || c == '-' || c == '~'
}

/// `text` with a backslash put before each meta character: the pattern that
/// matches `text` literally, as `regex::escape` writes it.
pub open spec fn regex_escape(text: Seq<char>) -> Seq<char>
    decreases text.len(),
{
    if text.len() == 0 {
        text
    } else {
        let c = text.last();
        regex_escape(text.drop_last()) + (if is_meta_character(c) {
            seq!['\\', c]
        } else {
            seq![c]
        })
    }
}

/// A regular expression together with the pattern it was compiled from. Only
/// `compile_pattern` builds one, so the two always belong together.
pub struct CompiledPattern {
    regex: regex::Regex,
    source: String,
}

impl View for CompiledPattern {
    type V = Seq<char>;

    /// The pattern the expression was compiled from.
    closed spec fn view(&self) -> Seq<char> {
        self.source@
    }
}

/// Calls `regex::Regex::new`. Claims that it succeeds exactly on the patterns
/// named valid, and that what it returns is the expression of `pattern`.
#[verifier::external_body]
fn compile_pattern(pattern: &str) -> (r: Result<CompiledPattern, regex::Error>)
    ensures
        r is Ok <==> regex_is_valid(pattern@),
        r matches Ok(c) ==> c@ == pattern@,
{
    match regex::Regex::new(pattern) {
        Ok(regex) => Ok(CompiledPattern { regex, source: pattern.to_string() }),
        Err(e) => Err(e),
    }
}

/// Calls `regex::Regex::is_match` on the expression compiled from `c@`.
/// Claims that the answer is the named match result of that pattern and text.
#[verifier::external_body]
fn pattern_is_match(c: &CompiledPattern, text: &str) -> (r: bool)
    ensures
        r == regex_matches(c@, text@),
{
    c.regex.is_match(text)
}

/// Escapes the regular-expression meta characters of `text`, so that the
/// result matches `text` literally (what `regex::escape` does).
pub fn escape_pattern(text: &str) -> (r: String)
    ensures
        r@ == regex_escape(text@),
{
    let n = text.unicode_len();
    let mut out = String::new();
    let mut i: usize = 0;
    proof {
        reveal_strlit("\\");
        assert(text@.take(0) =~= Seq::<char>::empty());
    }
    while i < n
        invariant
            n == text@.len(),
            i <= n,
            out@ == regex_escape(text@.take(i as int)),
            "\\"@ == seq!['\\'],
        decreases n - i,
    {
        let c = text.get_char(i);
        let one = text.substring_char(i, i + 1);
        assert(one@ =~= seq![c]);
        let ghost before = out@;
        if c == '\\' || c == '.' || c == '+' || c == '*' || c == '?' || c == '(' || c == ')' || c
            == '|' || c == '[' || c == ']' || c == '{' || c == '}' || c == '^' || c == '$' || c
            == '#' || c == '&' || c == '-' || c == '~' {
            out.append("\\");
        }
        out.append(one);
        proof {
            let t = text@.take(i + 1);
            assert(t.drop_last() =~= text@.take(i as int));
            assert(t.last() == c);
            if is_meta_character(c) {
                assert(out@ =~= before + seq!['\\', c]);
            } else {
                assert(out@ =~= before + seq![c]);
            }
        }
        i = i + 1;
    }
    assert(text@.take(n as int) =~= text@);
    out
}

/// A pattern that does not compile; holds the pattern.
#[derive(Debug, Clone)]
pub struct PatternError {
    pub pattern: String,
}

/// Matching a list of patterns against a text, in order: the first pattern
/// that does not compile is an error, the first that matches is a success,
/// and no match at all is `Ok(false)`.
pub open spec fn scan_patterns(patterns: Seq<Seq<char>>, text: Seq<char>) -> Result<bool, Seq<char>>
    decreases patterns.len(),
{
    if patterns.len() == 0 {
        Ok(false)
    } else if !regex_is_valid(patterns[0]) {
        Err(patterns[0])
    } else if regex_matches(patterns[0], text) {
        Ok(true)
    } else {
        scan_patterns(patterns.drop_first(), text)
    }
}

/// Patterns that are not given, or a text that is absent, match nothing.
pub open spec fn match_optional(patterns: Option<Seq<Seq<char>>>, text: Option<Seq<char>>) -> Result<
    bool,
    Seq<char>,
> {
    match (patterns, text) {
        (Some(p), Some(t)) => scan_patterns(p, t),
        _ => Ok(false),
    }
}

/// The outcome of a window matcher: the app_id patterns are tried first and
/// then the title patterns; the window matches if any pattern matches.
pub open spec fn matcher_result(
    app_id_patterns: Option<Seq<Seq<char>>>,
    title_patterns: Option<Seq<Seq<char>>>,
    app_id: Option<Seq<char>>,
    title: Option<Seq<char>>,
) -> Result<bool, Seq<char>> {
    match match_optional(app_id_patterns, app_id) {
        Ok(false) => match_optional(title_patterns, title),
        other => other,
    }
}

/// A pattern list given by reference, as character sequences.
pub open spec fn ref_patterns(p: Option<&Vec<String>>) -> Option<Seq<Seq<char>>> {
    match p {
        Some(v) => Some(strings_view(v@)),
        None => None,
    }
}

/// A text given by reference, as a character sequence.
pub open spec fn ref_text(t: Option<&String>) -> Option<Seq<char>> {
    match t {
        Some(v) => Some(v@),
        None => None,
    }
}

pub open spec fn pattern_result(r: Result<bool, PatternError>) -> Result<bool, Seq<char>> {
    match r {
        Ok(b) => Ok(b),
        Err(e) => Err(e.pattern@),
    }
}

/// Window matcher configuration for matching windows by app_id and/or title
#[derive(Debug, Clone)]
pub struct WindowMatcher {
    /// Optional regex patterns to match app_id (any one matches)
    pub app_id: Option<Vec<String>>,
    /// Optional regex patterns to match title (any one matches)
    pub title: Option<Vec<String>>,
}

impl WindowMatcher {
    /// Create a new window matcher
    pub fn new(app_id: Option<Vec<String>>, title: Option<Vec<String>>) -> (r: Self)
        ensures
            r.app_id == app_id,
            r.title == title,
    {
        Self { app_id, title }
    }
}

/// Window matcher with regex cache for efficient pattern matching
pub struct WindowMatcherCache {
    compiled: Vec<CompiledPattern>,
}

impl WindowMatcherCache {
    #[verifier::type_invariant]
    spec fn only_valid_patterns(&self) -> bool {
        forall|i: int| 0 <= i < self.compiled@.len() ==> regex_is_valid(#[trigger] self.compiled@[i]@)
    }

    /// The patterns compiled so far, in the order they were first met.
    pub closed spec fn cached_patterns(&self) -> Seq<Seq<char>> {
        self.compiled@.map_values(|c: CompiledPattern| c@)
    }

    /// Create a new window matcher cache
    pub fn new() -> (r: Self)
        ensures
            r.cached_patterns().len() == 0,
    {
        WindowMatcherCache { compiled: Vec::new() }
    }

    /// Whether `pattern` matches `text`, compiling the pattern at most once.
    pub fn pattern_matches(&mut self, pattern: &str, text: &str) -> (r: Result<bool, PatternError>)
        ensures
            r matches Ok(b) ==> regex_is_valid(pattern@) && b == regex_matches(pattern@, text@),
            r matches Err(e) ==> !regex_is_valid(pattern@) && e.pattern@ == pattern@,
            r is Ok ==> final(self).cached_patterns().contains(pattern@),
    {
        proof {
            use_type_invariant(&*self);
        }
        let n = self.compiled.len();
        let mut i: usize = 0;
        while i < n
            invariant
                n == self.compiled@.len(),
                i <= n,
                forall|j: int| 0 <= j < self.compiled@.len() ==> regex_is_valid(
                    #[trigger] self.compiled@[j]@,
                ),
            decreases n - i,
        {
            if same_text(self.compiled[i].source.as_str(), pattern) {
                assert(self.compiled@[i as int]@ == pattern@);
                assert(self.cached_patterns()[i as int] == pattern@);
                return Ok(pattern_is_match(&self.compiled[i], text));
            }
            i = i + 1;
        }
        match compile_pattern(pattern) {
            Ok(c) => {
                let b = pattern_is_match(&c, text);
                let mut compiled: Vec<CompiledPattern> = Vec::new();
                std::mem::swap(&mut compiled, &mut self.compiled);
                compiled.push(c);
                self.compiled = compiled;
                assert(self.cached_patterns().last() == pattern@);
                Ok(b)
            },
            Err(_) => Err(PatternError { pattern: String::from_str(pattern) }),
        }
    }

    /// Tries the patterns in order against `text` (see `scan_patterns`).
    pub fn scan(&mut self, patterns: &Vec<String>, text: &str) -> (r: Result<bool, PatternError>)
        ensures
            pattern_result(r) == scan_patterns(strings_view(patterns@), text@),
    {
        let n = patterns.len();
        let mut i: usize = 0;
        let ghost all = strings_view(patterns@);
        assert(all.skip(0) =~= all);
        while i < n
            invariant
                n == patterns@.len(),
                i <= n,
                all == strings_view(patterns@),
                scan_patterns(all, text@) == scan_patterns(all.skip(i as int), text@),
            decreases n - i,
        {
            let ghost rest = all.skip(i as int);
            assert(rest[0] == patterns@[i as int]@);
            assert(rest.drop_first() =~= all.skip(i + 1));
            match self.pattern_matches(patterns[i].as_str(), text) {
                Ok(true) => {
                    return Ok(true);
                },
                Ok(false) => {},
                Err(e) => {
                    return Err(e);
                },
            }
            i = i + 1;
        }
        assert(all.skip(n as int) =~= Seq::<Seq<char>>::empty());
        Ok(false)
    }

    fn scan_optional(&mut self, patterns: Option<&Vec<String>>, text: Option<&String>) -> (r: Result<
        bool,
        PatternError,
    >)
        ensures
            pattern_result(r) == match_optional(ref_patterns(patterns), ref_text(text)),
    {
        match (patterns, text) {
            (Some(p), Some(t)) => self.scan(p, t.as_str()),
            _ => Ok(false),
        }
    }

    /// The matcher outcome for the given app_id and title patterns.
    pub fn matches_patterns(
        &mut self,
        window_app_id: Option<&String>,
        window_title: Option<&String>,
        app_id_patterns: Option<&Vec<String>>,
        title_patterns: Option<&Vec<String>>,
    ) -> (r: Result<bool, PatternError>)
        ensures
            pattern_result(r) == matcher_result(
                ref_patterns(app_id_patterns),
                ref_patterns(title_patterns),
                ref_text(window_app_id),
                ref_text(window_title),
            ),
    {
        let a = self.scan_optional(app_id_patterns, window_app_id);
        match a {
            Ok(false) => self.scan_optional(title_patterns, window_title),
            other => other,
        }
    }

    /// Check if a window matches the matcher criteria
    /// Returns true if any app_id pattern matches (when given) or any title
    /// pattern matches (when given); an invalid pattern met on the way is an
    /// error.
    pub fn matches(
        &mut self,
        window_app_id: Option<&String>,
        window_title: Option<&String>,
        matcher: &WindowMatcher,
    ) -> (r: Result<bool, PatternError>)
        ensures
            pattern_result(r) == matcher_result(
                patterns_view(matcher.app_id),
                patterns_view(matcher.title),
                ref_text(window_app_id),
                ref_text(window_title),
            ),
    {
        self.matches_patterns(window_app_id, window_title, matcher.app_id.as_ref(), matcher.title.as_ref())
    }

    /// Clear the regex cache (useful when config changes)
    pub fn clear_cache(&mut self)
        ensures
            final(self).cached_patterns().len() == 0,
    {
        self.compiled = Vec::new();
    }
}

impl Default for WindowMatcherCache {
    fn default() -> (r: Self)
        ensures
            r.cached_patterns().len() == 0,
    {
        Self::new()
    }
}

// ---------------------------------------------------------------------------
// Looking windows and workspaces up
// ---------------------------------------------------------------------------

/// The focused window: the first of `windows` whose id is the focused id.
pub fn get_focused_window(focused_window_id: Option<u64>, windows: &Vec<Window>) -> (r: Result<
    Window,
    WindowError,
>)
    ensures
        focused_window_id is None ==> r == Err::<Window, WindowError>(WindowError::NoFocusedWindow),
        focused_window_id matches Some(id) ==> match r {
            Ok(w) => exists|i: int|
                0 <= i < windows@.len() && #[trigger] windows@[i].id == id && w@ == windows@[i]@
                    && forall|j: int| 0 <= j < i ==> windows@[j].id != id,
            Err(e) => e == WindowError::NotFound(id) && forall|i: int|
                0 <= i < windows@.len() ==> #[trigger] windows@[i].id != id,
        },
{
    let id = match focused_window_id {
        Some(id) => id,
        None => {
            return Err(WindowError::NoFocusedWindow);
        },
    };
    let mut i: usize = 0;
    while i < windows.len()
        invariant
            focused_window_id == Some(id),
            i <= windows@.len(),
            forall|j: int| 0 <= j < i ==> windows@[j].id != id,
        decreases windows@.len() - i,
    {
        if windows[i].id == id {
            let w = windows[i].clone();
            assert(windows@[i as int].id == id);
            return Ok(w);
        }
        i = i + 1;
    }
    Err(WindowError::NotFound(id))
}

/// Check if a window exists by window_id
pub fn window_exists(windows: &Vec<Window>, window_id: u64) -> (r: bool)
    ensures
        r == exists|i: int| 0 <= i < windows@.len() && #[trigger] windows@[i].id == window_id,
{
    let mut i: usize = 0;
    while i < windows.len()
        invariant
            i <= windows@.len(),
            forall|j: int| 0 <= j < i ==> windows@[j].id != window_id,
        decreases windows@.len() - i,
    {
        if windows[i].id == window_id {
            return true;
        }
        i = i + 1;
    }
    false
}

/// No window is on the workspace.
pub fn is_workspace_empty(windows: &Vec<Window>, workspace_id: u64) -> (r: bool)
    ensures
        r == forall|i: int|
            0 <= i < windows@.len() ==> #[trigger] windows@[i].workspace_id != Some(workspace_id),
{
    let mut i: usize = 0;
    while i < windows.len()
        invariant
            i <= windows@.len(),
            forall|j: int| 0 <= j < i ==> windows@[j].workspace_id != Some(workspace_id),
        decreases windows@.len() - i,
    {
        if windows[i].workspace_id == Some(workspace_id) {
            return false;
        }
        i = i + 1;
    }
    true
}

/// The workspace with this id, if it is the focused one.
pub fn get_focused_workspace_from_event(workspaces: &Vec<WorkspaceInfo>, workspace_id: u64) -> (r:
    Option<WorkspaceInfo>)
    ensures
        match r {
            Some(ws) => exists|i: int|
                0 <= i < workspaces@.len() && #[trigger] workspaces@[i].id == workspace_id
                    && workspaces@[i].is_focused && ws@ == workspaces@[i]@ && forall|j: int|
                    0 <= j < i ==> !(workspaces@[j].is_focused && workspaces@[j].id == workspace_id),
            None => forall|i: int|
                0 <= i < workspaces@.len() ==> !(workspaces@[i].is_focused && #[trigger] workspaces@[i].id
                    == workspace_id),
        },
{
    let mut i: usize = 0;
    while i < workspaces.len()
        invariant
            i <= workspaces@.len(),
            forall|j: int|
                0 <= j < i ==> !(workspaces@[j].is_focused && workspaces@[j].id == workspace_id),
        decreases workspaces@.len() - i,
    {
        if workspaces[i].is_focused && workspaces[i].id == workspace_id {
            return Some(workspaces[i].clone());
        }
        i = i + 1;
    }
    None
}

/// How a workspace is referred to by name: its name, or else its index.
pub open spec fn workspace_label(ws: WorkspaceInfoView) -> Seq<char> {
    match ws.name {
        Some(n) => n,
        None => decimal(ws.idx as nat),
    }
}

fn label_of(ws: &WorkspaceInfo) -> (r: String)
    ensures
        r@ == workspace_label(ws@),
{
    match &ws.name {
        Some(n) => n.clone(),
        None => to_decimal(ws.idx as u64),
    }
}

/// Match workspace by exact name or idx
/// Returns the workspace identifier (name if available, otherwise idx as string)
/// Matching order: 1. exact name match, 2. exact idx match
pub fn match_workspace(target_workspace: &str, workspaces: &Vec<WorkspaceInfo>) -> (r: Option<
    String,
>)
    ensures
        (exists|i: int|
            0 <= i < workspaces@.len() && #[trigger] workspaces@[i]@.name == Some(
                target_workspace@,
            )) ==> opt_text(r) == Some(target_workspace@),
        !(exists|i: int|
            0 <= i < workspaces@.len() && #[trigger] workspaces@[i]@.name == Some(
                target_workspace@,
            )) ==> match parse_unsigned_spec(target_workspace@, 255) {
            Some(idx) => match r {
                Some(label) => exists|i: int|
                    0 <= i < workspaces@.len() && #[trigger] workspaces@[i].idx == idx && label@
                        == workspace_label(workspaces@[i]@) && forall|j: int|
                        0 <= j < i ==> workspaces@[j].idx != idx,
                None => forall|i: int|
                    0 <= i < workspaces@.len() ==> #[trigger] workspaces@[i].idx != idx,
            },
            None => r is None,
        },
{
    // First pass: exact name match
    let mut i: usize = 0;
    while i < workspaces.len()
        invariant
            i <= workspaces@.len(),
            forall|j: int| 0 <= j < i ==> workspaces@[j]@.name != Some(target_workspace@),
        decreases workspaces@.len() - i,
    {
        match &workspaces[i].name {
            Some(name) => {
                if same_text(name.as_str(), target_workspace) {
                    assert(workspaces@[i as int]@.name == Some(target_workspace@));
                    return Some(name.clone());
                }
            },
            None => {},
        }
        i = i + 1;
    }
    // Second pass: exact idx match
    match parse_unsigned(target_workspace, 255) {
        Some(target_idx) => {
            let mut k: usize = 0;
            while k < workspaces.len()
                invariant
                    k <= workspaces@.len(),
                    target_idx <= 255,
                    parse_unsigned_spec(target_workspace@, 255) == Some(target_idx as nat),
                    forall|j: int|
                        0 <= j < workspaces@.len() ==> workspaces@[j]@.name != Some(
                            target_workspace@,
                        ),
                    forall|j: int| 0 <= j < k ==> workspaces@[j].idx != target_idx,
                decreases workspaces@.len() - k,
            {
                if workspaces[k].idx as u64 == target_idx {
                    let label = label_of(&workspaces[k]);
                    assert(workspaces@[k as int].idx == target_idx);
                    return Some(label);
                }
                k = k + 1;
            }
            None
        },
        None => None,
    }
}

/// Check if a window is in the current workspace
pub fn is_window_in_workspace(window: &Window, workspace: &Workspace) -> (r: bool)
    ensures
        r == match (window.workspace, window.workspace_id) {
            (Some(ws), _) => ws@ == workspace.name@,
            (None, Some(id)) => decimal(id as nat) == workspace.name@,
            _ => false,
        },
{
    match (&window.workspace, &window.workspace_id) {
        (Some(ws), _) => same_text(ws.as_str(), workspace.name.as_str()),
        (_, Some(ws_id)) => {
            let text = to_decimal(*ws_id);
            same_text(text.as_str(), workspace.name.as_str())
        },
        _ => false,
    }
}

// ---------------------------------------------------------------------------
// Matching windows
// ---------------------------------------------------------------------------


/// The outcome of `matches_window`: an exclude pattern that matches rules the
/// window out (app_id excludes are tried before title excludes); with no
/// include patterns every other window matches; otherwise the include
/// patterns decide, as a window matcher does. An invalid pattern met on the
/// way is an error.
pub open spec fn window_match_result(
    window: WindowView,
    app_id_patterns: Option<Seq<Seq<char>>>,
    title_patterns: Option<Seq<Seq<char>>>,
    exclude_app_id_patterns: Option<Seq<Seq<char>>>,
    exclude_title_patterns: Option<Seq<Seq<char>>>,
) -> Result<bool, Seq<char>> {
    match matcher_result(exclude_app_id_patterns, None, window.app_id, Some(window.title)) {
        Err(e) => Err(e),
        Ok(true) => Ok(false),
        Ok(false) => match matcher_result(None, exclude_title_patterns, window.app_id, Some(window.title)) {
            Err(e) => Err(e),
            Ok(true) => Ok(false),
            Ok(false) => if app_id_patterns is None && title_patterns is None {
                Ok(true)
            } else {
                matcher_result(app_id_patterns, title_patterns, window.app_id, Some(window.title))
            },
        },
    }
}

/// Check if a window matches the given matcher (with optional exclude patterns)
/// This is a generic window matching function that supports both include and exclude patterns
pub fn matches_window(
    window: &Window,
    app_id_patterns: Option<&Vec<String>>,
    title_patterns: Option<&Vec<String>>,
    exclude_app_id_patterns: Option<&Vec<String>>,
    exclude_title_patterns: Option<&Vec<String>>,
    matcher_cache: &mut WindowMatcherCache,
) -> (r: Result<bool, PatternError>)
    ensures
        pattern_result(r) == window_match_result(
            window@,
            ref_patterns(app_id_patterns),
            ref_patterns(title_patterns),
            ref_patterns(exclude_app_id_patterns),
            ref_patterns(exclude_title_patterns),
        ),
{
    // First check exclude rules
    match exclude_app_id_patterns {
        Some(patterns) => match &window.app_id {
            Some(app_id) => match matcher_cache.scan(patterns, app_id.as_str()) {
                Ok(true) => {
                    return Ok(false);
                },
                Ok(false) => {},
                Err(e) => {
                    return Err(e);
                },
            },
            None => {},
        },
        None => {},
    }
    match exclude_title_patterns {
        Some(patterns) => match matcher_cache.scan(patterns, window.title.as_str()) {
            Ok(true) => {
                return Ok(false);
            },
            Ok(false) => {},
            Err(e) => {
                return Err(e);
            },
        },
        None => {},
    }
    // If no include patterns specified, match all (unless excluded)
    if app_id_patterns.is_none() && title_patterns.is_none() {
        return Ok(true);
    }
    // Check include patterns
    let a = match (app_id_patterns, &window.app_id) {
        (Some(patterns), Some(app_id)) => matcher_cache.scan(patterns, app_id.as_str()),
        _ => Ok(false),
    };
    match a {
        Ok(false) => match title_patterns {
            Some(patterns) => matcher_cache.scan(patterns, window.title.as_str()),
            None => Ok(false),
        },
        other => other,
    }
}

/// An exclude pattern that matches the window rules it out, whatever the
/// include patterns say.
pub proof fn law_exclusion_takes_precedence(
    window: WindowView,
    app_id_patterns: Option<Seq<Seq<char>>>,
    title_patterns: Option<Seq<Seq<char>>>,
    exclude_app_id_patterns: Option<Seq<Seq<char>>>,
    exclude_title_patterns: Option<Seq<Seq<char>>>,
)
    requires
        match_optional(exclude_app_id_patterns, window.app_id) == Ok::<bool, Seq<char>>(true)
            || (match_optional(exclude_app_id_patterns, window.app_id) == Ok::<bool, Seq<char>>(
            false) && match_optional(exclude_title_patterns, Some(window.title)) == Ok::<
            bool,
            Seq<char>,
        >(true)),
    ensures
        window_match_result(
            window,
            app_id_patterns,
            title_patterns,
            exclude_app_id_patterns,
            exclude_title_patterns,
        ) == Ok::<bool, Seq<char>>(false),
{
}

/// With several patterns, a text is matched when any one of them matches
/// (and every pattern before it compiles).
pub proof fn law_any_pattern_matches(patterns: Seq<Seq<char>>, text: Seq<char>, k: int)
    requires
        0 <= k < patterns.len(),
        forall|i: int| 0 <= i <= k ==> regex_is_valid(#[trigger] patterns[i]),
        regex_matches(patterns[k], text),
    ensures
        scan_patterns(patterns, text) == Ok::<bool, Seq<char>>(true),
    decreases k,
{
    if k > 0 && !regex_matches(patterns[0], text) {
        let rest = patterns.drop_first();
        assert forall|i: int| 0 <= i <= k - 1 implies regex_is_valid(#[trigger] rest[i]) by {
            assert(rest[i] == patterns[i + 1]);
        }
        law_any_pattern_matches(rest, text, k - 1);
    }
}

/// A matcher with app_id and title patterns accepts a window when either side
/// matches (OR logic), once the patterns of both sides compile.
pub proof fn law_app_id_or_title(
    app_id_patterns: Option<Seq<Seq<char>>>,
    title_patterns: Option<Seq<Seq<char>>>,
    app_id: Option<Seq<char>>,
    title: Option<Seq<char>>,
)
    requires
        match_optional(app_id_patterns, app_id) is Ok,
        match_optional(title_patterns, title) is Ok,
    ensures
        matcher_result(app_id_patterns, title_patterns, app_id, title) == Ok::<bool, Seq<char>>(
            match_optional(app_id_patterns, app_id) == Ok::<bool, Seq<char>>(true)
                || match_optional(title_patterns, title) == Ok::<bool, Seq<char>>(true),
        ),
{
    let a = match_optional(app_id_patterns, app_id);
    let t = match_optional(title_patterns, title);
    assert(a == Ok::<bool, Seq<char>>(a->Ok_0));
    assert(t == Ok::<bool, Seq<char>>(t->Ok_0));
}

/// Every pattern of the list, if it is given, is a regular expression that
/// compiles.
pub open spec fn patterns_valid(patterns: Option<Seq<Seq<char>>>) -> bool {
    match patterns {
        Some(p) => forall|i: int| 0 <= i < p.len() ==> regex_is_valid(#[trigger] p[i]),
        None => true,
    }
}

/// Some pattern of the list matches the text (both given).
pub open spec fn some_pattern_matches(patterns: Option<Seq<Seq<char>>>, text: Option<Seq<char>>) -> bool {
    match (patterns, text) {
        (Some(p), Some(t)) => exists|i: int| 0 <= i < p.len() && #[trigger] regex_matches(p[i], t),
        _ => false,
    }
}

proof fn lemma_scan_valid(patterns: Seq<Seq<char>>, text: Seq<char>)
    requires
        forall|i: int| 0 <= i < patterns.len() ==> regex_is_valid(#[trigger] patterns[i]),
    ensures
        scan_patterns(patterns, text) == Ok::<bool, Seq<char>>(
            exists|i: int| 0 <= i < patterns.len() && #[trigger] regex_matches(patterns[i], text),
        ),
    decreases patterns.len(),
{
    if patterns.len() > 0 {
        let rest = patterns.drop_first();
        assert forall|i: int| 0 <= i < rest.len() implies regex_is_valid(#[trigger] rest[i]) by {
            assert(rest[i] == patterns[i + 1]);
        }
        lemma_scan_valid(rest, text);
        assert(regex_is_valid(patterns[0]));
        if regex_matches(patterns[0], text) {
        } else {
            if exists|i: int| 0 <= i < patterns.len() && #[trigger] regex_matches(patterns[i], text) {
                let i = choose|i: int| 0 <= i < patterns.len() && #[trigger] regex_matches(patterns[i], text);
                assert(rest[i - 1] == patterns[i]);
            }
            if exists|i: int| 0 <= i < rest.len() && #[trigger] regex_matches(rest[i], text) {
                let i = choose|i: int| 0 <= i < rest.len() && #[trigger] regex_matches(rest[i], text);
                assert(rest[i] == patterns[i + 1]);
            }
        }
    }
}

/// A window matcher whose patterns all compile accepts a window exactly
/// when one of its app_id patterns matches the window's app_id or one of its
/// title patterns matches the window's title.
pub proof fn law_matcher_accepts_on_any_match(
    app_id_patterns: Option<Seq<Seq<char>>>,
    title_patterns: Option<Seq<Seq<char>>>,
    app_id: Option<Seq<char>>,
    title: Option<Seq<char>>,
)
    requires
        patterns_valid(app_id_patterns),
        patterns_valid(title_patterns),
    ensures
        matcher_result(app_id_patterns, title_patterns, app_id, title) == Ok::<bool, Seq<char>>(
            some_pattern_matches(app_id_patterns, app_id) || some_pattern_matches(
                title_patterns,
                title,
            ),
        ),
{
    if let (Some(p), Some(t)) = (app_id_patterns, app_id) {
        lemma_scan_valid(p, t);
    }
    if let (Some(p), Some(t)) = (title_patterns, title) {
        lemma_scan_valid(p, t);
    }
}

/// Finding the first window that a matcher accepts, from index `i` on.
pub open spec fn first_matching_window(
    windows: Seq<WindowView>,
    app_id_patterns: Option<Seq<Seq<char>>>,
    title_patterns: Option<Seq<Seq<char>>>,
    i: int,
) -> Result<Option<int>, Seq<char>>
    decreases windows.len() - i,
{
    if i < 0 || i >= windows.len() {
        Ok(None)
    } else {
        match matcher_result(
            app_id_patterns,
            title_patterns,
            windows[i].app_id,
            Some(windows[i].title),
        ) {
            Err(e) => Err(e),
            Ok(true) => Ok(Some(i)),
            Ok(false) => first_matching_window(windows, app_id_patterns, title_patterns, i + 1),
        }
    }
}

pub open spec fn windows_view(ws: Seq<Window>) -> Seq<WindowView> {
    ws.map_values(|w: Window| w@)
}

/// Find a window using WindowMatcher (regex-based matching): the first window
/// that the matcher accepts.
pub fn find_window_by_matcher(
    windows: &Vec<Window>,
    matcher: &WindowMatcher,
    matcher_cache: &mut WindowMatcherCache,
) -> (r: Result<Option<Window>, PatternError>)
    ensures
        match (r, first_matching_window(
            windows_view(windows@),
            patterns_view(matcher.app_id),
            patterns_view(matcher.title),
            0,
        )) {
            (Ok(Some(w)), Ok(Some(i))) => w@ == windows@[i]@,
            (Ok(None), Ok(None)) => true,
            (Err(e), Err(p)) => e.pattern@ == p,
            _ => false,
        },
{
    let ghost ws = windows_view(windows@);
    let mut i: usize = 0;
    while i < windows.len()
        invariant
            i <= windows@.len(),
            ws == windows_view(windows@),
            first_matching_window(ws, patterns_view(matcher.app_id), patterns_view(matcher.title), 0)
                == first_matching_window(
                ws,
                patterns_view(matcher.app_id),
                patterns_view(matcher.title),
                i as int,
            ),
        decreases windows@.len() - i,
    {
        assert(ws[i as int] == windows@[i as int]@);
        match matcher_cache.matches(windows[i].app_id.as_ref(), Some(&windows[i].title), matcher) {
            Ok(true) => {
                return Ok(Some(windows[i].clone()));
            },
            Ok(false) => {},
            Err(e) => {
                return Err(e);
            },
        }
        i = i + 1;
    }
    Ok(None)
}

/// The characters that make `wait_for_window` treat its argument as a regular
/// expression rather than a literal name.
pub open spec fn is_pattern_syntax(c: char) -> bool {
    c == '.' || c == '+' || c == '*' || c == '?' || c == '[' || c == ']' || c == '(' || c == ')'
}

/// The pattern that waiting for a window uses: the text itself when it holds
/// regular-expression syntax, and the text escaped otherwise.
pub fn window_match_pattern(window_match: &str) -> (r: String)
    ensures
        (exists|i: int| 0 <= i < window_match@.len() && is_pattern_syntax(#[trigger] window_match@[i]))
            ==> r@ == window_match@,
        !(exists|i: int|
            0 <= i < window_match@.len() && is_pattern_syntax(#[trigger] window_match@[i]))
            ==> r@ == regex_escape(window_match@),
{
    let n = window_match.unicode_len();
    let mut i: usize = 0;
    while i < n
        invariant
            n == window_match@.len(),
            i <= n,
            forall|j: int| 0 <= j < i ==> !is_pattern_syntax(#[trigger] window_match@[j]),
        decreases n - i,
    {
        let c = window_match.get_char(i);
        if c == '.' || c == '+' || c == '*' || c == '?' || c == '[' || c == ']' || c == '(' || c
            == ')' {
            assert(is_pattern_syntax(window_match@[i as int]));
            return String::from_str(window_match);
        }
        i = i + 1;
    }
    escape_pattern(window_match)
}

// ---------------------------------------------------------------------------
// Scratchpad geometry
// ---------------------------------------------------------------------------

/// The sizes for which `calculate_position` stays within `u32` arithmetic.
pub open spec fn position_fits(
    direction: Direction,
    output_width: u32,
    output_height: u32,
    window_width: u32,
    window_height: u32,
    margin: u32,
) -> bool {
    match direction {
        Direction::FromTop => window_width <= output_width,
        Direction::FromBottom => window_width <= output_width && window_height + margin
            <= output_height,
        Direction::FromLeft => window_height <= output_height,
        Direction::FromRight => window_height <= output_height && window_width + margin
            <= output_width,
    }
}

/// The visible position of a scratchpad: centred along the edge it comes from,
/// `margin` away from that edge.
pub open spec fn visible_position(
    direction: Direction,
    output_width: u32,
    output_height: u32,
    window_width: u32,
    window_height: u32,
    margin: u32,
) -> (i32, i32) {
    match direction {
        Direction::FromTop => (((output_width - window_width) / 2) as i32, margin as i32),
        Direction::FromBottom => (
            ((output_width - window_width) / 2) as i32,
            (output_height - window_height - margin) as i32,
        ),
        Direction::FromLeft => (margin as i32, ((output_height - window_height) / 2) as i32),
        Direction::FromRight => (
            (output_width - window_width - margin) as i32,
            ((output_height - window_height) / 2) as i32,
        ),
    }
}

/// Calculate position based on direction (for visible positions)
/// Returns (x, y) coordinates
pub fn calculate_position(
    direction: Direction,
    output_width: u32,
    output_height: u32,
    window_width: u32,
    window_height: u32,
    margin: u32,
) -> (r: (i32, i32))
    requires
        position_fits(direction, output_width, output_height, window_width, window_height, margin),
    ensures
        r == visible_position(
            direction,
            output_width,
            output_height,
            window_width,
            window_height,
            margin,
        ),
{
    match direction {
        Direction::FromTop => {
            let x = ((output_width - window_width) / 2) as i32;
            let y = margin as i32;
            (x, y)
        },
        Direction::FromBottom => {
            let x = ((output_width - window_width) / 2) as i32;
            let y = (output_height - window_height - margin) as i32;
            (x, y)
        },
        Direction::FromLeft => {
            let x = margin as i32;
            let y = ((output_height - window_height) / 2) as i32;
            (x, y)
        },
        Direction::FromRight => {
            let x = (output_width - window_width - margin) as i32;
            let y = ((output_height - window_height) / 2) as i32;
            (x, y)
        },
    }
}

/// The signed distance of a window at (x, y) from the edge it comes from.
pub open spec fn edge_distance(
    direction: Direction,
    output_width: u32,
    output_height: u32,
    window_width: u32,
    window_height: u32,
    x: i32,
    y: i32,
) -> int {
    match direction {
        Direction::FromTop => y as int,
        Direction::FromBottom => (output_height as i32) - (window_height as i32) - y,
        Direction::FromLeft => x as int,
        Direction::FromRight => (output_width as i32) - (window_width as i32) - x,
    }
}

/// The positions for which `extract_margin` stays within `i32` arithmetic.
pub open spec fn margin_fits(
    direction: Direction,
    output_width: u32,
    output_height: u32,
    window_width: u32,
    window_height: u32,
    x: i32,
    y: i32,
) -> bool {
    match direction {
        Direction::FromBottom => i32::MIN <= (output_height as i32) - (window_height as i32)
            <= i32::MAX && i32::MIN <= (output_height as i32) - (window_height as i32) - y
            <= i32::MAX,
        Direction::FromRight => i32::MIN <= (output_width as i32) - (window_width as i32)
            <= i32::MAX && i32::MIN <= (output_width as i32) - (window_width as i32) - x
            <= i32::MAX,
        _ => true,
    }
}

/// Extract margin from current position based on direction: the distance from
/// the edge the scratchpad comes from, or 0 when it lies beyond that edge.
pub fn extract_margin(
    direction: Direction,
    output_width: u32,
    output_height: u32,
    window_width: u32,
    window_height: u32,
    x: i32,
    y: i32,
) -> (r: u32)
    requires
        margin_fits(direction, output_width, output_height, window_width, window_height, x, y),
    ensures
        ({
            let d = edge_distance(
                direction,
                output_width,
                output_height,
                window_width,
                window_height,
                x,
                y,
            );
            r == (if d < 0 {
                0
            } else {
                d
            })
        }),
{
    let margin = match direction {
        Direction::FromTop => y,
        Direction::FromBottom => output_height as i32 - window_height as i32 - y,
        Direction::FromLeft => x,
        Direction::FromRight => output_width as i32 - window_width as i32 - x,
    };
    if margin < 0 {
        0
    } else {
        margin as u32
    }
}

/// The sizes for which `calculate_hide_position` stays within its arithmetic.
pub open spec fn hide_position_fits(
    direction: Direction,
    output_width: u32,
    output_height: u32,
    window_width: u32,
    window_height: u32,
    margin: u32,
) -> bool {
    match direction {
        Direction::FromTop => window_width <= output_width && window_height + margin <= u32::MAX
            && ((window_height + margin) as i32) != i32::MIN,
        Direction::FromBottom => window_width <= output_width && output_height + margin <= u32::MAX,
        Direction::FromLeft => window_height <= output_height && window_width + margin <= u32::MAX
            && ((window_width + margin) as i32) != i32::MIN,
        Direction::FromRight => window_height <= output_height && output_width + margin
            <= u32::MAX,
    }
}

/// The hidden position of a scratchpad: beyond the edge it comes from, a
/// margin away, centred along that edge.
pub open spec fn hidden_position(
    direction: Direction,
    output_width: u32,
    output_height: u32,
    window_width: u32,
    window_height: u32,
    margin: u32,
) -> (i32, i32) {
    match direction {
        Direction::FromTop => (
            ((output_width - window_width) / 2) as i32,
            -(((window_height + margin) as i32) as int) as i32,
        ),
        Direction::FromBottom => (
            ((output_width - window_width) / 2) as i32,
            (output_height + margin) as i32,
        ),
        Direction::FromLeft => (
            -(((window_width + margin) as i32) as int) as i32,
            ((output_height - window_height) / 2) as i32,
        ),
        Direction::FromRight => (
            (output_width + margin) as i32,
            ((output_height - window_height) / 2) as i32,
        ),
    }
}

/// Calculate off-screen position based on direction (for hidden positions)
/// Returns (x, y) coordinates where window is completely outside the screen
pub fn calculate_hide_position(
    direction: Direction,
    output_width: u32,
    output_height: u32,
    window_width: u32,
    window_height: u32,
    margin: u32,
) -> (r: (i32, i32))
    requires
        hide_position_fits(
            direction,
            output_width,
            output_height,
            window_width,
            window_height,
            margin,
        ),
    ensures
        r == hidden_position(
            direction,
            output_width,
            output_height,
            window_width,
            window_height,
            margin,
        ),
{
    match direction {
        Direction::FromTop => {
            let x = ((output_width - window_width) / 2) as i32;
            let y = -((window_height + margin) as i32);
            (x, y)
        },
        Direction::FromBottom => {
            let x = ((output_width - window_width) / 2) as i32;
            let y = (output_height + margin) as i32;
            (x, y)
        },
        Direction::FromLeft => {
            let x = -((window_width + margin) as i32);
            let y = ((output_height - window_height) / 2) as i32;
            (x, y)
        },
        Direction::FromRight => {
            let x = (output_width + margin) as i32;
            let y = ((output_height - window_height) / 2) as i32;
            (x, y)
        },
    }
}

/// A scratchpad placed at its visible position is found again at the margin
/// it was placed with: the margin a user leaves it at is the margin kept.
pub proof fn law_margin_round_trip(
    direction: Direction,
    output_width: u32,
    output_height: u32,
    window_width: u32,
    window_height: u32,
    margin: u32,
)
    requires
        position_fits(direction, output_width, output_height, window_width, window_height, margin),
        output_width <= i32::MAX,
        output_height <= i32::MAX,
        margin <= i32::MAX,
    ensures
        ({
            let p = visible_position(
                direction,
                output_width,
                output_height,
                window_width,
                window_height,
                margin,
            );
            &&& margin_fits(
                direction,
                output_width,
                output_height,
                window_width,
                window_height,
                p.0,
                p.1,
            )
            &&& edge_distance(
                direction,
                output_width,
                output_height,
                window_width,
                window_height,
                p.0,
                p.1,
            ) == margin
        }),
{
}

/// A hidden scratchpad lies entirely outside the output, beyond the edge it
/// comes from.
pub proof fn law_hidden_position_is_off_screen(
    direction: Direction,
    output_width: u32,
    output_height: u32,
    window_width: u32,
    window_height: u32,
    margin: u32,
)
    requires
        hide_position_fits(
            direction,
            output_width,
            output_height,
            window_width,
            window_height,
            margin,
        ),
        window_width + margin <= i32::MAX,
        window_height + margin <= i32::MAX,
        output_width + margin <= i32::MAX,
        output_height + margin <= i32::MAX,
    ensures
        ({
            let p = hidden_position(
                direction,
                output_width,
                output_height,
                window_width,
                window_height,
                margin,
            );
            match direction {
                Direction::FromTop => p.1 + window_height <= 0,
                Direction::FromBottom => p.1 >= output_height,
                Direction::FromLeft => p.0 + window_width <= 0,
                Direction::FromRight => p.0 >= output_width,
            }
        }),
{
}

/// The relative move that takes a window from (current_x, current_y) to
/// (target_x, target_y).
pub fn relative_movement(current_x: i32, current_y: i32, target_x: i32, target_y: i32) -> (r: (
    i32,
    i32,
))
    requires
        i32::MIN <= target_x - current_x <= i32::MAX,
        i32::MIN <= target_y - current_y <= i32::MAX,
    ensures
        r.0 == target_x - current_x,
        r.1 == target_y - current_y,
{
    (target_x - current_x, target_y - current_y)
}

// ---------------------------------------------------------------------------
// Programmatic focus changes
// ---------------------------------------------------------------------------

/// How long after a programmatic focus change focus events are ignored.
pub const PROGRAMMATIC_FOCUS_WINDOW_MS: u64 = 500;

/// Whether a focus change `elapsed_millis` after the start of a programmatic
/// focus change (if one was marked) belongs to it.
pub fn focus_change_is_programmatic(elapsed_millis: Option<u128>) -> (r: bool)
    ensures
        r == (elapsed_millis matches Some(e) && e < PROGRAMMATIC_FOCUS_WINDOW_MS),
{
    match elapsed_millis {
        Some(e) => e < PROGRAMMATIC_FOCUS_WINDOW_MS as u128,
        None => false,
    }
}

/// Whether a focus change at clock reading `now` (nanoseconds) belongs to the
/// programmatic focus change that started at reading `start`, if one did:
/// less than 500 whole milliseconds have passed since it (the time saturates
/// at zero).
pub open spec fn within_programmatic_focus(start: Option<u128>, now: u128) -> bool {
    match start {
        None => false,
        Some(s) => elapsed_nanos(s, now) / 1_000_000 < PROGRAMMATIC_FOCUS_WINDOW_MS,
    }
}

/// Tracks programmatic focus changes (e.g., from auto_fill), so that
/// window_rule does not run focus commands for them. Clock readings are kept
/// as nanoseconds since the tracker was made.
pub struct ProgrammaticFocus {
    /// The clock reading all times of this tracker are measured from.
    origin: Instant,
    /// The reading at the start of the last programmatic focus change.
    start: Option<u128>,
    /// The reading taken by the last mark or check, if any.
    last_reading: Ghost<Option<u128>>,
}

impl ProgrammaticFocus {
    /// The clock reading at the start of the last programmatic focus change.
    pub closed spec fn start(&self) -> Option<u128> {
        self.start
    }

    /// The clock reading taken by the last mark or check, if any.
    pub closed spec fn last_reading(&self) -> Option<u128> {
        self.last_reading@
    }

    pub fn new() -> (r: Self)
        ensures
            r.start() is None,
            r.last_reading() is None,
    {
        ProgrammaticFocus { origin: instant_now(), start: None, last_reading: Ghost(None) }
    }

    /// The current clock reading, in nanoseconds since the tracker was made.
    fn reading(&self) -> u128 {
        let now = instant_now();
        let since = instant_duration_since(&now, &self.origin);
        duration_as_nanos(&since)
    }

    /// Mark that a programmatic focus change is starting: the clock reading
    /// taken now becomes the start.
    pub fn mark_programmatic_focus_start(&mut self)
        ensures
            final(self).last_reading() is Some,
            final(self).start() == final(self).last_reading(),
    {
        let now = self.reading();
        self.start = Some(now);
        self.last_reading = Ghost(Some(now));
    }

    /// Check if a focus change should be ignored (happened during a
    /// programmatic operation): the clock reading taken now is less than
    /// 500 ms after the last mark.
    pub fn should_ignore_focus_change(&mut self) -> (r: bool)
        ensures
            final(self).start() == old(self).start(),
            final(self).last_reading() is Some,
            r == within_programmatic_focus(old(self).start(), final(self).last_reading()->0),
    {
        let now = self.reading();
        self.last_reading = Ghost(Some(now));
        let elapsed = match self.start {
            Some(start) => {
                let e: u128 = if now >= start {
                    now - start
                } else {
                    0
                };
                Some(e / 1_000_000)
            },
            None => None,
        };
        focus_change_is_programmatic(elapsed)
    }
}

// ---------------------------------------------------------------------------
// Windows by process id
// ---------------------------------------------------------------------------

/// `ids` without any occurrence of `id`, order kept.
pub open spec fn without(ids: Seq<u64>, id: u64) -> Seq<u64>
    decreases ids.len(),
{
    if ids.len() == 0 {
        ids
    } else if ids.last() == id {
        without(ids.drop_last(), id)
    } else {
        without(ids.drop_last(), id).push(ids.last())
    }
}

proof fn lemma_push_contains<A>(s: Seq<A>, a: A, x: A)
    ensures
        s.push(a).contains(x) <==> (s.contains(x) || a == x),
{
    if s.push(a).contains(x) {
        let k = choose|k: int| 0 <= k < s.push(a).len() && s.push(a)[k] == x;
        if k < s.len() {
            assert(s[k] == x);
        }
    }
    if s.contains(x) {
        let k = choose|k: int| 0 <= k < s.len() && s[k] == x;
        assert(s.push(a)[k] == x);
    }
    if a == x {
        assert(s.push(a)[s.len() as int] == x);
    }
}

pub proof fn lemma_without(ids: Seq<u64>, id: u64)
    ensures
        !without(ids, id).contains(id),
        forall|x: u64| x != id ==> (#[trigger] without(ids, id).contains(x) <==> ids.contains(x)),
    decreases ids.len(),
{
    if ids.len() > 0 {
        let dl = ids.drop_last();
        lemma_without(dl, id);
        assert(ids =~= dl.push(ids.last()));
        if ids.last() != id {
            lemma_push_contains(without(dl, id), ids.last(), id);
        }
        assert forall|x: u64| x != id implies (#[trigger] without(ids, id).contains(x)
            <==> ids.contains(x)) by {
            lemma_push_contains(dl, ids.last(), x);
            if ids.last() != id {
                lemma_push_contains(without(dl, id), ids.last(), x);
            }
        }
    }
}

/// The map after `id` was recorded as a window of process `pid`.
pub open spec fn record_one(m: Map<u32, Seq<u64>>, pid: u32, id: u64) -> Map<u32, Seq<u64>> {
    m.insert(
        pid,
        (if m.contains_key(pid) {
            m[pid]
        } else {
            seq![]
        }).push(id),
    )
}

/// Window ids by the id of the process that owns them.
#[derive(Debug)]
pub struct WindowPidMap {
    map: HashMap<u32, Vec<u64>>,
}

impl View for WindowPidMap {
    type V = Map<u32, Seq<u64>>;

    closed spec fn view(&self) -> Map<u32, Seq<u64>> {
        self.map@.map_values(|v: Vec<u64>| v@)
    }
}

impl WindowPidMap {
    pub fn new() -> (r: Self)
        ensures
            r@ == Map::<u32, Seq<u64>>::empty(),
    {
        let r = WindowPidMap { map: HashMap::new() };
        assert(r@ =~= Map::<u32, Seq<u64>>::empty());
        r
    }

    /// Records `id` as a window of process `pid`.
    pub fn record(&mut self, pid: u32, id: u64)
        ensures
            final(self)@ == record_one(old(self)@, pid, id),
    {
        let mut ids = match self.map.remove(&pid) {
            Some(v) => v,
            None => Vec::new(),
        };
        ids.push(id);
        self.map.insert(pid, ids);
        assert(self@ =~= record_one(old(self)@, pid, id));
    }

    /// The process ids in the map, each once.
    fn pids(&self) -> (r: Vec<u32>)
        ensures
            r@.to_set() == self@.dom(),
            r@.no_duplicates(),
    {
        let mut out: Vec<u32> = Vec::new();
        let ghost all = vstd::std_specs::hash::spec_keys_iter(&self.map).remaining().unref();
        proof {
            broadcast use vstd::std_specs::hash::axiom_spec_keys_iter;
            assert(all.to_set() == self.map@.dom());
        }
        for k in iter: self.map.keys()
            invariant
                iter.seq().unref() == all,
                out@ == all.take(iter.index()),
            ensures
                out@ == all,
        {
            out.push(*k);
            assert(all.take(iter.index() + 1) =~= out@);
        }
        proof {
            broadcast use vstd::std_specs::hash::axiom_spec_keys_iter;
            assert(all.to_set() == self.map@.dom());
            assert(self@.dom() =~= self.map@.dom());
        }
        out
    }

    /// Whether some process has `id` among its windows.
    pub fn contains_window(&self, id: u64) -> (r: bool)
        ensures
            r == exists|pid: u32| self@.contains_key(pid) && #[trigger] self@[pid].contains(id),
    {
        let pids = self.pids();
        let mut i: usize = 0;
        while i < pids.len()
            invariant
                i <= pids@.len(),
                pids@.to_set() == self@.dom(),
                forall|j: int| 0 <= j < i ==> !self@[#[trigger] pids@[j]].contains(id),
            decreases pids@.len() - i,
        {
            let pid = pids[i];
            assert(pids@.to_set().contains(pid));
            match self.map.get(&pid) {
                Some(ids) => {
                    assert(self@[pid] == ids@);
                    let mut k: usize = 0;
                    while k < ids.len()
                        invariant
                            self@.contains_key(pid),
                            self@[pid] == ids@,
                            k <= ids@.len(),
                            forall|j: int| 0 <= j < k ==> ids@[j] != id,
                        decreases ids@.len() - k,
                    {
                        if ids[k] == id {
                            assert(ids@[k as int] == id);
                            assert(self@[pid].contains(id));
                            return true;
                        }
                        k = k + 1;
                    }
                },
                None => {},
            }
            i = i + 1;
        }
        assert forall|pid: u32| self@.contains_key(pid) implies !#[trigger] self@[pid].contains(
            id,
        ) by {
            assert(pids@.to_set().contains(pid));
            let j = choose|j: int| 0 <= j < pids@.len() && pids@[j] == pid;
        }
        false
    }

    /// Removes `id` from the windows of every process and drops the processes
    /// left without windows.
    pub fn remove_window(&mut self, id: u64)
        ensures
            final(self)@ == Map::new(
                |pid: u32| old(self)@.contains_key(pid) && without(old(self)@[pid], id).len() > 0,
                |pid: u32| without(old(self)@[pid], id),
            ),
    {
        let ghost old_view = self@;
        let pids = self.pids();
        let mut i: usize = 0;
        while i < pids.len()
            invariant
                i <= pids@.len(),
                pids@.to_set() == old_view.dom(),
                pids@.no_duplicates(),
                forall|pid: u32|
                    #![trigger self@.contains_key(pid)]
                    pids@.take(i as int).contains(pid) ==> (self@.contains_key(pid) <==> without(
                        old_view[pid],
                        id,
                    ).len() > 0) && (self@.contains_key(pid) ==> self@[pid] == without(
                        old_view[pid],
                        id,
                    )),
                forall|pid: u32|
                    #![trigger self@.contains_key(pid)]
                    !pids@.take(i as int).contains(pid) ==> (self@.contains_key(pid)
                        <==> old_view.contains_key(pid)) && (self@.contains_key(pid)
                        ==> self@[pid] == old_view[pid]),
            decreases pids@.len() - i,
        {
            let pid = pids[i];
            assert(pids@.to_set().contains(pid));
            assert(!pids@.take(i as int).contains(pid)) by {
                if pids@.take(i as int).contains(pid) {
                    let j = choose|j: int| 0 <= j < i && pids@.take(i as int)[j] == pid;
                    assert(pids@[j] == pids@[i as int]);
                }
            }
            let ghost before = self@;
            assert(old_view.contains_key(pid));
            assert(self@.contains_key(pid));
            assert(before.contains_key(pid) && before[pid] == old_view[pid]);
            match self.map.remove(&pid) {
                Some(ids) => {
                    assert(ids@ == old_view[pid]);
                    let kept = remove_id(&ids, id);
                    if kept.len() > 0 {
                        self.map.insert(pid, kept);
                        assert(self@.contains_key(pid) && self@[pid] == without(old_view[pid], id));
                    } else {
                        assert(!self@.contains_key(pid));
                    }
                },
                None => {
                    assert(false);
                },
            }
            assert forall|p: u32| p != pid implies (#[trigger] self@.contains_key(p)
                <==> before.contains_key(p)) && (self@.contains_key(p) ==> self@[p] == before[p]) by {
            }
            assert(pids@.take(i + 1) =~= pids@.take(i as int).push(pid));
            assert forall|p: u32| #![auto] pids@.take(i + 1).contains(p) <==> (pids@.take(
                i as int,
            ).contains(p) || p == pid) by {
                lemma_push_contains(pids@.take(i as int), pid, p);
            }
            i = i + 1;
        }
        assert(self@ =~= Map::new(
            |pid: u32| old_view.contains_key(pid) && without(old_view[pid], id).len() > 0,
            |pid: u32| without(old_view[pid], id),
        )) by {
            assert(pids@.take(pids@.len() as int) =~= pids@);
            assert forall|pid: u32| #[trigger] old_view.contains_key(pid) implies pids@.contains(
                pid,
            ) by {
                assert(pids@.to_set().contains(pid));
            }
        }
    }
}

pub(crate) fn remove_id(ids: &Vec<u64>, id: u64) -> (r: Vec<u64>)
    ensures
        r@ == without(ids@, id),
{
    let mut out: Vec<u64> = Vec::new();
    let mut i: usize = 0;
    assert(ids@.take(0) =~= Seq::<u64>::empty());
    while i < ids.len()
        invariant
            i <= ids@.len(),
            out@ == without(ids@.take(i as int), id),
        decreases ids@.len() - i,
    {
        assert(ids@.take(i + 1).drop_last() =~= ids@.take(i as int));
        if ids[i] != id {
            out.push(ids[i]);
        }
        i = i + 1;
    }
    assert(ids@.take(ids@.len() as int) =~= ids@);
    out
}

/// After a window is removed, no process lists it and no process is left
/// without windows.
pub proof fn law_removed_window_is_gone(m: Map<u32, Seq<u64>>, id: u64)
    ensures
        ({
            let r = Map::new(
                |pid: u32| m.contains_key(pid) && without(m[pid], id).len() > 0,
                |pid: u32| without(m[pid], id),
            );
            &&& forall|pid: u32| r.contains_key(pid) ==> !(#[trigger] r[pid]).contains(id)
            &&& forall|pid: u32| r.contains_key(pid) ==> (#[trigger] r[pid]).len() > 0
        }),
{
    assert forall|pid: u32| m.contains_key(pid) implies !(#[trigger] without(m[pid], id)).contains(
        id,
    ) by {
        lemma_without(m[pid], id);
    }
}

// ---------------------------------------------------------------------------
// Finding a parent window by process ancestry
// ---------------------------------------------------------------------------

/// The parent process id that a `/proc/<pid>/stat` line gives, when the walk
/// up the process tree goes on: the fourth whitespace-separated field, read
/// as a `u32`; the walk stops (`None`) when there is no such field, it is not
/// a number, or it is 0 or 1.
pub open spec fn next_ancestor_spec(stat: Seq<char>) -> Option<u32> {
    let fields = words(stat);
    if fields.len() < 4 {
        None
    } else {
        match parse_unsigned_spec(fields[3], u32::MAX as nat) {
            Some(p) => if p == 0 || p == 1 {
                None
            } else {
                Some(p as u32)
            },
            None => None,
        }
    }
}

/// Reads the parent process id out of a `/proc/<pid>/stat` line; `None` ends
/// the walk up the process tree.
pub fn parent_pid_from_stat(stat: &str) -> (r: Option<u32>)
    ensures
        r == next_ancestor_spec(stat@),
{
    let fields = split_whitespace(stat);
    proof {
        assert(strings_view(fields@).len() == fields@.len());
    }
    if fields.len() < 4 {
        return None;
    }
    proof {
        assert(strings_view(fields@)[3] == fields@[3]@);
    }
    match parse_unsigned(fields[3].as_str(), u32::MAX as u64) {
        Some(p) => {
            if p == 0 || p == 1 {
                None
            } else {
                Some(p as u32)
            }
        },
        None => None,
    }
}

/// Whether window `w` is a candidate parent for the child window: another
/// window whose process is an ancestor of the child's.
pub open spec fn is_pid_parent(w: WindowView, child_id: u64, ancestors: Seq<u32>) -> bool {
    w.id != child_id && (w.pid matches Some(p) && ancestors.contains(p))
}

/// The index of the first candidate parent among `windows[i..]`.
pub open spec fn first_pid_parent(
    windows: Seq<WindowView>,
    child_id: u64,
    ancestors: Seq<u32>,
    i: int,
) -> Option<int>
    decreases windows.len() - i,
{
    if i < 0 || i >= windows.len() {
        None
    } else if is_pid_parent(windows[i], child_id, ancestors) {
        Some(i)
    } else {
        first_pid_parent(windows, child_id, ancestors, i + 1)
    }
}

/// The map after the process ids of `windows[0..n]` (other than the child's
/// window) have been recorded, in order.
pub open spec fn record_windows(
    m: Map<u32, Seq<u64>>,
    windows: Seq<WindowView>,
    child_id: u64,
    n: int,
) -> Map<u32, Seq<u64>>
    decreases n,
{
    if n <= 0 || n > windows.len() {
        m
    } else {
        let prev = record_windows(m, windows, child_id, n - 1);
        let w = windows[n - 1];
        if w.id != child_id && w.pid is Some {
            record_one(prev, w.pid->0, w.id)
        } else {
            prev
        }
    }
}

fn contains_pid(pids: &Vec<u32>, pid: u32) -> (r: bool)
    ensures
        r == pids@.contains(pid),
{
    let mut i: usize = 0;
    while i < pids.len()
        invariant
            i <= pids@.len(),
            forall|j: int| 0 <= j < i ==> pids@[j] != pid,
        decreases pids@.len() - i,
    {
        if pids[i] == pid {
            assert(pids@[i as int] == pid);
            return true;
        }
        i = i + 1;
    }
    false
}

/// Try to find the parent window by process ancestry: the first other window
/// whose process is one of the child's ancestors (`ancestor_pids`). The child
/// window and every other window visited on the way, up to the parent found,
/// are recorded in the map under their process ids.
pub fn try_pid_matching(
    child_window: &Window,
    windows: &Vec<Window>,
    ancestor_pids: &Vec<u32>,
    window_pid_map: &mut WindowPidMap,
) -> (r: Option<Window>)
    ensures
        child_window.pid is None ==> r is None && final(window_pid_map)@ == old(window_pid_map)@,
        child_window.pid matches Some(child_pid) ==> {
            let ws = windows_view(windows@);
            let found = first_pid_parent(ws, child_window.id, ancestor_pids@, 0);
            let start = record_one(old(window_pid_map)@, child_pid, child_window.id);
            match found {
                Some(k) => r matches Some(w) && w@ == ws[k] && final(window_pid_map)@
                    == record_windows(start, ws, child_window.id, k + 1),
                None => r is None && final(window_pid_map)@ == record_windows(
                    start,
                    ws,
                    child_window.id,
                    ws.len() as int,
                ),
            }
        },
{
    let child_pid = match child_window.pid {
        Some(pid) => pid,
        None => {
            return None;
        },
    };
    window_pid_map.record(child_pid, child_window.id);
    let ghost ws = windows_view(windows@);
    let ghost start = window_pid_map@;
    let mut i: usize = 0;
    while i < windows.len()
        invariant
            i <= windows@.len(),
            ws == windows_view(windows@),
            child_window.pid == Some(child_pid),
            start == record_one(old(window_pid_map)@, child_pid, child_window.id),
            window_pid_map@ == record_windows(start, ws, child_window.id, i as int),
            first_pid_parent(ws, child_window.id, ancestor_pids@, 0) == first_pid_parent(
                ws,
                child_window.id,
                ancestor_pids@,
                i as int,
            ),
        decreases windows@.len() - i,
    {
        let window = &windows[i];
        assert(ws[i as int] == window@);
        if window.id != child_window.id {
            match window.pid {
                Some(window_pid) => {
                    window_pid_map.record(window_pid, window.id);
                    if contains_pid(ancestor_pids, window_pid) {
                        let parent = window.clone();
                        assert(is_pid_parent(ws[i as int], child_window.id, ancestor_pids@));
                        return Some(parent);
                    }
                },
                None => {},
            }
        }
        i = i + 1;
    }
    None
}

// ---------------------------------------------------------------------------
// Swallowing a child window into its parent's column
// ---------------------------------------------------------------------------

/// How the windows of a column are shown.
#[derive(Debug, Clone, Copy, PartialEq, Eq, Structural)]
pub enum ColumnDisplayMode {
    Normal,
    Tabbed,
}

/// How a workspace is referred to in a move.
#[derive(Debug, Clone, PartialEq, Eq)]
pub enum WorkspaceTarget {
    Index(u8),
    Id(u64),
    Name(String),
}

/// One compositor action of a swallow.
#[derive(Debug, Clone, PartialEq, Eq)]
pub enum SwallowStep {
    FocusWindow(u64),
    SetColumnDisplay(ColumnDisplayMode),
    MoveWindowToTiling(u64),
    MoveWindowToWorkspace { window_id: u64, target: WorkspaceTarget },
    ConsumeOrExpelWindowLeft(u64),
}

/// The parent's workspace, when the child has to be moved there first.
pub fn swallow_workspace_lookup(parent_window: &Window, child_window: &Window) -> (r: Option<u64>)
    ensures
        r == (match parent_window.workspace_id {
            Some(w) => if child_window.workspace_id != Some(w) {
                Some(w)
            } else {
                None
            },
            None => None,
        }),
{
    match parent_window.workspace_id {
        Some(workspace_id) => {
            if child_window.workspace_id != Some(workspace_id) {
                Some(workspace_id)
            } else {
                None
            }
        },
        None => None,
    }
}

/// How the workspace with this id is referred to: the label (name, or else
/// index) of the first workspace with that id.
pub fn workspace_reference(workspaces: &Vec<WorkspaceInfo>, workspace_id: u64) -> (r: Option<String>)
    ensures
        match r {
            Some(label) => exists|i: int|
                0 <= i < workspaces@.len() && #[trigger] workspaces@[i].id == workspace_id && label@
                    == workspace_label(workspaces@[i]@) && forall|j: int|
                    0 <= j < i ==> workspaces@[j].id != workspace_id,
            None => forall|i: int|
                0 <= i < workspaces@.len() ==> #[trigger] workspaces@[i].id != workspace_id,
        },
{
    let mut i: usize = 0;
    while i < workspaces.len()
        invariant
            i <= workspaces@.len(),
            forall|j: int| 0 <= j < i ==> workspaces@[j].id != workspace_id,
        decreases workspaces@.len() - i,
    {
        if workspaces[i].id == workspace_id {
            let label = label_of(&workspaces[i]);
            assert(workspaces@[i as int].id == workspace_id);
            return Some(label);
        }
        i = i + 1;
    }
    None
}

/// The target a workspace reference denotes: an index when it reads as a
/// `u8`, else an id when it reads as a `u64`, else a name.
pub open spec fn workspace_target_spec(reference: Seq<char>) -> WorkspaceTargetView {
    match parse_unsigned_spec(reference, u8::MAX as nat) {
        Some(idx) => WorkspaceTargetView::Index(idx as u8),
        None => match parse_unsigned_spec(reference, u64::MAX as nat) {
            Some(id) => WorkspaceTargetView::Id(id as u64),
            None => WorkspaceTargetView::Name(reference),
        },
    }
}

pub enum WorkspaceTargetView {
    Index(u8),
    Id(u64),
    Name(Seq<char>),
}

impl View for WorkspaceTarget {
    type V = WorkspaceTargetView;

    open spec fn view(&self) -> WorkspaceTargetView {
        match self {
            WorkspaceTarget::Index(i) => WorkspaceTargetView::Index(*i),
            WorkspaceTarget::Id(i) => WorkspaceTargetView::Id(*i),
            WorkspaceTarget::Name(n) => WorkspaceTargetView::Name(n@),
        }
    }
}

/// Reads a workspace reference as an index, an id or a name.
pub fn workspace_target(reference: &str) -> (r: WorkspaceTarget)
    ensures
        r@ == workspace_target_spec(reference@),
{
    match parse_unsigned(reference, u8::MAX as u64) {
        Some(idx) => WorkspaceTarget::Index(idx as u8),
        None => match parse_unsigned(reference, u64::MAX) {
            Some(id) => WorkspaceTarget::Id(id),
            None => WorkspaceTarget::Name(String::from_str(reference)),
        },
    }
}

/// A workspace without a name is moved to by its index.
pub proof fn law_unnamed_workspace_is_referenced_by_index(ws: WorkspaceInfoView)
    requires
        ws.name is None,
    ensures
        workspace_target_spec(workspace_label(ws)) == WorkspaceTargetView::Index(ws.idx),
{
    crate::text::lemma_parse_decimal(ws.idx as nat, u8::MAX as nat);
}

pub enum SwallowStepView {
    FocusWindow(u64),
    SetColumnDisplay(ColumnDisplayMode),
    MoveWindowToTiling(u64),
    MoveWindowToWorkspace { window_id: u64, target: WorkspaceTargetView },
    ConsumeOrExpelWindowLeft(u64),
}

impl View for SwallowStep {
    type V = SwallowStepView;

    open spec fn view(&self) -> SwallowStepView {
        match self {
            SwallowStep::FocusWindow(i) => SwallowStepView::FocusWindow(*i),
            SwallowStep::SetColumnDisplay(d) => SwallowStepView::SetColumnDisplay(*d),
            SwallowStep::MoveWindowToTiling(i) => SwallowStepView::MoveWindowToTiling(*i),
            SwallowStep::MoveWindowToWorkspace { window_id, target } =>
                SwallowStepView::MoveWindowToWorkspace { window_id: *window_id, target: target@ },
            SwallowStep::ConsumeOrExpelWindowLeft(i) => SwallowStepView::ConsumeOrExpelWindowLeft(
                *i,
            ),
        }
    }
}

/// The actions of a swallow, in order: focus the parent, set the column
/// display, make a floating child tiled, move the child to the parent's
/// workspace when it is elsewhere, consume the child into the parent's
/// column, and focus the child.
pub open spec fn swallow_steps_spec(
    parent_window_id: u64,
    child_is_floating: bool,
    child_window_id: u64,
    column_display: ColumnDisplayMode,
    workspace_ref: Option<Seq<char>>,
) -> Seq<SwallowStepView> {
    let head = seq![
        SwallowStepView::FocusWindow(parent_window_id),
        SwallowStepView::SetColumnDisplay(column_display),
    ];
    let tiling = if child_is_floating {
        seq![SwallowStepView::MoveWindowToTiling(child_window_id)]
    } else {
        seq![]
    };
    let moving = match workspace_ref {
        Some(r) => seq![
            SwallowStepView::MoveWindowToWorkspace {
                window_id: child_window_id,
                target: workspace_target_spec(r),
            },
        ],
        None => seq![],
    };
    head + tiling + moving + seq![
        SwallowStepView::ConsumeOrExpelWindowLeft(child_window_id),
        SwallowStepView::FocusWindow(child_window_id),
    ]
}

/// The actions of a swallow begin by focusing the parent and end by
/// consuming the child into the parent's column and focusing the child. A
/// child on another workspace (a workspace reference is given) is moved to
/// that workspace before it is consumed, whether or not it floats; without a
/// reference it is not moved. A floating child, and only a floating one, is
/// made tiled first.
pub proof fn law_swallow_moves_child_before_consuming(
    parent_window_id: u64,
    child_is_floating: bool,
    child_window_id: u64,
    column_display: ColumnDisplayMode,
    workspace_ref: Option<Seq<char>>,
)
    ensures
        ({
            let st = swallow_steps_spec(
                parent_window_id,
                child_is_floating,
                child_window_id,
                column_display,
                workspace_ref,
            );
            &&& st.len() >= 4
            &&& st[0] == SwallowStepView::FocusWindow(parent_window_id)
            &&& st[st.len() - 1] == SwallowStepView::FocusWindow(child_window_id)
            &&& st[st.len() - 2] == SwallowStepView::ConsumeOrExpelWindowLeft(child_window_id)
            &&& (workspace_ref matches Some(r) ==> exists|i: int|
                0 <= i < st.len() - 2 && #[trigger] st[i]
                    == SwallowStepView::MoveWindowToWorkspace {
                    window_id: child_window_id,
                    target: workspace_target_spec(r),
                })
            &&& (workspace_ref is None ==> forall|i: int|
                0 <= i < st.len() ==> !(#[trigger] st[i] is MoveWindowToWorkspace))
            &&& (child_is_floating <==> exists|i: int|
                0 <= i < st.len() && #[trigger] st[i] == SwallowStepView::MoveWindowToTiling(
                    child_window_id,
                ))
        }),
{
    let st = swallow_steps_spec(
        parent_window_id,
        child_is_floating,
        child_window_id,
        column_display,
        workspace_ref,
    );
    let t: int = if child_is_floating {
        1
    } else {
        0
    };
    let m: int = if workspace_ref is Some {
        1
    } else {
        0
    };
    assert(st.len() == 4 + t + m);
    assert(st[0] == SwallowStepView::FocusWindow(parent_window_id));
    assert(st[1] == SwallowStepView::SetColumnDisplay(column_display));
    if child_is_floating {
        assert(st[2] == SwallowStepView::MoveWindowToTiling(child_window_id));
    }
    if let Some(r) = workspace_ref {
        assert(st[2 + t] == SwallowStepView::MoveWindowToWorkspace {
            window_id: child_window_id,
            target: workspace_target_spec(r),
        });
    }
    assert(st[2 + t + m] == SwallowStepView::ConsumeOrExpelWindowLeft(child_window_id));
    assert(st[3 + t + m] == SwallowStepView::FocusWindow(child_window_id));
}

pub open spec fn steps_view(steps: Seq<SwallowStep>) -> Seq<SwallowStepView> {
    steps.map_values(|s: SwallowStep| s@)
}

/// The compositor actions that swallow the child window into the parent's
/// column (see `swallow_steps_spec`).
pub fn swallow_steps(
    parent_window_id: u64,
    child_is_floating: bool,
    child_window_id: u64,
    column_display: ColumnDisplayMode,
    workspace_ref: Option<String>,
) -> (r: Vec<SwallowStep>)
    ensures
        steps_view(r@) == swallow_steps_spec(
            parent_window_id,
            child_is_floating,
            child_window_id,
            column_display,
            opt_text(workspace_ref),
        ),
{
    let mut steps: Vec<SwallowStep> = Vec::new();
    // 1. Focus parent window first
    steps.push(SwallowStep::FocusWindow(parent_window_id));
    // 2. Set column display (Tabbed or Normal)
    steps.push(SwallowStep::SetColumnDisplay(column_display));
    // 3. Ensure child window is not floating
    if child_is_floating {
        steps.push(SwallowStep::MoveWindowToTiling(child_window_id));
    }
    // 4. Move child window to parent's workspace if needed
    match &workspace_ref {
        Some(reference) => {
            let target = workspace_target(reference.as_str());
            steps.push(SwallowStep::MoveWindowToWorkspace { window_id: child_window_id, target });
        },
        None => {},
    }
    // 5. Consume child window into parent's column
    steps.push(SwallowStep::ConsumeOrExpelWindowLeft(child_window_id));
    // 6. Focus child window
    steps.push(SwallowStep::FocusWindow(child_window_id));
    assert(steps_view(steps@) =~= swallow_steps_spec(
        parent_window_id,
        child_is_floating,
        child_window_id,
        column_display,
        opt_text(workspace_ref),
    ));
    steps
}

} // verus!
