//! The swallow plugin: a newly opened child window takes the place of its
//! parent window in the layout.
use vstd::prelude::*;
use std::collections::HashMap;

use crate::config::{clone_patterns, patterns_view, Config};
use crate::plugins::window_utils::{
    lemma_without, matches_window, pattern_result, remove_id, window_match_result, windows_view,
    without, PatternError, Window, WindowMatcherCache, WindowPidMap, WindowView, record_one,
};
use crate::plugins::{FromConfig, PluginEvent};

verus! {

#[derive(Debug)]
pub struct SwallowExclude {
    pub app_id: Option<Vec<String>>,
    pub title: Option<Vec<String>>,
}

/// An exclude rule with its patterns as character sequences.
pub struct SwallowExcludeView {
    pub app_id: Option<Seq<Seq<char>>>,
    pub title: Option<Seq<Seq<char>>>,
}

impl View for SwallowExclude {
    type V = SwallowExcludeView;

    open spec fn view(&self) -> SwallowExcludeView {
        SwallowExcludeView { app_id: patterns_view(self.app_id), title: patterns_view(self.title) }
    }
}

impl Clone for SwallowExclude {
    fn clone(&self) -> (r: Self)
        ensures
            r@ == self@,
    {
        SwallowExclude { app_id: clone_patterns(&self.app_id), title: clone_patterns(&self.title) }
    }
}

#[derive(Debug)]
pub struct SwallowRule {
    pub parent_app_id: Option<Vec<String>>,
    pub parent_title: Option<Vec<String>>,
    pub child_app_id: Option<Vec<String>>,
    pub child_title: Option<Vec<String>>,
}

/// A swallow rule with its patterns as character sequences.
pub struct SwallowRuleView {
    pub parent_app_id: Option<Seq<Seq<char>>>,
    pub parent_title: Option<Seq<Seq<char>>>,
    pub child_app_id: Option<Seq<Seq<char>>>,
    pub child_title: Option<Seq<Seq<char>>>,
}

impl View for SwallowRule {
    type V = SwallowRuleView;

    open spec fn view(&self) -> SwallowRuleView {
        SwallowRuleView {
            parent_app_id: patterns_view(self.parent_app_id),
            parent_title: patterns_view(self.parent_title),
            child_app_id: patterns_view(self.child_app_id),
            child_title: patterns_view(self.child_title),
        }
    }
}

impl Clone for SwallowRule {
    fn clone(&self) -> (r: Self)
        ensures
            r@ == self@,
    {
        SwallowRule {
            parent_app_id: clone_patterns(&self.parent_app_id),
            parent_title: clone_patterns(&self.parent_title),
            child_app_id: clone_patterns(&self.child_app_id),
            child_title: clone_patterns(&self.child_title),
        }
    }
}

/// The swallow rules with their patterns as character sequences.
pub open spec fn swallow_rules_view(rules: Seq<SwallowRule>) -> Seq<SwallowRuleView> {
    rules.map_values(|r: SwallowRule| r@)
}

fn clone_swallow_rules(rules: &Vec<SwallowRule>) -> (r: Vec<SwallowRule>)
    ensures
        swallow_rules_view(r@) == swallow_rules_view(rules@),
{
    let mut out: Vec<SwallowRule> = Vec::new();
    let mut i: usize = 0;
    while i < rules.len()
        invariant
            i <= rules@.len(),
            swallow_rules_view(out@) == swallow_rules_view(rules@.subrange(0, i as int)),
        decreases rules@.len() - i,
    {
        let c = rules[i].clone();
        proof {
            assert(swallow_rules_view(out@.push(c)) =~= swallow_rules_view(out@).push(c@));
            assert(swallow_rules_view(rules@.subrange(0, i + 1)) =~= swallow_rules_view(
                rules@.subrange(0, i as int),
            ).push(rules@[i as int]@));
        }
        out.push(c);
        i = i + 1;
    }
    assert(rules@.subrange(0, rules@.len() as int) =~= rules@);
    out
}

pub open spec fn exclude_view(e: Option<SwallowExclude>) -> Option<SwallowExcludeView> {
    match e {
        Some(x) => Some(x@),
        None => None,
    }
}

#[derive(Debug)]
pub struct SwallowPluginConfig {
    pub rules: Vec<SwallowRule>,
    pub use_pid_matching: bool,
    pub exclude: Option<SwallowExclude>,
}

fn default_true() -> (r: bool)
    ensures
        r,
{
    true
}

impl Clone for SwallowPluginConfig {
    fn clone(&self) -> (r: Self)
        ensures
            swallow_rules_view(r.rules@) == swallow_rules_view(self.rules@),
            r.use_pid_matching == self.use_pid_matching,
            exclude_view(r.exclude) == exclude_view(self.exclude),
    {
        SwallowPluginConfig {
            rules: clone_swallow_rules(&self.rules),
            use_pid_matching: self.use_pid_matching,
            exclude: match &self.exclude {
                Some(e) => Some(e.clone()),
                None => None,
            },
        }
    }
}

impl Default for SwallowPluginConfig {
    fn default() -> (r: Self)
        ensures
            r.rules@.len() == 0,
            r.use_pid_matching,
            r.exclude is None,
    {
        Self { rules: Vec::new(), use_pid_matching: default_true(), exclude: None }
    }
}

impl FromConfig for SwallowPluginConfig {
    /// The rules of the top-level `[[swallow]]` list with the global settings
    /// of `[piri.swallow]`; always present.
    fn from_config(config: &Config) -> (r: Option<Self>)
        ensures
            r matches Some(c) && swallow_rules_view(c.rules@) == swallow_rules_view(
                config.swallow@,
            ) && c.use_pid_matching == config.piri.swallow.use_pid_matching && exclude_view(
                c.exclude,
            ) == exclude_view(config.piri.swallow.exclude),
    {
        Some(
            Self {
                rules: clone_swallow_rules(&config.swallow),
                use_pid_matching: config.piri.swallow.use_pid_matching,
                exclude: match &config.piri.swallow.exclude {
                    Some(e) => Some(e.clone()),
                    None => None,
                },
            },
        )
    }
}

/// The most windows the focus queue keeps.
pub const FOCUS_QUEUE_CAPACITY: usize = 5;

/// The focus queue after `id` gained focus (or opened): `id` moves to the
/// back (newest), and only the newest five entries are kept.
pub open spec fn queue_after_focus(queue: Seq<u64>, id: u64) -> Seq<u64> {
    let q = without(queue, id).push(id);
    if q.len() > FOCUS_QUEUE_CAPACITY {
        q.skip(q.len() - FOCUS_QUEUE_CAPACITY)
    } else {
        q
    }
}

/// Whether a rule says anything of the parent window.
pub open spec fn has_parent_conditions(rule: SwallowRuleView) -> bool {
    rule.parent_app_id is Some || rule.parent_title is Some
}

/// Whether a rule says anything of the child window.
pub open spec fn has_child_conditions(rule: SwallowRuleView) -> bool {
    rule.child_app_id is Some || rule.child_title is Some
}

/// The index of the first window with this id, from index `i` on.
pub open spec fn first_with_id(windows: Seq<WindowView>, id: u64, i: int) -> Option<int>
    decreases windows.len() - i,
{
    if i < 0 || i >= windows.len() {
        None
    } else if windows[i].id == id {
        Some(i)
    } else {
        first_with_id(windows, id, i + 1)
    }
}

/// Whether a candidate window satisfies a rule's parent conditions.
pub open spec fn parent_match(rule: SwallowRuleView, w: WindowView) -> Result<bool, Seq<char>> {
    if !has_parent_conditions(rule) {
        Ok(true)
    } else {
        window_match_result(w, rule.parent_app_id, rule.parent_title, None, None)
    }
}

/// Searching the focus queue from entry `k - 1` back to the oldest for a
/// parent: entries that are the child or not among the windows are passed
/// over; the first window that satisfies the rule's parent conditions is the
/// parent.
pub open spec fn queue_parent(
    queue: Seq<u64>,
    child_id: u64,
    windows: Seq<WindowView>,
    rule: SwallowRuleView,
    k: int,
) -> Result<Option<WindowView>, Seq<char>>
    decreases k,
{
    if k <= 0 || k > queue.len() {
        Ok(None)
    } else if queue[k - 1] == child_id {
        queue_parent(queue, child_id, windows, rule, k - 1)
    } else {
        match first_with_id(windows, queue[k - 1], 0) {
            None => queue_parent(queue, child_id, windows, rule, k - 1),
            Some(i) => match parent_match(rule, windows[i]) {
                Err(e) => Err(e),
                Ok(true) => Ok(Some(windows[i])),
                Ok(false) => queue_parent(queue, child_id, windows, rule, k - 1),
            },
        }
    }
}

/// The parent that a rule finds for the child: when the focused window is
/// the child itself, the newest window in the focus queue that satisfies the
/// rule's parent conditions; otherwise the focused window, if it satisfies
/// them.
pub open spec fn rule_parent(
    queue: Seq<u64>,
    rule: SwallowRuleView,
    child_id: u64,
    focused: WindowView,
    windows: Seq<WindowView>,
) -> Result<Option<WindowView>, Seq<char>> {
    if focused.id == child_id {
        queue_parent(queue, child_id, windows, rule, queue.len() as int)
    } else {
        match parent_match(rule, focused) {
            Err(e) => Err(e),
            Ok(true) => Ok(Some(focused)),
            Ok(false) => Ok(None),
        }
    }
}

/// The focused window, if there is one, as a view.
pub open spec fn focused_view(focused: Option<&Window>) -> Option<WindowView> {
    match focused {
        Some(w) => Some(w@),
        None => None,
    }
}

/// Rule-based parent search from rule `i` on: the first rule whose child
/// conditions the child meets and for which a parent is found decides, and
/// the search yields its index with the parent. Without a focused window no
/// rule finds a parent. An invalid pattern met on the way is an error.
pub open spec fn rules_parent(
    rules: Seq<SwallowRuleView>,
    child: WindowView,
    queue: Seq<u64>,
    focused: Option<WindowView>,
    windows: Seq<WindowView>,
    i: int,
) -> Result<Option<(int, WindowView)>, Seq<char>>
    decreases rules.len() - i,
{
    if i < 0 || i >= rules.len() {
        Ok(None)
    } else {
        match child_match(rules[i], child) {
            Err(e) => Err(e),
            Ok(false) => rules_parent(rules, child, queue, focused, windows, i + 1),
            Ok(true) => match focused {
                None => rules_parent(rules, child, queue, focused, windows, i + 1),
                Some(f) => match rule_parent(queue, rules[i], child.id, f, windows) {
                    Err(e) => Err(e),
                    Ok(Some(p)) => Ok(Some((i, p))),
                    Ok(None) => rules_parent(rules, child, queue, focused, windows, i + 1),
                },
            },
        }
    }
}

/// Whether the parent found by process-tree matching may swallow the child:
/// some rule, tried in order from index `i` on, whose child conditions the
/// child meets has parent conditions that the parent meets (a rule without
/// parent conditions accepts any ancestor window). An invalid pattern met on
/// the way is an error.
pub open spec fn pid_parent_accepted(
    rules: Seq<SwallowRuleView>,
    child: WindowView,
    parent: WindowView,
    i: int,
) -> Result<bool, Seq<char>>
    decreases rules.len() - i,
{
    if i < 0 || i >= rules.len() {
        Ok(false)
    } else {
        match child_match(rules[i], child) {
            Err(e) => Err(e),
            Ok(false) => pid_parent_accepted(rules, child, parent, i + 1),
            Ok(true) => match parent_match(rules[i], parent) {
                Err(e) => Err(e),
                Ok(true) => Ok(true),
                Ok(false) => pid_parent_accepted(rules, child, parent, i + 1),
            },
        }
    }
}

pub open spec fn rule_search_result(r: Result<Option<(usize, Window)>, PatternError>) -> Result<
    Option<(int, WindowView)>,
    Seq<char>,
> {
    match r {
        Ok(Some((i, w))) => Ok(Some((i as int, w@))),
        Ok(None) => Ok(None),
        Err(e) => Err(e.pattern@),
    }
}

pub open spec fn window_result(r: Result<Option<Window>, PatternError>) -> Result<
    Option<WindowView>,
    Seq<char>,
> {
    match r {
        Ok(Some(w)) => Ok(Some(w@)),
        Ok(None) => Ok(None),
        Err(e) => Err(e.pattern@),
    }
}

/// Whether the child window satisfies a rule's child conditions (a rule
/// without any accepts every child).
pub open spec fn child_match(rule: SwallowRuleView, child: WindowView) -> Result<bool, Seq<char>> {
    if !has_child_conditions(rule) {
        Ok(true)
    } else {
        window_match_result(child, rule.child_app_id, rule.child_title, None, None)
    }
}

/// Whether the exclude rule rules the window out (an exclude rule without
/// patterns excludes nothing).
pub open spec fn exclude_match(exclude: SwallowExcludeView, w: WindowView) -> Result<bool, Seq<char>> {
    if exclude.app_id is None && exclude.title is None {
        Ok(false)
    } else {
        window_match_result(w, exclude.app_id, exclude.title, None, None)
    }
}

/// The map after every window of `windows[0..n]` that has a process id has
/// been recorded, in order.
pub open spec fn record_all(m: Map<u32, Seq<u64>>, windows: Seq<WindowView>, n: int) -> Map<
    u32,
    Seq<u64>,
>
    decreases n,
{
    if n <= 0 || n > windows.len() {
        m
    } else {
        let prev = record_all(m, windows, n - 1);
        match windows[n - 1].pid {
            Some(pid) => record_one(prev, pid, windows[n - 1].id),
            None => prev,
        }
    }
}

/// The ids of the windows of `windows[0..n]` without a process id, in order.
pub open spec fn ids_without_pid(windows: Seq<WindowView>, n: int) -> Seq<u64>
    decreases n,
{
    if n <= 0 || n > windows.len() {
        seq![]
    } else {
        let prev = ids_without_pid(windows, n - 1);
        if windows[n - 1].pid is None {
            prev.push(windows[n - 1].id)
        } else {
            prev
        }
    }
}

/// Whether some process lists window `id`.
pub open spec fn window_known(m: Map<u32, Seq<u64>>, id: u64) -> bool {
    exists|pid: u32| m.contains_key(pid) && #[trigger] m[pid].contains(id)
}

/// Whether window `id` was floating when last seen, if it was seen.
pub open spec fn previous_floating(f: Map<u64, bool>, id: u64) -> Option<bool> {
    if f.contains_key(id) {
        Some(f[id])
    } else {
        None
    }
}

/// A window that was floating and is tiled now.
pub open spec fn turned_tiled(previous: Option<bool>, floating: bool) -> bool {
    previous == Some(true) && !floating
}

/// How the parent of an opened window is looked for.
#[derive(Debug, Clone, Copy, PartialEq, Eq, Structural)]
pub enum ParentSearch {
    /// The window is known already and did not turn from floating to tiled:
    /// the event is a change, and nothing is done.
    AlreadyKnown,
    /// The window matches the global exclude rule and is never swallowed.
    Excluded,
    /// The window is floating, and floating windows are not swallowed (it is
    /// taken in again once it turns tiled).
    Floating,
    /// Process-tree matching first, then the rules.
    ProcessTreeFirst,
    /// The rules only.
    RulesOnly,
}

/// Swallow plugin state: its configuration, the windows of each process and
/// the queue of recently focused windows.
pub struct SwallowPlugin {
    config: SwallowPluginConfig,
    matcher_cache: WindowMatcherCache,
    window_pid_map: WindowPidMap,
    focused_window_queue: Vec<u64>,
    /// Whether each window was floating when last seen.
    floating_state: HashMap<u64, bool>,
}

impl SwallowPlugin {
    /// Whether each window was floating when an event last showed it.
    pub closed spec fn floating_state(&self) -> Map<u64, bool> {
        self.floating_state@
    }

    pub closed spec fn rules(&self) -> Seq<SwallowRuleView> {
        swallow_rules_view(self.config.rules@)
    }

    pub closed spec fn use_pid_matching_spec(&self) -> bool {
        self.config.use_pid_matching
    }

    pub closed spec fn exclude(&self) -> Option<SwallowExcludeView> {
        exclude_view(self.config.exclude)
    }

    /// The window ids of each process.
    pub closed spec fn pid_map(&self) -> Map<u32, Seq<u64>> {
        self.window_pid_map@
    }

    /// The recently focused windows, oldest first.
    pub closed spec fn focus_queue(&self) -> Seq<u64> {
        self.focused_window_queue@
    }

    pub fn new(config: SwallowPluginConfig) -> (r: Self)
        ensures
            r.rules() == swallow_rules_view(config.rules@),
            r.use_pid_matching_spec() == config.use_pid_matching,
            r.exclude() == exclude_view(config.exclude),
            r.pid_map() == Map::<u32, Seq<u64>>::empty(),
            r.focus_queue().len() == 0,
            r.floating_state() == Map::<u64, bool>::empty(),
    {
        let r = Self {
            config,
            matcher_cache: WindowMatcherCache::new(),
            window_pid_map: WindowPidMap::new(),
            focused_window_queue: Vec::new(),
            floating_state: HashMap::new(),
        };
        assert(r.floating_state@ =~= Map::<u64, bool>::empty());
        r
    }

    pub fn use_pid_matching(&self) -> (r: bool)
        ensures
            r == self.use_pid_matching_spec(),
    {
        self.config.use_pid_matching
    }

    /// The rules in force.
    pub fn rule_list(&self) -> (r: &Vec<SwallowRule>)
        ensures
            swallow_rules_view(r@) == self.rules(),
    {
        &self.config.rules
    }

    /// The window-to-process map, for process-tree matching.
    pub fn pid_map_mut(&mut self) -> (r: &mut WindowPidMap)
        ensures
            r@ == old(self).pid_map(),
            final(self).pid_map() == final(r)@,
            final(self).rules() == old(self).rules(),
            final(self).floating_state() == old(self).floating_state(),
            final(self).use_pid_matching_spec() == old(self).use_pid_matching_spec(),
            final(self).exclude() == old(self).exclude(),
            final(self).focus_queue() == old(self).focus_queue(),
    {
        &mut self.window_pid_map
    }

    /// Records the windows found on startup under their process ids; returns
    /// the ids of the windows without one, in order.
    pub fn record_initial_windows(&mut self, windows: &Vec<Window>) -> (r: Vec<u64>)
        ensures
            final(self).rules() == old(self).rules(),
            final(self).floating_state() == old(self).floating_state(),
            final(self).use_pid_matching_spec() == old(self).use_pid_matching_spec(),
            final(self).exclude() == old(self).exclude(),
            final(self).focus_queue() == old(self).focus_queue(),
            final(self).pid_map() == record_all(
                old(self).pid_map(),
                windows_view(windows@),
                windows@.len() as int,
            ),
            r@ == ids_without_pid(windows_view(windows@), windows@.len() as int),
    {
        let mut missing: Vec<u64> = Vec::new();
        let mut i: usize = 0;
        let ghost ws = windows_view(windows@);
        while i < windows.len()
            invariant
                i <= windows@.len(),
                ws == windows_view(windows@),
                self.rules() == old(self).rules(),
                self.floating_state() == old(self).floating_state(),
                self.use_pid_matching_spec() == old(self).use_pid_matching_spec(),
                self.exclude() == old(self).exclude(),
                self.focus_queue() == old(self).focus_queue(),
                self.pid_map() == record_all(old(self).pid_map(), ws, i as int),
                missing@ == ids_without_pid(ws, i as int),
            decreases windows@.len() - i,
        {
            assert(ws[i as int] == windows@[i as int]@);
            match windows[i].pid {
                Some(pid) => {
                    self.window_pid_map.record(pid, windows[i].id);
                },
                None => {
                    missing.push(windows[i].id);
                },
            }
            i = i + 1;
        }
        missing
    }

    /// Check if a window matches the exclude rule
    pub fn check_window_matches_exclude(&mut self, window: &Window, exclude: &SwallowExclude) -> (r:
        Result<bool, PatternError>)
        ensures
            final(self).rules() == old(self).rules(),
            final(self).floating_state() == old(self).floating_state(),
            final(self).use_pid_matching_spec() == old(self).use_pid_matching_spec(),
            final(self).exclude() == old(self).exclude(),
            final(self).pid_map() == old(self).pid_map(),
            final(self).focus_queue() == old(self).focus_queue(),
            pattern_result(r) == exclude_match(exclude@, window@),
    {
        // If no conditions specified, exclude nothing
        if exclude.app_id.is_none() && exclude.title.is_none() {
            return Ok(false);
        }
        matches_window(
            window,
            exclude.app_id.as_ref(),
            exclude.title.as_ref(),
            None,
            None,
            &mut self.matcher_cache,
        )
    }

    /// Whether the opened window is ruled out by the global exclude rule.
    pub fn is_excluded(&mut self, window: &Window) -> (r: Result<bool, PatternError>)
        ensures
            final(self).rules() == old(self).rules(),
            final(self).floating_state() == old(self).floating_state(),
            final(self).use_pid_matching_spec() == old(self).use_pid_matching_spec(),
            final(self).exclude() == old(self).exclude(),
            final(self).pid_map() == old(self).pid_map(),
            final(self).focus_queue() == old(self).focus_queue(),
            pattern_result(r) == match old(self).exclude() {
                Some(e) => exclude_match(e, window@),
                None => Ok(false),
            },
    {
        match &self.config.exclude {
            Some(exclude) => {
                if exclude.app_id.is_none() && exclude.title.is_none() {
                    return Ok(false);
                }
                matches_window(
                    window,
                    exclude.app_id.as_ref(),
                    exclude.title.as_ref(),
                    None,
                    None,
                    &mut self.matcher_cache,
                )
            },
            None => Ok(false),
        }
    }

    /// Check if a child window matches a rule's child window conditions
    pub fn check_child_window_matches_rule(
        &mut self,
        child_window: &Window,
        window_id: u64,
        rule: &SwallowRule,
    ) -> (r: Result<bool, PatternError>)
        ensures
            final(self).rules() == old(self).rules(),
            final(self).floating_state() == old(self).floating_state(),
            final(self).use_pid_matching_spec() == old(self).use_pid_matching_spec(),
            final(self).exclude() == old(self).exclude(),
            final(self).pid_map() == old(self).pid_map(),
            final(self).focus_queue() == old(self).focus_queue(),
            pattern_result(r) == child_match(rule@, child_window@),
    {
        child_rule_match(&mut self.matcher_cache, rule, child_window)
    }

    /// Check if the currently focused window matches the parent window rule.
    /// If the focused window is the child window, the focus queue is searched
    /// (newest first) among `windows` instead.
    pub fn check_focused_window_matches_parent_rule(
        &mut self,
        rule: &SwallowRule,
        child_window_id: u64,
        focused_window: &Window,
        windows: &Vec<Window>,
    ) -> (r: Result<Option<Window>, PatternError>)
        ensures
            final(self).rules() == old(self).rules(),
            final(self).floating_state() == old(self).floating_state(),
            final(self).use_pid_matching_spec() == old(self).use_pid_matching_spec(),
            final(self).exclude() == old(self).exclude(),
            final(self).pid_map() == old(self).pid_map(),
            final(self).focus_queue() == old(self).focus_queue(),
            window_result(r) == rule_parent(
                old(self).focus_queue(),
                rule@,
                child_window_id,
                focused_window@,
                windows_view(windows@),
            ),
    {
        parent_for_rule(
            &mut self.matcher_cache,
            &self.focused_window_queue,
            rule,
            child_window_id,
            focused_window,
            windows,
        )
    }

    /// Rule-based search for the parent of a child window: the rules are
    /// tried in order, and the first one whose child conditions the child
    /// meets and for which a parent is found (see `rule_parent`) decides; its
    /// index is returned with the parent. Without a focused window no rule
    /// finds a parent.
    pub fn find_rule_parent(
        &mut self,
        child_window: &Window,
        focused_window: Option<&Window>,
        windows: &Vec<Window>,
    ) -> (r: Result<Option<(usize, Window)>, PatternError>)
        ensures
            final(self).rules() == old(self).rules(),
            final(self).floating_state() == old(self).floating_state(),
            final(self).use_pid_matching_spec() == old(self).use_pid_matching_spec(),
            final(self).exclude() == old(self).exclude(),
            final(self).pid_map() == old(self).pid_map(),
            final(self).focus_queue() == old(self).focus_queue(),
            rule_search_result(r) == rules_parent(
                old(self).rules(),
                child_window@,
                old(self).focus_queue(),
                focused_view(focused_window),
                windows_view(windows@),
                0,
            ),
    {
        let ghost rules = self.rules();
        let ghost focused = focused_view(focused_window);
        let ghost ws = windows_view(windows@);
        let n = self.config.rules.len();
        let mut i: usize = 0;
        while i < n
            invariant
                n == self.config.rules@.len(),
                i <= n,
                rules == self.rules(),
                self.rules() == old(self).rules(),
                self.floating_state() == old(self).floating_state(),
                self.use_pid_matching_spec() == old(self).use_pid_matching_spec(),
                self.exclude() == old(self).exclude(),
                self.pid_map() == old(self).pid_map(),
                self.focus_queue() == old(self).focus_queue(),
                focused == focused_view(focused_window),
                ws == windows_view(windows@),
                rules_parent(rules, child_window@, self.focus_queue(), focused, ws, 0)
                    == rules_parent(rules, child_window@, self.focus_queue(), focused, ws, i as int),
            decreases n - i,
        {
            assert(rules[i as int] == self.config.rules@[i as int]@);
            match child_rule_match(&mut self.matcher_cache, &self.config.rules[i], child_window) {
                Ok(true) => match focused_window {
                    Some(f) => match parent_for_rule(
                        &mut self.matcher_cache,
                        &self.focused_window_queue,
                        &self.config.rules[i],
                        child_window.id,
                        f,
                        windows,
                    ) {
                        Ok(Some(parent)) => {
                            return Ok(Some((i, parent)));
                        },
                        Ok(None) => {},
                        Err(e) => {
                            return Err(e);
                        },
                    },
                    None => {},
                },
                Ok(false) => {},
                Err(e) => {
                    return Err(e);
                },
            }
            i = i + 1;
        }
        Ok(None)
    }

    /// Whether the parent that process-tree matching found may swallow the
    /// child window: it must meet the parent conditions of a rule whose child
    /// conditions the child meets (see `pid_parent_accepted`); without rules
    /// no window is swallowed.
    pub fn pid_parent_allowed(&mut self, child_window: &Window, parent_window: &Window) -> (r: Result<
        bool,
        PatternError,
    >)
        ensures
            final(self).rules() == old(self).rules(),
            final(self).floating_state() == old(self).floating_state(),
            final(self).use_pid_matching_spec() == old(self).use_pid_matching_spec(),
            final(self).exclude() == old(self).exclude(),
            final(self).pid_map() == old(self).pid_map(),
            final(self).focus_queue() == old(self).focus_queue(),
            pattern_result(r) == pid_parent_accepted(
                old(self).rules(),
                child_window@,
                parent_window@,
                0,
            ),
    {
        let ghost rules = self.rules();
        let n = self.config.rules.len();
        let mut i: usize = 0;
        while i < n
            invariant
                n == self.config.rules@.len(),
                i <= n,
                rules == self.rules(),
                self.rules() == old(self).rules(),
                self.floating_state() == old(self).floating_state(),
                self.use_pid_matching_spec() == old(self).use_pid_matching_spec(),
                self.exclude() == old(self).exclude(),
                self.pid_map() == old(self).pid_map(),
                self.focus_queue() == old(self).focus_queue(),
                pid_parent_accepted(rules, child_window@, parent_window@, 0) == pid_parent_accepted(
                    rules,
                    child_window@,
                    parent_window@,
                    i as int,
                ),
            decreases n - i,
        {
            assert(rules[i as int] == self.config.rules@[i as int]@);
            match child_rule_match(&mut self.matcher_cache, &self.config.rules[i], child_window) {
                Ok(true) => match parent_rule_match(
                    &mut self.matcher_cache,
                    &self.config.rules[i],
                    parent_window,
                ) {
                    Ok(true) => {
                        return Ok(true);
                    },
                    Ok(false) => {},
                    Err(e) => {
                        return Err(e);
                    },
                },
                Ok(false) => {},
                Err(e) => {
                    return Err(e);
                },
            }
            i = i + 1;
        }
        Ok(false)
    }

    /// The parent that process-tree matching settles on: the window it found
    /// (`found`), when a rule accepts it as the child's parent (see
    /// `pid_parent_accepted`); otherwise none, and the rules are tried next.
    pub fn accept_pid_parent(&mut self, child_window: &Window, found: Option<Window>) -> (r: Result<
        Option<Window>,
        PatternError,
    >)
        ensures
            final(self).rules() == old(self).rules(),
            final(self).floating_state() == old(self).floating_state(),
            final(self).use_pid_matching_spec() == old(self).use_pid_matching_spec(),
            final(self).exclude() == old(self).exclude(),
            final(self).pid_map() == old(self).pid_map(),
            final(self).focus_queue() == old(self).focus_queue(),
            match found {
                None => r matches Ok(None),
                Some(p) => match (r, pid_parent_accepted(old(self).rules(), child_window@, p@, 0)) {
                    (Ok(Some(w)), Ok(true)) => w@ == p@,
                    (Ok(None), Ok(false)) => true,
                    (Err(e), Err(q)) => e.pattern@ == q,
                    _ => false,
                },
            },
    {
        match found {
            None => Ok(None),
            Some(parent) => match self.pid_parent_allowed(child_window, &parent) {
                Ok(true) => Ok(Some(parent)),
                Ok(false) => Ok(None),
                Err(e) => Err(e),
            },
        }
    }

    /// Whether the window is already known (its opening was handled before),
    /// so that an opened-or-changed event for it is a change.
    pub fn is_known_window(&self, window_id: u64) -> (r: bool)
        ensures
            r == exists|pid: u32| self.pid_map().contains_key(pid) && #[trigger] self.pid_map()[pid].contains(window_id),
    {
        let r = self.window_pid_map.contains_window(window_id);
        assert(self.pid_map() == self.window_pid_map@);
        r
    }

    /// Registers a newly opened window: records it under its process id and
    /// puts it at the back of the focus queue. Returns `true` when the window
    /// has no process id.
    pub fn register_opened_window(&mut self, window: &Window) -> (r: bool)
        ensures
            r == window.pid is None,
            final(self).pid_map() == match window.pid {
                Some(pid) => record_one(old(self).pid_map(), pid, window.id),
                None => old(self).pid_map(),
            },
            final(self).focus_queue() == queue_after_focus(old(self).focus_queue(), window.id),
            final(self).rules() == old(self).rules(),
            final(self).floating_state() == old(self).floating_state(),
            final(self).use_pid_matching_spec() == old(self).use_pid_matching_spec(),
            final(self).exclude() == old(self).exclude(),
    {
        let missing = match window.pid {
            Some(pid) => {
                self.window_pid_map.record(pid, window.id);
                false
            },
            None => true,
        };
        self.push_focus(window.id);
        missing
    }

    /// A window gained focus: it moves to the back (newest) of the focus
    /// queue, which keeps at most five windows.
    pub fn push_focus(&mut self, window_id: u64)
        ensures
            final(self).focus_queue() == queue_after_focus(old(self).focus_queue(), window_id),
            final(self).pid_map() == old(self).pid_map(),
            final(self).rules() == old(self).rules(),
            final(self).floating_state() == old(self).floating_state(),
            final(self).use_pid_matching_spec() == old(self).use_pid_matching_spec(),
            final(self).exclude() == old(self).exclude(),
    {
        let mut q = remove_id(&self.focused_window_queue, window_id);
        q.push(window_id);
        if q.len() > FOCUS_QUEUE_CAPACITY {
            let newest = q.split_off(q.len() - FOCUS_QUEUE_CAPACITY);
            assert(newest@ =~= queue_after_focus(old(self).focus_queue(), window_id));
            self.focused_window_queue = newest;
        } else {
            self.focused_window_queue = q;
        }
    }

    /// A window closed: it leaves the process map (processes left without
    /// windows are dropped), the focus queue and the floating states.
    pub fn handle_window_closed(&mut self, window_id: u64)
        ensures
            final(self).pid_map() == Map::new(
                |pid: u32|
                    old(self).pid_map().contains_key(pid) && without(
                        old(self).pid_map()[pid],
                        window_id,
                    ).len() > 0,
                |pid: u32| without(old(self).pid_map()[pid], window_id),
            ),
            final(self).focus_queue() == without(old(self).focus_queue(), window_id),
            final(self).floating_state() == old(self).floating_state().remove(window_id),
            final(self).rules() == old(self).rules(),
            final(self).use_pid_matching_spec() == old(self).use_pid_matching_spec(),
            final(self).exclude() == old(self).exclude(),
    {
        self.window_pid_map.remove_window(window_id);
        self.focused_window_queue = remove_id(&self.focused_window_queue, window_id);
        self.floating_state.remove(&window_id);
    }

    /// Takes in a window from an opened-or-changed event and decides how its
    /// parent is looked for; its floating state is recorded.
    /// - A window that is known already (see `is_known_window`) is taken in
    ///   again only when it turned from floating to tiled; otherwise the event
    ///   is a change and nothing more is done (`AlreadyKnown`).
    /// - A window that is not known is registered (see
    ///   `register_opened_window`).
    /// - A window that the global exclude rule rules out is never swallowed;
    ///   a floating window is not swallowed; otherwise process-tree matching
    ///   comes first when enabled, and the rules after it.
    /// The flag tells whether a newly registered window has no process id.
    pub fn admit_opened_window(&mut self, child_window: &Window) -> (r: Result<
        (bool, ParentSearch),
        PatternError,
    >)
        ensures
            ({
                let known = window_known(old(self).pid_map(), child_window.id);
                let again = known && turned_tiled(
                    previous_floating(old(self).floating_state(), child_window.id),
                    child_window.floating,
                );
                &&& final(self).floating_state() == old(self).floating_state().insert(
                    child_window.id,
                    child_window.floating,
                )
                &&& final(self).rules() == old(self).rules()
                &&& final(self).use_pid_matching_spec() == old(self).use_pid_matching_spec()
                &&& final(self).exclude() == old(self).exclude()
                &&& known ==> final(self).pid_map() == old(self).pid_map()
                    && final(self).focus_queue() == old(self).focus_queue()
                &&& !known ==> final(self).pid_map() == (match child_window.pid {
                    Some(pid) => record_one(old(self).pid_map(), pid, child_window.id),
                    None => old(self).pid_map(),
                }) && final(self).focus_queue() == queue_after_focus(
                    old(self).focus_queue(),
                    child_window.id,
                )
                &&& known && !again ==> (r matches Ok((missing, search)) && !missing && search
                    == ParentSearch::AlreadyKnown)
                &&& !(known && !again) ==> match (r, match old(self).exclude() {
                    Some(e) => exclude_match(e, child_window@),
                    None => Ok(false),
                }) {
                    (Err(e), Err(p)) => e.pattern@ == p,
                    (Ok((missing, search)), Ok(excluded)) => missing == (!known
                        && child_window.pid is None) && search == (if excluded {
                        ParentSearch::Excluded
                    } else if child_window.floating {
                        ParentSearch::Floating
                    } else if old(self).use_pid_matching_spec() {
                        ParentSearch::ProcessTreeFirst
                    } else {
                        ParentSearch::RulesOnly
                    }),
                    _ => false,
                }
            }),
    {
        let known = self.is_known_window(child_window.id);
        let previous = match self.floating_state.get(&child_window.id) {
            Some(b) => Some(*b),
            None => None,
        };
        self.floating_state.insert(child_window.id, child_window.floating);
        let again = known && match previous {
            Some(was_floating) => was_floating && !child_window.floating,
            None => false,
        };
        if known && !again {
            return Ok((false, ParentSearch::AlreadyKnown));
        }
        let missing = if known {
            false
        } else {
            self.register_opened_window(child_window)
        };
        let excluded = match self.is_excluded(child_window) {
            Ok(b) => b,
            Err(e) => {
                return Err(e);
            },
        };
        let search = if excluded {
            ParentSearch::Excluded
        } else if child_window.floating {
            ParentSearch::Floating
        } else if self.config.use_pid_matching {
            ParentSearch::ProcessTreeFirst
        } else {
            ParentSearch::RulesOnly
        };
        Ok((missing, search))
    }

    /// The events this plugin reacts to.
    pub fn is_interested_in_event(&self, event: &PluginEvent) -> (r: bool)
        ensures
            r == (event is WindowOpenedOrChanged || event is WindowClosed
                || event is WindowFocusTimestampChanged),
    {
        match event {
            PluginEvent::WindowOpenedOrChanged(_) => true,
            PluginEvent::WindowClosed(_) => true,
            PluginEvent::WindowFocusTimestampChanged(_) => true,
            _ => false,
        }
    }

    pub fn update_config(&mut self, config: SwallowPluginConfig)
        ensures
            final(self).rules() == swallow_rules_view(config.rules@),
            final(self).floating_state() == old(self).floating_state(),
            final(self).use_pid_matching_spec() == config.use_pid_matching,
            final(self).exclude() == exclude_view(config.exclude),
            final(self).pid_map() == old(self).pid_map(),
            final(self).focus_queue() == old(self).focus_queue(),
    {
        self.config = config;
    }
}

fn find_index(windows: &Vec<Window>, id: u64) -> (r: Option<usize>)
    ensures
        r matches Some(i) ==> i < windows@.len() && windows@[i as int].id == id,
        match r {
            Some(i) => first_with_id(windows_view(windows@), id, 0) == Some(i as int),
            None => first_with_id(windows_view(windows@), id, 0) is None,
        },
{
    let ghost ws = windows_view(windows@);
    let mut i: usize = 0;
    while i < windows.len()
        invariant
            i <= windows@.len(),
            ws == windows_view(windows@),
            first_with_id(ws, id, 0) == first_with_id(ws, id, i as int),
        decreases windows@.len() - i,
    {
        assert(ws[i as int].id == windows@[i as int].id);
        if windows[i].id == id {
            return Some(i);
        }
        i = i + 1;
    }
    None
}

fn child_rule_match(cache: &mut WindowMatcherCache, rule: &SwallowRule, child_window: &Window) -> (r:
    Result<bool, PatternError>)
    ensures
        pattern_result(r) == child_match(rule@, child_window@),
{
    let has_child_conditions = rule.child_app_id.is_some() || rule.child_title.is_some();
    if !has_child_conditions {
        // If no child conditions specified, match all
        return Ok(true);
    }
    matches_window(
        child_window,
        rule.child_app_id.as_ref(),
        rule.child_title.as_ref(),
        None,
        None,
        cache,
    )
}

fn parent_rule_match(cache: &mut WindowMatcherCache, rule: &SwallowRule, window: &Window) -> (r:
    Result<bool, PatternError>)
    ensures
        pattern_result(r) == parent_match(rule@, window@),
{
    let has_rule_conditions = rule.parent_app_id.is_some() || rule.parent_title.is_some();
    if !has_rule_conditions {
        return Ok(true);
    }
    matches_window(
        window,
        rule.parent_app_id.as_ref(),
        rule.parent_title.as_ref(),
        None,
        None,
        cache,
    )
}

fn parent_for_rule(
    cache: &mut WindowMatcherCache,
    queue: &Vec<u64>,
    rule: &SwallowRule,
    child_window_id: u64,
    focused_window: &Window,
    windows: &Vec<Window>,
) -> (r: Result<Option<Window>, PatternError>)
    ensures
        window_result(r) == rule_parent(
            queue@,
            rule@,
            child_window_id,
            focused_window@,
            windows_view(windows@),
        ),
{
    if focused_window.id == child_window_id {
        // Search the queue from newest to oldest
        let ghost ws = windows_view(windows@);
        let ghost q = queue@;
        let mut k: usize = queue.len();
        while k > 0
            invariant
                focused_window.id == child_window_id,
                k <= q.len(),
                q == queue@,
                ws == windows_view(windows@),
                queue_parent(q, child_window_id, ws, rule@, q.len() as int) == queue_parent(
                    q,
                    child_window_id,
                    ws,
                    rule@,
                    k as int,
                ),
            decreases k,
        {
            let prev_focused_id = queue[k - 1];
            if prev_focused_id != child_window_id {
                match find_index(windows, prev_focused_id) {
                    Some(idx) => {
                        assert(ws[idx as int] == windows@[idx as int]@);
                        match parent_rule_match(cache, rule, &windows[idx]) {
                            Ok(true) => {
                                let parent = windows[idx].clone();
                                assert(queue_parent(q, child_window_id, ws, rule@, k as int)
                                    == Ok::<Option<WindowView>, Seq<char>>(Some(ws[idx as int])));
                                return Ok(Some(parent));
                            },
                            Ok(false) => {},
                            Err(e) => {
                                return Err(e);
                            },
                        }
                    },
                    None => {},
                }
            }
            k = k - 1;
        }
        return Ok(None);
    }
    match parent_rule_match(cache, rule, focused_window) {
        Ok(true) => Ok(Some(focused_window.clone())),
        Ok(false) => Ok(None),
        Err(e) => Err(e),
    }
}

/// Without rules the plugin swallows nothing: no parent found by process-tree
/// matching is accepted, and the rule-based search finds no parent.
pub proof fn law_no_rules_no_swallow(
    child: WindowView,
    parent: WindowView,
    queue: Seq<u64>,
    focused: Option<WindowView>,
    windows: Seq<WindowView>,
)
    ensures
        pid_parent_accepted(Seq::<SwallowRuleView>::empty(), child, parent, 0) == Ok::<
            bool,
            Seq<char>,
        >(false),
        rules_parent(Seq::<SwallowRuleView>::empty(), child, queue, focused, windows, 0) == Ok::<
            Option<(int, WindowView)>,
            Seq<char>,
        >(None),
{
}

proof fn lemma_first_with_id(windows: Seq<WindowView>, id: u64, i: int)
    requires
        0 <= i,
    ensures
        match first_with_id(windows, id, i) {
            Some(x) => i <= x < windows.len() && windows[x].id == id && forall|y: int|
                i <= y < x ==> windows[y].id != id,
            None => forall|y: int| i <= y < windows.len() ==> windows[y].id != id,
        },
    decreases windows.len() - i,
{
    if i < windows.len() && windows[i].id != id {
        lemma_first_with_id(windows, id, i + 1);
    }
}

proof fn lemma_queue_skips_newer(
    queue: Seq<u64>,
    child_id: u64,
    windows: Seq<WindowView>,
    rule: SwallowRuleView,
    j: int,
    k: int,
)
    requires
        0 <= j < k <= queue.len(),
        forall|m: int|
            #![trigger queue[m]]
            j < m < queue.len() ==> queue[m] == child_id || forall|x: int|
                0 <= x < windows.len() && windows[x].id == queue[m] ==> parent_match(
                    rule,
                    windows[x],
                ) == Ok::<bool, Seq<char>>(false),
    ensures
        queue_parent(queue, child_id, windows, rule, k) == queue_parent(
            queue,
            child_id,
            windows,
            rule,
            j + 1,
        ),
    decreases k - j,
{
    if k > j + 1 {
        let m = k - 1;
        lemma_first_with_id(windows, queue[m], 0);
        lemma_queue_skips_newer(queue, child_id, windows, rule, j, k - 1);
    }
}

/// When the focused window is the child itself, the parent is the newest
/// window in the focus queue that meets the rule's parent conditions: newer
/// queue entries that are the child, that are not among the windows, or whose
/// window fails the conditions are passed over, and the search goes on to
/// older entries.
pub proof fn law_queue_parent_is_newest_match(
    queue: Seq<u64>,
    rule: SwallowRuleView,
    child_id: u64,
    focused: WindowView,
    windows: Seq<WindowView>,
    j: int,
    i: int,
)
    requires
        focused.id == child_id,
        0 <= j < queue.len(),
        queue[j] != child_id,
        0 <= i < windows.len(),
        windows[i].id == queue[j],
        forall|y: int| 0 <= y < i ==> windows[y].id != queue[j],
        parent_match(rule, windows[i]) == Ok::<bool, Seq<char>>(true),
        forall|m: int|
            #![trigger queue[m]]
            j < m < queue.len() ==> queue[m] == child_id || forall|x: int|
                0 <= x < windows.len() && windows[x].id == queue[m] ==> parent_match(
                    rule,
                    windows[x],
                ) == Ok::<bool, Seq<char>>(false),
    ensures
        rule_parent(queue, rule, child_id, focused, windows) == Ok::<
            Option<WindowView>,
            Seq<char>,
        >(Some(windows[i])),
{
    lemma_queue_skips_newer(queue, child_id, windows, rule, j, queue.len() as int);
    lemma_first_with_id(windows, queue[j], 0);
}

/// The focus queue never holds a window twice nor more than five windows, and
/// the window focused last is at its back.
pub proof fn law_focus_queue_bounded(queue: Seq<u64>, id: u64)
    requires
        queue.no_duplicates(),
    ensures
        queue_after_focus(queue, id).no_duplicates(),
        queue_after_focus(queue, id).len() <= FOCUS_QUEUE_CAPACITY,
        queue_after_focus(queue, id).last() == id,
        queue_after_focus(queue, id).contains(id),
{
    lemma_without_no_duplicates(queue, id);
    lemma_without(queue, id);
    let q = without(queue, id).push(id);
    assert forall|i: int, j: int| 0 <= i < j < q.len() implies q[i] != q[j] by {
        if j == q.len() - 1 {
            assert(without(queue, id)[i] == q[i]);
            assert(without(queue, id).contains(q[i]));
        }
    }
    assert(q.no_duplicates());
    if q.len() > FOCUS_QUEUE_CAPACITY {
        let s = q.skip(q.len() - FOCUS_QUEUE_CAPACITY);
        assert forall|i: int, j: int| 0 <= i < j < s.len() implies s[i] != s[j] by {
            assert(s[i] == q[i + q.len() - FOCUS_QUEUE_CAPACITY]);
            assert(s[j] == q[j + q.len() - FOCUS_QUEUE_CAPACITY]);
        }
        assert(s[s.len() - 1] == id);
    } else {
        assert(q[q.len() - 1] == id);
    }
}

proof fn lemma_without_no_duplicates(ids: Seq<u64>, id: u64)
    requires
        ids.no_duplicates(),
    ensures
        without(ids, id).no_duplicates(),
    decreases ids.len(),
{
    if ids.len() > 0 {
        let dl = ids.drop_last();
        assert(dl.no_duplicates()) by {
            assert forall|i: int, j: int| 0 <= i < j < dl.len() implies dl[i] != dl[j] by {
                assert(dl[i] == ids[i] && dl[j] == ids[j]);
            }
        }
        lemma_without_no_duplicates(dl, id);
        lemma_without(dl, id);
        if ids.last() != id {
            let w = without(dl, id);
            assert(!w.contains(ids.last())) by {
                if w.contains(ids.last()) {
                    assert(dl.contains(ids.last()));
                    let k = choose|k: int| 0 <= k < dl.len() && dl[k] == ids.last();
                    assert(ids[k] == ids[ids.len() - 1]);
                }
            }
            let p = w.push(ids.last());
            assert forall|i: int, j: int| 0 <= i < j < p.len() implies p[i] != p[j] by {
                if j == p.len() - 1 {
                    assert(p[i] == w[i]);
                }
            }
        }
    }
}

} // verus!
