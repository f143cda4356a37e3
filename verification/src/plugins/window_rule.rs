//! The window rule plugin: windows that match a rule are moved to the rule's
//! workspace, and the rule's focus command runs when they are focused.
use vstd::prelude::*;
use std::collections::HashSet;

use crate::config::{Config, WindowRuleConfig, WindowRuleView};
use crate::plugins::window_utils::{
    law_matcher_accepts_on_any_match, matcher_result, pattern_result, patterns_valid, ref_text,
    some_pattern_matches, workspace_label, PatternError, Window,
    WindowMatcherCache, WorkspaceInfo, WorkspaceInfoView,
};
use crate::plugins::{FromConfig, PluginEvent};
use crate::text::{decimal, same_text, to_decimal};
use crate::utils::{elapsed_nanos, period_nanos, throttle_check, Throttle};

verus! {

/// The rules with their texts as character sequences.
pub open spec fn rules_view(rules: Seq<WindowRuleConfig>) -> Seq<WindowRuleView> {
    rules.map_values(|r: WindowRuleConfig| r@)
}

/// Window rule plugin config (for internal use)
#[derive(Debug)]
pub struct WindowRulePluginConfig {
    /// List of window rules
    pub rules: Vec<WindowRuleConfig>,
}

fn clone_rules(rules: &Vec<WindowRuleConfig>) -> (r: Vec<WindowRuleConfig>)
    ensures
        rules_view(r@) == rules_view(rules@),
{
    let mut out: Vec<WindowRuleConfig> = Vec::new();
    let mut i: usize = 0;
    while i < rules.len()
        invariant
            i <= rules@.len(),
            rules_view(out@) == rules_view(rules@.subrange(0, i as int)),
        decreases rules@.len() - i,
    {
        let c = rules[i].clone();
        proof {
            assert(rules_view(out@.push(c)) =~= rules_view(out@).push(c@));
            assert(rules_view(rules@.subrange(0, i + 1)) =~= rules_view(
                rules@.subrange(0, i as int),
            ).push(rules@[i as int]@));
        }
        out.push(c);
        i = i + 1;
    }
    assert(rules@.subrange(0, rules@.len() as int) =~= rules@);
    out
}

impl Clone for WindowRulePluginConfig {
    fn clone(&self) -> (r: Self)
        ensures
            rules_view(r.rules@) == rules_view(self.rules@),
    {
        WindowRulePluginConfig { rules: clone_rules(&self.rules) }
    }
}

impl Default for WindowRulePluginConfig {
    fn default() -> (r: Self)
        ensures
            r.rules@.len() == 0,
    {
        Self { rules: Vec::new() }
    }
}

impl FromConfig for WindowRulePluginConfig {
    /// The window rules of the configuration; none when there are no rules.
    fn from_config(config: &Config) -> (r: Option<Self>)
        ensures
            r is None <==> config.window_rule@.len() == 0,
            r matches Some(c) ==> rules_view(c.rules@) == rules_view(config.window_rule@),
    {
        if config.window_rule.len() == 0 {
            None
        } else {
            Some(Self { rules: clone_rules(&config.window_rule) })
        }
    }
}

/// The first rule, from index `i` on, that the window matches. When
/// `with_focus_command` holds, rules without a focus command are passed over
/// without being tried. An invalid pattern met on the way is an error.
pub open spec fn first_rule_match(
    rules: Seq<WindowRuleView>,
    app_id: Option<Seq<char>>,
    title: Option<Seq<char>>,
    with_focus_command: bool,
    i: int,
) -> Result<Option<int>, Seq<char>>
    decreases rules.len() - i,
{
    if i < 0 || i >= rules.len() {
        Ok(None)
    } else if with_focus_command && rules[i].focus_command is None {
        first_rule_match(rules, app_id, title, with_focus_command, i + 1)
    } else {
        match matcher_result(rules[i].app_id, rules[i].title, app_id, title) {
            Err(e) => Err(e),
            Ok(true) => Ok(Some(i)),
            Ok(false) => first_rule_match(rules, app_id, title, with_focus_command, i + 1),
        }
    }
}

/// Whether the window (its app_id and title) matches the rule: one of the
/// rule's app_id patterns matches the app_id, or one of its title patterns
/// matches the title.
pub open spec fn rule_matches_window(
    rule: WindowRuleView,
    app_id: Option<Seq<char>>,
    title: Option<Seq<char>>,
) -> bool {
    some_pattern_matches(rule.app_id, app_id) || some_pattern_matches(rule.title, title)
}

/// Whether the rule is tried at all: when a focus command is wanted, rules
/// without one are passed over.
pub open spec fn rule_eligible(rule: WindowRuleView, with_focus_command: bool) -> bool {
    !(with_focus_command && rule.focus_command is None)
}

proof fn lemma_first_rule_skips(
    rules: Seq<WindowRuleView>,
    app_id: Option<Seq<char>>,
    title: Option<Seq<char>>,
    with_focus_command: bool,
    k: int,
)
    requires
        0 <= k <= rules.len(),
        forall|m: int|
            #![trigger rules[m]]
            0 <= m < k ==> patterns_valid(rules[m].app_id) && patterns_valid(rules[m].title) && !(
            rule_eligible(rules[m], with_focus_command) && rule_matches_window(
                rules[m],
                app_id,
                title,
            )),
    ensures
        first_rule_match(rules, app_id, title, with_focus_command, 0) == first_rule_match(
            rules,
            app_id,
            title,
            with_focus_command,
            k,
        ),
    decreases k,
{
    if k > 0 {
        lemma_first_rule_skips(rules, app_id, title, with_focus_command, k - 1);
        let r = rules[k - 1];
        law_matcher_accepts_on_any_match(r.app_id, r.title, app_id, title);
    }
}

/// The rule chosen for a window is the first one it matches, where a window
/// matches a rule (whose patterns compile) exactly when one of the rule's
/// app_id patterns matches its app_id or one of its title patterns matches
/// its title (OR logic); when a focus command is wanted, rules without one
/// are passed over. When no rule matches, none is chosen.
pub proof fn law_first_rule_is_first_match(
    rules: Seq<WindowRuleView>,
    app_id: Option<Seq<char>>,
    title: Option<Seq<char>>,
    with_focus_command: bool,
    k: int,
)
    requires
        0 <= k <= rules.len(),
        forall|m: int|
            #![trigger rules[m]]
            0 <= m < k ==> patterns_valid(rules[m].app_id) && patterns_valid(rules[m].title) && !(
            rule_eligible(rules[m], with_focus_command) && rule_matches_window(
                rules[m],
                app_id,
                title,
            )),
    ensures
        k == rules.len() ==> first_rule_match(rules, app_id, title, with_focus_command, 0)
            == Ok::<Option<int>, Seq<char>>(None),
        k < rules.len() && patterns_valid(rules[k].app_id) && patterns_valid(rules[k].title)
            && rule_eligible(rules[k], with_focus_command) && rule_matches_window(
            rules[k],
            app_id,
            title,
        ) ==> first_rule_match(rules, app_id, title, with_focus_command, 0) == Ok::<
            Option<int>,
            Seq<char>,
        >(Some(k)),
{
    lemma_first_rule_skips(rules, app_id, title, with_focus_command, k);
    if k < rules.len() && patterns_valid(rules[k].app_id) && patterns_valid(rules[k].title) {
        law_matcher_accepts_on_any_match(rules[k].app_id, rules[k].title, app_id, title);
    }
}

pub open spec fn index_result(r: Result<Option<usize>, PatternError>) -> Result<Option<int>, Seq<char>> {
    match r {
        Ok(Some(i)) => Ok(Some(i as int)),
        Ok(None) => Ok(None),
        Err(e) => Err(e.pattern@),
    }
}

/// Whether the window (on workspace `window_workspace_id`, 0 when unknown) is
/// already on the workspace labelled `target`: some workspace has the
/// window's workspace id and is named `target` or has `target` as index.
pub open spec fn already_on_workspace_spec(
    workspaces: Seq<WorkspaceInfoView>,
    window_workspace_id: Option<u64>,
    target: Seq<char>,
) -> bool {
    exists|i: int|
        0 <= i < workspaces.len() && #[trigger] workspaces[i].id == (match window_workspace_id {
            Some(w) => w,
            None => 0,
        }) && (workspaces[i].name == Some(target) || decimal(workspaces[i].idx as nat) == target)
}

/// Check if a window is already on the workspace it should be moved to.
pub fn is_already_on_workspace(
    workspaces: &Vec<WorkspaceInfo>,
    window_workspace_id: Option<u64>,
    target: &str,
) -> (r: bool)
    ensures
        r == already_on_workspace_spec(
            workspaces@.map_values(|w: WorkspaceInfo| w@),
            window_workspace_id,
            target@,
        ),
{
    let ghost ws = workspaces@.map_values(|w: WorkspaceInfo| w@);
    let wid = match window_workspace_id {
        Some(w) => w,
        None => 0,
    };
    let mut i: usize = 0;
    while i < workspaces.len()
        invariant
            i <= workspaces@.len(),
            ws == workspaces@.map_values(|w: WorkspaceInfo| w@),
            wid == (match window_workspace_id {
                Some(w) => w,
                None => 0,
            }),
            forall|j: int|
                0 <= j < i ==> !(ws[j].id == wid && (ws[j].name == Some(target@) || decimal(
                    ws[j].idx as nat,
                ) == target@)),
        decreases workspaces@.len() - i,
    {
        let w = &workspaces[i];
        assert(ws[i as int] == w@);
        if w.id == wid {
            let by_name = match &w.name {
                Some(n) => same_text(n.as_str(), target),
                None => false,
            };
            let idx_text = to_decimal(w.idx as u64);
            if by_name || same_text(idx_text.as_str(), target) {
                assert(ws[i as int].id == wid);
                return true;
            }
        }
        i = i + 1;
    }
    false
}

/// What `focus_rule_should_run` decides for rule `rule_index`, with `before`
/// and `after` the plugin before and after the call and `r` its answer: a
/// rule that runs its command once only and already has is refused and the
/// execution throttle is left alone; any other rule runs when the 200 ms
/// execution throttle lets it through (see `throttle_check`).
pub open spec fn focus_decision(
    before: WindowRulePlugin,
    after: WindowRulePlugin,
    rule_index: usize,
    focus_once: bool,
    r: bool,
) -> bool {
    if focus_once && before.executed_rules().contains(rule_index) {
        !r && after.execution_throttle() == before.execution_throttle()
    } else {
        throttle_check(before.execution_throttle(), after.execution_throttle(), 200, true, r)
    }
}

/// Window rule plugin state: the rules, the pattern cache and the
/// de-duplication of focus commands.
pub struct WindowRulePlugin {
    config: WindowRulePluginConfig,
    /// Window matcher cache for regex pattern matching
    matcher_cache: WindowMatcherCache,
    /// Last window ID that triggered focus command
    last_focused_window: Option<u64>,
    /// Throttle for focus command execution
    execution_throttle: Throttle,
    /// Set of rule indices that have already executed focus_command (when focus_command_once is true)
    executed_rules: HashSet<usize>,
    /// Last window ID that was processed by handle_focus_command (for throttling)
    last_handled_window: Option<u64>,
    /// Throttle for handle_focus_command
    handle_throttle: Throttle,
}

impl WindowRulePlugin {
    /// The rules in force.
    pub closed spec fn rules(&self) -> Seq<WindowRuleView> {
        rules_view(self.config.rules@)
    }

    /// The rules whose focus command ran while they are marked once-only.
    pub closed spec fn executed_rules(&self) -> Set<usize> {
        self.executed_rules@
    }

    pub closed spec fn last_focused_window(&self) -> Option<u64> {
        self.last_focused_window
    }

    pub closed spec fn last_handled_window(&self) -> Option<u64> {
        self.last_handled_window
    }

    /// The throttle that spaces out focus commands.
    pub closed spec fn execution_throttle(&self) -> Throttle {
        self.execution_throttle
    }

    /// The throttle that spaces out the handling of focus changes.
    pub closed spec fn handle_throttle(&self) -> Throttle {
        self.handle_throttle
    }

    /// The patterns the plugin has compiled so far.
    pub closed spec fn pattern_cache(&self) -> Seq<Seq<char>> {
        self.matcher_cache.cached_patterns()
    }

    pub fn new(config: WindowRulePluginConfig) -> (r: Self)
        ensures
            r.rules() == rules_view(config.rules@),
            r.executed_rules().is_empty(),
            r.last_focused_window() is None,
            r.last_handled_window() is None,
            r.execution_throttle().last_execution() is None,
            r.handle_throttle().last_execution() is None,
            r.pattern_cache().len() == 0,
    {
        let r = Self {
            config,
            matcher_cache: WindowMatcherCache::new(),
            last_focused_window: None,
            execution_throttle: Throttle::new(),
            executed_rules: HashSet::new(),
            last_handled_window: None,
            handle_throttle: Throttle::new(),
        };
        assert(r.executed_rules@ =~= Set::<usize>::empty());
        r
    }

    /// The rules in force.
    pub fn rule_list(&self) -> (r: &Vec<WindowRuleConfig>)
        ensures
            rules_view(r@) == self.rules(),
    {
        &self.config.rules
    }

    /// Whether the focus command of rule `rule_index` is to run now: not when
    /// the rule runs it once only and already has; otherwise when the global
    /// 200 ms execution throttle lets it through.
    pub fn focus_rule_should_run(&mut self, rule_index: usize, focus_once: bool) -> (r: bool)
        ensures
            final(self).rules() == old(self).rules(),
            final(self).executed_rules() == old(self).executed_rules(),
            final(self).last_focused_window() == old(self).last_focused_window(),
            final(self).last_handled_window() == old(self).last_handled_window(),
            final(self).handle_throttle() == old(self).handle_throttle(),
            focus_decision(*old(self), *final(self), rule_index, focus_once, r),
    {
        // If focus_once is true and this rule has already executed focus_command, skip
        if focus_once && self.executed_rules.contains(&rule_index) {
            return false;
        }
        // Global throttle: prevent executing focus_command too frequently regardless of window ID
        self.execution_throttle.check_and_update(200)
    }

    /// Records that the focus command of rule `rule_index` ran for window
    /// `window_id`.
    pub fn record_focus_execution(&mut self, window_id: u64, rule_index: usize, focus_once: bool)
        ensures
            final(self).rules() == old(self).rules(),
            final(self).executed_rules() == (if focus_once {
                old(self).executed_rules().insert(rule_index)
            } else {
                old(self).executed_rules()
            }),
            final(self).last_focused_window() == Some(window_id),
            final(self).last_handled_window() == old(self).last_handled_window(),
            final(self).execution_throttle() == old(self).execution_throttle(),
            final(self).handle_throttle() == old(self).handle_throttle(),
    {
        if focus_once {
            self.executed_rules.insert(rule_index);
        }
        self.last_focused_window = Some(window_id);
    }

    /// Starts handling a focus change to `window_id`: `false` when the 200 ms
    /// handling throttle holds it back; otherwise the window is recorded as
    /// the last one handled.
    pub fn begin_focus_handling(&mut self, window_id: u64) -> (r: bool)
        ensures
            final(self).rules() == old(self).rules(),
            final(self).executed_rules() == old(self).executed_rules(),
            final(self).last_focused_window() == old(self).last_focused_window(),
            final(self).last_handled_window() == (if r {
                Some(window_id)
            } else {
                old(self).last_handled_window()
            }),
            final(self).execution_throttle() == old(self).execution_throttle(),
            throttle_check(old(self).handle_throttle(), final(self).handle_throttle(), 200, true, r),
    {
        if !self.handle_throttle.check_and_update(200) {
            return false;
        }
        self.last_handled_window = Some(window_id);
        true
    }

    fn first_rule(
        &mut self,
        app_id: Option<&String>,
        title: Option<&String>,
        with_focus_command: bool,
    ) -> (r: Result<Option<usize>, PatternError>)
        ensures
            final(self).rules() == old(self).rules(),
            final(self).executed_rules() == old(self).executed_rules(),
            final(self).last_focused_window() == old(self).last_focused_window(),
            final(self).last_handled_window() == old(self).last_handled_window(),
            final(self).execution_throttle() == old(self).execution_throttle(),
            final(self).handle_throttle() == old(self).handle_throttle(),
            index_result(r) == first_rule_match(
                old(self).rules(),
                ref_text(app_id),
                ref_text(title),
                with_focus_command,
                0,
            ),
    {
        let ghost rules = self.rules();
        let n = self.config.rules.len();
        let mut i: usize = 0;
        while i < n
            invariant
                n == self.config.rules@.len(),
                i <= n,
                rules == self.rules(),
                self.rules() == old(self).rules(),
                self.executed_rules() == old(self).executed_rules(),
                self.last_focused_window() == old(self).last_focused_window(),
                self.last_handled_window() == old(self).last_handled_window(),
                self.execution_throttle() == old(self).execution_throttle(),
                self.handle_throttle() == old(self).handle_throttle(),
                first_rule_match(rules, ref_text(app_id), ref_text(title), with_focus_command, 0)
                    == first_rule_match(
                    rules,
                    ref_text(app_id),
                    ref_text(title),
                    with_focus_command,
                    i as int,
                ),
            decreases n - i,
        {
            assert(rules[i as int] == self.config.rules@[i as int]@);
            let skip = with_focus_command && self.config.rules[i].focus_command.is_none();
            if !skip {
                let m = self.matcher_cache.matches_patterns(
                    app_id,
                    title,
                    self.config.rules[i].app_id.as_ref(),
                    self.config.rules[i].title.as_ref(),
                );
                match m {
                    Ok(true) => {
                        return Ok(Some(i));
                    },
                    Ok(false) => {},
                    Err(e) => {
                        return Err(e);
                    },
                }
            }
            i = i + 1;
        }
        Ok(None)
    }

    /// The rule whose focus command applies to a focused window: the first
    /// rule with a focus command that the window (its app_id and title)
    /// matches.
    pub fn focus_rule_for(&mut self, window: &Window) -> (r: Result<Option<usize>, PatternError>)
        ensures
            final(self).rules() == old(self).rules(),
            final(self).executed_rules() == old(self).executed_rules(),
            final(self).last_focused_window() == old(self).last_focused_window(),
            final(self).last_handled_window() == old(self).last_handled_window(),
            final(self).execution_throttle() == old(self).execution_throttle(),
            final(self).handle_throttle() == old(self).handle_throttle(),
            index_result(r) == first_rule_match(
                old(self).rules(),
                window@.app_id,
                Some(window@.title),
                true,
                0,
            ),
    {
        self.first_rule(window.app_id.as_ref(), Some(&window.title), true)
    }

    /// The rule that applies to an opened window: the first rule that the
    /// window (its app_id and title) matches. Only that rule is applied.
    pub fn rule_for_opened_window(&mut self, app_id: Option<&String>, title: Option<&String>) -> (r:
        Result<Option<usize>, PatternError>)
        ensures
            final(self).rules() == old(self).rules(),
            final(self).executed_rules() == old(self).executed_rules(),
            final(self).last_focused_window() == old(self).last_focused_window(),
            final(self).last_handled_window() == old(self).last_handled_window(),
            final(self).execution_throttle() == old(self).execution_throttle(),
            final(self).handle_throttle() == old(self).handle_throttle(),
            index_result(r) == first_rule_match(
                old(self).rules(),
                ref_text(app_id),
                ref_text(title),
                false,
                0,
            ),
    {
        self.first_rule(app_id, title, false)
    }

    /// The events this plugin reacts to: opened or changed windows and focus
    /// moving to a window.
    pub fn is_interested_in_event(&self, event: &PluginEvent) -> (r: bool)
        ensures
            r == (event is WindowOpenedOrChanged || event matches PluginEvent::WindowFocusChanged(
                Some(_),
            )),
    {
        match event {
            PluginEvent::WindowOpenedOrChanged(_) => true,
            PluginEvent::WindowFocusChanged(Some(_)) => true,
            _ => false,
        }
    }

    /// Replaces the rules; the pattern cache and the once-only records are
    /// cleared, since rule indices may have changed.
    pub fn update_config(&mut self, config: WindowRulePluginConfig)
        ensures
            final(self).rules() == rules_view(config.rules@),
            final(self).executed_rules().is_empty(),
            final(self).last_focused_window() == old(self).last_focused_window(),
            final(self).last_handled_window() == old(self).last_handled_window(),
            final(self).execution_throttle() == old(self).execution_throttle(),
            final(self).handle_throttle() == old(self).handle_throttle(),
            final(self).pattern_cache().len() == 0,
    {
        self.config = config;
        self.matcher_cache.clear_cache();
        self.executed_rules.clear();
        assert(self.executed_rules@ =~= Set::<usize>::empty());
    }
}

/// A rule that runs its focus command once only does not run it again:
/// once `record_focus_execution` has recorded it among the executed rules
/// (which only `update_config` clears), `focus_rule_should_run` refuses it
/// whatever the clock reads.
pub proof fn law_focus_once_runs_once(
    before: WindowRulePlugin,
    after: WindowRulePlugin,
    rule_index: usize,
    r: bool,
)
    requires
        before.executed_rules().contains(rule_index),
        focus_decision(before, after, rule_index, true, r),
    ensures
        !r,
{
}

/// Two focus commands that `focus_rule_should_run` lets through one after
/// the other (nothing else touching the execution throttle in between) are at
/// least 200 ms apart.
pub proof fn law_focus_commands_are_spaced(
    b1: WindowRulePlugin,
    a1: WindowRulePlugin,
    i1: usize,
    o1: bool,
    b2: WindowRulePlugin,
    a2: WindowRulePlugin,
    i2: usize,
    o2: bool,
)
    requires
        focus_decision(b1, a1, i1, o1, true),
        b2.execution_throttle() == a1.execution_throttle(),
        focus_decision(b2, a2, i2, o2, true),
    ensures
        elapsed_nanos(
            a1.execution_throttle().last_reading()->0,
            a2.execution_throttle().last_reading()->0,
        ) >= period_nanos(200),
{
}

/// One round of the focus-command logic for rule `rule_index`:
/// `focus_rule_should_run` takes the plugin from `a` to `b` with answer `ran`
/// (its `ensures` leave the executed rules alone); then, when the command
/// ran, `record_focus_execution` records it. Anything else may happen before
/// `c` as long as it leaves the executed rules and the execution throttle
/// alone (every method but `update_config` does).
pub open spec fn focus_round(
    a: WindowRulePlugin,
    b: WindowRulePlugin,
    c: WindowRulePlugin,
    rule_index: usize,
    focus_once: bool,
    ran: bool,
) -> bool {
    &&& focus_decision(a, b, rule_index, focus_once, ran)
    &&& b.executed_rules() == a.executed_rules()
    &&& c.execution_throttle() == b.execution_throttle()
    &&& c.executed_rules() == (if ran && focus_once {
        b.executed_rules().insert(rule_index)
    } else {
        b.executed_rules()
    })
}

/// A run of focus-command rounds: round `k` takes the plugin from `s[2k]`
/// through `s[2k + 1]` to `s[2k + 2]`, for rule `rules[k]`, with the
/// once-only flag `once[k]` and the answer `ran[k]`.
pub open spec fn focus_rounds(
    s: Seq<WindowRulePlugin>,
    rules: Seq<usize>,
    once: Seq<bool>,
    ran: Seq<bool>,
) -> bool {
    &&& s.len() == 2 * ran.len() + 1
    &&& rules.len() == ran.len()
    &&& once.len() == ran.len()
    &&& forall|k: int|
        0 <= k < ran.len() ==> #[trigger] focus_round(
            s[2 * k],
            s[2 * k + 1],
            s[2 * k + 2],
            rules[k],
            once[k],
            ran[k],
        )
}

#[verifier::spinoff_prover]
proof fn lemma_executed_rules_grow(
    s: Seq<WindowRulePlugin>,
    rules: Seq<usize>,
    once: Seq<bool>,
    ran: Seq<bool>,
    j: int,
    k: int,
)
    requires
        focus_rounds(s, rules, once, ran),
        0 <= j <= k <= ran.len(),
    ensures
        s[2 * j].executed_rules().subset_of(s[2 * k].executed_rules()),
    decreases k - j,
{
    if j < k {
        lemma_executed_rules_grow(s, rules, once, ran, j, k - 1);
        assert(focus_round(
            s[2 * (k - 1)],
            s[2 * (k - 1) + 1],
            s[2 * (k - 1) + 2],
            rules[k - 1],
            once[k - 1],
            ran[k - 1],
        ));
        assert(2 * (k - 1) + 2 == 2 * k);
    }
}

/// Over any run of rounds for one rule that runs its focus command once
/// only (with no `update_config` in between), the command runs at most once.
#[verifier::spinoff_prover]
pub proof fn law_focus_once_runs_at_most_once(
    s: Seq<WindowRulePlugin>,
    rules: Seq<usize>,
    once: Seq<bool>,
    ran: Seq<bool>,
    rule_index: usize,
    k1: int,
    k2: int,
)
    requires
        focus_rounds(s, rules, once, ran),
        forall|k: int| 0 <= k < ran.len() ==> rules[k] == rule_index && once[k],
        0 <= k1 < k2 < ran.len(),
    ensures
        !(ran[k1] && ran[k2]),
{
    if ran[k1] {
        assert(focus_round(
            s[2 * k1],
            s[2 * k1 + 1],
            s[2 * k1 + 2],
            rules[k1],
            once[k1],
            ran[k1],
        ));
        assert(s[2 * (k1 + 1)].executed_rules().contains(rule_index));
        lemma_executed_rules_grow(s, rules, once, ran, k1 + 1, k2);
        assert(focus_round(
            s[2 * k2],
            s[2 * k2 + 1],
            s[2 * k2 + 2],
            rules[k2],
            once[k2],
            ran[k2],
        ));
    }
}

/// Over any run of rounds, a focus command runs only at least 200 ms after
/// the last earlier round that consulted the execution throttle (whether
/// that round ran its command or was held back), so retrying does not get
/// round the throttle. The rounds in between are those of once-only rules
/// that already ran, which do not consult it.
#[verifier::spinoff_prover]
pub proof fn law_focus_commands_are_spaced_over_rounds(
    s: Seq<WindowRulePlugin>,
    rules: Seq<usize>,
    once: Seq<bool>,
    ran: Seq<bool>,
    k1: int,
    k2: int,
)
    requires
        focus_rounds(s, rules, once, ran),
        0 <= k1 < k2 < ran.len(),
        !(once[k1] && s[2 * k1].executed_rules().contains(rules[k1])),
        forall|k: int|
            #![trigger once[k]]
            k1 < k < k2 ==> once[k] && s[2 * k].executed_rules().contains(rules[k]),
        ran[k2],
    ensures
        elapsed_nanos(
            s[2 * k1 + 1].execution_throttle().last_reading()->0,
            s[2 * k2 + 1].execution_throttle().last_reading()->0,
        ) >= period_nanos(200),
{
    assert(focus_round(
        s[2 * k1],
        s[2 * k1 + 1],
        s[2 * k1 + 2],
        rules[k1],
        once[k1],
        ran[k1],
    ));
    lemma_throttle_kept(s, rules, once, ran, k1, k2);
    assert(focus_round(
        s[2 * k2],
        s[2 * k2 + 1],
        s[2 * k2 + 2],
        rules[k2],
        once[k2],
        ran[k2],
    ));
}

#[verifier::spinoff_prover]
proof fn lemma_throttle_kept(
    s: Seq<WindowRulePlugin>,
    rules: Seq<usize>,
    once: Seq<bool>,
    ran: Seq<bool>,
    k1: int,
    k: int,
)
    requires
        focus_rounds(s, rules, once, ran),
        0 <= k1 < k <= ran.len(),
        forall|j: int|
            #![trigger once[j]]
            k1 < j < k ==> once[j] && s[2 * j].executed_rules().contains(rules[j]),
    ensures
        s[2 * k].execution_throttle() == s[2 * k1 + 2].execution_throttle(),
    decreases k - k1,
{
    if k > k1 + 1 {
        lemma_throttle_kept(s, rules, once, ran, k1, k - 1);
        assert(focus_round(
            s[2 * (k - 1)],
            s[2 * (k - 1) + 1],
            s[2 * (k - 1) + 2],
            rules[k - 1],
            once[k - 1],
            ran[k - 1],
        ));
        assert(2 * (k - 1) + 2 == 2 * k);
    }
}

} // verus!
