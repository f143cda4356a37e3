//! The plugins: their configuration sections, the events they listen to and
//! the decisions they take.
use vstd::prelude::*;

use crate::config::{plugin_enabled, Config, PluginsConfig};

pub mod swallow;
pub mod window_rule;
pub mod window_utils;

verus! {

/// Builds a plugin's configuration out of the whole configuration; `None`
/// means the plugin has nothing to do.
pub trait FromConfig: Sized {
    fn from_config(config: &Config) -> Option<Self>;
}

impl FromConfig for () {
    fn from_config(_config: &Config) -> (r: Option<()>)
        ensures
            r is Some,
    {
        Some(())
    }
}

/// A window as it appears in a window-opened-or-changed event.
#[derive(Debug)]
pub struct EventWindow {
    pub id: u64,
    pub title: Option<String>,
    pub app_id: Option<String>,
    pub pid: Option<i32>,
    pub workspace_id: Option<u64>,
    pub is_floating: bool,
}

/// The compositor events the plugins react to.
#[derive(Debug)]
pub enum PluginEvent {
    WindowOpenedOrChanged(EventWindow),
    WindowClosed(u64),
    /// Focus moved to this window, or to no window.
    WindowFocusChanged(Option<u64>),
    WindowFocusTimestampChanged(u64),
    /// Any other event.
    Other,
}

/// The plugins of the daemon, in the order they are registered and receive
/// events.
#[derive(Debug, Clone, Copy, PartialEq, Eq, Structural)]
pub enum PluginKind {
    Empty,
    WindowRule,
    Scratchpads,
    Singleton,
    WindowOrder,
    Swallow,
    WorkspaceRule,
}

/// The configuration name of a plugin.
pub open spec fn plugin_kind_name(k: PluginKind) -> Seq<char> {
    match k {
        PluginKind::Empty => "empty"@,
        PluginKind::WindowRule => "window_rule"@,
        PluginKind::Scratchpads => "scratchpads"@,
        PluginKind::Singleton => "singleton"@,
        PluginKind::WindowOrder => "window_order"@,
        PluginKind::Swallow => "swallow"@,
        PluginKind::WorkspaceRule => "workspace_rule"@,
    }
}

impl PluginKind {
    pub fn name(&self) -> (r: &'static str)
        ensures
            r@ == plugin_kind_name(*self),
    {
        match self {
            PluginKind::Empty => "empty",
            PluginKind::WindowRule => "window_rule",
            PluginKind::Scratchpads => "scratchpads",
            PluginKind::Singleton => "singleton",
            PluginKind::WindowOrder => "window_order",
            PluginKind::Swallow => "swallow",
            PluginKind::WorkspaceRule => "workspace_rule",
        }
    }
}

/// All plugins, in registration order.
pub fn plugin_kinds() -> (r: Vec<PluginKind>)
    ensures
        r@ == seq![
            PluginKind::Empty,
            PluginKind::WindowRule,
            PluginKind::Scratchpads,
            PluginKind::Singleton,
            PluginKind::WindowOrder,
            PluginKind::Swallow,
            PluginKind::WorkspaceRule,
        ],
{
    let mut v = Vec::new();
    v.push(PluginKind::Empty);
    v.push(PluginKind::WindowRule);
    v.push(PluginKind::Scratchpads);
    v.push(PluginKind::Singleton);
    v.push(PluginKind::WindowOrder);
    v.push(PluginKind::Swallow);
    v.push(PluginKind::WorkspaceRule);
    assert(v@ =~= seq![
        PluginKind::Empty,
        PluginKind::WindowRule,
        PluginKind::Scratchpads,
        PluginKind::Singleton,
        PluginKind::WindowOrder,
        PluginKind::Swallow,
        PluginKind::WorkspaceRule,
    ]);
    v
}

/// What (re)initialising one plugin does to the running plugins.
#[derive(Debug, Clone, Copy, PartialEq, Eq, Structural)]
pub enum PluginAction {
    /// Hand the new configuration to the running instance (it is recreated
    /// if that fails).
    UpdateExisting,
    /// Start a new instance.
    Create,
    /// Stop the running instance.
    Remove,
    /// Nothing to do.
    Nothing,
}

/// A plugin is enabled when its switch is on and it has a configuration.
pub fn plugin_enabled_with(switch_on: bool, has_config: bool) -> (r: bool)
    ensures
        r == (switch_on && has_config),
{
    switch_on && has_config
}

/// An enabled plugin is updated when it runs and created otherwise; a
/// disabled plugin is stopped when it runs.
pub open spec fn plugin_action_spec(running: bool, enabled: bool) -> PluginAction {
    if enabled {
        if running {
            PluginAction::UpdateExisting
        } else {
            PluginAction::Create
        }
    } else if running {
        PluginAction::Remove
    } else {
        PluginAction::Nothing
    }
}

/// Whether the plugin runs once the action is carried out.
pub open spec fn runs_after(action: PluginAction, running: bool) -> bool {
    match action {
        PluginAction::UpdateExisting => true,
        PluginAction::Create => true,
        PluginAction::Remove => false,
        PluginAction::Nothing => running,
    }
}

/// Initialize or update a single plugin.
pub fn plugin_action(running: bool, enabled: bool) -> (r: PluginAction)
    ensures
        r == plugin_action_spec(running, enabled),
{
    if enabled {
        if running {
            PluginAction::UpdateExisting
        } else {
            PluginAction::Create
        }
    } else if running {
        PluginAction::Remove
    } else {
        PluginAction::Nothing
    }
}

/// After (re)initialisation a plugin runs exactly when it is enabled.
pub proof fn law_plugin_runs_iff_enabled(running: bool, enabled: bool)
    ensures
        runs_after(plugin_action_spec(running, enabled), running) == enabled,
{
}

/// The switch of the plugin of kind `k` in `[piri.plugins]`.
pub open spec fn plugin_switch(p: PluginsConfig, k: PluginKind) -> Option<bool> {
    match k {
        PluginKind::Empty => p.empty,
        PluginKind::WindowRule => p.window_rule,
        PluginKind::Scratchpads => p.scratchpads,
        PluginKind::Singleton => p.singleton,
        PluginKind::WindowOrder => p.window_order,
        PluginKind::Swallow => p.swallow,
        PluginKind::WorkspaceRule => p.workspace_rule,
    }
}

/// Asking `is_enabled` with the name of a plugin (as `PluginKind::name`
/// gives it) answers that plugin's own switch: on exactly when it is set to
/// `true`.
pub proof fn law_plugin_named_by_its_switch(p: PluginsConfig, k: PluginKind)
    ensures
        plugin_enabled(p, plugin_kind_name(k)) == (plugin_switch(p, k) == Some(true)),
{
    reveal_strlit("empty");
    reveal_strlit("window_rule");
    reveal_strlit("scratchpads");
    reveal_strlit("singleton");
    reveal_strlit("window_order");
    reveal_strlit("swallow");
    reveal_strlit("workspace_rule");
    assert("empty"@.len() == 5);
    assert("window_rule"@.len() == 11);
    assert("scratchpads"@.len() == 11);
    assert("singleton"@.len() == 9);
    assert("window_order"@.len() == 12);
    assert("swallow"@.len() == 7);
    assert("workspace_rule"@.len() == 14);
    assert("window_rule"@[0] != "scratchpads"@[0]);
    assert("window_order"@[7] != "workspace_rule"@[7]);
}

/// The action for the plugin of kind `kind`, given the kinds of the running
/// plugins.
pub fn plugin_list_action(running: &Vec<PluginKind>, kind: PluginKind, enabled: bool) -> (r:
    PluginAction)
    ensures
        r == plugin_action_spec(running@.contains(kind), enabled),
{
    let mut found = false;
    let mut i: usize = 0;
    while i < running.len()
        invariant
            i <= running@.len(),
            found == exists|j: int| 0 <= j < i && running@[j] == kind,
        decreases running@.len() - i,
    {
        if running[i] == kind {
            found = true;
        }
        i = i + 1;
    }
    plugin_action(found, enabled)
}

/// Every kind but `kind`.
pub open spec fn other_than(kind: PluginKind) -> spec_fn(PluginKind) -> bool {
    |k: PluginKind| k != kind
}

/// The kinds of the running plugins after the action for `kind` is carried
/// out: a created plugin is added, a removed one is taken out (every
/// instance), and an update (or recreation) keeps the list's kinds.
pub open spec fn kinds_after(running: Seq<PluginKind>, kind: PluginKind, action: PluginAction) -> Seq<
    PluginKind,
> {
    match action {
        PluginAction::Create => running.push(kind),
        PluginAction::Remove => running.filter(other_than(kind)),
        _ => running,
    }
}

/// After (re)initialising the plugin of kind `kind`, a plugin of that kind
/// runs exactly when it is enabled, and the other running plugins stay.
pub proof fn law_plugin_list_after_init(running: Seq<PluginKind>, kind: PluginKind, enabled: bool)
    ensures
        ({
            let after = kinds_after(running, kind, plugin_action_spec(running.contains(kind), enabled));
            &&& after.contains(kind) == enabled
            &&& forall|k: PluginKind| k != kind ==> (#[trigger] after.contains(k) <==> running.contains(k))
        }),
{
    broadcast use vstd::seq_lib::group_seq_properties;
    let pred = other_than(kind);
    let action = plugin_action_spec(running.contains(kind), enabled);
    let after = kinds_after(running, kind, action);
    if action == PluginAction::Remove {
        assert(after == running.filter(pred));
        if after.contains(kind) {
            let i = choose|i: int| 0 <= i < after.len() && after[i] == kind;
            running.lemma_filter_pred(pred, i);
        }
        assert forall|k: PluginKind| k != kind implies (#[trigger] after.contains(k)
            <==> running.contains(k)) by {
            if running.contains(k) {
                let i = choose|i: int| 0 <= i < running.len() && running[i] == k;
                running.lemma_filter_contains(pred, i);
            }
            if after.contains(k) {
                running.lemma_filter_contains_rev(pred, k);
            }
        }
    }
}

} // verus!
