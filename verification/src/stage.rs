//! The configuration stage and the engine that runs stages.
//!
//! A stage is asked whether it is configured, then torn down and set up again as the
//! engine decides. The topology lives in shared memory only, where nothing short of
//! building it again could tell whether it is intact, so this stage always reports
//! itself partially configured and is rebuilt on every run.

use vstd::prelude::*;
use vstd::string::*;
use crate::command::{unhook, unhook_command};
use crate::config::{tool_path, PipelineConfig, PipelineConfigView};
use crate::topology::{Action, ActionView};

verus! {

/// Name of the stage.
pub const NAME: &'static str = "frank";

/// Why the stage is never found configured.
pub const CHECK_REASON: &'static str = "frank must be reconfigured every launch";

/// What a stage reports about itself.
#[derive(Clone, Debug, PartialEq, Eq)]
pub enum CheckResult {
    Configured,
    NotConfigured,
    /// Something is there, but not all of it or not as it should be.
    PartiallyConfigured(String),
}

/// The mathematical value of a [`CheckResult`].
pub enum CheckResultView {
    Configured,
    NotConfigured,
    PartiallyConfigured(Seq<char>),
}

impl View for CheckResult {
    type V = CheckResultView;

    open spec fn view(&self) -> CheckResultView {
        match self {
            CheckResult::Configured => CheckResultView::Configured,
            CheckResult::NotConfigured => CheckResultView::NotConfigured,
            CheckResult::PartiallyConfigured(reason) => CheckResultView::PartiallyConfigured(
                reason@,
            ),
        }
    }
}

/// What the engine does with a stage.
#[derive(Clone, Copy, Debug, PartialEq, Eq, Structural)]
pub enum Plan {
    /// Leave the stage alone.
    Skip,
    /// Set the stage up.
    Init,
    /// Tear the stage down, then set it up.
    FiniThenInit,
}

/// What the engine needs to know of a stage to plan for it.
#[derive(Clone, Copy, Debug, PartialEq, Eq, Structural)]
pub struct Stage {
    /// Whether the stage is rebuilt even when it reports itself configured.
    pub always_recreate: bool,
    /// Whether setting the stage up needs permissions to be explained first.
    pub explains_init_permissions: bool,
    /// Whether tearing the stage down needs permissions to be explained first.
    pub explains_fini_permissions: bool,
    /// Whether the stage has anything to set up.
    pub has_init: bool,
    /// Whether the stage has anything to tear down.
    pub has_fini: bool,
}

/// The engine's rule. A stage that is switched off is skipped. A stage that must
/// always be recreated, or that is partially configured, is torn down and set up; a
/// configured stage is skipped; a stage that is not configured is set up.
pub open spec fn plan_of(stage: Stage, enabled: bool, check: CheckResultView) -> Plan {
    if !enabled {
        Plan::Skip
    } else if stage.always_recreate {
        Plan::FiniThenInit
    } else {
        match check {
            CheckResultView::Configured => Plan::Skip,
            CheckResultView::NotConfigured => Plan::Init,
            CheckResultView::PartiallyConfigured(_) => Plan::FiniThenInit,
        }
    }
}

/// Decides what to do with a stage, given whether it is switched on and what it
/// reports about itself.
pub fn plan(stage: Stage, enabled: bool, check: &CheckResult) -> (p: Plan)
    ensures
        p == plan_of(stage, enabled, check@),
{
    if !enabled {
        Plan::Skip
    } else if stage.always_recreate {
        Plan::FiniThenInit
    } else {
        match check {
            CheckResult::Configured => Plan::Skip,
            CheckResult::NotConfigured => Plan::Init,
            CheckResult::PartiallyConfigured(_) => Plan::FiniThenInit,
        }
    }
}

/// The topology stage: always recreated, explains the permissions of its setup, and
/// has both a setup and a teardown.
pub open spec fn topology_stage() -> Stage {
    Stage {
        always_recreate: true,
        explains_init_permissions: true,
        explains_fini_permissions: false,
        has_init: true,
        has_fini: true,
    }
}

/// The description of this stage.
pub fn stage() -> (s: Stage)
    ensures
        s == topology_stage(),
{
    Stage {
        always_recreate: true,
        explains_init_permissions: true,
        explains_fini_permissions: false,
        has_init: true,
        has_fini: true,
    }
}

/// A capability of the operating system.
#[derive(Clone, Copy, Debug, PartialEq, Eq, Structural)]
pub enum Capability {
    /// `CAP_SYS_ADMIN`
    SysAdmin,
    /// `CAP_NET_ADMIN`
    NetAdmin,
}

/// Who must hold a capability.
#[derive(Clone, Debug, PartialEq, Eq)]
pub enum Target {
    /// The configuring process itself.
    Process,
    /// The binary at this path.
    File(String),
}

/// The mathematical value of a [`Target`].
pub enum TargetView {
    Process,
    File(Seq<char>),
}

impl View for Target {
    type V = TargetView;

    open spec fn view(&self) -> TargetView {
        match self {
            Target::Process => TargetView::Process,
            Target::File(path) => TargetView::File(path@),
        }
    }
}

/// One check of the permission preflight: the capability, who must hold it, and
/// what it is needed for.
#[derive(Clone, Debug, PartialEq, Eq)]
pub struct PermissionCheck {
    pub capability: Capability,
    pub target: Target,
    pub justification: String,
}

/// The mathematical value of a [`PermissionCheck`].
pub struct PermissionCheckView {
    pub capability: Capability,
    pub target: TargetView,
    pub justification: Seq<char>,
}

impl View for PermissionCheck {
    type V = PermissionCheckView;

    open spec fn view(&self) -> PermissionCheckView {
        PermissionCheckView {
            capability: self.capability,
            target: self.target@,
            justification: self.justification@,
        }
    }
}

/// The views of a sequence of permission checks.
pub open spec fn permission_views(v: Seq<PermissionCheck>) -> Seq<PermissionCheckView> {
    Seq::new(v.len(), |i: int| v[i]@)
}

/// The check that the interface tool holds `capability`, which it needs to create
/// the maps of the network hook.
pub open spec fn hook_permission(cfg: PipelineConfigView, capability: Capability) -> PermissionCheckView {
    PermissionCheckView {
        capability,
        target: TargetView::File(tool_path(cfg, "fd_xdp_ctl"@)),
        justification: "create a BPF map with `bpf_map_create`"@,
    }
}

/// The permissions that the setup needs. With a network namespace the process must
/// be allowed to enter it and the interface tool to administer the system; without
/// one the interface tool must be allowed to administer the system and the network.
pub open spec fn init_permissions(cfg: PipelineConfigView) -> Seq<PermissionCheckView> {
    if cfg.netns_enabled {
        seq![
            PermissionCheckView {
                capability: Capability::SysAdmin,
                target: TargetView::Process,
                justification: "enter a network namespace"@,
            },
            hook_permission(cfg, Capability::SysAdmin),
        ]
    } else {
        seq![hook_permission(cfg, Capability::SysAdmin), hook_permission(cfg, Capability::NetAdmin)]
    }
}

fn hook_permission_check(config: &PipelineConfig, capability: Capability) -> (c: PermissionCheck)
    ensures
        c@ == hook_permission(config@, capability),
{
    PermissionCheck {
        capability,
        target: Target::File(config.tool("fd_xdp_ctl")),
        justification: String::from_str("create a BPF map with `bpf_map_create`"),
    }
}

/// Lists the permission checks that must pass before the stage is set up. The checks
/// are independent of each other.
pub fn explain_init_permissions(config: &PipelineConfig) -> (checks: Vec<PermissionCheck>)
    ensures
        permission_views(checks@) == init_permissions(config@),
{
    let mut checks: Vec<PermissionCheck> = Vec::new();
    if config.netns_enabled {
        checks.push(
            PermissionCheck {
                capability: Capability::SysAdmin,
                target: Target::Process,
                justification: String::from_str("enter a network namespace"),
            },
        );
        checks.push(hook_permission_check(config, Capability::SysAdmin));
    } else {
        checks.push(hook_permission_check(config, Capability::SysAdmin));
        checks.push(hook_permission_check(config, Capability::NetAdmin));
    }
    assert(permission_views(checks@) =~= init_permissions(config@));
    checks
}

/// Whether every check of a preflight passed. A check that failed reports why.
pub open spec fn all_passed(outcomes: Seq<Option<String>>) -> bool {
    forall|i: int| 0 <= i < outcomes.len() ==> outcomes[i] is None
}

/// Whether every check of a preflight passed.
pub fn preflight_passes(outcomes: &Vec<Option<String>>) -> (ok: bool)
    ensures
        ok == all_passed(outcomes@),
{
    let mut i: usize = 0;
    while i < outcomes.len()
        invariant
            i <= outcomes.len(),
            forall|j: int| 0 <= j < i ==> outcomes@[j] is None,
        decreases outcomes.len() - i,
    {
        if outcomes[i].is_some() {
            return false;
        }
        i += 1;
    }
    true
}

/// Names the teardown: the interface's network binding is removed, and a failure to
/// do so is tolerated. Shared memory and the workspace are left as they are.
pub fn undo(config: &PipelineConfig) -> (a: Action)
    ensures
        a@ == (ActionView::Run { command: unhook(config@), tolerant: true }),
{
    Action::Run { command: unhook_command(config), tolerant: true }
}

/// Reports whether the stage is configured: never fully, so that the engine tears it
/// down and sets it up on every run.
pub fn check(config: &PipelineConfig) -> (r: CheckResult)
    ensures
        r@ == CheckResultView::PartiallyConfigured(CHECK_REASON@),
{
    let _ = config;
    CheckResult::PartiallyConfigured(String::from_str(CHECK_REASON))
}

/// Whatever the configuration, the engine tears this stage down and sets it up again
/// whenever it is switched on.
pub proof fn lemma_always_rebuilt(check: CheckResultView)
    ensures
        plan_of(topology_stage(), true, check) == Plan::FiniThenInit,
        plan_of(topology_stage(), true, CheckResultView::PartiallyConfigured(CHECK_REASON@))
            == Plan::FiniThenInit,
{
}

/// A stage that reports itself partially configured is torn down and set up again,
/// and a configured stage is left alone unless it must always be recreated.
pub proof fn lemma_plan_rules(stage: Stage, reason: Seq<char>)
    ensures
        plan_of(stage, true, CheckResultView::PartiallyConfigured(reason)) == Plan::FiniThenInit,
        stage.always_recreate ==> plan_of(stage, true, CheckResultView::Configured)
            == Plan::FiniThenInit,
        !stage.always_recreate ==> plan_of(stage, true, CheckResultView::Configured) == Plan::Skip,
{
}

} // verus!
