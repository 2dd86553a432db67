use vstd::prelude::*;

use crate::Error;
use crate::config::Config;
use crate::geometry::Monitor;
use crate::navigate::{get_current_monitor, spec_is_first_focused, spec_no_focused};

verus! {

/// The roster holds the given monitor name.
pub open spec fn spec_roster_has(roster: Seq<String>, name: Seq<char>) -> bool {
    exists|i: int| 0 <= i < roster.len() && (#[trigger] roster[i])@ == name
}

/// Position `k` is the first roster entry equal to the given monitor name.
pub open spec fn spec_is_first_roster_index(roster: Seq<String>, name: Seq<char>, k: int) -> bool {
    &&& 0 <= k < roster.len()
    &&& roster[k]@ == name
    &&& forall|j: int| 0 <= j < k ==> (#[trigger] roster[j])@ != name
}

/// The virtual workspace numbering: roster index `i` owns the global ids
/// `i * 10` through `i * 10 + 9`.
pub open spec fn spec_global_workspace_id(roster_index: int, workspace_number: int) -> int {
    roster_index * 10 + workspace_number
}

/// The mapping to global ids is injective across monitors as long as the
/// per-monitor workspace numbers stay within 0 to 9: equal global ids force
/// equal roster indices and equal workspace numbers.
pub proof fn lemma_workspace_id_injective(i: int, j: int, w1: int, w2: int)
    requires
        0 <= w1 <= 9,
        0 <= w2 <= 9,
        spec_global_workspace_id(i, w1) == spec_global_workspace_id(j, w2),
    ensures
        i == j,
        w1 == w2,
{
}

/// Maps a per-monitor workspace number to the global workspace id of the
/// monitor's slot: its zero-based roster index times ten, plus the number.
/// A name missing from the roster is a configuration error.
pub fn get_monitor_workspace(config: &Config, monitor: &Monitor, workspace_number: i32) -> (r:
    Result<i32, Error>)
    requires
        10 * config.monitors@.len() + workspace_number <= i32::MAX as int,
    ensures
        match r {
            Ok(id) => exists|k: int|
                spec_is_first_roster_index(config.monitors@, monitor.name@, k) && id
                    == spec_global_workspace_id(k, workspace_number as int),
            Err(e) => e == Error::ConfigurationError && !spec_roster_has(
                config.monitors@,
                monitor.name@,
            ),
        },
{
    let mut i: usize = 0;
    while i < config.monitors.len()
        invariant
            0 <= i <= config.monitors@.len(),
            10 * config.monitors@.len() + workspace_number <= i32::MAX as int,
            forall|j: int| 0 <= j < i ==> (#[trigger] config.monitors@[j])@ != monitor.name@,
        decreases config.monitors@.len() - i,
    {
        if config.monitors[i] == monitor.name {
            let id: i64 = (i as i64) * 10 + (workspace_number as i64);
            proof {
                assert(spec_is_first_roster_index(config.monitors@, monitor.name@, i as int));
                assert(i32::MIN <= id <= i32::MAX);
                assert(id == spec_global_workspace_id(i as int, workspace_number as int));
            }
            return Ok(id as i32);
        }
        i += 1;
    }
    Err(Error::ConfigurationError)
}

/// The command a workspace operation resolves to; the caller dispatches it
/// against the window manager.
#[derive(Clone, Copy, PartialEq, Eq, Structural, Debug)]
pub enum WorkspaceDispatch {
    /// Switch focus to the workspace.
    Focus,
    /// Send the active window to the workspace.
    MoveWindow,
    /// Send the active window to the workspace and follow it with focus.
    MoveWindowWithFocus,
}

/// A resolved workspace operation: which dispatch to issue, for which
/// global workspace id.
#[derive(Clone, Copy, PartialEq, Eq, Structural, Debug)]
pub struct WorkspaceCommand {
    pub dispatch: WorkspaceDispatch,
    pub workspace_id: i32,
}

/// What resolving a workspace operation must yield: the focused monitor is
/// found first, then its roster slot gives the global id; a command carries
/// that id and the requested dispatch.
pub open spec fn spec_workspace_resolution(
    r: Result<WorkspaceCommand, Error>,
    dispatch: WorkspaceDispatch,
    config: Config,
    monitors: Seq<Monitor>,
    workspace_number: int,
) -> bool {
    match r {
        Ok(cmd) => {
            &&& cmd.dispatch == dispatch
            &&& exists|k: int, i: int|
                #[trigger] spec_is_first_focused(monitors, k) && #[trigger]
                spec_is_first_roster_index(config.monitors@, monitors[k].name@, i)
                    && cmd.workspace_id == spec_global_workspace_id(i, workspace_number)
        },
        Err(e) => {
            ||| (e == Error::PreconditionViolation && spec_no_focused(monitors))
            ||| (e == Error::ConfigurationError && exists|k: int|
                #[trigger] spec_is_first_focused(monitors, k) && !spec_roster_has(
                    config.monitors@,
                    monitors[k].name@,
                ))
        },
    }
}

/// Resolves one workspace operation against the focused monitor.
fn resolve_workspace(
    config: &Config,
    monitors: &Vec<Monitor>,
    workspace_number: i32,
    dispatch: WorkspaceDispatch,
) -> (r: Result<WorkspaceCommand, Error>)
    requires
        10 * config.monitors@.len() + workspace_number <= i32::MAX as int,
    ensures
        spec_workspace_resolution(r, dispatch, *config, monitors@, workspace_number as int),
{
    let mon = match get_current_monitor(monitors) {
        Ok(m) => m,
        Err(e) => {
            return Err(e);
        },
    };
    match get_monitor_workspace(config, mon, workspace_number) {
        Ok(id) => Ok(WorkspaceCommand { dispatch, workspace_id: id }),
        Err(e) => Err(e),
    }
}

/// Resolves "focus workspace N of the focused monitor" to the command to
/// issue.
pub fn select_workspace(config: &Config, monitors: &Vec<Monitor>, workspace_number: i32) -> (r:
    Result<WorkspaceCommand, Error>)
    requires
        10 * config.monitors@.len() + workspace_number <= i32::MAX as int,
    ensures
        spec_workspace_resolution(
            r,
            WorkspaceDispatch::Focus,
            *config,
            monitors@,
            workspace_number as int,
        ),
{
    resolve_workspace(config, monitors, workspace_number, WorkspaceDispatch::Focus)
}

/// Resolves "send the active window to workspace N of the focused monitor"
/// to the command to issue.
pub fn send_to_workspace(config: &Config, monitors: &Vec<Monitor>, workspace_number: i32) -> (r:
    Result<WorkspaceCommand, Error>)
    requires
        10 * config.monitors@.len() + workspace_number <= i32::MAX as int,
    ensures
        spec_workspace_resolution(
            r,
            WorkspaceDispatch::MoveWindow,
            *config,
            monitors@,
            workspace_number as int,
        ),
{
    resolve_workspace(config, monitors, workspace_number, WorkspaceDispatch::MoveWindow)
}

/// Resolves "send the active window to workspace N of the focused monitor
/// and follow it" to the command to issue.
pub fn movefocus(config: &Config, monitors: &Vec<Monitor>, workspace_number: i32) -> (r: Result<
    WorkspaceCommand,
    Error,
>)
    requires
        10 * config.monitors@.len() + workspace_number <= i32::MAX as int,
    ensures
        spec_workspace_resolution(
            r,
            WorkspaceDispatch::MoveWindowWithFocus,
            *config,
            monitors@,
            workspace_number as int,
        ),
{
    resolve_workspace(config, monitors, workspace_number, WorkspaceDispatch::MoveWindowWithFocus)
}

} // verus!
