//! What is handed to the operating system to start a sidecar.

use vstd::prelude::*;
use crate::error::{SidecarError, SidecarErrorView};
use crate::resolver::{Resolution, ResolutionView};
use crate::text::{decimal, decimal_text};

verus! {

/// How long a freshly started sidecar is left alone before its first probe,
/// in milliseconds.
pub const SETTLE_MILLIS: u64 = 3000;

/// Everything one launch attempt is made with. A plan is worked out anew for
/// every attempt and never kept.
#[derive(Debug, PartialEq, Eq)]
pub struct LaunchPlan {
    /// The interpreter to start: a path, or a command name to look up.
    pub executable_path: String,
    /// The script handed to the interpreter as its first argument.
    pub script_or_entry_path: String,
    /// The directory the sidecar runs in.
    pub working_directory: String,
    /// The port the sidecar is told to listen on, its second argument.
    pub port: u16,
}

/// A `LaunchPlan` with its texts as character sequences.
pub struct LaunchPlanView {
    pub executable_path: Seq<char>,
    pub script_or_entry_path: Seq<char>,
    pub working_directory: Seq<char>,
    pub port: u16,
}

impl View for LaunchPlan {
    type V = LaunchPlanView;

    open spec fn view(&self) -> LaunchPlanView {
        LaunchPlanView {
            executable_path: self.executable_path@,
            script_or_entry_path: self.script_or_entry_path@,
            working_directory: self.working_directory@,
            port: self.port,
        }
    }
}

impl Clone for LaunchPlan {
    fn clone(&self) -> (copy: Self)
        ensures
            copy == *self,
    {
        LaunchPlan {
            executable_path: self.executable_path.clone(),
            script_or_entry_path: self.script_or_entry_path.clone(),
            working_directory: self.working_directory.clone(),
            port: self.port,
        }
    }
}

/// The plan that launches what `resolution` found, on `port`.
pub open spec fn plan_of(resolution: ResolutionView, port: u16) -> LaunchPlanView {
    LaunchPlanView {
        executable_path: resolution.interpreter,
        script_or_entry_path: resolution.script_path,
        working_directory: resolution.work_dir,
        port,
    }
}

/// The arguments the interpreter is started with: the script, then the port
/// in base ten.
pub open spec fn argument_texts(plan: LaunchPlanView) -> Seq<Seq<char>> {
    seq![plan.script_or_entry_path, decimal_text(plan.port as nat)]
}

/// The failure reported when the operating system gave `reason` for not
/// starting what `plan` names.
pub open spec fn spawn_failure_of(plan: LaunchPlanView, reason: Seq<char>) -> SidecarErrorView {
    SidecarErrorView::SpawnFailed { command: plan.executable_path, reason }
}

impl LaunchPlan {
    /// Completes a resolution into a plan by adding the port.
    pub fn new(resolution: Resolution, port: u16) -> (plan: LaunchPlan)
        ensures
            plan@ == plan_of(resolution@, port),
    {
        LaunchPlan {
            executable_path: resolution.interpreter,
            script_or_entry_path: resolution.script_path,
            working_directory: resolution.work_dir,
            port,
        }
    }

    /// The arguments to start `executable_path` with, in order.
    pub fn arguments(&self) -> (arguments: Vec<String>)
        ensures
            arguments.deep_view() == argument_texts(self@),
    {
        let mut arguments: Vec<String> = Vec::new();
        arguments.push(self.script_or_entry_path.clone());
        arguments.push(decimal(self.port as u64));
        assert(arguments.deep_view() =~= argument_texts(self@));
        arguments
    }

    /// The failure to report when the operating system refused this launch
    /// and gave `reason`.
    pub fn spawn_failure(&self, reason: String) -> (error: SidecarError)
        ensures
            error@ == spawn_failure_of(self@, reason@),
    {
        SidecarError::SpawnFailed { command: self.executable_path.clone(), reason }
    }
}

} // verus!
