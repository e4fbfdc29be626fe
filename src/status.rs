use vstd::prelude::*;
use vstd::string::*;

use crate::text::{same_text, UnknownVariant};

verus! {

/// The state of one deploy as the platform reports it.
#[derive(Clone, Copy, Debug, PartialEq, Eq, Structural)]
pub enum DeployStatus {
    Created,
    BuildInProgress,
    UpdateInProgress,
    Live,
    Deactivated,
    BuildFailed,
    UpdateFailed,
    Canceled,
    PreDeployInProgress,
    PreDeployFailed,
}

/// The three disjoint groups that the statuses fall into.
#[derive(Clone, Copy, Debug, PartialEq, Eq, Structural)]
pub enum StatusClass {
    InProgress,
    SuccessTerminal,
    FailureTerminal,
}

pub open spec fn is_in_progress(s: DeployStatus) -> bool {
    match s {
        DeployStatus::Created
        | DeployStatus::BuildInProgress
        | DeployStatus::UpdateInProgress
        | DeployStatus::PreDeployInProgress => true,
        _ => false,
    }
}

pub open spec fn is_success_terminal(s: DeployStatus) -> bool {
    s == DeployStatus::Live
}

pub open spec fn is_failure_terminal(s: DeployStatus) -> bool {
    match s {
        DeployStatus::Deactivated
        | DeployStatus::BuildFailed
        | DeployStatus::UpdateFailed
        | DeployStatus::Canceled
        | DeployStatus::PreDeployFailed => true,
        _ => false,
    }
}

pub open spec fn class_of(s: DeployStatus) -> StatusClass {
    if is_in_progress(s) {
        StatusClass::InProgress
    } else if is_success_terminal(s) {
        StatusClass::SuccessTerminal
    } else {
        StatusClass::FailureTerminal
    }
}

/// The token the platform's API uses for a status.
pub open spec fn api_name(s: DeployStatus) -> Seq<char> {
    match s {
        DeployStatus::Created => "created"@,
        DeployStatus::BuildInProgress => "build_in_progress"@,
        DeployStatus::UpdateInProgress => "update_in_progress"@,
        DeployStatus::Live => "live"@,
        DeployStatus::Deactivated => "deactivated"@,
        DeployStatus::BuildFailed => "build_failed"@,
        DeployStatus::UpdateFailed => "update_failed"@,
        DeployStatus::Canceled => "canceled"@,
        DeployStatus::PreDeployInProgress => "pre_deploy_in_progress"@,
        DeployStatus::PreDeployFailed => "pre_deploy_failed"@,
    }
}

/// The human-readable name of a status.
pub open spec fn label_of(s: DeployStatus) -> Seq<char> {
    match s {
        DeployStatus::Created => "Created"@,
        DeployStatus::BuildInProgress => "Build In Progress"@,
        DeployStatus::UpdateInProgress => "Update In Progress"@,
        DeployStatus::Live => "Live"@,
        DeployStatus::Deactivated => "Deactivated"@,
        DeployStatus::BuildFailed => "Build Failed"@,
        DeployStatus::UpdateFailed => "Update Failed"@,
        DeployStatus::Canceled => "Canceled"@,
        DeployStatus::PreDeployInProgress => "Pre-Deploy In Progress"@,
        DeployStatus::PreDeployFailed => "Pre-Deploy Failed"@,
    }
}

/// The status that an API token names, if any.
pub open spec fn status_named(t: Seq<char>) -> Option<DeployStatus> {
    if t == "created"@ {
        Some(DeployStatus::Created)
    } else if t == "build_in_progress"@ {
        Some(DeployStatus::BuildInProgress)
    } else if t == "update_in_progress"@ {
        Some(DeployStatus::UpdateInProgress)
    } else if t == "live"@ {
        Some(DeployStatus::Live)
    } else if t == "deactivated"@ {
        Some(DeployStatus::Deactivated)
    } else if t == "build_failed"@ {
        Some(DeployStatus::BuildFailed)
    } else if t == "update_failed"@ {
        Some(DeployStatus::UpdateFailed)
    } else if t == "canceled"@ {
        Some(DeployStatus::Canceled)
    } else if t == "pre_deploy_in_progress"@ {
        Some(DeployStatus::PreDeployInProgress)
    } else if t == "pre_deploy_failed"@ {
        Some(DeployStatus::PreDeployFailed)
    } else {
        None
    }
}

impl DeployStatus {
    /// Reads a status from its API token; an unrecognized token is refused
    /// rather than mapped to some default.
    pub fn from_api(s: &str) -> (r: Result<DeployStatus, UnknownVariant>)
        ensures
            match r {
                Ok(st) => status_named(s@) == Some(st),
                Err(e) => status_named(s@).is_none() && e.found@ == s@,
            },
    {
        if same_text(s, "created") {
            Ok(DeployStatus::Created)
        } else if same_text(s, "build_in_progress") {
            Ok(DeployStatus::BuildInProgress)
        } else if same_text(s, "update_in_progress") {
            Ok(DeployStatus::UpdateInProgress)
        } else if same_text(s, "live") {
            Ok(DeployStatus::Live)
        } else if same_text(s, "deactivated") {
            Ok(DeployStatus::Deactivated)
        } else if same_text(s, "build_failed") {
            Ok(DeployStatus::BuildFailed)
        } else if same_text(s, "update_failed") {
            Ok(DeployStatus::UpdateFailed)
        } else if same_text(s, "canceled") {
            Ok(DeployStatus::Canceled)
        } else if same_text(s, "pre_deploy_in_progress") {
            Ok(DeployStatus::PreDeployInProgress)
        } else if same_text(s, "pre_deploy_failed") {
            Ok(DeployStatus::PreDeployFailed)
        } else {
            Err(UnknownVariant { found: String::from_str(s) })
        }
    }

    /// The token the platform's API uses for the status.
    pub fn api_token(&self) -> (r: &'static str)
        ensures
            r@ == api_name(*self),
    {
        match self {
            DeployStatus::Created => "created",
            DeployStatus::BuildInProgress => "build_in_progress",
            DeployStatus::UpdateInProgress => "update_in_progress",
            DeployStatus::Live => "live",
            DeployStatus::Deactivated => "deactivated",
            DeployStatus::BuildFailed => "build_failed",
            DeployStatus::UpdateFailed => "update_failed",
            DeployStatus::Canceled => "canceled",
            DeployStatus::PreDeployInProgress => "pre_deploy_in_progress",
            DeployStatus::PreDeployFailed => "pre_deploy_failed",
        }
    }

    /// Which of the three groups the status belongs to.
    pub fn classify(&self) -> (r: StatusClass)
        ensures
            r == class_of(*self),
    {
        match self {
            DeployStatus::Created
            | DeployStatus::BuildInProgress
            | DeployStatus::UpdateInProgress
            | DeployStatus::PreDeployInProgress => StatusClass::InProgress,
            DeployStatus::Live => StatusClass::SuccessTerminal,
            _ => StatusClass::FailureTerminal,
        }
    }

    /// Whether no further transition follows this status.
    pub fn is_terminal(&self) -> (r: bool)
        ensures
            r == !is_in_progress(*self),
    {
        !matches!(self.classify(), StatusClass::InProgress)
    }

    /// The human-readable name of the status.
    pub fn label(&self) -> (r: &'static str)
        ensures
            r@ == label_of(*self),
    {
        match self {
            DeployStatus::Created => "Created",
            DeployStatus::BuildInProgress => "Build In Progress",
            DeployStatus::UpdateInProgress => "Update In Progress",
            DeployStatus::Live => "Live",
            DeployStatus::Deactivated => "Deactivated",
            DeployStatus::BuildFailed => "Build Failed",
            DeployStatus::UpdateFailed => "Update Failed",
            DeployStatus::Canceled => "Canceled",
            DeployStatus::PreDeployInProgress => "Pre-Deploy In Progress",
            DeployStatus::PreDeployFailed => "Pre-Deploy Failed",
        }
    }
}

/// Every status lies in exactly one of the in-progress, success-terminal
/// and failure-terminal groups, and `class_of` names that group.
pub proof fn lemma_status_classes_partition(s: DeployStatus)
    ensures
        is_in_progress(s) || is_success_terminal(s) || is_failure_terminal(s),
        !(is_in_progress(s) && is_success_terminal(s)),
        !(is_in_progress(s) && is_failure_terminal(s)),
        !(is_success_terminal(s) && is_failure_terminal(s)),
        class_of(s) == StatusClass::InProgress <==> is_in_progress(s),
        class_of(s) == StatusClass::SuccessTerminal <==> is_success_terminal(s),
        class_of(s) == StatusClass::FailureTerminal <==> is_failure_terminal(s),
{
}

/// Reading a status back from its own API token gives that status again.
pub proof fn lemma_status_token_round_trip(s: DeployStatus)
    ensures
        status_named(api_name(s)) == Some(s),
{
    reveal_strlit("created");
    reveal_strlit("build_in_progress");
    reveal_strlit("update_in_progress");
    reveal_strlit("live");
    reveal_strlit("deactivated");
    reveal_strlit("build_failed");
    reveal_strlit("update_failed");
    reveal_strlit("canceled");
    reveal_strlit("pre_deploy_in_progress");
    reveal_strlit("pre_deploy_failed");
    assert("created"@.len() == 7);
    assert("build_in_progress"@.len() == 17);
    assert("update_in_progress"@.len() == 18);
    assert("live"@.len() == 4);
    assert("deactivated"@.len() == 11);
    assert("build_failed"@.len() == 12);
    assert("update_failed"@.len() == 13);
    assert("canceled"@.len() == 8);
    assert("pre_deploy_in_progress"@.len() == 22);
    assert("pre_deploy_failed"@.len() == 17);
    assert("build_in_progress"@[0] != "pre_deploy_failed"@[0]);
}

} // verus!
