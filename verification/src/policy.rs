//! What an agent may do: approval, sandbox and network.

use vstd::prelude::*;

verus! {

/// When the user is asked to approve a command.
#[derive(Debug, Clone, Copy, PartialEq, Eq, Structural)]
pub enum AskForApproval {
    UnlessTrusted,
    OnFailure,
    OnRequest,
    Never,
}

/// How far commands are confined.
#[derive(Debug, Clone, Copy, PartialEq, Eq, Structural)]
pub enum SandboxMode {
    ReadOnly,
    WorkspaceWrite,
    DangerFullAccess,
}

/// The confinement that a session applies.
#[derive(Debug, Clone, Copy, PartialEq, Eq, Structural)]
pub enum SandboxPolicy {
    DangerFullAccess,
    ReadOnly,
    WorkspaceWrite { network_access: bool },
}

/// Whether commands reach the network.
#[derive(Debug, Clone, Copy, PartialEq, Eq, Structural)]
pub enum NetworkAccess {
    Restricted,
    Enabled,
}

/// The name of an approval policy.
pub open spec fn approval_name(policy: AskForApproval) -> Seq<char> {
    match policy {
        AskForApproval::UnlessTrusted => "untrusted"@,
        AskForApproval::OnFailure => "on-failure"@,
        AskForApproval::OnRequest => "on-request"@,
        AskForApproval::Never => "never"@,
    }
}

/// The name of a sandbox mode.
pub open spec fn sandbox_name(mode: SandboxMode) -> Seq<char> {
    match mode {
        SandboxMode::ReadOnly => "read-only"@,
        SandboxMode::WorkspaceWrite => "workspace-write"@,
        SandboxMode::DangerFullAccess => "danger-full-access"@,
    }
}

/// The name of a degree of network access.
pub open spec fn network_name(access: NetworkAccess) -> Seq<char> {
    match access {
        NetworkAccess::Restricted => "restricted"@,
        NetworkAccess::Enabled => "enabled"@,
    }
}

/// The sandbox mode that a policy amounts to.
pub open spec fn mode_of(policy: SandboxPolicy) -> SandboxMode {
    match policy {
        SandboxPolicy::DangerFullAccess => SandboxMode::DangerFullAccess,
        SandboxPolicy::ReadOnly => SandboxMode::ReadOnly,
        SandboxPolicy::WorkspaceWrite { .. } => SandboxMode::WorkspaceWrite,
    }
}

/// The network access that a policy grants.
pub open spec fn network_of(policy: SandboxPolicy) -> NetworkAccess {
    match policy {
        SandboxPolicy::DangerFullAccess => NetworkAccess::Enabled,
        SandboxPolicy::WorkspaceWrite { network_access: true } => NetworkAccess::Enabled,
        _ => NetworkAccess::Restricted,
    }
}

impl AskForApproval {
    /// The name of the policy.
    pub fn name(self) -> (r: &'static str)
        ensures
            r@ == approval_name(self),
    {
        match self {
            AskForApproval::UnlessTrusted => "untrusted",
            AskForApproval::OnFailure => "on-failure",
            AskForApproval::OnRequest => "on-request",
            AskForApproval::Never => "never",
        }
    }
}

impl SandboxMode {
    /// The name of the mode.
    pub fn name(self) -> (r: &'static str)
        ensures
            r@ == sandbox_name(self),
    {
        match self {
            SandboxMode::ReadOnly => "read-only",
            SandboxMode::WorkspaceWrite => "workspace-write",
            SandboxMode::DangerFullAccess => "danger-full-access",
        }
    }
}

impl NetworkAccess {
    /// The name of the degree of access.
    pub fn name(self) -> (r: &'static str)
        ensures
            r@ == network_name(self),
    {
        match self {
            NetworkAccess::Restricted => "restricted",
            NetworkAccess::Enabled => "enabled",
        }
    }
}

impl SandboxPolicy {
    /// The sandbox mode that the policy amounts to.
    pub fn mode(self) -> (r: SandboxMode)
        ensures
            r == mode_of(self),
    {
        match self {
            SandboxPolicy::DangerFullAccess => SandboxMode::DangerFullAccess,
            SandboxPolicy::ReadOnly => SandboxMode::ReadOnly,
            SandboxPolicy::WorkspaceWrite { .. } => SandboxMode::WorkspaceWrite,
        }
    }

    /// The network access that the policy grants.
    pub fn network(self) -> (r: NetworkAccess)
        ensures
            r == network_of(self),
    {
        match self {
            SandboxPolicy::DangerFullAccess => NetworkAccess::Enabled,
            SandboxPolicy::ReadOnly => NetworkAccess::Restricted,
            SandboxPolicy::WorkspaceWrite { network_access } => if network_access {
                NetworkAccess::Enabled
            } else {
                NetworkAccess::Restricted
            },
        }
    }
}

/// A read-only session never reaches the network, and one without a sandbox always does.
pub proof fn network_follows_the_sandbox(policy: SandboxPolicy)
    ensures
        mode_of(policy) == SandboxMode::ReadOnly ==> network_of(policy)
            == NetworkAccess::Restricted,
        mode_of(policy) == SandboxMode::DangerFullAccess ==> network_of(policy)
            == NetworkAccess::Enabled,
{
}

/// The names of policies, modes and degrees of access.
pub proof fn policies_have_their_names()
    ensures
        approval_name(AskForApproval::UnlessTrusted) == "untrusted"@,
        approval_name(AskForApproval::OnFailure) == "on-failure"@,
        approval_name(AskForApproval::OnRequest) == "on-request"@,
        approval_name(AskForApproval::Never) == "never"@,
        sandbox_name(SandboxMode::ReadOnly) == "read-only"@,
        sandbox_name(SandboxMode::WorkspaceWrite) == "workspace-write"@,
        sandbox_name(SandboxMode::DangerFullAccess) == "danger-full-access"@,
        network_name(NetworkAccess::Restricted) == "restricted"@,
        network_name(NetworkAccess::Enabled) == "enabled"@,
{
}

/// A session has the mode of its policy, and reaches the network exactly where it has no sandbox or
/// one that grants it.
pub proof fn sessions_are_as_confined_as_their_policy(policy: SandboxPolicy)
    ensures
        mode_of(policy) == SandboxMode::DangerFullAccess <==> policy is DangerFullAccess,
        mode_of(policy) == SandboxMode::ReadOnly <==> policy is ReadOnly,
        mode_of(policy) == SandboxMode::WorkspaceWrite <==> policy is WorkspaceWrite,
        network_of(policy) == NetworkAccess::Enabled <==> policy is DangerFullAccess || (
        policy matches SandboxPolicy::WorkspaceWrite { network_access } && network_access),
{
}

} // verus!
