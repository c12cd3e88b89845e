//! The environment of a session, as it is told to the model.

use vstd::prelude::*;

use crate::outside::{is_plain_name, texts, xml_element, xml_text};
use crate::policy::{
    approval_name, mode_of, network_name, network_of, sandbox_name, AskForApproval, NetworkAccess,
    SandboxMode, SandboxPolicy,
};

verus! {

/// A directory: its name, with a stand-in for every part that is not Unicode, and whether there
/// is no such part.
#[derive(Debug)]
pub struct WorkingDirectory {
    pub text: String,
    pub is_unicode: bool,
}

impl Clone for WorkingDirectory {
    fn clone(&self) -> (r: Self)
        ensures
            r == *self,
    {
        WorkingDirectory { text: self.text.clone(), is_unicode: self.is_unicode }
    }
}

/// What is looked at of a session.
#[derive(Debug)]
pub struct Session {
    pub cwd: WorkingDirectory,
    pub approval_policy: AskForApproval,
    pub sandbox_policy: SandboxPolicy,
}

/// The environment of a session.
#[derive(Debug)]
pub struct EnvironmentContext {
    pub cwd: WorkingDirectory,
    pub approval_policy: AskForApproval,
    pub sandbox_mode: SandboxMode,
    pub network_access: NetworkAccess,
}

impl Clone for EnvironmentContext {
    fn clone(&self) -> (r: Self)
        ensures
            r == *self,
    {
        EnvironmentContext {
            cwd: self.cwd.clone(),
            approval_policy: self.approval_policy,
            sandbox_mode: self.sandbox_mode,
            network_access: self.network_access,
        }
    }
}

/// A part of a message.
#[derive(Debug)]
pub enum ContentItem {
    InputText { text: String },
}

/// An item of a conversation.
#[derive(Debug)]
pub enum ResponseItem {
    Message { id: Option<String>, role: String, content: Vec<ContentItem> },
}

/// The environment in words, one line for each fact.
pub open spec fn described(ec: EnvironmentContext) -> Seq<char> {
    "Current working directory: "@ + ec.cwd.text@ + "\n"@ + "Approval policy: "@ + approval_name(
        ec.approval_policy,
    ) + "\n"@ + "Sandbox mode: "@ + sandbox_name(ec.sandbox_mode) + "\n"@ + "Network access: "@
        + network_name(ec.network_access) + "\n"@
}

/// The names and values of the environment.
pub open spec fn environment_fields(ec: EnvironmentContext) -> Seq<(Seq<char>, Seq<char>)> {
    seq![
        ("cwd"@, ec.cwd.text@),
        ("approval_policy"@, approval_name(ec.approval_policy)),
        ("sandbox_mode"@, sandbox_name(ec.sandbox_mode)),
        ("network_access"@, network_name(ec.network_access)),
    ]
}

/// The text that the model is told: XML, or words where the directory is not Unicode.
pub open spec fn environment_text(ec: EnvironmentContext) -> Seq<char> {
    if ec.cwd.is_unicode {
        xml_text("environment_context"@, environment_fields(ec), 2)
    } else {
        described(ec)
    }
}

impl From<&Session> for EnvironmentContext {
    fn from(sess: &Session) -> (r: Self) {
        EnvironmentContext {
            cwd: sess.cwd.clone(),
            approval_policy: sess.approval_policy,
            sandbox_mode: sess.sandbox_policy.mode(),
            network_access: sess.sandbox_policy.network(),
        }
    }
}

impl vstd::std_specs::convert::FromSpecImpl<&Session> for EnvironmentContext {
    open spec fn obeys_from_spec() -> bool {
        true
    }

    open spec fn from_spec(sess: &Session) -> Self {
        EnvironmentContext {
            cwd: sess.cwd,
            approval_policy: sess.approval_policy,
            sandbox_mode: mode_of(sess.sandbox_policy),
            network_access: network_of(sess.sandbox_policy),
        }
    }
}

/// The names of the fields are plain.
proof fn lemma_plain_names()
    ensures
        is_plain_name("environment_context"@),
        is_plain_name("cwd"@),
        is_plain_name("approval_policy"@),
        is_plain_name("sandbox_mode"@),
        is_plain_name("network_access"@),
{
    reveal_strlit("environment_context");
    reveal_strlit("cwd");
    reveal_strlit("approval_policy");
    reveal_strlit("sandbox_mode");
    reveal_strlit("network_access");
}

impl EnvironmentContext {
    /// The environment in words.
    pub fn to_string(&self) -> (r: String)
        ensures
            r@ == described(*self),
    {
        let mut r = "Current working directory: ".to_owned();
        r.append(self.cwd.text.as_str());
        r.append("\n");
        r.append("Approval policy: ");
        r.append(self.approval_policy.name());
        r.append("\n");
        r.append("Sandbox mode: ");
        r.append(self.sandbox_mode.name());
        r.append("\n");
        r.append("Network access: ");
        r.append(self.network_access.name());
        r.append("\n");
        r
    }

    /// The environment as XML, or nothing where the directory is not Unicode.
    pub fn to_xml(&self) -> (r: Option<String>)
        ensures
            r is Some <==> self.cwd.is_unicode,
            r matches Some(t) ==> t@ == xml_text(
                "environment_context"@,
                environment_fields(*self),
                2,
            ),
    {
        if !self.cwd.is_unicode {
            return None;
        }
        let mut fields: Vec<(String, String)> = Vec::new();
        fields.push(("cwd".to_owned(), self.cwd.text.clone()));
        fields.push(("approval_policy".to_owned(), self.approval_policy.name().to_owned()));
        fields.push(("sandbox_mode".to_owned(), self.sandbox_mode.name().to_owned()));
        fields.push(("network_access".to_owned(), self.network_access.name().to_owned()));
        proof {
            lemma_plain_names();
            assert(texts(fields@) =~= environment_fields(*self));
        }
        match xml_element("environment_context", &fields, 2) {
            Ok(t) => Some(t),
            Err(_) => None,
        }
    }
}

impl From<EnvironmentContext> for ResponseItem {
    fn from(ec: EnvironmentContext) -> (r: Self)
        ensures
            r matches ResponseItem::Message { id, role, content } && {
                &&& id is None
                &&& role@ == "user"@
                &&& content@.len() == 1
                &&& content@[0] matches ContentItem::InputText { text } && text@
                    == environment_text(ec)
            },
    {
        let text: String = match ec.to_xml() {
            Some(t) => t,
            None => ec.to_string(),
        };
        let mut content: Vec<ContentItem> = Vec::new();
        content.push(ContentItem::InputText { text });
        ResponseItem::Message { id: None, role: "user".to_owned(), content }
    }
}

impl vstd::std_specs::convert::FromSpecImpl<EnvironmentContext> for ResponseItem {
    open spec fn obeys_from_spec() -> bool {
        false
    }

    open spec fn from_spec(ec: EnvironmentContext) -> Self {
        arbitrary()
    }
}

/// The model is told all of the environment: directory, approval, sandbox and network of the
/// session, under these names, as XML where the directory is Unicode and in words where it is not.
pub proof fn models_are_told_the_environment(ec: EnvironmentContext)
    ensures
        environment_fields(ec).len() == 4,
        environment_fields(ec)[0] == ("cwd"@, ec.cwd.text@),
        environment_fields(ec)[1] == ("approval_policy"@, approval_name(ec.approval_policy)),
        environment_fields(ec)[2] == ("sandbox_mode"@, sandbox_name(ec.sandbox_mode)),
        environment_fields(ec)[3] == ("network_access"@, network_name(ec.network_access)),
        ec.cwd.is_unicode ==> environment_text(ec) == xml_text(
            "environment_context"@,
            environment_fields(ec),
            2,
        ),
        !ec.cwd.is_unicode ==> environment_text(ec) == "Current working directory: "@ + ec.cwd.text@
            + "\n"@ + "Approval policy: "@ + approval_name(ec.approval_policy) + "\n"@
            + "Sandbox mode: "@ + sandbox_name(ec.sandbox_mode) + "\n"@ + "Network access: "@
            + network_name(ec.network_access) + "\n"@,
        described(ec) == "Current working directory: "@ + ec.cwd.text@ + "\n"@ + "Approval policy: "@
            + approval_name(ec.approval_policy) + "\n"@ + "Sandbox mode: "@ + sandbox_name(
            ec.sandbox_mode,
        ) + "\n"@ + "Network access: "@ + network_name(ec.network_access) + "\n"@,
{
}

/// The environment is that of the session, whatever its policy is.
pub proof fn environments_are_those_of_the_session(sess: &Session)
    ensures
        ({
            let ec = <EnvironmentContext as vstd::std_specs::convert::FromSpec<
                &Session,
            >>::from_spec(sess);
            &&& ec.cwd == sess.cwd
            &&& ec.approval_policy == sess.approval_policy
            &&& ec.sandbox_mode is ReadOnly <==> sess.sandbox_policy is ReadOnly
            &&& ec.sandbox_mode is WorkspaceWrite <==> sess.sandbox_policy is WorkspaceWrite
            &&& ec.sandbox_mode is DangerFullAccess <==> sess.sandbox_policy is DangerFullAccess
            &&& ec.network_access is Enabled <==> sess.sandbox_policy is DangerFullAccess || (
            sess.sandbox_policy matches SandboxPolicy::WorkspaceWrite { network_access }
                && network_access)
        }),
{
}

} // verus!
