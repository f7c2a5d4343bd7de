//! Why a run of the sandbox fails.

use crate::text::Text;
use vstd::prelude::*;

verus! {

/// The reason for which a run of the sandbox fails. `E` is the error of an
/// outside operation, which is handed on as it came.
#[derive(Debug, PartialEq, Eq)]
pub enum SandboxError<E> {
    /// There is no command to run.
    NoCommand,
    /// No source for a policy was given.
    PolicyRequired,
    /// The configured user does not exist.
    UserNotFound(String),
    /// The configured group does not exist.
    GroupNotFound(String),
    /// The policy wants a proxy and does not configure one.
    ProxyConfigMissing,
    /// The policy wants a proxy and there is no engine to decide requests.
    EngineMissing,
    /// The policy wants a proxy and there is no cache of binary identities.
    CacheMissing,
    /// An operation outside the library failed.
    Outside(E),
}

/// What a [`SandboxError`] holds.
#[verifier::ext_equal]
pub enum ErrorView<E> {
    NoCommand,
    PolicyRequired,
    UserNotFound(Text),
    GroupNotFound(Text),
    ProxyConfigMissing,
    EngineMissing,
    CacheMissing,
    Outside(E),
}

impl<E> View for SandboxError<E> {
    type V = ErrorView<E>;

    open spec fn view(&self) -> ErrorView<E> {
        match *self {
            SandboxError::NoCommand => ErrorView::NoCommand,
            SandboxError::PolicyRequired => ErrorView::PolicyRequired,
            SandboxError::UserNotFound(name) => ErrorView::UserNotFound(name@),
            SandboxError::GroupNotFound(name) => ErrorView::GroupNotFound(name@),
            SandboxError::ProxyConfigMissing => ErrorView::ProxyConfigMissing,
            SandboxError::EngineMissing => ErrorView::EngineMissing,
            SandboxError::CacheMissing => ErrorView::CacheMissing,
            SandboxError::Outside(e) => ErrorView::Outside(e),
        }
    }
}

impl<E> ErrorView<E> {
    /// The words in which the error is reported. An outside error brings its
    /// own.
    pub open spec fn message(self) -> Option<Text> {
        match self {
            ErrorView::NoCommand => Some("No command specified"@),
            ErrorView::PolicyRequired => Some(
                "Sandbox policy required. Provide one of:\n- --policy-rules and --policy-data (or NAVIGATOR_POLICY_RULES and NAVIGATOR_POLICY_DATA env vars)\n- --sandbox-id and --navigator-endpoint (or NAVIGATOR_SANDBOX_ID and NAVIGATOR_ENDPOINT env vars)"@,
            ),
            ErrorView::UserNotFound(name) => Some("Sandbox user not found: "@ + name),
            ErrorView::GroupNotFound(name) => Some("Sandbox group not found: "@ + name),
            ErrorView::ProxyConfigMissing => Some(
                "Network mode is set to proxy but no proxy configuration was provided"@,
            ),
            ErrorView::EngineMissing => Some(
                "Proxy mode requires an OPA engine (--rego-policy and --rego-data)"@,
            ),
            ErrorView::CacheMissing => Some(
                "Proxy mode requires an identity cache (OPA engine must be configured)"@,
            ),
            ErrorView::Outside(_) => None,
        }
    }
}

impl<E> SandboxError<E> {
    /// The words in which the error is reported; none for an outside error,
    /// which brings its own.
    pub fn message(&self) -> (message: Option<String>)
        ensures
            message.deep_view() == self@.message(),
    {
        match self {
            SandboxError::NoCommand => Some("No command specified".to_string()),
            SandboxError::PolicyRequired => Some(
                "Sandbox policy required. Provide one of:\n- --policy-rules and --policy-data (or NAVIGATOR_POLICY_RULES and NAVIGATOR_POLICY_DATA env vars)\n- --sandbox-id and --navigator-endpoint (or NAVIGATOR_SANDBOX_ID and NAVIGATOR_ENDPOINT env vars)".to_string(),
            ),
            SandboxError::UserNotFound(name) => Some(
                "Sandbox user not found: ".to_string().concat(name.as_str()),
            ),
            SandboxError::GroupNotFound(name) => Some(
                "Sandbox group not found: ".to_string().concat(name.as_str()),
            ),
            SandboxError::ProxyConfigMissing => Some(
                "Network mode is set to proxy but no proxy configuration was provided".to_string(),
            ),
            SandboxError::EngineMissing => Some(
                "Proxy mode requires an OPA engine (--rego-policy and --rego-data)".to_string(),
            ),
            SandboxError::CacheMissing => Some(
                "Proxy mode requires an identity cache (OPA engine must be configured)".to_string(),
            ),
            SandboxError::Outside(_) => None,
        }
    }
}

/// Each error is reported in its own words, and one about a name ends with that
/// name. An outside error has no words but its own.
pub proof fn law_errors_say_what_is_wrong<E>(error: SandboxError<E>, message: Option<String>)
    requires
        call_ensures(SandboxError::<E>::message, (&error,), message),
    ensures
        match error {
            SandboxError::NoCommand => message.deep_view() == Some("No command specified"@),
            SandboxError::PolicyRequired => message.deep_view() == Some(
                "Sandbox policy required. Provide one of:\n- --policy-rules and --policy-data (or NAVIGATOR_POLICY_RULES and NAVIGATOR_POLICY_DATA env vars)\n- --sandbox-id and --navigator-endpoint (or NAVIGATOR_SANDBOX_ID and NAVIGATOR_ENDPOINT env vars)"@,
            ),
            SandboxError::UserNotFound(name) => message.deep_view() == Some(
                "Sandbox user not found: "@ + name@,
            ),
            SandboxError::GroupNotFound(name) => message.deep_view() == Some(
                "Sandbox group not found: "@ + name@,
            ),
            SandboxError::ProxyConfigMissing => message.deep_view() == Some(
                "Network mode is set to proxy but no proxy configuration was provided"@,
            ),
            SandboxError::EngineMissing => message.deep_view() == Some(
                "Proxy mode requires an OPA engine (--rego-policy and --rego-data)"@,
            ),
            SandboxError::CacheMissing => message.deep_view() == Some(
                "Proxy mode requires an identity cache (OPA engine must be configured)"@,
            ),
            SandboxError::Outside(_) => message is None,
        },
{
}

} // verus!
