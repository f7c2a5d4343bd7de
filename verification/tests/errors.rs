use navigator_sandbox::error::SandboxError;

fn message(error: SandboxError<&'static str>) -> String {
    error.message().expect("an error of the library's own has a message")
}

#[test]
fn messages_of_the_errors() {
    assert_eq!(message(SandboxError::NoCommand), "No command specified");
    assert_eq!(
        message(SandboxError::UserNotFound("ghost".to_string())),
        "Sandbox user not found: ghost"
    );
    assert_eq!(
        message(SandboxError::GroupNotFound("ghosts".to_string())),
        "Sandbox group not found: ghosts"
    );
    assert_eq!(
        message(SandboxError::ProxyConfigMissing),
        "Network mode is set to proxy but no proxy configuration was provided"
    );
    assert_eq!(
        message(SandboxError::EngineMissing),
        "Proxy mode requires an OPA engine (--rego-policy and --rego-data)"
    );
    assert_eq!(
        message(SandboxError::CacheMissing),
        "Proxy mode requires an identity cache (OPA engine must be configured)"
    );
}

#[test]
fn message_of_a_missing_policy_names_its_sources() {
    assert_eq!(
        message(SandboxError::PolicyRequired),
        "Sandbox policy required. Provide one of:\n\
         - --policy-rules and --policy-data (or NAVIGATOR_POLICY_RULES and NAVIGATOR_POLICY_DATA env vars)\n\
         - --sandbox-id and --navigator-endpoint (or NAVIGATOR_SANDBOX_ID and NAVIGATOR_ENDPOINT env vars)"
    );
}

#[test]
fn outside_errors_bring_their_own_message() {
    assert_eq!(SandboxError::Outside("broken").message(), None);
}
