use std::collections::BTreeMap;
use zsh_sidecar::environment::{child_environment, WrapperEndpoint};

fn pair(name: &str, value: &str) -> (String, String) {
    (name.to_string(), value.to_string())
}

fn endpoint() -> Option<WrapperEndpoint> {
    Some(WrapperEndpoint {
        socket_path: "/tmp/czs-1.sock".to_string(),
        wrapper_path: "/bin/sidecar".to_string(),
    })
}

#[test]
fn the_sidecar_sets_its_variables_behind_those_of_the_host() {
    let env = Some(vec![pair("PATH", "/bin"), pair("HOME", "/root")]);
    assert_eq!(
        child_environment(&env, "/bin/zsh", &endpoint()),
        vec![
            pair("PATH", "/bin"),
            pair("HOME", "/root"),
            pair("CODEX_ZSH_PATH", "/bin/zsh"),
            pair("CODEX_ZSH_SIDECAR_WRAPPER_SOCKET", "/tmp/czs-1.sock"),
            pair("EXEC_WRAPPER", "/bin/sidecar"),
            pair("CODEX_ZSH_SIDECAR_WRAPPER_MODE", "1"),
        ]
    );
}

#[test]
fn without_an_endpoint_no_wrapper_is_named() {
    assert_eq!(
        child_environment(&None, "/bin/zsh", &None),
        vec![pair("CODEX_ZSH_PATH", "/bin/zsh"), pair("CODEX_ZSH_SIDECAR_WRAPPER_MODE", "1")]
    );
}

#[test]
fn the_host_cannot_override_the_sidecar() {
    let env = Some(vec![
        pair("EXEC_WRAPPER", "/bin/true"),
        pair("CODEX_ZSH_PATH", "/bin/other"),
        pair("KEPT", "old"),
        pair("KEPT", "new"),
    ]);
    let variables: BTreeMap<String, String> =
        child_environment(&env, "/bin/zsh", &endpoint()).into_iter().collect();
    assert_eq!(variables["EXEC_WRAPPER"], "/bin/sidecar");
    assert_eq!(variables["CODEX_ZSH_PATH"], "/bin/zsh");
    assert_eq!(variables["KEPT"], "new");
    assert_eq!(variables.len(), 5);
}
