//! The environment of a command that the sidecar starts.

use crate::decode::{optional_text_pairs, text_pairs};
use vstd::prelude::*;
use vstd::string::*;

verus! {

/// Names the zsh that a command is to run under.
pub const ZSH_PATH_ENV_VAR: &'static str = "CODEX_ZSH_PATH";

/// Names the program that zsh starts in place of each subcommand.
pub const EXEC_WRAPPER_ENV_VAR: &'static str = "EXEC_WRAPPER";

/// Tells a process that it is an exec wrapper.
pub const SIDECAREXEC_WRAPPER_MODE_ENV_VAR: &'static str = "CODEX_ZSH_SIDECAR_WRAPPER_MODE";

/// Names the socket on which exec wrappers ask.
pub const SIDECAREXEC_WRAPPER_SOCKET_ENV_VAR: &'static str = "CODEX_ZSH_SIDECAR_WRAPPER_SOCKET";

/// Where exec wrappers are found, and where they ask.
#[derive(Debug)]
pub struct WrapperEndpoint {
    pub socket_path: String,
    pub wrapper_path: String,
}

/// The values of where exec wrappers are found, and where they ask.
pub struct WrapperEndpointView {
    pub socket_path: Seq<char>,
    pub wrapper_path: Seq<char>,
}

impl View for WrapperEndpoint {
    type V = WrapperEndpointView;

    open spec fn view(&self) -> WrapperEndpointView {
        WrapperEndpointView { socket_path: self.socket_path@, wrapper_path: self.wrapper_path@ }
    }
}

/// The values of an endpoint, where there is one.
pub open spec fn optional_endpoint(endpoint: Option<WrapperEndpoint>) -> Option<
    WrapperEndpointView,
> {
    match endpoint {
        Some(endpoint) => Some(endpoint@),
        None => None,
    }
}

/// The variables that the host sets, in order.
pub open spec fn host_variables(env: Option<Seq<(Seq<char>, Seq<char>)>>) -> Seq<
    (Seq<char>, Seq<char>),
> {
    match env {
        Some(env) => env,
        None => Seq::empty(),
    }
}

/// The variables that the sidecar sets, in order. Without an endpoint there is no socket and no
/// wrapper.
pub open spec fn own_variables(
    zsh_path: Seq<char>,
    endpoint: Option<WrapperEndpointView>,
) -> Seq<(Seq<char>, Seq<char>)> {
    match endpoint {
        Some(endpoint) => seq![
            (ZSH_PATH_ENV_VAR@, zsh_path),
            (SIDECAREXEC_WRAPPER_SOCKET_ENV_VAR@, endpoint.socket_path),
            (EXEC_WRAPPER_ENV_VAR@, endpoint.wrapper_path),
            (SIDECAREXEC_WRAPPER_MODE_ENV_VAR@, "1"@),
        ],
        None => seq![
            (ZSH_PATH_ENV_VAR@, zsh_path),
            (SIDECAREXEC_WRAPPER_MODE_ENV_VAR@, "1"@),
        ],
    }
}

/// The variables of a command, in the order in which they are set on an empty environment.
pub open spec fn command_variables(
    env: Option<Seq<(Seq<char>, Seq<char>)>>,
    zsh_path: Seq<char>,
    endpoint: Option<WrapperEndpointView>,
) -> Seq<(Seq<char>, Seq<char>)> {
    host_variables(env) + own_variables(zsh_path, endpoint)
}

/// The environment after variables are set in order: the last value of each stays.
pub open spec fn assigned(variables: Seq<(Seq<char>, Seq<char>)>) -> Map<Seq<char>, Seq<char>>
    decreases variables.len(),
{
    if variables.len() == 0 {
        Map::empty()
    } else {
        assigned(variables.drop_last()).insert(variables.last().0, variables.last().1)
    }
}

fn variable(name: &str, value: &str) -> (pair: (String, String))
    ensures
        pair.0@ == name@,
        pair.1@ == value@,
{
    (name.to_owned(), value.to_owned())
}

/// The variables of a command, in the order in which they are to be set on an empty environment:
/// those of the host, then those of the sidecar.
pub fn child_environment(
    env: &Option<Vec<(String, String)>>,
    zsh_path: &str,
    endpoint: &Option<WrapperEndpoint>,
) -> (variables: Vec<(String, String)>)
    ensures
        text_pairs(variables@) == command_variables(
            optional_text_pairs(*env),
            zsh_path@,
            optional_endpoint(*endpoint),
        ),
{
    let mut variables: Vec<(String, String)> = Vec::new();
    if let Some(env) = env {
        let mut i: usize = 0;
        while i < env.len()
            invariant
                i <= env@.len(),
                variables@.len() == i,
                forall|j: int|
                    0 <= j < i ==> (#[trigger] variables@[j]).0@ == env@[j].0@ && variables@[j].1@
                        == env@[j].1@,
            decreases env@.len() - i,
        {
            variables.push(variable(env[i].0.as_str(), env[i].1.as_str()));
            i += 1;
        }
    }
    assert(text_pairs(variables@) =~= host_variables(optional_text_pairs(*env)));
    let ghost host = variables@;
    variables.push(variable(ZSH_PATH_ENV_VAR, zsh_path));
    if let Some(endpoint) = endpoint {
        variables.push(
            variable(SIDECAREXEC_WRAPPER_SOCKET_ENV_VAR, endpoint.socket_path.as_str()),
        );
        variables.push(variable(EXEC_WRAPPER_ENV_VAR, endpoint.wrapper_path.as_str()));
    }
    variables.push(variable(SIDECAREXEC_WRAPPER_MODE_ENV_VAR, "1"));
    assert(text_pairs(variables@) =~= text_pairs(host) + own_variables(
        zsh_path@,
        optional_endpoint(*endpoint),
    ));
    variables
}

/// Setting more variables behind others overrides those that are named again, and leaves the
/// others as they were.
proof fn lemma_later_wins(
    first: Seq<(Seq<char>, Seq<char>)>,
    second: Seq<(Seq<char>, Seq<char>)>,
)
    ensures
        assigned(first + second) == assigned(first).union_prefer_right(assigned(second)),
    decreases second.len(),
{
    if second.len() == 0 {
        assert(first + second =~= first);
        assert(assigned(first + second) =~= assigned(first).union_prefer_right(assigned(second)));
    } else {
        assert((first + second).drop_last() =~= first + second.drop_last());
        lemma_later_wins(first, second.drop_last());
        assert(assigned(first + second) =~= assigned(first).union_prefer_right(assigned(second)));
    }
}

/// The host cannot override what the sidecar sets: a command finds the sidecar's zsh, and on
/// a system with exec wrappers its socket and its wrapper, whatever the host sets.
pub proof fn law_own_variables_prevail(
    env: Option<Seq<(Seq<char>, Seq<char>)>>,
    zsh_path: Seq<char>,
    endpoint: Option<WrapperEndpointView>,
)
    ensures
        ({
            let variables = assigned(command_variables(env, zsh_path, endpoint));
            &&& variables.contains_pair(ZSH_PATH_ENV_VAR@, zsh_path)
            &&& variables.contains_pair(SIDECAREXEC_WRAPPER_MODE_ENV_VAR@, "1"@)
            &&& endpoint matches Some(endpoint) ==> {
                &&& variables.contains_pair(
                    SIDECAREXEC_WRAPPER_SOCKET_ENV_VAR@,
                    endpoint.socket_path,
                )
                &&& variables.contains_pair(EXEC_WRAPPER_ENV_VAR@, endpoint.wrapper_path)
            }
        }),
{
    lemma_own_variables(zsh_path, endpoint);
    lemma_later_wins(host_variables(env), own_variables(zsh_path, endpoint));
}

/// A variable that the sidecar does not set is the host's: it has the host's last value, and is
/// unset where the host does not set it.
pub proof fn law_host_variables_are_kept(
    env: Option<Seq<(Seq<char>, Seq<char>)>>,
    zsh_path: Seq<char>,
    endpoint: Option<WrapperEndpointView>,
    name: Seq<char>,
)
    requires
        !assigned(own_variables(zsh_path, endpoint)).contains_key(name),
    ensures
        ({
            let variables = assigned(command_variables(env, zsh_path, endpoint));
            let host = assigned(host_variables(env));
            &&& variables.contains_key(name) <==> host.contains_key(name)
            &&& host.contains_key(name) ==> variables[name] == host[name]
        }),
{
    lemma_later_wins(host_variables(env), own_variables(zsh_path, endpoint));
}

/// What the sidecar sets, by name.
proof fn lemma_own_variables(zsh_path: Seq<char>, endpoint: Option<WrapperEndpointView>)
    ensures
        ({
            let variables = assigned(own_variables(zsh_path, endpoint));
            &&& variables.contains_pair(ZSH_PATH_ENV_VAR@, zsh_path)
            &&& variables.contains_pair(SIDECAREXEC_WRAPPER_MODE_ENV_VAR@, "1"@)
            &&& endpoint matches Some(endpoint) ==> {
                &&& variables.contains_pair(
                    SIDECAREXEC_WRAPPER_SOCKET_ENV_VAR@,
                    endpoint.socket_path,
                )
                &&& variables.contains_pair(EXEC_WRAPPER_ENV_VAR@, endpoint.wrapper_path)
            }
        }),
{
    reveal_strlit("CODEX_ZSH_PATH");
    reveal_strlit("EXEC_WRAPPER");
    reveal_strlit("CODEX_ZSH_SIDECAR_WRAPPER_MODE");
    reveal_strlit("CODEX_ZSH_SIDECAR_WRAPPER_SOCKET");
    assert(ZSH_PATH_ENV_VAR@.len() == 14);
    assert(EXEC_WRAPPER_ENV_VAR@.len() == 12);
    assert(SIDECAREXEC_WRAPPER_MODE_ENV_VAR@.len() == 30);
    assert(SIDECAREXEC_WRAPPER_SOCKET_ENV_VAR@.len() == 32);
    let all = own_variables(zsh_path, endpoint);
    reveal_with_fuel(assigned, 5);
    match endpoint {
        Some(_) => {
            assert(all.drop_last().last() == all[2]);
            assert(all.drop_last().drop_last().last() == all[1]);
            assert(all.drop_last().drop_last().drop_last().last() == all[0]);
        },
        None => {
            assert(all.drop_last().last() == all[0]);
        },
    }
}

/// Of variables that are set in order, the last with a name gives its value, and a name that none
/// has is unset.
proof fn lemma_last_is_assigned(
    variables: Seq<(Seq<char>, Seq<char>)>,
    name: Seq<char>,
    at: int,
)
    ensures
        is_last_of_its_name(variables, name, at) ==> assigned(variables).contains_pair(
            name,
            variables[at].1,
        ),
        names_nothing(variables, name) ==> !assigned(variables).contains_key(name),
    decreases variables.len(),
{
    if variables.len() > 0 {
        let before = variables.drop_last();
        lemma_last_is_assigned(before, name, at);
        assert(forall|j: int| 0 <= j < before.len() ==> before[j] == #[trigger] variables[j]);
    }
}

/// A command's environment, name by name: `CODEX_ZSH_PATH` is the zsh, and
/// `CODEX_ZSH_SIDECAR_WRAPPER_MODE` is `1`; with an endpoint, `CODEX_ZSH_SIDECAR_WRAPPER_SOCKET` and
/// `EXEC_WRAPPER` are its two paths. Any other name has the last value that the host gives it, and
/// is unset where the host gives none.
pub proof fn law_environment_by_name(
    env: Option<Seq<(Seq<char>, Seq<char>)>>,
    host: Seq<(Seq<char>, Seq<char>)>,
    zsh_path: Seq<char>,
    endpoint: Option<WrapperEndpointView>,
    name: Seq<char>,
    at: int,
)
    requires
        env == Some(host) || (env is None && host.len() == 0),
    ensures
        ({
            let variables = assigned(command_variables(env, zsh_path, endpoint));
            if name == "CODEX_ZSH_PATH"@ {
                variables.contains_pair(name, zsh_path)
            } else if name == "CODEX_ZSH_SIDECAR_WRAPPER_MODE"@ {
                variables.contains_pair(name, "1"@)
            } else if name == "CODEX_ZSH_SIDECAR_WRAPPER_SOCKET"@ && endpoint is Some {
                variables.contains_pair(name, endpoint->0.socket_path)
            } else if name == "EXEC_WRAPPER"@ && endpoint is Some {
                variables.contains_pair(name, endpoint->0.wrapper_path)
            } else {
                &&& is_last_of_its_name(host, name, at) ==> variables.contains_pair(
                    name,
                    host[at].1,
                )
                &&& names_nothing(host, name) ==> !variables.contains_key(name)
            }
        }),
{
    law_own_variables_prevail(env, zsh_path, endpoint);
    lemma_later_wins(host_variables(env), own_variables(zsh_path, endpoint));
    assert(host_variables(env) =~= host);
    lemma_last_is_assigned(host, name, at);
    if !(name == "CODEX_ZSH_PATH"@ || name == "CODEX_ZSH_SIDECAR_WRAPPER_MODE"@ || (endpoint is Some
        && (name == "CODEX_ZSH_SIDECAR_WRAPPER_SOCKET"@ || name == "EXEC_WRAPPER"@))) {
        assert(names_nothing(own_variables(zsh_path, endpoint), name));
        lemma_last_is_assigned(own_variables(zsh_path, endpoint), name, 0);
        law_host_variables_are_kept(env, zsh_path, endpoint, name);
    }
}

/// Whether a variable is the last of its name.
pub open spec fn is_last_of_its_name(
    variables: Seq<(Seq<char>, Seq<char>)>,
    name: Seq<char>,
    at: int,
) -> bool {
    &&& 0 <= at < variables.len()
    &&& variables[at].0 == name
    &&& forall|j: int| at < j < variables.len() ==> (#[trigger] variables[j]).0 != name
}

/// Whether no variable has a name.
pub open spec fn names_nothing(variables: Seq<(Seq<char>, Seq<char>)>, name: Seq<char>) -> bool {
    forall|j: int| 0 <= j < variables.len() ==> (#[trigger] variables[j]).0 != name
}

/// The host's variables come first, all of them and in order, and at most four follow.
pub proof fn law_host_variables_come_first(
    env: Option<Seq<(Seq<char>, Seq<char>)>>,
    host: Seq<(Seq<char>, Seq<char>)>,
    zsh_path: Seq<char>,
    endpoint: Option<WrapperEndpointView>,
)
    requires
        env == Some(host) || (env is None && host.len() == 0),
    ensures
        command_variables(env, zsh_path, endpoint).take(host.len() as int) == host,
        endpoint is Some ==> command_variables(env, zsh_path, endpoint).len() == host.len() + 4,
        endpoint is None ==> command_variables(env, zsh_path, endpoint).len() == host.len() + 2,
{
    assert(host_variables(env) =~= host);
    assert(command_variables(env, zsh_path, endpoint).take(host.len() as int) =~= host);
}

} // verus!
