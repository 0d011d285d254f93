//! The exec wrapper: a process that stands between zsh and each subcommand, and asks the sidecar
//! over a socket whether the subcommand may run.

use crate::approval::{grants, refusal, refusal_reason, ApprovalDecision};
use crate::decode::{texts, FromJson};
use crate::error::{ErrorView, SidecarError};
use crate::json::{exact, nested_within, object, JsonView};
use crate::message::{
    carries, json_line, lemma_envelope_is_exact, lemma_flat_is_exact, lemma_texts_are_exact,
    line_of, optional_json, optional_text, optional_tree, pair, text_json, text_tree, texts_json,
    texts_tree,
};
use crate::text::{joined, text_of_bytes, trim, trimmed, utf8_error};
use crate::wrapper_json::{law_wrapper_request_is_read_back, law_wrapper_response_is_read_back};
use vstd::pervasive::{arbitrary, unreached};
use vstd::prelude::*;
use vstd::string::*;
use vstd::utf8::*;

verus! {

/// A subcommand that a wrapper asks about.
#[derive(Debug)]
pub struct WrapperExecRequest {
    pub file: String,
    pub argv: Vec<String>,
    pub cwd: String,
}

/// The values of a subcommand that a wrapper asks about.
pub struct WrapperExecRequestView {
    pub file: Seq<char>,
    pub argv: Seq<Seq<char>>,
    pub cwd: Seq<char>,
}

impl View for WrapperExecRequest {
    type V = WrapperExecRequestView;

    open spec fn view(&self) -> WrapperExecRequestView {
        WrapperExecRequestView { file: self.file@, argv: texts(self.argv@), cwd: self.cwd@ }
    }
}

/// What a wrapper is told to do.
#[derive(Debug, Clone, Copy, PartialEq, Eq, Structural)]
pub enum WrapperExecAction {
    Run,
    Deny,
}

impl View for WrapperExecAction {
    type V = WrapperExecAction;

    open spec fn view(&self) -> WrapperExecAction {
        *self
    }
}

/// The answer to a wrapper.
#[derive(Debug)]
pub struct WrapperExecResponse {
    pub action: WrapperExecAction,
    pub reason: Option<String>,
}

/// The values of the answer to a wrapper.
pub struct WrapperExecResponseView {
    pub action: WrapperExecAction,
    pub reason: Option<Seq<char>>,
}

impl View for WrapperExecResponse {
    type V = WrapperExecResponseView;

    open spec fn view(&self) -> WrapperExecResponseView {
        WrapperExecResponseView { action: self.action, reason: optional_text(self.reason) }
    }
}

/// What a wrapper is told after a decision: to run the subcommand, or not to, and why not.
pub open spec fn wrapper_answer(decision: ApprovalDecision) -> WrapperExecResponseView {
    WrapperExecResponseView {
        action: if grants(decision) {
            WrapperExecAction::Run
        } else {
            WrapperExecAction::Deny
        },
        reason: refusal(decision),
    }
}

/// What a wrapper is told after a decision.
pub fn wrapper_response(decision: ApprovalDecision) -> (response: WrapperExecResponse)
    ensures
        response@ == wrapper_answer(decision),
{
    match refusal_reason(decision) {
        None => WrapperExecResponse { action: WrapperExecAction::Run, reason: None },
        Some(reason) => WrapperExecResponse {
            action: WrapperExecAction::Deny,
            reason: Some(reason),
        },
    }
}

/// The JSON form of a wrapper's question.
pub open spec fn wrapper_request_tree(request: WrapperExecRequestView) -> JsonView {
    JsonView::Object(
        seq![
            ("file"@, text_tree(request.file)),
            ("argv"@, texts_tree(request.argv)),
            ("cwd"@, text_tree(request.cwd)),
        ],
    )
}

/// The name of what a wrapper is told to do.
pub open spec fn action_name(action: WrapperExecAction) -> Seq<char> {
    match action {
        WrapperExecAction::Run => "run"@,
        WrapperExecAction::Deny => "deny"@,
    }
}

/// The JSON form of the answer to a wrapper.
pub open spec fn wrapper_response_tree(response: WrapperExecResponseView) -> JsonView {
    JsonView::Object(
        seq![
            ("action"@, text_tree(action_name(response.action))),
            ("reason"@, optional_tree(response.reason)),
        ],
    )
}

proof fn lemma_wrapper_request_is_exact(request: WrapperExecRequestView)
    ensures
        exact(wrapper_request_tree(request)),
        nested_within(wrapper_request_tree(request), 127),
{
    let members = wrapper_request_tree(request)->Object_0;
    reveal_strlit("file");
    reveal_strlit("argv");
    reveal_strlit("cwd");
    assert("file"@[0] != "argv"@[0]);
    assert("cwd"@.len() == 3 && "file"@.len() == 4 && "argv"@.len() == 4);
    lemma_texts_are_exact(request.argv, 126);
    assert(members[1].1 == texts_tree(request.argv));
    lemma_envelope_is_exact(members);
}

proof fn lemma_wrapper_response_is_exact(response: WrapperExecResponseView)
    ensures
        exact(wrapper_response_tree(response)),
        nested_within(wrapper_response_tree(response), 127),
{
    let members = wrapper_response_tree(response)->Object_0;
    reveal_strlit("action");
    reveal_strlit("reason");
    assert("action"@[0] != "reason"@[0]);
    lemma_flat_is_exact(members, 127);
}

/// The line on which a wrapper asks. It carries a value that is read as the question.
pub fn wrapper_request_line(request: &WrapperExecRequest) -> (line: String)
    ensures
        carries(line@, wrapper_request_tree(request@)),
        WrapperExecRequest::from_tree(wrapper_request_tree(request@)) == Ok::<
            WrapperExecRequestView,
            Seq<char>,
        >(request@),
{
    let json = object(
        vec![
            pair("file", text_json(request.file.as_str())),
            pair("argv", texts_json(&request.argv)),
            pair("cwd", text_json(request.cwd.as_str())),
        ],
    );
    proof {
        assert(json@->Object_0 =~= wrapper_request_tree(request@)->Object_0);
        lemma_wrapper_request_is_exact(request@);
        law_wrapper_request_is_read_back(request@);
    }
    json_line(&json)
}

/// The line on which a wrapper is answered. It carries a value that is read as the answer.
pub fn wrapper_response_line(response: &WrapperExecResponse) -> (line: String)
    ensures
        carries(line@, wrapper_response_tree(response@)),
        WrapperExecResponse::from_tree(wrapper_response_tree(response@)) == Ok::<
            WrapperExecResponseView,
            Seq<char>,
        >(response@),
{
    let name = match response.action {
        WrapperExecAction::Run => "run",
        WrapperExecAction::Deny => "deny",
    };
    let json = object(
        vec![pair("action", text_json(name)), pair("reason", optional_json(&response.reason))],
    );
    proof {
        assert(json@->Object_0 =~= wrapper_response_tree(response@)->Object_0);
        lemma_wrapper_response_is_exact(response@);
        law_wrapper_response_is_read_back(response@);
    }
    json_line(&json)
}

/// The text of a wrapper's question: its bytes as UTF-8, without the white space around them.
pub fn wrapper_request_text(bytes: Vec<u8>) -> (result: Result<String, SidecarError>)
    ensures
        match result {
            Ok(text) => valid_utf8(bytes@) && text@ == trimmed(decode_utf8(bytes@)),
            Err(error) => !valid_utf8(bytes@) && error@ == ErrorView::WrapperRequestBytes(
                utf8_error(bytes@),
            ),
        },
{
    match text_of_bytes(bytes) {
        Ok(text) => Ok(trim(text.as_str()).to_owned()),
        Err(error) => Err(SidecarError::WrapperRequestBytes(error)),
    }
}

/// The words behind the first one.
pub open spec fn arguments(words: Seq<Seq<char>>) -> Seq<Seq<char>> {
    if words.len() == 0 {
        Seq::empty()
    } else {
        words.skip(1)
    }
}

/// The words behind the first one.
pub(crate) fn arguments_of(words: &Vec<String>) -> (rest: Vec<String>)
    ensures
        texts(rest@) == arguments(texts(words@)),
{
    let mut rest: Vec<String> = Vec::new();
    let mut i: usize = 1;
    while i < words.len()
        invariant
            1 <= i,
            i <= words@.len() || words@.len() == 0,
            words@.len() == 0 ==> rest@.len() == 0,
            words@.len() > 0 ==> rest@.len() == i - 1,
            forall|j: int| 0 <= j < rest@.len() ==> (#[trigger] rest@[j])@ == words@[j + 1]@,
        decreases words@.len() - i,
    {
        rest.push(words[i].clone());
        i += 1;
    }
    assert(texts(rest@) =~= arguments(texts(words@)));
    rest
}

/// How far an exec wrapper has come.
#[derive(Debug)]
pub enum WrapperMode {
    /// It has not looked at its arguments yet.
    Starting,
    /// It knows its target, and looks for the directory it is in and for the socket.
    Locating { file: String, argv: Vec<String> },
    /// It connects to the socket.
    Connecting { request: WrapperExecRequest, socket_path: String },
    /// It has asked, and awaits the answer.
    Asking { file: String, argv: Vec<String> },
    /// Its target runs.
    Running,
    /// It is about to exit.
    Done,
}

/// The values of how far an exec wrapper has come.
pub enum WrapperModeView {
    Starting,
    Locating { file: Seq<char>, argv: Seq<Seq<char>> },
    Connecting { request: WrapperExecRequestView, socket_path: Seq<char> },
    Asking { file: Seq<char>, argv: Seq<Seq<char>> },
    Running,
    Done,
}

impl View for WrapperMode {
    type V = WrapperModeView;

    open spec fn view(&self) -> WrapperModeView {
        match self {
            WrapperMode::Starting => WrapperModeView::Starting,
            WrapperMode::Locating { file, argv } => WrapperModeView::Locating {
                file: file@,
                argv: texts(argv@),
            },
            WrapperMode::Connecting { request, socket_path } => WrapperModeView::Connecting {
                request: request@,
                socket_path: socket_path@,
            },
            WrapperMode::Asking { file, argv } => WrapperModeView::Asking {
                file: file@,
                argv: texts(argv@),
            },
            WrapperMode::Running => WrapperModeView::Running,
            WrapperMode::Done => WrapperModeView::Done,
        }
    }
}

/// What happens to an exec wrapper.
#[derive(Debug)]
pub enum WrapperEvent {
    /// It was started with these arguments, its own path first, on a system with Unix sockets or
    /// without.
    Invoked { args: Vec<String>, unix: bool },
    /// Its directory was found, and the path of the socket, or why the environment has none.
    Located { cwd: String, socket_path: Result<String, String> },
    /// The connection stands.
    Connected,
    /// No connection could be made; holds the reason.
    ConnectFailed(String),
    /// The answer was read, or could not be read.
    Answered(Result<WrapperExecResponse, String>),
    /// The target has ended, with a code unless a signal ended it.
    Exited(Option<i32>),
}

/// The values of what happens to an exec wrapper.
pub enum WrapperEventView {
    Invoked { args: Seq<Seq<char>>, unix: bool },
    Located { cwd: Seq<char>, socket_path: Result<Seq<char>, Seq<char>> },
    Connected,
    ConnectFailed(Seq<char>),
    Answered(Result<WrapperExecResponseView, Seq<char>>),
    Exited(Option<i32>),
}

impl View for WrapperEvent {
    type V = WrapperEventView;

    open spec fn view(&self) -> WrapperEventView {
        match self {
            WrapperEvent::Invoked { args, unix } => WrapperEventView::Invoked {
                args: texts(args@),
                unix: *unix,
            },
            WrapperEvent::Located { cwd, socket_path } => WrapperEventView::Located {
                cwd: cwd@,
                socket_path: match socket_path {
                    Ok(path) => Ok(path@),
                    Err(cause) => Err(cause@),
                },
            },
            WrapperEvent::Connected => WrapperEventView::Connected,
            WrapperEvent::ConnectFailed(cause) => WrapperEventView::ConnectFailed(cause@),
            WrapperEvent::Answered(answer) => WrapperEventView::Answered(
                match answer {
                    Ok(response) => Ok(response@),
                    Err(error) => Err(error@),
                },
            ),
            WrapperEvent::Exited(code) => WrapperEventView::Exited(*code),
        }
    }
}

/// What an exec wrapper does next.
#[derive(Debug)]
pub enum WrapperAction {
    /// Find the current directory and the socket path.
    Locate,
    /// Connect to the socket.
    Connect { socket_path: String },
    /// Send the line, end sending, and read the answer.
    Ask { line: String },
    /// Print the notice and exit.
    Refuse { notice: String, code: i32 },
    /// Run the target to its end.
    Run { program: String, args: Vec<String> },
    /// Exit.
    Exit { code: i32 },
}

/// The values of what an exec wrapper does next.
pub enum WrapperActionView {
    Locate,
    Connect { socket_path: Seq<char> },
    Ask { line: Seq<char> },
    Refuse { notice: Seq<char>, code: i32 },
    Run { program: Seq<char>, args: Seq<Seq<char>> },
    Exit { code: i32 },
}

impl View for WrapperAction {
    type V = WrapperActionView;

    open spec fn view(&self) -> WrapperActionView {
        match self {
            WrapperAction::Locate => WrapperActionView::Locate,
            WrapperAction::Connect { socket_path } => WrapperActionView::Connect {
                socket_path: socket_path@,
            },
            WrapperAction::Ask { line } => WrapperActionView::Ask { line: line@ },
            WrapperAction::Refuse { notice, code } => WrapperActionView::Refuse {
                notice: notice@,
                code: *code,
            },
            WrapperAction::Run { program, args } => WrapperActionView::Run {
                program: program@,
                args: texts(args@),
            },
            WrapperAction::Exit { code } => WrapperActionView::Exit { code: *code },
        }
    }
}

/// The events that can happen to a wrapper that has come so far.
pub open spec fn wrapper_expects(mode: WrapperModeView, event: WrapperEventView) -> bool {
    match event {
        WrapperEventView::Invoked { .. } => mode is Starting,
        WrapperEventView::Located { .. } => mode is Locating,
        WrapperEventView::Connected => mode is Connecting,
        WrapperEventView::ConnectFailed(_) => mode is Connecting,
        WrapperEventView::Answered(_) => mode is Asking,
        WrapperEventView::Exited(_) => mode is Running,
    }
}

/// The words of the target: those behind its path, or its path where there are none.
pub open spec fn target_words(args: Seq<Seq<char>>) -> Seq<Seq<char>> {
    if args.len() > 2 {
        args.skip(2)
    } else {
        seq![args[1]]
    }
}

/// What a wrapper prints when its target may not run.
pub open spec fn refusal_notice(reason: Option<Seq<char>>) -> Seq<char> {
    match reason {
        Some(reason) => "Execution denied: "@ + reason,
        None => "Execution denied"@,
    }
}

/// What an exec wrapper comes to, and does, when something happens to it.
pub open spec fn wrapper_next(mode: WrapperModeView, event: WrapperEventView) -> Result<
    (WrapperModeView, WrapperActionView),
    ErrorView,
> {
    match (event, mode) {
        (WrapperEventView::Invoked { args, unix }, _) => if !unix {
            Err(ErrorView::WrapperUnsupported)
        } else if args.len() < 2 {
            Err(ErrorView::WrapperTargetMissing)
        } else {
            Ok(
                (
                    WrapperModeView::Locating { file: args[1], argv: target_words(args) },
                    WrapperActionView::Locate,
                ),
            )
        },
        (
            WrapperEventView::Located { cwd, socket_path },
            WrapperModeView::Locating { file, argv },
        ) => match socket_path {
            Err(cause) => Err(ErrorView::WrapperSocketMissing(cause)),
            Ok(socket_path) => Ok(
                (
                    WrapperModeView::Connecting {
                        request: WrapperExecRequestView { file, argv, cwd },
                        socket_path,
                    },
                    WrapperActionView::Connect { socket_path },
                ),
            ),
        },
        (
            WrapperEventView::ConnectFailed(cause),
            WrapperModeView::Connecting { socket_path, .. },
        ) => Err(ErrorView::WrapperConnection { socket_path, cause }),
        (WrapperEventView::Connected, WrapperModeView::Connecting { request, .. }) => Ok(
            (
                WrapperModeView::Asking { file: request.file, argv: request.argv },
                WrapperActionView::Ask { line: line_of(wrapper_request_tree(request)) },
            ),
        ),
        (WrapperEventView::Answered(answer), WrapperModeView::Asking { file, argv }) => {
            match answer {
                Err(error) => Err(ErrorView::WrapperResponse(error)),
                Ok(response) => match response.action {
                    WrapperExecAction::Deny => Ok(
                        (
                            WrapperModeView::Done,
                            WrapperActionView::Refuse {
                                notice: refusal_notice(response.reason),
                                code: 1,
                            },
                        ),
                    ),
                    WrapperExecAction::Run => Ok(
                        (
                            WrapperModeView::Running,
                            WrapperActionView::Run { program: file, args: arguments(argv) },
                        ),
                    ),
                },
            }
        },
        (WrapperEventView::Exited(code), _) => Ok(
            (
                WrapperModeView::Done,
                WrapperActionView::Exit {
                    code: match code {
                        Some(code) => code,
                        None => 1,
                    },
                },
            ),
        ),
        _ => arbitrary(),
    }
}

/// Whether an event can happen to a wrapper that has come so far.
pub fn wrapper_mode_expects(mode: &WrapperMode, event: &WrapperEvent) -> (answer: bool)
    ensures
        answer == wrapper_expects(mode@, event@),
{
    match event {
        WrapperEvent::Invoked { .. } => matches!(mode, WrapperMode::Starting),
        WrapperEvent::Located { .. } => matches!(mode, WrapperMode::Locating { .. }),
        WrapperEvent::Connected => matches!(mode, WrapperMode::Connecting { .. }),
        WrapperEvent::ConnectFailed(_) => matches!(mode, WrapperMode::Connecting { .. }),
        WrapperEvent::Answered(_) => matches!(mode, WrapperMode::Asking { .. }),
        WrapperEvent::Exited(_) => matches!(mode, WrapperMode::Running),
    }
}

fn target_from(args: &Vec<String>) -> (words: Vec<String>)
    requires
        args@.len() >= 2,
    ensures
        texts(words@) == target_words(texts(args@)),
{
    let mut words: Vec<String> = Vec::new();
    let mut i: usize = 2;
    while i < args.len()
        invariant
            2 <= i <= args@.len(),
            words@.len() == i - 2,
            forall|j: int| 0 <= j < words@.len() ==> (#[trigger] words@[j])@ == args@[j + 2]@,
        decreases args@.len() - i,
    {
        words.push(args[i].clone());
        i += 1;
    }
    if args.len() == 2 {
        words.push(args[1].clone());
    }
    assert(texts(words@) =~= target_words(texts(args@)));
    words
}

/// Carries an exec wrapper on when something happens to it: where it comes to, and what it does.
/// The line on which it asks carries its question.
pub fn run_exec_wrapper_mode(mode: WrapperMode, event: WrapperEvent) -> (result: Result<
    (WrapperMode, WrapperAction),
    SidecarError,
>)
    requires
        wrapper_expects(mode@, event@),
    ensures
        match result {
            Ok(next) => wrapper_next(mode@, event@) == Ok::<
                (WrapperModeView, WrapperActionView),
                ErrorView,
            >((next.0@, next.1@)),
            Err(error) => wrapper_next(mode@, event@) == Err::<
                (WrapperModeView, WrapperActionView),
                ErrorView,
            >(error@),
        },
        result matches Ok((_, WrapperAction::Ask { line })) ==> {
            &&& mode@ matches WrapperModeView::Connecting { request, .. }
            &&& carries(line@, wrapper_request_tree(request))
        },
{
    match (event, mode) {
        (WrapperEvent::Invoked { args, unix }, _) => {
            if !unix {
                return Err(SidecarError::WrapperUnsupported);
            }
            if args.len() < 2 {
                return Err(SidecarError::WrapperTargetMissing);
            }
            let file = args[1].clone();
            let argv = target_from(&args);
            Ok((WrapperMode::Locating { file, argv }, WrapperAction::Locate))
        },
        (
            WrapperEvent::Located { cwd, socket_path },
            WrapperMode::Locating { file, argv },
        ) => match socket_path {
            Err(cause) => Err(SidecarError::WrapperSocketMissing(cause)),
            Ok(socket_path) => Ok(
                (
                    WrapperMode::Connecting {
                        request: WrapperExecRequest { file, argv, cwd },
                        socket_path: socket_path.clone(),
                    },
                    WrapperAction::Connect { socket_path },
                ),
            ),
        },
        (WrapperEvent::ConnectFailed(cause), WrapperMode::Connecting { socket_path, .. }) => Err(
            SidecarError::WrapperConnection { socket_path, cause },
        ),
        (WrapperEvent::Connected, WrapperMode::Connecting { request, .. }) => {
            let line = wrapper_request_line(&request);
            Ok(
                (
                    WrapperMode::Asking { file: request.file, argv: request.argv },
                    WrapperAction::Ask { line },
                ),
            )
        },
        (WrapperEvent::Answered(answer), WrapperMode::Asking { file, argv }) => match answer {
            Err(error) => Err(SidecarError::WrapperResponse(error)),
            Ok(response) => match response.action {
                WrapperExecAction::Deny => {
                    let notice = match response.reason {
                        Some(reason) => joined("Execution denied: ", reason.as_str()),
                        None => "Execution denied".to_owned(),
                    };
                    Ok((WrapperMode::Done, WrapperAction::Refuse { notice, code: 1 }))
                },
                WrapperExecAction::Run => {
                    let args = arguments_of(&argv);
                    Ok((WrapperMode::Running, WrapperAction::Run { program: file, args }))
                },
            },
        },
        (WrapperEvent::Exited(code), _) => {
            let code = match code {
                Some(code) => code,
                None => 1,
            };
            Ok((WrapperMode::Done, WrapperAction::Exit { code }))
        },
        _ => unreached(),
    }
}

/// A wrapper runs its target only when it is told to.
pub proof fn law_wrapper_runs_only_when_told(mode: WrapperModeView, event: WrapperEventView)
    requires
        wrapper_expects(mode, event),
        wrapper_next(mode, event) is Ok,
        wrapper_next(mode, event)->Ok_0.1 is Run,
    ensures
        event matches WrapperEventView::Answered(Ok(response)) && response.action
            == WrapperExecAction::Run,
{
}

/// A wrapper that is started with a target asks about it, with its words and the directory it is
/// in, and runs that very target with those words when it is told to.
pub proof fn law_wrapper_runs_what_it_asked_about(
    args: Seq<Seq<char>>,
    cwd: Seq<char>,
    socket_path: Seq<char>,
    response: WrapperExecResponseView,
)
    requires
        args.len() >= 2,
    ensures
        ({
            let request = WrapperExecRequestView {
                file: args[1],
                argv: target_words(args),
                cwd,
            };
            let invoked = wrapper_next(
                WrapperModeView::Starting,
                WrapperEventView::Invoked { args, unix: true },
            );
            let located = wrapper_next(
                invoked->Ok_0.0,
                WrapperEventView::Located { cwd, socket_path: Ok(socket_path) },
            );
            let connected = wrapper_next(located->Ok_0.0, WrapperEventView::Connected);
            let answered = wrapper_next(
                connected->Ok_0.0,
                WrapperEventView::Answered(Ok(response)),
            );
            &&& invoked is Ok && located is Ok && connected is Ok && answered is Ok
            &&& located->Ok_0.1 == WrapperActionView::Connect { socket_path }
            &&& connected->Ok_0.1 == WrapperActionView::Ask {
                line: line_of(wrapper_request_tree(request)),
            }
            &&& answered->Ok_0.1 == if response.action == WrapperExecAction::Run {
                WrapperActionView::Run { program: request.file, args: arguments(request.argv) }
            } else {
                WrapperActionView::Refuse { notice: refusal_notice(response.reason), code: 1 }
            }
        }),
{
}

/// What the host decides about a subcommand is what its wrapper does: it runs the target after a
/// decision that grants it, and gives the reason and fails after any other.
pub proof fn law_decision_reaches_the_wrapper(
    decision: ApprovalDecision,
    file: Seq<char>,
    argv: Seq<Seq<char>>,
)
    ensures
        ({
            let next = wrapper_next(
                WrapperModeView::Asking { file, argv },
                WrapperEventView::Answered(Ok(wrapper_answer(decision))),
            );
            &&& next is Ok
            &&& next->Ok_0.1 == if grants(decision) {
                WrapperActionView::Run { program: file, args: arguments(argv) }
            } else {
                WrapperActionView::Refuse {
                    notice: "Execution denied: "@ + refusal(decision)->0,
                    code: 1,
                }
            }
        }),
{
}

} // verus!
