//! What an exec wrapper does, said of the arguments it was started with.

use crate::decode::member;
use crate::error::ErrorView;
use crate::json::JsonView;
use crate::message::line_of;
use crate::message_laws::{has_members, member_names};
use crate::reading_laws::{law_first_member_is_found, word_array};
use crate::wrapper::{
    arguments, target_words, wrapper_expects, wrapper_next, wrapper_request_tree,
    wrapper_response_tree, WrapperActionView, WrapperEventView, WrapperExecAction,
    WrapperExecRequestView, WrapperExecResponseView, WrapperModeView,
};
use vstd::prelude::*;
use vstd::string::*;

verus! {

/// The words of a target, from the arguments that its wrapper was started with: the wrapper's own
/// path and the target's path come first, and the path stands for the words where none follow.
pub open spec fn words_of_target(args: Seq<Seq<char>>) -> Seq<Seq<char>> {
    if args.len() > 2 {
        args.skip(2)
    } else {
        args.skip(1)
    }
}

/// The words behind the first are all the words but the first.
pub proof fn law_arguments_follow_the_first_word(words: Seq<Seq<char>>)
    ensures
        words.len() > 0 ==> seq![words[0]] + arguments(words) == words,
        words.len() == 0 ==> arguments(words).len() == 0,
{
    if words.len() > 0 {
        assert(seq![words[0]] + arguments(words) =~= words);
    }
}

/// From the arguments it was started with to the end of its target: a wrapper asks about the
/// target's words, runs the target's path with all of these words but the first when it is told
/// to, and exits as the target does, or with 1 where that has no code. Told not to, it gives the
/// reason and exits with 1.
pub proof fn law_wrapper_from_start_to_end(
    args: Seq<Seq<char>>,
    cwd: Seq<char>,
    socket_path: Seq<char>,
    response: WrapperExecResponseView,
    code: Option<i32>,
)
    requires
        args.len() >= 2,
    ensures
        ({
            let words = words_of_target(args);
            let request = WrapperExecRequestView { file: args[1], argv: words, cwd };
            let invoked = wrapper_next(
                WrapperModeView::Starting,
                WrapperEventView::Invoked { args, unix: true },
            );
            let located = wrapper_next(
                invoked->Ok_0.0,
                WrapperEventView::Located { cwd, socket_path: Ok(socket_path) },
            );
            let connected = wrapper_next(located->Ok_0.0, WrapperEventView::Connected);
            let told = wrapper_next(connected->Ok_0.0, WrapperEventView::Answered(Ok(response)));
            let exited = wrapper_next(told->Ok_0.0, WrapperEventView::Exited(code));
            &&& invoked is Ok && invoked->Ok_0.1 is Locate
            &&& located is Ok && located->Ok_0.1 == WrapperActionView::Connect { socket_path }
            &&& connected is Ok && connected->Ok_0.1 == WrapperActionView::Ask {
                line: line_of(wrapper_request_tree(request)),
            }
            &&& told is Ok
            &&& response.action == WrapperExecAction::Run ==> {
                &&& told->Ok_0.1 is Run
                &&& told->Ok_0.1->program == args[1]
                &&& told->Ok_0.1->Run_args == if args.len() > 2 {
                    args.skip(3)
                } else {
                    Seq::empty()
                }
                &&& words == seq![words[0]] + told->Ok_0.1->Run_args
                &&& wrapper_expects(told->Ok_0.0, WrapperEventView::Exited(code))
                &&& exited is Ok && exited->Ok_0.1 == WrapperActionView::Exit {
                    code: match code {
                        Some(code) => code,
                        None => 1,
                    },
                }
            }
            &&& response.action == WrapperExecAction::Deny ==> {
                &&& told->Ok_0.1 == WrapperActionView::Refuse {
                    notice: match response.reason {
                        Some(reason) => "Execution denied: "@ + reason,
                        None => "Execution denied"@,
                    },
                    code: 1,
                }
                &&& !wrapper_expects(told->Ok_0.0, WrapperEventView::Exited(code))
            }
        }),
{
    let words = words_of_target(args);
    let request = WrapperExecRequestView { file: args[1], argv: words, cwd };
    assert(words =~= target_words(args));
    law_arguments_follow_the_first_word(words);
    if args.len() > 2 {
        assert(arguments(words) =~= args.skip(3));
        assert(words =~= seq![words[0]] + args.skip(3));
    } else {
        assert(arguments(words) =~= Seq::<Seq<char>>::empty());
        assert(words =~= seq![words[0]] + Seq::<Seq<char>>::empty());
    }
}

/// A wrapper fails without Unix sockets, without a target, without a socket path, without a
/// connection and without an answer that can be read; each failure names its cause.
pub proof fn law_wrapper_failures(
    args: Seq<Seq<char>>,
    file: Seq<char>,
    argv: Seq<Seq<char>>,
    cwd: Seq<char>,
    socket_path: Seq<char>,
    cause: Seq<char>,
)
    ensures
        wrapper_next(
            WrapperModeView::Starting,
            WrapperEventView::Invoked { args, unix: false },
        ) == Err::<(WrapperModeView, WrapperActionView), ErrorView>(ErrorView::WrapperUnsupported),
        args.len() < 2 ==> wrapper_next(
            WrapperModeView::Starting,
            WrapperEventView::Invoked { args, unix: true },
        ) == Err::<(WrapperModeView, WrapperActionView), ErrorView>(
            ErrorView::WrapperTargetMissing,
        ),
        wrapper_next(
            WrapperModeView::Locating { file, argv },
            WrapperEventView::Located { cwd, socket_path: Err(cause) },
        ) == Err::<(WrapperModeView, WrapperActionView), ErrorView>(
            ErrorView::WrapperSocketMissing(cause),
        ),
        wrapper_next(
            WrapperModeView::Connecting {
                request: WrapperExecRequestView { file, argv, cwd },
                socket_path,
            },
            WrapperEventView::ConnectFailed(cause),
        ) == Err::<(WrapperModeView, WrapperActionView), ErrorView>(
            ErrorView::WrapperConnection { socket_path, cause },
        ),
        wrapper_next(
            WrapperModeView::Asking { file, argv },
            WrapperEventView::Answered(Err(cause)),
        ) == Err::<(WrapperModeView, WrapperActionView), ErrorView>(
            ErrorView::WrapperResponse(cause),
        ),
{
}

/// From any state, what a wrapper comes to holds what it knew: the target and its words stay as they
/// are until the target runs.
pub proof fn law_wrapper_keeps_its_target(
    file: Seq<char>,
    argv: Seq<Seq<char>>,
    cwd: Seq<char>,
    socket_path: Seq<char>,
    response: WrapperExecResponseView,
)
    ensures
        wrapper_next(
            WrapperModeView::Locating { file, argv },
            WrapperEventView::Located { cwd, socket_path: Ok(socket_path) },
        ) == Ok::<(WrapperModeView, WrapperActionView), ErrorView>(
            (
                WrapperModeView::Connecting {
                    request: WrapperExecRequestView { file, argv, cwd },
                    socket_path,
                },
                WrapperActionView::Connect { socket_path },
            ),
        ),
        wrapper_next(
            WrapperModeView::Connecting {
                request: WrapperExecRequestView { file, argv, cwd },
                socket_path,
            },
            WrapperEventView::Connected,
        ) == Ok::<(WrapperModeView, WrapperActionView), ErrorView>(
            (
                WrapperModeView::Asking { file, argv },
                WrapperActionView::Ask {
                    line: line_of(
                        wrapper_request_tree(WrapperExecRequestView { file, argv, cwd }),
                    ),
                },
            ),
        ),
        response.action == WrapperExecAction::Run && argv.len() > 0 ==> wrapper_next(
            WrapperModeView::Asking { file, argv },
            WrapperEventView::Answered(Ok(response)),
        ) == Ok::<(WrapperModeView, WrapperActionView), ErrorView>(
            (
                WrapperModeView::Running,
                WrapperActionView::Run { program: file, args: argv.skip(1) },
            ),
        ),
{
}

/// The events that can happen to a wrapper are those of how far it has come.
pub proof fn law_events_of_a_wrapper(mode: WrapperModeView, event: WrapperEventView)
    ensures
        wrapper_expects(mode, event) <==> match mode {
            WrapperModeView::Starting => event is Invoked,
            WrapperModeView::Locating { .. } => event is Located,
            WrapperModeView::Connecting { .. } => event is Connected || event is ConnectFailed,
            WrapperModeView::Asking { .. } => event is Answered,
            WrapperModeView::Running => event is Exited,
            WrapperModeView::Done => false,
        },
{
}

/// A wrapper's question on the wire: the file, every word and the directory.
pub proof fn law_wrapper_request_on_the_wire(request: WrapperExecRequestView)
    ensures
        ({
            let tree = wrapper_request_tree(request);
            &&& has_members(tree, seq!["file"@, "argv"@, "cwd"@])
            &&& member(tree, "file"@) == Some(JsonView::Text(request.file))
            &&& member(tree, "argv"@) == Some(word_array(request.argv))
            &&& member(tree, "cwd"@) == Some(JsonView::Text(request.cwd))
        }),
{
    let tree = wrapper_request_tree(request);
    reveal_strlit("file");
    reveal_strlit("argv");
    reveal_strlit("cwd");
    assert("file"@[0] != "argv"@[0]);
    assert("cwd"@.len() == 3 && "file"@.len() == 4 && "argv"@.len() == 4);
    law_first_member_is_found(tree->Object_0, 0);
    law_first_member_is_found(tree->Object_0, 1);
    law_first_member_is_found(tree->Object_0, 2);
    assert(tree->Object_0[1].1->Array_0 =~= word_array(request.argv)->Array_0);
    assert(member_names(tree) =~= seq!["file"@, "argv"@, "cwd"@]);
}

/// The answer to a wrapper on the wire: `run` or `deny`, and the reason or null.
pub proof fn law_wrapper_response_on_the_wire(response: WrapperExecResponseView)
    ensures
        ({
            let tree = wrapper_response_tree(response);
            &&& has_members(tree, seq!["action"@, "reason"@])
            &&& response.action == WrapperExecAction::Run ==> member(tree, "action"@) == Some(
                JsonView::Text("run"@),
            )
            &&& response.action == WrapperExecAction::Deny ==> member(tree, "action"@) == Some(
                JsonView::Text("deny"@),
            )
            &&& member(tree, "reason"@) == Some(
                match response.reason {
                    Some(reason) => JsonView::Text(reason),
                    None => JsonView::Null,
                },
            )
        }),
{
    let tree = wrapper_response_tree(response);
    reveal_strlit("action");
    reveal_strlit("reason");
    assert("action"@[0] != "reason"@[0]);
    law_first_member_is_found(tree->Object_0, 0);
    law_first_member_is_found(tree->Object_0, 1);
    assert(member_names(tree) =~= seq!["action"@, "reason"@]);
}

} // verus!
