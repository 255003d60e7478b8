//! What holds of every request, proved from the definitions of the
//! protocols.

use crate::code::{
    first_name_error, too_many_files_message, BuildResultView, BuildType, CodeView,
    SourceUnitView,
};
use crate::errors::ApiErrorView;
use crate::gist::{share_decision, GistRequestView};
use crate::names::{
    acceptable_name, forbidden_char, free_of_forbidden_chars, lemma_forbidden_names_rejected,
};
use crate::sandboxed::{
    ProcessExit, SandboxActionView, SandboxEventView, SandboxOutcome, SandboxResultView,
    SandboxView,
};
use crate::session::{
    begin_build, begin_format, build_invocation, build_reply, format_reply, ActionView, EventView,
    ReplyView, SessionView, TIMEOUT_MESSAGE,
};
use crate::toolchain::{Network, ToolchainConfigView};
use crate::workspace::{style_file, MANIFEST_FILE, SOURCE_EXTENSION, STYLE_FILE};
use vstd::prelude::*;
use vstd::utf8::{decode_utf8, valid_utf8};

verus! {

/// Every file of the list has an acceptable name.
pub open spec fn all_names_acceptable(units: Seq<SourceUnitView>) -> bool {
    forall|i: int| 0 <= i < units.len() ==> acceptable_name(#[trigger] units[i].name)
}

/// The reply that turns a submission away with `message`.
pub open spec fn turned_away(message: Seq<char>) -> (SessionView, ActionView) {
    (SessionView::Finished, ActionView::Finish(ReplyView::Failed(ApiErrorView::BadRequest(message))))
}

/// No complaint is found from `from` on exactly if every name from there on
/// is acceptable.
pub proof fn lemma_first_name_error(units: Seq<SourceUnitView>, from: int)
    requires
        0 <= from <= units.len(),
    ensures
        first_name_error(units, from) is None <==> forall|i: int|
            from <= i < units.len() ==> acceptable_name(#[trigger] units[i].name),
    decreases units.len() - from,
{
    if from < units.len() {
        lemma_first_name_error(units, from + 1);
    }
}

/// A submission is accepted exactly if it holds at most one file and every
/// file in it has an acceptable name.
pub proof fn law_accepted_submissions(code: CodeView)
    ensures
        code.accepted() <==> code.number_of_files() <= 1 && all_names_acceptable(code.sources)
            && all_names_acceptable(code.tests),
{
    lemma_first_name_error(code.sources, 0);
    lemma_first_name_error(code.tests, 0);
}

/// A submission of more than one file is turned away at once, whatever is
/// asked for: the first answer to a build or format request is the final
/// one, and no upload is prepared for a request to share.
pub proof fn law_too_many_files_rejected(
    code: CodeView,
    build_type: BuildType,
    timeout: Option<u64>,
    network: Option<Network>,
    config: ToolchainConfigView,
    token: Option<Seq<char>>,
)
    requires
        code.number_of_files() > 1,
    ensures
        begin_build(code, build_type, timeout, network, config) == turned_away(
            too_many_files_message(),
        ),
        begin_format(code) == turned_away(too_many_files_message()),
        share_decision(code, token) == Err::<GistRequestView, ApiErrorView>(
            ApiErrorView::BadRequest(too_many_files_message()),
        ),
{
}

/// The name is that of a file of the submission.
pub open spec fn names_a_file(code: CodeView, name: Seq<char>) -> bool {
    ||| exists|i: int| 0 <= i < code.sources.len() && (#[trigger] code.sources[i]).name == name
    ||| exists|i: int| 0 <= i < code.tests.len() && (#[trigger] code.tests[i]).name == name
}

/// A submission with a file whose name is empty or holds a forbidden
/// character, a path separator for one, is turned away at once, whatever is
/// asked for.
pub proof fn law_bad_names_rejected(
    code: CodeView,
    name: Seq<char>,
    build_type: BuildType,
    timeout: Option<u64>,
    network: Option<Network>,
    config: ToolchainConfigView,
    token: Option<Seq<char>>,
)
    requires
        names_a_file(code, name),
        name.len() == 0 || exists|i: int| 0 <= i < name.len() && forbidden_char(#[trigger] name[i]),
    ensures
        code.validation_error() matches Some(message) && {
            &&& begin_build(code, build_type, timeout, network, config) == turned_away(message)
            &&& begin_format(code) == turned_away(message)
            &&& share_decision(code, token) == Err::<GistRequestView, ApiErrorView>(
                ApiErrorView::BadRequest(message),
            )
        },
{
    lemma_forbidden_names_rejected(name);
    law_accepted_submissions(code);
}

/// Once a request is answered, nothing more is asked of the driver.
pub proof fn law_finished_is_final(event: EventView)
    ensures
        SessionView::Finished.step(event) == (SessionView::Finished, ActionView::Ignore),
{
}

/// The toolchain binary of a build is the one configured for the network
/// named, and the one for Mainnet where none is named; and it is this binary
/// that the driver is told to run once the workspace stands.
pub proof fn law_network_selects_binary(
    code: CodeView,
    build_type: BuildType,
    timeout: Option<u64>,
    network: Option<Network>,
    config: ToolchainConfigView,
)
    requires
        code.accepted(),
    ensures
        build_invocation(build_type, timeout, network, config).program == config.binary_name(
            match network {
                Some(n) => n,
                None => Network::Mainnet,
            },
        ),
        begin_build(code, build_type, timeout, network, config).0.step(EventView::Materialized).1
            == ActionView::Run(build_invocation(build_type, timeout, network, config)),
{
}

/// A toolchain run cut short by the deadline is answered as a success whose
/// error output is the fixed message, with the output captured so far.
pub proof fn law_timeout_is_reported_in_stderr(result: SandboxResultView)
    requires
        result.timed_out,
    ensures
        build_reply(result) == ReplyView::Built(
            BuildResultView { stdout: result.stdout, stderr: TIMEOUT_MESSAGE@ },
        ),
{
}

/// The texts of the files of a submission, sources before tests.
pub open spec fn contents_of(code: CodeView) -> Seq<Seq<char>> {
    Seq::new(
        code.number_of_files(),
        |i: int|
            if i < code.sources.len() {
                code.sources[i].content
            } else {
                code.tests[i - code.sources.len()].content
            },
    )
}

/// Where the files read back hold what was submitted, the reply to a format
/// request is the submission itself.
pub proof fn law_unchanged_files_give_back_submission(code: CodeView)
    ensures
        format_reply(code, contents_of(code)) == ReplyView::Formatted(code),
{
    let back = code.with_contents(contents_of(code));
    assert(back.sources =~= code.sources);
    assert(back.tests =~= code.tests);
}

/// How far a request has come.
pub open spec fn progress(state: SessionView) -> nat {
    match state {
        SessionView::Materializing { .. } => 0,
        SessionView::Running { .. } => 1,
        SessionView::Collecting { .. } => 2,
        SessionView::Removing { .. } => 3,
        SessionView::Finished => 4,
    }
}

/// The state of a request after the driver's first `count` reports.
pub open spec fn state_after(start: SessionView, events: Seq<EventView>, count: nat) -> SessionView
    decreases count,
{
    if count == 0 {
        start
    } else {
        state_after(start, events, (count - 1) as nat).step(events[count - 1]).0
    }
}

/// What the driver is told on its report number `index`, counted from
/// zero.
pub open spec fn action_at(start: SessionView, events: Seq<EventView>, index: int) -> ActionView {
    state_after(start, events, index as nat).step(events[index]).1
}

/// One step never takes a request back; the workspace is removed by the
/// step that enters the removing state and by no other; and the reply is
/// released by the step that leaves it and by no other.
pub proof fn law_step_order(state: SessionView, event: EventView)
    ensures
        progress(state) <= progress(state.step(event).0),
        state.step(event).1 is Remove <==> progress(state) < 3 && progress(state.step(event).0)
            == 3,
        state.step(event).1 is Finish <==> progress(state) == 3 && progress(state.step(event).0)
            == 4,
        progress(state) < 3 ==> progress(state.step(event).0) <= 3,
        state.step(event).1 matches ActionView::Finish(reply) ==> state
            == (SessionView::Removing { reply }),
{
}

/// A request never goes back, however many reports come in.
pub proof fn lemma_progress_grows(
    start: SessionView,
    events: Seq<EventView>,
    earlier: nat,
    later: nat,
)
    requires
        earlier <= later,
    ensures
        progress(state_after(start, events, earlier)) <= progress(
            state_after(start, events, later),
        ),
    decreases later,
{
    if earlier < later {
        lemma_progress_grows(start, events, earlier, (later - 1) as nat);
        law_step_order(state_after(start, events, (later - 1) as nat), events[later - 1]);
    }
}

/// Finds the report on which the driver was told to remove the workspace.
proof fn lemma_removal_index(start: SessionView, events: Seq<EventView>, count: nat) -> (index: int)
    requires
        progress(start) < 3,
        progress(state_after(start, events, count)) >= 3,
    ensures
        0 <= index < count,
        action_at(start, events, index) is Remove,
    decreases count,
{
    if count == 0 {
        0
    } else {
        let before = state_after(start, events, (count - 1) as nat);
        law_step_order(before, events[count - 1]);
        if progress(before) < 3 {
            count - 1
        } else {
            lemma_removal_index(start, events, (count - 1) as nat)
        }
    }
}

/// Whatever the driver reports, and in whatever order: for a request that
/// got a workspace, the reply is released only after the driver was told to
/// remove the workspace, and it is told so once at most.
pub proof fn law_workspace_removed_before_reply(
    start: SessionView,
    events: Seq<EventView>,
    index: int,
)
    requires
        progress(start) < 3,
        0 <= index < events.len(),
    ensures
        action_at(start, events, index) is Finish ==> exists|i: int|
            0 <= i < index && #[trigger] action_at(start, events, i) is Remove,
        action_at(start, events, index) is Remove ==> forall|i: int|
            0 <= i < events.len() && i != index ==> !(#[trigger] action_at(start, events, i)
                is Remove),
{
    let here = state_after(start, events, index as nat);
    law_step_order(here, events[index]);
    if action_at(start, events, index) is Finish {
        let i = lemma_removal_index(start, events, index as nat);
        assert(0 <= i < index && action_at(start, events, i) is Remove);
    }
    if action_at(start, events, index) is Remove {
        assert forall|i: int| 0 <= i < events.len() && i != index implies !(#[trigger] action_at(
            start,
            events,
            i,
        ) is Remove) by {
            let there = state_after(start, events, i as nat);
            law_step_order(there, events[i]);
            assert(state_after(start, events, (index + 1) as nat) == here.step(events[index]).0);
            assert(state_after(start, events, (i + 1) as nat) == there.step(events[i]).0);
            if i < index {
                lemma_progress_grows(start, events, (i + 1) as nat, index as nat);
            } else {
                lemma_progress_grows(start, events, (index + 1) as nat, i as nat);
            }
        }
    }
}

/// A request that was turned away at once never has the driver touch a
/// workspace or run a program: every later report is ignored.
pub proof fn law_rejected_request_does_nothing(events: Seq<EventView>, index: int)
    requires
        0 <= index < events.len(),
    ensures
        state_after(SessionView::Finished, events, index as nat) == SessionView::Finished,
        action_at(SessionView::Finished, events, index) == ActionView::Ignore,
    decreases index,
{
    if index > 0 {
        law_rejected_request_does_nothing(events, index - 1);
    }
}

/// A request starts in one of two ways: turned away at once, or with the
/// order to create its workspace.
pub proof fn law_request_starts(
    code: CodeView,
    build_type: BuildType,
    timeout: Option<u64>,
    network: Option<Network>,
    config: ToolchainConfigView,
)
    ensures
        code.accepted() ==> begin_build(code, build_type, timeout, network, config).1
            is Materialize && progress(
            begin_build(code, build_type, timeout, network, config).0,
        ) == 0,
        code.accepted() ==> begin_format(code).1 is Materialize && progress(begin_format(code).0)
            == 0,
        !code.accepted() ==> begin_build(code, build_type, timeout, network, config).0
            is Finished && begin_format(code).0 is Finished,
{
}

/// The protocol of a sandboxed run keeps to reachable states.
pub proof fn law_sandbox_stays_reachable(state: SandboxView, event: SandboxEventView)
    requires
        state.reachable(),
    ensures
        state.step(event).0.reachable(),
{
}

/// A run that could not be started ends at once, with no deadline applied;
/// a run is reported as timed out only after the driver was told to kill the
/// program, and it is told so only when the deadline has passed.
pub proof fn law_sandbox_order(state: SandboxView, event: SandboxEventView)
    requires
        state.reachable(),
    ensures
        state is Spawning && event is SpawnFailed ==> (state.step(event).1 matches SandboxActionView::Return(
            result,
        ) && result.outcome() == SandboxOutcome::SpawnFailed),
        state.step(event).1 is Kill <==> state is Racing && event is DeadlineElapsed,
        state.step(event).1 is Kill ==> state.step(event).0 is Killing,
        state.step(event).1 matches SandboxActionView::Return(result) ==> (result.outcome()
            == SandboxOutcome::TimedOut <==> state is Killing),
        state.step(event).1 matches SandboxActionView::Return(result) ==> state.step(event).0
            is Done,
{
}

/// A name that stands for a file directly in the folder it is given with:
/// it is not empty, holds no path separator nor any other forbidden
/// character, and is neither `.` nor `..`.
pub open spec fn plain_file_name(name: Seq<char>) -> bool {
    &&& name.len() > 0
    &&& free_of_forbidden_chars(name)
    &&& name != "."@
    &&& name != ".."@
}

/// An acceptable name with the source extension is a plain file name.
pub proof fn lemma_unit_file_name_is_plain(name: Seq<char>)
    requires
        acceptable_name(name),
    ensures
        plain_file_name(name + SOURCE_EXTENSION@),
{
    reveal_strlit(".move");
    reveal_strlit(".");
    reveal_strlit("..");
    let full = name + SOURCE_EXTENSION@;
    assert(full.len() == name.len() + 5);
    assert forall|i: int| 0 <= i < full.len() implies !forbidden_char(#[trigger] full[i]) by {
        if i < name.len() {
            assert(full[i] == name[i]);
        } else {
            assert(full[i] == SOURCE_EXTENSION@[i - name.len()]);
        }
    }
}

/// Every file that the driver is told to write or to read for an accepted
/// submission has a plain file name, so that it lies directly in its folder
/// of the workspace and nowhere else.
pub proof fn law_files_stay_in_their_folders(code: CodeView)
    requires
        code.accepted(),
    ensures
        forall|i: int|
            0 <= i < code.project_files().len() ==> plain_file_name(
                (#[trigger] code.project_files()[i]).path.file_name,
            ),
        forall|i: int|
            0 <= i < code.formatted_paths().len() ==> plain_file_name(
                (#[trigger] code.formatted_paths()[i]).file_name,
            ),
        plain_file_name(style_file().path.file_name),
{
    law_accepted_submissions(code);
    reveal_strlit("Move.toml");
    reveal_strlit(".prettierrc");
    reveal_strlit(".");
    reveal_strlit("..");
    assert(plain_file_name(MANIFEST_FILE@));
    assert(plain_file_name(STYLE_FILE@)) by {
        let style = STYLE_FILE@;
        assert(style.len() == 11);
        assert forall|i: int| 0 <= i < style.len() implies !forbidden_char(#[trigger] style[i]) by {
            assert(style[0] == '.' && style[1] == 'p' && style[2] == 'r' && style[3] == 'e');
            assert(style[4] == 't' && style[5] == 't' && style[6] == 'i' && style[7] == 'e');
            assert(style[8] == 'r' && style[9] == 'r' && style[10] == 'c');
        }
    }
    assert forall|i: int| 0 <= i < code.project_files().len() implies plain_file_name(
        (#[trigger] code.project_files()[i]).path.file_name,
    ) by {
        if i == 0 {
        } else if i < 1 + code.sources.len() {
            lemma_unit_file_name_is_plain(code.sources[i - 1].name);
        } else {
            lemma_unit_file_name_is_plain(code.tests[i - 1 - code.sources.len()].name);
        }
    }
    assert forall|i: int| 0 <= i < code.formatted_paths().len() implies plain_file_name(
        (#[trigger] code.formatted_paths()[i]).file_name,
    ) by {
        if i < code.sources.len() {
            lemma_unit_file_name_is_plain(code.sources[i].name);
        } else {
            lemma_unit_file_name_is_plain(code.tests[i - code.sources.len()].name);
        }
    }
}

/// In an accepted submission no two sources share a name, and no two
/// tests.
pub proof fn law_accepted_submissions_have_unique_names(code: CodeView)
    requires
        code.accepted(),
    ensures
        code.unique_names(),
{
}

/// A request begins in a reachable state and stays in reachable states.
pub proof fn law_request_stays_reachable(
    code: CodeView,
    build_type: BuildType,
    timeout: Option<u64>,
    network: Option<Network>,
    config: ToolchainConfigView,
    state: SessionView,
    event: EventView,
)
    requires
        state.reachable(),
    ensures
        begin_build(code, build_type, timeout, network, config).0.reachable(),
        begin_format(code).0.reachable(),
        state.step(event).0.reachable(),
{
}

/// Whatever the driver is told to write or to read in the course of a
/// request has a plain file name.
pub proof fn law_driver_gets_plain_file_names(
    code: CodeView,
    build_type: BuildType,
    timeout: Option<u64>,
    network: Option<Network>,
    config: ToolchainConfigView,
    state: SessionView,
    event: EventView,
)
    requires
        state.reachable(),
    ensures
        begin_build(code, build_type, timeout, network, config).1 matches ActionView::Materialize {
            files,
        } ==> forall|i: int| 0 <= i < files.len() ==> plain_file_name((#[trigger] files[i]).path.file_name),
        begin_format(code).1 matches ActionView::Materialize { files } ==> forall|i: int|
            0 <= i < files.len() ==> plain_file_name((#[trigger] files[i]).path.file_name),
        state.step(event).1 matches ActionView::Collect { paths } ==> forall|i: int|
            0 <= i < paths.len() ==> plain_file_name((#[trigger] paths[i]).file_name),
        !(state.step(event).1 is Materialize),
{
    if code.accepted() {
        law_files_stay_in_their_folders(code);
    }
    match state {
        SessionView::Running { code: c, .. } => {
            law_files_stay_in_their_folders(c);
        },
        _ => {},
    }
}

/// Captured output that is valid UTF-8 reaches the result as the text it
/// encodes.
pub proof fn law_valid_output_is_kept(status: Option<ProcessExit>, stdout: Seq<u8>, stderr: Seq<u8>)
    requires
        valid_utf8(stdout),
        valid_utf8(stderr),
    ensures
        SandboxView::Racing.step(SandboxEventView::Exited { status, stdout, stderr }) == (
            SandboxView::Done,
            SandboxActionView::Return(
                SandboxResultView {
                    status,
                    stdout: decode_utf8(stdout),
                    stderr: decode_utf8(stderr),
                    timed_out: false,
                    error: None,
                },
            ),
        ),
{
}

} // verus!
