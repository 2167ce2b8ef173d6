//! Properties of the window's state machine that hold for every state.
use vstd::prelude::*;
use crate::ai::ToolCallView;
use crate::app::{AppView, EffectView, MessageView, not_installed_prefix, step};
use crate::text::{is_blank, starts_with, strip_prefix_all};

verus! {

/// Work that runs in the background and reports back with a message.
pub open spec fn is_background_work(e: EffectView) -> bool {
    ||| e is QueryAi
    ||| e is RecordVoice
    ||| e is RunTool
    ||| e is InstallPackage
    ||| e is LaunchApp
}

/// A message that reports the outcome of background work.
pub open spec fn is_outcome(m: MessageView) -> bool {
    ||| m is TranscribeResult
    ||| m is AiResponse
    ||| m is ToolExecuted
    ||| m is InstallResult
}

/// While work is running, neither a new request nor a new recording starts,
/// and the state stays as it is.
pub proof fn lemma_busy_window_ignores_requests(s: AppView)
    requires
        s.loading,
    ensures
        step(s, MessageView::SendMessage) == (s, EffectView::Nothing),
        step(s, MessageView::VoiceRecord) == (s, EffectView::Nothing),
{
}

/// Input that holds only white space is never sent.
pub proof fn lemma_blank_input_is_not_sent(s: AppView)
    requires
        is_blank(s.input),
    ensures
        step(s, MessageView::SendMessage) == (s, EffectView::Nothing),
{
}

/// When the window is idle, sending hands exactly the typed text, with the
/// configured token and model, to the model; the input is cleared and the
/// window becomes busy.
pub proof fn lemma_sent_text_reaches_model(s: AppView)
    requires
        !s.loading,
        !is_blank(s.input),
    ensures
        step(s, MessageView::SendMessage).1 == (EffectView::QueryAi {
            input: s.input,
            token: s.config.token,
            model: s.config.model,
        }),
        step(s, MessageView::SendMessage).0.input.len() == 0,
        step(s, MessageView::SendMessage).0.loading,
{
}

/// A transcription is sent on exactly as typed text would be.
pub proof fn lemma_transcript_is_sent_like_typed_text(s: AppView, text: Seq<char>)
    ensures
        step(s, MessageView::TranscribeResult(Ok(text))) == step(
            AppView { loading: false, input: text, ..s },
            MessageView::SendMessage,
        ),
{
}

/// Whenever background work starts, the window is marked busy.
pub proof fn lemma_background_work_marks_busy(s: AppView, m: MessageView)
    ensures
        is_background_work(step(s, m).1) ==> step(s, m).0.loading,
{
}

/// An outcome that starts no further work leaves the window idle.
pub proof fn lemma_outcomes_leave_window_idle(s: AppView, m: MessageView)
    requires
        is_outcome(m),
    ensures
        step(s, m).1 is Nothing ==> !step(s, m).0.loading,
{
}

/// No message changes the settings.
pub proof fn lemma_settings_never_change(s: AppView, m: MessageView)
    ensures
        step(s, m).0.config == s.config,
{
}

/// The first tool call of a model answer is the one that is carried out.
pub proof fn lemma_first_tool_call_is_run(s: AppView, calls: Seq<ToolCallView>)
    requires
        calls.len() > 0,
    ensures
        step(s, MessageView::AiResponse(Ok(calls))).1 == EffectView::RunTool(calls[0]),
{
}

/// Removing the prefix in front of a text that does not itself start with
/// the prefix gives back that text.
pub proof fn lemma_strip_added_prefix(p: Seq<char>, rest: Seq<char>)
    requires
        p.len() > 0,
        !starts_with(rest, p),
    ensures
        starts_with(p + rest, p),
        strip_prefix_all(p + rest, p) == rest,
{
    assert((p + rest).take(p.len() as int) =~= p);
    assert((p + rest).skip(p.len() as int) =~= rest);
    assert(strip_prefix_all(rest, p) == rest);
    assert(strip_prefix_all(p + rest, p) == strip_prefix_all((p + rest).skip(p.len() as int), p));
}

/// A launch that reports a missing package makes the window ask about that
/// very package, and confirming installs exactly it.
pub proof fn lemma_missing_package_is_offered_then_installed(s: AppView, pkg: Seq<char>)
    requires
        !starts_with(pkg, not_installed_prefix()),
    ensures
        ({
            let asked = step(s, MessageView::ToolExecuted(Err(not_installed_prefix() + pkg))).0;
            &&& asked.pending_install == Some(pkg)
            &&& !asked.loading
            &&& step(asked, MessageView::InstallConfirmed(true)).1 == EffectView::InstallPackage(pkg)
            &&& step(asked, MessageView::InstallConfirmed(true)).0.pending_install is None
            &&& step(asked, MessageView::InstallConfirmed(true)).0.loading
        }),
{
    reveal_strlit("PACKAGE_NOT_INSTALLED:");
    lemma_strip_added_prefix(not_installed_prefix(), pkg);
}

/// Declining an offered installation forgets the package and starts nothing.
pub proof fn lemma_declined_install_is_forgotten(s: AppView)
    requires
        s.pending_install is Some,
    ensures
        step(s, MessageView::InstallConfirmed(false)).1 == EffectView::Nothing,
        step(s, MessageView::InstallConfirmed(false)).0.pending_install is None,
        step(s, MessageView::InstallConfirmed(false)).0.loading == s.loading,
{
}

/// An answer to a question that was never asked changes nothing.
pub proof fn lemma_unasked_confirmation_is_ignored(s: AppView, confirm: bool)
    requires
        s.pending_install is None,
    ensures
        step(s, MessageView::InstallConfirmed(confirm)) == (s, EffectView::Nothing),
{
}

/// Once a confirmation has started an installation, its success is only
/// reported: the confirmation already took the package, so nothing is
/// launched afterwards.
pub proof fn lemma_confirmed_install_success_is_only_reported(
    s: AppView,
    msg: Seq<char>,
)
    requires
        s.pending_install is Some,
    ensures
        ({
            let installing = step(s, MessageView::InstallConfirmed(true)).0;
            &&& step(installing, MessageView::InstallResult(Ok(msg))).1 == EffectView::Nothing
            &&& step(installing, MessageView::InstallResult(Ok(msg))).0.output == "✅ "@ + msg
            &&& !step(installing, MessageView::InstallResult(Ok(msg))).0.loading
        }),
{
}

/// Closing asks for the window to close and changes nothing else.
pub proof fn lemma_close_only_closes(s: AppView)
    ensures
        step(s, MessageView::Close) == (s, EffectView::CloseWindow),
{
}

/// Starting a tool call always hands exactly that call to the background,
/// marks the window busy and says which tool runs; nothing else changes.
pub proof fn lemma_tool_call_is_started(s: AppView, call: ToolCallView)
    ensures
        step(s, MessageView::ExecuteTool(call)).1 == EffectView::RunTool(call),
        step(s, MessageView::ExecuteTool(call)).0 == (AppView {
            loading: true,
            output: "🔧 Выполняю "@ + call.function.name + "..."@,
            ..s
        }),
{
}

/// The first tool call of a non-empty model answer is started exactly as a
/// tool call given on its own would be.
pub proof fn lemma_answer_starts_its_first_call(s: AppView, calls: Seq<ToolCallView>)
    requires
        calls.len() > 0,
    ensures
        step(s, MessageView::AiResponse(Ok(calls))).1 == EffectView::RunTool(calls[0]),
        step(s, MessageView::AiResponse(Ok(calls))).0 == (AppView {
            loading: true,
            output: "🔧 Выполняю "@ + calls[0].function.name + "..."@,
            ..s
        }),
{
}

/// Typing replaces the input and changes nothing else.
pub proof fn lemma_typing_replaces_input(s: AppView, text: Seq<char>)
    ensures
        step(s, MessageView::InputChanged(text)) == (AppView { input: text, ..s }, EffectView::Nothing),
{
}

/// On an idle window a recording starts: the window becomes busy and asks
/// the user to speak.
pub proof fn lemma_recording_starts_when_idle(s: AppView)
    requires
        !s.loading,
    ensures
        step(s, MessageView::VoiceRecord) == (
            AppView { loading: true, output: "🎤 Запись... Говорите 5 секунд"@, ..s },
            EffectView::RecordVoice,
        ),
{
}

/// What a finished tool reports is shown after a check mark, and the window
/// becomes idle.
pub proof fn lemma_tool_report_is_shown(s: AppView, report: Seq<char>)
    ensures
        step(s, MessageView::ToolExecuted(Ok(report))) == (
            AppView { loading: false, output: "✅ "@ + report, ..s },
            EffectView::Nothing,
        ),
{
}

/// A model answer without tool calls asks the user to rephrase and starts
/// nothing.
pub proof fn lemma_empty_answer_asks_to_rephrase(s: AppView)
    ensures
        step(s, MessageView::AiResponse(Ok(Seq::empty()))) == (
            AppView {
                loading: false,
                output: "🤖 ИИ не вернул действий. Попробуйте переформулировать."@,
                ..s
            },
            EffectView::Nothing,
        ),
{
}

/// Every failure of background work is shown with its own message, under a
/// heading that says which step failed; the window becomes idle and nothing
/// else starts or changes.
pub proof fn lemma_failures_are_shown(s: AppView, e: Seq<char>)
    ensures
        step(s, MessageView::TranscribeResult(Err(e))) == (
            AppView { loading: false, output: "❌ Ошибка распознавания: "@ + e, ..s },
            EffectView::Nothing,
        ),
        step(s, MessageView::AiResponse(Err(e))) == (
            AppView { loading: false, output: "❌ Ошибка ИИ: "@ + e, ..s },
            EffectView::Nothing,
        ),
        !starts_with(e, not_installed_prefix()) ==> step(s, MessageView::ToolExecuted(Err(e))) == (
            AppView { loading: false, output: "❌ Ошибка: "@ + e, ..s },
            EffectView::Nothing,
        ),
        step(s, MessageView::InstallResult(Err(e))) == (
            AppView { loading: false, output: "❌ Ошибка установки: "@ + e, ..s },
            EffectView::Nothing,
        ),
{
}
} // verus!
