use tkill_ai::ai::{FunctionCall, ToolCall};
use tkill_ai::app::{key_press_message, App, Effect, Message};
use tkill_ai::config::{AudioConfig, BehaviorConfig, Config, GithubConfig};

fn app() -> App {
    App::new(Config {
        github: GithubConfig { token: "tok".to_string(), model: "gpt-4o".to_string() },
        audio: AudioConfig { input_device: "default".to_string() },
        behavior: BehaviorConfig { log_level: "info".to_string() },
    })
}

fn call(name: &str) -> ToolCall {
    ToolCall {
        id: "1".to_string(),
        call_type: "function".to_string(),
        function: FunctionCall { name: name.to_string(), arguments: "{}".to_string() },
    }
}

#[test]
fn new_window_is_idle_and_empty() {
    let a = app();
    assert_eq!(a.input, "");
    assert_eq!(a.output, "");
    assert!(!a.loading);
    assert!(a.pending_install.is_none());
    assert_eq!(a.title(), "TKILL AI");
}

#[test]
fn typed_text_is_sent_to_model() {
    let mut a = app();
    assert!(matches!(a.update(Message::InputChanged("открой браузер".to_string())), Effect::Nothing));
    assert_eq!(a.input, "открой браузер");
    match a.update(Message::SendMessage) {
        Effect::QueryAi { input, token, model } => {
            assert_eq!(input, "открой браузер");
            assert_eq!(token, "tok");
            assert_eq!(model, "gpt-4o");
        }
        other => panic!("unexpected {:?}", other),
    }
    assert_eq!(a.input, "");
    assert!(a.loading);
    assert_eq!(a.output, "⏳ Обрабатываю запрос...");
}

#[test]
fn blank_input_is_not_sent() {
    let mut a = app();
    a.update(Message::InputChanged("   \n".to_string()));
    assert!(matches!(a.update(Message::SendMessage), Effect::Nothing));
    assert_eq!(a.input, "   \n");
    assert!(!a.loading);
    assert_eq!(a.output, "");
}

#[test]
fn busy_window_ignores_requests() {
    let mut a = app();
    a.update(Message::InputChanged("hi".to_string()));
    a.update(Message::SendMessage);
    a.update(Message::InputChanged("again".to_string()));
    assert!(matches!(a.update(Message::SendMessage), Effect::Nothing));
    assert!(matches!(a.update(Message::VoiceRecord), Effect::Nothing));
    assert_eq!(a.input, "again");
    assert_eq!(a.output, "⏳ Обрабатываю запрос...");
}

#[test]
fn voice_recording_then_transcript_is_sent() {
    let mut a = app();
    assert!(matches!(a.update(Message::VoiceRecord), Effect::RecordVoice));
    assert!(a.loading);
    assert_eq!(a.output, "🎤 Запись... Говорите 5 секунд");
    match a.update(Message::TranscribeResult(Ok("открой терминал".to_string()))) {
        Effect::QueryAi { input, .. } => assert_eq!(input, "открой терминал"),
        other => panic!("unexpected {:?}", other),
    }
    assert!(a.loading);
}

#[test]
fn failed_transcription_is_reported() {
    let mut a = app();
    a.update(Message::VoiceRecord);
    assert!(matches!(a.update(Message::TranscribeResult(Err("тишина".to_string()))), Effect::Nothing));
    assert_eq!(a.output, "❌ Ошибка распознавания: тишина");
    assert!(!a.loading);
}

#[test]
fn first_tool_call_is_run() {
    let mut a = app();
    match a.update(Message::AiResponse(Ok(vec![call("search_web"), call("launch_app")]))) {
        Effect::RunTool(c) => assert_eq!(c.function.name, "search_web"),
        other => panic!("unexpected {:?}", other),
    }
    assert!(a.loading);
    assert_eq!(a.output, "🔧 Выполняю search_web...");
}

#[test]
fn empty_or_failed_model_answer_is_reported() {
    let mut a = app();
    assert!(matches!(a.update(Message::AiResponse(Ok(vec![]))), Effect::Nothing));
    assert_eq!(a.output, "🤖 ИИ не вернул действий. Попробуйте переформулировать.");
    assert!(matches!(a.update(Message::AiResponse(Err("401".to_string()))), Effect::Nothing));
    assert_eq!(a.output, "❌ Ошибка ИИ: 401");
    assert!(!a.loading);
}

#[test]
fn tool_results_are_reported() {
    let mut a = app();
    a.update(Message::ExecuteTool(call("run_hyprctl")));
    a.update(Message::ToolExecuted(Ok("готово".to_string())));
    assert_eq!(a.output, "✅ готово");
    assert!(!a.loading);
    a.update(Message::ToolExecuted(Err("сбой".to_string())));
    assert_eq!(a.output, "❌ Ошибка: сбой");
    assert!(a.pending_install.is_none());
}

#[test]
fn missing_package_is_offered_and_installed() {
    let mut a = app();
    a.update(Message::ToolExecuted(Err("PACKAGE_NOT_INSTALLED:gimp".to_string())));
    assert_eq!(a.pending_install, Some("gimp".to_string()));
    assert_eq!(a.output, "❓ Пакет 'gimp' не установлен. Установить?");
    match a.update(Message::InstallConfirmed(true)) {
        Effect::InstallPackage(p) => assert_eq!(p, "gimp"),
        other => panic!("unexpected {:?}", other),
    }
    assert!(a.pending_install.is_none());
    assert!(a.loading);
    assert_eq!(a.output, "📦 Устанавливаю gimp...");
    assert!(matches!(a.update(Message::InstallResult(Ok("Пакет 'gimp' успешно установлен".to_string()))), Effect::Nothing));
    assert_eq!(a.output, "✅ Пакет 'gimp' успешно установлен");
    assert!(!a.loading);
}

#[test]
fn declined_install_is_cancelled() {
    let mut a = app();
    a.update(Message::ConfirmInstall("vlc".to_string()));
    assert_eq!(a.output, "❓ Установить пакет 'vlc'? (Да/Нет)");
    assert!(matches!(a.update(Message::InstallConfirmed(false)), Effect::Nothing));
    assert_eq!(a.output, "❌ Установка отменена.");
    assert!(a.pending_install.is_none());
    assert!(matches!(a.update(Message::InstallConfirmed(true)), Effect::Nothing));
    assert_eq!(a.output, "❌ Установка отменена.");
}

#[test]
fn install_success_with_pending_package_launches_it() {
    let mut a = app();
    a.update(Message::ConfirmInstall("mpv".to_string()));
    match a.update(Message::InstallResult(Ok("ok".to_string()))) {
        Effect::LaunchApp(p) => assert_eq!(p, "mpv"),
        other => panic!("unexpected {:?}", other),
    }
    assert_eq!(a.output, "🚀 Запускаю mpv...");
    assert!(a.loading);
    assert!(a.pending_install.is_none());
}

#[test]
fn install_failure_is_reported() {
    let mut a = app();
    a.update(Message::InstallResult(Err("нет сети".to_string())));
    assert_eq!(a.output, "❌ Ошибка установки: нет сети");
}

#[test]
fn close_requests_window_close() {
    let mut a = app();
    assert!(matches!(a.update(Message::Close), Effect::CloseWindow));
    assert!(matches!(key_press_message(Some("Escape")), Some(Message::Close)));
    assert!(key_press_message(Some("a")).is_none());
    assert!(key_press_message(None).is_none());
}
