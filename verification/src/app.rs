//! The assistant's window state and how each message changes it.
//!
//! `App::update` is the whole decision logic of the window: it takes the
//! current state and a message (a user action, or the outcome of work that
//! runs in the background) and gives the next state and the work to start.
use vstd::prelude::*;
use crate::ai::{ToolCall, ToolCallView};
use crate::config::{Config, ConfigView};
use crate::text::{blank, has_prefix, is_blank, join, join3, starts_with, strip_prefix_all, strip_prefix_repeatedly};

verus! {

/// Trusted: `Clone for Result` (std). Claims what std documents: the clone of
/// `Ok(x)` is `Ok` of a clone of `x`, and the clone of `Err(e)` is `Err` of a
/// clone of `e`.
pub assume_specification<T: Clone, E: Clone>[ <Result<T, E> as Clone>::clone ](
    result: &Result<T, E>,
) -> (res: Result<T, E>)
    ensures
        result is Ok ==> res is Ok && cloned::<T>(result->Ok_0, res->Ok_0),
        result is Err ==> res is Err && cloned::<E>(result->Err_0, res->Err_0),
;

/// A user action, or the outcome of background work.
#[derive(Debug, Clone)]
pub enum Message {
    InputChanged(String),
    SendMessage,
    VoiceRecord,
    TranscribeResult(Result<String, String>),
    AiResponse(Result<Vec<ToolCall>, String>),
    ExecuteTool(ToolCall),
    ToolExecuted(Result<String, String>),
    ConfirmInstall(String),
    InstallConfirmed(bool),
    InstallResult(Result<String, String>),
    Close,
}

/// Background work for the window to start; each finishes with a message.
#[derive(Debug, Clone)]
pub enum Effect {
    /// Nothing to do.
    Nothing,
    /// Ask the model about `input`; answers with `AiResponse`.
    QueryAi { input: String, token: String, model: String },
    /// Record and transcribe speech; answers with `TranscribeResult`.
    RecordVoice,
    /// Carry out a tool call; answers with `ToolExecuted`.
    RunTool(ToolCall),
    /// Install a package; answers with `InstallResult`.
    InstallPackage(String),
    /// Start the application of a package; answers with `ToolExecuted`.
    LaunchApp(String),
    /// Close the window.
    CloseWindow,
}

/// The window state.
pub struct App {
    pub input: String,
    pub output: String,
    pub config: Config,
    pub pending_install: Option<String>,
    pub loading: bool,
}

pub enum MessageView {
    InputChanged(Seq<char>),
    SendMessage,
    VoiceRecord,
    TranscribeResult(Result<Seq<char>, Seq<char>>),
    AiResponse(Result<Seq<ToolCallView>, Seq<char>>),
    ExecuteTool(ToolCallView),
    ToolExecuted(Result<Seq<char>, Seq<char>>),
    ConfirmInstall(Seq<char>),
    InstallConfirmed(bool),
    InstallResult(Result<Seq<char>, Seq<char>>),
    Close,
}

pub enum EffectView {
    Nothing,
    QueryAi { input: Seq<char>, token: Seq<char>, model: Seq<char> },
    RecordVoice,
    RunTool(ToolCallView),
    InstallPackage(Seq<char>),
    LaunchApp(Seq<char>),
    CloseWindow,
}

pub struct AppView {
    pub input: Seq<char>,
    pub output: Seq<char>,
    pub config: ConfigView,
    pub pending_install: Option<Seq<char>>,
    pub loading: bool,
}

/// The plain view of a text outcome.
pub open spec fn outcome_view(r: Result<String, String>) -> Result<Seq<char>, Seq<char>> {
    match r {
        Ok(s) => Ok(s@),
        Err(e) => Err(e@),
    }
}

impl View for Message {
    type V = MessageView;

    open spec fn view(&self) -> MessageView {
        match self {
            Message::InputChanged(s) => MessageView::InputChanged(s@),
            Message::SendMessage => MessageView::SendMessage,
            Message::VoiceRecord => MessageView::VoiceRecord,
            Message::TranscribeResult(r) => MessageView::TranscribeResult(outcome_view(*r)),
            Message::AiResponse(r) => MessageView::AiResponse(
                match r {
                    Ok(calls) => Ok(calls@.map_values(|c: ToolCall| c@)),
                    Err(e) => Err(e@),
                },
            ),
            Message::ExecuteTool(c) => MessageView::ExecuteTool(c@),
            Message::ToolExecuted(r) => MessageView::ToolExecuted(outcome_view(*r)),
            Message::ConfirmInstall(p) => MessageView::ConfirmInstall(p@),
            Message::InstallConfirmed(b) => MessageView::InstallConfirmed(*b),
            Message::InstallResult(r) => MessageView::InstallResult(outcome_view(*r)),
            Message::Close => MessageView::Close,
        }
    }
}

impl View for Effect {
    type V = EffectView;

    open spec fn view(&self) -> EffectView {
        match self {
            Effect::Nothing => EffectView::Nothing,
            Effect::QueryAi { input, token, model } => EffectView::QueryAi {
                input: input@,
                token: token@,
                model: model@,
            },
            Effect::RecordVoice => EffectView::RecordVoice,
            Effect::RunTool(c) => EffectView::RunTool(c@),
            Effect::InstallPackage(p) => EffectView::InstallPackage(p@),
            Effect::LaunchApp(p) => EffectView::LaunchApp(p@),
            Effect::CloseWindow => EffectView::CloseWindow,
        }
    }
}

impl View for App {
    type V = AppView;

    open spec fn view(&self) -> AppView {
        AppView {
            input: self.input@,
            output: self.output@,
            config: self.config@,
            pending_install: match self.pending_install {
                Some(p) => Some(p@),
                None => None,
            },
            loading: self.loading,
        }
    }
}

/// The prefix with which a launch reports that the package is not installed.
pub open spec fn not_installed_prefix() -> Seq<char> {
    "PACKAGE_NOT_INSTALLED:"@
}

/// Sending the typed text: ignored while blank or while work is running,
/// otherwise the text goes to the model and the input is cleared.
pub open spec fn send_step(s: AppView) -> (AppView, EffectView) {
    if is_blank(s.input) || s.loading {
        (s, EffectView::Nothing)
    } else {
        (
            AppView {
                input: Seq::empty(),
                output: "⏳ Обрабатываю запрос..."@,
                loading: true,
                ..s
            },
            EffectView::QueryAi { input: s.input, token: s.config.token, model: s.config.model },
        )
    }
}

/// Starting a tool call.
pub open spec fn execute_step(s: AppView, call: ToolCallView) -> (AppView, EffectView) {
    (
        AppView { loading: true, output: "🔧 Выполняю "@ + call.function.name + "..."@, ..s },
        EffectView::RunTool(call),
    )
}

/// The next state and the work to start, for state `s` and message `m`.
pub open spec fn step(s: AppView, m: MessageView) -> (AppView, EffectView) {
    match m {
        MessageView::InputChanged(v) => (AppView { input: v, ..s }, EffectView::Nothing),
        MessageView::SendMessage => send_step(s),
        MessageView::VoiceRecord => if s.loading {
            (s, EffectView::Nothing)
        } else {
            (
                AppView { loading: true, output: "🎤 Запись... Говорите 5 секунд"@, ..s },
                EffectView::RecordVoice,
            )
        },
        MessageView::TranscribeResult(Ok(text)) => send_step(
            AppView { loading: false, input: text, ..s },
        ),
        MessageView::TranscribeResult(Err(e)) => (
            AppView { loading: false, output: "❌ Ошибка распознавания: "@ + e, ..s },
            EffectView::Nothing,
        ),
        MessageView::AiResponse(Ok(calls)) => if calls.len() == 0 {
            (
                AppView {
                    loading: false,
                    output: "🤖 ИИ не вернул действий. Попробуйте переформулировать."@,
                    ..s
                },
                EffectView::Nothing,
            )
        } else {
            execute_step(AppView { loading: false, ..s }, calls[0])
        },
        MessageView::AiResponse(Err(e)) => (
            AppView { loading: false, output: "❌ Ошибка ИИ: "@ + e, ..s },
            EffectView::Nothing,
        ),
        MessageView::ExecuteTool(call) => execute_step(s, call),
        MessageView::ToolExecuted(Ok(msg)) => (
            AppView { loading: false, output: "✅ "@ + msg, ..s },
            EffectView::Nothing,
        ),
        MessageView::ToolExecuted(Err(err)) => if starts_with(err, not_installed_prefix()) {
            let pkg = strip_prefix_all(err, not_installed_prefix());
            (
                AppView {
                    loading: false,
                    pending_install: Some(pkg),
                    output: "❓ Пакет '"@ + pkg + "' не установлен. Установить?"@,
                    ..s
                },
                EffectView::Nothing,
            )
        } else {
            (AppView { loading: false, output: "❌ Ошибка: "@ + err, ..s }, EffectView::Nothing)
        },
        MessageView::ConfirmInstall(pkg) => (
            AppView {
                pending_install: Some(pkg),
                output: "❓ Установить пакет '"@ + pkg + "'? (Да/Нет)"@,
                ..s
            },
            EffectView::Nothing,
        ),
        MessageView::InstallConfirmed(confirm) => match s.pending_install {
            None => (s, EffectView::Nothing),
            Some(pkg) => if confirm {
                (
                    AppView {
                        pending_install: None,
                        loading: true,
                        output: "📦 Устанавливаю "@ + pkg + "..."@,
                        ..s
                    },
                    EffectView::InstallPackage(pkg),
                )
            } else {
                (
                    AppView { pending_install: None, output: "❌ Установка отменена."@, ..s },
                    EffectView::Nothing,
                )
            },
        },
        MessageView::InstallResult(Ok(msg)) => match s.pending_install {
            None => (AppView { loading: false, output: "✅ "@ + msg, ..s }, EffectView::Nothing),
            Some(pkg) => (
                AppView {
                    pending_install: None,
                    loading: true,
                    output: "🚀 Запускаю "@ + pkg + "..."@,
                    ..s
                },
                EffectView::LaunchApp(pkg),
            ),
        },
        MessageView::InstallResult(Err(e)) => (
            AppView { loading: false, output: "❌ Ошибка установки: "@ + e, ..s },
            EffectView::Nothing,
        ),
        MessageView::Close => (s, EffectView::CloseWindow),
    }
}

impl App {
    /// A fresh window for `config`: empty input and output, nothing pending.
    pub fn new(config: Config) -> (app: App)
        ensures
            app@.input == Seq::<char>::empty(),
            app@.output == Seq::<char>::empty(),
            app@.config == config@,
            app@.pending_install is None,
            !app@.loading,
    {
        App {
            input: String::new(),
            output: String::new(),
            config,
            pending_install: None,
            loading: false,
        }
    }

    /// The window title.
    pub fn title(&self) -> (r: String)
        ensures
            r@ == "TKILL AI"@,
    {
        String::from_str("TKILL AI")
    }

    fn send(&mut self) -> (effect: Effect)
        ensures
            final(self)@ == send_step(old(self)@).0,
            effect@ == send_step(old(self)@).1,
    {
        if blank(self.input.as_str()) || self.loading {
            return Effect::Nothing;
        }
        let input = self.input.clone();
        self.input = String::new();
        self.loading = true;
        self.output = String::from_str("⏳ Обрабатываю запрос...");
        let token = self.config.github.token.clone();
        let model = self.config.github.model.clone();
        Effect::QueryAi { input, token, model }
    }

    fn execute(&mut self, call: ToolCall) -> (effect: Effect)
        ensures
            final(self)@ == execute_step(old(self)@, call@).0,
            effect@ == execute_step(old(self)@, call@).1,
    {
        self.loading = true;
        self.output = join3("🔧 Выполняю ", call.function.name.as_str(), "...");
        Effect::RunTool(call)
    }

    /// Handles one message: changes the state and names the work to start.
    pub fn update(&mut self, message: Message) -> (effect: Effect)
        ensures
            final(self)@ == step(old(self)@, message@).0,
            effect@ == step(old(self)@, message@).1,
    {
        match message {
            Message::InputChanged(val) => {
                self.input = val;
                Effect::Nothing
            },
            Message::SendMessage => self.send(),
            Message::VoiceRecord => {
                if self.loading {
                    return Effect::Nothing;
                }
                self.loading = true;
                self.output = String::from_str("🎤 Запись... Говорите 5 секунд");
                Effect::RecordVoice
            },
            Message::TranscribeResult(res) => {
                self.loading = false;
                match res {
                    Ok(text) => {
                        self.input = text;
                        self.send()
                    },
                    Err(e) => {
                        self.output = join("❌ Ошибка распознавания: ", e.as_str());
                        Effect::Nothing
                    },
                }
            },
            Message::AiResponse(res) => {
                self.loading = false;
                match res {
                    Ok(mut tool_calls) => {
                        if tool_calls.len() == 0 {
                            self.output = String::from_str(
                                "🤖 ИИ не вернул действий. Попробуйте переформулировать.",
                            );
                            return Effect::Nothing;
                        }
                        let ghost calls = tool_calls@;
                        let first = tool_calls.remove(0);
                        assert(calls.map_values(|c: ToolCall| c@)[0] == first@);
                        self.execute(first)
                    },
                    Err(e) => {
                        self.output = join("❌ Ошибка ИИ: ", e.as_str());
                        Effect::Nothing
                    },
                }
            },
            Message::ExecuteTool(call) => self.execute(call),
            Message::ToolExecuted(res) => {
                self.loading = false;
                match res {
                    Ok(msg) => {
                        self.output = join("✅ ", msg.as_str());
                    },
                    Err(err) => {
                        if has_prefix(err.as_str(), "PACKAGE_NOT_INSTALLED:") {
                            let pkg = strip_prefix_repeatedly(
                                err.as_str(),
                                "PACKAGE_NOT_INSTALLED:",
                            );
                            self.output = join3(
                                "❓ Пакет '",
                                pkg.as_str(),
                                "' не установлен. Установить?",
                            );
                            self.pending_install = Some(pkg);
                        } else {
                            self.output = join("❌ Ошибка: ", err.as_str());
                        }
                    },
                }
                Effect::Nothing
            },
            Message::ConfirmInstall(pkg) => {
                self.output = join3("❓ Установить пакет '", pkg.as_str(), "'? (Да/Нет)");
                self.pending_install = Some(pkg);
                Effect::Nothing
            },
            Message::InstallConfirmed(confirm) => {
                match self.pending_install.take() {
                    Some(pkg) => {
                        if confirm {
                            self.loading = true;
                            self.output = join3("📦 Устанавливаю ", pkg.as_str(), "...");
                            Effect::InstallPackage(pkg)
                        } else {
                            self.output = String::from_str("❌ Установка отменена.");
                            Effect::Nothing
                        }
                    },
                    None => Effect::Nothing,
                }
            },
            Message::InstallResult(res) => {
                self.loading = false;
                match res {
                    Ok(msg) => {
                        self.output = join("✅ ", msg.as_str());
                        match self.pending_install.take() {
                            Some(pkg) => {
                                self.loading = true;
                                self.output = join3("🚀 Запускаю ", pkg.as_str(), "...");
                                Effect::LaunchApp(pkg)
                            },
                            None => Effect::Nothing,
                        }
                    },
                    Err(e) => {
                        self.output = join("❌ Ошибка установки: ", e.as_str());
                        Effect::Nothing
                    },
                }
            },
            Message::Close => Effect::CloseWindow,
        }
    }
}

/// The message for a key press, given the text of a character key: the
/// window closes on the character key "Escape".
pub fn key_press_message(character: Option<&str>) -> (r: Option<Message>)
    ensures
        r is Some <==> (character matches Some(c) && c@ == "Escape"@),
        r matches Some(m) ==> m is Close,
{
    match character {
        Some(c) => {
            if String::from_str(c) == String::from_str("Escape") {
                Some(Message::Close)
            } else {
                None
            }
        },
        None => None,
    }
}

} // verus!
