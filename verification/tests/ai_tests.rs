use tkill_ai::ai::{
    answer_outcome, bearer_authorization, model_request, decoded_tool_calls, model_reply_outcome, offered_tools,
    plan_tool_call, tool_action, FunctionCall, ModelReply, ToolAction, ToolCall,
};
use tkill_ai::config::{AudioConfig, BehaviorConfig, Config, GithubConfig};

fn call(name: &str, arguments: &str) -> ToolCall {
    ToolCall {
        id: "call_1".to_string(),
        call_type: "function".to_string(),
        function: FunctionCall { name: name.to_string(), arguments: arguments.to_string() },
    }
}

#[test]
fn launch_call_is_planned() {
    match plan_tool_call(&call("launch_app", r#"{"app_name": "браузер"}"#)) {
        Ok(ToolAction::LaunchApp(name)) => assert_eq!(name, "браузер"),
        other => panic!("unexpected {:?}", other),
    }
}

#[test]
fn hyprctl_and_search_calls_are_planned() {
    match plan_tool_call(&call("run_hyprctl", r#"{"command": "workspace 2"}"#)) {
        Ok(ToolAction::RunHyprctl(c)) => assert_eq!(c, "workspace 2"),
        other => panic!("unexpected {:?}", other),
    }
    match plan_tool_call(&call("search_web", r#"{"query": "rust", "extra": 1}"#)) {
        Ok(ToolAction::SearchWeb(q)) => assert_eq!(q, "rust"),
        other => panic!("unexpected {:?}", other),
    }
}

#[test]
fn missing_or_non_string_argument_is_empty() {
    match plan_tool_call(&call("launch_app", r#"{}"#)) {
        Ok(ToolAction::LaunchApp(name)) => assert_eq!(name, ""),
        other => panic!("unexpected {:?}", other),
    }
    match plan_tool_call(&call("launch_app", r#"{"app_name": 5}"#)) {
        Ok(ToolAction::LaunchApp(name)) => assert_eq!(name, ""),
        other => panic!("unexpected {:?}", other),
    }
    match plan_tool_call(&call("search_web", r#"["query"]"#)) {
        Ok(ToolAction::SearchWeb(q)) => assert_eq!(q, ""),
        other => panic!("unexpected {:?}", other),
    }
}

#[test]
fn unknown_tool_is_refused() {
    match plan_tool_call(&call("delete_everything", "{}")) {
        Err(e) => assert_eq!(e, "Неизвестный tool: delete_everything"),
        other => panic!("unexpected {:?}", other),
    }
}

#[test]
fn arguments_that_are_not_json_are_refused_first() {
    match plan_tool_call(&call("delete_everything", "{not json")) {
        Err(e) => {
            let parser_error = serde_json::from_str::<serde_json::Value>("{not json").unwrap_err();
            assert_eq!(e, format!("Ошибка парсинга аргументов: {}", parser_error));
        }
        other => panic!("unexpected {:?}", other),
    }
}

#[test]
fn tool_action_reads_parsed_value() {
    let v: serde_json::Value = serde_json::from_str(r#"{"command": "killactive"}"#).unwrap();
    match tool_action("run_hyprctl", &v) {
        Ok(ToolAction::RunHyprctl(c)) => assert_eq!(c, "killactive"),
        other => panic!("unexpected {:?}", other),
    }
}

#[test]
fn authorization_header_value() {
    assert_eq!(bearer_authorization("abc123"), "Bearer abc123");
}

#[test]
fn model_reply_reports() {
    assert_eq!(
        model_reply_outcome(ModelReply::Rejected("bad token".to_string())).unwrap_err(),
        "API вернул ошибку: bad token"
    );
    assert_eq!(
        model_reply_outcome(ModelReply::RequestFailed("timeout".to_string())).unwrap_err(),
        "Ошибка запроса к GitHub Models: timeout"
    );
    assert_eq!(
        model_reply_outcome(ModelReply::Unreadable("eof".to_string())).unwrap_err(),
        "Ошибка парсинга ответа: eof"
    );
}

#[test]
fn tool_calls_are_read_from_the_answer() {
    let answer: serde_json::Value = serde_json::from_str(
        r#"{"choices": [{"message": {"tool_calls": [{"id": "a"}, {"id": "b"}]}}]}"#,
    )
    .unwrap();
    let calls = answer_outcome(&answer).unwrap();
    assert_eq!(calls.len(), 2);
    assert_eq!(calls[1]["id"], "b");
    let calls = model_reply_outcome(ModelReply::Answer(answer)).unwrap();
    assert_eq!(calls[0]["id"], "a");
}

#[test]
fn answer_without_tool_calls_is_reported() {
    for text in [
        r#"{"choices": [{"message": {"content": "hi"}}]}"#,
        r#"{"choices": []}"#,
        r#"{"choices": [{"message": {"tool_calls": "none"}}]}"#,
        r#"[1, 2]"#,
    ] {
        let answer: serde_json::Value = serde_json::from_str(text).unwrap();
        assert_eq!(answer_outcome(&answer).unwrap_err(), "Нет вызовов функций в ответе");
    }
}

#[test]
fn undecodable_tool_calls_are_reported() {
    assert_eq!(
        decoded_tool_calls(Err("missing field `id`".to_string())).unwrap_err(),
        "Ошибка десериализации tool_calls: missing field `id`"
    );
    let calls = decoded_tool_calls(Ok(vec![call("launch_app", "{}")])).unwrap();
    assert_eq!(calls[0].function.name, "launch_app");
}

#[test]
fn offered_tools_are_the_handled_tools() {
    let tools = offered_tools();
    assert_eq!(tools.len(), 3);
    for t in &tools {
        let args = format!("{{\"{}\": \"x\"}}", t.parameter);
        let action = plan_tool_call(&call(&t.name, &args)).unwrap();
        let argument = match action {
            ToolAction::LaunchApp(a) | ToolAction::RunHyprctl(a) | ToolAction::SearchWeb(a) => a,
        };
        assert_eq!(argument, "x");
    }
    assert_eq!(tools[0].name, "launch_app");
    assert_eq!(tools[0].parameter, "app_name");
    assert_eq!(tools[1].description, "Выполняет команду hyprctl dispatch");
    assert_eq!(tools[2].parameter_description, "Поисковый запрос");
}

fn config(token: &str) -> Config {
    Config {
        github: GithubConfig { token: token.to_string(), model: "gpt-4o".to_string() },
        audio: AudioConfig { input_device: "default".to_string() },
        behavior: BehaviorConfig { log_level: "info".to_string() },
    }
}

#[test]
fn config_with_token_is_accepted() {
    let c = config("ghp_secret").validate().unwrap();
    assert_eq!(c.github.token, "ghp_secret");
    assert_eq!(c.github.model, "gpt-4o");
}

#[test]
fn config_without_token_is_refused() {
    let expected = "Токен GitHub не настроен. Отредактируйте ~/.config/tkill-ai/config.toml";
    assert_eq!(config("").validate().unwrap_err(), expected);
    assert_eq!(config("YOUR_TOKEN_HERE").validate().unwrap_err(), expected);
}

#[test]
fn model_request_holds_what_is_sent() {
    let r = model_request("открой браузер", "tok", "gpt-4o");
    assert_eq!(r.endpoint, "https://models.inference.ai.azure.com/chat/completions");
    assert_eq!(r.authorization, "Bearer tok");
    assert_eq!(r.model, "gpt-4o");
    assert_eq!(r.user_input, "открой браузер");
    assert_eq!(r.tool_choice, "auto");
    assert_eq!(r.tools.len(), 3);
    assert!(r.system_prompt.starts_with("Ты ассистент, который управляет компьютером."));
    assert!(r.system_prompt.contains("launch_app"));
}

#[test]
fn messages_can_be_cloned() {
    let m = tkill_ai::app::Message::TranscribeResult(Ok("x".to_string()));
    match m.clone() {
        tkill_ai::app::Message::TranscribeResult(Ok(s)) => assert_eq!(s, "x"),
        other => panic!("unexpected {:?}", other),
    }
}
