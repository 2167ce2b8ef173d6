use tkill_ai::actions::{
    hyprctl_outcome, install_outcome, launch_outcome, package_for_app, require_installed,
    search_outcome, search_summary, search_url, FetchFailure, LaunchStatus, ProcessOutput,
};
use tkill_ai::audio::transcription_outcome;
use tkill_ai::knowledge::app_knowledge;

#[test]
fn known_app_resolves_to_package() {
    let table = app_knowledge();
    assert_eq!(package_for_app(&table, "Телеграм"), Ok("telegram-desktop".to_string()));
    assert_eq!(
        package_for_app(&table, "foo"),
        Err("Приложение 'foo' не найдено в базе знаний".to_string())
    );
}

#[test]
fn missing_package_is_reported() {
    assert_eq!(require_installed("gimp", true), Ok(()));
    assert_eq!(require_installed("gimp", false), Err("PACKAGE_NOT_INSTALLED:gimp".to_string()));
}

#[test]
fn launch_reports() {
    assert_eq!(launch_outcome("mpv", LaunchStatus::Exited(true)), Ok("Приложение 'mpv' запущено".to_string()));
    assert_eq!(
        launch_outcome("mpv", LaunchStatus::Exited(false)),
        Err("Приложение 'mpv' завершилось с ошибкой".to_string())
    );
    assert_eq!(
        launch_outcome("mpv", LaunchStatus::SpawnFailed("No such file".to_string())),
        Err("Не удалось запустить 'mpv': No such file".to_string())
    );
    assert_eq!(
        launch_outcome("mpv", LaunchStatus::WaitFailed("interrupted".to_string())),
        Err("Ошибка ожидания процесса: interrupted".to_string())
    );
}

#[test]
fn install_reports() {
    assert_eq!(install_outcome("gimp", Ok(true)), Ok("Пакет 'gimp' успешно установлен".to_string()));
    assert_eq!(install_outcome("gimp", Ok(false)), Err("Не удалось установить 'gimp'".to_string()));
    assert_eq!(
        install_outcome("gimp", Err("sudo missing".to_string())),
        Err("Ошибка установки: sudo missing".to_string())
    );
}

#[test]
fn hyprctl_reports_decode_output() {
    let ok = ProcessOutput { success: true, stdout: b"ok\n".to_vec(), stderr: vec![] };
    assert_eq!(hyprctl_outcome(Ok(ok)), Ok("hyprctl выполнен: ok\n".to_string()));
    let bad = ProcessOutput { success: false, stdout: vec![], stderr: vec![0x66, 0xff, 0x6f] };
    assert_eq!(hyprctl_outcome(Ok(bad)), Err("hyprctl ошибка: f\u{fffd}o".to_string()));
    assert_eq!(
        hyprctl_outcome(Err("not found".to_string())),
        Err("Ошибка hyprctl: not found".to_string())
    );
}

#[test]
fn search_address_is_percent_encoded() {
    assert_eq!(
        search_url("hello world!"),
        "https://api.duckduckgo.com/?q=hello%20world%21&format=json&no_html=1&skip_disambig=1"
    );
    assert_eq!(
        search_url("я"),
        "https://api.duckduckgo.com/?q=%D1%8F&format=json&no_html=1&skip_disambig=1"
    );
    assert_eq!(
        search_url("a-b_c.d~"),
        "https://api.duckduckgo.com/?q=a-b_c.d~&format=json&no_html=1&skip_disambig=1"
    );
}

#[test]
fn search_summary_prefers_abstract_then_definition_then_answer() {
    let v: serde_json::Value =
        serde_json::from_str(r#"{"AbstractText": "", "Definition": "def", "Answer": "ans"}"#).unwrap();
    assert_eq!(search_summary(&v), "def");
    let v: serde_json::Value =
        serde_json::from_str(r#"{"AbstractText": "abs", "Definition": "def"}"#).unwrap();
    assert_eq!(search_summary(&v), "abs");
    let v: serde_json::Value = serde_json::from_str(r#"{"Answer": "42"}"#).unwrap();
    assert_eq!(search_summary(&v), "42");
    let v: serde_json::Value = serde_json::from_str(r#"{"Answer": 42}"#).unwrap();
    assert_eq!(search_summary(&v), "Не удалось найти краткую информацию по запросу.");
}

#[test]
fn search_failures_are_reported() {
    assert_eq!(
        search_outcome(Err(FetchFailure::Request("dns".to_string()))),
        Err("Ошибка запроса: dns".to_string())
    );
    assert_eq!(
        search_outcome(Err(FetchFailure::Parse("eof".to_string()))),
        Err("Ошибка парсинга: eof".to_string())
    );
    let v: serde_json::Value = serde_json::from_str(r#"{"Definition": "d"}"#).unwrap();
    assert_eq!(search_outcome(Ok(v)), Ok("d".to_string()));
}

#[test]
fn transcript_is_last_trimmed_line() {
    let out = ProcessOutput {
        success: true,
        stdout: "load model\n[00:00.000 --> 00:05.000]\n  открой браузер  \n".as_bytes().to_vec(),
        stderr: vec![],
    };
    assert_eq!(transcription_outcome(Ok(out)), Ok("открой браузер".to_string()));
}

#[test]
fn empty_transcript_is_an_error() {
    let out = ProcessOutput { success: true, stdout: b"text\n   \n".to_vec(), stderr: vec![] };
    assert_eq!(transcription_outcome(Ok(out)), Err("Не удалось распознать речь".to_string()));
    let out = ProcessOutput { success: true, stdout: vec![], stderr: vec![] };
    assert_eq!(transcription_outcome(Ok(out)), Err("Не удалось распознать речь".to_string()));
}

#[test]
fn recogniser_failures_are_reported() {
    let out = ProcessOutput { success: false, stdout: vec![], stderr: b"no model".to_vec() };
    assert_eq!(transcription_outcome(Ok(out)), Err("Ошибка распознавания: no model".to_string()));
    assert_eq!(
        transcription_outcome(Err("No such file".to_string())),
        Err("whisper-cli не найден: No such file".to_string())
    );
}

#[test]
fn search_query_cannot_leave_its_parameter() {
    assert_eq!(
        search_url("a&b=c#d"),
        "https://api.duckduckgo.com/?q=a%26b%3Dc%23d&format=json&no_html=1&skip_disambig=1"
    );
}
