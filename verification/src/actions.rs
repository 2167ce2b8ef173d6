//! What the assistant reports for each action it carries out: launching an
//! application, installing a package, running `hyprctl`, searching the web.
//! The programs and requests themselves are run by the caller, which hands
//! their outcomes to these functions.
use vstd::prelude::*;
use vstd::utf8::encode_utf8;
use crate::ai::{member_or_empty, member_text};
use crate::app::not_installed_prefix;
use crate::json::string_members;
use crate::knowledge::{lowercase, KnowledgeBase};
use crate::text::{decode_utf8_lossy, join, join3, utf8_lossy};

verus! {

/// What a finished program left behind.
#[derive(Debug)]
pub struct ProcessOutput {
    pub success: bool,
    pub stdout: Vec<u8>,
    pub stderr: Vec<u8>,
}

/// How starting an application ended.
#[derive(Debug)]
pub enum LaunchStatus {
    /// The program could not be started; the system's reason.
    SpawnFailed(String),
    /// Waiting for the program failed; the system's reason.
    WaitFailed(String),
    /// The program ran and exited, successfully or not.
    Exited(bool),
}

/// Why a web search brought no answer.
#[derive(Debug)]
pub enum FetchFailure {
    /// The request failed; the reason.
    Request(String),
    /// The answer was not JSON; the reason.
    Parse(String),
}

/// The report for an application name that the table does not know.
pub open spec fn unknown_app_message(app_name: Seq<char>) -> Seq<char> {
    "Приложение '"@ + app_name + "' не найдено в базе знаний"@
}

/// The package that provides the application the user named, in `table`.
pub fn package_for_app(table: &KnowledgeBase, app_name: &str) -> (r: Result<String, String>)
    ensures
        r is Ok <==> table@.contains_key(lowercase(app_name@)),
        r matches Ok(p) ==> p@ == table@[lowercase(app_name@)],
        r matches Err(e) ==> e@ == unknown_app_message(app_name@),
{
    match table.lookup(app_name) {
        Some(pkg) => Ok(pkg),
        None => Err(join3("Приложение '", app_name, "' не найдено в базе знаний")),
    }
}

/// Refuses to launch a package that is not installed, with the report that
/// the window answers by offering the installation.
pub fn require_installed(pkg: &str, installed: bool) -> (r: Result<(), String>)
    ensures
        r is Ok <==> installed,
        r matches Err(e) ==> e@ == not_installed_prefix() + pkg@,
{
    if installed {
        Ok(())
    } else {
        Err(join("PACKAGE_NOT_INSTALLED:", pkg))
    }
}

/// The report on starting the application of `pkg`.
pub open spec fn launch_report(pkg: Seq<char>, status: LaunchStatus) -> Result<Seq<char>, Seq<char>> {
    match status {
        LaunchStatus::SpawnFailed(e) => Err("Не удалось запустить '"@ + pkg + "': "@ + e@),
        LaunchStatus::WaitFailed(e) => Err("Ошибка ожидания процесса: "@ + e@),
        LaunchStatus::Exited(true) => Ok("Приложение '"@ + pkg + "' запущено"@),
        LaunchStatus::Exited(false) => Err("Приложение '"@ + pkg + "' завершилось с ошибкой"@),
    }
}

/// The plain view of a text outcome.
pub open spec fn report_view(r: Result<String, String>) -> Result<Seq<char>, Seq<char>> {
    match r {
        Ok(s) => Ok(s@),
        Err(e) => Err(e@),
    }
}

/// Reports how starting the application of `pkg` ended.
pub fn launch_outcome(pkg: &str, status: LaunchStatus) -> (r: Result<String, String>)
    ensures
        report_view(r) == launch_report(pkg@, status),
{
    match status {
        LaunchStatus::SpawnFailed(e) => {
            let head = join3("Не удалось запустить '", pkg, "': ");
            Err(head.concat(e.as_str()))
        },
        LaunchStatus::WaitFailed(e) => Err(join("Ошибка ожидания процесса: ", e.as_str())),
        LaunchStatus::Exited(ok) => {
            if ok {
                Ok(join3("Приложение '", pkg, "' запущено"))
            } else {
                Err(join3("Приложение '", pkg, "' завершилось с ошибкой"))
            }
        },
    }
}

/// The report on installing `pkg`, given whether the installer could be run
/// and, if so, whether it succeeded.
pub open spec fn install_report(pkg: Seq<char>, status: Result<bool, Seq<char>>) -> Result<
    Seq<char>,
    Seq<char>,
> {
    match status {
        Err(e) => Err("Ошибка установки: "@ + e),
        Ok(true) => Ok("Пакет '"@ + pkg + "' успешно установлен"@),
        Ok(false) => Err("Не удалось установить '"@ + pkg + "'"@),
    }
}

/// Reports how installing `pkg` ended.
pub fn install_outcome(pkg: &str, status: Result<bool, String>) -> (r: Result<String, String>)
    ensures
        report_view(r) == install_report(
            pkg@,
            match status {
                Ok(b) => Ok(b),
                Err(e) => Err(e@),
            },
        ),
{
    match status {
        Err(e) => Err(join("Ошибка установки: ", e.as_str())),
        Ok(ok) => {
            if ok {
                Ok(join3("Пакет '", pkg, "' успешно установлен"))
            } else {
                Err(join3("Не удалось установить '", pkg, "'"))
            }
        },
    }
}

/// The report on a `hyprctl dispatch` run.
pub open spec fn hyprctl_report(output: Result<(bool, Seq<u8>, Seq<u8>), Seq<char>>) -> Result<
    Seq<char>,
    Seq<char>,
> {
    match output {
        Err(e) => Err("Ошибка hyprctl: "@ + e),
        Ok((success, stdout, stderr)) => if success {
            Ok("hyprctl выполнен: "@ + utf8_lossy(stdout))
        } else {
            Err("hyprctl ошибка: "@ + utf8_lossy(stderr))
        },
    }
}

/// The plain view of a program's outcome.
pub open spec fn output_view(output: Result<ProcessOutput, String>) -> Result<
    (bool, Seq<u8>, Seq<u8>),
    Seq<char>,
> {
    match output {
        Ok(o) => Ok((o.success, o.stdout@, o.stderr@)),
        Err(e) => Err(e@),
    }
}

/// Reports how a `hyprctl dispatch` run ended.
pub fn hyprctl_outcome(output: Result<ProcessOutput, String>) -> (r: Result<String, String>)
    ensures
        report_view(r) == hyprctl_report(output_view(output)),
{
    match output {
        Err(e) => Err(join("Ошибка hyprctl: ", e.as_str())),
        Ok(o) => {
            if o.success {
                let out = decode_utf8_lossy(o.stdout.as_slice());
                Ok(join("hyprctl выполнен: ", out.as_str()))
            } else {
                let err = decode_utf8_lossy(o.stderr.as_slice());
                Err(join("hyprctl ошибка: ", err.as_str()))
            }
        },
    }
}

/// A byte that URL encoding leaves as it is: ASCII letters and digits, `-`,
/// `.`, `_` and `~`.
pub open spec fn is_unreserved(b: u8) -> bool {
    ||| 48 <= b <= 57
    ||| 65 <= b <= 90
    ||| 97 <= b <= 122
    ||| b == 45
    ||| b == 46
    ||| b == 95
    ||| b == 126
}

/// The upper-case hexadecimal digit for `d` (below sixteen).
pub open spec fn hex_digit(d: int) -> char {
    if d < 10 {
        (d + 48) as char
    } else {
        (d + 55) as char
    }
}

/// Percent encoding of bytes: unreserved bytes stay, every other byte
/// becomes `%` and two upper-case hexadecimal digits.
pub open spec fn percent_encoded(bytes: Seq<u8>) -> Seq<char>
    decreases bytes.len(),
{
    if bytes.len() == 0 {
        Seq::empty()
    } else {
        let b = bytes[0];
        (if is_unreserved(b) {
            seq![b as char]
        } else {
            seq!['%', hex_digit((b / 16) as int), hex_digit((b % 16) as int)]
        }) + percent_encoded(bytes.drop_first())
    }
}

/// Trusted: `urlencoding::encode`. Claims what its documentation and source
/// give: the UTF-8 bytes of the text, percent encoded as `percent_encoded`
/// states.
#[verifier::external_body]
fn url_encode(text: &str) -> (r: String)
    ensures
        r@ == percent_encoded(encode_utf8(text@)),
{
    urlencoding::encode(text).into_owned()
}

/// The instant answer address for a search query.
pub open spec fn search_address(query: Seq<char>) -> Seq<char> {
    "https://api.duckduckgo.com/?q="@ + percent_encoded(encode_utf8(query))
        + "&format=json&no_html=1&skip_disambig=1"@
}

/// The address to ask for an instant answer to `query`.
pub fn search_url(query: &str) -> (r: String)
    ensures
        r@ == search_address(query@),
{
    let encoded = url_encode(query);
    join3(
        "https://api.duckduckgo.com/?q=",
        encoded.as_str(),
        "&format=json&no_html=1&skip_disambig=1",
    )
}

/// The first non-empty of the abstract, the definition and the answer of an
/// instant answer, or a note that there is none.
pub open spec fn search_answer(members: Map<Seq<char>, Seq<char>>) -> Seq<char> {
    let abstract_text = member_or_empty(members, "AbstractText"@);
    let definition = member_or_empty(members, "Definition"@);
    let answer = member_or_empty(members, "Answer"@);
    if abstract_text.len() > 0 {
        abstract_text
    } else if definition.len() > 0 {
        definition
    } else if answer.len() > 0 {
        answer
    } else {
        "Не удалось найти краткую информацию по запросу."@
    }
}

/// The short answer found in an instant answer document.
pub fn search_summary(document: &serde_json::Value) -> (r: String)
    ensures
        r@ == search_answer(string_members(*document)),
{
    let abstract_text = member_text(document, "AbstractText");
    let definition = member_text(document, "Definition");
    let answer = member_text(document, "Answer");
    if abstract_text.as_str().unicode_len() > 0 {
        abstract_text
    } else if definition.as_str().unicode_len() > 0 {
        definition
    } else if answer.as_str().unicode_len() > 0 {
        answer
    } else {
        String::from_str("Не удалось найти краткую информацию по запросу.")
    }
}

/// Reports the outcome of a web search.
pub fn search_outcome(response: Result<serde_json::Value, FetchFailure>) -> (r: Result<
    String,
    String,
>)
    ensures
        response matches Ok(d) ==> r matches Ok(s) && s@ == search_answer(string_members(d)),
        response matches Err(FetchFailure::Request(e)) ==> r matches Err(m) && m@
            == "Ошибка запроса: "@ + e@,
        response matches Err(FetchFailure::Parse(e)) ==> r matches Err(m) && m@
            == "Ошибка парсинга: "@ + e@,
{
    match response {
        Ok(document) => Ok(search_summary(&document)),
        Err(FetchFailure::Request(e)) => Err(join("Ошибка запроса: ", e.as_str())),
        Err(FetchFailure::Parse(e)) => Err(join("Ошибка парсинга: ", e.as_str())),
    }
}

/// A character that may stand inside a URL query value: an unreserved
/// character or the `%` of an escape.
pub open spec fn is_query_safe(c: char) -> bool {
    ||| (c as u32) < 256 && is_unreserved((c as u32) as u8)
    ||| c == '%'
}

/// Percent encoding leaves only characters that cannot end or split a
/// query value: no `&`, `=`, `#`, space or non-ASCII character gets through.
pub proof fn lemma_percent_encoding_is_query_safe(bytes: Seq<u8>)
    ensures
        forall|i: int|
            0 <= i < percent_encoded(bytes).len() ==> is_query_safe(
                #[trigger] percent_encoded(bytes)[i],
            ),
    decreases bytes.len(),
{
    if bytes.len() > 0 {
        lemma_percent_encoding_is_query_safe(bytes.drop_first());
        let b = bytes[0];
        let head = if is_unreserved(b) {
            seq![b as char]
        } else {
            seq!['%', hex_digit((b / 16) as int), hex_digit((b % 16) as int)]
        };
        assert(forall|i: int| 0 <= i < head.len() ==> is_query_safe(#[trigger] head[i])) by {
            if is_unreserved(b) {
                assert((b as char) as u32 == b as u32);
            } else {
                let hi = (b / 16) as int;
                let lo = (b % 16) as int;
                assert(hex_digit(hi) as u32 == if hi < 10 { hi + 48 } else { hi + 55 });
                assert(hex_digit(lo) as u32 == if lo < 10 { lo + 48 } else { lo + 55 });
            }
        }
        let rest = percent_encoded(bytes.drop_first());
        assert forall|i: int| 0 <= i < percent_encoded(bytes).len() implies is_query_safe(
            #[trigger] percent_encoded(bytes)[i],
        ) by {
            if i < head.len() {
                assert(percent_encoded(bytes)[i] == head[i]);
            } else {
                assert(percent_encoded(bytes)[i] == rest[i - head.len()]);
            }
        }
    }
}

/// The summary is the abstract whenever there is a non-empty one; failing
/// that the non-empty definition; failing that the non-empty answer; and
/// only when all three are missing or empty, the note that nothing was found.
pub proof fn lemma_search_answer_priority(m: Map<Seq<char>, Seq<char>>)
    ensures
        m.contains_key("AbstractText"@) && m["AbstractText"@].len() > 0 ==> search_answer(m)
            == m["AbstractText"@],
        !(m.contains_key("AbstractText"@) && m["AbstractText"@].len() > 0) && m.contains_key(
            "Definition"@,
        ) && m["Definition"@].len() > 0 ==> search_answer(m) == m["Definition"@],
        !(m.contains_key("AbstractText"@) && m["AbstractText"@].len() > 0) && !(m.contains_key(
            "Definition"@,
        ) && m["Definition"@].len() > 0) && m.contains_key("Answer"@) && m["Answer"@].len() > 0
            ==> search_answer(m) == m["Answer"@],
        !(m.contains_key("AbstractText"@) && m["AbstractText"@].len() > 0) && !(m.contains_key(
            "Definition"@,
        ) && m["Definition"@].len() > 0) && !(m.contains_key("Answer"@) && m["Answer"@].len() > 0)
            ==> search_answer(m) == "Не удалось найти краткую информацию по запросу."@,
{
}

/// Starting an application is reported as done exactly when the program ran
/// and exited successfully.
pub proof fn lemma_launch_done_only_on_clean_exit(pkg: Seq<char>, status: LaunchStatus)
    ensures
        launch_report(pkg, status) is Ok <==> status matches LaunchStatus::Exited(true),
{
}

/// An installation is reported as done exactly when the installer ran and
/// succeeded.
pub proof fn lemma_install_done_only_on_success(pkg: Seq<char>, status: Result<bool, Seq<char>>)
    ensures
        install_report(pkg, status) is Ok <==> status == Ok::<bool, Seq<char>>(true),
{
}

/// A `hyprctl` run is reported as done exactly when it ran and succeeded; the
/// report then ends with what it printed, and otherwise with its error output
/// or the reason it could not run.
pub proof fn lemma_hyprctl_done_only_on_success(output: Result<(bool, Seq<u8>, Seq<u8>), Seq<char>>)
    ensures
        hyprctl_report(output) is Ok <==> output matches Ok((true, _, _)),
        match (output, hyprctl_report(output)) {
            (Ok((true, out, _)), Ok(m)) => m.skip(m.len() - utf8_lossy(out).len()) == utf8_lossy(out),
            (Ok((false, _, err)), Err(m)) => m.skip(m.len() - utf8_lossy(err).len()) == utf8_lossy(
                err,
            ),
            (Err(e), Err(m)) => m.skip(m.len() - e.len()) == e,
            _ => false,
        },
{
    match output {
        Ok((true, out, _)) => {
            let h = "hyprctl выполнен: "@;
            assert((h + utf8_lossy(out)).skip(h.len() as int) =~= utf8_lossy(out));
        },
        Ok((false, _, err)) => {
            let h = "hyprctl ошибка: "@;
            assert((h + utf8_lossy(err)).skip(h.len() as int) =~= utf8_lossy(err));
        },
        Err(e) => {
            let h = "Ошибка hyprctl: "@;
            assert((h + e).skip(h.len() as int) =~= e);
        },
    }
}
} // verus!
