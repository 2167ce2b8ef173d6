//! The tool calls that the language model answers with, and how each one is
//! turned into an action of the assistant.
use vstd::prelude::*;
use crate::json::{
    array_of, describe_json_error, element_of, json_array, json_element, json_error_text,
    json_member, member_of, parse_json, parsed_json, string_member, string_members,
};
use crate::text::join;

verus! {

/// The function part of a tool call: its name and its JSON arguments.
#[derive(Debug, Clone)]
pub struct FunctionCall {
    pub name: String,
    pub arguments: String,
}

/// One tool call of a model answer.
#[derive(Debug, Clone)]
pub struct ToolCall {
    pub id: String,
    pub call_type: String,
    pub function: FunctionCall,
}

pub struct FunctionCallView {
    pub name: Seq<char>,
    pub arguments: Seq<char>,
}

pub struct ToolCallView {
    pub id: Seq<char>,
    pub call_type: Seq<char>,
    pub function: FunctionCallView,
}

impl View for FunctionCall {
    type V = FunctionCallView;

    open spec fn view(&self) -> FunctionCallView {
        FunctionCallView { name: self.name@, arguments: self.arguments@ }
    }
}

impl View for ToolCall {
    type V = ToolCallView;

    open spec fn view(&self) -> ToolCallView {
        ToolCallView { id: self.id@, call_type: self.call_type@, function: self.function@ }
    }
}

/// What the assistant does for a tool call.
#[derive(Debug)]
pub enum ToolAction {
    /// Start the application with this (user given) name.
    LaunchApp(String),
    /// Run `hyprctl dispatch` with this command.
    RunHyprctl(String),
    /// Look this query up on the web.
    SearchWeb(String),
}

pub enum ToolActionView {
    LaunchApp(Seq<char>),
    RunHyprctl(Seq<char>),
    SearchWeb(Seq<char>),
}

impl View for ToolAction {
    type V = ToolActionView;

    open spec fn view(&self) -> ToolActionView {
        match self {
            ToolAction::LaunchApp(s) => ToolActionView::LaunchApp(s@),
            ToolAction::RunHyprctl(s) => ToolActionView::RunHyprctl(s@),
            ToolAction::SearchWeb(s) => ToolActionView::SearchWeb(s@),
        }
    }
}

/// The plain view of a planned action or of the reason it was refused.
pub open spec fn plan_view(r: Result<ToolAction, String>) -> Result<ToolActionView, Seq<char>> {
    match r {
        Ok(a) => Ok(a@),
        Err(e) => Err(e@),
    }
}

/// The string member under `key`, or the empty text when there is none.
pub open spec fn member_or_empty(members: Map<Seq<char>, Seq<char>>, key: Seq<char>) -> Seq<char> {
    if members.contains_key(key) {
        members[key]
    } else {
        Seq::empty()
    }
}

/// The action for the tool `name`, given the string members of its arguments.
pub open spec fn tool_action_for(name: Seq<char>, members: Map<Seq<char>, Seq<char>>) -> Result<
    ToolActionView,
    Seq<char>,
> {
    if name == "launch_app"@ {
        Ok(ToolActionView::LaunchApp(member_or_empty(members, "app_name"@)))
    } else if name == "run_hyprctl"@ {
        Ok(ToolActionView::RunHyprctl(member_or_empty(members, "command"@)))
    } else if name == "search_web"@ {
        Ok(ToolActionView::SearchWeb(member_or_empty(members, "query"@)))
    } else {
        Err("Неизвестный tool: "@ + name)
    }
}

/// The prefix of the report for arguments that are not JSON.
pub open spec fn bad_arguments_prefix() -> Seq<char> {
    "Ошибка парсинга аргументов: "@
}

/// The string member under `key` of `args`, or the empty text.
pub(crate) fn member_text(args: &serde_json::Value, key: &str) -> (r: String)
    ensures
        r@ == member_or_empty(string_members(*args), key@),
{
    match string_member(args, key) {
        Some(s) => s,
        None => String::new(),
    }
}

/// Whether the strings are equal.
fn same_text(a: &str, b: &str) -> (r: bool)
    ensures
        r == (a@ == b@),
{
    String::from_str(a) == String::from_str(b)
}

/// The action for the tool `name` with the parsed arguments `args`.
pub fn tool_action(name: &str, args: &serde_json::Value) -> (r: Result<ToolAction, String>)
    ensures
        plan_view(r) == tool_action_for(name@, string_members(*args)),
{
    if same_text(name, "launch_app") {
        Ok(ToolAction::LaunchApp(member_text(args, "app_name")))
    } else if same_text(name, "run_hyprctl") {
        Ok(ToolAction::RunHyprctl(member_text(args, "command")))
    } else if same_text(name, "search_web") {
        Ok(ToolAction::SearchWeb(member_text(args, "query")))
    } else {
        Err(join("Неизвестный tool: ", name))
    }
}

/// Plans a tool call: its arguments must be JSON, and its name one of the
/// assistant's tools.
pub fn plan_tool_call(call: &ToolCall) -> (r: Result<ToolAction, String>)
    ensures
        parsed_json(call.function.arguments@) matches Ok(members) ==> plan_view(r)
            == tool_action_for(call.function.name@, members),
        parsed_json(call.function.arguments@) matches Err(detail) ==> plan_view(r) == Err::<
            ToolActionView,
            Seq<char>,
        >(bad_arguments_prefix() + detail),
{
    match parse_json(call.function.arguments.as_str()) {
        Ok(args) => tool_action(call.function.name.as_str(), &args),
        Err(e) => {
            let detail = describe_json_error(&e);
            Err(join("Ошибка парсинга аргументов: ", detail.as_str()))
        },
    }
}

/// The value of the `Authorization` header for `token`.
pub fn bearer_authorization(token: &str) -> (r: String)
    ensures
        r@ == "Bearer "@ + token@,
{
    join("Bearer ", token)
}

/// What came of asking the model.
#[derive(Debug)]
pub enum ModelReply {
    /// The request could not be sent; the reason.
    RequestFailed(String),
    /// The service refused the request; the body of its answer.
    Rejected(String),
    /// The answer was not JSON; the reason.
    Unreadable(String),
    /// The answer, read as JSON.
    Answer(serde_json::Value),
}

/// The report for an answer that holds no tool calls.
pub open spec fn no_tool_calls_message() -> Seq<char> {
    "Нет вызовов функций в ответе"@
}

/// The tool calls of a model answer: the elements of the array at
/// `choices[0].message.tool_calls`, if there is an array there.
pub open spec fn answer_tool_calls(answer: serde_json::Value) -> Option<Seq<serde_json::Value>> {
    array_of(
        member_of(member_of(element_of(member_of(answer, "choices"@), 0), "message"@), "tool_calls"@),
    )
}

/// The tool calls (still as JSON values) in a model answer: the array at
/// `choices[0].message.tool_calls`, or the report that there is none.
pub fn answer_outcome(answer: &serde_json::Value) -> (r: Result<Vec<serde_json::Value>, String>)
    ensures
        r is Ok <==> answer_tool_calls(*answer) is Some,
        r matches Ok(v) ==> v@ == answer_tool_calls(*answer)->Some_0,
        r matches Err(m) ==> m@ == no_tool_calls_message(),
{
    let choices = json_member(answer, "choices");
    let first = json_element(choices, 0);
    let message = json_member(first, "message");
    let tool_calls = json_member(message, "tool_calls");
    match json_array(tool_calls) {
        Some(calls) => Ok(calls),
        None => Err(String::from_str("Нет вызовов функций в ответе")),
    }
}

/// The tool calls of a model reply (still as JSON values), or the report of
/// what went wrong.
pub fn model_reply_outcome(reply: ModelReply) -> (r: Result<Vec<serde_json::Value>, String>)
    ensures
        reply matches ModelReply::Answer(a) ==> (r is Ok <==> answer_tool_calls(a) is Some),
        reply matches ModelReply::Answer(a) ==> (r matches Ok(v) ==> v@ == answer_tool_calls(
            a,
        )->Some_0),
        reply matches ModelReply::Answer(a) ==> (r matches Err(m) ==> m@
            == no_tool_calls_message()),
        reply matches ModelReply::RequestFailed(e) ==> r matches Err(m) && m@
            == "Ошибка запроса к GitHub Models: "@ + e@,
        reply matches ModelReply::Rejected(body) ==> r matches Err(m) && m@ == "API вернул ошибку: "@
            + body@,
        reply matches ModelReply::Unreadable(e) ==> r matches Err(m) && m@
            == "Ошибка парсинга ответа: "@ + e@,
{
    match reply {
        ModelReply::RequestFailed(e) => Err(join("Ошибка запроса к GitHub Models: ", e.as_str())),
        ModelReply::Rejected(body) => Err(join("API вернул ошибку: ", body.as_str())),
        ModelReply::Unreadable(e) => Err(join("Ошибка парсинга ответа: ", e.as_str())),
        ModelReply::Answer(answer) => answer_outcome(&answer),
    }
}

/// The tool calls once read into their fields, or the report that they
/// could not be read (with the reason).
pub fn decoded_tool_calls(decoded: Result<Vec<ToolCall>, String>) -> (r: Result<Vec<ToolCall>, String>)
    ensures
        decoded matches Ok(calls) ==> r matches Ok(v) && v@ == calls@,
        decoded matches Err(e) ==> r matches Err(m) && m@ == "Ошибка десериализации tool_calls: "@
            + e@,
{
    match decoded {
        Ok(calls) => Ok(calls),
        Err(e) => Err(join("Ошибка десериализации tool_calls: ", e.as_str())),
    }
}

/// A tool as it is described to the model: its name, what it does, and its
/// one string parameter with that parameter's description.
#[derive(Debug)]
pub struct ToolDescription {
    pub name: String,
    pub description: String,
    pub parameter: String,
    pub parameter_description: String,
}

pub struct ToolDescriptionView {
    pub name: Seq<char>,
    pub description: Seq<char>,
    pub parameter: Seq<char>,
    pub parameter_description: Seq<char>,
}

impl View for ToolDescription {
    type V = ToolDescriptionView;

    open spec fn view(&self) -> ToolDescriptionView {
        ToolDescriptionView {
            name: self.name@,
            description: self.description@,
            parameter: self.parameter@,
            parameter_description: self.parameter_description@,
        }
    }
}

/// The tools offered to the model, in order.
pub open spec fn offered_tools_spec() -> Seq<ToolDescriptionView> {
    seq![
        ToolDescriptionView {
            name: "launch_app"@,
            description: "Запускает приложение (или устанавливает, если не найдено)"@,
            parameter: "app_name"@,
            parameter_description: "Название приложения (на русском или английском)"@,
        },
        ToolDescriptionView {
            name: "run_hyprctl"@,
            description: "Выполняет команду hyprctl dispatch"@,
            parameter: "command"@,
            parameter_description: "Команда для hyprctl dispatch (например, 'killactive', 'workspace 2')"@,
        },
        ToolDescriptionView {
            name: "search_web"@,
            description: "Ищет информацию в интернете (DuckDuckGo) и возвращает краткую выжимку"@,
            parameter: "query"@,
            parameter_description: "Поисковый запрос"@,
        },
    ]
}

fn describe_tool(name: &str, description: &str, parameter: &str, parameter_description: &str) -> (r:
    ToolDescription)
    ensures
        r@ == (ToolDescriptionView {
            name: name@,
            description: description@,
            parameter: parameter@,
            parameter_description: parameter_description@,
        }),
{
    ToolDescription {
        name: String::from_str(name),
        description: String::from_str(description),
        parameter: String::from_str(parameter),
        parameter_description: String::from_str(parameter_description),
    }
}

/// The descriptions of the tools offered to the model.
pub fn offered_tools() -> (r: Vec<ToolDescription>)
    ensures
        r@.map_values(|t: ToolDescription| t@) == offered_tools_spec(),
{
    let mut tools: Vec<ToolDescription> = Vec::new();
    tools.push(
        describe_tool(
            "launch_app",
            "Запускает приложение (или устанавливает, если не найдено)",
            "app_name",
            "Название приложения (на русском или английском)",
        ),
    );
    tools.push(
        describe_tool(
            "run_hyprctl",
            "Выполняет команду hyprctl dispatch",
            "command",
            "Команда для hyprctl dispatch (например, 'killactive', 'workspace 2')",
        ),
    );
    tools.push(
        describe_tool(
            "search_web",
            "Ищет информацию в интернете (DuckDuckGo) и возвращает краткую выжимку",
            "query",
            "Поисковый запрос",
        ),
    );
    assert(tools@.map_values(|t: ToolDescription| t@) =~= offered_tools_spec());
    tools
}

/// The argument an action carries.
pub open spec fn action_argument(a: ToolActionView) -> Seq<char> {
    match a {
        ToolActionView::LaunchApp(s) => s,
        ToolActionView::RunHyprctl(s) => s,
        ToolActionView::SearchWeb(s) => s,
    }
}

/// Every tool offered to the model is carried out, and it takes its
/// argument from the parameter that its description names.
pub proof fn lemma_offered_tools_are_handled(i: int, members: Map<Seq<char>, Seq<char>>)
    requires
        0 <= i < offered_tools_spec().len(),
    ensures
        tool_action_for(offered_tools_spec()[i].name, members) matches Ok(a) && action_argument(a)
            == member_or_empty(members, offered_tools_spec()[i].parameter),
{
    reveal_strlit("launch_app");
    reveal_strlit("run_hyprctl");
    reveal_strlit("search_web");
    let t = offered_tools_spec()[i];
    if i == 0 {
        assert(t.name == "launch_app"@ && t.parameter == "app_name"@);
    } else if i == 1 {
        assert(t.name == "run_hyprctl"@ && t.parameter == "command"@);
        assert(t.name != "launch_app"@);
    } else {
        assert(t.name == "search_web"@ && t.parameter == "query"@);
        assert(t.name[0] != "launch_app"@[0]);
        assert(t.name != "launch_app"@);
        assert(t.name != "run_hyprctl"@);
    }
}

/// No tool is carried out that was not offered to the model.
pub proof fn lemma_only_offered_tools_are_handled(name: Seq<char>, members: Map<Seq<char>, Seq<char>>)
    requires
        tool_action_for(name, members) is Ok,
    ensures
        exists|i: int| 0 <= i < offered_tools_spec().len() && #[trigger] offered_tools_spec()[i].name == name,
{
    if name == "launch_app"@ {
        assert(offered_tools_spec()[0].name == name);
    } else if name == "run_hyprctl"@ {
        assert(offered_tools_spec()[1].name == name);
    } else {
        assert(offered_tools_spec()[2].name == name);
    }
}

/// The instructions that open every conversation with the model.
pub open spec fn system_prompt() -> Seq<char> {
    "Ты ассистент, который управляет компьютером. Если пользователь просит запустить программу, используй функцию launch_app. Если просит выполнить hyprctl команду — run_hyprctl. Если нужна информация из интернета — search_web. Отвечай только вызовом функции (одной или несколькими)."@
}

/// Everything sent to the model for one request.
#[derive(Debug)]
pub struct ModelRequest {
    /// Where the request goes.
    pub endpoint: String,
    /// The value of the `Authorization` header.
    pub authorization: String,
    /// The model to ask.
    pub model: String,
    /// The system message.
    pub system_prompt: String,
    /// The user message.
    pub user_input: String,
    /// The tools the model may call.
    pub tools: Vec<ToolDescription>,
    /// How the model is to choose among the tools.
    pub tool_choice: String,
}

/// The request that asks `model`, with `token`, what to do for `user_input`.
pub fn model_request(user_input: &str, token: &str, model: &str) -> (r: ModelRequest)
    ensures
        r.endpoint@ == "https://models.inference.ai.azure.com/chat/completions"@,
        r.authorization@ == "Bearer "@ + token@,
        r.model@ == model@,
        r.system_prompt@ == system_prompt(),
        r.user_input@ == user_input@,
        r.tools@.map_values(|t: ToolDescription| t@) == offered_tools_spec(),
        r.tool_choice@ == "auto"@,
{
    ModelRequest {
        endpoint: String::from_str("https://models.inference.ai.azure.com/chat/completions"),
        authorization: bearer_authorization(token),
        model: String::from_str(model),
        system_prompt: String::from_str(
            "Ты ассистент, который управляет компьютером. Если пользователь просит запустить программу, используй функцию launch_app. Если просит выполнить hyprctl команду — run_hyprctl. Если нужна информация из интернета — search_web. Отвечай только вызовом функции (одной или несколькими).",
        ),
        user_input: String::from_str(user_input),
        tools: offered_tools(),
        tool_choice: String::from_str("auto"),
    }
}

/// The tool's name alone decides the kind of action, and the action carries
/// the string argument under the tool's parameter unchanged, or the empty
/// text when there is none.
pub proof fn lemma_tool_name_decides_action(members: Map<Seq<char>, Seq<char>>, value: Seq<char>)
    ensures
        tool_action_for("launch_app"@, members.insert("app_name"@, value)) matches Ok(a) && a
            == ToolActionView::LaunchApp(value),
        tool_action_for("run_hyprctl"@, members.insert("command"@, value)) matches Ok(a) && a
            == ToolActionView::RunHyprctl(value),
        tool_action_for("search_web"@, members.insert("query"@, value)) matches Ok(a) && a
            == ToolActionView::SearchWeb(value),
        !members.contains_key("app_name"@) ==> (tool_action_for("launch_app"@, members) matches Ok(
            a,
        ) && a == ToolActionView::LaunchApp(Seq::empty())),
        !members.contains_key("command"@) ==> (tool_action_for("run_hyprctl"@, members) matches Ok(
            a,
        ) && a == ToolActionView::RunHyprctl(Seq::empty())),
        !members.contains_key("query"@) ==> (tool_action_for("search_web"@, members) matches Ok(a)
            && a == ToolActionView::SearchWeb(Seq::empty())),
{
    reveal_strlit("launch_app");
    reveal_strlit("run_hyprctl");
    reveal_strlit("search_web");
    assert("run_hyprctl"@.len() != "launch_app"@.len());
    assert("search_web"@[0] != "launch_app"@[0]);
    assert("search_web"@.len() != "run_hyprctl"@.len());
}
} // verus!
