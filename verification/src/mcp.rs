//! The JSON-RPC tool server's decisions: which request method and which tool a
//! request names, and what is done with each line that arrives.
use vstd::prelude::*;
use crate::core_types::{category_named, Unit, UnitCategory};
use crate::json::{
    json_text, member, member_in, member_of, member_of_text, number_in, number_of_text,
    parse_json, string_in, string_of_text, text_of, Json, JsonView,
};
use crate::text::{same_text, trim, trimmed, unicode_lowercase};
use crate::units::{copy_unit, default_units, UnitRegistry, UnitView};

verus! {

/// A JSON-RPC method of the tool server.
#[derive(Debug, Clone, Copy, PartialEq, Eq, Structural)]
pub enum McpMethod {
    Initialize,
    ToolsList,
    ToolsCall,
    /// Any other method: answered with "Method not found".
    Unknown,
}

/// A tool of the tool server.
#[derive(Debug, Clone, Copy, PartialEq, Eq, Structural)]
pub enum McpTool {
    Eval,
    Convert,
    Currency,
    History,
    Units,
}

/// The method that a request's method name stands for.
pub open spec fn method_named(m: Seq<char>) -> McpMethod {
    if m == "initialize"@ {
        McpMethod::Initialize
    } else if m == "tools/list"@ {
        McpMethod::ToolsList
    } else if m == "tools/call"@ {
        McpMethod::ToolsCall
    } else {
        McpMethod::Unknown
    }
}

/// The tool that a tool name stands for.
pub open spec fn tool_named(n: Seq<char>) -> Option<McpTool> {
    if n == "abaco_eval"@ {
        Some(McpTool::Eval)
    } else if n == "abaco_convert"@ {
        Some(McpTool::Convert)
    } else if n == "abaco_currency"@ {
        Some(McpTool::Currency)
    } else if n == "abaco_history"@ {
        Some(McpTool::History)
    } else if n == "abaco_units"@ {
        Some(McpTool::Units)
    } else {
        None
    }
}

impl McpMethod {
    /// The method named `m`.
    pub fn parse(m: &str) -> (r: McpMethod)
        ensures
            r == method_named(m@),
    {
        let s = m.to_owned();
        if same_text(&s, "initialize") {
            McpMethod::Initialize
        } else if same_text(&s, "tools/list") {
            McpMethod::ToolsList
        } else if same_text(&s, "tools/call") {
            McpMethod::ToolsCall
        } else {
            McpMethod::Unknown
        }
    }
}

impl McpTool {
    /// The tool named `n`, if there is one.
    pub fn parse(n: &str) -> (r: Option<McpTool>)
        ensures
            r == tool_named(n@),
    {
        let s = n.to_owned();
        if same_text(&s, "abaco_eval") {
            Some(McpTool::Eval)
        } else if same_text(&s, "abaco_convert") {
            Some(McpTool::Convert)
        } else if same_text(&s, "abaco_currency") {
            Some(McpTool::Currency)
        } else if same_text(&s, "abaco_history") {
            Some(McpTool::History)
        } else if same_text(&s, "abaco_units") {
            Some(McpTool::Units)
        } else {
            None
        }
    }
}

/// The arguments of a tool call that the tools read, each present only where
/// the request's `params.arguments` is an object holding it with the right type.
#[derive(Debug, PartialEq)]
pub struct ToolArgs {
    /// `expression`, a string.
    pub expression: Option<String>,
    /// `value`, a number, as the bits of its `f64` value.
    pub value: Option<u64>,
    /// `from`, a string.
    pub from: Option<String>,
    /// `to`, a string.
    pub to: Option<String>,
    /// `category`, a string.
    pub category: Option<String>,
}

/// `ToolArgs` with its texts as character sequences.
pub struct ToolArgsView {
    pub expression: Option<Seq<char>>,
    pub value: Option<u64>,
    pub from: Option<Seq<char>>,
    pub to: Option<Seq<char>>,
    pub category: Option<Seq<char>>,
}

impl View for ToolArgs {
    type V = ToolArgsView;

    open spec fn view(&self) -> ToolArgsView {
        ToolArgsView {
            expression: text_of(self.expression),
            value: self.value,
            from: text_of(self.from),
            to: text_of(self.to),
            category: text_of(self.category),
        }
    }
}

/// What the server reads of one JSON request.
#[derive(Debug, PartialEq)]
pub struct McpRequest {
    /// The `method` member, where it is a string.
    pub method: Option<String>,
    /// The JSON text of the `id` member, where there is one (`null` included).
    pub id: Option<String>,
    /// `params.name`, where it is a string.
    pub tool: Option<String>,
    /// What is read of `params.arguments`.
    pub args: ToolArgs,
}

/// `McpRequest` with its texts as character sequences.
pub struct McpRequestView {
    pub method: Option<Seq<char>>,
    pub id: Option<Seq<char>>,
    pub tool: Option<Seq<char>>,
    pub args: ToolArgsView,
}

impl View for McpRequest {
    type V = McpRequestView;

    open spec fn view(&self) -> McpRequestView {
        McpRequestView {
            method: text_of(self.method),
            id: text_of(self.id),
            tool: text_of(self.tool),
            args: self.args@,
        }
    }
}

/// A parsed request, or the parser's error message, seen through the views.
pub open spec fn parsed_view(p: Result<McpRequest, String>) -> Result<McpRequestView, Seq<char>> {
    match p {
        Ok(r) => Ok(r@),
        Err(e) => Err(e@),
    }
}

/// What the server reads of a parsed request: `method`, the JSON text of `id`,
/// `params.name`, and the arguments in `params.arguments`. A member that is
/// missing, or whose container is no object, or that is not of the expected
/// type (a string, or a number for `value`), is read as absent.
pub open spec fn request_of(v: JsonView) -> McpRequestView {
    let params = member_of(v, "params"@);
    let args = member_in(params, "arguments"@);
    McpRequestView {
        method: string_in(member_of(v, "method"@)),
        id: member_of(v, "id"@),
        tool: string_in(member_in(params, "name"@)),
        args: ToolArgsView {
            expression: string_in(member_in(args, "expression"@)),
            value: number_in(member_in(args, "value"@)),
            from: string_in(member_in(args, "from"@)),
            to: string_in(member_in(args, "to"@)),
            category: string_in(member_in(args, "category"@)),
        },
    }
}

/// Reads the members that the server uses from a parsed request.
pub fn read_request(v: &Json) -> (r: McpRequest)
    ensures
        r@ == request_of(v@),
{
    let params = member(v, "params");
    let args = member_of_text(&params, "arguments");
    let method = member(v, "method");
    let tool = member_of_text(&params, "name");
    let expression = member_of_text(&args, "expression");
    let value = member_of_text(&args, "value");
    let from = member_of_text(&args, "from");
    let to = member_of_text(&args, "to");
    let category = member_of_text(&args, "category");
    McpRequest {
        method: string_of_text(&method),
        id: member(v, "id"),
        tool: string_of_text(&tool),
        args: ToolArgs {
            expression: string_of_text(&expression),
            value: number_of_text(&value),
            from: string_of_text(&from),
            to: string_of_text(&to),
            category: string_of_text(&category),
        },
    }
}

/// A tool call whose arguments are all present; the tool's arithmetic is done
/// by the caller.
#[derive(Debug, PartialEq)]
pub enum ToolCall {
    /// Evaluate `expression`.
    Eval { expression: String },
    /// Convert the `f64` whose bits are `value` between two units.
    Convert { value: u64, from: String, to: String },
    /// Convert an amount between two currencies.
    Currency { value: u64, from: String, to: String },
}

/// `ToolCall` with its texts as character sequences.
pub enum ToolCallView {
    Eval { expression: Seq<char> },
    Convert { value: u64, from: Seq<char>, to: Seq<char> },
    Currency { value: u64, from: Seq<char>, to: Seq<char> },
}

impl View for ToolCall {
    type V = ToolCallView;

    open spec fn view(&self) -> ToolCallView {
        match self {
            ToolCall::Eval { expression } => ToolCallView::Eval { expression: expression@ },
            ToolCall::Convert { value, from, to } => ToolCallView::Convert {
                value: *value,
                from: from@,
                to: to@,
            },
            ToolCall::Currency { value, from, to } => ToolCallView::Currency {
                value: *value,
                from: from@,
                to: to@,
            },
        }
    }
}

/// What the server does with one input line. Each `id` is the JSON text of the
/// request's id, to be echoed in the reply.
#[derive(Debug, PartialEq)]
pub enum McpAction {
    /// No reply: an empty line, or a request without an id (a notification).
    Skip,
    /// The line is not JSON: error -32700 with a null id and this message.
    ParseError { message: String },
    /// Reply to `initialize` with the server's description.
    Initialize { id: String },
    /// Reply to `tools/list` with the list of tools.
    ToolsList { id: String },
    /// Error -32601 with this message.
    MethodNotFound { id: String, message: String },
    /// Run a tool on its arguments and reply with the text it gives.
    CallTool { id: String, call: ToolCall },
    /// Reply to a tool call with this text; `is_error` marks a failed call.
    ToolReply { id: String, text: String, is_error: bool },
    /// Reply to the units tool with these units (their name, symbol and
    /// category), as the object `{"units": [...]}`.
    UnitsReply { id: String, units: Vec<Unit> },
}

/// The views of a sequence of units.
pub open spec fn units_view(us: Seq<Unit>) -> Seq<UnitView> {
    us.map_values(|u: Unit| u@)
}

/// `McpAction` with its texts as character sequences.
pub enum McpActionView {
    Skip,
    ParseError { message: Seq<char> },
    Initialize { id: Seq<char> },
    ToolsList { id: Seq<char> },
    MethodNotFound { id: Seq<char>, message: Seq<char> },
    CallTool { id: Seq<char>, call: ToolCallView },
    ToolReply { id: Seq<char>, text: Seq<char>, is_error: bool },
    UnitsReply { id: Seq<char>, units: Seq<UnitView> },
}

impl View for McpAction {
    type V = McpActionView;

    open spec fn view(&self) -> McpActionView {
        match self {
            McpAction::Skip => McpActionView::Skip,
            McpAction::ParseError { message } => McpActionView::ParseError { message: message@ },
            McpAction::Initialize { id } => McpActionView::Initialize { id: id@ },
            McpAction::ToolsList { id } => McpActionView::ToolsList { id: id@ },
            McpAction::MethodNotFound { id, message } => McpActionView::MethodNotFound {
                id: id@,
                message: message@,
            },
            McpAction::CallTool { id, call } => McpActionView::CallTool { id: id@, call: call@ },
            McpAction::ToolReply { id, text, is_error } => McpActionView::ToolReply {
                id: id@,
                text: text@,
                is_error: *is_error,
            },
            McpAction::UnitsReply { id, units } => McpActionView::UnitsReply {
                id: id@,
                units: units_view(units@),
            },
        }
    }
}

/// The reply of a tool call that failed with `message`.
pub open spec fn tool_failure(id: Seq<char>, message: Seq<char>) -> McpActionView {
    McpActionView::ToolReply { id, text: "Error: "@ + message, is_error: true }
}

/// The failure for a missing argument `name`.
pub open spec fn missing_argument(id: Seq<char>, name: Seq<char>) -> McpActionView {
    tool_failure(id, "Missing required parameter: "@ + name)
}

/// The reply of the history tool, the object `{"entries": [...]}`: a server
/// that starts afresh for each run has no entries.
pub open spec fn history_text() -> Seq<char> {
    "{\"entries\":[]}"@
}

/// A conversion call (`currency` tells which), once `value`, `from` and `to`
/// are checked, in that order.
pub open spec fn conversion_action(id: Seq<char>, args: ToolArgsView, currency: bool) -> McpActionView {
    match (args.value, args.from, args.to) {
        (None, _, _) => missing_argument(id, "value"@),
        (Some(_), None, _) => missing_argument(id, "from"@),
        (Some(_), Some(_), None) => missing_argument(id, "to"@),
        (Some(v), Some(f), Some(t)) => McpActionView::CallTool {
            id,
            call: if currency {
                ToolCallView::Currency { value: v, from: f, to: t }
            } else {
                ToolCallView::Convert { value: v, from: f, to: t }
            },
        },
    }
}

/// The units tool: the built-in units, in registration order (those of one
/// category where one is named).
pub open spec fn units_action(id: Seq<char>, category: Option<Seq<char>>) -> McpActionView {
    match category {
        None => McpActionView::UnitsReply { id, units: default_units() },
        Some(c) => match category_named(unicode_lowercase(c)) {
            Some(cat) => McpActionView::UnitsReply {
                id,
                units: default_units().filter(|u: UnitView| u.category == cat),
            },
            None => tool_failure(id, "unknown unit category: '"@ + c + "'"@),
        },
    }
}

/// A `tools/call` request for the tool named `tool`.
pub open spec fn tool_action(id: Seq<char>, tool: Seq<char>, args: ToolArgsView) -> McpActionView {
    match tool_named(tool) {
        None => tool_failure(id, "Unknown tool: "@ + tool),
        Some(McpTool::Eval) => match args.expression {
            None => missing_argument(id, "expression"@),
            Some(e) => McpActionView::CallTool { id, call: ToolCallView::Eval { expression: e } },
        },
        Some(McpTool::Convert) => conversion_action(id, args, false),
        Some(McpTool::Currency) => conversion_action(id, args, true),
        Some(McpTool::History) => McpActionView::ToolReply { id, text: history_text(), is_error: false },
        Some(McpTool::Units) => units_action(id, args.category),
    }
}

/// What is done with a parsed request (or a parser error). A request without
/// an id, or with a null id, is a notification and gets no reply; a missing
/// method or tool name counts as the empty name.
pub open spec fn request_action(p: Result<McpRequestView, Seq<char>>) -> McpActionView {
    match p {
        Err(e) => McpActionView::ParseError { message: "Parse error: "@ + e },
        Ok(req) => match req.id {
            None => McpActionView::Skip,
            Some(id) => if id == "null"@ {
                McpActionView::Skip
            } else {
                let m = match req.method {
                    Some(m) => m,
                    None => ""@,
                };
                match method_named(m) {
                    McpMethod::Initialize => McpActionView::Initialize { id },
                    McpMethod::ToolsList => McpActionView::ToolsList { id },
                    McpMethod::ToolsCall => tool_action(
                        id,
                        match req.tool {
                            Some(t) => t,
                            None => ""@,
                        },
                        req.args,
                    ),
                    McpMethod::Unknown => McpActionView::MethodNotFound {
                        id,
                        message: "Method not found: "@ + m,
                    },
                }
            },
        },
    }
}

/// What is done with one input line: it is trimmed; an empty line is skipped,
/// any other is parsed as JSON, read by `request_of` and answered as
/// `request_action` says.
pub open spec fn line_action(line: Seq<char>) -> McpActionView {
    let t = trimmed(line);
    if t.len() == 0 {
        McpActionView::Skip
    } else {
        request_action(
            match json_text(t) {
                Ok(v) => Ok(request_of(v)),
                Err(e) => Err(e),
            },
        )
    }
}

/// `prefix` followed by `rest`.
fn joined(prefix: &str, rest: &str) -> (r: String)
    ensures
        r@ == prefix@ + rest@,
{
    let mut s = prefix.to_owned();
    s.append(rest);
    s
}

/// The reply of a tool call that failed with `message`.
fn failure(id: String, message: &str) -> (a: McpAction)
    ensures
        a@ == tool_failure(id@, message@),
{
    McpAction::ToolReply { id, text: joined("Error: ", message), is_error: true }
}

/// The failure for a missing argument `name`.
fn missing(id: String, name: &str) -> (a: McpAction)
    ensures
        a@ == missing_argument(id@, name@),
{
    let m = joined("Missing required parameter: ", name);
    failure(id, m.as_str())
}

/// Owned copies of units.
fn owned_units(us: Vec<&Unit>) -> (r: Vec<Unit>)
    ensures
        units_view(r@) == us@.map_values(|u: &Unit| u@),
{
    let mut r: Vec<Unit> = Vec::new();
    let n = us.len();
    let mut i: usize = 0;
    while i < n
        invariant
            n == us.len(),
            i <= n,
            units_view(r@) == us@.take(i as int).map_values(|u: &Unit| u@),
        decreases n - i,
    {
        let ghost before = r@;
        r.push(copy_unit(us[i]));
        assert(units_view(r@) =~= units_view(before).push(us@[i as int]@));
        assert(us@.take(i + 1) =~= us@.take(i as int).push(us@[i as int]));
        i = i + 1;
    }
    assert(us@.take(n as int) =~= us@);
    r
}

/// The reply of the units tool.
fn units_reply(id: String, category: Option<String>) -> (a: McpAction)
    ensures
        a@ == units_action(id@, text_of(category)),
{
    let registry = UnitRegistry::new();
    match category {
        None => McpAction::UnitsReply { id, units: owned_units(registry.all_units()) },
        Some(c) => match UnitCategory::from_str(c.as_str()) {
            Ok(cat) => McpAction::UnitsReply { id, units: owned_units(registry.list_units(cat)) },
            Err(msg) => failure(id, msg.as_str()),
        },
    }
}

/// A conversion call, once its arguments are checked.
fn conversion(id: String, args: ToolArgs, currency: bool) -> (a: McpAction)
    ensures
        a@ == conversion_action(id@, args@, currency),
{
    match args.value {
        None => missing(id, "value"),
        Some(v) => match args.from {
            None => missing(id, "from"),
            Some(f) => match args.to {
                None => missing(id, "to"),
                Some(t) => {
                    let call = if currency {
                        ToolCall::Currency { value: v, from: f, to: t }
                    } else {
                        ToolCall::Convert { value: v, from: f, to: t }
                    };
                    McpAction::CallTool { id, call }
                },
            },
        },
    }
}

/// A `tools/call` request for the tool named `tool`.
fn tool_call(id: String, tool: String, args: ToolArgs) -> (a: McpAction)
    ensures
        a@ == tool_action(id@, tool@, args@),
{
    match McpTool::parse(tool.as_str()) {
        None => {
            let m = joined("Unknown tool: ", tool.as_str());
            failure(id, m.as_str())
        },
        Some(McpTool::Eval) => match args.expression {
            None => missing(id, "expression"),
            Some(e) => McpAction::CallTool { id, call: ToolCall::Eval { expression: e } },
        },
        Some(McpTool::Convert) => conversion(id, args, false),
        Some(McpTool::Currency) => conversion(id, args, true),
        Some(McpTool::History) => McpAction::ToolReply {
            id,
            text: "{\"entries\":[]}".to_owned(),
            is_error: false,
        },
        Some(McpTool::Units) => units_reply(id, args.category),
    }
}

/// Decides what to do with a parsed request, or with the parser's error.
pub fn decide_request(parsed: Result<McpRequest, String>) -> (a: McpAction)
    ensures
        a@ == request_action(parsed_view(parsed)),
{
    match parsed {
        Err(e) => McpAction::ParseError { message: joined("Parse error: ", e.as_str()) },
        Ok(req) => match req.id {
            None => McpAction::Skip,
            Some(id) => if same_text(&id, "null") {
                McpAction::Skip
            } else {
                let m = match req.method {
                    Some(m) => m,
                    None => "".to_owned(),
                };
                match McpMethod::parse(m.as_str()) {
                    McpMethod::Initialize => McpAction::Initialize { id },
                    McpMethod::ToolsList => McpAction::ToolsList { id },
                    McpMethod::ToolsCall => {
                        let t = match req.tool {
                            Some(t) => t,
                            None => "".to_owned(),
                        };
                        tool_call(id, t, req.args)
                    },
                    McpMethod::Unknown => McpAction::MethodNotFound {
                        id,
                        message: joined("Method not found: ", m.as_str()),
                    },
                }
            },
        },
    }
}

/// Decides what to do with one line read by the server: an empty line (after
/// trimming) is skipped; any other is parsed as JSON and decided on.
pub fn decide_line(line: &str) -> (a: McpAction)
    ensures
        a@ == line_action(line@),
{
    let t = trim(line);
    if t.as_str().unicode_len() == 0 {
        McpAction::Skip
    } else {
        match parse_json(t.as_str()) {
            Ok(v) => decide_request(Ok(read_request(&v))),
            Err(e) => decide_request(Err(e)),
        }
    }
}

/// The JSON type of a tool parameter.
#[derive(Debug, Clone, Copy, PartialEq, Eq, Structural)]
pub enum ParamKind {
    Number,
    Text,
}

/// A parameter of a tool, as the tool list describes it.
#[derive(Debug, PartialEq)]
pub struct ToolParam {
    pub name: String,
    pub kind: ParamKind,
    pub description: String,
    pub required: bool,
}

/// `ToolParam` with its texts as character sequences.
pub struct ToolParamView {
    pub name: Seq<char>,
    pub kind: ParamKind,
    pub description: Seq<char>,
    pub required: bool,
}

/// A tool, as the tool list describes it.
#[derive(Debug, PartialEq)]
pub struct ToolInfo {
    pub name: String,
    pub description: String,
    pub params: Vec<ToolParam>,
}

/// `ToolInfo` with its texts as character sequences.
pub struct ToolInfoView {
    pub name: Seq<char>,
    pub description: Seq<char>,
    pub params: Seq<ToolParamView>,
}

impl View for ToolParam {
    type V = ToolParamView;

    open spec fn view(&self) -> ToolParamView {
        ToolParamView {
            name: self.name@,
            kind: self.kind,
            description: self.description@,
            required: self.required,
        }
    }
}

/// The views of a sequence of parameters.
pub open spec fn params_view(ps: Seq<ToolParam>) -> Seq<ToolParamView> {
    ps.map_values(|p: ToolParam| p@)
}

impl View for ToolInfo {
    type V = ToolInfoView;

    open spec fn view(&self) -> ToolInfoView {
        ToolInfoView { name: self.name@, description: self.description@, params: params_view(self.params@) }
    }
}

/// The views of a sequence of tool descriptions.
pub open spec fn infos_view(ts: Seq<ToolInfo>) -> Seq<ToolInfoView> {
    ts.map_values(|t: ToolInfo| t@)
}

/// The tools that `tools/list` describes, in order.
pub open spec fn tool_infos() -> Seq<ToolInfoView> {
    seq![
        ToolInfoView {
            name: "abaco_eval"@,
            description: "Evaluate a mathematical expression"@,
            params: seq![ToolParamView { name: "expression"@, kind: ParamKind::Text, description: "Math expression to evaluate"@, required: true }],
        },
        ToolInfoView {
            name: "abaco_convert"@,
            description: "Convert a value between units"@,
            params: seq![ToolParamView { name: "value"@, kind: ParamKind::Number, description: "Numeric value to convert"@, required: true }, ToolParamView { name: "from"@, kind: ParamKind::Text, description: "Source unit name or symbol"@, required: true }, ToolParamView { name: "to"@, kind: ParamKind::Text, description: "Target unit name or symbol"@, required: true }],
        },
        ToolInfoView {
            name: "abaco_currency"@,
            description: "Convert between currencies (stub — live rates not yet available)"@,
            params: seq![ToolParamView { name: "value"@, kind: ParamKind::Number, description: "Amount to convert"@, required: true }, ToolParamView { name: "from"@, kind: ParamKind::Text, description: "Source currency code (e.g. USD)"@, required: true }, ToolParamView { name: "to"@, kind: ParamKind::Text, description: "Target currency code (e.g. EUR)"@, required: true }],
        },
        ToolInfoView {
            name: "abaco_history"@,
            description: "Return recent calculation history entries"@,
            params: seq![ToolParamView { name: "limit"@, kind: ParamKind::Number, description: "Maximum number of entries to return"@, required: false }],
        },
        ToolInfoView {
            name: "abaco_units"@,
            description: "List available units, optionally filtered by category"@,
            params: seq![ToolParamView { name: "category"@, kind: ParamKind::Text, description: "Category to filter by (e.g. length, mass, temperature)"@, required: false }],
        },
    ]
}

/// The tool descriptions that `tools/list` answers with.
pub fn tool_list() -> (r: Vec<ToolInfo>)
    ensures
        infos_view(r@) == tool_infos(),
{
    let mut r: Vec<ToolInfo> = Vec::new();
    let ps = vec![ToolParam { name: "expression".to_owned(), kind: ParamKind::Text, description: "Math expression to evaluate".to_owned(), required: true }];
    assert(params_view(ps@) =~= tool_infos()[0].params);
    r.push(ToolInfo { name: "abaco_eval".to_owned(), description: "Evaluate a mathematical expression".to_owned(), params: ps });
    let ps = vec![ToolParam { name: "value".to_owned(), kind: ParamKind::Number, description: "Numeric value to convert".to_owned(), required: true }, ToolParam { name: "from".to_owned(), kind: ParamKind::Text, description: "Source unit name or symbol".to_owned(), required: true }, ToolParam { name: "to".to_owned(), kind: ParamKind::Text, description: "Target unit name or symbol".to_owned(), required: true }];
    assert(params_view(ps@) =~= tool_infos()[1].params);
    r.push(ToolInfo { name: "abaco_convert".to_owned(), description: "Convert a value between units".to_owned(), params: ps });
    let ps = vec![ToolParam { name: "value".to_owned(), kind: ParamKind::Number, description: "Amount to convert".to_owned(), required: true }, ToolParam { name: "from".to_owned(), kind: ParamKind::Text, description: "Source currency code (e.g. USD)".to_owned(), required: true }, ToolParam { name: "to".to_owned(), kind: ParamKind::Text, description: "Target currency code (e.g. EUR)".to_owned(), required: true }];
    assert(params_view(ps@) =~= tool_infos()[2].params);
    r.push(ToolInfo { name: "abaco_currency".to_owned(), description: "Convert between currencies (stub — live rates not yet available)".to_owned(), params: ps });
    let ps = vec![ToolParam { name: "limit".to_owned(), kind: ParamKind::Number, description: "Maximum number of entries to return".to_owned(), required: false }];
    assert(params_view(ps@) =~= tool_infos()[3].params);
    r.push(ToolInfo { name: "abaco_history".to_owned(), description: "Return recent calculation history entries".to_owned(), params: ps });
    let ps = vec![ToolParam { name: "category".to_owned(), kind: ParamKind::Text, description: "Category to filter by (e.g. length, mass, temperature)".to_owned(), required: false }];
    assert(params_view(ps@) =~= tool_infos()[4].params);
    r.push(ToolInfo { name: "abaco_units".to_owned(), description: "List available units, optionally filtered by category".to_owned(), params: ps });
    assert(infos_view(r@) =~= tool_infos());
    r
}

/// The tools in the order that the tool list names them.
pub open spec fn tool_order() -> Seq<McpTool> {
    seq![McpTool::Eval, McpTool::Convert, McpTool::Currency, McpTool::History, McpTool::Units]
}

/// Tool arguments with every argument present except `p` (and `category`,
/// which is left out so that its value decides nothing).
pub open spec fn args_without(p: Seq<char>) -> ToolArgsView {
    ToolArgsView {
        expression: if p == "expression"@ { None } else { Some("1"@) },
        value: if p == "value"@ { None } else { Some(0) },
        from: if p == "from"@ { None } else { Some("m"@) },
        to: if p == "to"@ { None } else { Some("m"@) },
        category: None,
    }
}

/// `a` is the failure of a tool call.
pub open spec fn is_failure(a: McpActionView) -> bool {
    a matches McpActionView::ToolReply { is_error, .. } && is_error
}

/// The tool list agrees with the dispatch of tool calls: the `k`-th listed
/// name is the name of the `k`-th tool (so every tool is listed, once), and a
/// listed parameter is required exactly when a call without it (and with the
/// tool's other arguments) fails for that missing argument.
pub proof fn lemma_tool_list_agrees(k: int, j: int, id: Seq<char>)
    requires
        0 <= k < tool_infos().len(),
        0 <= j < tool_infos()[k].params.len(),
    ensures
        tool_named(tool_infos()[k].name) == Some(tool_order()[k]),
        ({
            let p = tool_infos()[k].params[j];
            let a = tool_action(id, tool_infos()[k].name, args_without(p.name));
            &&& p.required ==> a == missing_argument(id, p.name)
            &&& !p.required ==> !is_failure(a)
        }),
{
    reveal_strlit("abaco_eval");
    reveal_strlit("abaco_convert");
    reveal_strlit("abaco_currency");
    reveal_strlit("abaco_history");
    reveal_strlit("abaco_units");
    reveal_strlit("expression");
    reveal_strlit("value");
    reveal_strlit("from");
    reveal_strlit("to");
    reveal_strlit("limit");
    reveal_strlit("category");
    assert("abaco_eval"@.len() == 10);
    assert("abaco_convert"@.len() == 13);
    assert("abaco_currency"@.len() == 14);
    assert("abaco_history"@.len() == 13);
    assert("abaco_units"@.len() == 11);
    assert("abaco_convert"@[6] != "abaco_history"@[6]);
    assert("expression"@.len() == 10);
    assert("value"@.len() == 5);
    assert("from"@.len() == 4);
    assert("to"@.len() == 2);
    assert("limit"@.len() == 5);
    assert("category"@.len() == 8);
    assert("value"@[0] != "limit"@[0]);
    if k == 0 {
        assert(tool_infos()[0].name == "abaco_eval"@);
        if j == 0 {
            assert(tool_infos()[0].params[0].name == "expression"@);
        }
    } else if k == 1 {
        assert(tool_infos()[1].name == "abaco_convert"@);
        if j == 0 {
            assert(tool_infos()[1].params[0].name == "value"@);
        } else if j == 1 {
            assert(tool_infos()[1].params[1].name == "from"@);
        } else if j == 2 {
            assert(tool_infos()[1].params[2].name == "to"@);
        }
    } else if k == 2 {
        assert(tool_infos()[2].name == "abaco_currency"@);
        if j == 0 {
            assert(tool_infos()[2].params[0].name == "value"@);
        } else if j == 1 {
            assert(tool_infos()[2].params[1].name == "from"@);
        } else if j == 2 {
            assert(tool_infos()[2].params[2].name == "to"@);
        }
    } else if k == 3 {
        assert(tool_infos()[3].name == "abaco_history"@);
        if j == 0 {
            assert(tool_infos()[3].params[0].name == "limit"@);
        }
    } else if k == 4 {
        assert(tool_infos()[4].name == "abaco_units"@);
        if j == 0 {
            assert(tool_infos()[4].params[0].name == "category"@);
        }
    }
}

} // verus!
