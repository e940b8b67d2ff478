use abaco::core_types::UnitCategory;
use abaco::json::{member, member_of_text, number_of_text, string_of_text, Json};
use abaco::mcp::{
    decide_line, decide_request, read_request, tool_list, McpAction, McpRequest, ParamKind, ToolArgs,
    ToolCall,
};

fn reply(id: &str, text: &str, is_error: bool) -> McpAction {
    McpAction::ToolReply { id: id.to_string(), text: text.to_string(), is_error }
}

fn no_args() -> ToolArgs {
    ToolArgs { expression: None, value: None, from: None, to: None, category: None }
}

#[test]
fn blank_lines_are_skipped() {
    assert_eq!(decide_line(""), McpAction::Skip);
    assert_eq!(decide_line("  \t "), McpAction::Skip);
}

#[test]
fn text_that_is_not_json_is_a_parse_error() {
    match decide_line("not json") {
        McpAction::ParseError { message } => assert!(message.starts_with("Parse error: ")),
        other => panic!("unexpected action {other:?}"),
    }
}

#[test]
fn notifications_get_no_reply() {
    assert_eq!(decide_line(r#"{"jsonrpc":"2.0","method":"initialize"}"#), McpAction::Skip);
    assert_eq!(decide_line(r#"{"id":null,"method":"initialize"}"#), McpAction::Skip);
    assert_eq!(decide_line("[1, 2]"), McpAction::Skip);
}

#[test]
fn methods_are_dispatched_with_their_id() {
    assert_eq!(
        decide_line(r#"  {"jsonrpc":"2.0","id":1,"method":"initialize"}  "#),
        McpAction::Initialize { id: "1".to_string() }
    );
    assert_eq!(
        decide_line(r#"{"id":"a","method":"tools/list"}"#),
        McpAction::ToolsList { id: "\"a\"".to_string() }
    );
    assert_eq!(
        decide_line(r#"{"id":2,"method":"resources/list"}"#),
        McpAction::MethodNotFound {
            id: "2".to_string(),
            message: "Method not found: resources/list".to_string()
        }
    );
    assert_eq!(
        decide_line(r#"{"id":3}"#),
        McpAction::MethodNotFound { id: "3".to_string(), message: "Method not found: ".to_string() }
    );
}

#[test]
fn eval_tool_needs_an_expression() {
    assert_eq!(
        decide_line(
            r#"{"id":4,"method":"tools/call","params":{"name":"abaco_eval","arguments":{"expression":"2+3"}}}"#
        ),
        McpAction::CallTool {
            id: "4".to_string(),
            call: ToolCall::Eval { expression: "2+3".to_string() }
        }
    );
    assert_eq!(
        decide_line(r#"{"id":5,"method":"tools/call","params":{"name":"abaco_eval"}}"#),
        reply("5", "Error: Missing required parameter: expression", true)
    );
}

#[test]
fn conversion_arguments_are_checked_in_order() {
    let line = r#"{"id":6,"method":"tools/call","params":{"name":"abaco_convert","arguments":{"value":5,"from":"km","to":"mi"}}}"#;
    assert_eq!(
        decide_line(line),
        McpAction::CallTool {
            id: "6".to_string(),
            call: ToolCall::Convert { value: 5.0f64.to_bits(), from: "km".to_string(), to: "mi".to_string() }
        }
    );
    let line = r#"{"id":7,"method":"tools/call","params":{"name":"abaco_convert","arguments":{"value":"5","to":"mi"}}}"#;
    assert_eq!(decide_line(line), reply("7", "Error: Missing required parameter: value", true));
    let line = r#"{"id":8,"method":"tools/call","params":{"name":"abaco_currency","arguments":{"value":2.5,"to":"EUR"}}}"#;
    assert_eq!(decide_line(line), reply("8", "Error: Missing required parameter: from", true));
    let line = r#"{"id":9,"method":"tools/call","params":{"name":"abaco_currency","arguments":{"value":2.5,"from":"USD"}}}"#;
    assert_eq!(decide_line(line), reply("9", "Error: Missing required parameter: to", true));
}

#[test]
fn history_and_unknown_tools() {
    assert_eq!(
        decide_line(r#"{"id":10,"method":"tools/call","params":{"name":"abaco_history","arguments":{"limit":3}}}"#),
        reply("10", "{\"entries\":[]}", false)
    );
    assert_eq!(
        decide_line(r#"{"id":11,"method":"tools/call","params":{"name":"abaco_plot"}}"#),
        reply("11", "Error: Unknown tool: abaco_plot", true)
    );
    assert_eq!(
        decide_line(r#"{"id":12,"method":"tools/call"}"#),
        reply("12", "Error: Unknown tool: ", true)
    );
}

#[test]
fn units_tool_lists_a_category() {
    let line = r#"{"id":13,"method":"tools/call","params":{"name":"abaco_units","arguments":{"category":"Temp"}}}"#;
    match decide_line(line) {
        McpAction::UnitsReply { id, units } => {
            assert_eq!(id, "13");
            let names: Vec<&str> = units.iter().map(|u| u.name.as_str()).collect();
            assert_eq!(names, vec!["celsius", "fahrenheit", "kelvin"]);
            assert!(units.iter().all(|u| u.category == UnitCategory::Temperature));
        }
        other => panic!("unexpected action {other:?}"),
    }
    let line = r#"{"id":14,"method":"tools/call","params":{"name":"abaco_units","arguments":{"category":"colour"}}}"#;
    assert_eq!(decide_line(line), reply("14", "Error: unknown unit category: 'colour'", true));
    let line = r#"{"id":15,"method":"tools/call","params":{"name":"abaco_units"}}"#;
    match decide_line(line) {
        McpAction::UnitsReply { id, units } => {
            assert_eq!(id, "15");
            assert_eq!(units.len(), 48);
            assert_eq!(units[0].symbol, "m");
            assert_eq!(units[47].name, "teaspoon");
        }
        other => panic!("unexpected action {other:?}"),
    }
}

#[test]
fn decided_requests_without_parsing() {
    let req = McpRequest {
        method: Some("tools/call".to_string()),
        id: Some("\"x\"".to_string()),
        tool: Some("abaco_eval".to_string()),
        args: no_args(),
    };
    assert_eq!(decide_request(Ok(req)), reply("\"x\"", "Error: Missing required parameter: expression", true));
    let req = McpRequest { method: None, id: Some("null".to_string()), tool: None, args: no_args() };
    assert_eq!(decide_request(Ok(req)), McpAction::Skip);
    assert_eq!(
        decide_request(Err("EOF while parsing".to_string())),
        McpAction::ParseError { message: "Parse error: EOF while parsing".to_string() }
    );
}

fn obj(members: &[(&str, &str)]) -> Json {
    Json::Object(members.iter().map(|(k, v)| (k.to_string(), v.to_string())).collect())
}

#[test]
fn members_are_read_from_objects_only() {
    let v = obj(&[("a", "1"), ("b", "\"x\"")]);
    assert_eq!(member(&v, "b"), Some("\"x\"".to_string()));
    assert_eq!(member(&v, "c"), None);
    assert_eq!(member(&Json::Array(vec!["1".to_string()]), "a"), None);
    assert_eq!(member(&Json::Null, "a"), None);
}

#[test]
fn member_texts_are_parsed_in_turn() {
    let params = Some(r#"{"name":"abaco_eval","arguments":{"value":2.5}}"#.to_string());
    assert_eq!(member_of_text(&params, "name"), Some("\"abaco_eval\"".to_string()));
    assert_eq!(string_of_text(&member_of_text(&params, "name")), Some("abaco_eval".to_string()));
    let args = member_of_text(&params, "arguments");
    assert_eq!(number_of_text(&member_of_text(&args, "value")), Some(2.5f64.to_bits()));
    assert_eq!(string_of_text(&member_of_text(&args, "value")), None);
    assert_eq!(number_of_text(&Some("\"5\"".to_string())), None);
    assert_eq!(member_of_text(&Some("not json".to_string()), "a"), None);
    assert_eq!(member_of_text(&None, "a"), None);
}

#[test]
fn requests_are_read_member_by_member() {
    let v = obj(&[
        ("id", "[1]"),
        ("method", "\"tools/call\""),
        ("params", r#"{"name":"abaco_convert","arguments":{"value":3,"from":"km","to":7}}"#),
    ]);
    let r = read_request(&v);
    assert_eq!(r.id, Some("[1]".to_string()));
    assert_eq!(r.method, Some("tools/call".to_string()));
    assert_eq!(r.tool, Some("abaco_convert".to_string()));
    assert_eq!(r.args.value, Some(3.0f64.to_bits()));
    assert_eq!(r.args.from, Some("km".to_string()));
    assert_eq!(r.args.to, None);
    assert_eq!(r.args.expression, None);
    let r = read_request(&obj(&[("method", "5")]));
    assert_eq!(r.method, None);
    assert_eq!(r.id, None);
}

#[test]
fn tool_list_describes_the_dispatched_tools() {
    let tools = tool_list();
    let names: Vec<&str> = tools.iter().map(|t| t.name.as_str()).collect();
    assert_eq!(names, vec!["abaco_eval", "abaco_convert", "abaco_currency", "abaco_history", "abaco_units"]);
    let convert = &tools[1];
    let required: Vec<&str> = convert.params.iter().filter(|p| p.required).map(|p| p.name.as_str()).collect();
    assert_eq!(required, vec!["value", "from", "to"]);
    assert_eq!(convert.params[0].kind, ParamKind::Number);
    assert!(!tools[4].params[0].required);
    // A call without a required argument fails for that argument.
    let line = r#"{"id":1,"method":"tools/call","params":{"name":"abaco_convert","arguments":{"value":1,"to":"m"}}}"#;
    assert_eq!(decide_line(line), reply("1", "Error: Missing required parameter: from", true));
}
