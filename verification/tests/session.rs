use abaco::mcp::{McpMethod, McpTool};
use abaco::desktop::View;
use abaco::session::{classify_line, split_assignment, Command};
use abaco::text::{decimal_string, trim};

#[test]
fn assignment_is_split_at_first_equals() {
    assert_eq!(split_assignment("x = 42"), Some(("x".to_string(), "42".to_string())));
    assert_eq!(
        split_assignment("  _total1 =2 + 3 "),
        Some(("_total1".to_string(), "2 + 3".to_string()))
    );
    assert_eq!(split_assignment("x == 3"), Some(("x".to_string(), "= 3".to_string())));
    assert_eq!(split_assignment("2x = 3"), None);
    assert_eq!(split_assignment("a b = 3"), None);
    assert_eq!(split_assignment(" = 3"), None);
    assert_eq!(split_assignment("2 + 3"), None);
}

#[test]
fn prompt_lines_are_classified() {
    assert_eq!(classify_line("   \n"), Command::Skip);
    assert_eq!(classify_line(" quit "), Command::Quit);
    assert_eq!(classify_line("exit\n"), Command::Quit);
    assert_eq!(classify_line("history"), Command::ShowHistory);
    assert_eq!(
        classify_line("y = x^2\n"),
        Command::Assign { name: "y".to_string(), expr: "x^2".to_string() }
    );
    assert_eq!(classify_line(" 2 + 3 \n"), Command::Evaluate("2 + 3".to_string()));
    assert_eq!(classify_line("Quit"), Command::Evaluate("Quit".to_string()));
}

#[test]
fn trim_removes_unicode_white_space() {
    assert_eq!(trim("\u{3000}\t a b \u{a0}\n"), "a b");
    assert_eq!(trim("   "), "");
    assert_eq!(trim("x"), "x");
}

#[test]
fn decimal_strings() {
    assert_eq!(decimal_string(0), "0");
    assert_eq!(decimal_string(7), "7");
    assert_eq!(decimal_string(1024), "1024");
    assert_eq!(decimal_string(usize::MAX), usize::MAX.to_string());
}

#[test]
fn views_compare() {
    let view = View::Calculator;
    assert_eq!(view, View::Calculator);
    assert_ne!(view, View::History);
}

#[test]
fn server_methods_and_tools() {
    assert_eq!(McpMethod::parse("initialize"), McpMethod::Initialize);
    assert_eq!(McpMethod::parse("tools/list"), McpMethod::ToolsList);
    assert_eq!(McpMethod::parse("tools/call"), McpMethod::ToolsCall);
    assert_eq!(McpMethod::parse("Initialize"), McpMethod::Unknown);
    assert_eq!(McpTool::parse("abaco_eval"), Some(McpTool::Eval));
    assert_eq!(McpTool::parse("abaco_convert"), Some(McpTool::Convert));
    assert_eq!(McpTool::parse("abaco_currency"), Some(McpTool::Currency));
    assert_eq!(McpTool::parse("abaco_history"), Some(McpTool::History));
    assert_eq!(McpTool::parse("abaco_units"), Some(McpTool::Units));
    assert_eq!(McpTool::parse("abaco"), None);
}

#[test]
fn trim_end_keeps_leading_space() {
    assert_eq!(abaco::text::trim_end("  a b \n\n"), "  a b");
    assert_eq!(abaco::text::trim_end(""), "");
}
