use abaco::eval::{Constant, Evaluator, Func1, Func2, Instr, Program};
use abaco::lexer::{tokenize, EvalError, Token};

/// An evaluated number, as the evaluator reports it: whole results that fit
/// in an `i64` are integers.
#[derive(Debug, Clone, PartialEq)]
enum Value {
    Integer(i64),
    Float(f64),
}

/// Runs a stack program in `f64` arithmetic (the evaluator's arithmetic).
fn run(code: &[Instr]) -> Result<Option<f64>, EvalError> {
    let mut st: Vec<f64> = Vec::new();
    for ins in code {
        let v = match ins {
            Instr::Num(s) => s.parse::<f64>().unwrap(),
            Instr::Const(Constant::Pi) => std::f64::consts::PI,
            Instr::Const(Constant::E) => std::f64::consts::E,
            Instr::Const(Constant::Tau) => std::f64::consts::TAU,
            Instr::Var(bits) => f64::from_bits(*bits),
            Instr::Neg => -st.pop().unwrap(),
            Instr::Call1(f) => {
                let x = st.pop().unwrap();
                match f {
                    Func1::Sqrt => x.sqrt(),
                    Func1::Sin => x.sin(),
                    Func1::Cos => x.cos(),
                    Func1::Tan => x.tan(),
                    Func1::Log10 => x.log10(),
                    Func1::Ln => x.ln(),
                    Func1::Log2 => x.log2(),
                    Func1::Abs => x.abs(),
                    Func1::Ceil => x.ceil(),
                    Func1::Floor => x.floor(),
                    Func1::Round => x.round(),
                    Func1::Exp => x.exp(),
                    Func1::Asin => x.asin(),
                    Func1::Acos => x.acos(),
                    Func1::Atan => x.atan(),
                }
            }
            _ => {
                let b = st.pop().unwrap();
                let a = st.pop().unwrap();
                match ins {
                    Instr::Add => a + b,
                    Instr::Sub => a - b,
                    Instr::Mul => a * b,
                    Instr::Div | Instr::Rem if b == 0.0 => return Err(EvalError::DivisionByZero),
                    Instr::Div => a / b,
                    Instr::Rem => a % b,
                    Instr::Pow => a.powf(b),
                    Instr::Call2(Func2::Min) => a.min(b),
                    Instr::Call2(Func2::Max) => a.max(b),
                    Instr::Call2(Func2::Pow) => a.powf(b),
                    Instr::Call2(Func2::Atan2) => a.atan2(b),
                    _ => unreachable!(),
                }
            }
        };
        st.push(v);
    }
    Ok(st.pop())
}

fn evaluate(ev: &Evaluator, expr: &str) -> Result<Value, EvalError> {
    let Program { code, error } = ev.compile(expr);
    let top = run(&code)?;
    if let Some(e) = error {
        return Err(e);
    }
    let result = top.unwrap();
    if result.fract() == 0.0 && result.abs() < i64::MAX as f64 {
        Ok(Value::Integer(result as i64))
    } else {
        Ok(Value::Float(result))
    }
}

fn eval(expr: &str) -> Value {
    evaluate(&Evaluator::new(), expr).unwrap()
}

fn eval_f64(expr: &str) -> f64 {
    match eval(expr) {
        Value::Integer(n) => n as f64,
        Value::Float(n) => n,
    }
}

#[test]
fn test_basic_addition() {
    assert_eq!(eval("2 + 3"), Value::Integer(5));
}

#[test]
fn test_basic_subtraction() {
    assert_eq!(eval("10 - 4"), Value::Integer(6));
}

#[test]
fn test_multiplication() {
    assert_eq!(eval("6 * 7"), Value::Integer(42));
}

#[test]
fn test_division() {
    assert_eq!(eval("10 / 4"), Value::Float(2.5));
}

#[test]
fn test_order_of_operations() {
    assert_eq!(eval("2 + 3 * 4"), Value::Integer(14));
}

#[test]
fn test_parentheses() {
    assert_eq!(eval("(2 + 3) * 4"), Value::Integer(20));
}

#[test]
fn test_nested_parentheses() {
    assert_eq!(eval("((1 + 2) * (3 + 4))"), Value::Integer(21));
}

#[test]
fn test_power() {
    assert_eq!(eval("2 ^ 10"), Value::Integer(1024));
}

#[test]
fn test_unary_minus() {
    assert_eq!(eval("-5 + 3"), Value::Integer(-2));
}

#[test]
fn test_modulo() {
    assert_eq!(eval("10 % 3"), Value::Integer(1));
}

#[test]
fn test_sqrt_function() {
    assert_eq!(eval_f64("sqrt(16)"), 4.0);
}

#[test]
fn test_abs_function() {
    assert_eq!(eval_f64("abs(-42)"), 42.0);
}

#[test]
fn test_pi_constant() {
    let result = eval_f64("pi");
    assert!((result - std::f64::consts::PI).abs() < 1e-10);
}

#[test]
fn test_e_constant() {
    let result = eval_f64("e");
    assert!((result - std::f64::consts::E).abs() < 1e-10);
}

#[test]
fn test_variables() {
    let mut ev = Evaluator::new();
    ev.set_variable("x", 5.0f64.to_bits());
    assert_eq!(evaluate(&ev, "x + 3").unwrap(), Value::Integer(8));
}

#[test]
fn test_division_by_zero() {
    let result = evaluate(&Evaluator::new(), "1 / 0");
    assert!(result.is_err());
}

#[test]
fn test_unknown_variable() {
    let result = evaluate(&Evaluator::new(), "xyz");
    assert!(result.is_err());
}

#[test]
fn test_unknown_function() {
    let result = evaluate(&Evaluator::new(), "foo(3)");
    assert!(result.is_err());
}

#[test]
fn test_complex_expression() {
    assert_eq!(eval_f64("2^3 + sqrt(9) * 2"), 14.0);
}

#[test]
fn test_floor_ceil_round() {
    assert_eq!(eval_f64("floor(3.7)"), 3.0);
    assert_eq!(eval_f64("ceil(3.2)"), 4.0);
    assert_eq!(eval_f64("round(3.5)"), 4.0);
}

#[test]
fn test_min_function() {
    assert_eq!(eval_f64("min(3, 5)"), 3.0);
    assert_eq!(eval_f64("min(7, 2)"), 2.0);
    assert_eq!(eval_f64("min(-1, -5)"), -5.0);
}

#[test]
fn test_max_function() {
    assert_eq!(eval_f64("max(3, 5)"), 5.0);
    assert_eq!(eval_f64("max(7, 2)"), 7.0);
    assert_eq!(eval_f64("max(-1, -5)"), -1.0);
}

#[test]
fn test_pow_function() {
    assert_eq!(eval_f64("pow(2, 10)"), 1024.0);
    assert_eq!(eval_f64("pow(3, 0)"), 1.0);
    assert_eq!(eval_f64("pow(9, 0.5)"), 3.0);
}

#[test]
fn test_log2_function() {
    assert_eq!(eval_f64("log2(8)"), 3.0);
    assert_eq!(eval_f64("log2(1)"), 0.0);
    assert!((eval_f64("log2(2)") - 1.0).abs() < 1e-10);
}

#[test]
fn test_atan2_function() {
    let result = eval_f64("atan2(1, 1)");
    assert!((result - std::f64::consts::FRAC_PI_4).abs() < 1e-10);
    let result = eval_f64("atan2(0, 1)");
    assert!(result.abs() < 1e-10);
}

#[test]
fn test_multi_arg_wrong_arity() {
    let result = evaluate(&Evaluator::new(), "min(1)");
    assert!(result.is_err());
    let result = evaluate(&Evaluator::new(), "max(1, 2, 3)");
    assert!(result.is_err());
    let result = evaluate(&Evaluator::new(), "sqrt(1, 2)");
    assert!(result.is_err());
}

#[test]
fn test_tokenize_basic() {
    let tokens = tokenize("2 + 3").unwrap();
    assert_eq!(tokens.len(), 3);
    assert_eq!(tokens[0], Token::Number("2".to_string()));
    assert_eq!(tokens[1], Token::Plus);
    assert_eq!(tokens[2], Token::Number("3".to_string()));
}

fn num(s: &str) -> Instr {
    Instr::Num(s.to_string())
}

fn code_of(expr: &str) -> Vec<Instr> {
    let p = Evaluator::new().compile(expr);
    assert_eq!(p.error, None, "{expr}");
    p.code
}

#[test]
fn compile_respects_precedence() {
    assert_eq!(code_of("2 + 3 * 4"), vec![num("2"), num("3"), num("4"), Instr::Mul, Instr::Add]);
    assert_eq!(code_of("8 - 3 - 2"), vec![num("8"), num("3"), Instr::Sub, num("2"), Instr::Sub]);
    assert_eq!(code_of("2 ^ 3 ^ 2"), vec![num("2"), num("3"), num("2"), Instr::Pow, Instr::Pow]);
    assert_eq!(code_of("-2 ^ 2"), vec![num("2"), Instr::Neg, num("2"), Instr::Pow]);
    assert_eq!(code_of("+-+1"), vec![num("1"), Instr::Neg]);
    assert_eq!(code_of("2 ** 3"), vec![num("2"), num("3"), Instr::Pow]);
}

#[test]
fn compile_calls_constants_and_variables() {
    assert_eq!(
        code_of("atan2(1, PI) % log(tau)"),
        vec![
            num("1"),
            Instr::Const(Constant::Pi),
            Instr::Call2(Func2::Atan2),
            Instr::Const(Constant::Tau),
            Instr::Call1(Func1::Log10),
            Instr::Rem,
        ]
    );
    let mut ev = Evaluator::new();
    ev.set_variable("rate", 7);
    let p = ev.compile("rate / 2");
    assert_eq!(p.error, None);
    assert_eq!(p.code, vec![Instr::Var(7), num("2"), Instr::Div]);
}

#[test]
fn compile_error_messages() {
    let ev = Evaluator::new();
    assert_eq!(ev.compile("").error, Some(EvalError::InvalidExpression));
    assert_eq!(ev.compile("   ").error, Some(EvalError::InvalidExpression));
    assert_eq!(ev.compile("1 +").error, Some(EvalError::InvalidExpression));
    assert_eq!(ev.compile("xyz").error, Some(EvalError::UnknownVariable("xyz".to_string())));
    assert_eq!(ev.compile("foo(3)").error, Some(EvalError::UnknownFunction("foo".to_string())));
    assert_eq!(
        ev.compile("min(1)").error,
        Some(EvalError::ParseError("Function min expects 2 arguments, got 1".to_string()))
    );
    assert_eq!(
        ev.compile("sqrt()").error,
        Some(EvalError::ParseError("Function sqrt expects 1 argument, got 0".to_string()))
    );
    assert_eq!(
        ev.compile("(1 + 2").error,
        Some(EvalError::ParseError("Missing closing parenthesis".to_string()))
    );
    assert_eq!(
        ev.compile("max(1, 2").error,
        Some(EvalError::ParseError("Missing closing parenthesis".to_string()))
    );
    assert_eq!(
        ev.compile("1 2").error,
        Some(EvalError::ParseError("Unexpected token at position 1".to_string()))
    );
    assert_eq!(
        ev.compile("*3").error,
        Some(EvalError::ParseError("Unexpected token: Star".to_string()))
    );
    assert_eq!(
        ev.compile("(1, 2)").error,
        Some(EvalError::ParseError("Missing closing parenthesis".to_string()))
    );
    assert_eq!(
        ev.compile("1 # 2").error,
        Some(EvalError::ParseError("Unexpected character: #".to_string()))
    );
    assert_eq!(
        ev.compile("1.2.3").error,
        Some(EvalError::ParseError("Invalid number: 1.2.3".to_string()))
    );
}

#[test]
fn error_program_keeps_earlier_operations() {
    // The division by zero is met before the unknown name, so it is reported.
    let ev = Evaluator::new();
    let p = ev.compile("1 / 0 + nope");
    assert_eq!(p.code, vec![num("1"), num("0"), Instr::Div]);
    assert_eq!(p.error, Some(EvalError::UnknownVariable("nope".to_string())));
    assert_eq!(evaluate(&ev, "1 / 0 + nope"), Err(EvalError::DivisionByZero));
    // Here the unknown name comes first.
    assert_eq!(
        evaluate(&ev, "nope + 1 / 0"),
        Err(EvalError::UnknownVariable("nope".to_string()))
    );
    assert_eq!(evaluate(&ev, "foo(1 % 0)"), Err(EvalError::DivisionByZero));
}

#[test]
fn programs_leave_one_value() {
    for expr in ["1", "-(2 + 3) * 4 ^ 2", "max(1, min(2, 3)) + sqrt(4) / e", "2 ^ -1 ^ 2"] {
        let code = code_of(expr);
        let mut depth: i64 = 0;
        for ins in &code {
            let pops = match ins {
                Instr::Num(_) | Instr::Const(_) | Instr::Var(_) => 0,
                Instr::Neg | Instr::Call1(_) => 1,
                _ => 2,
            };
            assert!(depth >= pops);
            depth = depth - pops + 1;
        }
        assert_eq!(depth, 1, "{expr}");
    }
}

#[test]
fn variables_read_back_what_was_written() {
    let mut ev = Evaluator::new();
    assert_eq!(ev.get_variable("x"), None);
    ev.set_variable("x", 1);
    ev.set_variable("y", 2);
    ev.set_variable("x", 3);
    assert_eq!(ev.get_variable("x"), Some(3));
    assert_eq!(ev.get_variable("y"), Some(2));
    assert_eq!(ev.get_variable("X"), None);
    assert_eq!(Evaluator::default().get_variable("y"), None);
}

#[test]
fn whole_results_become_integers() {
    assert_eq!(eval("7 / 2 * 2"), Value::Integer(7));
    assert_eq!(eval("0.5 + 0.25"), Value::Float(0.75));
    assert_eq!(eval(".5 + 1."), Value::Float(1.5));
}

#[test]
fn error_messages_display() {
    assert_eq!(EvalError::DivisionByZero.to_string(), "Division by zero");
    assert_eq!(EvalError::InvalidExpression.to_string(), "Invalid expression");
    assert_eq!(EvalError::UnknownFunction("f".to_string()).to_string(), "Unknown function: f");
    assert_eq!(EvalError::UnknownVariable("v".to_string()).to_string(), "Unknown variable: v");
    assert_eq!(EvalError::ParseError("p".to_string()).to_string(), "Parse error: p");
}

#[test]
fn tokenize_fails_only_on_rejected_lexemes() {
    assert_eq!(tokenize("2 $ 3"), Err(EvalError::ParseError("Unexpected character: $".to_string())));
    assert_eq!(tokenize("1.2.3"), Err(EvalError::ParseError("Invalid number: 1.2.3".to_string())));
    assert_eq!(tokenize("x1.2.3"), Err(EvalError::ParseError("Invalid number: .2.3".to_string())));
    assert_eq!(tokenize("a + ."), Err(EvalError::ParseError("Invalid number: .".to_string())));
    assert!(tokenize("abc_1 + 2.5 ** (x, 3)").is_ok());
    assert!(tokenize("x1.2").is_ok());
}
