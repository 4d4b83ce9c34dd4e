use hhe_core::errors::ScriptError;
use hhe_core::lisp::basic;
use hhe_core::script::ScriptArg;
use rust_lisp::model::Value;

fn s(t: &str) -> ScriptArg {
    ScriptArg::Str(t.to_string())
}

fn fmt_ok(args: Vec<ScriptArg>) -> String {
    match basic::format(&args).unwrap() {
        ScriptArg::Str(t) => t,
        _ => panic!("expected a string"),
    }
}

#[test]
fn format_substitutes_strings_in_order() {
    assert_eq!(fmt_ok(vec![s("%s-%s"), s("a"), s("b")]), "a-b");
}

#[test]
fn format_without_specifiers_copies_the_text() {
    assert_eq!(fmt_ok(vec![s("plain text")]), "plain text");
}

#[test]
fn format_with_too_few_arguments_fails() {
    match basic::format(&vec![s("%s")]).unwrap_err() {
        ScriptError::MissingArgument { func, index } => {
            assert_eq!(func, "string/format");
            assert_eq!(index, 1);
        },
        _ => panic!("expected a missing-argument failure"),
    }
    match basic::format(&vec![s("%s %s"), s("one")]).unwrap_err() {
        ScriptError::MissingArgument { index, .. } => assert_eq!(index, 2),
        _ => panic!("expected a missing-argument failure"),
    }
}

#[test]
fn format_demands_strings_for_the_s_specifier() {
    match basic::format(&vec![s("%s"), ScriptArg::Int(3)]).unwrap_err() {
        ScriptError::WrongType { func, index, expected } => {
            assert_eq!(func, "string/format");
            assert_eq!(index, 1);
            assert_eq!(expected, "string");
        },
        _ => panic!("expected a wrong-type failure"),
    }
}

#[test]
fn double_percent_consumes_and_displays_an_argument() {
    assert_eq!(fmt_ok(vec![s("[%%]"), ScriptArg::Int(3)]), "[3]");
    assert_eq!(fmt_ok(vec![s("%%"), ScriptArg::Bool(true)]), "T");
    assert_eq!(fmt_ok(vec![s("%%"), ScriptArg::Bool(false)]), "F");
    // a string shown through the display specifier keeps its quotes
    assert_eq!(fmt_ok(vec![s("%%"), s("q")]), "\"q\"");
    assert_eq!(fmt_ok(vec![s("%%"), ScriptArg::Nil]), "NIL");
}

#[test]
fn double_percent_displays_opaque_values() {
    let f = ScriptArg::Other(Value::Float(1.5), "float".to_string());
    assert_eq!(fmt_ok(vec![s("%%"), f]), "1.5");
}

#[test]
fn trailing_percent_stands_for_itself() {
    assert_eq!(fmt_ok(vec![s("100%")]), "100%");
}

#[test]
fn unknown_specifier_drops_both_characters() {
    assert_eq!(fmt_ok(vec![s("a%zb")]), "ab");
}

#[test]
fn stringification_renders_simple_values() {
    let one = |a: ScriptArg| -> String {
        match basic::to_string(&vec![a]).unwrap() {
            ScriptArg::Str(t) => t,
            _ => panic!("expected a string"),
        }
    };
    assert_eq!(one(ScriptArg::Bool(true)), "true");
    assert_eq!(one(ScriptArg::Bool(false)), "false");
    assert_eq!(one(ScriptArg::Int(-5)), "-5");
    assert_eq!(one(ScriptArg::Int(0)), "0");
    assert_eq!(one(s("keep me")), "keep me");
    assert_eq!(one(ScriptArg::Nil), "nil");
    assert_eq!(one(ScriptArg::Sym("x".to_string())), "symbol");
    assert_eq!(one(ScriptArg::Other(Value::Float(0.25), "float".to_string())), "float");
}

#[test]
fn escape_resolves_the_named_characters() {
    let one = |t: &str| -> String {
        match basic::escape(&vec![s(t)]).unwrap() {
            ScriptArg::Str(r) => r,
            _ => panic!("expected a string"),
        }
    };
    assert_eq!(one("n"), "\n");
    assert_eq!(one("t"), "\t");
    assert_eq!(one("r"), "\r");
    assert_eq!(one("0"), "\0");
    assert_eq!(one("x"), "x");
    assert_eq!(one("nn"), "nn");
}

#[test]
fn specifiers_consume_arguments_in_order() {
    assert_eq!(
        fmt_ok(vec![s("%s=%%!"), s("a"), ScriptArg::Int(2)]),
        "a=2!"
    );
}
