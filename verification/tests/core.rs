use waxe::builtins::{classify_input, print_plan, InputValue, PrintPlan};
use waxe::options::{jit_option, JSOptions, JIT_RESET, JIT_ZERO};
use waxe::outcome::{eval_outcome, runtime_outcome, ScriptResult};
use waxe::report::{report_pending_exception, ErrorInfo, ErrorReport, PendingException};
use waxe::text::{first_nul, neki_to_string, parse_u64, push_decimal, same_text, trim_line, white_space};
use waxe::trio::Trio;

#[test]
fn it_works() {
    assert_eq!(2 + 2, 4);
}

fn info(message: &str, filename: &str, lineno: u32, column: u32) -> ErrorInfo {
    ErrorInfo {
        message: message.to_string(),
        filename: filename.to_string(),
        lineno,
        column,
        stack: None,
    }
}

#[test]
fn trio_ok_keeps_only_values() {
    assert_eq!(Trio::<u32, String>::Value(7).ok(), Some(7));
    assert_eq!(Trio::<u32, String>::Empty.ok(), None);
    assert_eq!(Trio::<u32, String>::Error("bad".to_string()).ok(), None);
}

#[test]
fn format_shows_place_and_message() {
    let e = info("x is not defined", "typein", 3, 12);
    assert_eq!(e.format(), "Uncaught exception at typein:3:12 - x is not defined");
    let e = info("m", "", 0, 4294967295);
    assert_eq!(e.format(), "Uncaught exception at :0:4294967295 - m");
}

#[test]
fn decimal_notation() {
    let mut s = String::from("n=");
    push_decimal(&mut s, 0);
    assert_eq!(s, "n=0");
    let mut s = String::new();
    push_decimal(&mut s, 1234567890);
    assert_eq!(s, "1234567890");
    let mut s = String::new();
    push_decimal(&mut s, 10);
    assert_eq!(s, "10");
}

#[test]
fn gen_fail_wraps_reason() {
    let e = ErrorInfo::gen_fail("boom".to_string());
    assert_eq!(e.message, "Failed with reporting exeption: boom");
    assert_eq!(e.filename, "");
    assert_eq!(e.lineno, 0);
    assert_eq!(e.column, 0);
    assert!(e.stack.is_none());
}

#[test]
fn c_strings_end_at_first_nul() {
    assert_eq!(first_nul(b"ab\0cd\0"), 2);
    assert_eq!(neki_to_string(b"JavaScript-C67.0.3\0garbage"), "JavaScript-C67.0.3");
    assert_eq!(neki_to_string(b"\0"), "");
    assert_eq!(neki_to_string(b"a\xffb\0"), "a\u{fffd}b");
    assert_eq!(neki_to_string("ĳ€\0".as_bytes()), "ĳ€");
}

#[test]
fn pending_exception_reports() {
    assert!(matches!(report_pending_exception(PendingException::Clear), Trio::Empty));
    match report_pending_exception(PendingException::Unreadable) {
        Trio::Error(m) => assert_eq!(m, "Uncaught exception: JS_GetPendingException failed"),
        _ => panic!("expected an error"),
    }
    let report = ErrorReport {
        filename: Some(b"typein\0".to_vec()),
        lineno: 5,
        column: 9,
        message: b"SyntaxError: missing ; before statement\0".to_vec(),
    };
    match report_pending_exception(PendingException::Report { report, stack: "@typein:5:9".to_string() }) {
        Trio::Value(i) => {
            assert_eq!(i.filename, "typein");
            assert_eq!(i.message, "SyntaxError: missing ; before statement");
            assert_eq!(i.lineno, 5);
            assert_eq!(i.column, 9);
            assert_eq!(i.stack.as_deref(), Some("@typein:5:9"));
        }
        _ => panic!("expected a report"),
    }
    let report = ErrorReport { filename: None, lineno: 1, column: 2, message: b"oops\0".to_vec() };
    match report_pending_exception(PendingException::Report { report, stack: String::new() }) {
        Trio::Value(i) => {
            assert_eq!(i.filename, "none");
            assert_eq!(i.message, "oops");
        }
        _ => panic!("expected a report"),
    }
    match report_pending_exception(PendingException::Thrown {
        value: "42".to_string(),
        stack: "s".to_string(),
    }) {
        Trio::Value(i) => {
            assert_eq!(i.message, "Thrown value: 42");
            assert_eq!(i.filename, "");
            assert_eq!((i.lineno, i.column), (0, 0));
            assert_eq!(i.stack.as_deref(), Some("s"));
        }
        _ => panic!("expected a report"),
    }
}

#[test]
fn evaluation_outcomes() {
    assert!(matches!(eval_outcome(ScriptResult::Value("3".to_string())), Trio::Value(ref s) if s == "3"));
    assert!(matches!(eval_outcome(ScriptResult::Undefined), Trio::Empty));
    assert!(matches!(eval_outcome(ScriptResult::Threw(Trio::Empty)), Trio::Error(None)));
    match eval_outcome(ScriptResult::Threw(Trio::Error("why".to_string()))) {
        Trio::Error(Some(i)) => assert_eq!(i.message, "Failed with reporting exeption: why"),
        _ => panic!("expected an error"),
    }
    match eval_outcome(ScriptResult::Threw(Trio::Value(info("m", "f", 1, 2)))) {
        Trio::Error(Some(i)) => assert_eq!(i.message, "m"),
        _ => panic!("expected an error"),
    }
}

#[test]
fn runtime_shows_errors_as_text() {
    assert!(matches!(runtime_outcome(Trio::Value("v".to_string())), Trio::Value(ref s) if s == "v"));
    assert!(matches!(runtime_outcome(Trio::Empty), Trio::Empty));
    assert!(matches!(runtime_outcome(Trio::Error(None)), Trio::Error(ref s) if s.is_empty()));
    assert!(matches!(runtime_outcome(Trio::Error(Some(info("m", "f", 1, 2)))),
        Trio::Error(ref s) if s == "Uncaught exception at f:1:2 - m"));
}

#[test]
fn failed_report_is_shown_at_zero() {
    let shown = runtime_outcome(eval_outcome(ScriptResult::Threw(Trio::Error("r".to_string()))));
    assert!(matches!(shown,
        Trio::Error(ref s) if s == "Uncaught exception at :0:0 - Failed with reporting exeption: r"));
}

#[test]
fn default_options_enable_everything() {
    let s = JSOptions::default().settings();
    assert!(s.asm_js && s.wasm && s.wasm_baseline && s.wasm_ion && s.install_build_id);
    assert!(s.parallel_parsing && s.offthread_ion_compilation);
    assert!(!s.extra_warnings && !s.werror);
    assert_eq!(s.baseline_warmup_trigger, u32::MAX);
    assert_eq!(s.ion_full_warmup_trigger, u32::MAX);
    assert_eq!(s.baseline_enable, 0);
    assert_eq!(s.ion_enable, 0);
    assert_eq!(s.native_regexp_enable, 0);
}

#[test]
fn each_option_sets_its_setting() {
    let mut o = JSOptions::default();
    o.disable_wasm = true;
    o.enable_strict = true;
    o.enable_werror = true;
    o.disable_ion = true;
    o.enable_baseline_unsafe_eager_compilation = true;
    let s = o.settings();
    assert!(!s.wasm && !s.install_build_id);
    assert!(s.wasm_baseline && s.wasm_ion && s.asm_js);
    assert!(s.extra_warnings && s.werror);
    assert_eq!(s.ion_enable, u32::MAX);
    assert_eq!(s.baseline_enable, 0);
    assert_eq!(s.baseline_warmup_trigger, 0);
    assert_eq!(s.ion_full_warmup_trigger, u32::MAX);
    assert_eq!(JIT_RESET, (-1i32) as u32);
    assert_eq!(jit_option(true), JIT_ZERO);
    assert_eq!(jit_option(false), JIT_RESET);
}

#[test]
fn wasm_build_id_follows_wasm() {
    for disable in [false, true] {
        let mut o = JSOptions::default();
        o.disable_wasm = disable;
        let s = o.settings();
        assert_eq!(s.install_build_id, s.wasm);
    }
}

#[test]
fn trimming_lines() {
    assert_eq!(trim_line("  42 \n"), "42");
    assert_eq!(trim_line("\t\u{3000}a b\u{a0}"), "a b");
    assert_eq!(trim_line("   "), "");
    assert_eq!(trim_line(""), "");
    assert_eq!(trim_line(&trim_line(" x ")), trim_line(" x "));
    assert!(white_space('\u{85}'));
    assert!(!white_space('x'));
    for c in ['\t', '\n', ' ', '\u{2000}', '\u{200a}', '\u{2028}', '\u{205f}', 'a', '\u{200b}', '0'] {
        assert_eq!(white_space(c), c.is_whitespace());
    }
}

#[test]
fn reading_unsigned_numbers() {
    assert_eq!(parse_u64("0"), Some(0));
    assert_eq!(parse_u64("+17"), Some(17));
    assert_eq!(parse_u64("18446744073709551615"), Some(u64::MAX));
    assert_eq!(parse_u64("18446744073709551616"), None);
    assert_eq!(parse_u64("99999999999999999999x"), None);
    assert_eq!(parse_u64(""), None);
    assert_eq!(parse_u64("+"), None);
    assert_eq!(parse_u64("-1"), None);
    assert_eq!(parse_u64("1 2"), None);
    for s in ["007", "+0", "123456789012", "++1", "1e3"] {
        assert_eq!(parse_u64(s), s.parse::<u64>().ok());
    }
}

#[test]
fn decimal_reads_back() {
    for n in [0u32, 9, 10, 65535, u32::MAX] {
        let mut s = String::new();
        push_decimal(&mut s, n);
        assert_eq!(parse_u64(&s), Some(n as u64));
    }
}

#[test]
fn comparing_text() {
    assert!(same_text("true", "true"));
    assert!(!same_text("true", "True"));
    assert!(!same_text("tru", "true"));
    assert!(same_text("", ""));
}

#[test]
fn input_values() {
    assert!(matches!(classify_input("1.5", true), InputValue::Float));
    assert!(matches!(classify_input("12", false), InputValue::Int(12)));
    assert!(matches!(classify_input("true", false), InputValue::Bool(true)));
    assert!(matches!(classify_input("false", false), InputValue::Bool(false)));
    assert!(matches!(classify_input("samo", false), InputValue::Text(ref t) if t == "samo"));
    assert!(matches!(classify_input("", false), InputValue::Text(ref t) if t.is_empty()));
}

#[test]
fn print_arguments() {
    assert!(matches!(print_plan(0, "", false), PrintPlan::Refuse));
    assert!(matches!(print_plan(3, "x", true), PrintPlan::Refuse));
    assert!(matches!(print_plan(1, "undefined", false), PrintPlan::Print { newline: true }));
    assert!(matches!(print_plan(2, "false", false), PrintPlan::Print { newline: false }));
    assert!(matches!(print_plan(2, "true", true), PrintPlan::Print { newline: true }));
    assert!(matches!(print_plan(2, "", false), PrintPlan::Print { newline: true }));
}
