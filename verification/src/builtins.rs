use vstd::prelude::*;
use crate::text::{parse_u64, parsed_u64, same_text};

verus! {

/// What the shell's `input()` hands back for a line that was typed.
#[derive(Clone, Debug)]
pub enum InputValue {
    /// The line reads as a floating-point number (checked by the caller).
    Float,
    /// The line reads as an unsigned 64-bit integer.
    Int(u64),
    /// The line is `true` or `false`.
    Bool(bool),
    /// Any other line, as it is.
    Text(String),
}

/// The value that `input()` gives for the trimmed `line`, of which the caller
/// has found whether it reads as a floating-point number: a number first,
/// then an unsigned integer, then a boolean, else the text itself.
pub open spec fn input_value(line: Seq<char>, is_float: bool, v: InputValue) -> bool {
    if is_float {
        v is Float
    } else if parsed_u64(line) is Some {
        v == InputValue::Int(parsed_u64(line)->0)
    } else if line == "true"@ {
        v == InputValue::Bool(true)
    } else if line == "false"@ {
        v == InputValue::Bool(false)
    } else {
        v matches InputValue::Text(t) && t@ == line
    }
}

/// Sorts a trimmed line typed at `input()` into the kind of value it stands for.
pub fn classify_input(line: &str, is_float: bool) -> (v: InputValue)
    ensures
        input_value(line@, is_float, v),
{
    if is_float {
        return InputValue::Float;
    }
    match parse_u64(line) {
        Some(n) => InputValue::Int(n),
        None => {
            if same_text(line, "true") {
                InputValue::Bool(true)
            } else if same_text(line, "false") {
                InputValue::Bool(false)
            } else {
                InputValue::Text(String::from_str(line))
            }
        },
    }
}

/// How `print()` treats a call.
#[derive(Clone, Copy, Debug)]
pub enum PrintPlan {
    /// The call has a wrong number of arguments and is refused with an error.
    Refuse,
    /// The first argument is printed, followed by a newline or not.
    Print { newline: bool },
}

/// The plan of `print()` for a call with `argc` arguments, where the second
/// argument shows as `second_text` and is truthy or not: one or two
/// arguments, with a newline unless a second argument is given, shows as
/// non-empty text and is falsy.
pub open spec fn print_plan_of(argc: u32, second_text: Seq<char>, second_truthy: bool) -> PrintPlan {
    if argc != 1 && argc != 2 {
        PrintPlan::Refuse
    } else if second_text.len() == 0 || argc != 2 {
        PrintPlan::Print { newline: true }
    } else {
        PrintPlan::Print { newline: second_truthy }
    }
}

/// Decides what `print()` does with its arguments.
pub fn print_plan(argc: u32, second_text: &str, second_truthy: bool) -> (p: PrintPlan)
    ensures
        p == print_plan_of(argc, second_text@, second_truthy),
        (argc != 1 && argc != 2) <==> p is Refuse,
        argc == 1 ==> p == (PrintPlan::Print { newline: true }),
        argc == 2 && second_text@.len() == 0 ==> p == (PrintPlan::Print { newline: true }),
        argc == 2 && second_text@.len() > 0 ==> p == (PrintPlan::Print { newline: second_truthy }),
{
    if argc != 1 && argc != 2 {
        PrintPlan::Refuse
    } else if second_text.unicode_len() == 0 || argc != 2 {
        PrintPlan::Print { newline: true }
    } else {
        PrintPlan::Print { newline: second_truthy }
    }
}

/// `print()` refuses exactly the calls with other than one or two
/// arguments; with one argument, or a second that shows as empty text, it
/// ends the line; otherwise it ends the line exactly when the second argument
/// is truthy, whatever its text.
pub proof fn lemma_print_newline(argc: u32, second_text: Seq<char>, second_truthy: bool)
    ensures
        (argc != 1 && argc != 2) <==> print_plan_of(argc, second_text, second_truthy) is Refuse,
        argc == 1 ==> print_plan_of(argc, second_text, second_truthy) == (PrintPlan::Print { newline: true }),
        argc == 2 && second_text.len() == 0 ==> print_plan_of(argc, second_text, second_truthy)
            == (PrintPlan::Print { newline: true }),
        argc == 2 && second_text.len() > 0 ==> print_plan_of(argc, second_text, second_truthy)
            == (PrintPlan::Print { newline: second_truthy }),
{
}

} // verus!
