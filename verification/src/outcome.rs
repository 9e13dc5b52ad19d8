use vstd::prelude::*;
use crate::report::{ErrorInfo, failure_message, formatted_error};
use crate::trio::Trio;

verus! {

/// How running a script in the engine ended.
#[derive(Clone, Debug)]
pub enum ScriptResult {
    /// It completed with a value, shown as this text.
    Value(String),
    /// It completed with `undefined`.
    Undefined,
    /// It threw; this is the report of the pending exception.
    Threw(Trio<ErrorInfo, String>),
}

/// `res` is what the engine's evaluation gives for `result`: the value's
/// text, nothing for `undefined`, else the reported error (a stand-in error
/// when the report failed, none when nothing was pending).
pub open spec fn evaluated(result: ScriptResult, res: Trio<String, Option<ErrorInfo>>) -> bool {
    match result {
        ScriptResult::Value(s) => res == Trio::<String, Option<ErrorInfo>>::Value(s),
        ScriptResult::Undefined => res is Empty,
        ScriptResult::Threw(Trio::Value(info)) => res == Trio::<String, Option<ErrorInfo>>::Error(Some(info)),
        ScriptResult::Threw(Trio::Error(why)) => res matches Trio::Error(Some(info)) && {
            &&& info.message@ == failure_message(why@)
            &&& info.filename@ == Seq::<char>::empty()
            &&& info.lineno == 0
            &&& info.column == 0
            &&& info.stack is None
        },
        ScriptResult::Threw(Trio::Empty) => res == Trio::<String, Option<ErrorInfo>>::Error(None),
    }
}

/// The outcome of evaluating a script, from how the engine's run of it ended.
pub fn eval_outcome(result: ScriptResult) -> (res: Trio<String, Option<ErrorInfo>>)
    ensures
        evaluated(result, res),
{
    match result {
        ScriptResult::Value(s) => Trio::Value(s),
        ScriptResult::Undefined => Trio::Empty,
        ScriptResult::Threw(report) => match report {
            Trio::Value(x) => Trio::Error(Some(x)),
            Trio::Error(x) => Trio::Error(Some(ErrorInfo::gen_fail(x))),
            Trio::Empty => Trio::Error(None),
        },
    }
}

/// The texts of a result of strings.
pub open spec fn texts(t: Trio<String, String>) -> Trio<Seq<char>, Seq<char>> {
    match t {
        Trio::Value(s) => Trio::Value(s@),
        Trio::Empty => Trio::Empty,
        Trio::Error(e) => Trio::Error(e@),
    }
}

/// What the runtime shows of an evaluation: the value, nothing, the
/// formatted error, or an empty error text when there was no error to show.
pub open spec fn shown(t: Trio<String, Option<ErrorInfo>>) -> Trio<Seq<char>, Seq<char>> {
    match t {
        Trio::Value(s) => Trio::Value(s@),
        Trio::Empty => Trio::Empty,
        Trio::Error(Some(info)) => Trio::Error(formatted_error(info)),
        Trio::Error(None) => Trio::Error(Seq::empty()),
    }
}

/// What the runtime hands back of an evaluation: errors become their text.
pub fn runtime_outcome(t: Trio<String, Option<ErrorInfo>>) -> (res: Trio<String, String>)
    ensures
        texts(res) == shown(t),
{
    match t {
        Trio::Value(x) => Trio::Value(x),
        Trio::Empty => Trio::Empty,
        Trio::Error(x) => {
            if let Some(i) = x {
                Trio::Error(i.format())
            } else {
                Trio::Error(String::new())
            }
        },
    }
}

/// What the shell shows for each way a script can end: a value is shown as
/// it is, `undefined` shows nothing, a reported error shows as
/// `Uncaught exception at FILE:LINE:COLUMN - MESSAGE`, a failed report shows
/// as an uncaught exception at `:0:0` with the reason, and a failure with
/// nothing pending shows an empty error.
pub proof fn lemma_shown_for_result(
    result: ScriptResult,
    mid: Trio<String, Option<ErrorInfo>>,
    out: Trio<String, String>,
)
    requires
        evaluated(result, mid),
        texts(out) == shown(mid),
    ensures
        texts(out) == match result {
            ScriptResult::Value(s) => Trio::Value(s@),
            ScriptResult::Undefined => Trio::Empty,
            ScriptResult::Threw(Trio::Value(info)) => Trio::Error(formatted_error(info)),
            ScriptResult::Threw(Trio::Error(why)) => Trio::Error(
                "Uncaught exception at "@ + ":"@ + "0"@ + ":"@ + "0"@ + " - "@ + failure_message(why@),
            ),
            ScriptResult::Threw(Trio::Empty) => Trio::<Seq<char>, Seq<char>>::Error(Seq::empty()),
        },
{
    reveal_strlit("0");
    if let ScriptResult::Threw(Trio::Error(why)) = result {
        if let Trio::Error(Some(info)) = mid {
            assert(crate::text::decimal(0) == seq!['0']);
            assert(info.filename@ =~= Seq::<char>::empty());
            assert(formatted_error(info) =~= "Uncaught exception at "@ + ":"@ + "0"@ + ":"@ + "0"@ + " - "@ + failure_message(why@));
        }
    }
}

} // verus!
