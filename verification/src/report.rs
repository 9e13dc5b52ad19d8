use vstd::prelude::*;
use crate::text::{c_string_bytes, decimal, has_nul, lossy_utf8, neki_to_string, push_decimal};
use crate::trio::Trio;

verus! {

/// A struct encapsulating information about a runtime script error.
#[derive(Clone, Debug)]
pub struct ErrorInfo {
    /// The error message.
    pub message: String,
    /// The file name.
    pub filename: String,
    /// The line number.
    pub lineno: u32,
    /// The column number.
    pub column: u32,
    /// The stack.
    pub stack: Option<String>,
}

/// The line that reports an uncaught exception: where it happened, then its message.
pub open spec fn formatted_error(info: ErrorInfo) -> Seq<char> {
    "Uncaught exception at "@ + info.filename@ + ":"@ + decimal(info.lineno as nat) + ":"@
        + decimal(info.column as nat) + " - "@ + info.message@
}

/// The message of an error that stands for an exception that could not be reported.
pub open spec fn failure_message(reason: Seq<char>) -> Seq<char> {
    "Failed with reporting exeption: "@ + reason
}

impl ErrorInfo {
    /// `Uncaught exception at FILE:LINE:COLUMN - MESSAGE`.
    pub fn format(self) -> (res: String)
        ensures
            res@ == formatted_error(self),
    {
        let mut out = String::from_str("Uncaught exception at ");
        out.append(self.filename.as_str());
        out.append(":");
        push_decimal(&mut out, self.lineno);
        out.append(":");
        push_decimal(&mut out, self.column);
        out.append(" - ");
        out.append(self.message.as_str());
        out
    }

    /// The error that stands for a pending exception that could not be
    /// fetched, with `x` saying why.
    pub fn gen_fail(x: String) -> (res: Self)
        ensures
            res.message@ == failure_message(x@),
            res.filename@ == Seq::<char>::empty(),
            res.lineno == 0,
            res.column == 0,
            res.stack is None,
    {
        let mut message = String::from_str("Failed with reporting exeption: ");
        message.append(x.as_str());
        ErrorInfo {
            message,
            filename: String::new(),
            lineno: 0,
            column: 0,
            stack: None,
        }
    }
}

/// What the engine's error report holds: its file name and message as the
/// bytes of C strings (each up to a NUL byte), and the position.
#[derive(Clone, Debug)]
pub struct ErrorReport {
    /// The bytes of the file name, or `None` where the report has none.
    pub filename: Option<Vec<u8>>,
    /// The line number.
    pub lineno: u32,
    /// The column number.
    pub column: u32,
    /// The bytes of the message.
    pub message: Vec<u8>,
}

/// What the engine has to say of a pending exception.
#[derive(Clone, Debug)]
pub enum PendingException {
    /// No exception is pending.
    Clear,
    /// An exception is pending, but its value could not be fetched.
    Unreadable,
    /// The exception is an error object with a report; `stack` is the
    /// stack captured after it was cleared.
    Report { report: ErrorReport, stack: String },
    /// The exception is some other value, shown as `value`.
    Thrown { value: String, stack: String },
}

/// The C strings of a report can be read: each holds a NUL byte.
pub open spec fn readable_pending(p: PendingException) -> bool {
    match p {
        PendingException::Report { report, stack } => {
            &&& has_nul(report.message@)
            &&& (report.filename matches Some(f) ==> has_nul(f@))
        },
        _ => true,
    }
}

/// The file name that a report shows: its C string, or `none` when it has none.
pub open spec fn report_filename(f: Option<Vec<u8>>) -> Seq<char> {
    match f {
        Some(b) => lossy_utf8(c_string_bytes(b@)),
        None => "none"@,
    }
}

/// The message that stands for a thrown value that is no error object.
pub open spec fn thrown_message(value: Seq<char>) -> Seq<char> {
    "Thrown value: "@ + value
}

/// The message given when the pending exception could not be fetched.
pub open spec fn unreadable_message() -> Seq<char> {
    "Uncaught exception: JS_GetPendingException failed"@
}

/// What a report of the pending exception `p` says.
pub open spec fn reported(p: PendingException, res: Trio<ErrorInfo, String>) -> bool {
    match p {
        PendingException::Clear => res is Empty,
        PendingException::Unreadable => res matches Trio::Error(m) && m@ == unreadable_message(),
        PendingException::Report { report, stack } => res matches Trio::Value(info) && {
            &&& info.filename@ == report_filename(report.filename)
            &&& info.message@ == lossy_utf8(c_string_bytes(report.message@))
            &&& info.lineno == report.lineno
            &&& info.column == report.column
            &&& info.stack matches Some(s) && s@ == stack@
        },
        PendingException::Thrown { value, stack } => res matches Trio::Value(info) && {
            &&& info.filename@ == Seq::<char>::empty()
            &&& info.message@ == thrown_message(value@)
            &&& info.lineno == 0
            &&& info.column == 0
            &&& info.stack matches Some(s) && s@ == stack@
        },
    }
}

/// Turns what the engine says of its pending exception into an error:
/// nothing when none is pending, an error message when it could not be
/// fetched, else the error with its file, position, message and stack.
pub fn report_pending_exception(pending: PendingException) -> (res: Trio<ErrorInfo, String>)
    requires
        readable_pending(pending),
    ensures
        reported(pending, res),
{
    match pending {
        PendingException::Clear => Trio::Empty,
        PendingException::Unreadable => Trio::Error(
            String::from_str("Uncaught exception: JS_GetPendingException failed"),
        ),
        PendingException::Report { report, stack } => {
            let filename = match &report.filename {
                Some(f) => neki_to_string(f.as_slice()),
                None => String::from_str("none"),
            };
            let message = neki_to_string(report.message.as_slice());
            Trio::Value(
                ErrorInfo {
                    message,
                    filename,
                    lineno: report.lineno,
                    column: report.column,
                    stack: Some(stack),
                },
            )
        },
        PendingException::Thrown { value, stack } => {
            let mut message = String::from_str("Thrown value: ");
            message.append(value.as_str());
            Trio::Value(
                ErrorInfo {
                    message,
                    filename: String::new(),
                    lineno: 0,
                    column: 0,
                    stack: Some(stack),
                },
            )
        },
    }
}

} // verus!
