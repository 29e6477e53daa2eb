use vstd::prelude::*;

verus! {

/// What could be read of the trace of a failed native call.
pub enum Traceback {
    /// The error carried no trace.
    Missing,
    /// It carried one, but the trace could not be formatted.
    Unformattable,
    /// The formatted trace.
    Text(String),
}

/// The error's message, or `<?>` where it could not be read as text.
pub open spec fn message_text(value: Option<Seq<char>>) -> Seq<char> {
    match value {
        Some(s) => s,
        None => "<?>"@,
    }
}

pub open spec fn traceback_text(tb: Traceback) -> Seq<char> {
    match tb {
        Traceback::Missing => " - "@,
        Traceback::Unformattable => " <-> "@,
        Traceback::Text(s) => s@,
    }
}

/// The full report of a failed native call, as it is logged.
pub open spec fn error_report(value: Option<Seq<char>>, tb: Traceback) -> Seq<char> {
    "Error: "@ + message_text(value) + "\nTraceback: "@ + traceback_text(tb)
}

/// The full report of a failed native call, for the log: its message (`None`
/// where it could not be read as text) and its trace.
pub fn format_error(value: Option<&str>, traceback: &Traceback) -> (r: String)
    ensures
        r@ == error_report(
            match value {
                Some(v) => Some(v@),
                None => None,
            },
            *traceback,
        ),
{
    let mut r = String::from_str("Error: ");
    match value {
        Some(v) => r.append(v),
        None => r.append("<?>"),
    }
    r.append("\nTraceback: ");
    match traceback {
        Traceback::Missing => r.append(" - "),
        Traceback::Unformattable => r.append(" <-> "),
        Traceback::Text(s) => r.append(s.as_str()),
    }
    r
}

/// The terse message handed to the caller of a failed native call: the
/// error's message, or `<?>` where it could not be read as text.
pub fn caller_message(value: Option<String>) -> (r: String)
    ensures
        r@ == message_text(
            match value {
                Some(v) => Some(v@),
                None => None,
            },
        ),
{
    match value {
        Some(v) => v,
        None => String::from_str("<?>"),
    }
}

} // verus!
