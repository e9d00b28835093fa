//! Trace lines.
use vstd::prelude::*;

verus! {

/// The context that a trace line names: the operation or test it comes from.
pub type LogContext = &'static str;

/// The trace line for `msg` in `log_context`: the context, a colon and a space,
/// then the message.
pub fn trace(log_context: &LogContext, msg: &str) -> (r: String)
    ensures
        r@ == (*log_context)@ + ": "@ + msg@,
{
    String::from_str(*log_context).concat(": ").concat(msg)
}

} // verus!
