//! The failures an operation can end in.

use vstd::prelude::*;

verus! {

/// Why an operation failed.
#[derive(Clone, Copy, Debug, PartialEq, Eq, Structural)]
pub enum ErrorKind {
    /// A device name or a size was refused before any tool ran.
    Validation,
    /// The device is not in the state the operation needs.
    Precondition,
    /// A required tool is not installed.
    ToolMissing,
    /// A tool ran and reported failure, or could not be run.
    ToolExecution,
    /// A tool did not finish within its time limit.
    Timeout,
    /// Something that should exist after a tool ran is absent.
    NotFound,
}

/// A failure with the text shown to the operator.
#[derive(Clone, Debug, PartialEq, Eq)]
pub struct OpError {
    pub kind: ErrorKind,
    pub message: String,
}

/// The mathematical content of an [`OpError`].
pub struct Failure {
    pub kind: ErrorKind,
    pub message: Seq<char>,
}

impl View for OpError {
    type V = Failure;

    open spec fn view(&self) -> Failure {
        Failure { kind: self.kind, message: self.message@ }
    }
}

/// The failure of the given kind and text.
pub open spec fn failure(kind: ErrorKind, message: Seq<char>) -> Failure {
    Failure { kind, message }
}

/// Builds the failure of the given kind and text.
pub fn fail(kind: ErrorKind, message: String) -> (e: OpError)
    ensures
        e@ == failure(kind, message@),
{
    OpError { kind, message }
}

/// The text `a` followed by `b`.
pub fn join2(a: &str, b: &str) -> (s: String)
    ensures
        s@ == a@ + b@,
{
    let mut s = String::from_str(a);
    s.append(b);
    s
}

/// The texts `a`, `b` and `c` in a row.
pub fn join3(a: &str, b: &str, c: &str) -> (s: String)
    ensures
        s@ == a@ + b@ + c@,
{
    let mut s = String::from_str(a);
    s.append(b);
    s.append(c);
    s
}

/// The texts `a`, `b`, `c` and `d` in a row.
pub fn join4(a: &str, b: &str, c: &str, d: &str) -> (s: String)
    ensures
        s@ == a@ + b@ + c@ + d@,
{
    let mut s = String::from_str(a);
    s.append(b);
    s.append(c);
    s.append(d);
    s
}

/// The texts `a`, `b`, `c`, `d` and `e` in a row.
pub fn join5(a: &str, b: &str, c: &str, d: &str, e: &str) -> (s: String)
    ensures
        s@ == a@ + b@ + c@ + d@ + e@,
{
    let mut s = String::from_str(a);
    s.append(b);
    s.append(c);
    s.append(d);
    s.append(e);
    s
}

} // verus!
