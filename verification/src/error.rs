//! The error type of the engine.
use vstd::prelude::*;

verus! {

/// Why a call into the engine failed.
#[derive(Debug, Clone)]
pub enum AfterburnerError {
    /// The engine itself refused or failed; the text says why.
    Engine(String),
    /// A host function failed; the text says why.
    Host(String),
    /// A capability that the manifold withholds was asked for.
    PermissionDenied(String),
    /// The script does not compile.
    CompileFailed(String),
    /// No script is registered under the id that was given.
    ScriptNotFound,
    /// The guest trapped.
    WasmTrap(String),
    /// The wall-clock limit passed.
    Timeout,
    /// The fuel budget ran out.
    FuelExhausted,
    /// The linear memory limit was hit.
    MemoryLimit,
    /// The script wrote more output than the cap.
    OutputTooLarge(u64),
    /// The script called `process.exit` with this code.
    ProcessExit(i32),
}

/// [`AfterburnerError`] with its texts as character sequences.
pub enum ErrorView {
    Engine(Seq<char>),
    Host(Seq<char>),
    PermissionDenied(Seq<char>),
    CompileFailed(Seq<char>),
    ScriptNotFound,
    WasmTrap(Seq<char>),
    Timeout,
    FuelExhausted,
    MemoryLimit,
    OutputTooLarge(u64),
    ProcessExit(i32),
}

impl View for AfterburnerError {
    type V = ErrorView;

    open spec fn view(&self) -> ErrorView {
        match self {
            AfterburnerError::Engine(s) => ErrorView::Engine(s@),
            AfterburnerError::Host(s) => ErrorView::Host(s@),
            AfterburnerError::PermissionDenied(s) => ErrorView::PermissionDenied(s@),
            AfterburnerError::CompileFailed(s) => ErrorView::CompileFailed(s@),
            AfterburnerError::ScriptNotFound => ErrorView::ScriptNotFound,
            AfterburnerError::WasmTrap(s) => ErrorView::WasmTrap(s@),
            AfterburnerError::Timeout => ErrorView::Timeout,
            AfterburnerError::FuelExhausted => ErrorView::FuelExhausted,
            AfterburnerError::MemoryLimit => ErrorView::MemoryLimit,
            AfterburnerError::OutputTooLarge(limit) => ErrorView::OutputTooLarge(*limit),
            AfterburnerError::ProcessExit(code) => ErrorView::ProcessExit(*code),
        }
    }
}

/// Every error is seen as what it is.
pub proof fn errors_are_seen_as_they_are(e: AfterburnerError)
    ensures
        e matches AfterburnerError::Engine(s) ==> e@ == ErrorView::Engine(s@),
        e matches AfterburnerError::Host(s) ==> e@ == ErrorView::Host(s@),
        e matches AfterburnerError::PermissionDenied(s) ==> e@ == ErrorView::PermissionDenied(s@),
        e matches AfterburnerError::CompileFailed(s) ==> e@ == ErrorView::CompileFailed(s@),
        e is ScriptNotFound <==> e@ == ErrorView::ScriptNotFound,
        e matches AfterburnerError::WasmTrap(s) ==> e@ == ErrorView::WasmTrap(s@),
        e is Timeout <==> e@ == ErrorView::Timeout,
        e is FuelExhausted <==> e@ == ErrorView::FuelExhausted,
        e is MemoryLimit <==> e@ == ErrorView::MemoryLimit,
        e matches AfterburnerError::OutputTooLarge(n) ==> e@ == ErrorView::OutputTooLarge(n),
        e matches AfterburnerError::ProcessExit(n) ==> e@ == ErrorView::ProcessExit(n),
{
}

} // verus!
