//! Outcomes of calls that are made under crash protection.

use vstd::prelude::*;

verus! {

/// How a plugin crashed.
#[derive(Debug, PartialEq, Eq)]
pub struct CrashInfo {
    /// The signal that stopped the call.
    pub signal: i32,
    /// The name of that signal.
    pub signal_name: String,
}

/// The outcome of a protected call.
#[derive(Debug, PartialEq, Eq)]
pub enum SandboxResult<T> {
    /// The call returned.
    Returned(T),
    /// A signal stopped the call.
    Crashed(CrashInfo),
    /// The call panicked, with this message.
    Panicked(String),
}

impl<T> SandboxResult<T> {
    /// The call returned.
    pub fn is_ok(&self) -> (b: bool)
        ensures
            b == (self is Returned),
    {
        match self {
            SandboxResult::Returned(_) => true,
            _ => false,
        }
    }

    /// A signal stopped the call.
    pub fn is_crashed(&self) -> (b: bool)
        ensures
            b == (self is Crashed),
    {
        match self {
            SandboxResult::Crashed(_) => true,
            _ => false,
        }
    }

    /// The call panicked.
    pub fn is_panicked(&self) -> (b: bool)
        ensures
            b == (self is Panicked),
    {
        match self {
            SandboxResult::Panicked(_) => true,
            _ => false,
        }
    }

    /// What the call returned.
    pub fn unwrap(self) -> (value: T)
        requires
            self is Returned,
        ensures
            self == SandboxResult::Returned(value),
    {
        match self {
            SandboxResult::Returned(value) => value,
            _ => vstd::pervasive::unreached(),
        }
    }
}

} // verus!
