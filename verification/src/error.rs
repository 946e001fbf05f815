//! Errors of plugin operations and the texts that they carry.

use vstd::prelude::*;
use vstd::string::*;

use crate::text;

verus! {

/// What went wrong with a plugin.
#[derive(Debug, PartialEq, Eq)]
pub enum Vst3Error {
    /// The plugin, or the factory that it comes from, failed.
    Factory(String),
}

impl View for Vst3Error {
    type V = Seq<char>;

    open spec fn view(&self) -> Seq<char> {
        match self {
            Vst3Error::Factory(text) => text@,
        }
    }
}

/// The text about a plugin that took down the call that it was in.
pub open spec fn crashed_text(name: Seq<char>, phase: Seq<char>, signal: Seq<char>) -> Seq<char> {
    "Plugin '"@ + name + "' crashed during "@ + phase + " ("@ + signal + ")"@
}

/// The text about a plugin that panicked in a call.
pub open spec fn panicked_text(name: Seq<char>, phase: Seq<char>, panic: Seq<char>) -> Seq<char> {
    "Plugin '"@ + name + "' panicked during "@ + phase + ": "@ + panic
}

/// The text about a call that returned a failure code.
pub open spec fn failed_text(call: Seq<char>, name: Seq<char>, code: i32) -> Seq<char> {
    call + " failed for '"@ + name + "' (result: "@ + text::decimal(code as int) + ")"@
}

/// The error of every operation on a plugin that has crashed before.
pub fn already_crashed() -> (e: Vst3Error)
    ensures
        e@ == "Plugin has crashed"@,
{
    Vst3Error::Factory(String::from_str("Plugin has crashed"))
}

/// The error of a call that crashed.
pub fn crashed(name: &str, phase: &str, signal: &str) -> (e: Vst3Error)
    ensures
        e@ == crashed_text(name@, phase@, signal@),
{
    let mut s: String = String::from_str("Plugin '");
    s.append(name);
    s.append("' crashed during ");
    s.append(phase);
    s.append(" (");
    s.append(signal);
    s.append(")");
    Vst3Error::Factory(s)
}

/// The error of a call that panicked.
pub fn panicked(name: &str, phase: &str, panic: &str) -> (e: Vst3Error)
    ensures
        e@ == panicked_text(name@, phase@, panic@),
{
    let mut s: String = String::from_str("Plugin '");
    s.append(name);
    s.append("' panicked during ");
    s.append(phase);
    s.append(": ");
    s.append(panic);
    Vst3Error::Factory(s)
}

/// The error of a call that returned a failure code.
pub fn failed(call: &str, name: &str, code: i32) -> (e: Vst3Error)
    ensures
        e@ == failed_text(call@, name@, code),
{
    let mut s: String = String::from_str(call);
    s.append(" failed for '");
    s.append(name);
    s.append("' (result: ");
    text::push_decimal(&mut s, code as i64);
    s.append(")");
    Vst3Error::Factory(s)
}

/// What the errors say, in terms of the plugin and what it was asked.
pub proof fn lemma_error_texts(
    name: Seq<char>,
    phase: Seq<char>,
    signal: Seq<char>,
    panic: Seq<char>,
    call: Seq<char>,
    code: i32,
)
    ensures
        crashed_text(name, phase, signal) == "Plugin '"@ + name + "' crashed during "@ + phase
            + " ("@ + signal + ")"@,
        panicked_text(name, phase, panic) == "Plugin '"@ + name + "' panicked during "@ + phase
            + ": "@ + panic,
        failed_text(call, name, code) == call + " failed for '"@ + name + "' (result: "@
            + text::decimal(code as int) + ")"@,
{
}

} // verus!
