//! The macro tools' inputs and outputs, and the messages they answer with.
use crate::text::{decimal, push_decimal};
use vstd::prelude::*;
use vstd::string::*;

verus! {

/// Input for the `record_macro` tool.
#[derive(Debug, Clone)]
pub struct RecordMacroInput {
    /// Name for the new macro
    pub name: String,
}

/// Output for the `record_macro` tool.
#[derive(Debug, Clone)]
pub struct RecordMacroOutput {
    /// Session ID for recording
    pub session_id: String,
    /// Message for the user
    pub message: String,
}

/// Input for the `stop_recording` tool.
#[derive(Debug, Clone)]
pub struct StopRecordingInput {
    /// Session ID from `record_macro`
    pub session_id: String,
    /// Whether to optimize the recorded actions
    pub optimize: bool,
}

/// Output for the `stop_recording` tool.
#[derive(Debug, Clone)]
pub struct StopRecordingOutput {
    /// ID of the saved macro
    pub macro_id: String,
    /// Name of the saved macro
    pub name: String,
    /// Number of actions recorded
    pub action_count: usize,
    /// Message for the user
    pub message: String,
}

/// Input for the `play_macro` tool.
#[derive(Debug, Clone)]
pub struct PlayMacroInput {
    /// ID or name of the macro to play
    pub identifier: String,
    /// Whether to use name instead of ID
    pub by_name: bool,
}

/// Input for the `delete_macro` tool.
#[derive(Debug, Clone)]
pub struct DeleteMacroInput {
    /// ID of the macro to delete
    pub macro_id: String,
}

/// Output for the `delete_macro` tool.
#[derive(Debug, Clone)]
pub struct DeleteMacroOutput {
    /// Whether the macro was deleted
    pub deleted: bool,
    /// Message for the user
    pub message: String,
}

/// The answer to `record_macro` once a recording session was opened.
pub fn record_macro_output(name: &str, session_id: String) -> (r: RecordMacroOutput)
    ensures
        r.session_id == session_id,
        r.message@ == "Started recording macro '"@ + name@ + "'"@,
{
    let message = String::from_str("Started recording macro '").concat(name).concat("'");
    RecordMacroOutput { session_id, message }
}

/// The message of `stop_recording` for a saved macro.
pub open spec fn stop_message(name: Seq<char>, action_count: nat, optimize: bool) -> Seq<char> {
    (if optimize {
        "Saved optimized macro '"@
    } else {
        "Saved macro '"@
    }) + name + "' with "@ + decimal(action_count) + " action(s)"@
}

/// The answer to `stop_recording` once the macro was saved.
pub fn stop_recording_output(macro_id: String, name: String, action_count: usize, optimize: bool) -> (r:
    StopRecordingOutput)
    ensures
        r.macro_id == macro_id,
        r.name == name,
        r.action_count == action_count,
        r.message@ == stop_message(name@, action_count as nat, optimize),
{
    let mut message = if optimize {
        String::from_str("Saved optimized macro '")
    } else {
        String::from_str("Saved macro '")
    };
    message.append(name.as_str());
    message.append("' with ");
    push_decimal(&mut message, action_count as u64);
    message.append(" action(s)");
    StopRecordingOutput { macro_id, name, action_count, message }
}

/// The message of `play_macro` for the actions it returns.
pub fn play_message(action_count: usize) -> (r: String)
    ensures
        r@ == "Playing "@ + decimal(action_count as nat) + " action(s)"@,
{
    let mut message = String::from_str("Playing ");
    push_decimal(&mut message, action_count as u64);
    message.append(" action(s)");
    message
}

/// The answer to `delete_macro`, given whether a macro was deleted.
pub fn delete_macro_output(macro_id: &str, deleted: bool) -> (r: DeleteMacroOutput)
    ensures
        r.deleted == deleted,
        deleted ==> r.message@ == "Deleted macro '"@ + macro_id@ + "'"@,
        !deleted ==> r.message@ == "Macro '"@ + macro_id@ + "' not found"@,
{
    let message = if deleted {
        String::from_str("Deleted macro '").concat(macro_id).concat("'")
    } else {
        String::from_str("Macro '").concat(macro_id).concat("' not found")
    };
    DeleteMacroOutput { deleted, message }
}

} // verus!
