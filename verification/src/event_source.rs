//! What decides whether and where events are sent, and what comes back.
//!
//! Sending itself is the caller's business: the caller hands in the
//! environment it runs in and the answer of the event bus.

use crate::text::{eq_ignore_ascii_case, integer_text, integer_to_text, same_ignoring_ascii_case};
use vstd::prelude::*;
use vstd::string::*;

verus! {

/// Why an event could not be handed to the event bus.
#[derive(Debug)]
pub enum DriveDepositsEventBridgeError {
    MissingEventBridge,
    /// The event bus of this name has no rule.
    NoRuleErrorForEventBridgeEventBus(String),
    /// The event could not be sent.
    PuEventsSdkError(String),
    /// The rules of the event bus could not be listed.
    ListRulesSdkError(String),
    /// The event bus took the request and refused entries of it.
    FailedEntryCountError(String),
}

/// A variable of the environment: its name and its value.
#[derive(Debug, Clone)]
pub struct EnvironmentVariable {
    pub name: String,
    pub value: String,
}

/// The value of the first variable of that name, if there is one.
pub open spec fn value_of_variable(environment: Seq<EnvironmentVariable>, name: Seq<char>)
    -> Option<Seq<char>>
    decreases environment.len(),
{
    if environment.len() == 0 {
        None
    } else if environment[0].name@ == name {
        Some(environment[0].value@)
    } else {
        value_of_variable(environment.drop_first(), name)
    }
}

/// Whether a variable is set to `true`, in small or capital letters. A
/// variable that is not set counts as `false`.
pub open spec fn variable_is_true(environment: Seq<EnvironmentVariable>, name: Seq<char>)
    -> bool {
    match value_of_variable(environment, name) {
        Some(value) => same_ignoring_ascii_case(value, "true"@),
        None => false,
    }
}

/// Looks a variable up in the environment.
fn lookup<'a>(environment: &'a [EnvironmentVariable], name: &str) -> (value: Option<&'a str>)
    ensures
        match value {
            Some(v) => value_of_variable(environment@, name@) == Some(v@),
            None => value_of_variable(environment@, name@) is None,
        },
{
    let wanted = String::from_str(name);
    let mut i: usize = 0;
    assert(environment@.skip(0) =~= environment@);
    while i < environment.len()
        invariant
            0 <= i <= environment.len(),
            wanted@ == name@,
            value_of_variable(environment@, name@) == value_of_variable(
                environment@.skip(i as int),
                name@,
            ),
        decreases environment.len() - i,
    {
        let ghost rest = environment@.skip(i as int);
        assert(rest[0] == environment@[i as int]);
        if environment[i].name == wanted {
            return Some(environment[i].value.as_str());
        }
        assert(rest.drop_first() =~= environment@.skip(i + 1));
        i += 1;
    }
    assert(environment@.skip(i as int).len() == 0);
    None
}

/// Whether a variable of the environment is set to `true`.
pub fn env_var_bool(environment: &[EnvironmentVariable], name: &str) -> (set: bool)
    ensures
        set == variable_is_true(environment@, name@),
{
    match lookup(environment, name) {
        Some(value) => eq_ignore_ascii_case(value, "true"),
        None => {
            proof {
                reveal_strlit("false");
                reveal_strlit("true");
            }
            eq_ignore_ascii_case("false", "true")
        },
    }
}

/// Whether the services of a local stand-in are to be used in place of the
/// cloud's: the variable `USE_LOCALSTACK` says so.
pub fn use_localstack(environment: &[EnvironmentVariable]) -> (local: bool)
    ensures
        local == variable_is_true(environment@, "USE_LOCALSTACK"@),
{
    env_var_bool(environment, "USE_LOCALSTACK")
}

/// Whether calculated portfolios are to be sent as events: the variable
/// `SEND_CAL_EVENTS` says so.
pub fn should_send_events(environment: &[EnvironmentVariable]) -> (send: bool)
    ensures
        send == variable_is_true(environment@, "SEND_CAL_EVENTS"@),
{
    env_var_bool(environment, "SEND_CAL_EVENTS")
}

/// The message of the error for entries that the event bus refused.
pub open spec fn failed_entry_message(failed_entry_count: int, level: Seq<char>) -> Seq<char> {
    integer_text(failed_entry_count) + " for sending events to event bridge detail type "@ + level
}

/// Judges the answer of the event bus to an event of the given level: entries
/// that it refused are an error.
pub fn puts_event_failed_entry_count(failed_entry_count: i32, level: &str) -> (r: Result<
    (),
    DriveDepositsEventBridgeError,
>)
    ensures
        match r {
            Ok(_) => failed_entry_count <= 0,
            Err(e) => failed_entry_count > 0 && (e matches
                DriveDepositsEventBridgeError::FailedEntryCountError(message) && message@
                == failed_entry_message(failed_entry_count as int, level@)),
        },
{
    if failed_entry_count > 0 {
        let message = integer_to_text(failed_entry_count as i64).concat(
            " for sending events to event bridge detail type ",
        ).concat(level);
        return Err(DriveDepositsEventBridgeError::FailedEntryCountError(message));
    }
    Ok(())
}

} // verus!
