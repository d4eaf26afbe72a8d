//! The object published on the bus: two read-only properties backed by the
//! shared flags, and two methods that forward to the host's callbacks.

use crate::flag::BoolFlag;
use vstd::prelude::*;
use vstd::string::StringExecFns;

verus! {

/// The error a remote method answers with: a generic failure and its text.
#[derive(Debug, PartialEq, Eq)]
pub enum MethodError {
    Failed(String),
}

impl MethodError {
    pub open spec fn text(self) -> Seq<char> {
        match self {
            MethodError::Failed(t) => t@,
        }
    }
}

/// The prefix put before a callback's own description of its failure.
pub open spec fn callback_failure_text(description: Seq<char>) -> Seq<char> {
    "js error: "@ + description
}

/// The answer to a toggle method, given how the host callback finished.
/// A failing callback becomes a method failure carrying its description.
pub fn method_reply(outcome: Result<(), String>) -> (r: Result<(), MethodError>)
    ensures
        outcome is Ok <==> r is Ok,
        outcome matches Err(d) ==> (r matches Err(e) && e.text() == callback_failure_text(d@)),
{
    match outcome {
        Ok(()) => Ok(()),
        Err(description) => {
            let text = String::from_str("js error: ");
            proof {
                reveal_strlit("js error: ");
            }
            let text = text.concat(description.as_str());
            Err(MethodError::Failed(text))
        },
    }
}

/// The published object. It owns the callbacks handed over when the bridge
/// started and shares both flags with the bridge.
pub struct Venbus<C> {
    callback_toggle_mute: Option<C>,
    callback_toggle_deafen: Option<C>,
    muted: BoolFlag,
    deafened: BoolFlag,
}

impl<C> Venbus<C> {
    pub closed spec fn mute_callback(&self) -> Option<C> {
        self.callback_toggle_mute
    }

    pub closed spec fn deafen_callback(&self) -> Option<C> {
        self.callback_toggle_deafen
    }

    /// The muted and deafened flags the object reads its properties from.
    pub closed spec fn flags(&self) -> (BoolFlag, BoolFlag) {
        (self.muted, self.deafened)
    }

    /// Builds the object from the callbacks it takes over and the flags it shares.
    pub fn new(
        callback_toggle_mute: Option<C>,
        callback_toggle_deafen: Option<C>,
        muted: BoolFlag,
        deafened: BoolFlag,
    ) -> (r: Venbus<C>)
        ensures
            r.mute_callback() == callback_toggle_mute,
            r.deafen_callback() == callback_toggle_deafen,
            r.flags() == (muted, deafened),
    {
        Venbus { callback_toggle_mute, callback_toggle_deafen, muted, deafened }
    }

    /// The `toggle_mute` method: the callback to run, if one was registered.
    /// With none the method succeeds without doing anything. The flags are
    /// not touched: only the host's own setter changes them.
    pub fn toggle_mute(&self) -> (r: Option<&C>)
        ensures
            r is Some == self.mute_callback() is Some,
            r matches Some(c) ==> *c == self.mute_callback()->Some_0,
    {
        self.callback_toggle_mute.as_ref()
    }

    /// The `toggle_deafen` method: the callback to run, if one was registered.
    pub fn toggle_deafen(&self) -> (r: Option<&C>)
        ensures
            r is Some == self.deafen_callback() is Some,
            r matches Some(c) ==> *c == self.deafen_callback()->Some_0,
    {
        self.callback_toggle_deafen.as_ref()
    }

    /// The `muted` property: the shared flag's current value.
    pub fn muted(&self) -> (r: bool) {
        self.muted.load()
    }

    /// The `deafened` property: the shared flag's current value.
    pub fn deafened(&self) -> (r: bool) {
        self.deafened.load()
    }
}

} // verus!
