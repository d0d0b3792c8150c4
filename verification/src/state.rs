use vstd::prelude::*;

use crate::flow::{spec_session_step, Effect, Event, Mode, PendingTransform, Phase, Session};
use crate::polisher::{is_request, polish_text, ChatRequest, Purpose};
use crate::prompt::SYSTEM_PROMPT;

verus! {

/// The state the application shares between its hotkeys and its windows.
#[derive(PartialEq, Eq, Debug)]
pub struct AppState {
    /// Whether a hotkey run holds the processing lock.
    pub is_processing: bool,
    /// The polish shortcut in effect.
    pub hotkey: String,
    /// The text waiting in the custom instruction window, if any.
    pub pending_transform: Option<PendingTransform>,
}

impl AppState {
    /// The state at start-up, with the given polish shortcut.
    pub fn new(hotkey: String) -> (s: AppState)
        ensures
            !s.is_processing,
            s.hotkey == hotkey,
            s.pending_transform is None,
    {
        AppState { is_processing: false, hotkey, pending_transform: None }
    }

    /// Takes the processing lock if it is free; `false`, with nothing changed, if it is held.
    pub fn claim_processing_lock(&mut self) -> (claimed: bool)
        ensures
            claimed == !old(self).is_processing,
            final(self).is_processing,
            final(self).hotkey == old(self).hotkey,
            final(self).pending_transform == old(self).pending_transform,
    {
        if self.is_processing {
            return false;
        }
        self.is_processing = true;
        true
    }

    /// Releases the processing lock (the `Finish` effect, before its status is sent).
    pub fn finish(&mut self)
        ensures
            !final(self).is_processing,
            final(self).hotkey == old(self).hotkey,
            final(self).pending_transform == old(self).pending_transform,
    {
        self.is_processing = false;
    }

    /// Keeps text for the custom instruction window (the `StorePending` effect).
    pub fn store_pending(&mut self, p: PendingTransform)
        ensures
            final(self).pending_transform == Some(p),
            final(self).is_processing == old(self).is_processing,
            final(self).hotkey == old(self).hotkey,
    {
        self.pending_transform = Some(p);
    }

    /// Takes the text kept for the custom instruction window, leaving none.
    pub fn take_pending(&mut self) -> (p: Option<PendingTransform>)
        ensures
            p == old(self).pending_transform,
            final(self).pending_transform is None,
            final(self).is_processing == old(self).is_processing,
            final(self).hotkey == old(self).hotkey,
    {
        let mut p: Option<PendingTransform> = None;
        std::mem::swap(&mut p, &mut self.pending_transform);
        p
    }

    /// Records a new polish shortcut once it is registered; a failed registration leaves
    /// the state as it was and returns its error.
    pub fn set_hotkey(&mut self, shortcut: String, registration: Result<(), String>) -> (r: Result<(), String>)
        ensures
            r == registration,
            registration is Ok ==> final(self).hotkey == shortcut,
            registration is Err ==> final(self).hotkey == old(self).hotkey,
            final(self).is_processing == old(self).is_processing,
            final(self).pending_transform == old(self).pending_transform,
    {
        if registration.is_ok() {
            self.hotkey = shortcut;
        }
        registration
    }
}

/// The polish hotkey: takes the lock and starts a polish session, or does nothing while
/// another run holds the lock.
pub fn handle_hotkey(state: &mut AppState) -> (r: Option<(Session, Vec<Effect>)>)
    ensures
        final(state).is_processing,
        final(state).hotkey == old(state).hotkey,
        final(state).pending_transform == old(state).pending_transform,
        match r {
            None => old(state).is_processing,
            Some((s, fx)) => !old(state).is_processing
                && s == spec_session_step(Session { mode: Mode::Polish, phase: Phase::Idle }, Event::Start).0
                && fx@ == spec_session_step(Session { mode: Mode::Polish, phase: Phase::Idle }, Event::Start).1,
        },
{
    if !state.claim_processing_lock() {
        return None;
    }
    Some(Session::new(Mode::Polish).step(Event::Start))
}

/// The custom instruction hotkey: takes the lock and starts a session that opens the
/// custom instruction window, or does nothing while another run holds the lock.
pub fn handle_transform_hotkey(state: &mut AppState) -> (r: Option<(Session, Vec<Effect>)>)
    ensures
        final(state).is_processing,
        final(state).hotkey == old(state).hotkey,
        final(state).pending_transform == old(state).pending_transform,
        match r {
            None => old(state).is_processing,
            Some((s, fx)) => !old(state).is_processing
                && s == spec_session_step(Session { mode: Mode::Transform, phase: Phase::Idle }, Event::Start).0
                && fx@ == spec_session_step(Session { mode: Mode::Transform, phase: Phase::Idle }, Event::Start).1,
        },
{
    if !state.claim_processing_lock() {
        return None;
    }
    Some(Session::new(Mode::Transform).step(Event::Start))
}

/// The delays, in milliseconds, at which the custom instruction window is brought to the
/// front after it opens.
pub fn focus_retry_delays() -> (d: Vec<u64>)
    ensures
        d@ == seq![0u64, 20, 60, 140, 280],
{
    let mut d: Vec<u64> = Vec::new();
    d.push(0);
    d.push(20);
    d.push(60);
    d.push(140);
    d.push(280);
    d
}

/// The check before the settings window's "test" button sends text to be polished:
/// the request, or the error when no key is stored.
pub fn test_polish(text: &str, api_key: &str) -> (r: Result<ChatRequest, String>)
    ensures
        api_key@.len() == 0 <==> r is Err,
        r matches Err(e) ==> e@ == "No API key configured."@,
        r matches Ok(req) ==> is_request(req, Purpose::Polish, SYSTEM_PROMPT@, text@, api_key@),
{
    if api_key.is_empty() {
        return Err(String::from_str("No API key configured."));
    }
    Ok(polish_text(text, api_key))
}

} // verus!
