use vstd::prelude::*;

use crate::failure::{spec_classify, spec_notice, Failure, Job, classify, notice_for};
use crate::settings::{spec_stored_theme, theme_of, Theme};
use crate::text::view_option;

verus! {

/// How long the hotkey modifiers get to be released before the selection is read, in ms.
pub const SETTLE_MS: u64 = 200;

/// How long the copy keystroke gets to reach the clipboard, in ms.
pub const COPY_SETTLE_MS: u64 = 120;

/// How long the polished text rests on the clipboard before it is pasted, in ms.
pub const PASTE_DELAY_MS: u64 = 60;

/// How long the paste gets before the user's clipboard is put back, in ms.
pub const RESTORE_DELAY_MS: u64 = 220;

/// How long the custom instruction window gets to close before its result is written, in ms.
pub const WINDOW_CLOSE_MS: u64 = 150;

/// How often the closing custom instruction window is checked for being gone, in ms.
pub const CLOSE_POLL_MS: u64 = 5;

/// How many times the closing custom instruction window is checked before moving on.
pub const CLOSE_POLLS: u32 = 100;

/// The status the application reports to its windows.
#[derive(PartialEq, Eq, Structural, Clone, Copy, Debug)]
pub enum Status {
    Ready,
    Processing,
    Error,
    NoEditable,
    NoSelection,
}

/// The name under which a status is sent to the windows.
pub open spec fn spec_status_name(s: Status) -> Seq<char> {
    match s {
        Status::Ready => "ready"@,
        Status::Processing => "processing"@,
        Status::Error => "error"@,
        Status::NoEditable => "no-editable"@,
        Status::NoSelection => "no-selection"@,
    }
}

/// The name under which a status is sent to the windows.
pub fn status_name(s: Status) -> (r: &'static str)
    ensures
        r@ == spec_status_name(s),
{
    match s {
        Status::Ready => "ready",
        Status::Processing => "processing",
        Status::Error => "error",
        Status::NoEditable => "no-editable",
        Status::NoSelection => "no-selection",
    }
}

/// A notification for the user.
#[derive(PartialEq, Eq, Structural, Clone, Copy, Debug)]
pub enum Notice {
    /// No API key is stored.
    NoApiKey,
    /// A request failed in the given way.
    Failed(Failure, Job),
}

/// The text of a notification.
pub open spec fn spec_notice_text(n: Notice) -> Seq<char> {
    match n {
        Notice::NoApiKey => "No API key — open Settings and paste your OpenRouter key."@,
        Notice::Failed(f, job) => spec_notice(f, job),
    }
}

/// The text of a notification.
pub fn notice_text(n: Notice) -> (r: String)
    ensures
        r@ == spec_notice_text(n),
{
    match n {
        Notice::NoApiKey => String::from_str("No API key — open Settings and paste your OpenRouter key."),
        Notice::Failed(f, job) => notice_for(f, job),
    }
}

/// What went wrong, for the error log.
#[derive(PartialEq, Eq, Structural, Clone, Copy, Debug)]
pub enum LogKind {
    CopyFailed,
    PolishFailed,
    TransformFailed,
    WindowFailed,
}

/// The prefix of a log line of the given kind; the error text follows it.
pub open spec fn spec_log_prefix(k: LogKind) -> Seq<char> {
    match k {
        LogKind::CopyFailed => "[polishd] copy error: "@,
        LogKind::PolishFailed => "[polishd] API error: "@,
        LogKind::TransformFailed => "[polishd] transform error: "@,
        LogKind::WindowFailed => "[polishd] build transform window: "@,
    }
}

/// The log line for an error of the given kind.
pub fn log_line(k: LogKind, detail: &str) -> (r: String)
    ensures
        r@ == spec_log_prefix(k) + detail@,
{
    let mut r = String::from_str(
        match k {
            LogKind::CopyFailed => "[polishd] copy error: ",
            LogKind::PolishFailed => "[polishd] API error: ",
            LogKind::TransformFailed => "[polishd] transform error: ",
            LogKind::WindowFailed => "[polishd] build transform window: ",
        },
    );
    r.append(detail);
    r
}

/// Text taken from the focused application and waiting for a custom instruction, with the
/// clipboard content it replaced.
#[derive(PartialEq, Eq, Debug)]
pub struct PendingTransform {
    pub text: String,
    pub original_clipboard: Option<String>,
}

/// A copy of an optional string.
pub fn clone_option(o: &Option<String>) -> (r: Option<String>)
    ensures
        r == *o,
{
    match o {
        Some(s) => Some(s.clone()),
        None => None,
    }
}

/// Something the application does for a flow. The outcome of the last effect of a step,
/// where it has one, is the next event of the flow.
#[derive(PartialEq, Eq, Debug)]
pub enum Effect {
    /// Sends a status to the windows.
    EmitStatus(Status),
    /// Waits that many milliseconds.
    Sleep(u64),
    /// Asks whether the focused element accepts text; answers `Event::Editable`.
    ProbeEditable,
    /// Reads the clipboard, to be put back later; answers `Event::Saved`.
    SaveClipboard,
    /// Sends the copy keystroke; answers `Event::Copied`.
    CopySelection,
    /// Reads the clipboard; answers `Event::Selection`.
    ReadClipboard,
    /// Reads the stored theme; answers `Event::Theme`.
    LoadTheme,
    /// Shows the small "polishing" window in the given theme.
    ShowPolishPopup(Theme),
    /// Closes the small "polishing" window.
    DismissPolishPopup,
    /// Reads the stored API key; answers `Event::ApiKey`.
    LoadApiKey,
    /// Shows a notification.
    Notify(Notice),
    /// Writes an error to the log.
    Log(LogKind, String),
    /// Asks for `text` to be polished; answers `Event::Completed`.
    Polish { text: String, api_key: String },
    /// Asks for `instruction` to be applied to `text`; answers `Event::Completed`.
    Transform { text: String, instruction: String, api_key: String },
    /// Asks for the prompt `text` to be rewritten; answers `Event::Completed`.
    OptimizePrompt { text: String, instruction: String, api_key: String },
    /// Writes text to the clipboard; answers `Event::Written`.
    WriteClipboard(String),
    /// Sends the paste keystroke; answers `Event::Pasted`.
    Paste,
    /// Releases the processing lock and sends the status.
    Finish(Status),
    /// Closes the custom instruction window, if one is open, and waits until it is gone,
    /// checking every `CLOSE_POLL_MS` milliseconds at most `CLOSE_POLLS` times.
    CloseTransformWindow,
    /// Keeps text for the custom instruction window.
    StorePending(PendingTransform),
    /// Opens the custom instruction window in the given theme; answers `Event::WindowOpened`.
    OpenTransformWindow(Theme),
    /// Takes back the text kept for the custom instruction window; answers `Event::Pending`.
    TakePending,
    /// Brings the custom instruction window to the front, a few times over.
    FocusTransformWindow,
}

/// What the application tells a flow.
#[derive(PartialEq, Eq, Debug)]
pub enum Event {
    Start,
    Editable(Option<bool>),
    Saved(Option<String>),
    Copied(Result<(), String>),
    Selection(Option<String>),
    Theme(Option<String>),
    ApiKey(String),
    Completed(Result<String, String>),
    Written(bool),
    Pasted(Result<(), String>),
    WindowOpened(Result<(), String>),
    Pending(Option<PendingTransform>),
}

/// Which hotkey started a session.
#[derive(PartialEq, Eq, Structural, Clone, Copy, Debug)]
pub enum Mode {
    /// Polish the selection.
    Polish,
    /// Open the custom instruction window for the selection.
    Transform,
}

/// Where a hotkey session stands.
#[derive(PartialEq, Eq, Debug)]
pub enum Phase {
    Idle,
    Probing,
    Saving,
    Copying { original: Option<String> },
    Reading { original: Option<String> },
    Theming { text: String, original: Option<String> },
    OpeningWindow { text: String, original: Option<String> },
    Reclaiming { text: String },
    LoadingKey { text: String, original: Option<String>, popup: bool },
    Polishing { original: Option<String>, popup: bool },
    Writing { original: Option<String>, popup: bool },
    Pasting { original: Option<String>, popup: bool },
    /// Over, with the processing lock released.
    Finished,
    /// Over, with the custom instruction window open; the lock stays held until the
    /// window is submitted or cancelled.
    HandedOff,
}

/// One run of a hotkey: take the selection, then polish it or open the custom
/// instruction window for it.
#[derive(PartialEq, Eq, Debug)]
pub struct Session {
    pub mode: Mode,
    pub phase: Phase,
}

/// The effects that put back the user's clipboard, if there was content to put back,
/// and end with the given status.
pub open spec fn spec_restore_and_finish(original: Option<String>, status: Status) -> Seq<Effect> {
    match original {
        Some(o) => seq![Effect::WriteClipboard(o), Effect::Finish(status)],
        None => seq![Effect::Finish(status)],
    }
}

/// The effect that closes the polishing window, if it is shown.
pub open spec fn spec_dismiss(popup: bool) -> Seq<Effect> {
    if popup {
        seq![Effect::DismissPolishPopup]
    } else {
        seq![]
    }
}

/// The selection is worth working on: it is not empty and it is not what the clipboard
/// held before the copy (which would mean nothing was selected).
pub open spec fn accepts_selection(selected: Option<String>, original: Option<String>) -> bool {
    match selected {
        Some(t) => t@.len() > 0 && Some(t@) != view_option(original),
        None => false,
    }
}

/// One step of a hotkey session.
pub open spec fn spec_session_step(s: Session, e: Event) -> (Session, Seq<Effect>) {
    let mode = s.mode;
    let at = |p: Phase| Session { mode, phase: p };
    match (s.phase, e) {
        (Phase::Idle, Event::Start) => (
            at(Phase::Probing),
            seq![Effect::EmitStatus(Status::Processing), Effect::Sleep(SETTLE_MS), Effect::ProbeEditable],
        ),
        (Phase::Probing, Event::Editable(v)) => if v == Some(false) {
            (at(Phase::Finished), seq![Effect::Finish(Status::NoEditable)])
        } else {
            (at(Phase::Saving), seq![Effect::SaveClipboard])
        },
        (Phase::Saving, Event::Saved(o)) => (at(Phase::Copying { original: o }), seq![Effect::CopySelection]),
        (Phase::Copying { original }, Event::Copied(r)) => match r {
            Ok(_) => (at(Phase::Reading { original }), seq![Effect::Sleep(COPY_SETTLE_MS), Effect::ReadClipboard]),
            Err(err) => (
                at(Phase::Finished),
                seq![Effect::Log(LogKind::CopyFailed, err), Effect::Finish(Status::Ready)],
            ),
        },
        (Phase::Reading { original }, Event::Selection(sel)) => if accepts_selection(sel, original) {
            (at(Phase::Theming { text: sel->0, original }), seq![Effect::LoadTheme])
        } else {
            (at(Phase::Finished), spec_restore_and_finish(original, Status::NoSelection))
        },
        (Phase::Theming { text, original }, Event::Theme(stored)) => {
            let theme = spec_stored_theme(view_option(stored));
            match mode {
                Mode::Polish => (
                    at(Phase::LoadingKey { text, original, popup: true }),
                    seq![Effect::ShowPolishPopup(theme), Effect::LoadApiKey],
                ),
                Mode::Transform => (
                    at(Phase::OpeningWindow { text, original }),
                    seq![
                        Effect::CloseTransformWindow,
                        Effect::StorePending(PendingTransform { text, original_clipboard: original }),
                        Effect::OpenTransformWindow(theme),
                    ],
                ),
            }
        },
        (Phase::OpeningWindow { text, original }, Event::WindowOpened(r)) => match r {
            Ok(_) => (at(Phase::HandedOff), seq![Effect::FocusTransformWindow, Effect::EmitStatus(Status::Ready)]),
            Err(err) => (
                at(Phase::Reclaiming { text }),
                seq![Effect::Log(LogKind::WindowFailed, err), Effect::TakePending],
            ),
        },
        (Phase::Reclaiming { text }, Event::Pending(p)) => {
            let original = match p {
                Some(p) => p.original_clipboard,
                None => None,
            };
            (at(Phase::LoadingKey { text, original, popup: false }), seq![Effect::LoadApiKey])
        },
        (Phase::LoadingKey { text, original, popup }, Event::ApiKey(k)) => if k@.len() == 0 {
            (
                at(Phase::Finished),
                seq![Effect::Notify(Notice::NoApiKey)] + spec_restore_and_finish(original, Status::Error)
                    + spec_dismiss(popup),
            )
        } else {
            (at(Phase::Polishing { original, popup }), seq![Effect::Polish { text, api_key: k }])
        },
        (Phase::Polishing { original, popup }, Event::Completed(r)) => match r {
            Ok(p) => (at(Phase::Writing { original, popup }), seq![Effect::WriteClipboard(p)]),
            Err(err) => (
                at(Phase::Finished),
                seq![
                    Effect::Log(LogKind::PolishFailed, err),
                    Effect::Notify(Notice::Failed(spec_classify(err@), Job::Polish)),
                ] + spec_restore_and_finish(original, Status::Error) + spec_dismiss(popup),
            ),
        },
        (Phase::Writing { original, popup }, Event::Written(ok)) => if ok {
            (at(Phase::Pasting { original, popup }), seq![Effect::Sleep(PASTE_DELAY_MS), Effect::Paste])
        } else {
            (at(Phase::Finished), seq![Effect::Finish(Status::Ready)] + spec_dismiss(popup))
        },
        (Phase::Pasting { original, popup }, Event::Pasted(r)) => match r {
            Ok(_) => (
                at(Phase::Finished),
                seq![Effect::Sleep(RESTORE_DELAY_MS)] + spec_restore_and_finish(original, Status::Ready)
                    + spec_dismiss(popup),
            ),
            Err(_) => (
                at(Phase::Finished),
                spec_restore_and_finish(original, Status::Error) + spec_dismiss(popup),
            ),
        },
        (p, _) => (at(p), seq![]),
    }
}

pub(crate) fn push_restore_and_finish(fx: &mut Vec<Effect>, original: Option<String>, status: Status)
    ensures
        final(fx)@ == old(fx)@ + spec_restore_and_finish(original, status),
{
    match original {
        Some(o) => {
            fx.push(Effect::WriteClipboard(o));
        },
        None => {},
    }
    fx.push(Effect::Finish(status));
}

fn push_dismiss(fx: &mut Vec<Effect>, popup: bool)
    ensures
        final(fx)@ == old(fx)@ + spec_dismiss(popup),
{
    if popup {
        fx.push(Effect::DismissPolishPopup);
    }
}

/// Whether the selection is worth working on: not empty, and not what the clipboard
/// held before the copy.
pub fn selection_accepted(selected: &Option<String>, original: &Option<String>) -> (b: bool)
    ensures
        b == accepts_selection(*selected, *original),
{
    match selected {
        None => false,
        Some(t) => {
            if t.as_str().is_empty() {
                return false;
            }
            match original {
                None => true,
                Some(o) => !(*t == *o),
            }
        },
    }
}

impl Session {
    /// A session that has not started yet.
    pub fn new(mode: Mode) -> (s: Session)
        ensures
            s.mode == mode,
            s.phase is Idle,
    {
        Session { mode, phase: Phase::Idle }
    }

    /// Whether the session is over.
    pub fn is_over(&self) -> (b: bool)
        ensures
            b == (self.phase is Finished || self.phase is HandedOff),
    {
        match self.phase {
            Phase::Finished | Phase::HandedOff => true,
            _ => false,
        }
    }

    /// The session after `e`, and what the application is to do.
    pub fn step(self, e: Event) -> (r: (Session, Vec<Effect>))
        ensures
            r.0 == spec_session_step(self, e).0,
            r.1@ == spec_session_step(self, e).1,
    {
        let mode = self.mode;
        let mut fx: Vec<Effect> = Vec::new();
        let phase = match (self.phase, e) {
            (Phase::Idle, Event::Start) => {
                fx.push(Effect::EmitStatus(Status::Processing));
                fx.push(Effect::Sleep(SETTLE_MS));
                fx.push(Effect::ProbeEditable);
                Phase::Probing
            },
            (Phase::Probing, Event::Editable(v)) => {
                if v == Some(false) {
                    fx.push(Effect::Finish(Status::NoEditable));
                    Phase::Finished
                } else {
                    fx.push(Effect::SaveClipboard);
                    Phase::Saving
                }
            },
            (Phase::Saving, Event::Saved(o)) => {
                fx.push(Effect::CopySelection);
                Phase::Copying { original: o }
            },
            (Phase::Copying { original }, Event::Copied(r)) => match r {
                Ok(_) => {
                    fx.push(Effect::Sleep(COPY_SETTLE_MS));
                    fx.push(Effect::ReadClipboard);
                    Phase::Reading { original }
                },
                Err(err) => {
                    fx.push(Effect::Log(LogKind::CopyFailed, err));
                    fx.push(Effect::Finish(Status::Ready));
                    Phase::Finished
                },
            },
            (Phase::Reading { original }, Event::Selection(sel)) => {
                if selection_accepted(&sel, &original) {
                    let text = match sel {
                        Some(t) => t,
                        None => String::new(),
                    };
                    fx.push(Effect::LoadTheme);
                    Phase::Theming { text, original }
                } else {
                    push_restore_and_finish(&mut fx, original, Status::NoSelection);
                    Phase::Finished
                }
            },
            (Phase::Theming { text, original }, Event::Theme(stored)) => {
                let theme = theme_of(&stored);
                match mode {
                    Mode::Polish => {
                        fx.push(Effect::ShowPolishPopup(theme));
                        fx.push(Effect::LoadApiKey);
                        Phase::LoadingKey { text, original, popup: true }
                    },
                    Mode::Transform => {
                        fx.push(Effect::CloseTransformWindow);
                        fx.push(
                            Effect::StorePending(
                                PendingTransform {
                                    text: text.clone(),
                                    original_clipboard: clone_option(&original),
                                },
                            ),
                        );
                        fx.push(Effect::OpenTransformWindow(theme));
                        Phase::OpeningWindow { text, original }
                    },
                }
            },
            (Phase::OpeningWindow { text, original }, Event::WindowOpened(r)) => match r {
                Ok(_) => {
                    fx.push(Effect::FocusTransformWindow);
                    fx.push(Effect::EmitStatus(Status::Ready));
                    Phase::HandedOff
                },
                Err(err) => {
                    fx.push(Effect::Log(LogKind::WindowFailed, err));
                    fx.push(Effect::TakePending);
                    Phase::Reclaiming { text }
                },
            },
            (Phase::Reclaiming { text }, Event::Pending(p)) => {
                let original = match p {
                    Some(p) => p.original_clipboard,
                    None => None,
                };
                fx.push(Effect::LoadApiKey);
                Phase::LoadingKey { text, original, popup: false }
            },
            (Phase::LoadingKey { text, original, popup }, Event::ApiKey(k)) => {
                if k.as_str().is_empty() {
                    fx.push(Effect::Notify(Notice::NoApiKey));
                    push_restore_and_finish(&mut fx, original, Status::Error);
                    push_dismiss(&mut fx, popup);
                    Phase::Finished
                } else {
                    fx.push(Effect::Polish { text, api_key: k });
                    Phase::Polishing { original, popup }
                }
            },
            (Phase::Polishing { original, popup }, Event::Completed(r)) => match r {
                Ok(p) => {
                    fx.push(Effect::WriteClipboard(p));
                    Phase::Writing { original, popup }
                },
                Err(err) => {
                    let f = classify(err.as_str());
                    fx.push(Effect::Log(LogKind::PolishFailed, err));
                    fx.push(Effect::Notify(Notice::Failed(f, Job::Polish)));
                    push_restore_and_finish(&mut fx, original, Status::Error);
                    push_dismiss(&mut fx, popup);
                    Phase::Finished
                },
            },
            (Phase::Writing { original, popup }, Event::Written(ok)) => {
                if ok {
                    fx.push(Effect::Sleep(PASTE_DELAY_MS));
                    fx.push(Effect::Paste);
                    Phase::Pasting { original, popup }
                } else {
                    fx.push(Effect::Finish(Status::Ready));
                    push_dismiss(&mut fx, popup);
                    Phase::Finished
                }
            },
            (Phase::Pasting { original, popup }, Event::Pasted(r)) => match r {
                Ok(_) => {
                    fx.push(Effect::Sleep(RESTORE_DELAY_MS));
                    push_restore_and_finish(&mut fx, original, Status::Ready);
                    push_dismiss(&mut fx, popup);
                    Phase::Finished
                },
                Err(_) => {
                    push_restore_and_finish(&mut fx, original, Status::Error);
                    push_dismiss(&mut fx, popup);
                    Phase::Finished
                },
            },
            (p, _) => p,
        };
        (Session { mode, phase }, fx)
    }
}

/// The kinds of effect that the laws count.
#[derive(PartialEq, Eq, Structural, Clone, Copy, Debug)]
pub enum EffectKind {
    /// Releases the processing lock (`Finish`).
    Release,
    /// Sends a status to the windows (`EmitStatus`, and `Finish` with its status).
    Status,
    /// Sends the paste keystroke.
    Paste,
    /// Shows the polishing window.
    ShowPopup,
    /// Closes the polishing window.
    DismissPopup,
    /// Sends a request to the model.
    Request,
}

/// Whether `e` is of kind `k`.
pub open spec fn is_kind(e: Effect, k: EffectKind) -> bool {
    match k {
        EffectKind::Release => e is Finish,
        EffectKind::Status => e is EmitStatus || e is Finish,
        EffectKind::Paste => e is Paste,
        EffectKind::ShowPopup => e is ShowPolishPopup,
        EffectKind::DismissPopup => e is DismissPolishPopup,
        EffectKind::Request => e is Polish || e is Transform || e is OptimizePrompt,
    }
}

/// One where `e` is of kind `k`, zero otherwise.
pub open spec fn one_if(e: Effect, k: EffectKind) -> nat {
    if is_kind(e, k) {
        1
    } else {
        0
    }
}

/// How many effects of each kind a sequence holds.
pub struct Tally {
    pub release: nat,
    pub status: nat,
    pub paste: nat,
    pub show: nat,
    pub dismiss: nat,
    pub request: nat,
}

/// The tally of no effects.
pub open spec fn tally_zero() -> Tally {
    Tally { release: 0, status: 0, paste: 0, show: 0, dismiss: 0, request: 0 }
}

/// The sum of two tallies.
pub open spec fn tally_plus(a: Tally, b: Tally) -> Tally {
    Tally {
        release: a.release + b.release,
        status: a.status + b.status,
        paste: a.paste + b.paste,
        show: a.show + b.show,
        dismiss: a.dismiss + b.dismiss,
        request: a.request + b.request,
    }
}

/// The tally of the single effect `e`.
pub open spec fn tally_one(e: Effect) -> Tally {
    Tally {
        release: one_if(e, EffectKind::Release),
        status: one_if(e, EffectKind::Status),
        paste: one_if(e, EffectKind::Paste),
        show: one_if(e, EffectKind::ShowPopup),
        dismiss: one_if(e, EffectKind::DismissPopup),
        request: one_if(e, EffectKind::Request),
    }
}

/// How many effects of each kind `fx` holds.
pub open spec fn tally(fx: Seq<Effect>) -> Tally
    decreases fx.len(),
{
    if fx.len() == 0 {
        tally_zero()
    } else {
        tally_plus(tally(fx.drop_last()), tally_one(fx.last()))
    }
}

/// How many effects of `fx` are of kind `k`.
pub open spec fn count(fx: Seq<Effect>, k: EffectKind) -> nat {
    let t = tally(fx);
    match k {
        EffectKind::Release => t.release,
        EffectKind::Status => t.status,
        EffectKind::Paste => t.paste,
        EffectKind::ShowPopup => t.show,
        EffectKind::DismissPopup => t.dismiss,
        EffectKind::Request => t.request,
    }
}

/// How many effects of `fx` release the processing lock.
pub open spec fn finish_count(fx: Seq<Effect>) -> nat {
    count(fx, EffectKind::Release)
}

pub(crate) proof fn lemma_count_add(a: Seq<Effect>, b: Seq<Effect>)
    ensures
        tally(a + b) == tally_plus(tally(a), tally(b)),
    decreases b.len(),
{
    if b.len() == 0 {
        assert(a + b =~= a);
    } else {
        lemma_count_add(a, b.drop_last());
        assert((a + b).drop_last() =~= a + b.drop_last());
        assert((a + b).last() == b.last());
    }
}

pub(crate) proof fn lemma_count_small(x: Effect, y: Effect, z: Effect)
    ensures
        tally(Seq::<Effect>::empty()) == tally_zero(),
        tally(seq![x]) == tally_one(x),
        tally(seq![x, y]) == tally_plus(tally_one(x), tally_one(y)),
        tally(seq![x, y, z]) == tally_plus(tally_plus(tally_one(x), tally_one(y)), tally_one(z)),
{
    assert(seq![x].drop_last() =~= Seq::<Effect>::empty());
    assert(seq![x, y].drop_last() =~= seq![x]);
    assert(seq![x, y, z].drop_last() =~= seq![x, y]);
    assert(tally(Seq::<Effect>::empty()) == tally_zero());
    assert(seq![x].last() == x);
    assert(tally(seq![x]) == tally_plus(tally(seq![x].drop_last()), tally_one(seq![x].last())));
    assert(tally(seq![x]) == tally_one(x));
    assert(seq![x, y].last() == y);
    assert(tally(seq![x, y]) == tally_plus(tally(seq![x, y].drop_last()), tally_one(seq![x, y].last())));
    assert(seq![x, y, z].last() == z);
    assert(tally(seq![x, y, z]) == tally_plus(tally(seq![x, y, z].drop_last()), tally_one(seq![x, y, z].last())));
}

pub(crate) proof fn lemma_restore_counts(original: Option<String>, status: Status, popup: bool)
    ensures
        tally(spec_restore_and_finish(original, status)) == tally_one(Effect::Finish(status)),
        tally(spec_dismiss(popup)) == if popup { tally_one(Effect::DismissPolishPopup) } else { tally_zero() },
{
    let f = Effect::Finish(status);
    lemma_count_small(f, f, f);
    match original {
        Some(o) => lemma_count_small(Effect::WriteClipboard(o), f, f),
        None => {},
    }
    lemma_count_small(Effect::DismissPolishPopup, f, f);
}

/// The session is over.
pub open spec fn session_over(p: Phase) -> bool {
    p is Finished || p is HandedOff
}

/// Whether the polishing window is shown in phase `p`.
pub open spec fn shows_popup(p: Phase) -> bool {
    match p {
        Phase::LoadingKey { popup, .. } => popup,
        Phase::Polishing { popup, .. } => popup,
        Phase::Writing { popup, .. } => popup,
        Phase::Pasting { popup, .. } => popup,
        _ => false,
    }
}

/// What one step of a session does, counted by kind of effect: it sends a status when it
/// starts, when it ends and when it hands over to the custom instruction window;
/// releases the lock only when it ends; pastes only right after the result was written;
/// shows the polishing window only once it has the theme for a selection accepted for polishing and
/// closes it only when it ends with it shown; and sends a request only with a stored key.
pub proof fn lemma_session_step_counts(s: Session, e: Event)
    ensures
        ({
            let (s2, fx) = spec_session_step(s, e);
            let ends = !session_over(s.phase) && s2.phase is Finished;
            &&& count(fx, EffectKind::Release) == if ends { 1nat } else { 0nat }
            &&& count(fx, EffectKind::Status) == (if s.phase is Idle && e is Start { 1nat } else { 0nat })
                + (if ends { 1nat } else { 0nat })
                + (if s.phase is OpeningWindow && s2.phase is HandedOff { 1nat } else { 0nat })
            &&& count(fx, EffectKind::Paste) == if s.phase is Writing && e == Event::Written(true) { 1nat } else { 0nat }
            &&& count(fx, EffectKind::ShowPopup) == if s.phase is Theming && s2.phase is LoadingKey { 1nat } else { 0nat }
            &&& count(fx, EffectKind::DismissPopup) == if ends && shows_popup(s.phase) { 1nat } else { 0nat }
            &&& count(fx, EffectKind::Request) == if s.phase is LoadingKey && s2.phase is Polishing { 1nat } else { 0nat }
            &&& (count(fx, EffectKind::Request) > 0 ==> (e matches Event::ApiKey(k) && k@.len() > 0))
            &&& (session_over(s.phase) ==> s2 == s && fx.len() == 0)
        }),
{
    let w = Effect::Paste;
    let n = Effect::SaveClipboard;
    match (s.phase, e) {
        (Phase::Reading { original }, Event::Selection(sel)) => {
            lemma_restore_counts(original, Status::NoSelection, false);
            lemma_count_small(Effect::LoadTheme, w, w);
        },
        (Phase::Theming { text, original }, Event::Theme(stored)) => {
            let theme = spec_stored_theme(view_option(stored));
            lemma_count_small(Effect::ShowPolishPopup(theme), Effect::LoadApiKey, w);
            lemma_count_small(
                Effect::CloseTransformWindow,
                Effect::StorePending(PendingTransform { text, original_clipboard: original }),
                Effect::OpenTransformWindow(theme),
            );
        },
        (Phase::LoadingKey { text, original, popup }, Event::ApiKey(k)) => {
            lemma_restore_counts(original, Status::Error, popup);
            let head = seq![Effect::Notify(Notice::NoApiKey)];
            lemma_count_small(head[0], w, w);
            lemma_count_add(head, spec_restore_and_finish(original, Status::Error));
            lemma_count_add(head + spec_restore_and_finish(original, Status::Error), spec_dismiss(popup));
            lemma_count_small(Effect::Polish { text, api_key: k }, w, w);
        },
        (Phase::Polishing { original, popup }, Event::Completed(r)) => {
            lemma_restore_counts(original, Status::Error, popup);
            match r {
                Ok(p) => lemma_count_small(Effect::WriteClipboard(p), w, w),
                Err(err) => {
                    let head = seq![
                        Effect::Log(LogKind::PolishFailed, err),
                        Effect::Notify(Notice::Failed(spec_classify(err@), Job::Polish)),
                    ];
                    lemma_count_small(head[0], head[1], w);
                    lemma_count_add(head, spec_restore_and_finish(original, Status::Error));
                    lemma_count_add(head + spec_restore_and_finish(original, Status::Error), spec_dismiss(popup));
                },
            }
        },
        (Phase::Writing { original, popup }, Event::Written(ok)) => {
            lemma_restore_counts(original, Status::Error, popup);
            lemma_count_small(Effect::Sleep(PASTE_DELAY_MS), Effect::Paste, w);
            lemma_count_small(Effect::Finish(Status::Ready), w, w);
            lemma_count_add(seq![Effect::Finish(Status::Ready)], spec_dismiss(popup));
        },
        (Phase::Pasting { original, popup }, Event::Pasted(r)) => {
            lemma_restore_counts(original, Status::Ready, popup);
            lemma_restore_counts(original, Status::Error, popup);
            let head = seq![Effect::Sleep(RESTORE_DELAY_MS)];
            lemma_count_small(head[0], w, w);
            lemma_count_add(head, spec_restore_and_finish(original, Status::Ready));
            lemma_count_add(head + spec_restore_and_finish(original, Status::Ready), spec_dismiss(popup));
            lemma_count_add(spec_restore_and_finish(original, Status::Error), spec_dismiss(popup));
        },
        (Phase::Idle, Event::Start) => {
            lemma_count_small(Effect::EmitStatus(Status::Processing), Effect::Sleep(SETTLE_MS), Effect::ProbeEditable);
        },
        (Phase::Probing, Event::Editable(v)) => {
            lemma_count_small(Effect::Finish(Status::NoEditable), w, w);
            lemma_count_small(Effect::SaveClipboard, w, w);
        },
        (Phase::Saving, Event::Saved(o)) => {
            lemma_count_small(Effect::CopySelection, w, w);
        },
        (Phase::Copying { original }, Event::Copied(r)) => {
            lemma_count_small(Effect::Sleep(COPY_SETTLE_MS), Effect::ReadClipboard, w);
            match r {
                Err(err) => lemma_count_small(Effect::Log(LogKind::CopyFailed, err), Effect::Finish(Status::Ready), w),
                Ok(_) => {},
            }
        },
        (Phase::OpeningWindow { text, original }, Event::WindowOpened(r)) => {
            lemma_count_small(Effect::FocusTransformWindow, Effect::EmitStatus(Status::Ready), w);
            match r {
                Err(err) => lemma_count_small(Effect::Log(LogKind::WindowFailed, err), Effect::TakePending, w),
                Ok(_) => {},
            }
        },
        (Phase::Reclaiming { text }, Event::Pending(p)) => {
            lemma_count_small(Effect::LoadApiKey, w, w);
        },
        (p, _) => {
            lemma_count_small(n, n, n);
        },
    }
}

/// A hotkey session releases the processing lock exactly once, in the step that ends it,
/// unless it hands the lock over to the custom instruction window; a session that is
/// over does nothing more.
pub proof fn lemma_session_releases_lock_once(s: Session, e: Event)
    ensures
        finish_count(spec_session_step(s, e).1) == if !session_over(s.phase)
            && spec_session_step(s, e).0.phase is Finished {
            1nat
        } else {
            0nat
        },
        session_over(s.phase) ==> spec_session_step(s, e).0 == s && spec_session_step(s, e).1.len() == 0,
{
    lemma_session_step_counts(s, e);
}

/// The clipboard content that a session put aside and still has to put back.
pub open spec fn held_original(p: Phase) -> Option<String> {
    match p {
        Phase::Reading { original } => original,
        Phase::LoadingKey { original, .. } => original,
        Phase::Polishing { original, .. } => original,
        Phase::Pasting { original, .. } => original,
        _ => None,
    }
}

/// `fx` writes `o` back to the clipboard before it releases the processing lock.
pub open spec fn restores_before_release(fx: Seq<Effect>, o: String) -> bool {
    exists|i: int, j: int|
        #![trigger fx[i], fx[j]]
        0 <= i < j < fx.len() && fx[i] == Effect::WriteClipboard(o) && fx[j] is Finish
}

/// When a session ends after the selection was copied, the clipboard content the user had
/// before is written back before the lock is released: whether the selection was
/// rejected, no key was stored, the request failed, the paste failed, or all went well.
/// (The one exception is an ending where the result could not be written to the
/// clipboard, in the `Writing` phase, which leaves the clipboard as the copy left it.)
pub proof fn lemma_session_restores_clipboard(s: Session, e: Event, o: String)
    ensures
        held_original(s.phase) == Some(o) && spec_session_step(s, e).0.phase is Finished
            ==> restores_before_release(spec_session_step(s, e).1, o),
{
    let (s2, fx) = spec_session_step(s, e);
    if held_original(s.phase) == Some(o) && s2.phase is Finished {
        match (s.phase, e) {
            (Phase::Reading { original }, Event::Selection(sel)) => {
                assert(fx[0] == Effect::WriteClipboard(o) && fx[1] is Finish);
            },
            (Phase::LoadingKey { text, original, popup }, Event::ApiKey(k)) => {
                assert(fx[1] == Effect::WriteClipboard(o) && fx[2] is Finish);
            },
            (Phase::Polishing { original, popup }, Event::Completed(res)) => {
                assert(fx[2] == Effect::WriteClipboard(o) && fx[3] is Finish);
            },
            (Phase::Pasting { original, popup }, Event::Pasted(res)) => {
                match res {
                    Ok(_) => assert(fx[1] == Effect::WriteClipboard(o) && fx[2] is Finish),
                    Err(_) => assert(fx[0] == Effect::WriteClipboard(o) && fx[1] is Finish),
                }
            },
            _ => {},
        }
    }
}

/// A session pastes only right after the polished text reached the clipboard, and asks
/// for a polish only with a stored key.
pub proof fn lemma_session_pastes_only_written_text(s: Session, e: Event)
    ensures
        count(spec_session_step(s, e).1, EffectKind::Paste) > 0 ==> s.phase is Writing && e == Event::Written(true),
        count(spec_session_step(s, e).1, EffectKind::Request) > 0
            ==> s.phase is LoadingKey && (e matches Event::ApiKey(k) && k@.len() > 0),
{
    lemma_session_step_counts(s, e);
}

/// The session and the effects after a run of events.
pub open spec fn run_session(s: Session, events: Seq<Event>) -> (Session, Seq<Effect>)
    decreases events.len(),
{
    if events.len() == 0 {
        (s, seq![])
    } else {
        let (s1, fx1) = run_session(s, events.drop_last());
        let (s2, fx2) = spec_session_step(s1, events.last());
        (s2, fx1 + fx2)
    }
}

/// What the effects `fx` that brought a session to `s` hold, counted by kind.
pub open spec fn run_counts_hold(s: Session, fx: Seq<Effect>) -> bool {
    &&& count(fx, EffectKind::Release) == if s.phase is Finished { 1nat } else { 0nat }
    &&& count(fx, EffectKind::Status) == if s.phase is Idle {
        0nat
    } else if session_over(s.phase) {
        2nat
    } else {
        1nat
    }
    &&& count(fx, EffectKind::Paste) <= 1
    &&& (!(s.phase is Pasting) && !(s.phase is Finished) ==> count(fx, EffectKind::Paste) == 0)
    &&& count(fx, EffectKind::ShowPopup) <= 1
    &&& (!(s.phase is Finished) ==> count(fx, EffectKind::ShowPopup) == if shows_popup(s.phase) { 1nat } else { 0nat })
    &&& (!(s.phase is Finished) ==> count(fx, EffectKind::DismissPopup) == 0)
    &&& (s.phase is Finished ==> count(fx, EffectKind::DismissPopup) == count(fx, EffectKind::ShowPopup))
    &&& count(fx, EffectKind::Request) <= 1
    &&& (s.phase is Polishing || s.phase is Writing || s.phase is Pasting ==> count(fx, EffectKind::Request) == 1)
    &&& (s.phase is Idle || s.phase is Probing || s.phase is Saving || s.phase is Copying || s.phase is Reading
        || s.phase is Theming || s.phase is OpeningWindow || s.phase is Reclaiming || s.phase is LoadingKey
        || s.phase is HandedOff
        ==> count(fx, EffectKind::Request) == 0)
}

proof fn lemma_run_counts_step(s: Session, fx: Seq<Effect>, e: Event)
    requires
        run_counts_hold(s, fx),
    ensures
        run_counts_hold(spec_session_step(s, e).0, fx + spec_session_step(s, e).1),
{
    lemma_session_step_counts(s, e);
    lemma_count_add(fx, spec_session_step(s, e).1);
}

/// The counts hold all along a run that starts where they hold.
pub proof fn lemma_run_counts(s: Session, fx: Seq<Effect>, events: Seq<Event>)
    requires
        run_counts_hold(s, fx),
    ensures
        run_counts_hold(run_session(s, events).0, fx + run_session(s, events).1),
    decreases events.len(),
{
    if events.len() > 0 {
        lemma_run_counts(s, fx, events.drop_last());
        let (s1, fx1) = run_session(s, events.drop_last());
        lemma_run_counts_step(s1, fx + fx1, events.last());
        assert(fx + fx1 + spec_session_step(s1, events.last()).1
            =~= fx + (fx1 + spec_session_step(s1, events.last()).1));
    } else {
        assert(fx + Seq::<Effect>::empty() =~= fx);
    }
}

/// A whole hotkey run, whatever the events: it sends one status when it starts and one
/// when it is over; releases the lock once if it finishes and never if it hands the
/// window over; pastes at most once; sends at most one request; and, once finished, has
/// closed the polishing window exactly as often as it showed it (at most once).
pub proof fn lemma_hotkey_run(mode: Mode, events: Seq<Event>)
    ensures
        ({
            let (s, fx) = run_session(Session { mode, phase: Phase::Idle }, events);
            &&& count(fx, EffectKind::Release) == if s.phase is Finished { 1nat } else { 0nat }
            &&& count(fx, EffectKind::Status) == if s.phase is Idle {
                0nat
            } else if session_over(s.phase) {
                2nat
            } else {
                1nat
            }
            &&& count(fx, EffectKind::Paste) <= 1
            &&& count(fx, EffectKind::Request) <= 1
            &&& count(fx, EffectKind::ShowPopup) <= 1
            &&& (s.phase is Finished ==> count(fx, EffectKind::DismissPopup) == count(fx, EffectKind::ShowPopup))
            &&& (s.phase is HandedOff ==> count(fx, EffectKind::ShowPopup) == 0)
        }),
{
    let s0 = Session { mode, phase: Phase::Idle };
    let e: Seq<Effect> = seq![];
    lemma_count_small(Effect::Paste, Effect::Paste, Effect::Paste);
    assert(run_counts_hold(s0, e));
    lemma_run_counts(s0, e, events);
    assert(e + run_session(s0, events).1 =~= run_session(s0, events).1);
}

/// The polishing part of a run, from the step that loads the key to the end: it releases
/// the lock and sends a status once if it finishes and not before, pastes at most once,
/// and closes the polishing window at its end exactly when it was shown.
pub proof fn lemma_polish_and_paste_run(mode: Mode, text: String, original: Option<String>, popup: bool, events: Seq<Event>)
    ensures
        ({
            let (s, fx) = run_session(Session { mode, phase: Phase::LoadingKey { text, original, popup } }, events);
            &&& count(fx, EffectKind::Release) == if s.phase is Finished { 1nat } else { 0nat }
            &&& count(fx, EffectKind::Status) == if s.phase is Finished { 1nat } else { 0nat }
            &&& count(fx, EffectKind::Paste) <= 1
            &&& count(fx, EffectKind::ShowPopup) == 0
            &&& (s.phase is Finished ==> count(fx, EffectKind::DismissPopup) == if popup { 1nat } else { 0nat })
            &&& (!(s.phase is Finished) ==> count(fx, EffectKind::DismissPopup) == 0)
        }),
{
    let s0 = Session { mode, phase: Phase::LoadingKey { text, original, popup } };
    let shown = if popup {
        seq![Effect::EmitStatus(Status::Processing), Effect::ShowPolishPopup(Theme::Dark)]
    } else {
        seq![Effect::EmitStatus(Status::Processing)]
    };
    lemma_count_small(Effect::EmitStatus(Status::Processing), Effect::ShowPolishPopup(Theme::Dark), Effect::Paste);
    assert(run_counts_hold(s0, shown));
    lemma_run_counts(s0, shown, events);
    let (s, fx) = run_session(s0, events);
    lemma_count_add(shown, fx);
    lemma_run_stays_polishing(s0, events);
}

/// A run that starts at key loading never goes back to the earlier phases nor hands over
/// the window.
proof fn lemma_run_stays_polishing(s: Session, events: Seq<Event>)
    requires
        s.phase is LoadingKey || s.phase is Polishing || s.phase is Writing || s.phase is Pasting
            || s.phase is Finished,
    ensures
        ({
            let p = run_session(s, events).0.phase;
            p is LoadingKey || p is Polishing || p is Writing || p is Pasting || p is Finished
        }),
        count(run_session(s, events).1, EffectKind::ShowPopup) == 0,
    decreases events.len(),
{
    if events.len() > 0 {
        lemma_run_stays_polishing(s, events.drop_last());
        let (s1, fx1) = run_session(s, events.drop_last());
        lemma_session_step_counts(s1, events.last());
        lemma_count_add(fx1, spec_session_step(s1, events.last()).1);
    } else {
        lemma_count_small(Effect::Paste, Effect::Paste, Effect::Paste);
    }
}

/// The run of `events` from `s` went through an accepted selection: at some step the
/// session was reading the selection and the selection it read was accepted.
pub open spec fn accepted_in_run(s: Session, events: Seq<Event>) -> bool
    decreases events.len(),
{
    if events.len() == 0 {
        false
    } else {
        accepted_in_run(s, events.drop_last()) || {
            let s1 = run_session(s, events.drop_last()).0;
            s1.phase matches Phase::Reading { original } && events.last() matches Event::Selection(sel)
                && accepts_selection(sel, original)
        }
    }
}

/// The phases before a selection is accepted.
pub open spec fn before_acceptance(p: Phase) -> bool {
    p is Idle || p is Probing || p is Saving || p is Copying || p is Reading
}

/// What a run that brought a session to `s` with effects `fx` holds about acceptance,
/// where `acc` tells whether it accepted a selection.
pub open spec fn acceptance_holds(s: Session, fx: Seq<Effect>, acc: bool) -> bool {
    &&& !acc ==> count(fx, EffectKind::ShowPopup) == 0 && count(fx, EffectKind::Request) == 0
        && (before_acceptance(s.phase) || s.phase is Finished)
    &&& acc ==> !before_acceptance(s.phase)
    &&& s.mode is Polish ==> {
        &&& !(s.phase is OpeningWindow) && !(s.phase is Reclaiming) && !(s.phase is HandedOff)
        &&& (s.phase is LoadingKey || s.phase is Polishing || s.phase is Writing || s.phase is Pasting)
            ==> shows_popup(s.phase)
        &&& (acc && s.phase is Finished) ==> count(fx, EffectKind::ShowPopup) == 1
    }
}

proof fn lemma_acceptance_step(s: Session, fx: Seq<Effect>, acc: bool, e: Event)
    requires
        run_counts_hold(s, fx),
        acceptance_holds(s, fx, acc),
    ensures
        acceptance_holds(
            spec_session_step(s, e).0,
            fx + spec_session_step(s, e).1,
            acc || (s.phase matches Phase::Reading { original } && e matches Event::Selection(sel)
                && accepts_selection(sel, original)),
        ),
{
    lemma_session_step_counts(s, e);
    lemma_count_add(fx, spec_session_step(s, e).1);
}

proof fn lemma_acceptance_run(s0: Session, events: Seq<Event>)
    requires
        s0.phase is Idle,
    ensures
        run_counts_hold(run_session(s0, events).0, run_session(s0, events).1),
        acceptance_holds(run_session(s0, events).0, run_session(s0, events).1, accepted_in_run(s0, events)),
        run_session(s0, events).0.mode == s0.mode,
    decreases events.len(),
{
    if events.len() == 0 {
        lemma_count_small(Effect::Paste, Effect::Paste, Effect::Paste);
    } else {
        let prefix = events.drop_last();
        lemma_acceptance_run(s0, prefix);
        let (s1, fx1) = run_session(s0, prefix);
        lemma_run_counts_step(s1, fx1, events.last());
        lemma_acceptance_step(s1, fx1, accepted_in_run(s0, prefix), events.last());
    }
}

/// A polish hotkey run shows the polishing window and asks for a polish only after it
/// accepted a selection, each at most once; once it finishes after accepting a
/// selection, it has shown the window exactly once and closed it exactly once.
pub proof fn lemma_polish_run_follows_accepted_selection(events: Seq<Event>)
    ensures
        ({
            let s0 = Session { mode: Mode::Polish, phase: Phase::Idle };
            let (s, fx) = run_session(s0, events);
            let acc = accepted_in_run(s0, events);
            &&& count(fx, EffectKind::ShowPopup) > 0 || count(fx, EffectKind::Request) > 0 ==> acc
            &&& count(fx, EffectKind::ShowPopup) <= 1
            &&& count(fx, EffectKind::Request) <= 1
            &&& acc && s.phase is Finished ==> count(fx, EffectKind::ShowPopup) == 1
                && count(fx, EffectKind::DismissPopup) == 1
            &&& !acc && s.phase is Finished ==> count(fx, EffectKind::ShowPopup) == 0
                && count(fx, EffectKind::DismissPopup) == 0
        }),
{
    let s0 = Session { mode: Mode::Polish, phase: Phase::Idle };
    lemma_acceptance_run(s0, events);
}

/// What a session works on is the selection it read. A selection that is not empty and
/// differs from what the clipboard held before is kept, with that earlier content, while
/// the theme is read; any other selection ends the session with "no selection". The kept
/// text and clipboard content go on unchanged once the theme is read; with a stored key,
/// the request asks to polish that very text with that key; and the answer that comes
/// back is what is written to the clipboard.
pub proof fn lemma_session_works_on_selection(s: Session, e: Event)
    ensures
        ({
            let (s2, fx) = spec_session_step(s, e);
            &&& s.phase is Reading && e is Selection && e->Selection_0 is Some
                && (e->Selection_0->0)@.len() > 0
                && Some((e->Selection_0->0)@) != view_option(s.phase->Reading_original)
                ==> s2.phase == (Phase::Theming {
                    text: e->Selection_0->0,
                    original: s.phase->Reading_original,
                }) && fx == seq![Effect::LoadTheme]
            &&& s.phase is Reading && e is Selection && (e->Selection_0 is None
                || (e->Selection_0->0)@.len() == 0
                || Some((e->Selection_0->0)@) == view_option(s.phase->Reading_original))
                ==> s2.phase is Finished && fx.last() == Effect::Finish(Status::NoSelection)
            &&& s.phase is Theming && e is Theme && s.mode == Mode::Polish
                ==> s2.phase == (Phase::LoadingKey {
                    text: s.phase->Theming_text,
                    original: s.phase->Theming_original,
                    popup: true,
                })
            &&& s.phase is Theming && e is Theme && s.mode == Mode::Transform
                ==> s2.phase == (Phase::OpeningWindow {
                    text: s.phase->Theming_text,
                    original: s.phase->Theming_original,
                })
            &&& s.phase is LoadingKey && e is ApiKey && (e->ApiKey_0)@.len() > 0
                ==> fx == seq![Effect::Polish { text: s.phase->LoadingKey_text, api_key: e->ApiKey_0 }]
            &&& s.phase is Polishing && e is Completed && e->Completed_0 is Ok
                ==> fx == seq![Effect::WriteClipboard(e->Completed_0->Ok_0)]
        }),
{
}

/// Every window a session opens takes the stored theme: light where the store holds
/// `light`, dark where it holds nothing or anything else. Once the theme is read, a polish
/// session shows its polishing window first, and a custom instruction session opens its
/// instruction window last, after handing it the selection.
pub proof fn lemma_windows_take_stored_theme(s: Session, stored: Option<String>)
    ensures
        ({
            let fx = spec_session_step(s, Event::Theme(stored)).1;
            let light = view_option(stored) == Some("light"@);
            &&& forall|i: int| 0 <= i < fx.len() && #[trigger] fx[i] is ShowPolishPopup
                ==> (fx[i] == Effect::ShowPolishPopup(Theme::Light) <==> light)
            &&& forall|i: int| 0 <= i < fx.len() && #[trigger] fx[i] is OpenTransformWindow
                ==> (fx[i] == Effect::OpenTransformWindow(Theme::Light) <==> light)
            &&& s.phase is Theming && s.mode == Mode::Polish ==> fx.len() == 2
                && fx[0] == Effect::ShowPolishPopup(if light { Theme::Light } else { Theme::Dark })
            &&& s.phase is Theming && s.mode == Mode::Transform ==> fx.len() == 3
                && fx[1] == Effect::StorePending(PendingTransform {
                    text: s.phase->Theming_text,
                    original_clipboard: s.phase->Theming_original,
                })
                && fx[2] == Effect::OpenTransformWindow(if light { Theme::Light } else { Theme::Dark })
            &&& stored is None ==> forall|i: int| 0 <= i < fx.len() ==> #[trigger] fx[i]
                != Effect::ShowPolishPopup(Theme::Light) && fx[i] != Effect::OpenTransformWindow(Theme::Light)
        }),
{
    let fx = spec_session_step(s, Event::Theme(stored)).1;
    let light = view_option(stored) == Some("light"@);
    match s.phase {
        Phase::Theming { text, original } => {
            assert(spec_stored_theme(view_option(stored)) == if light { Theme::Light } else { Theme::Dark });
        },
        _ => {
            assert(fx.len() == 0);
        },
    }
}

} // verus!
