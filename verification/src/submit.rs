use vstd::prelude::*;

use crate::failure::{classify, spec_classify, Job};
use crate::flow::{
    lemma_count_add, lemma_count_small, lemma_restore_counts, push_restore_and_finish, finish_count, restores_before_release, spec_restore_and_finish, Effect, Event,
    LogKind, Notice, PendingTransform, Status, PASTE_DELAY_MS, RESTORE_DELAY_MS, WINDOW_CLOSE_MS,
};
use crate::state::AppState;
use crate::text::{trim, trimmed};

verus! {

/// How a submission of the custom instruction window ended.
#[derive(PartialEq, Eq, Debug)]
pub enum Outcome {
    /// The result went out (or could not be put on the clipboard, which is not reported).
    Submitted,
    EmptyInstruction,
    NoPendingText,
    NoApiKey,
    /// The request failed with this error text.
    Failed(String),
}

/// What the window is told of an outcome.
pub open spec fn spec_outcome_result(o: Outcome) -> Result<(), Seq<char>> {
    match o {
        Outcome::Submitted => Ok(()),
        Outcome::EmptyInstruction => Err("Empty instruction"@),
        Outcome::NoPendingText => Err("No pending text"@),
        Outcome::NoApiKey => Err("No API key"@),
        Outcome::Failed(e) => Err(e@),
    }
}

/// What the window is told of an outcome.
pub fn outcome_result(o: Outcome) -> (r: Result<(), String>)
    ensures
        match r {
            Ok(()) => spec_outcome_result(o) == Ok::<(), Seq<char>>(()),
            Err(e) => spec_outcome_result(o) == Err::<(), Seq<char>>(e@),
        },
{
    match o {
        Outcome::Submitted => Ok(()),
        Outcome::EmptyInstruction => Err(String::from_str("Empty instruction")),
        Outcome::NoPendingText => Err(String::from_str("No pending text")),
        Outcome::NoApiKey => Err(String::from_str("No API key")),
        Outcome::Failed(e) => Err(e),
    }
}

/// Where the submission of the custom instruction window stands.
#[derive(PartialEq, Eq, Debug)]
pub enum SubmitPhase {
    LoadingKey { text: String, instruction: String, original: Option<String>, prompt: bool },
    Requesting { original: Option<String> },
    Writing { original: Option<String> },
    /// Over.
    Done(Outcome),
}

/// The submission of the custom instruction window.
#[derive(PartialEq, Eq, Debug)]
pub struct Submit {
    pub phase: SubmitPhase,
}

/// The instruction is refused: the mode asks for an instruction and, trimmed, it is empty.
pub open spec fn refuses_instruction(instruction: Seq<char>, mode: Seq<char>) -> bool {
    mode == "transform"@ && trimmed(instruction).len() == 0
}

/// Submits the custom instruction window with the given instruction and mode
/// (`transform`, or `prompt` to have the text rewritten as a prompt): refuses an empty
/// instruction in `transform` mode, leaving the waiting text in place; otherwise takes the
/// waiting text, refuses when there is none, and asks for the stored key.
pub fn submit_transform(state: &mut AppState, instruction: &str, mode: &str) -> (r: (Submit, Vec<Effect>))
    ensures
        final(state).is_processing == old(state).is_processing,
        final(state).hotkey == old(state).hotkey,
        refuses_instruction(instruction@, mode@) ==> {
            &&& final(state).pending_transform == old(state).pending_transform
            &&& r.0.phase matches SubmitPhase::Done(Outcome::EmptyInstruction)
            &&& r.1@.len() == 0
        },
        !refuses_instruction(instruction@, mode@) ==> {
            &&& final(state).pending_transform is None
            &&& match old(state).pending_transform {
                None => r.0.phase matches SubmitPhase::Done(Outcome::NoPendingText) && r.1@.len() == 0,
                Some(p) => (r.0.phase matches SubmitPhase::LoadingKey { text, instruction: i, original, prompt }
                    && text == p.text && original == p.original_clipboard && i@ == trimmed(instruction@)
                    && prompt == (mode@ == "prompt"@)) && r.1@ == seq![Effect::LoadApiKey],
            }
        },
{
    let instruction = trim(instruction);
    let mode = String::from_str(mode);
    if mode == String::from_str("transform") && instruction.as_str().is_empty() {
        return (Submit { phase: SubmitPhase::Done(Outcome::EmptyInstruction) }, Vec::new());
    }
    let prompt = mode == String::from_str("prompt");
    match state.take_pending() {
        None => (Submit { phase: SubmitPhase::Done(Outcome::NoPendingText) }, Vec::new()),
        Some(p) => {
            let mut fx: Vec<Effect> = Vec::new();
            fx.push(Effect::LoadApiKey);
            (
                Submit {
                    phase: SubmitPhase::LoadingKey {
                        text: p.text,
                        instruction,
                        original: p.original_clipboard,
                        prompt,
                    },
                },
                fx,
            )
        },
    }
}

/// One step of the submission.
pub open spec fn spec_submit_step(s: Submit, e: Event) -> (Submit, Seq<Effect>) {
    match (s.phase, e) {
        (SubmitPhase::LoadingKey { text, instruction, original, prompt }, Event::ApiKey(k)) => if k@.len() == 0 {
            (
                Submit { phase: SubmitPhase::Done(Outcome::NoApiKey) },
                seq![Effect::Notify(Notice::NoApiKey)] + spec_restore_and_finish(original, Status::Error),
            )
        } else {
            (
                Submit { phase: SubmitPhase::Requesting { original } },
                seq![
                    Effect::EmitStatus(Status::Processing),
                    if prompt {
                        Effect::OptimizePrompt { text, instruction, api_key: k }
                    } else {
                        Effect::Transform { text, instruction, api_key: k }
                    },
                ],
            )
        },
        (SubmitPhase::Requesting { original }, Event::Completed(r)) => match r {
            Ok(t) => (
                Submit { phase: SubmitPhase::Writing { original } },
                seq![Effect::CloseTransformWindow, Effect::Sleep(WINDOW_CLOSE_MS), Effect::WriteClipboard(t)],
            ),
            Err(err) => (
                Submit { phase: SubmitPhase::Done(Outcome::Failed(err)) },
                seq![
                    Effect::Log(LogKind::TransformFailed, err),
                    Effect::Notify(Notice::Failed(spec_classify(err@), Job::Transform)),
                    Effect::CloseTransformWindow,
                ] + spec_restore_and_finish(original, Status::Error),
            ),
        },
        (SubmitPhase::Writing { original }, Event::Written(ok)) => if ok {
            (
                Submit { phase: SubmitPhase::Done(Outcome::Submitted) },
                seq![Effect::Sleep(PASTE_DELAY_MS), Effect::Paste, Effect::Sleep(RESTORE_DELAY_MS)]
                    + spec_restore_and_finish(original, Status::Ready),
            )
        } else {
            (Submit { phase: SubmitPhase::Done(Outcome::Submitted) }, seq![Effect::Finish(Status::Ready)])
        },
        (p, _) => (Submit { phase: p }, seq![]),
    }
}

impl Submit {
    /// Whether the submission is over.
    pub fn is_done(&self) -> (b: bool)
        ensures
            b == self.phase is Done,
    {
        match self.phase {
            SubmitPhase::Done(_) => true,
            _ => false,
        }
    }

    /// The submission after `e`, and what the application is to do.
    pub fn step(self, e: Event) -> (r: (Submit, Vec<Effect>))
        ensures
            r.0 == spec_submit_step(self, e).0,
            r.1@ == spec_submit_step(self, e).1,
    {
        let mut fx: Vec<Effect> = Vec::new();
        let phase = match (self.phase, e) {
            (SubmitPhase::LoadingKey { text, instruction, original, prompt }, Event::ApiKey(k)) => {
                if k.as_str().is_empty() {
                    fx.push(Effect::Notify(Notice::NoApiKey));
                    push_restore_and_finish(&mut fx, original, Status::Error);
                    SubmitPhase::Done(Outcome::NoApiKey)
                } else {
                    fx.push(Effect::EmitStatus(Status::Processing));
                    if prompt {
                        fx.push(Effect::OptimizePrompt { text, instruction, api_key: k });
                    } else {
                        fx.push(Effect::Transform { text, instruction, api_key: k });
                    }
                    SubmitPhase::Requesting { original }
                }
            },
            (SubmitPhase::Requesting { original }, Event::Completed(r)) => match r {
                Ok(t) => {
                    fx.push(Effect::CloseTransformWindow);
                    fx.push(Effect::Sleep(WINDOW_CLOSE_MS));
                    fx.push(Effect::WriteClipboard(t));
                    SubmitPhase::Writing { original }
                },
                Err(err) => {
                    let f = classify(err.as_str());
                    fx.push(Effect::Log(LogKind::TransformFailed, err.clone()));
                    fx.push(Effect::Notify(Notice::Failed(f, Job::Transform)));
                    fx.push(Effect::CloseTransformWindow);
                    push_restore_and_finish(&mut fx, original, Status::Error);
                    SubmitPhase::Done(Outcome::Failed(err))
                },
            },
            (SubmitPhase::Writing { original }, Event::Written(ok)) => {
                if ok {
                    fx.push(Effect::Sleep(PASTE_DELAY_MS));
                    fx.push(Effect::Paste);
                    fx.push(Effect::Sleep(RESTORE_DELAY_MS));
                    push_restore_and_finish(&mut fx, original, Status::Ready);
                } else {
                    fx.push(Effect::Finish(Status::Ready));
                }
                SubmitPhase::Done(Outcome::Submitted)
            },
            (p, _) => p,
        };
        (Submit { phase }, fx)
    }
}

/// The effects of cancelling the custom instruction window, given the text that was
/// waiting in it: close the window, put back the clipboard content kept with the text,
/// and release the lock.
pub open spec fn spec_cancel(taken: Option<PendingTransform>) -> Seq<Effect> {
    seq![Effect::CloseTransformWindow] + spec_restore_and_finish(
        match taken {
            Some(p) => p.original_clipboard,
            None => None,
        },
        Status::Ready,
    )
}

/// Cancels the custom instruction window: takes the waiting text, closes the window, puts
/// back the clipboard content kept with the text and releases the lock.
pub fn cancel_transform(state: &mut AppState) -> (fx: Vec<Effect>)
    ensures
        final(state).pending_transform is None,
        final(state).is_processing == old(state).is_processing,
        final(state).hotkey == old(state).hotkey,
        fx@ == spec_cancel(old(state).pending_transform),
{
    let taken = state.take_pending();
    let original = match taken {
        Some(p) => p.original_clipboard,
        None => None,
    };
    let mut fx: Vec<Effect> = Vec::new();
    fx.push(Effect::CloseTransformWindow);
    push_restore_and_finish(&mut fx, original, Status::Ready);
    fx
}

/// The clipboard content that a submission still has to put back.
pub open spec fn submit_original(p: SubmitPhase) -> Option<String> {
    match p {
        SubmitPhase::LoadingKey { original, .. } => original,
        SubmitPhase::Requesting { original } => original,
        SubmitPhase::Writing { original } => original,
        _ => None,
    }
}

/// A submission that took the waiting text releases the processing lock exactly once,
/// in the step that ends it, and a finished submission does nothing more. (The refusals
/// before the text is taken, an empty instruction or no waiting text, release nothing:
/// `submit_transform` returns no effects for them.)
pub proof fn lemma_submit_releases_lock_once(s: Submit, e: Event)
    ensures
        finish_count(spec_submit_step(s, e).1) == if !(s.phase is Done) && spec_submit_step(s, e).0.phase is Done {
            1nat
        } else {
            0nat
        },
        s.phase is Done ==> spec_submit_step(s, e).0 == s && spec_submit_step(s, e).1.len() == 0,
{
    let w = Effect::Paste;
    match (s.phase, e) {
        (SubmitPhase::LoadingKey { text, instruction, original, prompt }, Event::ApiKey(k)) => {
            lemma_restore_counts(original, Status::Error, false);
            lemma_count_small(Effect::Notify(Notice::NoApiKey), w, w);
            lemma_count_add(seq![Effect::Notify(Notice::NoApiKey)], spec_restore_and_finish(original, Status::Error));
            let req = if prompt {
                Effect::OptimizePrompt { text, instruction, api_key: k }
            } else {
                Effect::Transform { text, instruction, api_key: k }
            };
            lemma_count_small(Effect::EmitStatus(Status::Processing), req, w);
        },
        (SubmitPhase::Requesting { original }, Event::Completed(r)) => {
            lemma_restore_counts(original, Status::Error, false);
            match r {
                Ok(t) => lemma_count_small(Effect::CloseTransformWindow, Effect::Sleep(WINDOW_CLOSE_MS), Effect::WriteClipboard(t)),
                Err(err) => {
                    let head = seq![
                        Effect::Log(LogKind::TransformFailed, err),
                        Effect::Notify(Notice::Failed(spec_classify(err@), Job::Transform)),
                        Effect::CloseTransformWindow,
                    ];
                    lemma_count_small(head[0], head[1], head[2]);
                    lemma_count_add(head, spec_restore_and_finish(original, Status::Error));
                },
            }
        },
        (SubmitPhase::Writing { original }, Event::Written(ok)) => {
            lemma_restore_counts(original, Status::Ready, false);
            let head = seq![Effect::Sleep(PASTE_DELAY_MS), Effect::Paste, Effect::Sleep(RESTORE_DELAY_MS)];
            lemma_count_small(head[0], head[1], head[2]);
            lemma_count_add(head, spec_restore_and_finish(original, Status::Ready));
            lemma_count_small(Effect::Finish(Status::Ready), w, w);
        },
        _ => {
            lemma_count_small(w, w, w);
        },
    }
}

/// A submission that ends after taking the waiting text writes the clipboard content
/// kept with it back before it releases the lock, except when the result could not be
/// put on the clipboard (which leaves the clipboard as the copy left it).
pub proof fn lemma_submit_restores_clipboard(s: Submit, e: Event, o: String)
    ensures
        submit_original(s.phase) == Some(o) && spec_submit_step(s, e).0.phase is Done
            && !(e matches Event::Written(false))
            ==> restores_before_release(spec_submit_step(s, e).1, o),
{
    let (s2, fx) = spec_submit_step(s, e);
    if submit_original(s.phase) == Some(o) && s2.phase is Done && !(e matches Event::Written(false)) {
        match (s.phase, e) {
            (SubmitPhase::LoadingKey { .. }, Event::ApiKey(k)) => {
                assert(fx[1] == Effect::WriteClipboard(o) && fx[2] is Finish);
            },
            (SubmitPhase::Requesting { .. }, Event::Completed(r)) => {
                assert(fx[3] == Effect::WriteClipboard(o) && fx[4] is Finish);
            },
            (SubmitPhase::Writing { .. }, Event::Written(ok)) => {
                assert(fx[3] == Effect::WriteClipboard(o) && fx[4] is Finish);
            },
            _ => {},
        }
    }
}

/// Cancelling releases the lock exactly once and, where text was waiting with a
/// clipboard content kept aside, writes that content back first.
pub proof fn lemma_cancel_restores_and_releases(taken: Option<PendingTransform>, o: String)
    ensures
        finish_count(spec_cancel(taken)) == 1,
        (taken matches Some(p) && p.original_clipboard == Some(o))
            ==> restores_before_release(spec_cancel(taken), o),
{
    let original = match taken {
        Some(p) => p.original_clipboard,
        None => None,
    };
    lemma_restore_counts(original, Status::Ready, false);
    lemma_count_small(Effect::CloseTransformWindow, Effect::Paste, Effect::Paste);
    lemma_count_add(seq![Effect::CloseTransformWindow], spec_restore_and_finish(original, Status::Ready));
    let fx = spec_cancel(taken);
    if taken matches Some(p) && p.original_clipboard == Some(o) {
        assert(fx[1] == Effect::WriteClipboard(o) && fx[2] is Finish);
    }
}

/// A submission sends a request only with a stored key, and only in the step that
/// receives that key.
pub proof fn lemma_submit_requests_only_with_key(s: Submit, e: Event)
    ensures
        forall|i: int| 0 <= i < spec_submit_step(s, e).1.len()
            && (#[trigger] spec_submit_step(s, e).1[i] is Transform || spec_submit_step(s, e).1[i] is OptimizePrompt)
            ==> s.phase is LoadingKey && (e matches Event::ApiKey(k) && k@.len() > 0),
{
    let fx = spec_submit_step(s, e).1;
    assert forall|i: int| 0 <= i < fx.len() && (#[trigger] fx[i] is Transform || fx[i] is OptimizePrompt)
        implies s.phase is LoadingKey && (e matches Event::ApiKey(k) && k@.len() > 0) by {
        match (s.phase, e) {
            (SubmitPhase::LoadingKey { original, .. }, Event::ApiKey(k)) => {
                if k@.len() == 0 && i >= 1 {
                    assert(fx[i] == spec_restore_and_finish(original, Status::Error)[i - 1]);
                }
            },
            (SubmitPhase::Requesting { original }, Event::Completed(r)) => {
                if r is Err && i >= 3 {
                    assert(fx[i] == spec_restore_and_finish(original, Status::Error)[i - 3]);
                }
            },
            (SubmitPhase::Writing { original }, Event::Written(ok)) => {
                if ok && i >= 3 {
                    assert(fx[i] == spec_restore_and_finish(original, Status::Ready)[i - 3]);
                }
            },
            _ => {},
        }
    }
}

/// A submission works on what it was handed: with a stored key, its request carries the
/// waiting text, the instruction and that key, and rewrites the text as a prompt in
/// `prompt` mode and applies the instruction otherwise; the answer that comes back is
/// what is written to the clipboard, once the window is closed; and the paste follows
/// only a successful write.
pub proof fn lemma_submit_works_on_pending_text(s: Submit, e: Event)
    ensures
        ({
            let (s2, fx) = spec_submit_step(s, e);
            &&& s.phase is LoadingKey && e is ApiKey && (e->ApiKey_0)@.len() > 0 && s.phase->LoadingKey_prompt
                ==> fx == seq![
                    Effect::EmitStatus(Status::Processing),
                    Effect::OptimizePrompt {
                        text: s.phase->LoadingKey_text,
                        instruction: s.phase->LoadingKey_instruction,
                        api_key: e->ApiKey_0,
                    },
                ]
            &&& s.phase is LoadingKey && e is ApiKey && (e->ApiKey_0)@.len() > 0 && !s.phase->LoadingKey_prompt
                ==> fx == seq![
                    Effect::EmitStatus(Status::Processing),
                    Effect::Transform {
                        text: s.phase->LoadingKey_text,
                        instruction: s.phase->LoadingKey_instruction,
                        api_key: e->ApiKey_0,
                    },
                ]
            &&& s.phase is Requesting && e is Completed && e->Completed_0 is Ok
                ==> s2.phase is Writing && fx.len() == 3 && fx[0] == Effect::CloseTransformWindow
                    && fx[2] == Effect::WriteClipboard(e->Completed_0->Ok_0)
            &&& s.phase is Writing && e == Event::Written(true) ==> fx[1] == Effect::Paste
            &&& s.phase is Writing && e == Event::Written(false)
                ==> fx == seq![Effect::Finish(Status::Ready)]
        }),
{
}

} // verus!
