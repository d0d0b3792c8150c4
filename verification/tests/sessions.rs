use polishd::failure::{Failure, Job};
use polishd::settings::Theme;
use polishd::flow::{
    log_line, notice_text, status_name, Effect, Event, LogKind, Mode, Notice, PendingTransform, Phase,
    Session, Status,
};
use polishd::state::{focus_retry_delays, handle_hotkey, handle_transform_hotkey, test_polish, AppState};
use polishd::submit::{cancel_transform, outcome_result, submit_transform, Outcome, SubmitPhase};

fn s(t: &str) -> String {
    t.to_string()
}

fn run(session: Session, events: Vec<Event>) -> (Session, Vec<Vec<Effect>>) {
    let mut session = session;
    let mut all = Vec::new();
    for e in events {
        let (next, fx) = session.step(e);
        session = next;
        all.push(fx);
    }
    (session, all)
}

#[test]
fn polish_session_happy_path() {
    let mut state = AppState::new(s("Ctrl+Shift+E"));
    let (session, fx) = handle_hotkey(&mut state).unwrap();
    assert!(state.is_processing);
    assert_eq!(fx, vec![Effect::EmitStatus(Status::Processing), Effect::Sleep(200), Effect::ProbeEditable]);
    let (session, fx) = run(
        session,
        vec![
            Event::Editable(None),
            Event::Saved(Some(s("old clip"))),
            Event::Copied(Ok(())),
            Event::Selection(Some(s("teh text"))),
            Event::Theme(Some(s("light"))),
            Event::ApiKey(s("sk")),
            Event::Completed(Ok(s("The text."))),
            Event::Written(true),
            Event::Pasted(Ok(())),
        ],
    );
    assert_eq!(fx[0], vec![Effect::SaveClipboard]);
    assert_eq!(fx[1], vec![Effect::CopySelection]);
    assert_eq!(fx[2], vec![Effect::Sleep(120), Effect::ReadClipboard]);
    assert_eq!(fx[3], vec![Effect::LoadTheme]);
    assert_eq!(fx[4], vec![Effect::ShowPolishPopup(Theme::Light), Effect::LoadApiKey]);
    assert_eq!(fx[5], vec![Effect::Polish { text: s("teh text"), api_key: s("sk") }]);
    assert_eq!(fx[6], vec![Effect::WriteClipboard(s("The text."))]);
    assert_eq!(fx[7], vec![Effect::Sleep(60), Effect::Paste]);
    assert_eq!(
        fx[8],
        vec![
            Effect::Sleep(220),
            Effect::WriteClipboard(s("old clip")),
            Effect::Finish(Status::Ready),
            Effect::DismissPolishPopup,
        ]
    );
    assert_eq!(session.phase, Phase::Finished);
    assert!(session.is_over());
    let (after, more) = session.step(Event::Start);
    assert_eq!(after.phase, Phase::Finished);
    assert!(more.is_empty());
}

#[test]
fn second_hotkey_is_ignored_while_busy() {
    let mut state = AppState::new(s("Ctrl+Shift+E"));
    assert!(handle_hotkey(&mut state).is_some());
    assert!(handle_hotkey(&mut state).is_none());
    assert!(handle_transform_hotkey(&mut state).is_none());
    assert!(state.is_processing);
    state.finish();
    assert!(!state.is_processing);
    assert!(state.claim_processing_lock());
    assert!(!state.claim_processing_lock());
}

#[test]
fn non_editable_focus_stops_before_touching_the_clipboard() {
    let (session, fx) = run(Session::new(Mode::Polish), vec![Event::Start, Event::Editable(Some(false))]);
    assert_eq!(fx[1], vec![Effect::Finish(Status::NoEditable)]);
    assert_eq!(session.phase, Phase::Finished);
    let (session, fx) = run(Session::new(Mode::Polish), vec![Event::Start, Event::Editable(Some(true))]);
    assert_eq!(fx[1], vec![Effect::SaveClipboard]);
    assert_eq!(session.phase, Phase::Saving);
}

#[test]
fn copy_failure_is_logged() {
    let (session, fx) = run(
        Session::new(Mode::Polish),
        vec![Event::Start, Event::Editable(None), Event::Saved(None), Event::Copied(Err(s("no display")))],
    );
    assert_eq!(fx[3], vec![Effect::Log(LogKind::CopyFailed, s("no display")), Effect::Finish(Status::Ready)]);
    assert_eq!(session.phase, Phase::Finished);
}

#[test]
fn unchanged_or_empty_selection_restores_the_clipboard() {
    for sel in [Some(s("same")), Some(s("")), None] {
        let (session, fx) = run(
            Session::new(Mode::Polish),
            vec![
                Event::Start,
                Event::Editable(None),
                Event::Saved(Some(s("same"))),
                Event::Copied(Ok(())),
                Event::Selection(sel),
            ],
        );
        assert_eq!(fx[4], vec![Effect::WriteClipboard(s("same")), Effect::Finish(Status::NoSelection)]);
        assert_eq!(session.phase, Phase::Finished);
    }
    let (_, fx) = run(
        Session::new(Mode::Polish),
        vec![Event::Start, Event::Editable(None), Event::Saved(None), Event::Copied(Ok(())), Event::Selection(None)],
    );
    assert_eq!(fx[4], vec![Effect::Finish(Status::NoSelection)]);
}

fn polishing(original: Option<String>) -> Session {
    let (session, _) = run(
        Session::new(Mode::Polish),
        vec![
            Event::Start,
            Event::Editable(None),
            Event::Saved(original),
            Event::Copied(Ok(())),
            Event::Selection(Some(s("text"))),
            Event::Theme(None),
        ],
    );
    session
}

#[test]
fn missing_key_and_failed_requests_restore_the_clipboard() {
    let (session, fx) = polishing(Some(s("orig"))).step(Event::ApiKey(s("")));
    assert_eq!(
        fx,
        vec![
            Effect::Notify(Notice::NoApiKey),
            Effect::WriteClipboard(s("orig")),
            Effect::Finish(Status::Error),
            Effect::DismissPolishPopup,
        ]
    );
    assert_eq!(session.phase, Phase::Finished);
    let (session, _) = polishing(Some(s("orig"))).step(Event::ApiKey(s("k")));
    let (session, fx) = session.step(Event::Completed(Err(s("API 429: slow"))));
    assert_eq!(
        fx,
        vec![
            Effect::Log(LogKind::PolishFailed, s("API 429: slow")),
            Effect::Notify(Notice::Failed(Failure::RateLimited, Job::Polish)),
            Effect::WriteClipboard(s("orig")),
            Effect::Finish(Status::Error),
            Effect::DismissPolishPopup,
        ]
    );
    assert_eq!(session.phase, Phase::Finished);
}

#[test]
fn failed_write_and_failed_paste() {
    let (session, _) = polishing(Some(s("orig"))).step(Event::ApiKey(s("k")));
    let (session, _) = session.step(Event::Completed(Ok(s("done"))));
    let (writing, _) = (session, ());
    let (ended, fx) = writing.step(Event::Written(false));
    assert_eq!(fx, vec![Effect::Finish(Status::Ready), Effect::DismissPolishPopup]);
    assert_eq!(ended.phase, Phase::Finished);

    let (session, _) = polishing(None).step(Event::ApiKey(s("k")));
    let (session, _) = session.step(Event::Completed(Ok(s("done"))));
    let (session, _) = session.step(Event::Written(true));
    let (session, fx) = session.step(Event::Pasted(Err(s("no keyboard"))));
    assert_eq!(fx, vec![Effect::Finish(Status::Error), Effect::DismissPolishPopup]);
    assert_eq!(session.phase, Phase::Finished);
}

#[test]
fn transform_hotkey_hands_the_lock_to_the_window() {
    let mut state = AppState::new(s("Ctrl+Shift+E"));
    let (session, _) = handle_transform_hotkey(&mut state).unwrap();
    let (session, fx) = run(
        session,
        vec![
            Event::Editable(Some(true)),
            Event::Saved(Some(s("clip"))),
            Event::Copied(Ok(())),
            Event::Selection(Some(s("rough"))),
            Event::Theme(Some(s("solarized"))),
            Event::WindowOpened(Ok(())),
        ],
    );
    assert_eq!(fx[3], vec![Effect::LoadTheme]);
    assert_eq!(
        fx[4],
        vec![
            Effect::CloseTransformWindow,
            Effect::StorePending(PendingTransform { text: s("rough"), original_clipboard: Some(s("clip")) }),
            Effect::OpenTransformWindow(Theme::Dark),
        ]
    );
    assert_eq!(fx[5], vec![Effect::FocusTransformWindow, Effect::EmitStatus(Status::Ready)]);
    assert_eq!(session.phase, Phase::HandedOff);
    assert!(state.is_processing);
    assert_eq!(focus_retry_delays(), vec![0, 20, 60, 140, 280]);
}

#[test]
fn transform_window_failure_falls_back_to_polishing() {
    let (session, fx) = run(
        Session::new(Mode::Transform),
        vec![
            Event::Start,
            Event::Editable(None),
            Event::Saved(Some(s("clip"))),
            Event::Copied(Ok(())),
            Event::Selection(Some(s("rough"))),
            Event::Theme(Some(s("dark"))),
            Event::WindowOpened(Err(s("no display"))),
            Event::Pending(Some(PendingTransform { text: s("rough"), original_clipboard: Some(s("clip")) })),
            Event::ApiKey(s("k")),
        ],
    );
    assert_eq!(fx[6], vec![Effect::Log(LogKind::WindowFailed, s("no display")), Effect::TakePending]);
    assert_eq!(fx[7], vec![Effect::LoadApiKey]);
    assert_eq!(fx[8], vec![Effect::Polish { text: s("rough"), api_key: s("k") }]);
    assert_eq!(session.phase, Phase::Polishing { original: Some(s("clip")), popup: false });
}

#[test]
fn submit_refuses_empty_instruction_and_keeps_the_text() {
    let mut state = AppState::new(s("k"));
    state.is_processing = true;
    state.store_pending(PendingTransform { text: s("t"), original_clipboard: None });
    let (sub, fx) = submit_transform(&mut state, "  \n ", "transform");
    assert_eq!(sub.phase, SubmitPhase::Done(Outcome::EmptyInstruction));
    assert!(fx.is_empty());
    assert!(state.pending_transform.is_some());
    assert_eq!(outcome_result(Outcome::EmptyInstruction), Err(s("Empty instruction")));

    let (sub, fx) = submit_transform(&mut state, "", "prompt");
    assert_eq!(fx, vec![Effect::LoadApiKey]);
    assert_eq!(
        sub.phase,
        SubmitPhase::LoadingKey { text: s("t"), instruction: s(""), original: None, prompt: true }
    );
    assert!(state.pending_transform.is_none());

    let (sub, fx) = submit_transform(&mut state, "x", "transform");
    assert_eq!(sub.phase, SubmitPhase::Done(Outcome::NoPendingText));
    assert!(fx.is_empty());
    assert_eq!(outcome_result(Outcome::NoPendingText), Err(s("No pending text")));
}

#[test]
fn submit_success_pastes_and_restores() {
    let mut state = AppState::new(s("k"));
    state.store_pending(PendingTransform { text: s("hello"), original_clipboard: Some(s("clip")) });
    let (sub, _) = submit_transform(&mut state, "  translate to French ", "transform");
    let (sub, fx) = sub.step(Event::ApiKey(s("sk")));
    assert_eq!(
        fx,
        vec![
            Effect::EmitStatus(Status::Processing),
            Effect::Transform { text: s("hello"), instruction: s("translate to French"), api_key: s("sk") },
        ]
    );
    let (sub, fx) = sub.step(Event::Completed(Ok(s("bonjour"))));
    assert_eq!(fx, vec![Effect::CloseTransformWindow, Effect::Sleep(150), Effect::WriteClipboard(s("bonjour"))]);
    let (sub, fx) = sub.step(Event::Written(true));
    assert_eq!(
        fx,
        vec![
            Effect::Sleep(60),
            Effect::Paste,
            Effect::Sleep(220),
            Effect::WriteClipboard(s("clip")),
            Effect::Finish(Status::Ready),
        ]
    );
    assert!(sub.is_done());
    assert_eq!(outcome_result(Outcome::Submitted), Ok(()));
}

#[test]
fn submit_failures() {
    let mut state = AppState::new(s("k"));
    state.store_pending(PendingTransform { text: s("hello"), original_clipboard: Some(s("clip")) });
    let (sub, _) = submit_transform(&mut state, "shorter", "transform");
    let (sub, fx) = sub.step(Event::ApiKey(s("")));
    assert_eq!(
        fx,
        vec![Effect::Notify(Notice::NoApiKey), Effect::WriteClipboard(s("clip")), Effect::Finish(Status::Error)]
    );
    assert_eq!(sub.phase, SubmitPhase::Done(Outcome::NoApiKey));
    assert_eq!(outcome_result(Outcome::NoApiKey), Err(s("No API key")));

    state.store_pending(PendingTransform { text: s("hello"), original_clipboard: None });
    let (sub, _) = submit_transform(&mut state, "shorter", "prompt");
    let (sub, fx) = sub.step(Event::ApiKey(s("sk")));
    assert_eq!(
        fx[1],
        Effect::OptimizePrompt { text: s("hello"), instruction: s("shorter"), api_key: s("sk") }
    );
    let (sub, fx) = sub.step(Event::Completed(Err(s("API 403: no"))));
    assert_eq!(
        fx,
        vec![
            Effect::Log(LogKind::TransformFailed, s("API 403: no")),
            Effect::Notify(Notice::Failed(Failure::InvalidKey, Job::Transform)),
            Effect::CloseTransformWindow,
            Effect::Finish(Status::Error),
        ]
    );
    assert_eq!(sub.phase, SubmitPhase::Done(Outcome::Failed(s("API 403: no"))));
    assert_eq!(outcome_result(Outcome::Failed(s("API 403: no"))), Err(s("API 403: no")));
}

#[test]
fn cancel_restores_and_releases() {
    let mut state = AppState::new(s("k"));
    state.store_pending(PendingTransform { text: s("t"), original_clipboard: Some(s("clip")) });
    let fx = cancel_transform(&mut state);
    assert_eq!(
        fx,
        vec![Effect::CloseTransformWindow, Effect::WriteClipboard(s("clip")), Effect::Finish(Status::Ready)]
    );
    assert!(state.pending_transform.is_none());
    assert_eq!(cancel_transform(&mut state), vec![Effect::CloseTransformWindow, Effect::Finish(Status::Ready)]);
}

#[test]
fn hotkey_changes_follow_registration() {
    let mut state = AppState::new(s("Ctrl+Shift+E"));
    assert_eq!(state.set_hotkey(s("Alt+P"), Err(s("taken"))), Err(s("taken")));
    assert_eq!(state.hotkey, "Ctrl+Shift+E");
    assert_eq!(state.set_hotkey(s("Alt+P"), Ok(())), Ok(()));
    assert_eq!(state.hotkey, "Alt+P");
}

#[test]
fn test_polish_needs_a_key() {
    assert_eq!(test_polish("x", ""), Err(s("No API key configured.")));
    let r = test_polish("x", "sk").unwrap();
    assert_eq!(r.messages[1].content, "x");
}

#[test]
fn texts_shown_and_logged() {
    assert_eq!(status_name(Status::Ready), "ready");
    assert_eq!(status_name(Status::Processing), "processing");
    assert_eq!(status_name(Status::Error), "error");
    assert_eq!(status_name(Status::NoEditable), "no-editable");
    assert_eq!(status_name(Status::NoSelection), "no-selection");
    assert_eq!(notice_text(Notice::NoApiKey), "No API key — open Settings and paste your OpenRouter key.");
    assert_eq!(
        notice_text(Notice::Failed(Failure::Other, Job::Polish)),
        "Polish failed. Check your internet connection."
    );
    assert_eq!(log_line(LogKind::PolishFailed, "boom"), "[polishd] API error: boom");
    assert_eq!(log_line(LogKind::CopyFailed, "x"), "[polishd] copy error: x");
    assert_eq!(log_line(LogKind::TransformFailed, "x"), "[polishd] transform error: x");
    assert_eq!(log_line(LogKind::WindowFailed, "x"), "[polishd] build transform window: x");
}

fn tally(all: &[Vec<Effect>]) -> (usize, usize, usize, usize, usize) {
    let fx: Vec<&Effect> = all.iter().flatten().collect();
    let finishes = fx.iter().filter(|e| matches!(e, Effect::Finish(_))).count();
    let statuses = fx.iter().filter(|e| matches!(e, Effect::Finish(_) | Effect::EmitStatus(_))).count();
    let pastes = fx.iter().filter(|e| matches!(e, Effect::Paste)).count();
    let shows = fx.iter().filter(|e| matches!(e, Effect::ShowPolishPopup(_))).count();
    let dismissals = fx.iter().filter(|e| matches!(e, Effect::DismissPolishPopup)).count();
    (finishes, statuses, pastes, shows, dismissals)
}

#[test]
fn whole_runs_release_once_and_report_twice() {
    let happy = vec![
        Event::Start,
        Event::Editable(None),
        Event::Saved(Some(s("old"))),
        Event::Copied(Ok(())),
        Event::Selection(Some(s("text"))),
        Event::Theme(None),
        Event::ApiKey(s("k")),
        Event::Completed(Ok(s("Text."))),
        Event::Written(true),
        Event::Pasted(Ok(())),
        Event::Pasted(Ok(())),
        Event::Start,
    ];
    let (session, fx) = run(Session::new(Mode::Polish), happy);
    assert_eq!(session.phase, Phase::Finished);
    assert_eq!(tally(&fx), (1, 2, 1, 1, 1));

    let fallback = vec![
        Event::Start,
        Event::Editable(None),
        Event::Saved(None),
        Event::Copied(Ok(())),
        Event::Selection(Some(s("text"))),
        Event::Theme(None),
        Event::WindowOpened(Err(s("no display"))),
        Event::Pending(None),
        Event::ApiKey(s("k")),
        Event::Completed(Err(s("timeout"))),
    ];
    let (session, fx) = run(Session::new(Mode::Transform), fallback);
    assert_eq!(session.phase, Phase::Finished);
    assert_eq!(tally(&fx), (1, 2, 0, 0, 0));

    let handed = vec![
        Event::Start,
        Event::Editable(None),
        Event::Saved(None),
        Event::Copied(Ok(())),
        Event::Selection(Some(s("text"))),
        Event::Theme(None),
        Event::WindowOpened(Ok(())),
    ];
    let (session, fx) = run(Session::new(Mode::Transform), handed);
    assert_eq!(session.phase, Phase::HandedOff);
    assert_eq!(tally(&fx), (0, 2, 0, 0, 0));
}
