use polishd::keystroke::{copy, paste, release_stuck_modifiers, KeyName, KeyStep};

#[test]
fn copy_on_linux_and_windows() {
    assert_eq!(
        copy(false),
        vec![
            KeyStep::ReleaseQuietly(KeyName::Shift),
            KeyStep::ReleaseQuietly(KeyName::Control),
            KeyStep::ReleaseQuietly(KeyName::Alt),
            KeyStep::Sleep(40),
            KeyStep::Press(KeyName::Control),
            KeyStep::Sleep(20),
            KeyStep::Click(KeyName::Char('c')),
            KeyStep::Sleep(20),
            KeyStep::Release(KeyName::Control),
        ]
    );
}

#[test]
fn paste_on_macos() {
    let steps = paste(true);
    assert_eq!(steps.len(), 10);
    assert_eq!(steps[3], KeyStep::ReleaseQuietly(KeyName::Meta));
    assert_eq!(steps[5], KeyStep::Press(KeyName::Meta));
    assert_eq!(steps[7], KeyStep::Click(KeyName::Char('v')));
    assert_eq!(steps[9], KeyStep::Release(KeyName::Meta));
    assert_eq!(release_stuck_modifiers(true).len(), 4);
    assert_eq!(release_stuck_modifiers(false).len(), 3);
}
