use vstd::prelude::*;

verus! {

/// How long the hotkey gets to be released before a shortcut is sent, in ms.
pub const PRE_KEYSTROKE_MS: u64 = 80;

/// A key the shortcuts use.
#[derive(PartialEq, Eq, Structural, Clone, Copy, Debug)]
pub enum KeyName {
    Shift,
    Control,
    Alt,
    Meta,
    Char(char),
}

/// One step of sending a shortcut.
#[derive(PartialEq, Eq, Structural, Clone, Copy, Debug)]
pub enum KeyStep {
    /// Waits that many milliseconds.
    Sleep(u64),
    /// Releases a key that may still be held; a failure is ignored.
    ReleaseQuietly(KeyName),
    /// Presses a key down; a failure ends the shortcut with its error.
    Press(KeyName),
    /// Presses and releases a key; a failure ends the shortcut with its error.
    Click(KeyName),
    /// Releases a key; a failure ends the shortcut with its error.
    Release(KeyName),
}

/// The modifier of the copy and paste shortcuts: Command on macOS, Control elsewhere.
pub open spec fn spec_modifier(on_macos: bool) -> KeyName {
    if on_macos {
        KeyName::Meta
    } else {
        KeyName::Control
    }
}

/// The steps that release modifiers the user may still hold from the hotkey.
pub open spec fn spec_release_stuck(on_macos: bool) -> Seq<KeyStep> {
    seq![
        KeyStep::ReleaseQuietly(KeyName::Shift),
        KeyStep::ReleaseQuietly(KeyName::Control),
        KeyStep::ReleaseQuietly(KeyName::Alt),
    ] + if on_macos {
        seq![KeyStep::ReleaseQuietly(KeyName::Meta)]
    } else {
        seq![]
    }
}

/// The steps of the shortcut modifier + `letter`, once the keyboard is reached.
pub open spec fn spec_chord(letter: char, on_macos: bool) -> Seq<KeyStep> {
    spec_release_stuck(on_macos) + seq![
        KeyStep::Sleep(40),
        KeyStep::Press(spec_modifier(on_macos)),
        KeyStep::Sleep(20),
        KeyStep::Click(KeyName::Char(letter)),
        KeyStep::Sleep(20),
        KeyStep::Release(spec_modifier(on_macos)),
    ]
}

/// Releases the modifiers the user may still hold from the hotkey.
pub fn release_stuck_modifiers(on_macos: bool) -> (steps: Vec<KeyStep>)
    ensures
        steps@ == spec_release_stuck(on_macos),
{
    let mut steps: Vec<KeyStep> = Vec::new();
    steps.push(KeyStep::ReleaseQuietly(KeyName::Shift));
    steps.push(KeyStep::ReleaseQuietly(KeyName::Control));
    steps.push(KeyStep::ReleaseQuietly(KeyName::Alt));
    if on_macos {
        steps.push(KeyStep::ReleaseQuietly(KeyName::Meta));
    }
    steps
}

fn chord(letter: char, on_macos: bool) -> (steps: Vec<KeyStep>)
    ensures
        steps@ == spec_chord(letter, on_macos),
{
    let modifier = if on_macos {
        KeyName::Meta
    } else {
        KeyName::Control
    };
    let mut steps = release_stuck_modifiers(on_macos);
    steps.push(KeyStep::Sleep(40));
    steps.push(KeyStep::Press(modifier));
    steps.push(KeyStep::Sleep(20));
    steps.push(KeyStep::Click(KeyName::Char(letter)));
    steps.push(KeyStep::Sleep(20));
    steps.push(KeyStep::Release(modifier));
    steps
}

/// The copy shortcut.
pub fn copy(on_macos: bool) -> (steps: Vec<KeyStep>)
    ensures
        steps@ == spec_chord('c', on_macos),
{
    chord('c', on_macos)
}

/// The paste shortcut.
pub fn paste(on_macos: bool) -> (steps: Vec<KeyStep>)
    ensures
        steps@ == spec_chord('v', on_macos),
{
    chord('v', on_macos)
}

/// Every shortcut leaves the modifier released: its last step releases the modifier it
/// pressed, and that modifier is pressed exactly once.
pub proof fn lemma_chord_releases_its_modifier(letter: char, on_macos: bool)
    ensures
        spec_chord(letter, on_macos).last() == KeyStep::Release(spec_modifier(on_macos)),
        forall|i: int| 0 <= i < spec_chord(letter, on_macos).len()
            && #[trigger] spec_chord(letter, on_macos)[i] is Press
            ==> spec_chord(letter, on_macos)[i] == KeyStep::Press(spec_modifier(on_macos))
                && i == spec_chord(letter, on_macos).len() - 5,
{
    let r = spec_release_stuck(on_macos);
    let c = spec_chord(letter, on_macos);
    assert forall|i: int| 0 <= i < c.len() && #[trigger] c[i] is Press
        implies c[i] == KeyStep::Press(spec_modifier(on_macos)) && i == c.len() - 5 by {
        if i < r.len() {
            assert(c[i] == r[i]);
        }
    }
}

/// The key a shortcut clicks is the letter it was asked for, on every platform, and it
/// is the only key clicked; it is clicked while the modifier is down, and the modifier is
/// Command on macOS and Control elsewhere. So the copy shortcut clicks `c` and the paste
/// shortcut clicks `v`. Before anything is pressed, Shift, Control and Alt are let go, and
/// Command too on macOS.
pub proof fn lemma_chord_clicks_its_letter(letter: char, on_macos: bool)
    ensures
        spec_chord(letter, on_macos)[spec_chord(letter, on_macos).len() - 3]
            == KeyStep::Click(KeyName::Char(letter)),
        forall|i: int| 0 <= i < spec_chord(letter, on_macos).len()
            && #[trigger] spec_chord(letter, on_macos)[i] is Click
            ==> i == spec_chord(letter, on_macos).len() - 3,
        spec_chord(letter, on_macos)[spec_chord(letter, on_macos).len() - 5]
            == KeyStep::Press(if on_macos { KeyName::Meta } else { KeyName::Control }),
        spec_chord(letter, on_macos).last()
            == KeyStep::Release(if on_macos { KeyName::Meta } else { KeyName::Control }),
        spec_chord('c', on_macos)[spec_chord('c', on_macos).len() - 3]
            == KeyStep::Click(KeyName::Char('c')),
        spec_chord('v', on_macos)[spec_chord('v', on_macos).len() - 3]
            == KeyStep::Click(KeyName::Char('v')),
        spec_chord(letter, on_macos).len() == if on_macos { 10int } else { 9int },
        spec_chord(letter, on_macos)[0] == KeyStep::ReleaseQuietly(KeyName::Shift),
        spec_chord(letter, on_macos)[1] == KeyStep::ReleaseQuietly(KeyName::Control),
        spec_chord(letter, on_macos)[2] == KeyStep::ReleaseQuietly(KeyName::Alt),
        on_macos ==> spec_chord(letter, on_macos)[3] == KeyStep::ReleaseQuietly(KeyName::Meta),
{
    let r = spec_release_stuck(on_macos);
    let c = spec_chord(letter, on_macos);
    assert forall|i: int| 0 <= i < c.len() && #[trigger] c[i] is Click implies i == c.len() - 3 by {
        if i < r.len() {
            assert(c[i] == r[i]);
        }
    }
    let cc = spec_chord('c', on_macos);
    let cv = spec_chord('v', on_macos);
    assert(cc[cc.len() - 3] == KeyStep::Click(KeyName::Char('c')));
    assert(cv[cv.len() - 3] == KeyStep::Click(KeyName::Char('v')));
}

} // verus!
