use vstd::prelude::*;

use crate::errors::JournalError;

verus! {

/// The editor-selection menu as a closed enumeration.  `Other` means the user
/// asked to type a free-text command, which arrives in a later prompt.
#[derive(Clone, Copy, Debug, PartialEq, Eq, Structural)]
pub enum EditorSelection {
    Vim,
    Emacs,
    Nano,
    Pico,
    Other,
}

/// The command each fixed menu entry stands for; `Other` has no fixed command.
pub open spec fn spec_editor_command(s: EditorSelection) -> Seq<char> {
    match s {
        EditorSelection::Vim => "vim"@,
        EditorSelection::Emacs => "emacs"@,
        EditorSelection::Nano => "nano"@,
        EditorSelection::Pico => "pico"@,
        EditorSelection::Other => ""@,
    }
}

/// Maps the numeric answer to the editor menu onto the menu's entries:
/// 1 through 4 are the fixed editors, 5 asks for a free-text command, and
/// every other number is an unsupported choice.
pub fn ask_for_text_editor_multchoice(choice: usize) -> (r: Result<
    EditorSelection,
    JournalError,
>)
    ensures
        choice == 1 ==> r == Ok::<EditorSelection, JournalError>(EditorSelection::Vim),
        choice == 2 ==> r == Ok::<EditorSelection, JournalError>(EditorSelection::Emacs),
        choice == 3 ==> r == Ok::<EditorSelection, JournalError>(EditorSelection::Nano),
        choice == 4 ==> r == Ok::<EditorSelection, JournalError>(EditorSelection::Pico),
        choice == 5 ==> r == Ok::<EditorSelection, JournalError>(EditorSelection::Other),
        (choice == 0 || choice > 5) ==> r == Err::<EditorSelection, JournalError>(
            JournalError::UnsupportedChoice,
        ),
{
    if choice == 1 {
        Ok(EditorSelection::Vim)
    } else if choice == 2 {
        Ok(EditorSelection::Emacs)
    } else if choice == 3 {
        Ok(EditorSelection::Nano)
    } else if choice == 4 {
        Ok(EditorSelection::Pico)
    } else if choice == 5 {
        Ok(EditorSelection::Other)
    } else {
        Err(JournalError::UnsupportedChoice)
    }
}

/// The invocation command for a fixed menu entry, as a `String`.
pub fn editor_command(s: EditorSelection) -> (r: String)
    ensures
        r@ == spec_editor_command(s),
{
    match s {
        EditorSelection::Vim => String::from_str("vim"),
        EditorSelection::Emacs => String::from_str("emacs"),
        EditorSelection::Nano => String::from_str("nano"),
        EditorSelection::Pico => String::from_str("pico"),
        EditorSelection::Other => String::from_str(""),
    }
}

} // verus!
