use vstd::prelude::*;

verus! {

/// Every fixed text the workflows print or prompt with.  The surrounding
/// program prints `text()` verbatim; the workflows only name the message.
#[derive(Clone, Copy, Debug, PartialEq, Eq, Structural)]
pub enum HelperMessage {
    /// Onboarding greeting at the start of initialisation.
    TutorialWelcome,
    /// Why a default location is asked for, with example inputs.
    TutorialLocation,
    /// That an external editor of the user's choosing is run.
    TutorialEditor,
    /// Free-text prompt for the usual location.
    AskLocation,
    /// Hint shown with the location prompt.
    AskLocationHint,
    /// Announcement that several candidates matched.
    MultipleLocations,
    /// Numeric prompt for the candidate list.
    AskLocationChoice,
    /// Reply to an out-of-range candidate number.
    InvalidLocationChoice,
    /// The numbered editor menu.
    AskEditorMenu,
    /// Free-text prompt for a custom editor command.
    AskEditorCommand,
    /// Hint shown with the custom editor prompt.
    AskEditorCommandHint,
    /// Prompt for the configuration file's directory.
    AskConfigPath,
    /// Hint to run initialisation before other commands.
    NotInitialised,
    /// The editor subprocess reported failure.
    EditorFailed,
    /// The scratch content came back unchanged, so no entry is written.
    NoChanges,
    /// No entry file matches today.
    NoEntriesToday,
    /// Several entry files match today.
    MultipleFiles,
    /// Numeric prompt for the entry file list.
    AskFileChoice,
    /// Reply to an out-of-range file number.
    InvalidFileChoice,
    /// The bounded number of attempts at the file list ran out.
    MaxTriesReached,
}

/// What each message reads; the workflows' actions are stated over this.
pub open spec fn spec_message_text(m: HelperMessage) -> Seq<char> {
    match m {
        HelperMessage::TutorialWelcome => "\n\n--Welcome to journal_CLI!--\n\nThis command-line interface app is here to help you document your thoughts,\nexperiences, and ideas effortlessly.  Let's get you started :)\n\nFor this part, we'll set your defaults.\n"@,
        HelperMessage::TutorialLocation => "\nWe'll only need your usual location.  \n\nWe use your default location to automatically detect your default timezome and \nto detect the current weather.  This will also be printed in your entries.  \nTo ensure the best results, make sure that the last part of your location is \nsomewhere that is specific enough for accurate timezone and weather data.\n\nDon't worry---if your city has the same name as a city elsewhere,\nlike Los Angeles, Los Santos or San Francisco, Cebu,\nyou would be asked to pick which city you meant.\n\nExample:\n- Avenida 9 SO - Carchi, Guiyaquil\n- Lor Marzuki, Singapore City\n- Caf\u{e9} What?, Moshoeshoe Rd, Maseru\n"@,
        HelperMessage::TutorialEditor => "\nThis application does not use its own text editors and will separately run \na text editor of your own choosing, like vim, nano, and emacs.\n"@,
        HelperMessage::AskLocation => "What's your current location?"@,
        HelperMessage::AskLocationHint => "[optional address specifiers], <location>"@,
        HelperMessage::MultipleLocations => "There are multiple locations found.  Which one is correct?"@,
        HelperMessage::AskLocationChoice => "Enter the number of your correct location"@,
        HelperMessage::InvalidLocationChoice => "That doesn't seem to be one of the choices."@,
        HelperMessage::AskEditorMenu => "Which text editor would you like to use?\n    1. Vim\n    2. Emacs\n    3. Nano\n    4. Pico\n    5. Other..."@,
        HelperMessage::AskEditorCommand => "What commandwould you use to call your favourite text editor?"@,
        HelperMessage::AskEditorCommandHint => "vim | nano | pico | ..."@,
        HelperMessage::AskConfigPath => "Where do you want to put config.toml?"@,
        HelperMessage::NotInitialised => "Oops!  Looks like you haven't initialised your journal yet.  Try running `journal init` first."@,
        HelperMessage::EditorFailed => "Vim was not successful"@,
        HelperMessage::NoChanges => "No changes found.  Will not be writing into a new entry."@,
        HelperMessage::NoEntriesToday => "You don't have entries written today."@,
        HelperMessage::MultipleFiles => "Looks like you have multiple files written today.  (File names are usually formatted as: '[Day].[Hour]-[Minute].txt'.)"@,
        HelperMessage::AskFileChoice => "Which file would you want to open?"@,
        HelperMessage::InvalidFileChoice => "Invalid index. Please try again."@,
        HelperMessage::MaxTriesReached => "Exceeded maximum failed attempts. Exiting..."@,
    }
}

impl HelperMessage {
    /// The message's text, exactly as `spec_message_text` lays it out.
    pub fn text(&self) -> (r: String)
        ensures
            r@ == spec_message_text(*self),
    {
        match self {
            HelperMessage::TutorialWelcome => String::from_str("\n\n--Welcome to journal_CLI!--\n\nThis command-line interface app is here to help you document your thoughts,\nexperiences, and ideas effortlessly.  Let's get you started :)\n\nFor this part, we'll set your defaults.\n"),
            HelperMessage::TutorialLocation => String::from_str("\nWe'll only need your usual location.  \n\nWe use your default location to automatically detect your default timezome and \nto detect the current weather.  This will also be printed in your entries.  \nTo ensure the best results, make sure that the last part of your location is \nsomewhere that is specific enough for accurate timezone and weather data.\n\nDon't worry---if your city has the same name as a city elsewhere,\nlike Los Angeles, Los Santos or San Francisco, Cebu,\nyou would be asked to pick which city you meant.\n\nExample:\n- Avenida 9 SO - Carchi, Guiyaquil\n- Lor Marzuki, Singapore City\n- Caf\u{e9} What?, Moshoeshoe Rd, Maseru\n"),
            HelperMessage::TutorialEditor => String::from_str("\nThis application does not use its own text editors and will separately run \na text editor of your own choosing, like vim, nano, and emacs.\n"),
            HelperMessage::AskLocation => String::from_str("What's your current location?"),
            HelperMessage::AskLocationHint => String::from_str("[optional address specifiers], <location>"),
            HelperMessage::MultipleLocations => String::from_str("There are multiple locations found.  Which one is correct?"),
            HelperMessage::AskLocationChoice => String::from_str("Enter the number of your correct location"),
            HelperMessage::InvalidLocationChoice => String::from_str("That doesn't seem to be one of the choices."),
            HelperMessage::AskEditorMenu => String::from_str("Which text editor would you like to use?\n    1. Vim\n    2. Emacs\n    3. Nano\n    4. Pico\n    5. Other..."),
            HelperMessage::AskEditorCommand => String::from_str("What commandwould you use to call your favourite text editor?"),
            HelperMessage::AskEditorCommandHint => String::from_str("vim | nano | pico | ..."),
            HelperMessage::AskConfigPath => String::from_str("Where do you want to put config.toml?"),
            HelperMessage::NotInitialised => String::from_str("Oops!  Looks like you haven't initialised your journal yet.  Try running `journal init` first."),
            HelperMessage::EditorFailed => String::from_str("Vim was not successful"),
            HelperMessage::NoChanges => String::from_str("No changes found.  Will not be writing into a new entry."),
            HelperMessage::NoEntriesToday => String::from_str("You don't have entries written today."),
            HelperMessage::MultipleFiles => String::from_str("Looks like you have multiple files written today.  (File names are usually formatted as: '[Day].[Hour]-[Minute].txt'.)"),
            HelperMessage::AskFileChoice => String::from_str("Which file would you want to open?"),
            HelperMessage::InvalidFileChoice => String::from_str("Invalid index. Please try again."),
            HelperMessage::MaxTriesReached => String::from_str("Exceeded maximum failed attempts. Exiting..."),
        }
    }
}

} // verus!
