use vstd::prelude::*;

verus! {

/// Every fallible step of the journal reports one of these kinds.  The
/// surrounding program attaches the operating-system or transport detail when
/// it prints the error; the workflows decide only on the kind.
#[derive(Clone, Copy, Debug, PartialEq, Eq, Structural)]
pub enum JournalError {
    /// A transport-level failure while calling the remote API.
    Network,
    /// The remote API answered with bytes that do not parse.
    MalformedResponse,
    /// The geocoding API returned zero candidates for the given text.
    LocationNotFound,
    /// The user exhausted the bounded number of attempts at a menu.
    MaxTriesExceeded,
    /// The home directory could not be determined.
    HomeDirNotFound,
    /// A numeric menu answer outside the range the menu offered.
    UnsupportedChoice,
    /// A location's country code is not a known ISO 3166-1 alpha-2 code.
    UnknownCountryCode,
    /// The external editor could not be launched.
    Subprocess,
    /// A file could not be created, read, written or removed.
    File,
    /// An event arrived that the current workflow state cannot accept.
    UnexpectedEvent,
}

} // verus!
