use vstd::prelude::*;

use crate::config::{spec_render_config, Config};
use crate::weather::{render_preamble, spec_preamble, Weather};
use crate::editor::{spec_editor_command, EditorSelection};
use crate::errors::JournalError;
use crate::location::{
    country_name_of, geocoding_url, location_display, spec_geocoding_url, spec_location_display,
    Location,
};

verus! {

// ---------------------------------------------------------------------------
// Initialisation workflow
//
// The workflow is a state machine: the surrounding program performs each
// returned action (print, prompt, network call, file write) and feeds the
// outcome back as the next event.  Every decision the workflow makes is in
// `init_step`, whose contract is the transition relation `init_trans`.
// ---------------------------------------------------------------------------

#[derive(Debug, PartialEq)]
pub enum InitState {
    /// Nothing has happened yet.
    Start,
    /// The user is being asked for their usual location.
    AwaitLocationText,
    /// The geocoding endpoint has been queried for `raw`.
    AwaitGeocode { raw: String },
    /// Several candidates matched; the user picks one by number, with no
    /// bound on the number of attempts.
    AwaitLocationChoice { raw: String, candidates: Vec<Location> },
    /// A location is fixed; the user picks an editor from the fixed menu.
    AwaitEditorChoice { raw: String, chosen: Location },
    /// The user asked for a free-text editor command.
    AwaitEditorCustom { raw: String, chosen: Location },
    /// The defaults are rendered; the user names the configuration directory.
    AwaitConfigPath { contents: String },
    /// Waiting to hear whether a configuration file already exists there.
    AwaitExists { dir: String, contents: String },
    /// A file exists; the user confirms or declines overwriting it.
    AwaitOverwrite { dir: String, contents: String },
    /// The workflow is over, successfully or as a clean no-op.
    Done,
    /// The workflow failed; no later event changes that.
    Failed { err: JournalError },
}

#[derive(Debug, PartialEq)]
pub enum InitEvent {
    /// Start the workflow.
    Begin,
    /// A line of free text the user typed.
    Text { text: String },
    /// A number the user typed.
    Number { n: usize },
    /// The parsed candidates the geocoding endpoint returned.
    Candidates { candidates: Vec<Location> },
    /// Whether a configuration file already exists at the chosen path.
    Exists { exists: bool },
    /// The user's yes/no answer to the overwrite question.
    Confirm { yes: bool },
    /// An outside step failed with the given kind.
    Failed { err: JournalError },
}

#[derive(Debug, PartialEq)]
pub enum InitAction {
    /// Print the onboarding texts and prompt for the location.
    Intro,
    /// Perform a GET against the geocoding endpoint.
    Geocode { url: String },
    /// Show the numbered candidate list and prompt for a number.
    AskLocationChoice { displays: Vec<String> },
    /// Tell the user the number was not among the choices and ask again.
    RetryLocationChoice,
    /// Echo the chosen location, print the editor explainer and the menu.
    ProceedToEditorMenu { display: String },
    /// Prompt for a free-text editor command.
    AskEditorCommand,
    /// Show the rendered settings and prompt for the configuration directory.
    ShowConfigAndAskPath { contents: String },
    /// Create the directory if needed and report whether config.toml exists.
    CheckConfigExists { dir: String },
    /// Ask whether the existing configuration file may be overwritten.
    AskOverwrite,
    /// Write the configuration file and record its directory in the dotfile.
    WriteConfig { dir: String, contents: String },
    /// Nothing further to do.
    Stop,
    /// Report the failure and exit unsuccessfully.
    Abort { err: JournalError },
}

/// Every candidate's country code is in the ISO 3166-1 table.
pub open spec fn all_countries_known(cands: Seq<Location>) -> bool {
    forall|i: int|
        0 <= i < cands.len() ==> country_name_of(#[trigger] cands[i].country_code@) is Some
}

/// `ds` lists the display strings of `cands`, in order.
pub open spec fn displays_match(cands: Seq<Location>, ds: Seq<String>) -> bool {
    &&& ds.len() == cands.len()
    &&& forall|i: int|
        0 <= i < cands.len() ==> (country_name_of(#[trigger] cands[i].country_code@) matches Some(
            cn,
        ) && ds[i]@ == spec_location_display(cands[i], cn))
}

/// The configuration text assembled at the end of the interview: the raw
/// location text the user typed, the chosen candidate's coordinates and
/// time zone, and the editor command.
pub open spec fn spec_init_contents(raw: String, chosen: Location, ed: Seq<char>) -> Seq<char> {
    spec_render_config(raw@, chosen.latitude@, chosen.longitude@, chosen.timezone@, ed)
}

/// The transition relation of the initialisation workflow.
pub open spec fn init_trans(s: InitState, ev: InitEvent, s2: InitState, a: InitAction) -> bool {
    match (s, ev) {
        (InitState::Done, _) => s2 == InitState::Done && a == InitAction::Stop,
        (InitState::Failed { err }, _) => s2 == (InitState::Failed { err }) && a
            == (InitAction::Abort { err }),
        (InitState::Start, InitEvent::Begin) => s2 == InitState::AwaitLocationText && a
            == InitAction::Intro,
        (InitState::AwaitLocationText, InitEvent::Text { text }) => {
            &&& s2 == (InitState::AwaitGeocode { raw: text })
            &&& (a matches InitAction::Geocode { url } && url@ == spec_geocoding_url(text@))
        },
        (InitState::AwaitGeocode { raw }, InitEvent::Candidates { candidates }) => {
            if candidates@.len() == 0 {
                &&& s2 == (InitState::Failed { err: JournalError::LocationNotFound })
                &&& a == (InitAction::Abort { err: JournalError::LocationNotFound })
            } else if candidates@.len() == 1 {
                match country_name_of(candidates@[0].country_code@) {
                    Some(cn) => {
                        &&& s2 == (InitState::AwaitEditorChoice { raw, chosen: candidates@[0] })
                        &&& (a matches InitAction::ProceedToEditorMenu { display } && display@
                            == spec_location_display(candidates@[0], cn))
                    },
                    None => {
                        &&& s2 == (InitState::Failed { err: JournalError::UnknownCountryCode })
                        &&& a == (InitAction::Abort { err: JournalError::UnknownCountryCode })
                    },
                }
            } else {
                if all_countries_known(candidates@) {
                    &&& s2 == (InitState::AwaitLocationChoice { raw, candidates })
                    &&& (a matches InitAction::AskLocationChoice { displays } && displays_match(
                        candidates@,
                        displays@,
                    ))
                } else {
                    &&& s2 == (InitState::Failed { err: JournalError::UnknownCountryCode })
                    &&& a == (InitAction::Abort { err: JournalError::UnknownCountryCode })
                }
            }
        },
        (InitState::AwaitLocationChoice { raw, candidates }, InitEvent::Number { n }) => {
            if 1 <= n <= candidates@.len() {
                match country_name_of(candidates@[n - 1].country_code@) {
                    Some(cn) => {
                        &&& s2 == (InitState::AwaitEditorChoice {
                            raw,
                            chosen: candidates@[n - 1],
                        })
                        &&& (a matches InitAction::ProceedToEditorMenu { display } && display@
                            == spec_location_display(candidates@[n - 1], cn))
                    },
                    None => {
                        &&& s2 == (InitState::Failed { err: JournalError::UnknownCountryCode })
                        &&& a == (InitAction::Abort { err: JournalError::UnknownCountryCode })
                    },
                }
            } else {
                &&& s2 == (InitState::AwaitLocationChoice { raw, candidates })
                &&& a == InitAction::RetryLocationChoice
            }
        },
        (InitState::AwaitEditorChoice { raw, chosen }, InitEvent::Number { n }) => {
            if n == 5 {
                &&& s2 == (InitState::AwaitEditorCustom { raw, chosen })
                &&& a == InitAction::AskEditorCommand
            } else if 1 <= n <= 4 {
                let ed = spec_editor_command(
                    if n == 1 {
                        EditorSelection::Vim
                    } else if n == 2 {
                        EditorSelection::Emacs
                    } else if n == 3 {
                        EditorSelection::Nano
                    } else {
                        EditorSelection::Pico
                    },
                );
                &&& (s2 matches InitState::AwaitConfigPath { contents } && contents@
                    == spec_init_contents(raw, chosen, ed))
                &&& (a matches InitAction::ShowConfigAndAskPath { contents } && contents@
                    == spec_init_contents(raw, chosen, ed))
            } else {
                &&& s2 == (InitState::Failed { err: JournalError::UnsupportedChoice })
                &&& a == (InitAction::Abort { err: JournalError::UnsupportedChoice })
            }
        },
        (InitState::AwaitEditorCustom { raw, chosen }, InitEvent::Text { text }) => {
            &&& (s2 matches InitState::AwaitConfigPath { contents } && contents@
                == spec_init_contents(raw, chosen, text@))
            &&& (a matches InitAction::ShowConfigAndAskPath { contents } && contents@
                == spec_init_contents(raw, chosen, text@))
        },
        (InitState::AwaitConfigPath { contents }, InitEvent::Text { text }) => {
            &&& s2 == (InitState::AwaitExists { dir: text, contents })
            &&& (a matches InitAction::CheckConfigExists { dir } && dir@ == text@)
        },
        (InitState::AwaitExists { dir, contents }, InitEvent::Exists { exists }) => {
            if exists {
                &&& s2 == (InitState::AwaitOverwrite { dir, contents })
                &&& a == InitAction::AskOverwrite
            } else {
                &&& s2 == InitState::Done
                &&& a == (InitAction::WriteConfig { dir, contents })
            }
        },
        (InitState::AwaitOverwrite { dir, contents }, InitEvent::Confirm { yes }) => {
            if yes {
                &&& s2 == InitState::Done
                &&& a == (InitAction::WriteConfig { dir, contents })
            } else {
                &&& s2 == InitState::Done
                &&& a == InitAction::Stop
            }
        },
        (_, InitEvent::Failed { err }) => s2 == (InitState::Failed { err }) && a
            == (InitAction::Abort { err }),
        _ => s2 == (InitState::Failed { err: JournalError::UnexpectedEvent }) && a
            == (InitAction::Abort { err: JournalError::UnexpectedEvent }),
    }
}

/// The display strings of all candidates, or `None` at the first candidate
/// whose country code is unknown.
fn compute_displays(cands: &Vec<Location>) -> (r: Option<Vec<String>>)
    ensures
        r matches Some(ds) ==> displays_match(cands@, ds@),
        r is None ==> !all_countries_known(cands@),
{
    let mut ds: Vec<String> = Vec::new();
    let mut i: usize = 0;
    while i < cands.len()
        invariant
            i <= cands@.len(),
            ds@.len() == i,
            forall|j: int|
                0 <= j < i ==> (country_name_of(#[trigger] cands@[j].country_code@) matches Some(
                    cn,
                ) && ds@[j]@ == spec_location_display(cands@[j], cn)),
        decreases cands@.len() - i,
    {
        match location_display(&cands[i]) {
            Some(d) => ds.push(d),
            None => {
                return None;
            },
        }
        i += 1;
    }
    Some(ds)
}

/// One step of the initialisation workflow.
pub fn init_step(s: InitState, ev: InitEvent) -> (r: (InitState, InitAction))
    ensures
        init_trans(s, ev, r.0, r.1),
{
    match (s, ev) {
        (InitState::Done, _) => (InitState::Done, InitAction::Stop),
        (InitState::Failed { err }, _) => (InitState::Failed { err }, InitAction::Abort { err }),
        (InitState::Start, InitEvent::Begin) => (InitState::AwaitLocationText, InitAction::Intro),
        (InitState::AwaitLocationText, InitEvent::Text { text }) => {
            let url = geocoding_url(text.as_str());
            (InitState::AwaitGeocode { raw: text }, InitAction::Geocode { url })
        },
        (InitState::AwaitGeocode { raw }, InitEvent::Candidates { candidates }) => {
            if candidates.len() == 0 {
                (
                    InitState::Failed { err: JournalError::LocationNotFound },
                    InitAction::Abort { err: JournalError::LocationNotFound },
                )
            } else if candidates.len() == 1 {
                let mut candidates = candidates;
                let chosen = candidates.remove(0);
                match location_display(&chosen) {
                    Some(display) => (
                        InitState::AwaitEditorChoice { raw, chosen },
                        InitAction::ProceedToEditorMenu { display },
                    ),
                    None => (
                        InitState::Failed { err: JournalError::UnknownCountryCode },
                        InitAction::Abort { err: JournalError::UnknownCountryCode },
                    ),
                }
            } else {
                match compute_displays(&candidates) {
                    Some(displays) => (
                        InitState::AwaitLocationChoice { raw, candidates },
                        InitAction::AskLocationChoice { displays },
                    ),
                    None => (
                        InitState::Failed { err: JournalError::UnknownCountryCode },
                        InitAction::Abort { err: JournalError::UnknownCountryCode },
                    ),
                }
            }
        },
        (InitState::AwaitLocationChoice { raw, candidates }, InitEvent::Number { n }) => {
            if 1 <= n && n <= candidates.len() {
                let mut candidates = candidates;
                let chosen = candidates.remove(n - 1);
                match location_display(&chosen) {
                    Some(display) => (
                        InitState::AwaitEditorChoice { raw, chosen },
                        InitAction::ProceedToEditorMenu { display },
                    ),
                    None => (
                        InitState::Failed { err: JournalError::UnknownCountryCode },
                        InitAction::Abort { err: JournalError::UnknownCountryCode },
                    ),
                }
            } else {
                (
                    InitState::AwaitLocationChoice { raw, candidates },
                    InitAction::RetryLocationChoice,
                )
            }
        },
        (InitState::AwaitEditorChoice { raw, chosen }, InitEvent::Number { n }) => {
            if n == 5 {
                (InitState::AwaitEditorCustom { raw, chosen }, InitAction::AskEditorCommand)
            } else if 1 <= n && n <= 4 {
                let sel = match crate::editor::ask_for_text_editor_multchoice(n) {
                    Ok(sel) => sel,
                    Err(err) => {
                        return (InitState::Failed { err }, InitAction::Abort { err });
                    },
                };
                let ed = crate::editor::editor_command(sel);
                let cfg = Config {
                    location_full_name: raw,
                    location_latitude: chosen.latitude,
                    location_longitude: chosen.longitude,
                    timezone: chosen.timezone,
                    editor: ed,
                };
                let contents = crate::config::render_config(&cfg);
                let shown = contents.clone();
                (
                    InitState::AwaitConfigPath { contents },
                    InitAction::ShowConfigAndAskPath { contents: shown },
                )
            } else {
                (
                    InitState::Failed { err: JournalError::UnsupportedChoice },
                    InitAction::Abort { err: JournalError::UnsupportedChoice },
                )
            }
        },
        (InitState::AwaitEditorCustom { raw, chosen }, InitEvent::Text { text }) => {
            let cfg = Config {
                location_full_name: raw,
                location_latitude: chosen.latitude,
                location_longitude: chosen.longitude,
                timezone: chosen.timezone,
                editor: text,
            };
            let contents = crate::config::render_config(&cfg);
            let shown = contents.clone();
            (
                InitState::AwaitConfigPath { contents },
                InitAction::ShowConfigAndAskPath { contents: shown },
            )
        },
        (InitState::AwaitConfigPath { contents }, InitEvent::Text { text }) => {
            let dir = text.clone();
            (
                InitState::AwaitExists { dir: text, contents },
                InitAction::CheckConfigExists { dir },
            )
        },
        (InitState::AwaitExists { dir, contents }, InitEvent::Exists { exists }) => {
            if exists {
                (InitState::AwaitOverwrite { dir, contents }, InitAction::AskOverwrite)
            } else {
                (InitState::Done, InitAction::WriteConfig { dir, contents })
            }
        },
        (InitState::AwaitOverwrite { dir, contents }, InitEvent::Confirm { yes }) => {
            if yes {
                (InitState::Done, InitAction::WriteConfig { dir, contents })
            } else {
                (InitState::Done, InitAction::Stop)
            }
        },
        (_, InitEvent::Failed { err }) => (
            InitState::Failed { err },
            InitAction::Abort { err },
        ),
        _ => (
            InitState::Failed { err: JournalError::UnexpectedEvent },
            InitAction::Abort { err: JournalError::UnexpectedEvent },
        ),
    }
}

/// A location input with exactly one candidate skips disambiguation: the
/// workflow proceeds with that candidate unchanged and never shows the
/// candidate list or re-prompts.
pub proof fn lemma_unique_candidate_skips_disambiguation(
    raw: String,
    candidates: Vec<Location>,
    s2: InitState,
    a: InitAction,
)
    requires
        init_trans(
            InitState::AwaitGeocode { raw },
            InitEvent::Candidates { candidates },
            s2,
            a,
        ),
        candidates@.len() == 1,
    ensures
        !(a is AskLocationChoice),
        !(a is RetryLocationChoice),
        country_name_of(candidates@[0].country_code@) is Some ==> s2
            == (InitState::AwaitEditorChoice { raw, chosen: candidates@[0] }),
{
}

/// A location input with zero candidates fails with the "not found" kind,
/// and the failed workflow never issues anything but the abort action, so no
/// later step (editor menu included) is ever reached.
pub proof fn lemma_no_candidates_fails(
    raw: String,
    candidates: Vec<Location>,
    s2: InitState,
    a: InitAction,
)
    requires
        init_trans(
            InitState::AwaitGeocode { raw },
            InitEvent::Candidates { candidates },
            s2,
            a,
        ),
        candidates@.len() == 0,
    ensures
        s2 == (InitState::Failed { err: JournalError::LocationNotFound }),
        a == (InitAction::Abort { err: JournalError::LocationNotFound }),
{
}

/// A failed initialisation workflow is final: every further event leaves it
/// failed and only ever aborts.
pub proof fn lemma_init_failed_is_final(err: JournalError, ev: InitEvent, s2: InitState, a: InitAction)
    requires
        init_trans(InitState::Failed { err }, ev, s2, a),
    ensures
        s2 == (InitState::Failed { err }),
        a == (InitAction::Abort { err }),
{
}

/// A valid answer to the candidate list picks exactly the chosen entry of
/// the original ordered list, unmodified; an invalid answer re-prompts and
/// keeps the list unchanged, with no bound on attempts.
pub proof fn lemma_candidate_choice(
    raw: String,
    candidates: Vec<Location>,
    n: usize,
    s2: InitState,
    a: InitAction,
)
    requires
        init_trans(
            InitState::AwaitLocationChoice { raw, candidates },
            InitEvent::Number { n },
            s2,
            a,
        ),
    ensures
        1 <= n <= candidates@.len() && country_name_of(candidates@[n - 1].country_code@) is Some
            ==> s2 == (InitState::AwaitEditorChoice { raw, chosen: candidates@[n - 1] }),
        !(1 <= n <= candidates@.len()) ==> s2 == (InitState::AwaitLocationChoice {
            raw,
            candidates,
        }) && a == InitAction::RetryLocationChoice,
{
}

// ---------------------------------------------------------------------------
// Entry-creation workflow
// ---------------------------------------------------------------------------

#[derive(Debug, PartialEq)]
pub enum NewEntryState {
    /// Nothing has happened yet.
    Start,
    /// Waiting to hear whether the journal is initialised.
    AwaitInitCheck,
    /// The configuration file is being read.
    AwaitConfig,
    /// The current date in the configured time zone is being computed.
    AwaitNow { cfg: Config },
    /// The weather endpoint has been queried for the configured coordinates.
    AwaitWeather { name: String, editor: String, date_display: String },
    /// The editor runs on the scratch file holding `preamble`.
    AwaitEditorExit { preamble: String },
    /// The scratch file is being read back after the editor exited.
    AwaitScratch { preamble: String },
    /// The workflow is over, successfully or as a clean no-op.
    Done,
    /// The workflow failed; no later event changes that.
    Failed { err: JournalError },
}

#[derive(Debug, PartialEq)]
pub enum NewEntryEvent {
    /// Start the workflow.
    Begin,
    /// Whether the dotfile exists, that is, whether the journal is initialised.
    InitChecked { initialised: bool },
    /// The five configured defaults, read back from the configuration file.
    ConfigLoaded { cfg: Config },
    /// The current instant: the stamp the weather endpoint is asked for, and
    /// the long display form the preamble shows.
    Now { stamp: String, display: String },
    /// The weather observation for the requested instant.
    WeatherLoaded { weather: Weather },
    /// Whether the editor subprocess exited successfully.
    EditorExited { success: bool },
    /// The scratch file's content after the editor exited.
    ScratchRead { content: String },
    /// An outside step failed with the given kind.
    Failed { err: JournalError },
}

#[derive(Debug, PartialEq)]
pub enum NewEntryAction {
    /// Report whether the dotfile exists.
    CheckInitialised,
    /// Read the configuration file named by the dotfile.
    LoadConfig,
    /// Compute the current instant in the given time zone.
    GetNow { timezone: String },
    /// Query the weather endpoint for one instant at the given coordinates.
    FetchWeather { latitude: String, longitude: String, timezone: String, stamp: String },
    /// Write `contents` to the scratch file and run the editor on it.
    EditScratch { editor: String, contents: String },
    /// Read the scratch file back.
    ReadScratch,
    /// Write `contents` to today's entry path and delete the scratch file.
    CommitEntry { contents: String },
    /// Tell the user to run initialisation first; a soft, successful exit.
    ReportNotInitialised,
    /// Report that the editor failed; the scratch file is left for recovery.
    ReportEditorFailed,
    /// Report that nothing changed and delete the scratch file.
    ReportNoChanges,
    /// Nothing further to do.
    Stop,
    /// Report the failure and exit unsuccessfully.
    Abort { err: JournalError },
}

/// The transition relation of the entry-creation workflow.
pub open spec fn new_entry_trans(
    s: NewEntryState,
    ev: NewEntryEvent,
    s2: NewEntryState,
    a: NewEntryAction,
) -> bool {
    match (s, ev) {
        (NewEntryState::Done, _) => s2 == NewEntryState::Done && a == NewEntryAction::Stop,
        (NewEntryState::Failed { err }, _) => s2 == (NewEntryState::Failed { err }) && a
            == (NewEntryAction::Abort { err }),
        (NewEntryState::Start, NewEntryEvent::Begin) => s2 == NewEntryState::AwaitInitCheck && a
            == NewEntryAction::CheckInitialised,
        (NewEntryState::AwaitInitCheck, NewEntryEvent::InitChecked { initialised }) => {
            if initialised {
                s2 == NewEntryState::AwaitConfig && a == NewEntryAction::LoadConfig
            } else {
                s2 == NewEntryState::Done && a == NewEntryAction::ReportNotInitialised
            }
        },
        (NewEntryState::AwaitConfig, NewEntryEvent::ConfigLoaded { cfg }) => {
            &&& (a matches NewEntryAction::GetNow { timezone } && timezone@ == cfg.timezone@)
            &&& s2 == (NewEntryState::AwaitNow { cfg })
        },
        (NewEntryState::AwaitNow { cfg }, NewEntryEvent::Now { stamp, display }) => {
            &&& s2 == (NewEntryState::AwaitWeather {
                name: cfg.location_full_name,
                editor: cfg.editor,
                date_display: display,
            })
            &&& a == (NewEntryAction::FetchWeather {
                latitude: cfg.location_latitude,
                longitude: cfg.location_longitude,
                timezone: cfg.timezone,
                stamp,
            })
        },
        (
            NewEntryState::AwaitWeather { name, editor, date_display },
            NewEntryEvent::WeatherLoaded { weather },
        ) => {
            &&& (s2 matches NewEntryState::AwaitEditorExit { preamble } && preamble@
                == spec_preamble(date_display@, name@, weather))
            &&& (a matches NewEntryAction::EditScratch { editor: e, contents } && e == editor
                && contents@ == spec_preamble(date_display@, name@, weather))
        },
        (NewEntryState::AwaitEditorExit { preamble }, NewEntryEvent::EditorExited { success }) => {
            if success {
                &&& s2 == (NewEntryState::AwaitScratch { preamble })
                &&& a == NewEntryAction::ReadScratch
            } else {
                &&& s2 == NewEntryState::Done
                &&& a == NewEntryAction::ReportEditorFailed
            }
        },
        (NewEntryState::AwaitScratch { preamble }, NewEntryEvent::ScratchRead { content }) => {
            if content@ == preamble@ {
                s2 == NewEntryState::Done && a == NewEntryAction::ReportNoChanges
            } else {
                s2 == NewEntryState::Done && a == (NewEntryAction::CommitEntry {
                    contents: content,
                })
            }
        },
        (_, NewEntryEvent::Failed { err }) => s2 == (NewEntryState::Failed { err }) && a
            == (NewEntryAction::Abort { err }),
        _ => s2 == (NewEntryState::Failed { err: JournalError::UnexpectedEvent }) && a
            == (NewEntryAction::Abort { err: JournalError::UnexpectedEvent }),
    }
}

/// One step of the entry-creation workflow.
pub fn new_entry_step(s: NewEntryState, ev: NewEntryEvent) -> (r: (NewEntryState, NewEntryAction))
    ensures
        new_entry_trans(s, ev, r.0, r.1),
{
    match (s, ev) {
        (NewEntryState::Done, _) => (NewEntryState::Done, NewEntryAction::Stop),
        (NewEntryState::Failed { err }, _) => (
            NewEntryState::Failed { err },
            NewEntryAction::Abort { err },
        ),
        (NewEntryState::Start, NewEntryEvent::Begin) => (
            NewEntryState::AwaitInitCheck,
            NewEntryAction::CheckInitialised,
        ),
        (NewEntryState::AwaitInitCheck, NewEntryEvent::InitChecked { initialised }) => {
            if initialised {
                (NewEntryState::AwaitConfig, NewEntryAction::LoadConfig)
            } else {
                (NewEntryState::Done, NewEntryAction::ReportNotInitialised)
            }
        },
        (NewEntryState::AwaitConfig, NewEntryEvent::ConfigLoaded { cfg }) => {
            let timezone = cfg.timezone.clone();
            (NewEntryState::AwaitNow { cfg }, NewEntryAction::GetNow { timezone })
        },
        (NewEntryState::AwaitNow { cfg }, NewEntryEvent::Now { stamp, display }) => {
            let Config {
                location_full_name,
                location_latitude,
                location_longitude,
                timezone,
                editor,
            } = cfg;
            (
                NewEntryState::AwaitWeather {
                    name: location_full_name,
                    editor,
                    date_display: display,
                },
                NewEntryAction::FetchWeather {
                    latitude: location_latitude,
                    longitude: location_longitude,
                    timezone,
                    stamp,
                },
            )
        },
        (
            NewEntryState::AwaitWeather { name, editor, date_display },
            NewEntryEvent::WeatherLoaded { weather },
        ) => {
            let preamble = render_preamble(date_display.as_str(), name.as_str(), &weather);
            let contents = preamble.clone();
            (
                NewEntryState::AwaitEditorExit { preamble },
                NewEntryAction::EditScratch { editor, contents },
            )
        },
        (NewEntryState::AwaitEditorExit { preamble }, NewEntryEvent::EditorExited { success }) => {
            if success {
                (NewEntryState::AwaitScratch { preamble }, NewEntryAction::ReadScratch)
            } else {
                (NewEntryState::Done, NewEntryAction::ReportEditorFailed)
            }
        },
        (NewEntryState::AwaitScratch { preamble }, NewEntryEvent::ScratchRead { content }) => {
            if content == preamble {
                (NewEntryState::Done, NewEntryAction::ReportNoChanges)
            } else {
                (NewEntryState::Done, NewEntryAction::CommitEntry { contents: content })
            }
        },
        (_, NewEntryEvent::Failed { err }) => (
            NewEntryState::Failed { err },
            NewEntryAction::Abort { err },
        ),
        _ => (
            NewEntryState::Failed { err: JournalError::UnexpectedEvent },
            NewEntryAction::Abort { err: JournalError::UnexpectedEvent },
        ),
    }
}

/// A failed entry-creation workflow is final: every further event leaves it
/// failed and only ever aborts, so no entry is written after a failure.
pub proof fn lemma_new_entry_failed_is_final(
    err: JournalError,
    ev: NewEntryEvent,
    s2: NewEntryState,
    a: NewEntryAction,
)
    requires
        new_entry_trans(NewEntryState::Failed { err }, ev, s2, a),
    ensures
        s2 == (NewEntryState::Failed { err }),
        a == (NewEntryAction::Abort { err }),
        !(a is CommitEntry),
{
}

/// Scratch content that came back identical to the preamble never creates an
/// entry: the step reports "no changes" and stops.  Because this holds for
/// every preamble, a second run over unedited content behaves the same way,
/// so running entry creation twice without editing creates zero entry files.
pub proof fn lemma_unchanged_scratch_writes_nothing(
    preamble: String,
    content: String,
    s2: NewEntryState,
    a: NewEntryAction,
)
    requires
        new_entry_trans(
            NewEntryState::AwaitScratch { preamble },
            NewEntryEvent::ScratchRead { content },
            s2,
            a,
        ),
        content@ == preamble@,
    ensures
        s2 == NewEntryState::Done,
        a == NewEntryAction::ReportNoChanges,
        !(a is CommitEntry),
{
}

/// The only step of the entry-creation workflow that writes an entry is the
/// one that read scratch content differing from the preamble, and it writes
/// that content unchanged.
pub proof fn lemma_commit_only_on_change(
    s: NewEntryState,
    ev: NewEntryEvent,
    s2: NewEntryState,
    a: NewEntryAction,
)
    requires
        new_entry_trans(s, ev, s2, a),
        a is CommitEntry,
    ensures
        s matches NewEntryState::AwaitScratch { preamble } && ev
            matches NewEntryEvent::ScratchRead { content } && content@ != preamble@ && a
            == (NewEntryAction::CommitEntry { contents: content }),
{
}

// ---------------------------------------------------------------------------
// Entry-browsing workflow
// ---------------------------------------------------------------------------

/// How many invalid answers the file-selection prompt tolerates before the
/// workflow fails.  Location disambiguation, by contrast, re-prompts without
/// bound; the asymmetry is the tool's documented behaviour.
pub const FILE_CHOICE_TRIES: usize = 5;

#[derive(Debug, PartialEq)]
pub enum OpenState {
    /// Nothing has happened yet.
    Start,
    /// Waiting to hear whether the journal is initialised.
    AwaitInitCheck,
    /// The configuration file is being read.
    AwaitConfig,
    /// The entries directory is being listed for today's files.
    AwaitFiles { editor: String },
    /// Several files matched; the user picks one by number, with a bounded
    /// number of attempts left.
    AwaitChoice { editor: String, files: Vec<String>, tries: usize },
    /// The workflow is over, successfully or as a clean no-op.
    Done,
    /// The workflow failed; no later event changes that.
    Failed { err: JournalError },
}

#[derive(Debug, PartialEq)]
pub enum OpenEvent {
    /// Start the workflow.
    Begin,
    /// Whether the dotfile exists, that is, whether the journal is initialised.
    InitChecked { initialised: bool },
    /// The five configured defaults, read back from the configuration file.
    ConfigLoaded { cfg: Config },
    /// The paths of today's entry files, in directory order.
    Files { files: Vec<String> },
    /// A number the user typed; an unparsable answer arrives as zero.
    Number { n: usize },
    /// An outside step failed with the given kind.
    Failed { err: JournalError },
}

#[derive(Debug, PartialEq)]
pub enum OpenAction {
    /// Report whether the dotfile exists.
    CheckInitialised,
    /// Read the configuration file named by the dotfile.
    LoadConfig,
    /// List the entry files matching today's pattern.
    ListEntries,
    /// Tell the user there are no entries today; a clean exit.
    ReportNoEntries,
    /// Run the editor on the given file and wait for it.
    OpenFile { editor: String, path: String },
    /// Show the numbered file list and prompt for a number.
    AskFileChoice,
    /// Tell the user the number was invalid and ask again.
    RetryFileChoice,
    /// Tell the user to run initialisation first; a soft, successful exit.
    ReportNotInitialised,
    /// Nothing further to do.
    Stop,
    /// Report the failure and exit unsuccessfully.
    Abort { err: JournalError },
}

/// The transition relation of the entry-browsing workflow.
pub open spec fn open_trans(s: OpenState, ev: OpenEvent, s2: OpenState, a: OpenAction) -> bool {
    match (s, ev) {
        (OpenState::Done, _) => s2 == OpenState::Done && a == OpenAction::Stop,
        (OpenState::Failed { err }, _) => s2 == (OpenState::Failed { err }) && a
            == (OpenAction::Abort { err }),
        (OpenState::Start, OpenEvent::Begin) => s2 == OpenState::AwaitInitCheck && a
            == OpenAction::CheckInitialised,
        (OpenState::AwaitInitCheck, OpenEvent::InitChecked { initialised }) => {
            if initialised {
                s2 == OpenState::AwaitConfig && a == OpenAction::LoadConfig
            } else {
                s2 == OpenState::Done && a == OpenAction::ReportNotInitialised
            }
        },
        (OpenState::AwaitConfig, OpenEvent::ConfigLoaded { cfg }) => {
            &&& s2 == (OpenState::AwaitFiles { editor: cfg.editor })
            &&& a == OpenAction::ListEntries
        },
        (OpenState::AwaitFiles { editor }, OpenEvent::Files { files }) => {
            if files@.len() == 0 {
                s2 == OpenState::Done && a == OpenAction::ReportNoEntries
            } else if files@.len() == 1 {
                s2 == OpenState::Done && a == (OpenAction::OpenFile { editor, path: files@[0] })
            } else {
                &&& s2 == (OpenState::AwaitChoice { editor, files, tries: FILE_CHOICE_TRIES })
                &&& a == OpenAction::AskFileChoice
            }
        },
        (OpenState::AwaitChoice { editor, files, tries }, OpenEvent::Number { n }) => {
            if 1 <= n <= files@.len() {
                s2 == OpenState::Done && a == (OpenAction::OpenFile {
                    editor,
                    path: files@[n - 1],
                })
            } else if tries <= 1 {
                &&& s2 == (OpenState::Failed { err: JournalError::MaxTriesExceeded })
                &&& a == (OpenAction::Abort { err: JournalError::MaxTriesExceeded })
            } else {
                &&& s2 == (OpenState::AwaitChoice {
                    editor,
                    files,
                    tries: (tries - 1) as usize,
                })
                &&& a == OpenAction::RetryFileChoice
            }
        },
        (_, OpenEvent::Failed { err }) => s2 == (OpenState::Failed { err }) && a
            == (OpenAction::Abort { err }),
        _ => s2 == (OpenState::Failed { err: JournalError::UnexpectedEvent }) && a
            == (OpenAction::Abort { err: JournalError::UnexpectedEvent }),
    }
}

/// One step of the entry-browsing workflow.
pub fn open_step(s: OpenState, ev: OpenEvent) -> (r: (OpenState, OpenAction))
    ensures
        open_trans(s, ev, r.0, r.1),
{
    match (s, ev) {
        (OpenState::Done, _) => (OpenState::Done, OpenAction::Stop),
        (OpenState::Failed { err }, _) => (OpenState::Failed { err }, OpenAction::Abort { err }),
        (OpenState::Start, OpenEvent::Begin) => (
            OpenState::AwaitInitCheck,
            OpenAction::CheckInitialised,
        ),
        (OpenState::AwaitInitCheck, OpenEvent::InitChecked { initialised }) => {
            if initialised {
                (OpenState::AwaitConfig, OpenAction::LoadConfig)
            } else {
                (OpenState::Done, OpenAction::ReportNotInitialised)
            }
        },
        (OpenState::AwaitConfig, OpenEvent::ConfigLoaded { cfg }) => {
            (OpenState::AwaitFiles { editor: cfg.editor }, OpenAction::ListEntries)
        },
        (OpenState::AwaitFiles { editor }, OpenEvent::Files { files }) => {
            if files.len() == 0 {
                (OpenState::Done, OpenAction::ReportNoEntries)
            } else if files.len() == 1 {
                let mut files = files;
                let path = files.remove(0);
                (OpenState::Done, OpenAction::OpenFile { editor, path })
            } else {
                (
                    OpenState::AwaitChoice { editor, files, tries: FILE_CHOICE_TRIES },
                    OpenAction::AskFileChoice,
                )
            }
        },
        (OpenState::AwaitChoice { editor, files, tries }, OpenEvent::Number { n }) => {
            if 1 <= n && n <= files.len() {
                let mut files = files;
                let path = files.remove(n - 1);
                (OpenState::Done, OpenAction::OpenFile { editor, path })
            } else if tries <= 1 {
                (
                    OpenState::Failed { err: JournalError::MaxTriesExceeded },
                    OpenAction::Abort { err: JournalError::MaxTriesExceeded },
                )
            } else {
                (
                    OpenState::AwaitChoice { editor, files, tries: tries - 1 },
                    OpenAction::RetryFileChoice,
                )
            }
        },
        (_, OpenEvent::Failed { err }) => (OpenState::Failed { err }, OpenAction::Abort { err }),
        _ => (
            OpenState::Failed { err: JournalError::UnexpectedEvent },
            OpenAction::Abort { err: JournalError::UnexpectedEvent },
        ),
    }
}

/// With no entry file matching today, browsing reports that and stops: no
/// editor subprocess is ever asked for.
pub proof fn lemma_browse_no_entries(editor: String, files: Vec<String>, s2: OpenState, a: OpenAction)
    requires
        open_trans(OpenState::AwaitFiles { editor }, OpenEvent::Files { files }, s2, a),
        files@.len() == 0,
    ensures
        s2 == OpenState::Done,
        a == OpenAction::ReportNoEntries,
        !(a is OpenFile),
{
}

/// With exactly one entry file matching today, browsing opens that file in
/// the configured editor without prompting.
pub proof fn lemma_browse_single_file(editor: String, files: Vec<String>, s2: OpenState, a: OpenAction)
    requires
        open_trans(OpenState::AwaitFiles { editor }, OpenEvent::Files { files }, s2, a),
        files@.len() == 1,
    ensures
        s2 == OpenState::Done,
        a == (OpenAction::OpenFile { editor, path: files@[0] }),
        !(a is AskFileChoice),
        !(a is RetryFileChoice),
{
}

/// A failed browsing workflow is final: every further event leaves it failed
/// and only ever aborts, so no editor subprocess is asked for after a
/// failure.
pub proof fn lemma_open_failed_is_final(err: JournalError, ev: OpenEvent, s2: OpenState, a: OpenAction)
    requires
        open_trans(OpenState::Failed { err }, ev, s2, a),
    ensures
        s2 == (OpenState::Failed { err }),
        a == (OpenAction::Abort { err }),
        !(a is OpenFile),
{
}

/// The file-selection prompt is bounded: each invalid answer spends one of
/// the remaining attempts, and an invalid answer on the last attempt fails
/// the workflow with the "max tries exceeded" kind.
pub proof fn lemma_file_choice_bounded(
    editor: String,
    files: Vec<String>,
    tries: usize,
    n: usize,
    s2: OpenState,
    a: OpenAction,
)
    requires
        open_trans(
            OpenState::AwaitChoice { editor, files, tries },
            OpenEvent::Number { n },
            s2,
            a,
        ),
        !(1 <= n <= files@.len()),
    ensures
        tries <= 1 ==> s2 == (OpenState::Failed { err: JournalError::MaxTriesExceeded }),
        tries > 1 ==> s2 == (OpenState::AwaitChoice {
            editor,
            files,
            tries: (tries - 1) as usize,
        }),
{
}

} // verus!
