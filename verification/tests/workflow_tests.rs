use journal::config::{parse_config, render_config, Config};
use journal::drivers::{
    init_step, new_entry_step, open_step, InitAction, InitEvent, InitState, NewEntryAction,
    NewEntryEvent, NewEntryState, OpenAction, OpenEvent, OpenState,
};
use journal::editor::{ask_for_text_editor_multchoice, editor_command, EditorSelection};
use journal::errors::JournalError;
use journal::location::{geocoding_url, location_display, Location};
use journal::messages::HelperMessage;
use journal::weather::{
    find_date_index, find_hour_index, get_direction, render_preamble, weather_description, Weather,
};
use journal::{journal_main_driver, JournalCommand, Workflow};

fn loc(name: &str, lat: &str, lon: &str, tz: &str, cc: &str) -> Location {
    Location {
        name: name.to_string(),
        latitude: lat.to_string(),
        longitude: lon.to_string(),
        timezone: tz.to_string(),
        country_code: cc.to_string(),
        admin1: None,
        admin2: None,
        admin3: None,
        admin4: None,
    }
}

fn weather61() -> Weather {
    Weather {
        temperature: "21.4".to_string(),
        apparent_temperature: "22.9".to_string(),
        weather_code: 61,
        rain: "0.2".to_string(),
        windspeed: "8.4".to_string(),
        winddirection: 9000,
        pressure: "1014.1".to_string(),
        humidity: "84".to_string(),
        visibility_km: "24.14".to_string(),
        uv_index: "4.85".to_string(),
        sunrise: "2023-09-04T05:45".to_string(),
        sunset: "2023-09-04T17:56".to_string(),
    }
}

#[test]
fn editor_menu_maps_fixed_choices() {
    assert_eq!(ask_for_text_editor_multchoice(1), Ok(EditorSelection::Vim));
    assert_eq!(ask_for_text_editor_multchoice(2), Ok(EditorSelection::Emacs));
    assert_eq!(ask_for_text_editor_multchoice(3), Ok(EditorSelection::Nano));
    assert_eq!(ask_for_text_editor_multchoice(4), Ok(EditorSelection::Pico));
    assert_eq!(ask_for_text_editor_multchoice(5), Ok(EditorSelection::Other));
    assert_eq!(
        ask_for_text_editor_multchoice(0),
        Err(JournalError::UnsupportedChoice)
    );
    assert_eq!(
        ask_for_text_editor_multchoice(6),
        Err(JournalError::UnsupportedChoice)
    );
    assert_eq!(
        ask_for_text_editor_multchoice(99),
        Err(JournalError::UnsupportedChoice)
    );
}

#[test]
fn editor_commands_are_the_fixed_literals() {
    assert_eq!(editor_command(EditorSelection::Vim), "vim");
    assert_eq!(editor_command(EditorSelection::Emacs), "emacs");
    assert_eq!(editor_command(EditorSelection::Nano), "nano");
    assert_eq!(editor_command(EditorSelection::Pico), "pico");
}

#[test]
fn config_renders_exact_text() {
    let c = Config {
        location_full_name: "Lor Marzuki, Singapore City".to_string(),
        location_latitude: "1.28967".to_string(),
        location_longitude: "103.85007".to_string(),
        timezone: "Asia/Singapore".to_string(),
        editor: "vim".to_string(),
    };
    let expected = "[defaults]\n\
                    location_full_name=\"Lor Marzuki, Singapore City\"\n\
                    location_latitude=\"1.28967\"\n\
                    location_longitude=\"103.85007\"\n\
                    timezone=\"Asia/Singapore\"\n\
                    editor=\"vim\"\n";
    assert_eq!(render_config(&c), expected);
}

#[test]
fn config_round_trip_restores_all_five_values() {
    let c = Config {
        location_full_name: "Cafe What?, Moshoeshoe Rd, Maseru".to_string(),
        location_latitude: "-29.31".to_string(),
        location_longitude: "27.48".to_string(),
        timezone: "Africa/Maseru".to_string(),
        editor: "nano".to_string(),
    };
    let text = render_config(&c);
    let back = parse_config(text.as_str()).expect("a rendered configuration must parse");
    assert_eq!(back.location_full_name, "Cafe What?, Moshoeshoe Rd, Maseru");
    assert_eq!(back.location_latitude, "-29.31");
    assert_eq!(back.location_longitude, "27.48");
    assert_eq!(back.timezone, "Africa/Maseru");
    assert_eq!(back.editor, "nano");
    assert_eq!(back, c);
}

#[test]
fn config_parse_rejects_other_text() {
    assert_eq!(parse_config(""), None);
    assert_eq!(parse_config("[defaults]\n"), None);
    assert_eq!(parse_config("location_full_name=\"x\"\n"), None);
    let almost = "[defaults]\nlocation_full_name=\"a\"\nlocation_latitude=\"b\"\n";
    assert_eq!(parse_config(almost), None);
}

#[test]
fn compass_cardinal_points() {
    assert_eq!(get_direction(0), "N");
    assert_eq!(get_direction(9000), "E");
    assert_eq!(get_direction(18000), "S");
    assert_eq!(get_direction(27000), "W");
}

#[test]
fn compass_boundaries_resolve_deterministically() {
    // 11.25 degrees sits exactly between N and NNE and rounds up to NNE.
    assert_eq!(get_direction(1125), "NNE");
    // Just below the boundary stays N.
    assert_eq!(get_direction(1124), "N");
    // Wrapping back around to north.
    assert_eq!(get_direction(34875), "N");
    assert_eq!(get_direction(34874), "NNW");
    assert_eq!(get_direction(35999), "N");
}

#[test]
fn weather_code_descriptions() {
    assert_eq!(weather_description(61), "Light rain");
    assert_eq!(weather_description(0), "Clear skies");
    assert_eq!(weather_description(99), "Thunderstorm with heavy hail");
    assert_eq!(weather_description(42), "Unknown conditions");
}

#[test]
fn preamble_shows_light_rain_for_code_61() {
    let w = weather61();
    let p = render_preamble("Mon, 2023 Sep 04 08:00:00 +08 (+08:00)", "Singapore", &w);
    let expected = "DATE: Mon, 2023 Sep 04 08:00:00 +08 (+08:00)\n\
                    LOCATION: Singapore\n\
                    \n\
                    Temperature: 21.4 C, feels like 22.9 C, Light rain.\n\
                    UV Index: 4.85  Sunrise: 2023-09-04T05:45   Sunset: 2023-09-04T17:56\n\
                    Rain: 0.2 mm\n\
                    Winds: 8.4 km/h E\n\
                    Pressure: 1014.1 hPa\n\
                    Humidity: 84%\n\
                    Visibility: 24.14 km\n";
    assert_eq!(p, expected);
}

#[test]
fn location_display_resolves_country_name() {
    let l = loc("Singapore", "1.29", "103.85", "Asia/Singapore", "SG");
    let d = location_display(&l).expect("SG is a known country code");
    assert_eq!(d, "Singapore, Singapore (1.29, 103.85) with timezone 'Asia/Singapore'");
    let us = loc("Washington", "38.9", "-77.04", "America/New_York", "US");
    let d2 = location_display(&us).expect("US is a known country code");
    assert_eq!(
        d2,
        "Washington, United States of America (38.9, -77.04) with timezone 'America/New_York'"
    );
}

#[test]
fn location_display_with_admin_subdivisions() {
    let mut l = loc("Guayaquil", "-2.19", "-79.88", "America/Guayaquil", "EC");
    l.admin1 = Some("Guayas".to_string());
    l.admin2 = Some("Guayaquil Canton".to_string());
    let d = location_display(&l).expect("EC is a known country code");
    assert_eq!(
        d,
        "Guayaquil, Guayaquil Canton, Guayas, Ecuador (-2.19, -79.88) with timezone 'America/Guayaquil'"
    );
}

#[test]
fn location_display_fails_on_unknown_country() {
    let l = loc("Nowhere", "0", "0", "Etc/UTC", "ZZ");
    assert_eq!(location_display(&l), None);
}

#[test]
fn geocoding_url_is_exact() {
    assert_eq!(
        geocoding_url("Maseru"),
        "https://geocoding-api.open-meteo.com/v1/search?name=Maseru"
    );
}

#[test]
fn resolver_zero_candidates_fails_not_found() {
    let s = InitState::AwaitGeocode { raw: "Atlantis".to_string() };
    let (s2, a) = init_step(s, InitEvent::Candidates { candidates: vec![] });
    assert_eq!(s2, InitState::Failed { err: JournalError::LocationNotFound });
    assert_eq!(a, InitAction::Abort { err: JournalError::LocationNotFound });
    // The failure is final: no later event revives the workflow.
    let (s3, a3) = init_step(s2, InitEvent::Number { n: 1 });
    assert_eq!(s3, InitState::Failed { err: JournalError::LocationNotFound });
    assert_eq!(a3, InitAction::Abort { err: JournalError::LocationNotFound });
}

#[test]
fn resolver_unique_candidate_skips_disambiguation() {
    let s = InitState::AwaitGeocode { raw: "Singapore".to_string() };
    let only = loc("Singapore", "1.29", "103.85", "Asia/Singapore", "SG");
    let (s2, a) = init_step(s, InitEvent::Candidates { candidates: vec![only.clone()] });
    assert_eq!(
        s2,
        InitState::AwaitEditorChoice { raw: "Singapore".to_string(), chosen: only }
    );
    assert_eq!(
        a,
        InitAction::ProceedToEditorMenu {
            display: "Singapore, Singapore (1.29, 103.85) with timezone 'Asia/Singapore'"
                .to_string()
        }
    );
}

#[test]
fn resolver_three_candidates_second_chosen() {
    let c1 = loc("Los Angeles", "34.05", "-118.24", "America/Los_Angeles", "US");
    let c2 = loc("Los Angeles", "-37.47", "-72.35", "America/Santiago", "CL");
    let c3 = loc("Los Angeles", "14.03", "121.15", "Asia/Manila", "PH");
    let s = InitState::AwaitGeocode { raw: "Los Angeles".to_string() };
    let (s2, a) = init_step(
        s,
        InitEvent::Candidates { candidates: vec![c1.clone(), c2.clone(), c3.clone()] },
    );
    match &a {
        InitAction::AskLocationChoice { displays } => assert_eq!(displays.len(), 3),
        other => panic!("expected the candidate list, got {:?}", other),
    }
    let (s3, a3) = init_step(s2, InitEvent::Number { n: 2 });
    assert_eq!(
        s3,
        InitState::AwaitEditorChoice { raw: "Los Angeles".to_string(), chosen: c2 }
    );
    match a3 {
        InitAction::ProceedToEditorMenu { .. } => {}
        other => panic!("expected to proceed to the editor menu, got {:?}", other),
    }
}

#[test]
fn resolver_invalid_choice_reprompts_without_bound() {
    let c1 = loc("San Francisco", "37.77", "-122.42", "America/Los_Angeles", "US");
    let c2 = loc("San Francisco", "10.64", "123.95", "Asia/Manila", "PH");
    let mut s = InitState::AwaitLocationChoice {
        raw: "San Francisco".to_string(),
        candidates: vec![c1.clone(), c2.clone()],
    };
    // Far more invalid answers than the file menu would ever allow.
    for bad in [0usize, 3, 99, 0, 7, 12, 0, 5] {
        let (s2, a) = init_step(s, InitEvent::Number { n: bad });
        assert_eq!(a, InitAction::RetryLocationChoice);
        s = s2;
    }
    let (s2, _) = init_step(s, InitEvent::Number { n: 1 });
    assert_eq!(
        s2,
        InitState::AwaitEditorChoice { raw: "San Francisco".to_string(), chosen: c1 }
    );
}

#[test]
fn editor_menu_out_of_range_is_fatal() {
    let chosen = loc("Maseru", "-29.31", "27.48", "Africa/Maseru", "LS");
    let s = InitState::AwaitEditorChoice { raw: "Maseru".to_string(), chosen };
    let (s2, a) = init_step(s, InitEvent::Number { n: 7 });
    assert_eq!(s2, InitState::Failed { err: JournalError::UnsupportedChoice });
    assert_eq!(a, InitAction::Abort { err: JournalError::UnsupportedChoice });
}

#[test]
fn init_walkthrough_writes_rendered_config() {
    let (s, a) = init_step(InitState::Start, InitEvent::Begin);
    assert_eq!(a, InitAction::Intro);
    let (s, a) = init_step(s, InitEvent::Text { text: "Singapore".to_string() });
    assert_eq!(
        a,
        InitAction::Geocode {
            url: "https://geocoding-api.open-meteo.com/v1/search?name=Singapore".to_string()
        }
    );
    let only = loc("Singapore", "1.29", "103.85", "Asia/Singapore", "SG");
    let (s, _) = init_step(s, InitEvent::Candidates { candidates: vec![only] });
    let (s, a) = init_step(s, InitEvent::Number { n: 1 });
    let expected_contents = "[defaults]\n\
                             location_full_name=\"Singapore\"\n\
                             location_latitude=\"1.29\"\n\
                             location_longitude=\"103.85\"\n\
                             timezone=\"Asia/Singapore\"\n\
                             editor=\"vim\"\n";
    assert_eq!(
        a,
        InitAction::ShowConfigAndAskPath { contents: expected_contents.to_string() }
    );
    let (s, a) = init_step(s, InitEvent::Text { text: "/home/user/journal".to_string() });
    assert_eq!(a, InitAction::CheckConfigExists { dir: "/home/user/journal".to_string() });
    let (s, a) = init_step(s, InitEvent::Exists { exists: false });
    assert_eq!(s, InitState::Done);
    assert_eq!(
        a,
        InitAction::WriteConfig {
            dir: "/home/user/journal".to_string(),
            contents: expected_contents.to_string()
        }
    );
}

#[test]
fn init_decline_overwrite_is_clean_noop() {
    let s = InitState::AwaitExists {
        dir: "/home/user/journal".to_string(),
        contents: "x".to_string(),
    };
    let (s, a) = init_step(s, InitEvent::Exists { exists: true });
    assert_eq!(a, InitAction::AskOverwrite);
    let (s2, a2) = init_step(s, InitEvent::Confirm { yes: false });
    assert_eq!(s2, InitState::Done);
    assert_eq!(a2, InitAction::Stop);
}

#[test]
fn init_custom_editor_command() {
    let chosen = loc("Maseru", "-29.31", "27.48", "Africa/Maseru", "LS");
    let s = InitState::AwaitEditorChoice { raw: "Maseru".to_string(), chosen };
    let (s, a) = init_step(s, InitEvent::Number { n: 5 });
    assert_eq!(a, InitAction::AskEditorCommand);
    let (_, a) = init_step(s, InitEvent::Text { text: "hx".to_string() });
    match a {
        InitAction::ShowConfigAndAskPath { contents } => {
            assert!(contents.ends_with("editor=\"hx\"\n"));
        }
        other => panic!("expected the settings review, got {:?}", other),
    }
}

#[test]
fn new_entry_not_initialised_is_soft_exit() {
    let (s, a) = new_entry_step(NewEntryState::Start, NewEntryEvent::Begin);
    assert_eq!(a, NewEntryAction::CheckInitialised);
    let (s2, a2) = new_entry_step(s, NewEntryEvent::InitChecked { initialised: false });
    assert_eq!(s2, NewEntryState::Done);
    assert_eq!(a2, NewEntryAction::ReportNotInitialised);
}

#[test]
fn new_entry_unchanged_scratch_creates_nothing_twice() {
    let preamble = "DATE: today\nLOCATION: here\n".to_string();
    // First run: the editor exits successfully but the user changed nothing.
    let s = NewEntryState::AwaitScratch { preamble: preamble.clone() };
    let (s2, a) = new_entry_step(s, NewEntryEvent::ScratchRead { content: preamble.clone() });
    assert_eq!(s2, NewEntryState::Done);
    assert_eq!(a, NewEntryAction::ReportNoChanges);
    // Second run over the same unedited content: again no entry is written.
    let s = NewEntryState::AwaitScratch { preamble: preamble.clone() };
    let (s2, a) = new_entry_step(s, NewEntryEvent::ScratchRead { content: preamble });
    assert_eq!(s2, NewEntryState::Done);
    assert_eq!(a, NewEntryAction::ReportNoChanges);
}

#[test]
fn new_entry_commits_edited_content() {
    let preamble = "DATE: today\n".to_string();
    let edited = "DATE: today\nDear diary, it rained.\n".to_string();
    let s = NewEntryState::AwaitScratch { preamble };
    let (s2, a) = new_entry_step(s, NewEntryEvent::ScratchRead { content: edited.clone() });
    assert_eq!(s2, NewEntryState::Done);
    assert_eq!(a, NewEntryAction::CommitEntry { contents: edited });
}

#[test]
fn new_entry_editor_failure_stops_without_entry() {
    let s = NewEntryState::AwaitEditorExit { preamble: "p".to_string() };
    let (s2, a) = new_entry_step(s, NewEntryEvent::EditorExited { success: false });
    assert_eq!(s2, NewEntryState::Done);
    assert_eq!(a, NewEntryAction::ReportEditorFailed);
}

#[test]
fn new_entry_builds_preamble_from_weather() {
    let cfg = Config {
        location_full_name: "Singapore".to_string(),
        location_latitude: "1.29".to_string(),
        location_longitude: "103.85".to_string(),
        timezone: "Asia/Singapore".to_string(),
        editor: "vim".to_string(),
    };
    let (s, a) = new_entry_step(
        NewEntryState::AwaitConfig,
        NewEntryEvent::ConfigLoaded { cfg },
    );
    assert_eq!(a, NewEntryAction::GetNow { timezone: "Asia/Singapore".to_string() });
    let (s, a) = new_entry_step(
        s,
        NewEntryEvent::Now {
            stamp: "2023-09-04 08:00".to_string(),
            display: "Mon, 2023 Sep 04 08:00:00 +08 (+08:00)".to_string(),
        },
    );
    assert_eq!(
        a,
        NewEntryAction::FetchWeather {
            latitude: "1.29".to_string(),
            longitude: "103.85".to_string(),
            timezone: "Asia/Singapore".to_string(),
            stamp: "2023-09-04 08:00".to_string(),
        }
    );
    let (_, a) = new_entry_step(s, NewEntryEvent::WeatherLoaded { weather: weather61() });
    match a {
        NewEntryAction::EditScratch { editor, contents } => {
            assert_eq!(editor, "vim");
            assert!(contents.contains("Light rain"));
            assert!(contents.contains("Winds: 8.4 km/h E"));
        }
        other => panic!("expected the editor to be launched, got {:?}", other),
    }
}

#[test]
fn browse_zero_matches_reports_and_stops() {
    let s = OpenState::AwaitFiles { editor: "vim".to_string() };
    let (s2, a) = open_step(s, OpenEvent::Files { files: vec![] });
    assert_eq!(s2, OpenState::Done);
    assert_eq!(a, OpenAction::ReportNoEntries);
}

#[test]
fn browse_single_match_opens_directly() {
    let s = OpenState::AwaitFiles { editor: "vim".to_string() };
    let (s2, a) = open_step(s, OpenEvent::Files { files: vec!["4.08-15.txt".to_string()] });
    assert_eq!(s2, OpenState::Done);
    assert_eq!(
        a,
        OpenAction::OpenFile { editor: "vim".to_string(), path: "4.08-15.txt".to_string() }
    );
}

#[test]
fn browse_choice_picks_listed_file() {
    let files = vec!["4.08-15.txt".to_string(), "4.11-02.txt".to_string(), "4.19-40.txt".to_string()];
    let s = OpenState::AwaitFiles { editor: "nano".to_string() };
    let (s, a) = open_step(s, OpenEvent::Files { files: files.clone() });
    assert_eq!(a, OpenAction::AskFileChoice);
    let (s2, a2) = open_step(s, OpenEvent::Number { n: 3 });
    assert_eq!(s2, OpenState::Done);
    assert_eq!(
        a2,
        OpenAction::OpenFile { editor: "nano".to_string(), path: "4.19-40.txt".to_string() }
    );
}

#[test]
fn browse_five_invalid_answers_exceed_max_tries() {
    let files = vec!["a.txt".to_string(), "b.txt".to_string()];
    let s = OpenState::AwaitFiles { editor: "vim".to_string() };
    let (mut s, _) = open_step(s, OpenEvent::Files { files });
    for _ in 0..4 {
        let (s2, a) = open_step(s, OpenEvent::Number { n: 0 });
        assert_eq!(a, OpenAction::RetryFileChoice);
        s = s2;
    }
    let (s2, a) = open_step(s, OpenEvent::Number { n: 9 });
    assert_eq!(s2, OpenState::Failed { err: JournalError::MaxTriesExceeded });
    assert_eq!(a, OpenAction::Abort { err: JournalError::MaxTriesExceeded });
}

#[test]
fn dispatcher_selects_the_workflows() {
    assert_eq!(
        journal_main_driver(Some(JournalCommand::Init)),
        Some(Workflow::Init(InitState::Start))
    );
    assert_eq!(
        journal_main_driver(Some(JournalCommand::New)),
        Some(Workflow::New(NewEntryState::Start))
    );
    assert_eq!(
        journal_main_driver(Some(JournalCommand::Open)),
        Some(Workflow::Open(OpenState::Start))
    );
    assert_eq!(journal_main_driver(None), None);
}

#[test]
fn weather_index_matches_requested_hour_and_date() {
    let hourly = vec![
        "2023-09-04T06:00".to_string(),
        "2023-09-04T07:00".to_string(),
        "2023-09-04T08:00".to_string(),
        "2023-09-05T08:00".to_string(),
    ];
    assert_eq!(find_hour_index(&hourly, "2023-09-04 08:00"), Some(2));
    assert_eq!(find_hour_index(&hourly, "2023-09-05 08:30"), Some(3));
    assert_eq!(find_hour_index(&hourly, "2023-09-06 08:00"), None);
    let daily = vec!["2023-09-04".to_string(), "2023-09-05".to_string()];
    assert_eq!(find_date_index(&daily, "2023-09-05 08:00"), Some(1));
    assert_eq!(find_date_index(&daily, "2023-09-06 08:00"), None);
}

#[test]
fn helper_messages_read_as_expected() {
    assert_eq!(
        HelperMessage::NotInitialised.text(),
        "Oops!  Looks like you haven't initialised your journal yet.  Try running `journal init` first."
    );
    assert_eq!(
        HelperMessage::NoChanges.text(),
        "No changes found.  Will not be writing into a new entry."
    );
    assert_eq!(HelperMessage::NoEntriesToday.text(), "You don't have entries written today.");
    assert!(HelperMessage::TutorialWelcome.text().contains("journal_CLI"));
}
