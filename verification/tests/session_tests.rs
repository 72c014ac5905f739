use weather_station::menu::{
    choose_country, history_entry, read_menu_choice, record_lookup, remember, resolve_country,
    select_option, MenuOpction,
};
use weather_station::settings::AppConfig;
use weather_station::session::{
    on_answer, on_display, on_line, on_lookup, step, SessionAction, SessionEvent, SessionState,
};

fn is_prompting_country(state: &SessionState, expected: &str) -> bool {
    matches!(state, SessionState::PromptingCountry { city } if city == expected)
}

fn is_fetching(state: &SessionState, c: &str, k: &str) -> bool {
    matches!(state, SessionState::Fetching { city, country } if city == c && country == k)
}

fn is_fetch(action: &SessionAction, c: &str, k: &str) -> bool {
    matches!(action, SessionAction::Fetch { city, country } if city == c && country == k)
}

#[test]
fn menu_choices() {
    assert_eq!(select_option("1"), Some(MenuOpction::CurrentWeather));
    assert_eq!(select_option("2"), Some(MenuOpction::Forecats));
    assert_eq!(select_option("3"), Some(MenuOpction::Favorites));
    assert_eq!(select_option("4"), Some(MenuOpction::Settings));
    assert_eq!(select_option("5"), Some(MenuOpction::Exit));
    assert_eq!(select_option("0"), None);
    assert_eq!(select_option("6"), None);
    assert_eq!(select_option(""), None);
    assert_eq!(select_option("11"), None);
    assert_eq!(select_option(" 1"), None);
}

#[test]
fn menu_choice_ignores_surrounding_space() {
    assert_eq!(read_menu_choice(" 1 "), Some(MenuOpction::CurrentWeather));
    assert_eq!(read_menu_choice("5\n"), Some(MenuOpction::Exit));
    assert_eq!(read_menu_choice("\t3"), Some(MenuOpction::Favorites));
    assert_eq!(read_menu_choice("1 2"), None);
    assert_eq!(read_menu_choice("   "), None);
}

#[test]
fn blank_country_takes_the_default() {
    assert_eq!(resolve_country("", "US"), "US");
    assert_eq!(resolve_country("   ", "US"), "US");
    assert_eq!(resolve_country("\t\n", "DE"), "DE");
    assert_eq!(choose_country("", "US"), "US");
}

#[test]
fn entered_country_is_trimmed() {
    assert_eq!(resolve_country("GB", "US"), "GB");
    assert_eq!(resolve_country("  gb ", "US"), "gb");
    assert_eq!(choose_country(" gb", "US"), " gb");
}

#[test]
fn history_entries() {
    assert_eq!(history_entry("London", "GB"), "London, GB");
    assert_eq!(history_entry("", ""), ", ");
}

#[test]
fn history_keeps_the_newest_entries() {
    let mut history: Vec<String> = Vec::new();
    remember(&mut history, "a".to_string(), 3);
    remember(&mut history, "b".to_string(), 3);
    remember(&mut history, "c".to_string(), 3);
    assert_eq!(history, vec!["a", "b", "c"]);
    remember(&mut history, "d".to_string(), 3);
    assert_eq!(history, vec!["b", "c", "d"]);
    remember(&mut history, "e".to_string(), 1);
    assert_eq!(history, vec!["e"]);
    remember(&mut history, "f".to_string(), 2);
    assert_eq!(history, vec!["e", "f"]);
}

#[test]
fn history_under_a_limit_of_zero_is_empty() {
    let mut history: Vec<String> = vec!["a".to_string(), "b".to_string()];
    remember(&mut history, "c".to_string(), 0);
    assert!(history.is_empty());
}

#[test]
fn lookups_are_recorded_as_the_settings_ask() {
    let mut config = AppConfig { max_history_items: 2, ..AppConfig::default() };
    let mut history: Vec<String> = Vec::new();
    record_lookup(&mut history, "London", "GB", &config);
    record_lookup(&mut history, "Paris", "FR", &config);
    record_lookup(&mut history, "Rome", "IT", &config);
    assert_eq!(history, vec!["Paris, FR", "Rome, IT"]);

    config.save_history = false;
    record_lookup(&mut history, "Oslo", "NO", &config);
    assert_eq!(history, vec!["Paris, FR", "Rome, IT"]);

    config.save_history = true;
    config.max_history_items = 0;
    record_lookup(&mut history, "Oslo", "NO", &config);
    assert!(history.is_empty());
}

#[test]
fn a_lookup_runs_through_every_state() {
    let (state, action) = step(
        SessionState::PromptingCity,
        SessionEvent::Line("  London \n".to_string()),
        "US",
    );
    assert!(is_prompting_country(&state, "London"));
    assert!(matches!(action, SessionAction::PromptCountry));

    let (state, action) = step(state, SessionEvent::Line(" gb ".to_string()), "US");
    assert!(is_fetching(&state, "London", "gb"));
    assert!(is_fetch(&action, "London", "gb"));

    let (state, action) = step(state, SessionEvent::Fetched, "US");
    assert!(matches!(state, SessionState::Displaying));
    assert!(matches!(action, SessionAction::Display));

    let (state, action) = step(state, SessionEvent::Displayed, "US");
    assert!(matches!(state, SessionState::PromptingCity));
    assert!(matches!(action, SessionAction::PromptCity));
}

#[test]
fn a_blank_country_looks_up_the_default() {
    let state = SessionState::PromptingCountry { city: "Austin".to_string() };
    let (state, action) = on_line(state, "   ", "US");
    assert!(is_fetching(&state, "Austin", "US"));
    assert!(is_fetch(&action, "Austin", "US"));
}

#[test]
fn quit_ends_the_session() {
    for line in ["quit", "QUIT", "Quit", "  quit  ", "qUiT\n"] {
        let (state, action) = on_line(SessionState::PromptingCity, line, "US");
        assert!(matches!(state, SessionState::Exit));
        assert!(matches!(action, SessionAction::Leave));
    }
}

#[test]
fn quit_must_be_the_whole_answer() {
    for line in ["quit now", "quitt", "qui", "", "q"] {
        let (state, action) = on_line(SessionState::PromptingCity, line, "US");
        assert!(is_prompting_country(&state, line));
        assert!(matches!(action, SessionAction::PromptCountry));
    }
    let (state, _) = on_answer(SessionState::PromptingCity, " quit", "US");
    assert!(is_prompting_country(&state, " quit"));
}

#[test]
fn quit_is_a_country_like_any_other() {
    let state = SessionState::PromptingCountry { city: "Oslo".to_string() };
    let (state, action) = on_line(state, "quit", "NO");
    assert!(is_fetching(&state, "Oslo", "quit"));
    assert!(is_fetch(&action, "Oslo", "quit"));
}

#[test]
fn end_of_input_ends_the_session_from_every_state() {
    let states = vec![
        SessionState::PromptingCity,
        SessionState::PromptingCountry { city: "Rome".to_string() },
        SessionState::Fetching { city: "Rome".to_string(), country: "IT".to_string() },
        SessionState::Displaying,
        SessionState::Exit,
    ];
    for state in states {
        let (state, action) = step(state, SessionEvent::EndOfInput, "US");
        assert!(matches!(state, SessionState::Exit));
        assert!(matches!(action, SessionAction::Leave));
    }
}

#[test]
fn a_failed_lookup_returns_to_the_city_prompt() {
    let state = SessionState::Fetching { city: "Rome".to_string(), country: "IT".to_string() };
    let (state, action) = step(state, SessionEvent::FetchFailed, "US");
    assert!(matches!(state, SessionState::PromptingCity));
    assert!(matches!(action, SessionAction::ReportError));
    let (state, action) = on_line(state, "Milan", "US");
    assert!(is_prompting_country(&state, "Milan"));
    assert!(matches!(action, SessionAction::PromptCountry));
}

#[test]
fn the_final_state_stays() {
    let (state, action) = step(SessionState::Exit, SessionEvent::Line("Rome".to_string()), "US");
    assert!(matches!(state, SessionState::Exit));
    assert!(matches!(action, SessionAction::Leave));
    let (state, action) = on_lookup(state, true);
    assert!(matches!(state, SessionState::Exit));
    assert!(matches!(action, SessionAction::Leave));
    let (state, action) = on_display(state);
    assert!(matches!(state, SessionState::Exit));
    assert!(matches!(action, SessionAction::Leave));
}

#[test]
fn an_event_out_of_turn_changes_nothing() {
    let (state, action) = on_lookup(SessionState::PromptingCity, true);
    assert!(matches!(state, SessionState::PromptingCity));
    assert!(matches!(action, SessionAction::PromptCity));

    let state = SessionState::PromptingCountry { city: "Rome".to_string() };
    let (state, action) = on_display(state);
    assert!(is_prompting_country(&state, "Rome"));
    assert!(matches!(action, SessionAction::PromptCountry));

    let state = SessionState::Fetching { city: "Rome".to_string(), country: "IT".to_string() };
    let (state, action) = on_line(state, "Milan", "US");
    assert!(is_fetching(&state, "Rome", "IT"));
    assert!(is_fetch(&action, "Rome", "IT"));

    let (state, action) = on_line(SessionState::Displaying, "Milan", "US");
    assert!(matches!(state, SessionState::Displaying));
    assert!(matches!(action, SessionAction::Display));
}
