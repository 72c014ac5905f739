//! The main menu and the decisions around one lookup.

use crate::settings::AppConfig;
use crate::text::{same_text, trim, trimmed};
use vstd::prelude::*;
use vstd::string::StringExecFns;

verus! {

/// An entry of the main menu.
#[derive(Debug, Clone, Copy, PartialEq, Eq, Structural)]
pub enum MenuOpction {
    CurrentWeather,
    Forecats,
    Favorites,
    Settings,
    Exit,
}

/// The menu entry that an answer selects: the entries are numbered from 1
/// to 5, and any other answer selects none.
pub open spec fn menu_choice(answer: Seq<char>) -> Option<MenuOpction> {
    if answer == "1"@ {
        Some(MenuOpction::CurrentWeather)
    } else if answer == "2"@ {
        Some(MenuOpction::Forecats)
    } else if answer == "3"@ {
        Some(MenuOpction::Favorites)
    } else if answer == "4"@ {
        Some(MenuOpction::Settings)
    } else if answer == "5"@ {
        Some(MenuOpction::Exit)
    } else {
        None
    }
}

/// The country code to look up: what was entered, or the default where
/// nothing was.
pub open spec fn country_choice(entered: Seq<char>, default_country: Seq<char>) -> Seq<char> {
    if entered.len() == 0 {
        default_country
    } else {
        entered
    }
}

/// The entries that stay when one more is added under a limit: the newest,
/// in their order, and one fewer than the limit at most.
pub open spec fn kept_history(history: Seq<String>, limit: nat) -> Seq<String> {
    if limit == 0 {
        Seq::<String>::empty()
    } else if history.len() >= limit {
        history.subrange(history.len() - limit + 1, history.len() as int)
    } else {
        history
    }
}

/// The history after one more entry under a limit. A limit of zero keeps
/// nothing.
pub open spec fn history_with(history: Seq<String>, entry: String, limit: nat) -> Seq<String> {
    if limit == 0 {
        Seq::<String>::empty()
    } else {
        kept_history(history, limit).push(entry)
    }
}

/// Reads a menu choice from an answer without surrounding white space.
pub fn select_option(answer: &str) -> (choice: Option<MenuOpction>)
    ensures
        choice == menu_choice(answer@),
{
    if same_text(answer, "1") {
        Some(MenuOpction::CurrentWeather)
    } else if same_text(answer, "2") {
        Some(MenuOpction::Forecats)
    } else if same_text(answer, "3") {
        Some(MenuOpction::Favorites)
    } else if same_text(answer, "4") {
        Some(MenuOpction::Settings)
    } else if same_text(answer, "5") {
        Some(MenuOpction::Exit)
    } else {
        None
    }
}

/// Reads a menu choice from a line as the user typed it. `None` asks for
/// the question to be put again.
pub fn read_menu_choice(line: &str) -> (choice: Option<MenuOpction>)
    ensures
        choice == menu_choice(trimmed(line@)),
{
    select_option(trim(line))
}

/// Picks the country code from an answer without surrounding white space.
pub fn choose_country(entered: &str, default_country: &str) -> (code: String)
    ensures
        code@ == country_choice(entered@, default_country@),
{
    if entered.is_empty() {
        String::from_str(default_country)
    } else {
        String::from_str(entered)
    }
}

/// Picks the country code from a line as the user typed it.
pub fn resolve_country(line: &str, default_country: &str) -> (code: String)
    ensures
        code@ == country_choice(trimmed(line@), default_country@),
{
    choose_country(trim(line), default_country)
}

/// The line under which a lookup is remembered.
pub fn history_entry(city: &str, country_code: &str) -> (entry: String)
    ensures
        entry@ == city@ + ", "@ + country_code@,
{
    let mut entry = String::from_str(city);
    entry.append(", ");
    entry.append(country_code);
    entry
}

/// Adds an entry to the history and drops the oldest entries beyond the
/// limit.
pub fn remember(history: &mut Vec<String>, entry: String, limit: usize)
    ensures
        final(history)@ == history_with(old(history)@, entry, limit as nat),
        final(history)@.len() <= limit,
{
    if limit == 0 {
        history.clear();
        return ;
    }
    let ghost before = history@;
    let ghost mut dropped: int = 0;
    while history.len() >= limit
        invariant
            limit > 0,
            0 <= dropped <= before.len(),
            history@ == before.subrange(dropped, before.len() as int),
            before.len() < limit ==> dropped == 0,
            before.len() >= limit ==> dropped <= before.len() - limit + 1,
        decreases history@.len(),
    {
        history.remove(0);
        proof {
            dropped = dropped + 1;
        }
        assert(history@ =~= before.subrange(dropped, before.len() as int));
    }
    assert(history@ =~= kept_history(before, limit as nat));
    history.push(entry);
}

/// Remembers a lookup, if the settings ask for a history: the entry names
/// city and country, and the history stays within the configured limit.
pub fn record_lookup(
    history: &mut Vec<String>,
    city: &str,
    country_code: &str,
    config: &AppConfig,
)
    ensures
        !config.save_history ==> final(history)@ == old(history)@,
        config.save_history && config.max_history_items == 0 ==> final(history)@.len() == 0,
        config.save_history && config.max_history_items > 0 ==> final(history)@.drop_last()
            == kept_history(old(history)@, config.max_history_items as nat),
        config.save_history && config.max_history_items > 0 ==> final(history)@.len() > 0
            && final(history)@.last()@ == city@ + ", "@ + country_code@,
{
    if config.save_history {
        let entry = history_entry(city, country_code);
        remember(history, entry, config.max_history_items);
        proof {
            if config.max_history_items > 0 {
                assert(history@.drop_last() =~= kept_history(
                    old(history)@,
                    config.max_history_items as nat,
                ));
            }
        }
    }
}

} // verus!
