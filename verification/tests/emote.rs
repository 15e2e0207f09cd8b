use inori::emote::{stored_emote, Emote, EmoteTable, Mode};
use inori::text::decimal_string;

fn emote(name: &str, id: u64, animated: bool) -> Emote {
    Emote { name: name.to_string(), id, url: String::new(), animated }
}

#[test]
fn success_on_an_empty_table_is_the_label() {
    let (glyph, custom) = EmoteTable::new().resolve(Mode::Success);
    assert_eq!(glyph, "Success: ");
    assert!(!custom);
}

#[test]
fn success_with_a_static_entry_is_the_static_token() {
    let mut table = EmoteTable::new();
    table.insert(emote("response_success", 42, false));
    let (glyph, custom) = table.resolve(Mode::Success);
    assert_eq!(glyph, "<:response_success:42> ");
    assert!(custom);
}

#[test]
fn animated_entry_is_the_animated_token() {
    let mut table = EmoteTable::new();
    table.insert(emote("loading", 7, true));
    assert_eq!(table.resolve(Mode::Loading), ("<a:loading:7> ".to_string(), true));
    let mut still = EmoteTable::new();
    still.insert(emote("loading", 7, false));
    assert_eq!(still.resolve(Mode::Loading), ("<:loading:7> ".to_string(), true));
}

#[test]
fn default_mode_has_no_glyph() {
    let mut table = EmoteTable::new();
    table.insert(emote("response_error", 1, false));
    assert_eq!(table.resolve(Mode::Default), (String::new(), false));
    assert_eq!(EmoteTable::new().resolve(Mode::Default), (String::new(), false));
}

#[test]
fn every_mode_has_its_label() {
    let table = EmoteTable::new();
    assert_eq!(table.resolve(Mode::Loading).0, "Loading: ");
    assert_eq!(table.resolve(Mode::Success).0, "Success: ");
    assert_eq!(table.resolve(Mode::Info).0, "Info: ");
    assert_eq!(table.resolve(Mode::Warning).0, "Warning: ");
    assert_eq!(table.resolve(Mode::Error).0, "Error: ");
}

#[test]
fn every_mode_has_its_emote_name() {
    assert_eq!(Mode::Loading.emote_name(), "loading");
    assert_eq!(Mode::Success.emote_name(), "response_success");
    assert_eq!(Mode::Info.emote_name(), "response_info");
    assert_eq!(Mode::Warning.emote_name(), "response_warning");
    assert_eq!(Mode::Error.emote_name(), "response_error");
    assert_eq!(Mode::Default.emote_name(), "response_error");
    assert_eq!(Mode::Default.fallback_label(), "Error: ");
}

#[test]
fn entry_of_another_mode_is_a_miss() {
    let mut table = EmoteTable::new();
    table.insert(emote("response_info", 5, false));
    assert_eq!(table.resolve(Mode::Warning), ("Warning: ".to_string(), false));
    assert_eq!(table.resolve(Mode::Info), ("<:response_info:5> ".to_string(), true));
}

#[test]
fn unknown_mode_code_degrades_to_error() {
    assert_eq!(Mode::from_code(0), Mode::Default);
    assert_eq!(Mode::from_code(1), Mode::Loading);
    assert_eq!(Mode::from_code(2), Mode::Success);
    assert_eq!(Mode::from_code(3), Mode::Info);
    assert_eq!(Mode::from_code(4), Mode::Warning);
    assert_eq!(Mode::from_code(5), Mode::Error);
    assert_eq!(Mode::from_code(6), Mode::Error);
    assert_eq!(Mode::from_code(u64::MAX), Mode::Error);
    assert_eq!(EmoteTable::new().resolve(Mode::from_code(99)).0, "Error: ");
}

#[test]
fn insert_replaces_an_entry_of_the_same_name() {
    let mut table = EmoteTable::new();
    assert_eq!(table.len(), 0);
    table.insert(emote("loading", 1, false));
    table.insert(emote("response_success", 2, false));
    assert_eq!(table.len(), 2);
    table.insert(emote("loading", 3, true));
    assert_eq!(table.len(), 2);
    assert_eq!(table.position("loading"), Some(0));
    assert_eq!(table.position("response_success"), Some(1));
    assert_eq!(table.position("response_info"), None);
    let found = table.get("loading").expect("registered");
    assert_eq!(found.id, 3);
    assert!(found.animated);
    assert!(table.get("nothing").is_none());
}

#[test]
fn table_clone_resolves_alike() {
    let mut table = EmoteTable::new();
    table.insert(emote("response_error", 77, false));
    let copy = table.clone();
    assert_eq!(copy.len(), 1);
    assert_eq!(copy.resolve(Mode::Error), table.resolve(Mode::Error));
    assert_eq!(copy.resolve(Mode::Error).0, "<:response_error:77> ");
}

#[test]
fn emotes_are_equal_by_identifier() {
    let a = emote("a", 1, false);
    let b = Emote { name: "b".to_string(), id: 1, url: "u".to_string(), animated: true };
    let c = emote("a", 2, false);
    assert!(a == b);
    assert!(a != c);
    let d = a.clone();
    assert_eq!(d.name, "a");
    assert_eq!(d.id, 1);
    assert_eq!(d.url, "");
    assert!(!d.animated);
}

#[test]
fn decimal_numerals() {
    assert_eq!(decimal_string(0), "0");
    assert_eq!(decimal_string(9), "9");
    assert_eq!(decimal_string(10), "10");
    assert_eq!(decimal_string(42), "42");
    assert_eq!(decimal_string(1_000), "1000");
    assert_eq!(decimal_string(585696613507399692), "585696613507399692");
    assert_eq!(decimal_string(u64::MAX), "18446744073709551615");
}

#[test]
fn large_identifier_in_a_token() {
    let mut table = EmoteTable::new();
    table.insert(emote("response_warning", u64::MAX, false));
    assert_eq!(table.resolve(Mode::Warning).0, "<:response_warning:18446744073709551615> ");
}

#[test]
fn stored_pair_becomes_an_emote() {
    let loading = stored_emote("loading", 4);
    assert_eq!(loading.name, "loading");
    assert_eq!(loading.id, 4);
    assert_eq!(loading.url, "");
    assert!(loading.animated);
    let other = stored_emote("response_success", 5);
    assert_eq!(other.name, "response_success");
    assert_eq!(other.id, 5);
    assert!(!other.animated);
    let mut table = EmoteTable::new();
    table.insert(loading);
    table.insert(other);
    assert_eq!(table.resolve(Mode::Loading).0, "<a:loading:4> ");
    assert_eq!(table.resolve(Mode::Success).0, "<:response_success:5> ");
}
