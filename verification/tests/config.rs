use playback_core::config::{Config, ConfigError, ConfigLibraries, ConfigLibrary};

fn library(name: &str, uuid: u128) -> ConfigLibrary {
    ConfigLibrary { name: String::from(name), path: String::from(""), uuid }
}

#[test]
fn fresh_library_is_empty_with_some_uuid() {
    let lib = ConfigLibrary::new();
    assert_eq!(lib.name, String::new());
    assert_eq!(lib.path, String::new());
}

#[test]
fn set_default_changes_the_default() {
    let mut libs = ConfigLibraries::default();
    libs.set_default(&7);
    assert_eq!(libs.default_library, 7);
}

#[test]
fn get_default_finds_the_default_library() {
    let mut libs = ConfigLibraries::default();
    libs.libraries.push(library("first", 1));
    libs.libraries.push(library("second", 2));
    libs.set_default(&2);
    let found = libs.get_default().unwrap();
    assert_eq!(found.name, String::from("second"));
    assert_eq!(found.uuid, 2);
}

#[test]
fn get_default_without_match_fails() {
    let mut libs = ConfigLibraries::default();
    libs.libraries.push(library("first", 1));
    libs.set_default(&9);
    assert_eq!(libs.get_default(), Err(ConfigError::NoDefaultLibrary));
}

#[test]
fn get_library_returns_first_match() {
    let mut libs = ConfigLibraries::default();
    libs.libraries.push(library("first", 1));
    libs.libraries.push(library("second", 5));
    libs.libraries.push(library("third", 5));
    let found = libs.get_library(&5).unwrap();
    assert_eq!(found.name, String::from("second"));
}

#[test]
fn get_library_without_match_fails() {
    let mut libs = ConfigLibraries::default();
    libs.libraries.push(library("first", 1));
    assert_eq!(libs.get_library(&3), Err(ConfigError::NoConfigLibrary(3)));
}

#[test]
fn uuid_exists_reports_membership() {
    let mut libs = ConfigLibraries::default();
    assert!(!libs.uuid_exists(&1));
    libs.libraries.push(library("first", 1));
    assert!(libs.uuid_exists(&1));
    assert!(!libs.uuid_exists(&2));
}

#[test]
fn new_config_holds_one_library() {
    let config = Config::new();
    assert_eq!(config.libraries.libraries.len(), 1);
    assert_eq!(config.path, String::new());
}

#[test]
fn main_config_is_empty() {
    let config = Config::new_main();
    assert!(config.libraries.libraries.is_empty());
    assert_eq!(config.volume, 0);
}
