use jukebox::error::JbError;
use jukebox::settings::{GlobalSettings, SettingsFile};

#[test]
fn default_settings() {
    let settings = GlobalSettings::default();
    assert_eq!(settings.folder_to_scan, "./");
    assert_eq!(settings.library_file, "library.toml");
}

#[test]
fn missing_settings_file_gives_defaults() {
    let settings = GlobalSettings::read_or_create_config(None);
    assert_eq!(settings.folder_to_scan, "./");
    assert_eq!(settings.library_file, "library.toml");
}

#[test]
fn settings_file_fields_are_taken() {
    let file = SettingsFile {
        folder_to_scan: Some("/music".to_string()),
        library_file: Some("/data/lib.toml".to_string()),
    };
    let settings = GlobalSettings::read_or_create_config(Some(file));
    assert_eq!(settings.folder_to_scan, "/music");
    assert_eq!(settings.library_file, "/data/lib.toml");
}

#[test]
fn missing_settings_fields_take_defaults() {
    let only_folder = SettingsFile { folder_to_scan: Some("/music".to_string()), library_file: None };
    let settings = GlobalSettings::read_or_create_config(Some(only_folder));
    assert_eq!(settings.folder_to_scan, "/music");
    assert_eq!(settings.library_file, "library.toml");
    let only_file = SettingsFile { folder_to_scan: None, library_file: Some("x.toml".to_string()) };
    let settings = GlobalSettings::read_or_create_config(Some(only_file));
    assert_eq!(settings.folder_to_scan, "./");
    assert_eq!(settings.library_file, "x.toml");
    let neither = SettingsFile { folder_to_scan: None, library_file: None };
    let settings = GlobalSettings::read_or_create_config(Some(neither));
    assert_eq!(settings.folder_to_scan, "./");
    assert_eq!(settings.library_file, "library.toml");
}

#[test]
fn settings_clone_keeps_both_fields() {
    let settings = GlobalSettings {
        folder_to_scan: "/music".to_string(),
        library_file: "lib.toml".to_string(),
    };
    let copy = settings.clone();
    assert_eq!(copy.folder_to_scan, "/music");
    assert_eq!(copy.library_file, "lib.toml");
}

#[test]
fn error_messages_name_the_kind() {
    assert_eq!(JbError::IoError("x".to_string()).message(), "IO Error");
    assert_eq!(JbError::SettingsError("x".to_string()).message(), "global settings error");
    assert_eq!(JbError::AudioFileError("x".to_string()).message(), "audio file read error");
    assert_eq!(JbError::SettingsParsingError("x".to_string()).message(), "figment error");
    assert_eq!(JbError::AudioTagError("x".to_string()).message(), "lofty error");
    assert_eq!(JbError::AudioDeviceError("x".to_string()).message(), "audio device error");
}

#[test]
fn error_detail_is_the_text_of_the_cause() {
    assert_eq!(JbError::IoError("no such file".to_string()).detail(), "no such file");
    assert_eq!(JbError::SettingsError("a".to_string()).detail(), "a");
    assert_eq!(JbError::AudioFileError("b".to_string()).detail(), "b");
    assert_eq!(JbError::SettingsParsingError("c".to_string()).detail(), "c");
    assert_eq!(JbError::AudioTagError("d".to_string()).detail(), "d");
    assert_eq!(JbError::AudioDeviceError(String::new()).detail(), "");
}
