use vstd::prelude::*;

verus! {

/// Where the player looks for music and where it keeps its catalog.
#[derive(Debug)]
pub struct GlobalSettings {
    /// The folder that a scan walks.
    pub folder_to_scan: String,
    /// The file that the catalog is saved to and loaded from.
    pub library_file: String,
}

/// What `GlobalSettings` holds, as plain mathematical values.
pub struct GlobalSettingsView {
    pub folder_to_scan: Seq<char>,
    pub library_file: Seq<char>,
}

impl View for GlobalSettings {
    type V = GlobalSettingsView;

    open spec fn view(&self) -> GlobalSettingsView {
        GlobalSettingsView {
            folder_to_scan: self.folder_to_scan@,
            library_file: self.library_file@,
        }
    }
}

/// What a settings file held: each field that it gave.
#[derive(Debug)]
pub struct SettingsFile {
    pub folder_to_scan: Option<String>,
    pub library_file: Option<String>,
}

impl GlobalSettingsView {
    /// The settings used where nothing else is configured: the current
    /// folder is scanned, and the catalog is kept in `library.toml`.
    pub open spec fn defaults() -> GlobalSettingsView {
        GlobalSettingsView { folder_to_scan: "./"@, library_file: "library.toml"@ }
    }

    /// The settings that a settings file gives: each field as the file has
    /// it, a field that the file lacks as in `defaults`, and `defaults`
    /// where there is no readable file at all.
    pub open spec fn from_file(file: Option<SettingsFile>) -> GlobalSettingsView {
        match file {
            Some(file) => GlobalSettingsView {
                folder_to_scan: match file.folder_to_scan {
                    Some(folder) => folder@,
                    None => Self::defaults().folder_to_scan,
                },
                library_file: match file.library_file {
                    Some(path) => path@,
                    None => Self::defaults().library_file,
                },
            },
            None => Self::defaults(),
        }
    }
}

impl Default for GlobalSettings {
    fn default() -> (settings: Self)
        ensures
            settings@ == GlobalSettingsView::defaults(),
    {
        GlobalSettings { folder_to_scan: "./".to_owned(), library_file: "library.toml".to_owned() }
    }
}

impl Clone for GlobalSettings {
    fn clone(&self) -> (copy: Self)
        ensures
            copy@ == self@,
    {
        GlobalSettings {
            folder_to_scan: self.folder_to_scan.clone(),
            library_file: self.library_file.clone(),
        }
    }
}

impl GlobalSettings {
    /// The settings to run with, given what the settings file held, or
    /// `None` where the file was missing or could not be read as settings.
    pub fn read_or_create_config(file: Option<SettingsFile>) -> (settings: GlobalSettings)
        ensures
            settings@ == GlobalSettingsView::from_file(file),
    {
        match file {
            Some(file) => {
                let SettingsFile { folder_to_scan, library_file } = file;
                GlobalSettings {
                    folder_to_scan: match folder_to_scan {
                        Some(folder) => folder,
                        None => "./".to_owned(),
                    },
                    library_file: match library_file {
                        Some(path) => path,
                        None => "library.toml".to_owned(),
                    },
                }
            },
            None => GlobalSettings::default(),
        }
    }
}

} // verus!
