use vstd::prelude::*;

verus! {

/// What can go wrong around the player. Each kind carries the text of the
/// failure that caused it.
#[derive(Debug)]
pub enum JbError {
    /// A file could not be opened, read or written.
    IoError(String),
    /// The settings are unusable.
    SettingsError(String),
    /// An audio file could not be decoded or holds nothing to play.
    AudioFileError(String),
    /// The settings file or the catalog file is malformed.
    SettingsParsingError(String),
    /// The tags of an audio file could not be read.
    AudioTagError(String),
    /// The default audio output is not available.
    AudioDeviceError(String),
}

impl JbError {
    /// The fixed text that names each kind of error.
    pub open spec fn spec_message(self) -> Seq<char> {
        match self {
            JbError::IoError(_) => "IO Error"@,
            JbError::SettingsError(_) => "global settings error"@,
            JbError::AudioFileError(_) => "audio file read error"@,
            JbError::SettingsParsingError(_) => "figment error"@,
            JbError::AudioTagError(_) => "lofty error"@,
            JbError::AudioDeviceError(_) => "audio device error"@,
        }
    }

    /// The text of the failure that caused the error.
    pub open spec fn spec_detail(self) -> Seq<char> {
        match self {
            JbError::IoError(detail) => detail@,
            JbError::SettingsError(detail) => detail@,
            JbError::AudioFileError(detail) => detail@,
            JbError::SettingsParsingError(detail) => detail@,
            JbError::AudioTagError(detail) => detail@,
            JbError::AudioDeviceError(detail) => detail@,
        }
    }

    /// The fixed text that names the kind of this error.
    pub fn message(&self) -> (text: String)
        ensures
            text@ == self.spec_message(),
    {
        match self {
            JbError::IoError(_) => "IO Error".to_owned(),
            JbError::SettingsError(_) => "global settings error".to_owned(),
            JbError::AudioFileError(_) => "audio file read error".to_owned(),
            JbError::SettingsParsingError(_) => "figment error".to_owned(),
            JbError::AudioTagError(_) => "lofty error".to_owned(),
            JbError::AudioDeviceError(_) => "audio device error".to_owned(),
        }
    }

    /// The text of the failure that caused the error.
    pub fn detail(&self) -> (text: &str)
        ensures
            text@ == self.spec_detail(),
    {
        match self {
            JbError::IoError(detail) => detail.as_str(),
            JbError::SettingsError(detail) => detail.as_str(),
            JbError::AudioFileError(detail) => detail.as_str(),
            JbError::SettingsParsingError(detail) => detail.as_str(),
            JbError::AudioTagError(detail) => detail.as_str(),
            JbError::AudioDeviceError(detail) => detail.as_str(),
        }
    }
}

} // verus!
