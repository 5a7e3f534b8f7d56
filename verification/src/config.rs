use vstd::prelude::*;

verus! {

/// Persisted user settings. The single recognized option is a preview
/// preference; its absence means "no persisted preference".
#[derive(Clone, Copy, Debug)]
pub struct AppSettings {
    pub show_preview: Option<bool>,
}

/// Why the persisted settings could not be read. Recoverable: the session
/// treats any of these as an absent preference, never as a crash.
#[derive(Clone, Copy, Debug, PartialEq, Eq, Structural)]
pub enum ReadD30CliConfigError {
    CouldNotGetXDGPath,
    CouldNotPlaceConfigFile,
    CouldNotReadFile,
    CouldNotParse,
}

/// Why the device directory could not be loaded. Recoverable: resolution
/// goes on without a directory, with fewer options.
#[derive(Clone, Copy, Debug, PartialEq, Eq, Structural)]
pub enum DirectoryLoadError {
    CouldNotGetXDGPath,
    CouldNotPlaceConfigFile,
    CouldNotReadFile,
    CouldNotParse,
    NoDefaultDevice,
}

/// The preview preference the settings carry; none when they could not be
/// read at all.
pub open spec fn persisted_preference(
    settings: Result<AppSettings, ReadD30CliConfigError>,
) -> Option<bool> {
    match settings {
        Ok(s) => s.show_preview,
        Err(_) => None,
    }
}

} // verus!
