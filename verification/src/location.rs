//! The rule that says where the store's file lies. The rule names the parts
//! of the path; looking up the starting directory and joining the parts is
//! left to the caller, who knows the machine.

use vstd::prelude::*;

verus! {

/// The name of the store's file.
pub const FILE_NAME: &'static str = "mhxy.db";

/// The name of the application's own folder.
pub const APP_FOLDER: &'static str = "mhxy";

/// The family of the operating system.
#[derive(Debug, Clone, Copy, PartialEq, Eq)]
pub enum Platform {
    Windows,
    MacOs,
    Other,
}

/// Where a path starts.
#[derive(Debug, Clone, Copy, PartialEq, Eq)]
pub enum Root {
    /// The directory above the working directory, or the working directory
    /// itself where nothing is above it.
    AboveWorkingDirectory,
    /// The roaming application data of the user: the value of `APPDATA`.
    ApplicationData,
    /// The home directory of the user: the value of `HOME`.
    Home,
}

/// The place of the store's file: where the path starts, the folders that
/// lead on from there, and the file's name.
#[derive(Debug, Clone, PartialEq, Eq)]
pub struct Location {
    pub root: Root,
    pub folders: Vec<&'static str>,
    pub file: &'static str,
}

/// The mathematical content of a [`Location`].
pub struct LocationView {
    pub root: Root,
    pub folders: Seq<Seq<char>>,
    pub file: Seq<char>,
}

impl View for Location {
    type V = LocationView;

    open spec fn view(&self) -> LocationView {
        LocationView {
            root: self.root,
            folders: Seq::new(self.folders@.len(), |i: int| self.folders@[i]@),
            file: self.file@,
        }
    }
}

/// The place of the store's file. In development it lies right above the
/// working directory; otherwise in the application's folder under the
/// directory that the platform keeps for a user's application data.
pub open spec fn location_of(development: bool, platform: Platform) -> LocationView {
    if development {
        LocationView {
            root: Root::AboveWorkingDirectory,
            folders: Seq::empty(),
            file: FILE_NAME@,
        }
    } else {
        match platform {
            Platform::Windows => LocationView {
                root: Root::ApplicationData,
                folders: seq![APP_FOLDER@],
                file: FILE_NAME@,
            },
            Platform::MacOs => LocationView {
                root: Root::Home,
                folders: seq!["Library"@, "Application Support"@, APP_FOLDER@],
                file: FILE_NAME@,
            },
            Platform::Other => LocationView {
                root: Root::Home,
                folders: seq![".local"@, "share"@, APP_FOLDER@],
                file: FILE_NAME@,
            },
        }
    }
}

/// Says where the store's file lies.
pub fn location(development: bool, platform: Platform) -> (l: Location)
    ensures
        l@ == location_of(development, platform),
{
    let l = if development {
        Location { root: Root::AboveWorkingDirectory, folders: Vec::new(), file: FILE_NAME }
    } else {
        match platform {
            Platform::Windows => Location {
                root: Root::ApplicationData,
                folders: vec![APP_FOLDER],
                file: FILE_NAME,
            },
            Platform::MacOs => Location {
                root: Root::Home,
                folders: vec!["Library", "Application Support", APP_FOLDER],
                file: FILE_NAME,
            },
            Platform::Other => Location {
                root: Root::Home,
                folders: vec![".local", "share", APP_FOLDER],
                file: FILE_NAME,
            },
        }
    };
    assert(l@.folders =~= location_of(development, platform).folders);
    l
}

} // verus!
