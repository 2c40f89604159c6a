//! The kinds of asset the shell can ask for.

use vstd::prelude::*;

verus! {

/// What kind of asset a request names.
#[derive(Clone, Copy, Debug, PartialEq, Eq, Structural)]
pub enum AssetCategory {
    /// A sound, handed back as the file's own bytes.
    Audio,
    /// A model, stored as an `.fbx` entry inside a zip archive.
    Models,
}

impl AssetCategory {
    /// The directory that holds the assets of this category.
    pub open spec fn dir_text(self) -> Seq<char> {
        match self {
            AssetCategory::Audio => "audio"@,
            AssetCategory::Models => "models"@,
        }
    }

    /// The directory of this category below the project root of a development build.
    pub open spec fn dev_subdir_text(self) -> Seq<char> {
        match self {
            AssetCategory::Audio => "resources/audio"@,
            AssetCategory::Models => "resources/models"@,
        }
    }

    /// How a message calls an asset of this category.
    pub open spec fn noun_text(self) -> Seq<char> {
        match self {
            AssetCategory::Audio => "audio file"@,
            AssetCategory::Models => "model zip"@,
        }
    }

    /// The directory that holds the assets of this category.
    pub fn dir(self) -> (out: &'static str)
        ensures
            out@ == self.dir_text(),
    {
        match self {
            AssetCategory::Audio => "audio",
            AssetCategory::Models => "models",
        }
    }

    /// The directory of this category below the project root of a development build.
    pub fn dev_subdir(self) -> (out: &'static str)
        ensures
            out@ == self.dev_subdir_text(),
    {
        match self {
            AssetCategory::Audio => "resources/audio",
            AssetCategory::Models => "resources/models",
        }
    }

    /// How a message calls an asset of this category.
    pub fn noun(self) -> (out: &'static str)
        ensures
            out@ == self.noun_text(),
    {
        match self {
            AssetCategory::Audio => "audio file",
            AssetCategory::Models => "model zip",
        }
    }
}

} // verus!
