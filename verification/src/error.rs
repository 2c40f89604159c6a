//! Why a request for an asset failed, and the sentence shown for it.

use crate::candidates::Origin;
use crate::category::AssetCategory;
use crate::text::{decimal, decimal_text};
use vstd::prelude::*;
use vstd::string::*;

verus! {

/// Why a request for an asset failed.
///
/// A `location` is the path of the file concerned, already written the way it
/// is to appear in the message; a `detail` is what the failing layer reported.
#[derive(Debug, PartialEq, Eq)]
pub enum LoadError {
    /// The file exists but could not be opened or read.
    OpenFailed { category: AssetCategory, origin: Origin, location: String, detail: String },
    /// The file is not a zip archive that can be listed.
    ArchiveUnreadable { location: String, detail: String },
    /// The archive entry at `index` could not be opened.
    EntryUnreadable { index: usize, location: String, detail: String },
    /// The chosen `.fbx` entry could not be decompressed.
    FbxUnreadable { name: String, location: String, detail: String },
    /// No entry of the archive has a name that ends in `.fbx`.
    NoFbxEntry { location: String },
    /// None of the candidate locations holds the asset.
    NotFound { category: AssetCategory, name: String },
}

/// A [`LoadError`] with its texts as character sequences.
pub enum LoadErrorView {
    OpenFailed { category: AssetCategory, origin: Origin, location: Seq<char>, detail: Seq<char> },
    ArchiveUnreadable { location: Seq<char>, detail: Seq<char> },
    EntryUnreadable { index: nat, location: Seq<char>, detail: Seq<char> },
    FbxUnreadable { name: Seq<char>, location: Seq<char>, detail: Seq<char> },
    NoFbxEntry { location: Seq<char> },
    NotFound { category: AssetCategory, name: Seq<char> },
}

impl View for LoadError {
    type V = LoadErrorView;

    open spec fn view(&self) -> LoadErrorView {
        match self {
            LoadError::OpenFailed { category, origin, location, detail } => {
                LoadErrorView::OpenFailed {
                    category: *category,
                    origin: *origin,
                    location: location@,
                    detail: detail@,
                }
            },
            LoadError::ArchiveUnreadable { location, detail } => {
                LoadErrorView::ArchiveUnreadable { location: location@, detail: detail@ }
            },
            LoadError::EntryUnreadable { index, location, detail } => {
                LoadErrorView::EntryUnreadable {
                    index: *index as nat,
                    location: location@,
                    detail: detail@,
                }
            },
            LoadError::FbxUnreadable { name, location, detail } => {
                LoadErrorView::FbxUnreadable { name: name@, location: location@, detail: detail@ }
            },
            LoadError::NoFbxEntry { location } => LoadErrorView::NoFbxEntry { location: location@ },
            LoadError::NotFound { category, name } => {
                LoadErrorView::NotFound { category: *category, name: name@ }
            },
        }
    }
}

/// What a request gives, with its bytes and texts as sequences.
pub open spec fn result_view(result: Result<Vec<u8>, LoadError>) -> Result<Seq<u8>, LoadErrorView> {
    match result {
        Ok(bytes) => Ok(bytes@),
        Err(error) => Err(error@),
    }
}

/// How the sentence for a file that could not be opened begins.
pub open spec fn open_failed_lead(category: AssetCategory, origin: Origin) -> Seq<char> {
    match (category, origin) {
        (AssetCategory::Models, _) => "Failed to open zip file "@,
        (AssetCategory::Audio, Origin::DevTree) => "Failed to read file from dev path "@,
        (AssetCategory::Audio, Origin::Packaged) => "Failed to read file at "@,
    }
}

impl LoadErrorView {
    /// The sentence shown for this failure.
    pub open spec fn message(self) -> Seq<char> {
        match self {
            LoadErrorView::OpenFailed { category, origin, location, detail } => {
                open_failed_lead(category, origin) + location + ": "@ + detail
            },
            LoadErrorView::ArchiveUnreadable { location, detail } => {
                "Failed to read zip archive "@ + location + ": "@ + detail
            },
            LoadErrorView::EntryUnreadable { index, location, detail } => {
                "Failed to read zip entry "@ + decimal_text(index) + " in "@ + location + ": "@
                    + detail
            },
            LoadErrorView::FbxUnreadable { name, location, detail } => {
                "Failed to read FBX entry "@ + name + " in "@ + location + ": "@ + detail
            },
            LoadErrorView::NoFbxEntry { location } => "No .fbx entry found in zip "@ + location,
            LoadErrorView::NotFound { category, name } => {
                "Could not find "@ + category.noun_text() + " "@ + name + " in resources"@
            },
        }
    }
}

/// How the sentence for a file that could not be opened begins.
fn open_failed_lead_str(category: AssetCategory, origin: Origin) -> (out: &'static str)
    ensures
        out@ == open_failed_lead(category, origin),
{
    match category {
        AssetCategory::Models => "Failed to open zip file ",
        AssetCategory::Audio => match origin {
            Origin::DevTree => "Failed to read file from dev path ",
            Origin::Packaged => "Failed to read file at ",
        },
    }
}

impl LoadError {
    /// The sentence shown for this failure.
    pub fn message(&self) -> (out: String)
        ensures
            out@ == self@.message(),
    {
        match self {
            LoadError::OpenFailed { category, origin, location, detail } => {
                let mut out = String::from_str(open_failed_lead_str(*category, *origin));
                out.append(location.as_str());
                out.append(": ");
                out.append(detail.as_str());
                out
            },
            LoadError::ArchiveUnreadable { location, detail } => {
                let mut out = String::from_str("Failed to read zip archive ");
                out.append(location.as_str());
                out.append(": ");
                out.append(detail.as_str());
                out
            },
            LoadError::EntryUnreadable { index, location, detail } => {
                let mut out = String::from_str("Failed to read zip entry ");
                let number = decimal(*index);
                out.append(number.as_str());
                out.append(" in ");
                out.append(location.as_str());
                out.append(": ");
                out.append(detail.as_str());
                out
            },
            LoadError::FbxUnreadable { name, location, detail } => {
                let mut out = String::from_str("Failed to read FBX entry ");
                out.append(name.as_str());
                out.append(" in ");
                out.append(location.as_str());
                out.append(": ");
                out.append(detail.as_str());
                out
            },
            LoadError::NoFbxEntry { location } => {
                let mut out = String::from_str("No .fbx entry found in zip ");
                out.append(location.as_str());
                out
            },
            LoadError::NotFound { category, name } => {
                let mut out = String::from_str("Could not find ");
                out.append(category.noun());
                out.append(" ");
                out.append(name.as_str());
                out.append(" in resources");
                out
            },
        }
    }
}

} // verus!
