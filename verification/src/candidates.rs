//! The places where an asset is looked for, in the order in which they are tried.

use crate::category::AssetCategory;
use vstd::prelude::*;
use vstd::string::*;

verus! {

/// How many packaged locations are tried for one asset.
pub const PACKAGED_CANDIDATES: usize = 4;

/// Where a location lies.
#[derive(Clone, Copy, Debug, PartialEq, Eq, Structural)]
pub enum Origin {
    /// In the project's source tree, which only a development build searches.
    DevTree,
    /// Under the directory that holds the packaged resources.
    Packaged,
}

/// A place to look at.
#[derive(Debug, PartialEq, Eq)]
pub enum Location {
    /// The file `name` in the directory `subdir` of the project root. The
    /// three are joined as paths are, not as texts.
    DevTree { subdir: String, name: String },
    /// The path `relative`, resolved against the directory of the packaged resources.
    Packaged { relative: String },
}

/// A [`Location`] with its texts as character sequences.
pub enum LocationView {
    DevTree { subdir: Seq<char>, name: Seq<char> },
    Packaged { relative: Seq<char> },
}

impl View for Location {
    type V = LocationView;

    open spec fn view(&self) -> LocationView {
        match self {
            Location::DevTree { subdir, name } => LocationView::DevTree {
                subdir: subdir@,
                name: name@,
            },
            Location::Packaged { relative } => LocationView::Packaged { relative: relative@ },
        }
    }
}

impl LocationView {
    /// Where this location lies.
    pub open spec fn origin(self) -> Origin {
        match self {
            LocationView::DevTree { .. } => Origin::DevTree,
            LocationView::Packaged { .. } => Origin::Packaged,
        }
    }
}

impl Location {
    /// Where this location lies.
    pub fn origin(&self) -> (out: Origin)
        ensures
            out == self@.origin(),
    {
        match self {
            Location::DevTree { .. } => Origin::DevTree,
            Location::Packaged { .. } => Origin::Packaged,
        }
    }
}

/// The relative paths tried below the packaged resources for the asset `name`
/// of `category`, the one tried first at position 0.
pub open spec fn candidate_texts(category: AssetCategory, name: Seq<char>) -> Seq<Seq<char>> {
    seq![
        "resources/"@ + category.dir_text() + "/"@ + name,
        "resources/"@ + name,
        category.dir_text() + "/"@ + name,
        name,
    ]
}

/// How many locations a search tries before it gives up.
pub open spec fn plan_len(dev_build: bool) -> nat {
    if dev_build {
        (PACKAGED_CANDIDATES + 1) as nat
    } else {
        PACKAGED_CANDIDATES as nat
    }
}

/// The location tried at position `rank` of a search. A development build
/// looks into the project tree first; every build then tries the packaged
/// candidates in their order.
pub open spec fn plan_at(
    category: AssetCategory,
    name: Seq<char>,
    dev_build: bool,
    rank: int,
) -> LocationView {
    if dev_build && rank == 0 {
        LocationView::DevTree { subdir: category.dev_subdir_text(), name }
    } else if dev_build {
        LocationView::Packaged { relative: candidate_texts(category, name)[rank - 1] }
    } else {
        LocationView::Packaged { relative: candidate_texts(category, name)[rank] }
    }
}

/// The packaged candidate at position `rank`.
fn packaged_candidate(category: AssetCategory, name: &str, rank: usize) -> (out: String)
    requires
        rank < PACKAGED_CANDIDATES,
    ensures
        out@ == candidate_texts(category, name@)[rank as int],
{
    if rank == 0 {
        let mut out = String::from_str("resources/");
        out.append(category.dir());
        out.append("/");
        out.append(name);
        out
    } else if rank == 1 {
        let mut out = String::from_str("resources/");
        out.append(name);
        out
    } else if rank == 2 {
        let mut out = String::from_str(category.dir());
        out.append("/");
        out.append(name);
        out
    } else {
        String::from_str(name)
    }
}

/// The relative paths tried below the packaged resources for the asset `name`
/// of `category`, the one tried first at position 0.
pub fn candidate_paths(category: AssetCategory, name: &str) -> (out: Vec<String>)
    ensures
        out.deep_view() == candidate_texts(category, name@),
{
    let mut out: Vec<String> = Vec::new();
    let mut rank: usize = 0;
    while rank < PACKAGED_CANDIDATES
        invariant
            rank <= PACKAGED_CANDIDATES,
            out.len() == rank,
            forall|i: int| 0 <= i < rank ==> out[i]@ == candidate_texts(category, name@)[i],
        decreases PACKAGED_CANDIDATES - rank,
    {
        out.push(packaged_candidate(category, name, rank));
        rank += 1;
    }
    out
}

} // verus!
