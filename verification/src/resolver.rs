//! The search for one asset, as a machine that asks for one location at a
//! time. The caller looks at the location and reports what it found; the
//! machine says where to look next, or what the request gives.

use crate::archive::{extraction, read_zip_entry};
use crate::candidates::{
    candidate_paths, candidate_texts, plan_at, plan_len, Location, LocationView, Origin,
    PACKAGED_CANDIDATES,
};
use crate::category::AssetCategory;
use crate::error::{result_view, LoadError, LoadErrorView};
use crate::text::{lemma_occurs_in_middle, occurs_in};
use crate::zip_reader::zip_listing;
use vstd::prelude::*;
use vstd::string::*;

verus! {

/// What the caller found at a location.
#[derive(Debug, PartialEq, Eq)]
pub enum Finding {
    /// No file is there, or the location could not be resolved.
    Missing,
    /// A file is there. `location` is its path as messages are to show it;
    /// `content` is the whole file, or the report of why it could not be read.
    Present { location: String, content: Result<Vec<u8>, String> },
}

/// A [`Finding`] with its bytes and texts as sequences.
pub enum FindingView {
    Missing,
    Present { location: Seq<char>, content: Result<Seq<u8>, Seq<char>> },
}

impl View for Finding {
    type V = FindingView;

    open spec fn view(&self) -> FindingView {
        match self {
            Finding::Missing => FindingView::Missing,
            Finding::Present { location, content } => FindingView::Present {
                location: location@,
                content: match content {
                    Ok(bytes) => Ok(bytes@),
                    Err(why) => Err(why@),
                },
            },
        }
    }
}

/// A search that waits for the finding at one location of its plan.
#[derive(Debug)]
pub struct Search {
    category: AssetCategory,
    name: String,
    dev_build: bool,
    /// The packaged candidates of the asset, made when the search began.
    candidates: Vec<String>,
    /// The position in the plan of the location that is being looked at.
    rank: usize,
}

/// A [`Search`] as contracts see it.
pub struct SearchView {
    pub category: AssetCategory,
    pub name: Seq<char>,
    pub dev_build: bool,
    /// The position in the plan of the location that is being looked at.
    pub rank: nat,
}

impl View for Search {
    type V = SearchView;

    closed spec fn view(&self) -> SearchView {
        SearchView {
            category: self.category,
            name: self.name@,
            dev_build: self.dev_build,
            rank: self.rank as nat,
        }
    }
}

impl SearchView {
    /// The location that the search is looking at.
    pub open spec fn location(self) -> LocationView {
        plan_at(self.category, self.name, self.dev_build, self.rank as int)
    }

    /// Whether the search looks at a location of its plan.
    pub open spec fn in_plan(self) -> bool {
        self.rank < plan_len(self.dev_build)
    }
}

/// What the machine says next.
#[derive(Debug)]
pub enum Step {
    /// Look at `location`, then hand `search` and the finding to [`advance`].
    Probe { search: Search, location: Location },
    /// The request is settled.
    Done(Result<Vec<u8>, LoadError>),
}

/// A [`Step`] as contracts see it.
pub enum StepView {
    Probe { search: SearchView, location: LocationView },
    Done(Result<Seq<u8>, LoadErrorView>),
}

impl View for Step {
    type V = StepView;

    open spec fn view(&self) -> StepView {
        match self {
            Step::Probe { search, location } => StepView::Probe {
                search: search@,
                location: location@,
            },
            Step::Done(result) => StepView::Done(result_view(*result)),
        }
    }
}

/// What a request gives once a file was found at a location of `origin`.
/// A sound is the file's own bytes; a model is the first `.fbx` entry of the
/// file taken as a zip archive.
pub open spec fn settle(
    category: AssetCategory,
    origin: Origin,
    location: Seq<char>,
    content: Result<Seq<u8>, Seq<char>>,
) -> Result<Seq<u8>, LoadErrorView> {
    match content {
        Err(why) => Err(LoadErrorView::OpenFailed { category, origin, location, detail: why }),
        Ok(bytes) => match category {
            AssetCategory::Audio => Ok(bytes),
            AssetCategory::Models => extraction(zip_listing(bytes), location),
        },
    }
}

/// The step of a search that has come to position `rank` of its plan: probe
/// the location there, or give up when the plan is exhausted.
pub open spec fn step_at(category: AssetCategory, name: Seq<char>, dev_build: bool, rank: nat) -> StepView {
    let search = SearchView { category, name, dev_build, rank };
    if search.in_plan() {
        StepView::Probe { search, location: search.location() }
    } else {
        StepView::Done(Err(LoadErrorView::NotFound { category, name }))
    }
}

/// The first step of the search for the asset `name` of `category`.
pub open spec fn first_step(category: AssetCategory, name: Seq<char>, dev_build: bool) -> StepView {
    step_at(category, name, dev_build, 0)
}

/// The step that follows when `search` learns of `finding`.
pub open spec fn next_step(search: SearchView, finding: FindingView) -> StepView {
    match finding {
        FindingView::Missing => step_at(
            search.category,
            search.name,
            search.dev_build,
            search.rank + 1,
        ),
        FindingView::Present { location, content } => StepView::Done(
            settle(search.category, search.location().origin(), location, content),
        ),
    }
}

impl Search {
    #[verifier::type_invariant]
    spec fn well_formed(&self) -> bool {
        &&& self.rank < plan_len(self.dev_build)
        &&& holds_candidates(self.candidates, self.category, self.name@)
    }
}

/// Whether `candidates` holds the packaged candidates of the asset, in order.
spec fn holds_candidates(candidates: Vec<String>, category: AssetCategory, name: Seq<char>) -> bool {
    &&& candidates.len() == PACKAGED_CANDIDATES
    &&& forall|i: int|
        0 <= i < PACKAGED_CANDIDATES ==> (#[trigger] candidates[i])@ == candidate_texts(
            category,
            name,
        )[i]
}

/// The step of a search that has come to position `rank` of its plan.
fn make_step(
    category: AssetCategory,
    name: String,
    dev_build: bool,
    candidates: Vec<String>,
    rank: usize,
) -> (out: Step)
    requires
        holds_candidates(candidates, category, name@),
    ensures
        out@ == step_at(category, name@, dev_build, rank as nat),
{
    let skipped: usize = if dev_build {
        1
    } else {
        0
    };
    if rank >= PACKAGED_CANDIDATES + skipped {
        Step::Done(Err(LoadError::NotFound { category, name }))
    } else {
        let location = if rank < skipped {
            Location::DevTree {
                subdir: String::from_str(category.dev_subdir()),
                name: name.clone(),
            }
        } else {
            Location::Packaged { relative: candidates[rank - skipped].clone() }
        };
        Step::Probe { search: Search { category, name, dev_build, candidates, rank }, location }
    }
}

/// Starts the search for the asset `name` of `category`: lists its packaged
/// candidates and asks for the first location. A development build looks into
/// the project tree before the packaged resources.
pub fn begin(category: AssetCategory, name: &str, dev_build: bool) -> (out: Step)
    ensures
        out@ == first_step(category, name@, dev_build),
{
    let candidates = candidate_paths(category, name);
    assert(holds_candidates(candidates, category, name@)) by {
        assert(candidates.deep_view().len() == candidates@.len());
        assert forall|i: int| 0 <= i < PACKAGED_CANDIDATES implies (#[trigger] candidates[i])@
            == candidate_texts(category, name@)[i] by {
            assert(candidates.deep_view()[i] == candidates@[i]@);
        }
    }
    make_step(category, String::from_str(name), dev_build, candidates, 0)
}

/// Takes the finding at the location that `search` asked for. A file that is
/// there settles the request, whatever lies at the later locations; a missing
/// one sends the search to the next location, or ends it when none is left.
pub fn advance(search: Search, finding: Finding) -> (out: Step)
    ensures
        out@ == next_step(search@, finding@),
{
    proof {
        use_type_invariant(&search);
    }
    let Search { category, name, dev_build, candidates, rank } = search;
    match finding {
        Finding::Missing => make_step(category, name, dev_build, candidates, rank + 1),
        Finding::Present { location, content } => {
            let origin = if dev_build && rank == 0 {
                Origin::DevTree
            } else {
                Origin::Packaged
            };
            let result = match content {
                Err(why) => Err(LoadError::OpenFailed { category, origin, location, detail: why }),
                Ok(bytes) => match category {
                    AssetCategory::Audio => Ok(bytes),
                    AssetCategory::Models => read_zip_entry(bytes, location.as_str()),
                },
            };
            Step::Done(result)
        },
    }
}

/// How many findings `step` may still ask for.
pub open spec fn probes_left(step: StepView) -> nat {
    match step {
        StepView::Probe { search, .. } => if search.in_plan() {
            (plan_len(search.dev_build) - search.rank) as nat
        } else {
            0
        },
        StepView::Done(_) => 0,
    }
}

/// What the request gives when every probe from `step` on is answered by
/// `world`, which says what lies at each location.
pub open spec fn run(world: spec_fn(LocationView) -> FindingView, step: StepView) -> Result<
    Seq<u8>,
    LoadErrorView,
>
    decreases probes_left(step),
{
    match step {
        StepView::Done(result) => result,
        StepView::Probe { search, location } => if search.in_plan() {
            run(world, next_step(search, world(location)))
        } else {
            Err(LoadErrorView::NotFound { category: search.category, name: search.name })
        },
    }
}

/// What a request for the asset `name` of `category` gives in `world`.
pub open spec fn resolve(
    world: spec_fn(LocationView) -> FindingView,
    category: AssetCategory,
    name: Seq<char>,
    dev_build: bool,
) -> Result<Seq<u8>, LoadErrorView> {
    run(world, first_step(category, name, dev_build))
}

/// The first position at or after `from` in the plan at which `world` has a
/// file, or the length of the plan if it has none there.
pub open spec fn first_present_from(
    world: spec_fn(LocationView) -> FindingView,
    category: AssetCategory,
    name: Seq<char>,
    dev_build: bool,
    from: int,
) -> int
    decreases plan_len(dev_build) - from,
{
    if from < 0 || from >= plan_len(dev_build) {
        plan_len(dev_build) as int
    } else if world(plan_at(category, name, dev_build, from)) is Present {
        from
    } else {
        first_present_from(world, category, name, dev_build, from + 1)
    }
}

/// What the file at position `rank` of the plan gives, if `world` has it.
pub open spec fn settle_at(
    world: spec_fn(LocationView) -> FindingView,
    category: AssetCategory,
    name: Seq<char>,
    dev_build: bool,
    rank: int,
) -> Result<Seq<u8>, LoadErrorView> {
    let location = plan_at(category, name, dev_build, rank);
    match world(location) {
        FindingView::Present { location: shown, content } => settle(
            category,
            location.origin(),
            shown,
            content,
        ),
        FindingView::Missing => Err(LoadErrorView::NotFound { category, name }),
    }
}

/// A search that has come to position `rank` gives what the first file at or
/// after that position gives, and fails when there is none.
pub proof fn lemma_run_takes_first_present(
    world: spec_fn(LocationView) -> FindingView,
    category: AssetCategory,
    name: Seq<char>,
    dev_build: bool,
    rank: nat,
)
    ensures
        ({
            let first = first_present_from(world, category, name, dev_build, rank as int);
            run(world, step_at(category, name, dev_build, rank)) == if first < plan_len(
                dev_build,
            ) {
                settle_at(world, category, name, dev_build, first)
            } else {
                Err(LoadErrorView::NotFound { category, name })
            }
        }),
    decreases plan_len(dev_build) - rank,
{
    reveal_with_fuel(run, 2);
    if rank < plan_len(dev_build) {
        let search = SearchView { category, name, dev_build, rank };
        if world(search.location()) is Missing {
            lemma_run_takes_first_present(world, category, name, dev_build, rank + 1);
        }
    }
}

/// No position ahead of the first file has a file, and the first file is one.
pub proof fn lemma_first_present(
    world: spec_fn(LocationView) -> FindingView,
    category: AssetCategory,
    name: Seq<char>,
    dev_build: bool,
    from: int,
)
    requires
        0 <= from,
    ensures
        ({
            let first = first_present_from(world, category, name, dev_build, from);
            &&& from <= first || first == plan_len(dev_build)
            &&& first <= plan_len(dev_build)
            &&& first < plan_len(dev_build) ==> world(
                plan_at(category, name, dev_build, first),
            ) is Present
            &&& forall|j: int|
                from <= j < first ==> world(
                    #[trigger] plan_at(category, name, dev_build, j),
                ) is Missing
        }),
    decreases plan_len(dev_build) - from,
{
    if from < plan_len(dev_build) && world(plan_at(category, name, dev_build, from)) is Missing {
        lemma_first_present(world, category, name, dev_build, from + 1);
    }
}

/// A request gives what the first file of the plan gives: the files at later
/// positions play no part. Without any file it fails as not found.
pub proof fn lemma_resolve_takes_first_present(
    world: spec_fn(LocationView) -> FindingView,
    category: AssetCategory,
    name: Seq<char>,
    dev_build: bool,
    rank: int,
)
    requires
        0 <= rank <= plan_len(dev_build),
        forall|j: int|
            0 <= j < rank ==> world(#[trigger] plan_at(category, name, dev_build, j)) is Missing,
        rank < plan_len(dev_build) ==> world(plan_at(category, name, dev_build, rank)) is Present,
    ensures
        resolve(world, category, name, dev_build) == if rank < plan_len(dev_build) {
            settle_at(world, category, name, dev_build, rank)
        } else {
            Err(LoadErrorView::NotFound { category, name })
        },
{
    lemma_run_takes_first_present(world, category, name, dev_build, 0);
    lemma_first_present(world, category, name, dev_build, 0);
    let first = first_present_from(world, category, name, dev_build, 0);
    if first < rank {
        assert(world(plan_at(category, name, dev_build, first)) is Missing);
    }
    if rank < first {
        assert(world(plan_at(category, name, dev_build, rank)) is Missing);
    }
}

/// A request for a sound gives exactly the bytes of the file that it finds:
/// the first file of the plan, when that file can be read.
pub proof fn lemma_audio_gives_file_bytes(
    world: spec_fn(LocationView) -> FindingView,
    name: Seq<char>,
    dev_build: bool,
    rank: int,
    shown: Seq<char>,
    bytes: Seq<u8>,
)
    requires
        0 <= rank < plan_len(dev_build),
        forall|j: int|
            0 <= j < rank ==> world(
                #[trigger] plan_at(AssetCategory::Audio, name, dev_build, j),
            ) is Missing,
        world(plan_at(AssetCategory::Audio, name, dev_build, rank)) == (FindingView::Present {
            location: shown,
            content: Ok(bytes),
        }),
    ensures
        resolve(world, AssetCategory::Audio, name, dev_build) == Ok::<Seq<u8>, LoadErrorView>(
            bytes,
        ),
{
    lemma_resolve_takes_first_present(world, AssetCategory::Audio, name, dev_build, rank);
}

/// Bytes that a request for a sound gives are the content of a file at a
/// location of the plan, and no location ahead of that one holds a file.
pub proof fn lemma_audio_bytes_are_a_candidate(
    world: spec_fn(LocationView) -> FindingView,
    name: Seq<char>,
    dev_build: bool,
    bytes: Seq<u8>,
)
    requires
        resolve(world, AssetCategory::Audio, name, dev_build) == Ok::<Seq<u8>, LoadErrorView>(
            bytes,
        ),
    ensures
        ({
            let first = first_present_from(world, AssetCategory::Audio, name, dev_build, 0);
            let found = world(plan_at(AssetCategory::Audio, name, dev_build, first));
            &&& 0 <= first < plan_len(dev_build)
            &&& found is Present
            &&& found->content == Ok::<Seq<u8>, Seq<char>>(bytes)
            &&& forall|j: int|
                0 <= j < first ==> world(
                    #[trigger] plan_at(AssetCategory::Audio, name, dev_build, j),
                ) is Missing
        }),
{
    lemma_run_takes_first_present(world, AssetCategory::Audio, name, dev_build, 0);
    lemma_first_present(world, AssetCategory::Audio, name, dev_build, 0);
}

/// A request for a model gives what extracting the first `.fbx` entry of the
/// file that it finds gives: the first file of the plan, when it can be read.
pub proof fn lemma_model_gives_extraction(
    world: spec_fn(LocationView) -> FindingView,
    name: Seq<char>,
    dev_build: bool,
    rank: int,
    shown: Seq<char>,
    bytes: Seq<u8>,
)
    requires
        0 <= rank < plan_len(dev_build),
        forall|j: int|
            0 <= j < rank ==> world(
                #[trigger] plan_at(AssetCategory::Models, name, dev_build, j),
            ) is Missing,
        world(plan_at(AssetCategory::Models, name, dev_build, rank)) == (FindingView::Present {
            location: shown,
            content: Ok(bytes),
        }),
    ensures
        resolve(world, AssetCategory::Models, name, dev_build) == extraction(
            zip_listing(bytes),
            shown,
        ),
{
    lemma_resolve_takes_first_present(world, AssetCategory::Models, name, dev_build, rank);
}

/// A request for an asset that lies at no location of the plan fails as not
/// found, and the message holds the asset's name.
pub proof fn lemma_absent_asset_is_not_found(
    world: spec_fn(LocationView) -> FindingView,
    category: AssetCategory,
    name: Seq<char>,
    dev_build: bool,
)
    requires
        forall|j: int|
            0 <= j < plan_len(dev_build) ==> world(
                #[trigger] plan_at(category, name, dev_build, j),
            ) is Missing,
    ensures
        resolve(world, category, name, dev_build) == Err::<Seq<u8>, LoadErrorView>(
            LoadErrorView::NotFound { category, name },
        ),
        occurs_in(name, (LoadErrorView::NotFound { category, name }).message()),
{
    lemma_resolve_takes_first_present(
        world,
        category,
        name,
        dev_build,
        plan_len(dev_build) as int,
    );
    lemma_occurs_in_middle(
        "Could not find "@ + category.noun_text() + " "@,
        name,
        " in resources"@,
    );
}

/// Of the packaged candidates the first has priority: when both
/// `resources/<category>/<name>` and `resources/<name>` exist, the request
/// gives what the former gives, and the latter plays no part. (In a
/// development build this is so when the project tree does not hold the asset.)
pub proof fn lemma_first_packaged_candidate_wins(
    world: spec_fn(LocationView) -> FindingView,
    category: AssetCategory,
    name: Seq<char>,
    dev_build: bool,
)
    requires
        world(LocationView::Packaged { relative: candidate_texts(category, name)[0] }) is Present,
        world(LocationView::Packaged { relative: candidate_texts(category, name)[1] }) is Present,
        dev_build ==> world(
            LocationView::DevTree { subdir: category.dev_subdir_text(), name },
        ) is Missing,
    ensures
        ({
            let former = world(
                LocationView::Packaged { relative: candidate_texts(category, name)[0] },
            );
            resolve(world, category, name, dev_build) == settle(
                category,
                Origin::Packaged,
                former->location,
                former->content,
            )
        }),
{
    let rank: int = if dev_build {
        1
    } else {
        0
    };
    lemma_resolve_takes_first_present(world, category, name, dev_build, rank);
}

} // verus!
