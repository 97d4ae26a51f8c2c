//! The directory resolver: the walk from the file being compiled up to the
//! nearest directory that holds the repository's metadata directory.
//!
//! The crate decides which directory to test next and when to stop; the
//! caller looks at the file system and reports what it saw.

use vstd::prelude::*;

verus! {

/// The name of the metadata directory that marks a repository root.
pub const METADATA_DIRECTORY: &'static str = ".git";

/// What the caller saw when it looked for the metadata directory in one
/// directory.
#[derive(Clone, Debug, PartialEq, Eq)]
pub enum Probe {
    /// The directory holds the metadata directory.
    Present,
    /// It does not.
    Absent,
    /// The file system could not be read; the reason, in words.
    Unreadable(String),
}

/// Why no repository root was found.
#[derive(Clone, Debug, PartialEq, Eq)]
pub enum DirectoryError {
    /// No ancestor holds the metadata directory: not a repository.
    NotFound,
    /// The file system could not be read; the reason, in words.
    Unreadable(String),
}

/// Where the walk stands.
#[derive(Clone, Debug, PartialEq, Eq)]
pub enum Walk {
    /// This directory is to be tested next.
    Test(String),
    /// This directory is the repository root.
    Found(String),
    /// The walk ended without a root.
    Failed(DirectoryError),
}

/// The mathematical content of a [`Probe`].
pub enum ProbeView {
    Present,
    Absent,
    Unreadable(Seq<char>),
}

/// The mathematical content of a [`DirectoryError`].
pub enum DirectoryErrorView {
    NotFound,
    Unreadable(Seq<char>),
}

/// The mathematical content of a [`Walk`].
pub enum WalkView {
    Test(Seq<char>),
    Found(Seq<char>),
    Failed(DirectoryErrorView),
}

impl View for Probe {
    type V = ProbeView;

    open spec fn view(&self) -> ProbeView {
        match self {
            Probe::Present => ProbeView::Present,
            Probe::Absent => ProbeView::Absent,
            Probe::Unreadable(reason) => ProbeView::Unreadable(reason@),
        }
    }
}

impl View for DirectoryError {
    type V = DirectoryErrorView;

    open spec fn view(&self) -> DirectoryErrorView {
        match self {
            DirectoryError::NotFound => DirectoryErrorView::NotFound,
            DirectoryError::Unreadable(reason) => DirectoryErrorView::Unreadable(reason@),
        }
    }
}

impl View for Walk {
    type V = WalkView;

    open spec fn view(&self) -> WalkView {
        match self {
            Walk::Test(directory) => WalkView::Test(directory@),
            Walk::Found(directory) => WalkView::Found(directory@),
            Walk::Failed(error) => WalkView::Failed(error@),
        }
    }
}

impl DirectoryErrorView {
    /// The reason in words, for a diagnostic.
    pub open spec fn message(self) -> Seq<char> {
        match self {
            DirectoryErrorView::NotFound => "no ancestor directory holds `.git`"@,
            DirectoryErrorView::Unreadable(reason) => reason,
        }
    }
}

impl DirectoryError {
    /// The reason in words, for a diagnostic.
    pub fn message(&self) -> (text: String)
        ensures
            text@ == self@.message(),
    {
        match self {
            DirectoryError::NotFound => "no ancestor directory holds `.git`".to_owned(),
            DirectoryError::Unreadable(reason) => reason.clone(),
        }
    }
}

/// Whether `shorter` is the beginning of `path` and not all of it.
pub open spec fn is_proper_prefix(shorter: Seq<char>, path: Seq<char>) -> bool {
    shorter.len() < path.len() && shorter == path.subrange(0, shorter.len() as int)
}

/// The walk's next stand when `parent` is the next directory up, if there
/// is one.
pub open spec fn spec_ascend(parent: Option<Seq<char>>) -> WalkView {
    match parent {
        Some(directory) => WalkView::Test(directory),
        None => WalkView::Failed(DirectoryErrorView::NotFound),
    }
}

/// The walk's next stand after `directory` was tested with the result
/// `probe`, when `parent` is the next directory up. The first directory
/// that holds the metadata directory wins; an unreadable one ends the walk
/// with that error; past the last ancestor nothing is found.
pub open spec fn spec_decide(directory: Seq<char>, probe: ProbeView, parent: Option<Seq<char>>) -> WalkView {
    match probe {
        ProbeView::Present => WalkView::Found(directory),
        ProbeView::Unreadable(reason) => WalkView::Failed(DirectoryErrorView::Unreadable(reason)),
        ProbeView::Absent => spec_ascend(parent),
    }
}

/// The directory above the first of `chain`, which lists directories from
/// the nearest upwards.
pub open spec fn spec_parent_in(chain: Seq<Seq<char>>) -> Option<Seq<char>> {
    if chain.len() > 1 {
        Some(chain[1])
    } else {
        None
    }
}

/// Whether each directory of `chain` but the last has the next one as its
/// parent, and the last has none.
pub open spec fn is_linked(chain: Seq<Seq<char>>) -> bool {
    forall|i: int|
        0 <= i < chain.len() ==> path_parent(#[trigger] chain[i]) == spec_parent_in(
            chain.subrange(i, chain.len() as int),
        )
}

/// Whether `chain` lists the directories from that of `file` upwards: the
/// first is the parent of `file`, each other one the parent of the one
/// before it, and the last has no parent.
pub open spec fn is_ancestor_chain(file: Seq<char>, chain: Seq<Seq<char>>) -> bool {
    &&& path_parent(file) == (if chain.len() == 0 {
        None
    } else {
        Some(chain[0])
    })
    &&& is_linked(chain)
}

/// Where the walk stands after it went on from `walk` with what was seen
/// in each directory that it asked to test, as [`advance`] goes on.
pub open spec fn spec_follow(walk: WalkView, probes: Seq<ProbeView>) -> WalkView
    decreases probes.len(),
{
    match walk {
        WalkView::Test(directory) => if probes.len() == 0 {
            walk
        } else {
            spec_follow(
                spec_decide(directory, probes[0], path_parent(directory)),
                probes.drop_first(),
            )
        },
        _ => walk,
    }
}

/// Where a whole walk ends: `chain` lists the directories from that of the
/// file upwards, each the parent of the one before it and the last
/// without a parent; `probes` is what is seen in each.
pub open spec fn spec_walk(chain: Seq<Seq<char>>, probes: Seq<ProbeView>) -> WalkView
    decreases chain.len(),
{
    if chain.len() == 0 {
        spec_ascend(None)
    } else {
        match spec_decide(chain[0], probes[0], spec_parent_in(chain)) {
            WalkView::Test(_) => spec_walk(chain.drop_first(), probes.drop_first()),
            end => end,
        }
    }
}

/// The nearest root wins: the walk ends at the first directory that holds
/// the metadata directory, whatever lies above it.
pub proof fn lemma_nearest_root_wins(chain: Seq<Seq<char>>, probes: Seq<ProbeView>, i: int)
    requires
        chain.len() == probes.len(),
        0 <= i < chain.len(),
        probes[i] is Present,
        forall|j: int| 0 <= j < i ==> probes[j] is Absent,
    ensures
        spec_walk(chain, probes) == WalkView::Found(chain[i]),
    decreases chain.len(),
{
    if i > 0 {
        assert(probes[0] is Absent);
        assert(chain.drop_first()[i - 1] == chain[i]);
        assert(probes.drop_first()[i - 1] == probes[i]);
        assert forall|j: int| 0 <= j < i - 1 implies probes.drop_first()[j] is Absent by {
            assert(probes.drop_first()[j] == probes[j + 1]);
        }
        lemma_nearest_root_wins(chain.drop_first(), probes.drop_first(), i - 1);
    }
}

/// An unreadable directory ends the walk with its reason, where every
/// directory below it lacks the metadata directory.
pub proof fn lemma_unreadable_ends_the_walk(
    chain: Seq<Seq<char>>,
    probes: Seq<ProbeView>,
    i: int,
    reason: Seq<char>,
)
    requires
        chain.len() == probes.len(),
        0 <= i < chain.len(),
        probes[i] == ProbeView::Unreadable(reason),
        forall|j: int| 0 <= j < i ==> probes[j] is Absent,
    ensures
        spec_walk(chain, probes) == WalkView::Failed(DirectoryErrorView::Unreadable(reason)),
    decreases chain.len(),
{
    if i > 0 {
        assert(probes[0] is Absent);
        assert(probes.drop_first()[i - 1] == probes[i]);
        assert forall|j: int| 0 <= j < i - 1 implies probes.drop_first()[j] is Absent by {
            assert(probes.drop_first()[j] == probes[j + 1]);
        }
        lemma_unreadable_ends_the_walk(chain.drop_first(), probes.drop_first(), i - 1, reason);
    }
}

/// Outside any repository nothing is found: where no ancestor holds the
/// metadata directory, the walk ends with `NotFound`.
pub proof fn lemma_no_root_is_not_found(chain: Seq<Seq<char>>, probes: Seq<ProbeView>)
    requires
        chain.len() == probes.len(),
        forall|j: int| 0 <= j < chain.len() ==> probes[j] is Absent,
    ensures
        spec_walk(chain, probes) == WalkView::Failed(DirectoryErrorView::NotFound),
    decreases chain.len(),
{
    if chain.len() > 0 {
        assert(probes[0] is Absent);
        assert forall|j: int| 0 <= j < chain.len() - 1 implies probes.drop_first()[j] is Absent by {
            assert(probes.drop_first()[j] == probes[j + 1]);
        }
        lemma_no_root_is_not_found(chain.drop_first(), probes.drop_first());
    }
}

/// The parent of `path` by the platform's rules for paths, as
/// `std::path::Path::parent` gives it: the path without its final
/// component, or `None` where it has none.
pub uninterp spec fn path_parent(path: Seq<char>) -> Option<Seq<char>>;

/// Going on from the first directory of a chain is walking the chain.
proof fn lemma_follow_walks_chain(chain: Seq<Seq<char>>, probes: Seq<ProbeView>)
    requires
        chain.len() > 0,
        chain.len() == probes.len(),
        is_linked(chain),
    ensures
        spec_follow(WalkView::Test(chain[0]), probes) == spec_walk(chain, probes),
    decreases chain.len(),
{
    let rest = chain.drop_first();
    let seen = probes.drop_first();
    assert(chain.subrange(0, chain.len() as int) =~= chain);
    assert(path_parent(chain[0]) == spec_parent_in(chain));
    let next = spec_decide(chain[0], probes[0], path_parent(chain[0]));
    assert(spec_follow(WalkView::Test(chain[0]), probes) == spec_follow(next, seen));
    if probes[0] is Absent {
        if chain.len() > 1 {
            assert forall|i: int| 0 <= i < rest.len() implies path_parent(#[trigger] rest[i])
                == spec_parent_in(rest.subrange(i, rest.len() as int)) by {
                assert(rest[i] == chain[i + 1]);
                assert(rest.subrange(i, rest.len() as int) =~= chain.subrange(
                    i + 1,
                    chain.len() as int,
                ));
            }
            assert(rest[0] == chain[1]);
            lemma_follow_walks_chain(rest, seen);
        } else {
            assert(rest.len() == 0);
            assert(spec_walk(rest, seen) == spec_ascend(None));
        }
    }
}

/// The walk that [`start`] begins and [`advance`] continues is the walk
/// along the ancestors of the file: told what is seen in each of them, it
/// ends where [`spec_walk`] ends.
pub proof fn lemma_walk_follows_ancestors(
    file: Seq<char>,
    chain: Seq<Seq<char>>,
    probes: Seq<ProbeView>,
)
    requires
        chain.len() == probes.len(),
    ensures
        is_ancestor_chain(file, chain) ==> spec_follow(spec_ascend(path_parent(file)), probes)
            == spec_walk(chain, probes),
{
    if is_ancestor_chain(file, chain) && chain.len() > 0 {
        lemma_follow_walks_chain(chain, probes);
    }
}

/// Calls `std::path::Path::parent` on `path`. The contract claims that the
/// outcome is a function of `path`, and what the documentation says of it
/// on every platform: a parent is the path without its final component, so
/// it is a beginning of `path` and shorter than it.
#[verifier::external_body]
fn parent_of(path: &str) -> (parent: Option<String>)
    ensures
        parent.deep_view() == path_parent(path@),
        parent matches Some(directory) ==> is_proper_prefix(directory@, path@),
{
    let parent = std::path::Path::new(path).parent()?;
    Some(parent.to_str()?.to_owned())
}

/// The walk's next stand after `directory` was tested with the result
/// `probe`, when `parent` is the next directory up.
pub fn decide(directory: String, probe: Probe, parent: Option<String>) -> (walk: Walk)
    ensures
        walk@ == spec_decide(directory@, probe@, parent.deep_view()),
{
    match probe {
        Probe::Present => Walk::Found(directory),
        Probe::Unreadable(reason) => Walk::Failed(DirectoryError::Unreadable(reason)),
        Probe::Absent => match parent {
            Some(next) => Walk::Test(next),
            None => Walk::Failed(DirectoryError::NotFound),
        },
    }
}

/// Begins the walk at the directory of `file`, the file being compiled:
/// the parent of `file` is tested first; a file without a parent lies in
/// no repository.
///
/// The directory to test is a proper beginning of `file`.
pub fn start(file: &str) -> (walk: Walk)
    ensures
        walk@ == spec_ascend(path_parent(file@)),
        walk@ matches WalkView::Test(directory) ==> is_proper_prefix(directory, file@),
{
    match parent_of(file) {
        Some(directory) => Walk::Test(directory),
        None => Walk::Failed(DirectoryError::NotFound),
    }
}

/// Continues the walk after `directory` was tested with the result `probe`.
///
/// A present metadata directory ends the walk at `directory`, the nearest
/// root; an unreadable one ends it with that error. Otherwise the walk
/// moves to the parent of `directory`; without a parent nothing is found.
///
/// The next directory to test is a proper beginning of `directory`, so a
/// walk tests at most as many directories as its first path has
/// characters.
pub fn advance(directory: String, probe: Probe) -> (walk: Walk)
    ensures
        walk@ == spec_decide(directory@, probe@, path_parent(directory@)),
        walk@ matches WalkView::Test(next) ==> is_proper_prefix(next, directory@),
{
    let parent = match probe {
        Probe::Absent => parent_of(directory.as_str()),
        _ => None,
    };
    decide(directory, probe, parent)
}

} // verus!
