//! Finding the emulator's executable: as it is given, or on the search path.
//!
//! Looking at the file system is the caller's part. It says whether the
//! reference names a file as it stands, and for each directory of the search
//! path, in the path's order, where the executable would lie in it and
//! whether a file is there.

use crate::error::{InitError, InitErrorView};
use vstd::prelude::*;

verus! {

/// A place on the search path where the executable may lie.
#[derive(Debug)]
pub struct Candidate {
    /// A directory of the search path, joined with the reference.
    pub path: String,
    /// Whether a file exists at `path`.
    pub is_file: bool,
}

/// What a [`Candidate`] holds.
pub struct CandidateView {
    pub path: Seq<char>,
    pub is_file: bool,
}

impl View for Candidate {
    type V = CandidateView;

    open spec fn view(&self) -> CandidateView {
        CandidateView { path: self.path@, is_file: self.is_file }
    }
}

impl DeepView for Candidate {
    type V = CandidateView;

    open spec fn deep_view(&self) -> CandidateView {
        self@
    }
}

/// The path of the first of `candidates` at which a file exists.
pub open spec fn first_file(candidates: Seq<CandidateView>) -> Option<Seq<char>>
    decreases candidates.len(),
{
    if candidates.len() == 0 {
        None
    } else if candidates[0].is_file {
        Some(candidates[0].path)
    } else {
        first_file(candidates.drop_first())
    }
}

/// The executable that `reference` stands for: the reference itself where it
/// names a file, else the first candidate at which a file exists.
pub open spec fn resolved(
    reference: Seq<char>,
    is_file: bool,
    candidates: Seq<CandidateView>,
) -> Option<Seq<char>> {
    if is_file {
        Some(reference)
    } else {
        first_file(candidates)
    }
}

/// A reference that names no file as it stands, and for which exactly one
/// place on the search path holds a file, resolves to that place.
pub proof fn lemma_found_on_search_path(
    reference: Seq<char>,
    candidates: Seq<CandidateView>,
    at: int,
)
    requires
        0 <= at < candidates.len(),
        candidates[at].is_file,
        forall|i: int| 0 <= i < candidates.len() && i != at ==> !candidates[i].is_file,
    ensures
        resolved(reference, false, candidates) == Some(candidates[at].path),
{
    lemma_first_file(candidates, at);
}

/// A reference that names no file as it stands, and for which no place on
/// the search path holds a file, does not resolve.
pub proof fn lemma_not_found(reference: Seq<char>, candidates: Seq<CandidateView>)
    requires
        forall|i: int| 0 <= i < candidates.len() ==> !candidates[i].is_file,
    ensures
        resolved(reference, false, candidates) is None,
    decreases candidates.len(),
{
    if candidates.len() > 0 {
        lemma_not_found(reference, candidates.drop_first());
    }
}

/// The search follows the order of the search path, and its first match
/// wins: what lies behind the first place that holds a file does not count.
pub proof fn lemma_first_file(candidates: Seq<CandidateView>, at: int)
    requires
        0 <= at < candidates.len(),
        candidates[at].is_file,
        forall|i: int| 0 <= i < at ==> !candidates[i].is_file,
    ensures
        first_file(candidates) == Some(candidates[at].path),
    decreases candidates.len(),
{
    if at > 0 {
        lemma_first_file(candidates.drop_first(), at - 1);
    }
}

/// Resolves `reference` to the path of an executable.
///
/// `is_file` says whether `reference` names a file as it stands;
/// `candidates` are the places on the search path, in the path's order.
/// Fails with [`InitError::ExecutableNotFound`], which names `reference`, if
/// and only if there is a file at none of them.
pub fn resolve(reference: &str, is_file: bool, candidates: &Vec<Candidate>) -> (r: Result<
    String,
    InitError,
>)
    ensures
        match r {
            Ok(path) => resolved(reference@, is_file, candidates.deep_view()) == Some(path@),
            Err(error) => {
                &&& resolved(reference@, is_file, candidates.deep_view()) is None
                &&& error@ == (InitErrorView::ExecutableNotFound { executable: reference@ })
            },
        },
{
    if is_file {
        return Ok(reference.to_owned());
    }
    let ghost all = candidates.deep_view();
    let mut i: usize = 0;
    assert(all.skip(0) =~= all);
    while i < candidates.len()
        invariant
            !is_file,
            i <= candidates.len(),
            all == candidates.deep_view(),
            first_file(all) == first_file(all.skip(i as int)),
        decreases candidates.len() - i,
    {
        let candidate = &candidates[i];
        assert(all.skip(i as int)[0] == candidate@);
        if candidate.is_file {
            return Ok(candidate.path.clone());
        }
        assert(all.skip(i as int).drop_first() =~= all.skip(i + 1));
        i += 1;
    }
    assert(all.skip(i as int).len() == 0);
    Err(InitError::ExecutableNotFound { executable: reference.to_owned() })
}

} // verus!
