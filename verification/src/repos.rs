//! The repository listing rules of the one-shot list command: which
//! fetched repositories the visibility and archive flags keep.

use vstd::prelude::*;
use crate::domain::Repository;
use crate::sequences::lemma_take_one_more;

verus! {

/// Whether a repository survives the listing flags: archived ones only
/// with `all`, and the private / public filters each keep only their
/// side.
pub open spec fn spec_repo_kept(
    r: Repository,
    filter_private: bool,
    filter_public: bool,
    all: bool,
) -> bool {
    &&& (all || !r.archived)
    &&& (!filter_private || r.private)
    &&& (!filter_public || !r.private)
}

/// The repositories the listing flags keep, order preserved.
pub open spec fn spec_filter_repos(
    rs: Seq<Repository>,
    filter_private: bool,
    filter_public: bool,
    all: bool,
) -> Seq<Repository>
    decreases rs.len(),
{
    if rs.len() == 0 {
        Seq::<Repository>::empty()
    } else {
        let rest = spec_filter_repos(rs.drop_last(), filter_private, filter_public, all);
        if spec_repo_kept(rs.last(), filter_private, filter_public, all) {
            rest.push(rs.last())
        } else {
            rest
        }
    }
}

/// Applies the listing flags of the one-shot list command: drops
/// archived repositories unless `all` is set, then keeps only private
/// ones under `filter_private` and only public ones under
/// `filter_public`.
pub fn filter_repos(
    repos: &Vec<Repository>,
    filter_private: bool,
    filter_public: bool,
    all: bool,
) -> (r: Vec<Repository>)
    ensures
        r@ == spec_filter_repos(repos@, filter_private, filter_public, all),
{
    let mut out: Vec<Repository> = Vec::new();
    let mut i: usize = 0;
    while i < repos.len()
        invariant
            0 <= i <= repos@.len(),
            out@ == spec_filter_repos(repos@.take(i as int), filter_private, filter_public, all),
        decreases repos@.len() - i,
    {
        proof {
            lemma_take_one_more(repos@, i as int);
            assert(repos@.take(i + 1).drop_last() =~= repos@.take(i as int));
        }
        let keep_archive: bool = all || !repos[i].archived;
        let keep_private: bool = !filter_private || repos[i].private;
        let keep_public: bool = !filter_public || !repos[i].private;
        if keep_archive && keep_private && keep_public {
            out.push(repos[i].clone());
        }
        i = i + 1;
    }
    proof {
        assert(repos@.take(repos@.len() as int) =~= repos@);
    }
    out
}

} // verus!
