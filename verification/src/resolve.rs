//! Target resolution: pairing source paths with destinations.  The final
//! positional argument is either an existing directory (fan-out: every
//! other argument is installed into it under its own base name), or the
//! single destination of a single source; anything else rejects the run
//! before any side effect.

use vstd::prelude::*;
use crate::paths::basename;
use crate::paths::basename_of;
use crate::paths::join_of;
use crate::paths::join_path;

verus! {

/// One file to install: copy `source` to `destination`.
pub struct InstallRequest {
    pub source: String,
    pub destination: String,
}

/// Why a run was rejected before any side effect.
#[derive(Debug)]
pub enum ResolveError {
    /// The positional arguments do not form a valid request list.
    Usage,
    /// A fan-out source path has no base file name; holds that source.
    InvalidSource(String),
}

/// Fan-out applies when at least two positional arguments were given and
/// the last one exists as a directory.
pub open spec fn fan_out_requested(n_free: int, last_exists: bool, last_is_dir: bool) -> bool {
    n_free >= 2 && last_exists && last_is_dir
}

/// A single pair applies when exactly two positional arguments were given
/// and the last one is either an existing non-directory, or does not
/// exist but an explicit reference file makes its metadata unnecessary.
pub open spec fn single_pair_requested(
    n_free: int,
    ref_given: bool,
    last_exists: bool,
    last_is_dir: bool,
) -> bool {
    n_free == 2 && (if last_exists {
        !last_is_dir
    } else {
        ref_given
    })
}

/// A run that requests neither fan-out nor a single pair is rejected as a
/// usage error.
pub open spec fn run_rejected(
    n_free: int,
    ref_given: bool,
    last_exists: bool,
    last_is_dir: bool,
) -> bool {
    !fan_out_requested(n_free, last_exists, last_is_dir) && !single_pair_requested(
        n_free,
        ref_given,
        last_exists,
        last_is_dir,
    )
}

/// The destination of fan-out source `src` into directory `dir`, when
/// `src` has a base name.
pub open spec fn fan_out_destination(src: Seq<char>, dir: Seq<char>) -> Seq<char>
    recommends
        basename_of(src) is Some,
{
    join_of(dir, basename_of(src)->Some_0)
}

/// Pairs each source with its destination.  `free` holds the positional
/// arguments; `ref_given` says whether an explicit reference file was
/// named; `last_exists` and `last_is_dir` report what the file system
/// says of the final positional argument (`last_is_dir` is only consulted
/// when `last_exists`).  Fan-out produces one request per source in
/// positional order and fails on the first source without a base name; a
/// single pair produces exactly one request; every other shape is a usage
/// error.
pub fn resolve_targets(
    free: &Vec<String>,
    ref_given: bool,
    last_exists: bool,
    last_is_dir: bool,
) -> (r: Result<Vec<InstallRequest>, ResolveError>)
    ensures
        ({
            let n = free@.len() as int;
            match r {
                Ok(reqs) => {
                    &&& !run_rejected(n, ref_given, last_exists, last_is_dir)
                    &&& fan_out_requested(n, last_exists, last_is_dir) ==> {
                        &&& reqs@.len() == n - 1
                        &&& forall|i: int|
                            0 <= i < n - 1 ==> basename_of(#[trigger] free@[i]@) is Some
                        &&& forall|i: int|
                            0 <= i < n - 1 ==> (#[trigger] reqs@[i]).source@ == free@[i]@
                                && reqs@[i].destination@ == fan_out_destination(
                                free@[i]@,
                                free@[n - 1]@,
                            )
                    }
                    &&& single_pair_requested(n, ref_given, last_exists, last_is_dir) ==> {
                        &&& reqs@.len() == 1
                        &&& reqs@[0].source@ == free@[0]@
                        &&& reqs@[0].destination@ == free@[1]@
                    }
                },
                Err(ResolveError::Usage) => run_rejected(n, ref_given, last_exists, last_is_dir),
                Err(ResolveError::InvalidSource(f)) => {
                    &&& fan_out_requested(n, last_exists, last_is_dir)
                    &&& exists|i: int|
                        0 <= i < n - 1 && basename_of(#[trigger] free@[i]@) is None && f@
                            == free@[i]@ && (forall|j: int|
                            0 <= j < i ==> basename_of(#[trigger] free@[j]@) is Some)
                },
            }
        }),
{
    let n = free.len();
    if n < 2 {
        return Err(ResolveError::Usage);
    }
    if last_exists && last_is_dir {
        let mut reqs: Vec<InstallRequest> = Vec::new();
        let mut i: usize = 0;
        while i < n - 1
            invariant
                i <= n - 1,
                2 <= n == free@.len(),
                last_exists,
                last_is_dir,
                reqs@.len() == i,
                forall|j: int| 0 <= j < i ==> basename_of(#[trigger] free@[j]@) is Some,
                forall|j: int|
                    0 <= j < i ==> (#[trigger] reqs@[j]).source@ == free@[j]@
                        && reqs@[j].destination@ == fan_out_destination(free@[j]@, free@[n - 1]@),
            decreases n - 1 - i,
        {
            let src = &free[i];
            match basename(src.as_str()) {
                None => {
                    let bad = src.clone();
                    proof {
                        let gi = i as int;
                        assert(0 <= gi < free@.len() - 1 && basename_of(free@[gi]@) is None && bad@
                            == free@[gi]@ && (forall|j: int|
                            0 <= j < gi ==> basename_of(#[trigger] free@[j]@) is Some));
                    }
                    return Err(ResolveError::InvalidSource(bad));
                },
                Some(base) => {
                    let dst = join_path(free[n - 1].as_str(), base.as_str());
                    reqs.push(InstallRequest { source: src.clone(), destination: dst });
                },
            }
            i = i + 1;
        }
        Ok(reqs)
    } else if !last_exists && !ref_given {
        Err(ResolveError::Usage)
    } else if n != 2 {
        Err(ResolveError::Usage)
    } else {
        let mut reqs: Vec<InstallRequest> = Vec::new();
        reqs.push(InstallRequest { source: free[0].clone(), destination: free[1].clone() });
        Ok(reqs)
    }
}

/// The file whose metadata a request mimics: the explicit reference when
/// one was given, the request's own destination otherwise.
pub fn reference_for(destination: &str, refname: &Option<String>) -> (r: String)
    ensures
        refname matches Some(f) ==> r@ == f@,
        refname is None ==> r@ == destination@,
{
    match refname {
        Some(f) => f.clone(),
        None => destination.to_owned(),
    }
}

/// The message reported for a fan-out source without a base name.
pub fn invalid_source_message(src: &str) -> (r: String)
    ensures
        r@ == "Invalid source filename "@ + src@,
{
    let mut out: String = "Invalid source filename ".to_owned();
    out.append(src);
    out
}

} // verus!
