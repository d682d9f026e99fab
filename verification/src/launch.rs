//! Validation of the launch specification.
//!
//! The host hands the supervisor the ordered launch arguments it received,
//! each already decoded to text where that was possible (`None` marks an
//! argument that was not representable as valid text). Element 0 is the
//! service's own name and is ignored; element 1 is the target executable
//! path. Path canonicalization itself is file-system work the host
//! performs; [`resolution_outcome`] classifies its result.

use vstd::prelude::*;

use crate::codes::LaunchFailure;

verus! {

/// What argument validation yields: the decoded target path, or the
/// pre-launch failure. A valid launch specification holds at least two
/// elements, and its path element must have decoded to text.
pub open spec fn spec_validate(args: Seq<Option<Seq<char>>>) -> Result<Seq<char>, LaunchFailure> {
    if args.len() < 2 {
        Result::Err(LaunchFailure::TooFewArguments)
    } else {
        match args[1] {
            Option::Some(path) => Result::Ok(path),
            Option::None => Result::Err(LaunchFailure::ArgumentNotText),
        }
    }
}

/// Validates the launch arguments and extracts the target path.
pub fn validate_arguments(args: &Vec<Option<String>>) -> (r: Result<String, LaunchFailure>)
    ensures
        ({
            let outcome = spec_validate(args.deep_view());
            match r {
                Result::Ok(path) => outcome matches Result::Ok(p) && path@ == p,
                Result::Err(failure) => outcome matches Result::Err(f) && failure == f,
            }
        }),
{
    proof {
        assert(args.deep_view().len() == args@.len());
    }
    if args.len() < 2 {
        return Result::Err(LaunchFailure::TooFewArguments);
    }
    proof {
        assert(args.deep_view()[1] == args@[1].deep_view());
    }
    match &args[1] {
        Option::Some(path) => Result::Ok(path.clone()),
        Option::None => Result::Err(LaunchFailure::ArgumentNotText),
    }
}

/// Classifies the host's attempt to canonicalize the decoded path:
/// `resolved` carries the canonical path when resolution succeeded and is
/// `None` when the path did not resolve to an existing target.
pub fn resolution_outcome(resolved: Option<String>) -> (r: Result<String, LaunchFailure>)
    ensures
        resolved is None ==> (r matches Result::Err(f) && f == LaunchFailure::TargetNotFound),
        resolved matches Option::Some(p) ==> (r matches Result::Ok(q) && q@ == p@),
{
    match resolved {
        Option::Some(path) => Result::Ok(path),
        Option::None => Result::Err(LaunchFailure::TargetNotFound),
    }
}

} // verus!
