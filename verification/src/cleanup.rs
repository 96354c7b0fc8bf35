//! Version-aware cleanup planning: which cleanup command to run, if any,
//! given the installed packages.
//!
//! Versioned installs are pinned to a specific version, so the plans
//! exclude them: cleaning their old versions or caches would defeat the
//! pin.  Running the planned command and streaming its output is the
//! transport's business, outside this crate.

use vstd::prelude::*;
use vstd::string::*;
use crate::cache::PackageRecord;
use crate::text::{concat2, join_strings, join_with};

verus! {

/// Number of versioned installs among the packages.
pub open spec fn spec_versioned_count(pkgs: Seq<PackageRecord>) -> nat
    decreases pkgs.len(),
{
    if pkgs.len() == 0 {
        0
    } else {
        spec_versioned_count(pkgs.drop_last()) + (if pkgs.last().is_versioned_install {
            1nat
        } else {
            0nat
        })
    }
}

/// Names of the regular (not versioned) packages, in order.
pub open spec fn spec_regular_names(pkgs: Seq<PackageRecord>) -> Seq<Seq<char>>
    decreases pkgs.len(),
{
    if pkgs.len() == 0 {
        Seq::empty()
    } else if pkgs.last().is_versioned_install {
        spec_regular_names(pkgs.drop_last())
    } else {
        spec_regular_names(pkgs.drop_last()).push(pkgs.last().name@)
    }
}

/// What a cleanup request resolves to.
pub enum CleanupPlan {
    /// Nothing safe to clean: every package is a versioned install.
    NoActionNeeded,
    /// Run this cleanup command.
    Run { command: String },
}

/// The names of the regular packages, in order.
pub fn regular_package_names(packages: &Vec<PackageRecord>) -> (r: Vec<String>)
    ensures
        r@.map_values(|n: String| n@) == spec_regular_names(packages@),
{
    let mut r: Vec<String> = Vec::new();
    let len = packages.len();
    let mut i: usize = 0;
    proof {
        assert(r@.map_values(|n: String| n@) =~= spec_regular_names(packages@.take(0)));
    }
    while i < len
        invariant
            len == packages@.len(),
            i <= len,
            r@.map_values(|n: String| n@) == spec_regular_names(packages@.take(i as int)),
        decreases len - i,
    {
        proof {
            assert(packages@.take(i + 1).drop_last() =~= packages@.take(i as int));
            assert(packages@.take(i + 1).last() == packages@[i as int]);
        }
        if !packages[i].is_versioned_install {
            let ghost prior = r@.map_values(|n: String| n@);
            r.push(packages[i].name.clone());
            proof {
                assert(r@.map_values(|n: String| n@) =~= prior.push(
                    packages@[i as int].name@,
                ));
            }
        }
        i = i + 1;
    }
    proof {
        assert(packages@.take(len as int) =~= packages@);
    }
    r
}

/// Counts the versioned installs.
fn versioned_count(packages: &Vec<PackageRecord>) -> (n: usize)
    ensures
        n == spec_versioned_count(packages@),
{
    let mut n: usize = 0;
    let len = packages.len();
    let mut i: usize = 0;
    while i < len
        invariant
            len == packages@.len(),
            i <= len,
            n == spec_versioned_count(packages@.take(i as int)),
            n <= i,
        decreases len - i,
    {
        proof {
            assert(packages@.take(i + 1).drop_last() =~= packages@.take(i as int));
            assert(packages@.take(i + 1).last() == packages@[i as int]);
        }
        if packages[i].is_versioned_install {
            n = n + 1;
        }
        i = i + 1;
    }
    proof {
        assert(packages@.take(len as int) =~= packages@);
    }
    n
}

/// Plans the cleanup of old app versions: a standard whole-set cleanup
/// when nothing is versioned, a selective cleanup of the regular packages
/// when some are, and no action when all are versioned.
pub fn plan_cleanup_all_apps(packages: &Vec<PackageRecord>) -> (p: CleanupPlan)
    ensures
        spec_versioned_count(packages@) == 0 ==> (p matches CleanupPlan::Run { command }
            && command@ == "scoop cleanup --all"@),
        spec_versioned_count(packages@) > 0 && spec_regular_names(packages@).len() == 0 ==> p
            is NoActionNeeded,
        spec_versioned_count(packages@) > 0 && spec_regular_names(packages@).len() > 0 ==> (p
            matches CleanupPlan::Run { command } && command@ == "scoop cleanup "@ + join_with(
            spec_regular_names(packages@),
            " "@,
        )),
{
    let versioned = versioned_count(packages);
    if versioned == 0 {
        return CleanupPlan::Run { command: String::from_str("scoop cleanup --all") };
    }
    let names = regular_package_names(packages);
    if names.len() == 0 {
        return CleanupPlan::NoActionNeeded;
    }
    let joined = join_strings(&names, " ");
    CleanupPlan::Run { command: concat2("scoop cleanup ", joined.as_str()) }
}

/// The command of the forced variant, which cleans every package,
/// versioned installs included.
pub fn force_cleanup_command() -> (r: String)
    ensures
        r@ == "scoop cleanup --all"@,
{
    String::from_str("scoop cleanup --all")
}

/// Plans the download-cache cleanup: only regular packages' caches are
/// cleaned, and none when every package is a versioned install.
pub fn plan_cache_cleanup(packages: &Vec<PackageRecord>) -> (p: CleanupPlan)
    ensures
        spec_regular_names(packages@).len() == 0 ==> p is NoActionNeeded,
        spec_regular_names(packages@).len() > 0 ==> (p matches CleanupPlan::Run { command }
            && command@ == "scoop cleanup "@ + join_with(spec_regular_names(packages@), " "@)
                + " --cache"@),
{
    let names = regular_package_names(packages);
    if names.len() == 0 {
        return CleanupPlan::NoActionNeeded;
    }
    let joined = join_strings(&names, " ");
    let mut command = concat2("scoop cleanup ", joined.as_str());
    command.append(" --cache");
    CleanupPlan::Run { command }
}

} // verus!
