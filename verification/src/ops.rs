//! The closed set of package-manager operations, with the labels and keys
//! every site derives by exhaustive matching rather than string
//! comparison.

use vstd::prelude::*;
use vstd::string::*;
use crate::text::{concat4, spec_u64_string, u64_to_string};

verus! {

/// A package-manager operation.
#[derive(Clone, Copy, PartialEq, Eq, Debug, Structural)]
pub enum ScoopOp {
    Install,
    Uninstall,
    Update,
    UpdateForce,
    ClearCache,
    UpdateAll,
}

/// The stable key an operation is identified by.
pub open spec fn spec_op_key(op: ScoopOp) -> Seq<char> {
    match op {
        ScoopOp::Install => "install"@,
        ScoopOp::Uninstall => "uninstall"@,
        ScoopOp::Update => "update"@,
        ScoopOp::UpdateForce => "force-update"@,
        ScoopOp::ClearCache => "clear-cache"@,
        ScoopOp::UpdateAll => "update-all"@,
    }
}

impl ScoopOp {
    /// The human label an operation is logged under.
    pub fn gerund(&self) -> (r: &'static str)
        ensures
            *self is Install ==> r@ == "installing"@,
            *self is Uninstall ==> r@ == "uninstalling"@,
            *self is Update ==> r@ == "updating"@,
            *self is UpdateForce ==> r@ == "force updating"@,
            *self is ClearCache ==> r@ == "clearing cache for"@,
            *self is UpdateAll ==> r@ == "updating all"@,
    {
        match *self {
            ScoopOp::Install => "installing",
            ScoopOp::Uninstall => "uninstalling",
            ScoopOp::Update => "updating",
            ScoopOp::UpdateForce => "force updating",
            ScoopOp::ClearCache => "clearing cache for",
            ScoopOp::UpdateAll => "updating all",
        }
    }

    /// The stable key an operation is identified by.
    pub fn key(&self) -> (r: &'static str)
        ensures
            r@ == spec_op_key(*self),
    {
        match *self {
            ScoopOp::Install => "install",
            ScoopOp::Uninstall => "uninstall",
            ScoopOp::Update => "update",
            ScoopOp::UpdateForce => "force-update",
            ScoopOp::ClearCache => "clear-cache",
            ScoopOp::UpdateAll => "update-all",
        }
    }
}

/// The identifier one operation run is tracked under: the operation key,
/// the package and the start time, dash-separated.
pub fn operation_id(op: &ScoopOp, package: &str, now_epoch: u64) -> (r: String)
    ensures
        r@ == spec_op_key(*op) + "-"@ + package@ + "-"@ + spec_u64_string(now_epoch as nat),
{
    let ts = u64_to_string(now_epoch);
    concat4(op.key(), "-", package, "-").concat(ts.as_str())
}

} // verus!
