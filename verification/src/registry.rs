//! Registry cleanup planning: the fixed key list and the two independent
//! deletion paths' inputs.
//!
//! Deletion is deliberately best-effort through two paths — the external
//! `reg` utility and a direct API call — and failures from either are
//! ignored; both run only where a registry exists.  This module computes
//! what each path is handed; executing them is outside this crate.

use vstd::prelude::*;
use vstd::string::*;
use crate::text::{spec_strip_prefix, str_strip_prefix};

verus! {

/// The registry keys the application may have written, as full paths
/// rooted in their hives.
pub fn registry_cleanup_keys() -> (r: Vec<String>)
    ensures
        r@.map_values(|k: String| k@) == seq![
            "HKEY_CURRENT_USER\\Software\\com.rscoop.app"@,
            "HKEY_CURRENT_USER\\Software\\Rscoop"@,
            "HKEY_CURRENT_USER\\Software\\Microsoft\\Windows\\CurrentVersion\\Uninstall\\Rscoop"@,
            "HKEY_LOCAL_MACHINE\\SOFTWARE\\Microsoft\\Windows\\CurrentVersion\\Uninstall\\Rscoop"@,
        ],
{
    let mut r: Vec<String> = Vec::new();
    r.push(String::from_str("HKEY_CURRENT_USER\\Software\\com.rscoop.app"));
    r.push(String::from_str("HKEY_CURRENT_USER\\Software\\Rscoop"));
    r.push(
        String::from_str(
            "HKEY_CURRENT_USER\\Software\\Microsoft\\Windows\\CurrentVersion\\Uninstall\\Rscoop",
        ),
    );
    r.push(
        String::from_str(
            "HKEY_LOCAL_MACHINE\\SOFTWARE\\Microsoft\\Windows\\CurrentVersion\\Uninstall\\Rscoop",
        ),
    );
    proof {
        assert(r@.map_values(|k: String| k@) =~= seq![
            "HKEY_CURRENT_USER\\Software\\com.rscoop.app"@,
            "HKEY_CURRENT_USER\\Software\\Rscoop"@,
            "HKEY_CURRENT_USER\\Software\\Microsoft\\Windows\\CurrentVersion\\Uninstall\\Rscoop"@,
            "HKEY_LOCAL_MACHINE\\SOFTWARE\\Microsoft\\Windows\\CurrentVersion\\Uninstall\\Rscoop"@,
        ]);
    }
    r
}

/// The arguments handed to the external `reg` utility to force-delete one
/// key.
pub fn reg_delete_args(key: &str) -> (r: Vec<String>)
    ensures
        r@.map_values(|a: String| a@) == seq!["delete"@, key@, "/f"@],
{
    let mut r: Vec<String> = Vec::new();
    r.push(String::from_str("delete"));
    r.push(String::from_str(key));
    r.push(String::from_str("/f"));
    proof {
        assert(r@.map_values(|a: String| a@) =~= seq!["delete"@, key@, "/f"@]);
    }
    r
}

/// The subkey path handed to the current-user hive for the direct API
/// deletion: the full key with its hive prefix removed, or unchanged when
/// it is rooted elsewhere.
pub fn current_user_subkey(key: &str) -> (r: String)
    ensures
        r@ == spec_strip_prefix(key@, "HKEY_CURRENT_USER\\"@),
{
    str_strip_prefix(key, "HKEY_CURRENT_USER\\")
}

/// The subkey path handed to the local-machine hive for the direct API
/// deletion.
pub fn local_machine_subkey(key: &str) -> (r: String)
    ensures
        r@ == spec_strip_prefix(key@, "HKEY_LOCAL_MACHINE\\"@),
{
    str_strip_prefix(key, "HKEY_LOCAL_MACHINE\\")
}

} // verus!
