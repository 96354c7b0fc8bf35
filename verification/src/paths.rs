//! Path layout of the application's data: the current-format and legacy
//! data directories, the store and marker files under them, and the
//! embedded-browser subtrees.
//!
//! The operating system's base directories are environment-dependent, so
//! callers pass them in (see `external` for the wrappers that query them),
//! along with any existence facts only a filesystem can answer.  Paths are
//! joined with a forward slash, which every supported platform accepts.

use vstd::prelude::*;
use vstd::string::*;
use crate::text::concat3;

verus! {

/// `base`, a separator, then `name`.
pub open spec fn spec_joined(base: Seq<char>, name: Seq<char>) -> Seq<char> {
    base + "/"@ + name
}

/// Joins one component onto a base path.
pub fn join_path(base: &str, name: &str) -> (r: String)
    ensures
        r@ == spec_joined(base@, name@),
{
    concat3(base, "/", name)
}

/// The current-format application data directory under the OS data dir.
pub open spec fn spec_primary_dir(os_data: Seq<char>) -> Seq<char> {
    spec_joined(os_data, "com.rscoop.app"@)
}

/// The legacy application data directory under the OS local-data dir.
pub open spec fn spec_legacy_dir(os_local: Seq<char>) -> Seq<char> {
    spec_joined(os_local, "rscoop"@)
}

/// The current-format application data directory.
pub fn primary_app_dir(os_data: &str) -> (r: String)
    ensures
        r@ == spec_primary_dir(os_data@),
{
    join_path(os_data, "com.rscoop.app")
}

/// The legacy application data directory.
pub fn legacy_app_dir(os_local: &str) -> (r: String)
    ensures
        r@ == spec_legacy_dir(os_local@),
{
    join_path(os_local, "rscoop")
}

/// Resolves the application data directory: the current-format directory
/// when the OS data dir is known and that directory exists on disk, else
/// the legacy directory, else an error.  `primary_exists` answers whether
/// the current-format directory exists.
pub fn get_app_data_dir(os_data: &Option<String>, primary_exists: bool, os_local: &Option<
    String,
>) -> (r: Result<String, String>)
    ensures
        os_data matches Some(d) ==> primary_exists ==> (r matches Ok(p) && p@
            == spec_primary_dir(d@)),
        os_local matches Some(l) ==> !(os_data is Some && primary_exists) ==> (r matches Ok(p)
            && p@ == spec_legacy_dir(l@)),
        !(os_data is Some && primary_exists) && os_local is None ==> (r matches Err(m) && m@
            == "Could not determine data directory"@),
{
    if primary_exists {
        if let Some(d) = os_data {
            return Ok(primary_app_dir(d.as_str()));
        }
    }
    match os_local {
        Some(l) => Ok(legacy_app_dir(l.as_str())),
        None => Err(String::from_str("Could not determine data directory")),
    }
}

/// Resolves the log directory: `logs` under the current-format directory
/// when it exists, else `logs` under the legacy directory when the OS
/// local-data dir is known.
pub fn get_log_dir(os_data: &Option<String>, primary_exists: bool, os_local: &Option<String>) -> (r:
    Option<String>)
    ensures
        os_data matches Some(d) ==> primary_exists ==> (r matches Some(p) && p@ == spec_joined(
            spec_primary_dir(d@),
            "logs"@,
        )),
        os_local matches Some(l) ==> !(os_data is Some && primary_exists) ==> (r matches Some(p)
            && p@ == spec_joined(spec_legacy_dir(l@), "logs"@)),
        !(os_data is Some && primary_exists) && os_local is None ==> r is None,
{
    if primary_exists {
        if let Some(d) = os_data {
            let dir = primary_app_dir(d.as_str());
            return Some(join_path(dir.as_str(), "logs"));
        }
    }
    match os_local {
        Some(l) => {
            let dir = legacy_app_dir(l.as_str());
            Some(join_path(dir.as_str(), "logs"))
        },
        None => None,
    }
}

/// The log directory as a result, erring when it cannot be determined.
pub fn get_log_dir_cmd(os_data: &Option<String>, primary_exists: bool, os_local: &Option<
    String,
>) -> (r: Result<String, String>)
    ensures
        os_data matches Some(d) ==> primary_exists ==> (r matches Ok(p) && p@ == spec_joined(
            spec_primary_dir(d@),
            "logs"@,
        )),
        os_local matches Some(l) ==> !(os_data is Some && primary_exists) ==> (r matches Ok(p)
            && p@ == spec_joined(spec_legacy_dir(l@), "logs"@)),
        !(os_data is Some && primary_exists) && os_local is None ==> (r matches Err(m) && m@
            == "Could not determine log directory"@),
{
    match get_log_dir(os_data, primary_exists, os_local) {
        Some(p) => Ok(p),
        None => Err(String::from_str("Could not determine log directory")),
    }
}

/// The store file names swept by a factory reset, backup variants included.
pub open spec fn spec_store_names() -> Seq<Seq<char>> {
    seq![
        "settings.dat"@,
        "signals.dat"@,
        "version.txt"@,
        "settings.dat.bak"@,
        "signals.dat.bak"@,
    ]
}

/// The store files under one directory.
pub open spec fn spec_store_files_under(dir: Seq<char>) -> Seq<Seq<char>> {
    spec_store_names().map_values(|n: Seq<char>| spec_joined(dir, n))
}

/// Appends the five store-file paths under `dir`.
fn push_store_files(dir: &str, out: &mut Vec<String>)
    ensures
        final(out)@.map_values(|p: String| p@) == old(out)@.map_values(|p: String| p@)
            + spec_store_files_under(dir@),
{
    let ghost prior = out@.map_values(|p: String| p@);
    out.push(join_path(dir, "settings.dat"));
    out.push(join_path(dir, "signals.dat"));
    out.push(join_path(dir, "version.txt"));
    out.push(join_path(dir, "settings.dat.bak"));
    out.push(join_path(dir, "signals.dat.bak"));
    proof {
        assert(out@.map_values(|p: String| p@) =~= prior + spec_store_files_under(dir@));
    }
}

/// Store-file sweep candidates: the store names and their backup variants
/// across the current-format and legacy data directories.
pub fn store_file_candidates(os_data: &Option<String>, os_local: &Option<String>) -> (r: Vec<
    String,
>)
    ensures
        r@.map_values(|p: String| p@) == (match os_data {
            Option::Some(d) => spec_store_files_under(spec_primary_dir(d@)),
            Option::None => Seq::<Seq<char>>::empty(),
        }) + (match os_local {
            Option::Some(l) => spec_store_files_under(spec_legacy_dir(l@)),
            Option::None => Seq::<Seq<char>>::empty(),
        }),
{
    let mut out: Vec<String> = Vec::new();
    proof {
        assert(out@.map_values(|p: String| p@) =~= Seq::<Seq<char>>::empty());
    }
    if let Some(d) = os_data {
        let dir = primary_app_dir(d.as_str());
        push_store_files(dir.as_str(), &mut out);
    }
    if let Some(l) = os_local {
        let dir = legacy_app_dir(l.as_str());
        push_store_files(dir.as_str(), &mut out);
    }
    proof {
        assert(out@.map_values(|p: String| p@) =~= (match os_data {
            Option::Some(d) => spec_store_files_under(spec_primary_dir(d@)),
            Option::None => Seq::<Seq<char>>::empty(),
        }) + (match os_local {
            Option::Some(l) => spec_store_files_under(spec_legacy_dir(l@)),
            Option::None => Seq::<Seq<char>>::empty(),
        }));
    }
    out
}

/// The settings and signals files removed in the final cleanup on exit,
/// across both data directories.
pub fn final_cleanup_candidates(os_data: &Option<String>, os_local: &Option<String>) -> (r: Vec<
    String,
>)
    ensures
        r@.map_values(|p: String| p@) == (match os_data {
            Option::Some(d) => seq![
                spec_joined(spec_primary_dir(d@), "settings.dat"@),
                spec_joined(spec_primary_dir(d@), "signals.dat"@),
            ],
            Option::None => Seq::<Seq<char>>::empty(),
        }) + (match os_local {
            Option::Some(l) => seq![
                spec_joined(spec_legacy_dir(l@), "settings.dat"@),
                spec_joined(spec_legacy_dir(l@), "signals.dat"@),
            ],
            Option::None => Seq::<Seq<char>>::empty(),
        }),
{
    let mut out: Vec<String> = Vec::new();
    if let Some(d) = os_data {
        let dir = primary_app_dir(d.as_str());
        out.push(join_path(dir.as_str(), "settings.dat"));
        out.push(join_path(dir.as_str(), "signals.dat"));
    }
    if let Some(l) = os_local {
        let dir = legacy_app_dir(l.as_str());
        out.push(join_path(dir.as_str(), "settings.dat"));
        out.push(join_path(dir.as_str(), "signals.dat"));
    }
    proof {
        assert(out@.map_values(|p: String| p@) =~= (match os_data {
            Option::Some(d) => seq![
                spec_joined(spec_primary_dir(d@), "settings.dat"@),
                spec_joined(spec_primary_dir(d@), "signals.dat"@),
            ],
            Option::None => Seq::<Seq<char>>::empty(),
        }) + (match os_local {
            Option::Some(l) => seq![
                spec_joined(spec_legacy_dir(l@), "settings.dat"@),
                spec_joined(spec_legacy_dir(l@), "signals.dat"@),
            ],
            Option::None => Seq::<Seq<char>>::empty(),
        }));
    }
    out
}

/// The factory-reset marker file path, when the OS data dir is known.
pub fn factory_reset_marker_path(os_data: &Option<String>) -> (r: Option<String>)
    ensures
        os_data matches Some(d) ==> (r matches Some(p) && p@ == spec_joined(
            spec_primary_dir(d@),
            ".factory_reset"@,
        )),
        os_data is None ==> r is None,
{
    match os_data {
        Some(d) => {
            let dir = primary_app_dir(d.as_str());
            Some(join_path(dir.as_str(), ".factory_reset"))
        },
        None => None,
    }
}

/// The deferred embedded-browser cleanup marker path, when the OS data dir
/// is known.
pub fn webview_cleanup_marker_path(os_data: &Option<String>) -> (r: Option<String>)
    ensures
        os_data matches Some(d) ==> (r matches Some(p) && p@ == spec_joined(
            spec_primary_dir(d@),
            ".cleanup_webview_on_startup"@,
        )),
        os_data is None ==> r is None,
{
    match os_data {
        Some(d) => {
            let dir = primary_app_dir(d.as_str());
            Some(join_path(dir.as_str(), ".cleanup_webview_on_startup"))
        },
        None => None,
    }
}

/// The embedded-browser data directories an aggressive cleanup visits:
/// `EBWebView` under the current-format directory name in the OS data,
/// local-data and cache dirs.
pub fn webview_cleanup_dirs(os_data: &Option<String>, os_local: &Option<String>, os_cache: &Option<
    String,
>) -> (r: Vec<String>)
    ensures
        r@.map_values(|p: String| p@) == (match os_data {
            Option::Some(d) => seq![spec_joined(spec_primary_dir(d@), "EBWebView"@)],
            Option::None => Seq::<Seq<char>>::empty(),
        }) + (match os_local {
            Option::Some(l) => seq![spec_joined(spec_joined(l@, "com.rscoop.app"@), "EBWebView"@)],
            Option::None => Seq::<Seq<char>>::empty(),
        }) + (match os_cache {
            Option::Some(c) => seq![spec_joined(spec_joined(c@, "com.rscoop.app"@), "EBWebView"@)],
            Option::None => Seq::<Seq<char>>::empty(),
        }),
{
    let mut out: Vec<String> = Vec::new();
    if let Some(d) = os_data {
        let dir = primary_app_dir(d.as_str());
        out.push(join_path(dir.as_str(), "EBWebView"));
    }
    if let Some(l) = os_local {
        let dir = join_path(l.as_str(), "com.rscoop.app");
        out.push(join_path(dir.as_str(), "EBWebView"));
    }
    if let Some(c) = os_cache {
        let dir = join_path(c.as_str(), "com.rscoop.app");
        out.push(join_path(dir.as_str(), "EBWebView"));
    }
    proof {
        assert(out@.map_values(|p: String| p@) =~= (match os_data {
            Option::Some(d) => seq![spec_joined(spec_primary_dir(d@), "EBWebView"@)],
            Option::None => Seq::<Seq<char>>::empty(),
        }) + (match os_local {
            Option::Some(l) => seq![
                spec_joined(spec_joined(l@, "com.rscoop.app"@), "EBWebView"@),
            ],
            Option::None => Seq::<Seq<char>>::empty(),
        }) + (match os_cache {
            Option::Some(c) => seq![
                spec_joined(spec_joined(c@, "com.rscoop.app"@), "EBWebView"@),
            ],
            Option::None => Seq::<Seq<char>>::empty(),
        }));
    }
    out
}

/// The application log file: under the legacy data directory when the OS
/// local-data dir is known, else relative to the working directory.
pub fn app_log_file_path(os_local: &Option<String>) -> (r: String)
    ensures
        os_local matches Some(l) ==> r@ == spec_joined(
            spec_joined(spec_legacy_dir(l@), "logs"@),
            "rscoop.log"@,
        ),
        os_local is None ==> r@ == "./logs/rscoop.log"@,
{
    match os_local {
        Some(l) => {
            let dir = legacy_app_dir(l.as_str());
            let logs = join_path(dir.as_str(), "logs");
            join_path(logs.as_str(), "rscoop.log")
        },
        None => String::from_str("./logs/rscoop.log"),
    }
}

} // verus!
