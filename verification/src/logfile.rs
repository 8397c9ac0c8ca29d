//! Where the logs go and what they are called.
//!
//! Paths are byte strings in the Unix convention: components are parted by
//! `/`, and a path that begins with `/` is absolute.

use vstd::prelude::*;
use vstd::slice::slice_to_vec;
use vstd::string::StringSliceAdditionalSpecFns;
use vstd::utf8::encode_utf8;

verus! {

/// The byte that parts the components of a path.
pub const SEPARATOR: u8 = 0x2f;

/// The name of the file that records the last invocation.
pub const LAST_RUN_FILE: &'static str = "on-the-gpu--last-run.log";

/// Whether the path begins at the root.
pub open spec fn is_absolute(path: Seq<u8>) -> bool {
    path.len() > 0 && path[0] == SEPARATOR
}

/// The path `base` extended with `path`: `path` alone where it is absolute,
/// else `base` followed by `path`, with a separator between them unless
/// `base` is empty or ends with one.
pub open spec fn joined(base: Seq<u8>, path: Seq<u8>) -> Seq<u8> {
    if is_absolute(path) {
        path
    } else if base.len() > 0 && base.last() != SEPARATOR {
        base + seq![SEPARATOR] + path
    } else {
        base + path
    }
}

/// The name of a log file: the base name, `_`, the time stamp and the
/// suffix of a compressed log.
pub open spec fn log_file_name_text(base_name: Seq<char>, timestamp: Seq<char>) -> Seq<char> {
    base_name + "_"@ + timestamp + ".log.zstd"@
}

/// The directory that the logs go to by default: `games/logs` under the
/// home directory.
pub open spec fn default_logs_dir(home: Seq<u8>) -> Seq<u8> {
    joined(joined(home, "games".spec_bytes()), "logs".spec_bytes())
}

/// The directory that the logs go to: the overriding one where one is
/// given, else the default under the home directory, where one is known.
pub open spec fn logs_dir(overridden: Option<Seq<u8>>, home: Option<Seq<u8>>) -> Option<Seq<u8>> {
    match (overridden, home) {
        (Some(dir), _) => Some(dir),
        (None, Some(home)) => Some(default_logs_dir(home)),
        (None, None) => None,
    }
}

/// The path of the log of a run that began at `timestamp`, in `dir`.
pub open spec fn log_path_bytes(base_name: Seq<char>, timestamp: Seq<char>, dir: Seq<u8>) -> Seq<u8> {
    joined(dir, encode_utf8(log_file_name_text(base_name, timestamp)))
}

/// The path of the log of a run that began at `timestamp`, where the
/// directory of the logs is known.
pub open spec fn log_path_for(
    base_name: Seq<char>,
    timestamp: Seq<char>,
    overridden: Option<Seq<u8>>,
    home: Option<Seq<u8>>,
) -> Option<Seq<u8>> {
    match logs_dir(overridden, home) {
        Some(dir) => Some(log_path_bytes(base_name, timestamp, dir)),
        None => None,
    }
}

/// The bytes of an optional byte string.
pub open spec fn option_bytes(bytes: Option<&[u8]>) -> Option<Seq<u8>> {
    match bytes {
        Some(b) => Some(b@),
        None => None,
    }
}

/// The bytes of an optional path.
pub open spec fn path_bytes(path: Option<Vec<u8>>) -> Option<Seq<u8>> {
    match path {
        Some(p) => Some(p@),
        None => None,
    }
}

/// Appends `bytes` to `out`.
fn push_bytes(out: &mut Vec<u8>, bytes: &[u8])
    ensures
        final(out)@ == old(out)@ + bytes@,
{
    let mut copy = slice_to_vec(bytes);
    out.append(&mut copy);
}

/// Extends `base` with `path`, as a path is extended: an absolute `path`
/// takes the place of `base`.
pub fn push_path(base: &mut Vec<u8>, path: &[u8])
    ensures
        final(base)@ == joined(old(base)@, path@),
{
    if path.len() > 0 && path[0] == SEPARATOR {
        base.clear();
    } else if base.len() > 0 && base[base.len() - 1] != SEPARATOR {
        base.push(SEPARATOR);
    }
    push_bytes(base, path);
}

/// The name of the log file of a run of `base_name` that began at
/// `timestamp`.
pub fn log_file_name(base_name: &str, timestamp: &str) -> (name: String)
    ensures
        name@ == log_file_name_text(base_name@, timestamp@),
{
    let mut name = String::new();
    name.append(base_name);
    name.append("_");
    name.append(timestamp);
    name.append(".log.zstd");
    assert(name@ =~= log_file_name_text(base_name@, timestamp@));
    name
}

/// The default directory of the logs under the home directory `home`.
pub fn get_logs_dir(home: &[u8]) -> (dir: Vec<u8>)
    ensures
        dir@ == default_logs_dir(home@),
{
    let mut dir = slice_to_vec(home);
    push_path(&mut dir, "games".as_bytes());
    push_path(&mut dir, "logs".as_bytes());
    dir
}

/// The path of the file that records the last invocation.
pub fn last_run_log_path(home: &[u8]) -> (path: Vec<u8>)
    ensures
        path@ == joined(default_logs_dir(home@), LAST_RUN_FILE.spec_bytes()),
{
    let mut path = get_logs_dir(home);
    push_path(&mut path, LAST_RUN_FILE.as_bytes());
    path
}

/// The path of the log of a run of `base_name` that began at `timestamp`.
///
/// The log goes to `overridden_logs_dir` where one is given, else to the
/// default directory under `home`. Without either there is no path.
pub fn log_path(
    base_name: &str,
    timestamp: &str,
    overridden_logs_dir: Option<&[u8]>,
    home: Option<&[u8]>,
) -> (path: Option<Vec<u8>>)
    ensures
        path is Some <==> overridden_logs_dir is Some || home is Some,
        path_bytes(path) == log_path_for(
            base_name@,
            timestamp@,
            option_bytes(overridden_logs_dir),
            option_bytes(home),
        ),
{
    let mut path = match overridden_logs_dir {
        Some(dir) => slice_to_vec(dir),
        None => match home {
            Some(home) => get_logs_dir(home),
            None => {
                return None;
            },
        },
    };
    let name = log_file_name(base_name, timestamp);
    push_path(&mut path, name.as_str().as_bytes());
    Some(path)
}

/// The present local time as text.
///
/// Calls `chrono::offset::Local::now` and formats what it returns with
/// `chrono::DateTime::to_rfc3339`. The text depends on the clock and on the
/// machine's time zone, so nothing is claimed of it. The clock is taken to
/// stand at or after the Unix epoch: before it, `now` panics.
#[verifier::external_body]
fn local_timestamp() -> (timestamp: String) {
    chrono::offset::Local::now().to_rfc3339()
}

/// The path of the log of a run of `base_name` that begins now.
///
/// The name holds the present local time, so two calls may differ; whatever
/// the time, the path is the one that `log_path` gives for its text.
pub fn build_log_filename(
    base_name: &str,
    overridden_logs_dir: Option<&[u8]>,
    home: Option<&[u8]>,
) -> (path: Option<Vec<u8>>)
    ensures
        path is Some <==> overridden_logs_dir is Some || home is Some,
        exists|timestamp: Seq<char>|
            path_bytes(path) == #[trigger] log_path_for(
                base_name@,
                timestamp,
                option_bytes(overridden_logs_dir),
                option_bytes(home),
            ),
{
    let now = local_timestamp();
    let path = log_path(base_name, now.as_str(), overridden_logs_dir, home);
    assert(path_bytes(path) == log_path_for(
        base_name@,
        now@,
        option_bytes(overridden_logs_dir),
        option_bytes(home),
    ));
    path
}

} // verus!
