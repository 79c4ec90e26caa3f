//! The zip archive that holds a project of the fifth generation.
//!
//! The project is one JSON entry of the archive. It is written under one path
//! and looked for under two, because some producers spell the path with a
//! backslash. Packing and unpacking is the work of the `zip` crate; which path
//! is tried when, and how the search ends, is decided here.

use crate::error::ConvertError;
use vstd::prelude::*;

verus! {

// What the zip reader finds in an archive under a path. `None`: it opens no
// entry there, because the archive cannot be read, holds no entry of that
// name, or holds one that it does not open. `Some(None)`: it opens an entry
// that cannot be unpacked. `Some(Some(bytes))`: the unpacked bytes of the
// entry.
pub uninterp spec fn zip_entry(archive: Seq<u8>, path: Seq<char>) -> Option<Option<Seq<u8>>>;

// The archive that the zip writer makes of one entry, or nothing where it
// fails.
pub uninterp spec fn zip_packed(path: Seq<char>, content: Seq<u8>) -> Option<Seq<u8>>;

/// Whether an archive holds `content` under `path` and nothing under any
/// other path.
pub open spec fn holds_only(archive: Seq<u8>, path: Seq<char>, content: Seq<u8>) -> bool {
    &&& zip_entry(archive, path) == Some(Some(content))
    &&& forall|other: Seq<char>| other != path ==> (#[trigger] zip_entry(archive, other)) is None
}

/// The path of the project entry at the given attempt to find it: first the
/// spelling with a backslash, then the one with a slash, then no more.
pub open spec fn spec_entry_path(attempt: int) -> Option<Seq<char>> {
    if attempt == 0 {
        Some("Project\\sequence.json"@)
    } else if attempt == 1 {
        Some("Project/sequence.json"@)
    } else {
        None
    }
}

/// The project entry of an archive: the entry that the reader opens under
/// the path with a backslash, else the one that it opens under the path with a
/// slash. The entry is chosen before it is unpacked: one that is opened and
/// cannot be unpacked is not passed over for the other spelling. Nothing where
/// no entry is opened, or the chosen one cannot be unpacked.
pub open spec fn sequence_entry(archive: Seq<u8>) -> Option<Seq<u8>> {
    match zip_entry(archive, "Project\\sequence.json"@) {
        Some(unpacked) => unpacked,
        None => match zip_entry(archive, "Project/sequence.json"@) {
            Some(unpacked) => unpacked,
            None => None,
        },
    }
}

/// What to do once a lookup of the project entry has ended.
pub enum LookupStep {
    /// Look under this path next.
    Retry(&'static str),
    /// The entry was found; these are its bytes.
    Found(Vec<u8>),
    /// The entry is under none of the accepted paths, or the archive cannot
    /// be read.
    Failed(ConvertError),
}

/// Opens `archive` with `zip::ZipArchive::new`, opens the entry with
/// `ZipArchive::by_name`, and reads it to its end with `Read::read_to_end`.
/// The contract claims only that the outcome is settled by the bytes of the
/// archive and the path: the reader keeps no state and asks nothing of its
/// surroundings. The outer failure is that of opening, the inner one that of
/// unpacking.
///
/// `by_name` unwraps what its helper returns, and panics on an entry that
/// carries AES data without being marked as encrypted. `by_name_decrypt` goes
/// through the same helper without the `unwrap` and reports an invalid password
/// there; it is called first, and where it reports one, the entry is refused
/// with the failure that `by_name` gives for an entry that needs a password.
/// Everywhere else `by_name` returns, and decides.
#[verifier::external_body]
fn read_zip_entry(archive: &[u8], path: &str) -> (r: Result<
    Result<Vec<u8>, zip::result::ZipError>,
    zip::result::ZipError,
>)
    ensures
        match r {
            Ok(Ok(bytes)) => zip_entry(archive@, path@) == Some(Some(bytes@)),
            Ok(Err(_)) => zip_entry(archive@, path@) == Some(None::<Seq<u8>>),
            Err(_) => zip_entry(archive@, path@) is None,
        },
{
    let mut z = zip::ZipArchive::new(std::io::Cursor::new(archive))?;
    if z.by_name_decrypt(path, &[])?.is_err() {
        let needed = zip::result::ZipError::PASSWORD_REQUIRED;
        return Err(zip::result::ZipError::UnsupportedArchive(needed));
    }
    let mut entry = z.by_name(path)?;
    let mut bytes = Vec::new();
    Ok(match std::io::Read::read_to_end(&mut entry, &mut bytes) {
        Ok(_) => Ok(bytes),
        Err(e) => Err(zip::result::ZipError::from(e)),
    })
}

/// Makes an archive in memory with `zip::ZipWriter`: `start_file` under `path`
/// with the default options, `write_all` of `content`, `finish`. The contract
/// claims two things. The outcome is settled by the path and the content: the
/// writer works in memory, and the default options hold a fixed time stamp as
/// long as the `time` feature of `zip` is off, as this library asks for it.
/// And an archive that was made without failure holds that one entry: the
/// reader finds `content` under `path` and nothing under another path.
///
/// The second is claimed of the one path that the library writes under. The
/// reader takes the 20 bytes in front of the archive's end record for a ZIP64
/// locator where they start with its signature; with one entry these are the
/// last 20 bytes of the path, here `roject/sequence.json`.
#[verifier::external_body]
fn write_zip_entry(path: &str, content: &[u8]) -> (r: Result<Vec<u8>, zip::result::ZipError>)
    requires
        path@ == "Project/sequence.json"@,
    ensures
        match r {
            Ok(archive) => zip_packed(path@, content@) == Some(archive@),
            Err(_) => zip_packed(path@, content@) is None,
        },
        r matches Ok(archive) ==> holds_only(archive@, path@, content@),
{
    let mut w = zip::ZipWriter::new(std::io::Cursor::new(Vec::new()));
    w.start_file(path, zip::write::FileOptions::default())?;
    std::io::Write::write_all(&mut w, content)?;
    Ok(w.finish()?.into_inner())
}

/// The path under which the project entry is written.
pub fn sequence_path() -> (r: &'static str)
    ensures
        r@ == "Project/sequence.json"@,
        Some(r@) == spec_entry_path(1),
{
    "Project/sequence.json"
}

/// The path to look under at the given attempt, counted from 0.
pub fn entry_path(attempt: usize) -> (r: Option<&'static str>)
    ensures
        match spec_entry_path(attempt as int) {
            Some(p) => r matches Some(q) && q@ == p,
            None => r is None,
        },
{
    if attempt == 0 {
        Some("Project\\sequence.json")
    } else if attempt == 1 {
        Some("Project/sequence.json")
    } else {
        None
    }
}

/// Decides how the search goes on after the lookup at `attempt` has ended in
/// `found`. An entry that was opened ends the search: with its bytes, or with
/// the failure of unpacking it. Where none was opened, the next spelling of the
/// path is tried; after the last one the search ends with the failure of that
/// last lookup.
pub fn after_lookup(
    attempt: usize,
    found: Result<Result<Vec<u8>, zip::result::ZipError>, zip::result::ZipError>,
) -> (r: LookupStep)
    ensures
        match found {
            Ok(Ok(bytes)) => r == LookupStep::Found(bytes),
            Ok(Err(e)) => r == LookupStep::Failed(ConvertError::ZipError(e)),
            Err(e) => match spec_entry_path(attempt + 1) {
                Some(p) => r matches LookupStep::Retry(q) && q@ == p,
                None => r == LookupStep::Failed(ConvertError::ZipError(e)),
            },
        },
{
    match found {
        Ok(Ok(bytes)) => LookupStep::Found(bytes),
        Ok(Err(e)) => LookupStep::Failed(ConvertError::from(e)),
        Err(e) => {
            let next = if attempt < 1 {
                entry_path(attempt + 1)
            } else {
                None
            };
            match next {
                Some(path) => LookupStep::Retry(path),
                None => LookupStep::Failed(ConvertError::from(e)),
            }
        },
    }
}

/// Finds the project entry in the bytes of an archive and gives its bytes:
/// the JSON text of the project. Fails with the archive's own failure where
/// no entry is opened under either path, or the one that is opened cannot be
/// unpacked.
pub fn read_sequence(archive: &[u8]) -> (r: Result<Vec<u8>, ConvertError>)
    ensures
        match sequence_entry(archive@) {
            Some(bytes) => r matches Ok(found) && found@ == bytes,
            None => r matches Err(ConvertError::ZipError(_)),
        },
{
    let mut attempt: usize = 0;
    let mut path: &'static str = "Project\\sequence.json";
    loop
        invariant
            attempt <= 1,
            Some(path@) == spec_entry_path(attempt as int),
            attempt == 1 ==> zip_entry(archive@, "Project\\sequence.json"@) is None,
        decreases 2 - attempt,
    {
        match after_lookup(attempt, read_zip_entry(archive, path)) {
            LookupStep::Found(bytes) => {
                return Ok(bytes);
            },
            LookupStep::Failed(e) => {
                return Err(e);
            },
            LookupStep::Retry(next) => {
                attempt += 1;
                path = next;
            },
        }
    }
}

/// Packs the JSON text of a project into an archive, under the path with a
/// slash. It succeeds exactly where the zip writer does, and gives the archive
/// that the writer made; that archive holds the text as its one entry, and
/// `read_sequence` finds it again.
pub fn pack_sequence(json: &[u8]) -> (r: Result<Vec<u8>, ConvertError>)
    ensures
        match zip_packed("Project/sequence.json"@, json@) {
            Some(archive) => r matches Ok(packed) && packed@ == archive,
            None => r matches Err(ConvertError::ZipError(_)),
        },
        r matches Ok(archive) ==> {
            &&& holds_only(archive@, "Project/sequence.json"@, json@)
            &&& sequence_entry(archive@) == Some(json@)
        },
{
    let path = sequence_path();
    proof {
        reveal_strlit("Project/sequence.json");
        reveal_strlit("Project\\sequence.json");
    }
    match write_zip_entry(path, json) {
        Ok(archive) => Ok(archive),
        Err(e) => Err(ConvertError::from(e)),
    }
}

} // verus!
