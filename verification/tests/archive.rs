use std::io::{Cursor, Read, Write};
use vocaloid::archive::{
    after_lookup, entry_path, pack_sequence, read_sequence, sequence_path, LookupStep,
};
use vocaloid::ConvertError;
use zip::result::ZipError;
use zip::unstable::write::FileOptionsExt;

/// Packs one entry into an archive in memory.
fn archive_with(path: &str, content: &[u8]) -> Vec<u8> {
    let mut w = zip::ZipWriter::new(Cursor::new(Vec::new()));
    w.start_file(path, zip::write::FileOptions::default()).unwrap();
    w.write_all(content).unwrap();
    w.finish().unwrap().into_inner()
}

fn read_entry(archive: &[u8], path: &str) -> Result<Vec<u8>, ZipError> {
    let mut z = zip::ZipArchive::new(Cursor::new(archive))?;
    let mut entry = z.by_name(path)?;
    let mut bytes = Vec::new();
    entry.read_to_end(&mut bytes)?;
    Ok(bytes)
}

/// Opens an entry, and unpacks it where it was opened.
fn open_and_unpack(archive: &[u8], path: &str) -> Result<Result<Vec<u8>, ZipError>, ZipError> {
    let mut z = zip::ZipArchive::new(Cursor::new(archive))?;
    let mut entry = z.by_name(path)?;
    let mut bytes = Vec::new();
    Ok(match entry.read_to_end(&mut bytes) {
        Ok(_) => Ok(bytes),
        Err(e) => Err(ZipError::from(e)),
    })
}

/// An archive with the two entries, stored as they are, in which the entry
/// under the path with a backslash no longer matches its checksum.
fn archive_with_damaged_backslash_entry() -> Vec<u8> {
    let stored =
        zip::write::FileOptions::default().compression_method(zip::CompressionMethod::Stored);
    let mut w = zip::ZipWriter::new(Cursor::new(Vec::new()));
    w.start_file("Project\\sequence.json", stored).unwrap();
    w.write_all(b"BACKSLASH-CONTENT").unwrap();
    w.start_file("Project/sequence.json", stored).unwrap();
    w.write_all(b"slash").unwrap();
    let mut archive = w.finish().unwrap().into_inner();
    let at = archive.windows(17).position(|w| w == b"BACKSLASH-CONTENT").unwrap();
    archive[at] = b'X';
    archive
}

/// Looks for the project entry as the library directs.
fn find_sequence(archive: &[u8]) -> Result<Vec<u8>, ConvertError> {
    let mut attempt = 0;
    let mut path = entry_path(0).unwrap();
    loop {
        match after_lookup(attempt, open_and_unpack(archive, path)) {
            LookupStep::Found(bytes) => return Ok(bytes),
            LookupStep::Retry(next) => {
                attempt += 1;
                path = next;
            }
            LookupStep::Failed(e) => return Err(e),
        }
    }
}

#[test]
fn entry_is_written_under_the_path_with_a_slash() {
    assert_eq!(sequence_path(), "Project/sequence.json");
}

#[test]
fn entry_is_looked_for_under_two_paths() {
    assert_eq!(entry_path(0), Some("Project\\sequence.json"));
    assert_eq!(entry_path(1), Some("Project/sequence.json"));
    assert_eq!(entry_path(2), None);
    assert_eq!(entry_path(usize::MAX), None);
}

#[test]
fn found_entry_ends_the_search() {
    match after_lookup(0, Ok(Ok(vec![1, 2, 3]))) {
        LookupStep::Found(bytes) => assert_eq!(bytes, vec![1, 2, 3]),
        _ => panic!("the search should have ended"),
    }
    assert!(matches!(after_lookup(1, Ok(Ok(vec![]))), LookupStep::Found(_)));
}

#[test]
fn first_miss_leads_to_the_second_path() {
    match after_lookup(0, Err(ZipError::FileNotFound)) {
        LookupStep::Retry(path) => assert_eq!(path, "Project/sequence.json"),
        _ => panic!("the second path should have been tried"),
    }
}

#[test]
fn second_miss_is_a_not_found_failure() {
    match after_lookup(1, Err(ZipError::FileNotFound)) {
        LookupStep::Failed(ConvertError::ZipError(ZipError::FileNotFound)) => {}
        _ => panic!("the search should have failed"),
    }
    assert!(matches!(
        after_lookup(7, Err(ZipError::InvalidArchive("broken"))),
        LookupStep::Failed(ConvertError::ZipError(ZipError::InvalidArchive("broken")))
    ));
}

#[test]
fn entry_is_found_under_either_spelling() {
    let json = b"{\"title\":\"x\"}";
    assert_eq!(find_sequence(&archive_with(sequence_path(), json)).unwrap(), json);
    assert_eq!(find_sequence(&archive_with("Project\\sequence.json", json)).unwrap(), json);
}

#[test]
fn archive_without_the_entry_is_a_not_found_failure() {
    let other = archive_with("Project/other.json", b"{}");
    assert!(matches!(
        find_sequence(&other),
        Err(ConvertError::ZipError(ZipError::FileNotFound))
    ));
}

#[test]
fn bytes_that_are_no_archive_are_an_archive_failure() {
    assert!(matches!(find_sequence(b"not a zip"), Err(ConvertError::ZipError(_))));
}

#[test]
fn packed_project_is_found_again() {
    let json = b"{\"title\":\"x\",\"tracks\":[]}";
    let archive = pack_sequence(json).unwrap();
    assert_ne!(archive.as_slice(), &json[..]);
    assert_eq!(&archive[..2], b"PK");
    assert_eq!(read_sequence(&archive).unwrap(), json);
    assert_eq!(find_sequence(&archive).unwrap(), json);
    assert_eq!(read_entry(&archive, "Project/sequence.json").unwrap(), json);
    assert!(matches!(read_entry(&archive, "Project\\sequence.json"), Err(ZipError::FileNotFound)));
}

#[test]
fn empty_and_large_texts_are_packed_and_found() {
    assert_eq!(read_sequence(&pack_sequence(b"").unwrap()).unwrap(), b"");
    let large: Vec<u8> = (0..200_000u32).map(|i| (i % 251) as u8).collect();
    let archive = pack_sequence(&large).unwrap();
    assert!(archive.len() < large.len());
    assert_eq!(read_sequence(&archive).unwrap(), large);
}

#[test]
fn project_entry_is_read_under_either_spelling() {
    let json = b"[1,2,3]";
    assert_eq!(read_sequence(&archive_with("Project/sequence.json", json)).unwrap(), json);
    assert_eq!(read_sequence(&archive_with("Project\\sequence.json", json)).unwrap(), json);
}

#[test]
fn spelling_with_a_backslash_is_tried_first() {
    let mut w = zip::ZipWriter::new(Cursor::new(Vec::new()));
    w.start_file("Project/sequence.json", zip::write::FileOptions::default()).unwrap();
    w.write_all(b"slash").unwrap();
    w.start_file("Project\\sequence.json", zip::write::FileOptions::default()).unwrap();
    w.write_all(b"backslash").unwrap();
    let archive = w.finish().unwrap().into_inner();
    assert_eq!(read_sequence(&archive).unwrap(), b"backslash");
}

#[test]
fn missing_entry_and_broken_archive_are_archive_failures() {
    let other = archive_with("Project/other.json", b"{}");
    assert!(matches!(
        read_sequence(&other),
        Err(ConvertError::ZipError(ZipError::FileNotFound))
    ));
    assert!(matches!(read_sequence(b"not a zip"), Err(ConvertError::ZipError(_))));
    assert!(matches!(read_sequence(b""), Err(ConvertError::ZipError(_))));
    let mut cut = pack_sequence(b"{}").unwrap();
    cut.truncate(cut.len() / 2);
    assert!(matches!(read_sequence(&cut), Err(ConvertError::ZipError(_))));
}

#[test]
fn opened_entry_that_cannot_be_unpacked_ends_the_search() {
    let broken = std::io::Error::new(std::io::ErrorKind::Other, "Invalid checksum");
    match after_lookup(0, Ok(Err(ZipError::Io(broken)))) {
        LookupStep::Failed(ConvertError::ZipError(ZipError::Io(e))) => {
            assert_eq!(e.to_string(), "Invalid checksum")
        }
        _ => panic!("the search should have failed"),
    }
    assert!(matches!(
        after_lookup(1, Ok(Err(ZipError::InvalidArchive("x")))),
        LookupStep::Failed(ConvertError::ZipError(ZipError::InvalidArchive("x")))
    ));
}

#[test]
fn damaged_entry_is_not_passed_over_for_the_other_spelling() {
    let archive = archive_with_damaged_backslash_entry();
    assert_eq!(read_entry(&archive, "Project/sequence.json").unwrap(), b"slash");
    assert!(matches!(open_and_unpack(&archive, "Project\\sequence.json"), Ok(Err(_))));
    assert!(matches!(read_sequence(&archive), Err(ConvertError::ZipError(ZipError::Io(_)))));
    assert!(matches!(find_sequence(&archive), Err(ConvertError::ZipError(ZipError::Io(_)))));
}

#[test]
fn entry_that_needs_a_password_is_not_opened() {
    let locked = zip::write::FileOptions::default().with_deprecated_encryption(b"");
    let mut w = zip::ZipWriter::new(Cursor::new(Vec::new()));
    w.start_file("Project/sequence.json", locked).unwrap();
    w.write_all(b"{}").unwrap();
    let archive = w.finish().unwrap().into_inner();
    assert!(matches!(
        read_entry(&archive, "Project/sequence.json"),
        Err(ZipError::UnsupportedArchive(_))
    ));
    assert!(matches!(
        read_sequence(&archive),
        Err(ConvertError::ZipError(ZipError::UnsupportedArchive(_)))
    ));

    let mut w = zip::ZipWriter::new(Cursor::new(Vec::new()));
    w.start_file("Project\\sequence.json", locked).unwrap();
    w.write_all(b"locked").unwrap();
    w.start_file("Project/sequence.json", zip::write::FileOptions::default()).unwrap();
    w.write_all(b"open").unwrap();
    let archive = w.finish().unwrap().into_inner();
    assert_eq!(read_sequence(&archive).unwrap(), b"open");
    assert_eq!(find_sequence(&archive).unwrap(), b"open");
}

#[test]
fn packing_is_repeatable() {
    let json = b"{\"title\":\"x\"}";
    assert_eq!(pack_sequence(json).unwrap(), pack_sequence(json).unwrap());
    assert_ne!(pack_sequence(json).unwrap(), pack_sequence(b"{}").unwrap());
}
