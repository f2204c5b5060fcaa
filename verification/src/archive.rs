//! Fetch-and-install core: extracting the database payload from a
//! downloaded release archive.
//!
//! The archive is a ZIP container; the payload is the decompressed content
//! of its first entry (entry index zero).  Decompression is done by the
//! `zip` crate behind a trusted wrapper; what it yields is a function of
//! the archive bytes alone, named `first_entry_of`.

use vstd::prelude::*;

verus! {

/// The decompressed bytes of the first entry of the ZIP archive held in
/// `archive`, or `None` when the archive is malformed, empty, or its first
/// entry cannot be decompressed.
pub uninterp spec fn first_entry_of(archive: Seq<u8>) -> Option<Seq<u8>>;

/// Why an install could not produce a payload.
#[derive(PartialEq, Eq, Structural, Clone, Copy, Debug)]
pub enum InstallError {
    /// The archive is malformed, holds no entry, or its first entry cannot
    /// be decompressed.
    BadArchive,
}

/// Relies on zip::ZipArchive::new, ZipArchive::by_index and
/// std::io::Read::read_to_end on the returned entry: reading a ZIP held in
/// a byte buffer is deterministic, so the decompressed first entry is a
/// function of the archive bytes alone, here named `first_entry_of`.
#[verifier::external_body]
fn read_first_entry(archive: &Vec<u8>) -> (payload: Option<Vec<u8>>)
    ensures
        match payload {
            Some(p) => first_entry_of(archive@) == Some(p@),
            None => first_entry_of(archive@) is None,
        },
{
    let reader = std::io::Cursor::new(archive.as_slice());
    let mut opened = zip::ZipArchive::new(reader).ok()?;
    let mut entry = opened.by_index(0).ok()?;
    let mut payload = Vec::new();
    std::io::Read::read_to_end(&mut entry, &mut payload).ok()?;
    Some(payload)
}

/// Extracts the database payload from a downloaded release archive: the
/// decompressed bytes of the archive's first entry.
///
/// Failures are loud, unlike the resolver's: a malformed or empty archive
/// is reported as an error, never swallowed.  Nothing is written anywhere;
/// the caller alone decides what to do with the payload, so a failed
/// extraction cannot touch the destination file.
pub fn extract_payload(archive: &Vec<u8>) -> (result: Result<Vec<u8>, InstallError>)
    ensures
        match result {
            Ok(p) => first_entry_of(archive@) == Some(p@),
            Err(e) => first_entry_of(archive@) is None && e == InstallError::BadArchive,
        },
{
    match read_first_entry(archive) {
        Some(payload) => Ok(payload),
        None => Err(InstallError::BadArchive),
    }
}

} // verus!
