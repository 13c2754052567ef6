//! Trusted boundary to the zip container format. The archive arrives as plain
//! bytes already in memory; what those bytes parse to is named by
//! uninterpreted functions, and the two wrappers below relate the real
//! library's answers to those names. Everything downstream of the answers is
//! verified against them.

use vstd::prelude::*;

verus! {

/// Whether `zip::ZipArchive::new` accepts these bytes as a zip container.
pub uninterp spec fn zip_valid(bytes: Seq<u8>) -> bool;

/// The entry names a valid container holds, in archive order.
pub uninterp spec fn zip_names(bytes: Seq<u8>) -> Seq<Seq<char>>;

/// The decompressed content of the named entry, or `None` when the entry is
/// absent or its data cannot be extracted.
pub uninterp spec fn zip_entry_data(bytes: Seq<u8>, name: Seq<char>) -> Option<Seq<u8>>;

/// Relies on `zip::ZipArchive::new` and `ZipArchive::file_names`: `new` parses
/// the central directory of the byte slice and errs exactly when the bytes are
/// not a valid container; `file_names` yields the names of all entries.
#[verifier::external_body]
pub fn zip_entry_names(bytes: &Vec<u8>) -> (r: Option<Vec<String>>)
    ensures
        r matches Some(names) ==> zip_valid(bytes@) && names@.map_values(|n: String| n@)
            == zip_names(bytes@),
        r is None <==> !zip_valid(bytes@),
{
    match zip::ZipArchive::new(std::io::Cursor::new(bytes.as_slice())) {
        Ok(archive) => Some(archive.file_names().map(String::from).collect()),
        Err(_) => None,
    }
}

/// Relies on `zip::ZipArchive::by_name` and `std::io::Read::read_to_end`:
/// `by_name` errs with `FileNotFound` when no entry has this name, and the
/// returned reader decompresses the entry's data.
#[verifier::external_body]
pub fn zip_extract_entry(bytes: &Vec<u8>, name: &str) -> (r: Option<Vec<u8>>)
    requires
        zip_valid(bytes@),
    ensures
        r matches Some(d) ==> zip_entry_data(bytes@, name@) == Some(d@),
        r is None <==> zip_entry_data(bytes@, name@) is None,
{
    let mut archive = match zip::ZipArchive::new(std::io::Cursor::new(bytes.as_slice())) {
        Ok(a) => a,
        Err(_) => return None,
    };
    let mut entry = match archive.by_name(name) {
        Ok(e) => e,
        Err(_) => return None,
    };
    let mut data = Vec::new();
    match std::io::Read::read_to_end(&mut entry, &mut data) {
        Ok(_) => Some(data),
        Err(_) => None,
    }
}

} // verus!
