use vstd::prelude::*;
use sha2::Digest;

verus! {

/// The SHA-256 digest of a byte sequence: a pure function of the bytes
/// alone, left unstated here and computed only by the wrapper below.
pub uninterp spec fn sha256_of(data: Seq<u8>) -> Seq<u8>;

/// Relies on sha2's `Sha256`: the digest is a function of the input
/// bytes alone and is 32 bytes long.
#[verifier::external_body]
pub fn sha256(data: &Vec<u8>) -> (r: Vec<u8>)
    ensures
        r@ == sha256_of(data@),
        r@.len() == 32,
{
    let mut hasher = sha2::Sha256::new();
    hasher.update(data.as_slice());
    hasher.finalize().to_vec()
}

/// The Unicode lower-case folding of a character sequence: a function
/// of the characters alone, left unstated here and computed only by
/// the wrapper below.
pub uninterp spec fn lower_of(s: Seq<char>) -> Seq<char>;

/// Relies on `str::to_lowercase`: the result depends on the characters
/// alone; an empty string stays empty.
#[verifier::external_body]
pub fn lowercase(s: &str) -> (r: String)
    ensures
        r@ == lower_of(s@),
        s@.len() == 0 ==> r@.len() == 0,
{
    s.to_lowercase()
}

/// Relies on `String`'s `FromIterator` impl: collecting characters
/// yields the string of exactly those characters.
#[verifier::external_body]
pub fn string_from_chars(v: &Vec<char>) -> (r: String)
    ensures
        r@ == v@,
{
    v.iter().collect()
}

/// Relies on `std::path::Path::exists`: reports whether the path exists
/// on disk right now; nothing is promised of the changing filesystem.
#[verifier::external_body]
pub fn path_exists(path: &String) -> bool {
    std::path::Path::new(path.as_str()).exists()
}

/// Relies on starbase_utils' `fs::read_file_bytes`: the file's bytes, or
/// an error description.
#[verifier::external_body]
pub fn read_file_bytes(path: &String) -> Result<Vec<u8>, String> {
    starbase_utils::fs::read_file_bytes(path.as_str()).map_err(|e| e.to_string())
}

/// Relies on starbase_utils' `fs::read_file`: the file's text, or an
/// error description.
#[verifier::external_body]
pub fn read_file_string(path: &String) -> Result<String, String> {
    starbase_utils::fs::read_file(path.as_str()).map_err(|e| e.to_string())
}

/// Relies on starbase_utils' `fs::write_file`: writes the bytes,
/// creating parent directories as needed.
#[verifier::external_body]
pub fn write_file_bytes(path: &String, data: &Vec<u8>) -> Result<(), String> {
    starbase_utils::fs::write_file(path.as_str(), data.as_slice()).map_err(|e| e.to_string())
}

/// Relies on starbase_utils' `fs::write_file`: writes the text,
/// creating parent directories as needed.
#[verifier::external_body]
pub fn write_file_text(path: &String, data: &String) -> Result<(), String> {
    starbase_utils::fs::write_file(path.as_str(), data.as_bytes()).map_err(|e| e.to_string())
}

/// Relies on starbase_utils' `fs::create_dir_all`: the directory and its
/// parents exist afterwards on success.
#[verifier::external_body]
pub fn create_dir_all(path: &String) -> Result<(), String> {
    starbase_utils::fs::create_dir_all(path.as_str()).map_err(|e| e.to_string())
}

/// Relies on starbase_utils' `fs::remove_dir_all`: removes the directory
/// recursively; a missing directory is no error.
#[verifier::external_body]
pub fn remove_dir_all(path: &String) -> Result<(), String> {
    starbase_utils::fs::remove_dir_all(path.as_str()).map_err(|e| e.to_string())
}

/// Relies on starbase_utils' `fs::rename`: moves a file, creating the
/// destination's parent directories as needed.
#[verifier::external_body]
pub fn rename(from: &String, to: &String) -> Result<(), String> {
    starbase_utils::fs::rename(from.as_str(), to.as_str()).map_err(|e| e.to_string())
}

/// Relies on starbase_utils' `fs::update_perms`: sets the file mode
/// (0o755 when none is given); a no-op on platforms without Unix modes.
#[verifier::external_body]
pub fn update_perms(path: &String, mode: Option<u32>) -> Result<(), String> {
    starbase_utils::fs::update_perms(path.as_str(), mode).map_err(|e| e.to_string())
}

/// Relies on starbase_utils' `fs::read_dir`: the file names of the
/// directory's entries, in no promised order.
#[verifier::external_body]
pub fn read_dir_names(path: &String) -> Result<Vec<String>, String> {
    let entries = starbase_utils::fs::read_dir(path.as_str()).map_err(|e| e.to_string())?;
    Ok(entries.iter().map(|e| e.file_name().to_string_lossy().to_string()).collect())
}

} // verus!
