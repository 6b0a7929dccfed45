use vstd::prelude::*;
use crate::error::ProtoError;
use crate::text::{spec_find, find_char, to_chars, chars_eq_str, ends_with_str, spec_ends_with,
    sub_chars};
use crate::archive::{spec_extension, extension_start, unpack};
use crate::installer::join_path;
use crate::version::{spec_u64_digits, u64_to_string};
use crate::host;

verus! {

/// The owner part of a `owner/name` plugin locator: everything before
/// the first `/` (the whole text when there is none).
pub fn extract_prefix_from_slug<'a>(slug: &'a str) -> (r: &'a str)
    ensures
        r@ == slug@.subrange(0, spec_find(slug@, '/', 0)),
{
    let v = to_chars(slug);
    let k = find_char(&v, '/', 0);
    slug.substring_char(0, k)
}

/// The package part of a `owner/name` plugin locator: the segment
/// between the first `/` (which must be present) and the second, or
/// the end when there is no second.
pub fn extract_suffix_from_slug<'a>(slug: &'a str) -> (r: &'a str)
    requires
        spec_find(slug@, '/', 0) < slug@.len(),
    ensures
        r@ == slug@.subrange(
            spec_find(slug@, '/', 0) + 1,
            spec_find(slug@, '/', spec_find(slug@, '/', 0) + 1),
        ),
{
    let v = to_chars(slug);
    let k = find_char(&v, '/', 0);
    let n = v.len();
    proof {
        assert(k < n);
        assert(k + 1 <= n <= usize::MAX);
    }
    let m = find_char(&v, '/', k + 1);
    slug.substring_char(k + 1, m)
}

/// The extension a downloaded plugin source is cached under: its own
/// recognised manifest extension, or `.wasm` for everything else.
pub open spec fn spec_cache_extension(s: Seq<char>) -> Seq<char> {
    if spec_ends_with(s, ".toml"@) {
        ".toml"@
    } else if spec_ends_with(s, ".json"@) {
        ".json"@
    } else if spec_ends_with(s, ".yaml"@) {
        ".yaml"@
    } else if spec_ends_with(s, ".yml"@) {
        ".yml"@
    } else {
        ".wasm"@
    }
}

pub fn determine_cache_extension<'a>(value: &'a str) -> (r: &'a str)
    ensures
        r@ == spec_cache_extension(value@),
{
    let v = to_chars(value);
    if ends_with_str(&v, ".toml") {
        ".toml"
    } else if ends_with_str(&v, ".json") {
        ".json"
    } else if ends_with_str(&v, ".yaml") {
        ".yaml"
    } else if ends_with_str(&v, ".yml") {
        ".yml"
    } else {
        ".wasm"
    }
}

/// A dash turned into an underscore; every other character unchanged.
pub open spec fn spec_underscore(c: char) -> char {
    if c == '-' {
        '_'
    } else {
        c
    }
}

/// The file stem a plugin module is cached under: the name folded to
/// lower case, dashes turned into underscores, and `_plugin` appended
/// unless already present.
pub open spec fn spec_wasm_stem(s: Seq<char>) -> Seq<char> {
    let t = host::lower_of(s).map_values(|c: char| spec_underscore(c));
    if spec_ends_with(t, "_plugin"@) {
        t
    } else {
        t + "_plugin"@
    }
}

pub fn create_wasm_file_stem(name: &str) -> (r: String)
    ensures
        r@ == spec_wasm_stem(name@),
{
    let lowered = host::lowercase(name);
    let v = to_chars(lowered.as_str());
    let mut t: Vec<char> = Vec::new();
    let mut i: usize = 0;
    while i < v.len()
        invariant
            0 <= i <= v@.len(),
            v@ == host::lower_of(name@),
            t@ == v@.subrange(0, i as int).map_values(|c: char| spec_underscore(c)),
        decreases v@.len() - i,
    {
        let c = v[i];
        if c == '-' {
            t.push('_');
        } else {
            t.push(c);
        }
        i += 1;
        proof {
            assert(t@ =~= v@.subrange(0, i as int).map_values(|c: char| spec_underscore(c)));
        }
    }
    proof {
        assert(v@.subrange(0, v@.len() as int) =~= v@);
    }
    let mut r = host::string_from_chars(&t);
    if !ends_with_str(&t, "_plugin") {
        r.append("_plugin");
    }
    r
}

/// The file name at the end of a URL's path: what follows the last `/`
/// before any query or fragment; `None` when that is empty.
pub open spec fn spec_url_file_name(u: Seq<char>) -> Option<Seq<char>> {
    let q = spec_find(u, '?', 0);
    let h = spec_find(u, '#', 0);
    let cut = if q < h { q } else { h };
    let base = u.subrange(0, cut);
    let k = crate::archive::spec_rfind(base, '/');
    if k + 1 < cut {
        Some(base.subrange(k + 1, cut))
    } else {
        None
    }
}

pub fn url_file_name(url: &String) -> (r: Option<String>)
    ensures
        match r {
            Option::Some(f) => spec_url_file_name(url@) == Some(f@),
            Option::None => spec_url_file_name(url@) is None,
        },
{
    let v = to_chars(url.as_str());
    let q = find_char(&v, '?', 0);
    let h = find_char(&v, '#', 0);
    let cut: usize = if q < h {
        q
    } else {
        h
    };
    let base = sub_chars(&v, 0, cut);
    let k = crate::archive::rfind_in(&base, '/');
    let start: usize = match k {
        Option::Some(p) => p + 1,
        Option::None => 0,
    };
    if start < cut {
        proof {
            assert(url@.subrange(start as int, cut as int) =~= base@.subrange(
                start as int,
                cut as int,
            ));
        }
        Some(url.as_str().substring_char(start, cut).to_owned())
    } else {
        None
    }
}

/// Classify an HTTP status for a download: 404 is the typed "not
/// found"; any other non-success status is a generic download failure
/// carrying the status number; success is silence.
pub fn classify_download_status(status: u16, url: &String) -> (r: Result<(), ProtoError>)
    ensures
        status == 404 ==> (r matches Err(e) && e matches ProtoError::DownloadNotFound(u) && u@
            == url@),
        status != 404 && 200 <= status < 300 ==> r is Ok,
        !(200 <= status < 300) && status != 404 ==> (r matches Err(e) && e matches
            ProtoError::DownloadFailed(u, s) && u@ == url@ && s@ == spec_u64_digits(
            status as u64,
        )),
{
    if status == 404 {
        Err(ProtoError::DownloadNotFound(url.clone()))
    } else if 200 <= status && status < 300 {
        Ok(())
    } else {
        Err(ProtoError::DownloadFailed(url.clone(), u64_to_string(status as u64)))
    }
}

/// The cached-fetch decision of the host's HTTP cache: a cached
/// response is reused only while it exists and is no older than the
/// time-to-live; otherwise the fetch goes out again.
pub open spec fn spec_should_refetch(cached_exists: bool, age_secs: u64, ttl_secs: u64) -> bool {
    !cached_exists || age_secs > ttl_secs
}

pub fn plan_cached_fetch(cached_exists: bool, age_secs: u64, ttl_secs: u64) -> (r: bool)
    ensures
        r == spec_should_refetch(cached_exists, age_secs, ttl_secs),
{
    !cached_exists || age_secs > ttl_secs
}

/// What to do with a downloaded plugin file, keyed on its extension.
#[derive(Clone, Copy, Debug, PartialEq, Eq, Structural)]
pub enum PluginTransfer {
    /// A plugin module or manifest: move it into the cache as-is.
    MoveAsIs,
    /// An archive wrapping the plugin module: unpack it and pull the
    /// module out.
    UnpackArchive,
    /// An extension no handler recognises.
    Unsupported,
    /// No extension at all.
    NoExtension,
}

/// `.wasm` and the manifest extensions move as-is; the archive
/// extensions are unpacked; anything else is refused.
pub open spec fn spec_transfer_of(p: Seq<char>) -> PluginTransfer {
    match spec_extension(p) {
        Option::None => PluginTransfer::NoExtension,
        Option::Some(e) => if e == "wasm"@ || e == "toml"@ || e == "json"@ || e == "yaml"@ || e
            == "yml"@ {
            PluginTransfer::MoveAsIs
        } else if e == "tar"@ || e == "gz"@ || e == "xz"@ || e == "tgz"@ || e == "txz"@ || e
            == "zip"@ {
            PluginTransfer::UnpackArchive
        } else {
            PluginTransfer::Unsupported
        },
    }
}

pub fn transfer_of(v: &Vec<char>) -> (r: PluginTransfer)
    ensures
        r == spec_transfer_of(v@),
{
    match extension_start(v) {
        Option::None => PluginTransfer::NoExtension,
        Option::Some(k) => {
            let e = sub_chars(v, k, v.len());
            if chars_eq_str(&e, "wasm") || chars_eq_str(&e, "toml") || chars_eq_str(&e, "json")
                || chars_eq_str(&e, "yaml") || chars_eq_str(&e, "yml") {
                PluginTransfer::MoveAsIs
            } else if chars_eq_str(&e, "tar") || chars_eq_str(&e, "gz") || chars_eq_str(&e, "xz")
                || chars_eq_str(&e, "tgz") || chars_eq_str(&e, "txz") || chars_eq_str(&e, "zip") {
                PluginTransfer::UnpackArchive
            } else {
                PluginTransfer::Unsupported
            }
        },
    }
}

fn find_wasm_name(names: &Vec<String>) -> (r: Option<String>)
    ensures
        r matches Some(n) ==> spec_ends_with(n@, ".wasm"@) && exists|i: int|
            0 <= i < names@.len() && (#[trigger] names@[i])@ == n@,
        r is None ==> forall|i: int|
            0 <= i < names@.len() ==> !spec_ends_with((#[trigger] names@[i])@, ".wasm"@),
{
    let mut i: usize = 0;
    while i < names.len()
        invariant
            0 <= i <= names@.len(),
            forall|j: int| 0 <= j < i ==> !spec_ends_with((#[trigger] names@[j])@, ".wasm"@),
        decreases names@.len() - i,
    {
        let nv = to_chars(names[i].as_str());
        if ends_with_str(&nv, ".wasm") {
            return Some(names[i].clone());
        }
        i += 1;
    }
    None
}

/// Place a downloaded plugin file at its cache destination: recognised
/// module and manifest files move as-is; an archive is unpacked beside
/// the destination and the plugin module inside it is moved out; other
/// extensions, or none, are refused.
pub fn move_or_unpack_download(temp_path: &String, dest_path: &String) -> (r: Result<
    (),
    ProtoError,
>)
    ensures
        spec_transfer_of(temp_path@) == PluginTransfer::Unsupported ==> (r matches Err(e)
            && e matches ProtoError::UnsupportedPluginFormat(x) && Some(x@) == spec_extension(
            temp_path@,
        )),
        spec_transfer_of(temp_path@) == PluginTransfer::NoExtension ==> r == Err::<
            (),
            ProtoError,
        >(ProtoError::UnknownPluginFormat),
        spec_transfer_of(temp_path@) == PluginTransfer::MoveAsIs ==> (r is Ok || (r matches Err(e)
            && e matches ProtoError::Fs(p, _) && p@ == dest_path@)),
        r matches Err(e) ==> (e matches ProtoError::UnsupportedPluginFormat(_) || e
            == ProtoError::UnknownPluginFormat || e matches ProtoError::Fs(_, _) || e matches
            ProtoError::Zip(_, _) || e matches ProtoError::UnsupportedArchiveFormat(_, _)
            || e matches ProtoError::Message(_)),
{
    let v = to_chars(temp_path.as_str());
    match transfer_of(&v) {
        PluginTransfer::MoveAsIs => {
            match host::rename(temp_path, dest_path) {
                Ok(()) => Ok(()),
                Err(m) => Err(ProtoError::Fs(dest_path.clone(), m)),
            }
        },
        PluginTransfer::UnpackArchive => {
            let mut extract_dir = dest_path.clone();
            extract_dir.append(".contents");
            match unpack(temp_path, &extract_dir, None) {
                Ok(_) => {},
                Err(e) => {
                    return Err(e);
                },
            }
            let names = match host::read_dir_names(&extract_dir) {
                Ok(ns) => ns,
                Err(m) => {
                    return Err(ProtoError::Fs(extract_dir, m));
                },
            };
            match find_wasm_name(&names) {
                Option::Some(name) => {
                    let found = join_path(&extract_dir, &name);
                    match host::rename(&found, dest_path) {
                        Ok(()) => Ok(()),
                        Err(m) => Err(ProtoError::Fs(dest_path.clone(), m)),
                    }
                },
                Option::None => Err(ProtoError::Message(
                    "no plugin module found inside the downloaded archive".to_owned(),
                )),
            }
        },
        PluginTransfer::Unsupported => {
            let k = match extension_start(&v) {
                Option::Some(k) => k,
                Option::None => {
                    proof {
                        assert(false);
                    }
                    0
                },
            };
            let ext = temp_path.as_str().substring_char(k, v.len()).to_owned();
            Err(ProtoError::UnsupportedPluginFormat(ext))
        },
        PluginTransfer::NoExtension => Err(ProtoError::UnknownPluginFormat),
    }
}

} // verus!
