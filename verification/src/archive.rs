use vstd::prelude::*;
use crate::error::ProtoError;
use crate::text::{to_chars, chars_eq_str, sub_chars};
use crate::host;
use std::io::Read;

verus! {

/// One entry read out of an archive: its sanitized relative path (`None`
/// when the stored name resolves outside the archive root and the entry
/// is to be skipped), its bytes, whether it is a directory, and its
/// stored Unix mode where the format carries one.
pub struct ArchiveEntry {
    pub path: Option<String>,
    pub data: Vec<u8>,
    pub is_dir: bool,
    pub mode: Option<u32>,
}

/// One archive entry as plain specification values: sanitized path,
/// bytes, directory flag, stored mode.
pub open spec fn entry_model(e: ArchiveEntry) -> (Option<Seq<char>>, Seq<u8>, bool, Option<u32>) {
    (
        match e.path {
            Option::Some(p) => Some(p@),
            Option::None => None,
        },
        e.data@,
        e.is_dir,
        e.mode,
    )
}

pub open spec fn entries_model(es: Seq<ArchiveEntry>) -> Seq<
    (Option<Seq<char>>, Seq<u8>, bool, Option<u32>),
> {
    es.map_values(|e: ArchiveEntry| entry_model(e))
}

/// The entries a zip archive's bytes hold: a function of the bytes
/// alone, left unstated here and computed only by `zip_entries`.
pub uninterp spec fn zip_entries_of(data: Seq<u8>) -> Seq<
    (Option<Seq<char>>, Seq<u8>, bool, Option<u32>),
>;

/// The entries a tarball's bytes hold: a function of the bytes alone,
/// computed only by `tar_entries`.
pub uninterp spec fn tar_entries_of(data: Seq<u8>) -> Seq<
    (Option<Seq<char>>, Seq<u8>, bool, Option<u32>),
>;

/// The gzip decompression of a byte string: a function of the bytes
/// alone, computed only by `gunzip`.
pub uninterp spec fn gunzip_of(data: Seq<u8>) -> Seq<u8>;

/// The xz decompression of a byte string: a function of the bytes
/// alone, computed only by `unxz`.
pub uninterp spec fn unxz_of(data: Seq<u8>) -> Seq<u8>;

/// Relies on zip's `ZipArchive` over the given bytes: every entry in
/// order, with `enclosed_name` as the sanitized path (`None` for names
/// that resolve outside the archive root), `unix_mode` as the stored
/// mode, and the entry's bytes.
#[verifier::external_body]
fn zip_entries(data: &Vec<u8>) -> (r: Result<Vec<ArchiveEntry>, String>)
    ensures
        r matches Ok(es) ==> entries_model(es@) == zip_entries_of(data@),
{
    let mut a = zip::ZipArchive::new(std::io::Cursor::new(data.as_slice())).map_err(|e| e.to_string())?;
    let mut out = Vec::new();
    for i in 0..a.len() {
        let mut f = a.by_index(i).map_err(|e| e.to_string())?;
        let path = f.enclosed_name().map(|p| p.to_string_lossy().to_string());
        let mut data = Vec::new();
        f.read_to_end(&mut data).map_err(|e| e.to_string())?;
        out.push(ArchiveEntry { path, is_dir: f.is_dir(), mode: f.unix_mode(), data });
    }
    Ok(out)
}

/// Relies on flate2's `GzDecoder`: the gzip-decompressed bytes.
#[verifier::external_body]
fn gunzip(data: &Vec<u8>) -> (r: Result<Vec<u8>, String>)
    ensures
        r matches Ok(b) ==> b@ == gunzip_of(data@),
{
    let mut dec = flate2::read::GzDecoder::new(std::io::Cursor::new(data.as_slice()));
    let mut out = Vec::new();
    dec.read_to_end(&mut out).map_err(|e| e.to_string())?;
    Ok(out)
}

/// Relies on xz2's `XzDecoder`: the xz-decompressed bytes.
#[verifier::external_body]
fn unxz(data: &Vec<u8>) -> (r: Result<Vec<u8>, String>)
    ensures
        r matches Ok(b) ==> b@ == unxz_of(data@),
{
    let mut dec = xz2::read::XzDecoder::new(std::io::Cursor::new(data.as_slice()));
    let mut out = Vec::new();
    dec.read_to_end(&mut out).map_err(|e| e.to_string())?;
    Ok(out)
}

/// Relies on tar's `Archive` over the given bytes: every entry of the
/// tarball in order, with its stored path, mode and bytes; an entry
/// whose stored path cannot be read is a fatal error.
#[verifier::external_body]
fn tar_entries(data: &Vec<u8>) -> (r: Result<Vec<ArchiveEntry>, String>)
    ensures
        r matches Ok(es) ==> entries_model(es@) == tar_entries_of(data@),
{
    let mut a = tar::Archive::new(std::io::Cursor::new(data.as_slice()));
    let mut out = Vec::new();
    for e in a.entries().map_err(|e| e.to_string())? {
        let mut e = e.map_err(|e| e.to_string())?;
        let path = Some(e.path().map_err(|e| e.to_string())?.to_string_lossy().to_string());
        let mut data = Vec::new();
        e.read_to_end(&mut data).map_err(|e| e.to_string())?;
        out.push(ArchiveEntry { path, is_dir: e.header().entry_type().is_dir(), mode: e.header().mode().ok(), data });
    }
    Ok(out)
}

/// The index of the last occurrence of `c` in `s`, or `-1`.
pub open spec fn spec_rfind(s: Seq<char>, c: char) -> int
    decreases s.len(),
{
    if s.len() == 0 {
        -1
    } else if s.last() == c {
        s.len() - 1
    } else {
        spec_rfind(s.drop_last(), c)
    }
}

fn rfind_char(v: &Vec<char>, c: char, end: usize) -> (r: Option<usize>)
    requires
        end <= v@.len(),
    ensures
        r is None ==> spec_rfind(v@.subrange(0, end as int), c) == -1,
        r matches Some(k) ==> k < end && spec_rfind(v@.subrange(0, end as int), c) == k,
    decreases end,
{
    if end == 0 {
        proof {
            assert(v@.subrange(0, 0) =~= Seq::<char>::empty());
        }
        None
    } else {
        proof {
            let s = v@.subrange(0, end as int);
            assert(s.last() == v@[end - 1]);
            assert(s.drop_last() =~= v@.subrange(0, end as int - 1));
        }
        if v[end - 1] == c {
            Some(end - 1)
        } else {
            rfind_char(v, c, end - 1)
        }
    }
}

/// The last occurrence of `c` in the whole of `v`, if any.
pub fn rfind_in(v: &Vec<char>, c: char) -> (r: Option<usize>)
    ensures
        r is None ==> spec_rfind(v@, c) == -1,
        r matches Some(k) ==> k < v@.len() && spec_rfind(v@, c) == k,
{
    proof {
        assert(v@.subrange(0, v@.len() as int) =~= v@);
    }
    rfind_char(v, c, v.len())
}

/// The extension of a path: what follows the last dot of its last
/// component, provided that dot is not the component's first character;
/// `None` otherwise.
pub open spec fn spec_extension(p: Seq<char>) -> Option<Seq<char>> {
    let name_start = spec_rfind(p, '/') + 1;
    let d = spec_rfind(p, '.');
    if d > name_start {
        Some(p.subrange(d + 1, p.len() as int))
    } else {
        None
    }
}

/// The start index of the extension within `v`, when there is one.
pub fn extension_start(v: &Vec<char>) -> (r: Option<usize>)
    ensures
        r is None ==> spec_extension(v@) is None,
        r matches Some(k) ==> 1 <= k <= v@.len() && spec_extension(v@) == Some(
            v@.subrange(k as int, v@.len() as int),
        ),
{
    proof {
        assert(v@.subrange(0, v@.len() as int) =~= v@);
    }
    let slash = rfind_char(v, '/', v.len());
    let dot = rfind_char(v, '.', v.len());
    let name_start: usize = match slash {
        Option::Some(k) => k + 1,
        Option::None => 0,
    };
    match dot {
        Option::Some(d) => {
            if d > name_start {
                Some(d + 1)
            } else {
                None
            }
        },
        Option::None => None,
    }
}

/// The archive formats the extractor distinguishes, keyed solely on the
/// input file's extension.
#[derive(Clone, Copy, Debug, PartialEq, Eq, Structural)]
pub enum ArchiveKind {
    Zip,
    TarGz,
    TarXz,
    NotArchive,
    Unsupported,
}

/// `.zip` is a zip archive; `.tgz`/`.gz` a gzipped tarball; `.txz`/`.xz`
/// an xz tarball; `.exe` or no extension at all is no archive (a
/// standalone binary); anything else is unsupported.
pub open spec fn spec_format_of(p: Seq<char>) -> ArchiveKind {
    match spec_extension(p) {
        Option::None => ArchiveKind::NotArchive,
        Option::Some(e) => if e == "zip"@ {
            ArchiveKind::Zip
        } else if e == "tgz"@ || e == "gz"@ {
            ArchiveKind::TarGz
        } else if e == "txz"@ || e == "xz"@ {
            ArchiveKind::TarXz
        } else if e == "exe"@ {
            ArchiveKind::NotArchive
        } else {
            ArchiveKind::Unsupported
        },
    }
}

pub fn format_of(v: &Vec<char>) -> (r: ArchiveKind)
    ensures
        r == spec_format_of(v@),
{
    match extension_start(v) {
        Option::None => ArchiveKind::NotArchive,
        Option::Some(k) => {
            let e = sub_chars(v, k, v.len());
            if chars_eq_str(&e, "zip") {
                ArchiveKind::Zip
            } else if chars_eq_str(&e, "tgz") || chars_eq_str(&e, "gz") {
                ArchiveKind::TarGz
            } else if chars_eq_str(&e, "txz") || chars_eq_str(&e, "xz") {
                ArchiveKind::TarXz
            } else if chars_eq_str(&e, "exe") {
                ArchiveKind::NotArchive
            } else {
                ArchiveKind::Unsupported
            }
        },
    }
}

/// Whether `p` starts with the path prefix `pre`, component-wise: it is
/// `pre` itself, or continues it right after a `/`.
pub open spec fn spec_has_prefix(p: Seq<char>, pre: Seq<char>) -> bool {
    p == pre || (p.len() > pre.len() && p.subrange(0, pre.len() as int) == pre && p[pre.len() as int]
        == '/')
}

/// The entry path with the prefix stripped — exactly once, and only when
/// it is present as a whole leading component.
pub open spec fn spec_strip_path_prefix(p: Seq<char>, pre: Seq<char>) -> Seq<char> {
    if p == pre {
        Seq::empty()
    } else if spec_has_prefix(p, pre) {
        p.subrange(pre.len() as int + 1, p.len() as int)
    } else {
        p
    }
}

/// The relative output path of an entry, under an optional prefix to
/// remove.
pub open spec fn spec_entry_rel(p: Seq<char>, prefix: Option<Seq<char>>) -> Seq<char> {
    match prefix {
        Option::Some(pre) => spec_strip_path_prefix(p, pre),
        Option::None => p,
    }
}

/// Joining an output directory and a relative path with `/`; an empty
/// relative path names the directory itself.
pub open spec fn spec_join(dir: Seq<char>, rel: Seq<char>) -> Seq<char> {
    if rel.len() == 0 {
        dir
    } else {
        dir + "/"@ + rel
    }
}

/// An optional prefix as a specification value.
pub open spec fn prefix_view(o: Option<String>) -> Option<Seq<char>> {
    match o {
        Option::Some(p) => Some(p@),
        Option::None => None,
    }
}

/// The texts of a vector of strings.
pub open spec fn paths_view(ps: Seq<String>) -> Seq<Seq<char>> {
    ps.map_values(|p: String| p@)
}

/// The destinations an extraction writes, in entry order: for every
/// entry with a sanitized path, the output directory joined with the
/// prefix-stripped path; entries without a sanitized path contribute
/// nothing.
pub open spec fn spec_extract_plan(
    entries: Seq<(Option<Seq<char>>, Seq<u8>, bool, Option<u32>)>,
    output_dir: Seq<char>,
    prefix: Option<Seq<char>>,
) -> Seq<Seq<char>>
    decreases entries.len(),
{
    if entries.len() == 0 {
        Seq::empty()
    } else {
        let rest = spec_extract_plan(entries.drop_last(), output_dir, prefix);
        match entries.last().0 {
            Option::Some(p) => rest.push(spec_join(output_dir, spec_entry_rel(p, prefix))),
            Option::None => rest,
        }
    }
}

/// Whether `p` is one of the destinations of the plan.
pub open spec fn spec_plan_names(
    entries: Seq<(Option<Seq<char>>, Seq<u8>, bool, Option<u32>)>,
    output_dir: Seq<char>,
    prefix: Option<Seq<char>>,
    p: Seq<char>,
) -> bool {
    exists|i: int|
        0 <= i < entries.len() && ((#[trigger] entries[i]).0 matches Some(q) && p == spec_join(
            output_dir,
            spec_entry_rel(q, prefix),
        ))
}

/// Unpacking with a prefix strips it exactly once and not recursively:
/// an entry stored as `pre/rest` lands at `output_dir/rest` — even when
/// `rest` itself begins with `pre` over again.
pub proof fn lemma_prefix_stripped_once(pre: Seq<char>, rest: Seq<char>, output_dir: Seq<char>)
    requires
        rest.len() > 0,
    ensures
        spec_entry_rel(pre + "/"@ + rest, Some(pre)) == rest,
        spec_join(output_dir, spec_entry_rel(pre + "/"@ + rest, Some(pre))) == output_dir + "/"@
            + rest,
{
    reveal_strlit("/");
    let p = pre + "/"@ + rest;
    assert(p.len() == pre.len() + 1 + rest.len());
    assert(p != pre);
    assert(p.subrange(0, pre.len() as int) =~= pre);
    assert(p[pre.len() as int] == '/');
    assert(spec_has_prefix(p, pre));
    assert(p.subrange(pre.len() as int + 1, p.len() as int) =~= rest);
}

pub fn strip_path_prefix(p: &Vec<char>, pre: &Vec<char>) -> (r: Vec<char>)
    ensures
        r@ == spec_strip_path_prefix(p@, pre@),
{
    let same = crate::text::chars_eq(p, pre);
    if same {
        Vec::new()
    } else {
        let has = p.len() > pre.len() && {
            let head = sub_chars(p, 0, pre.len());
            crate::text::chars_eq(&head, pre) && p[pre.len()] == '/'
        };
        if has {
            sub_chars(p, pre.len() + 1, p.len())
        } else {
            proof {
                assert(!spec_has_prefix(p@, pre@));
            }
            p.clone()
        }
    }
}

/// The absolute output path of one entry.
pub fn entry_dest(entry_path: &String, prefix: &Option<String>, output_dir: &String) -> (r: String)
    ensures
        r@ == spec_join(output_dir@, spec_entry_rel(entry_path@, prefix_view(*prefix))),
{
    let pv = to_chars(entry_path.as_str());
    let rel: Vec<char> = match prefix {
        Option::Some(pre) => {
            let prev = to_chars(pre.as_str());
            strip_path_prefix(&pv, &prev)
        },
        Option::None => pv,
    };
    if rel.len() == 0 {
        output_dir.clone()
    } else {
        let mut r = output_dir.clone();
        r.append("/");
        let tail = host::string_from_chars(&rel);
        r.append(tail.as_str());
        proof {
            reveal_strlit("/");
        }
        r
    }
}

/// Write the entries of an archive under `output_dir`, stripping
/// `remove_prefix` where an entry's path carries it: directory entries
/// are created, file entries are written and their stored mode
/// restored, entries without a sanitized path are skipped. Returns the
/// destinations written, exactly the extraction plan of the entries.
pub fn extract_entries(
    entries: &Vec<ArchiveEntry>,
    output_dir: &String,
    remove_prefix: &Option<String>,
) -> (r: Result<Vec<String>, ProtoError>)
    ensures
        r matches Ok(ps) ==> paths_view(ps@) == spec_extract_plan(
            entries_model(entries@),
            output_dir@,
            prefix_view(*remove_prefix),
        ),
        entries@.len() == 0 ==> r is Ok,
        r matches Err(e) ==> (e matches ProtoError::Fs(p, _) && spec_plan_names(
            entries_model(entries@),
            output_dir@,
            prefix_view(*remove_prefix),
            p@,
        )),
{
    let mut written: Vec<String> = Vec::new();
    let mut i: usize = 0;
    proof {
        assert(entries_model(entries@.take(0)) =~= Seq::empty());
        assert(paths_view(written@) =~= Seq::empty());
    }
    while i < entries.len()
        invariant
            0 <= i <= entries@.len(),
            paths_view(written@) == spec_extract_plan(
                entries_model(entries@.take(i as int)),
                output_dir@,
                prefix_view(*remove_prefix),
            ),
        decreases entries@.len() - i,
    {
        let entry = &entries[i];
        match &entry.path {
            Option::None => {},
            Option::Some(p) => {
                let dest = entry_dest(p, remove_prefix, output_dir);
                proof {
                    assert(entries_model(entries@)[i as int] == entry_model(entries@[i as int]));
                }
                if entry.is_dir {
                    match host::create_dir_all(&dest) {
                        Ok(()) => {},
                        Err(m) => {
                            return Err(ProtoError::Fs(dest, m));
                        },
                    }
                } else {
                    match host::write_file_bytes(&dest, &entry.data) {
                        Ok(()) => {},
                        Err(m) => {
                            return Err(ProtoError::Fs(dest, m));
                        },
                    }
                    match entry.mode {
                        Option::Some(m) => {
                            match host::update_perms(&dest, Some(m)) {
                                Ok(()) => {},
                                Err(msg) => {
                                    return Err(ProtoError::Fs(dest, msg));
                                },
                            }
                        },
                        Option::None => {},
                    }
                }
                written.push(dest);
            },
        }
        i += 1;
        proof {
            let m1 = entries_model(entries@.take(i as int));
            assert(m1.drop_last() =~= entries_model(entries@.take(i as int - 1)));
            assert(m1.last() == entry_model(entries@[i as int - 1]));
            match entries@[i as int - 1].path {
                Option::Some(q) => {
                    assert(paths_view(written@) =~= spec_extract_plan(
                        m1,
                        output_dir@,
                        prefix_view(*remove_prefix),
                    ));
                },
                Option::None => {
                    assert(paths_view(written@) == spec_extract_plan(
                        m1,
                        output_dir@,
                        prefix_view(*remove_prefix),
                    ));
                },
            }
        }
    }
    proof {
        assert(entries@.take(entries@.len() as int) =~= entries@);
    }
    Ok(written)
}

/// Which decompressor a tarball runs through before extraction.
#[derive(Clone, Copy, Debug, PartialEq, Eq, Structural)]
pub enum TarCompression {
    Gzip,
    Xz,
}

fn read_archive_input(input_file: &String, output_dir: &String) -> (r: Result<Vec<u8>, ProtoError>)
    ensures
        r matches Err(e) ==> (e matches ProtoError::Fs(p, _) && (p@ == input_file@ || p@
            == output_dir@)),
{
    match host::create_dir_all(output_dir) {
        Ok(()) => {},
        Err(m) => {
            return Err(ProtoError::Fs(output_dir.clone(), m));
        },
    }
    match host::read_file_bytes(input_file) {
        Ok(d) => Ok(d),
        Err(m) => Err(ProtoError::Fs(input_file.clone(), m)),
    }
}

/// Decompress and extract a tarball into `output_dir`, creating it
/// first when absent. On success the written destinations are exactly
/// the extraction plan of the entries of the decompressed input bytes;
/// an error is a filesystem error naming the input, the output
/// directory, or the destination that failed.
pub fn untar(
    input_file: &String,
    output_dir: &String,
    remove_prefix: Option<String>,
    compression: TarCompression,
) -> (r: Result<Vec<String>, ProtoError>)
    ensures
        r matches Ok(ps) ==> (match compression {
            TarCompression::Gzip => exists|d: Seq<u8>|
                paths_view(ps@) == #[trigger] spec_extract_plan(
                    tar_entries_of(gunzip_of(d)),
                    output_dir@,
                    prefix_view(remove_prefix),
                ),
            TarCompression::Xz => exists|d: Seq<u8>|
                paths_view(ps@) == #[trigger] spec_extract_plan(
                    tar_entries_of(unxz_of(d)),
                    output_dir@,
                    prefix_view(remove_prefix),
                ),
        }),
        r matches Err(e) ==> (e matches ProtoError::Fs(p, _) && (p@ == input_file@ || p@
            == output_dir@ || exists|d: Seq<u8>|
            spec_plan_names(
                #[trigger] tar_entries_of(d),
                output_dir@,
                prefix_view(remove_prefix),
                p@,
            ))),
{
    let data = match read_archive_input(input_file, output_dir) {
        Ok(d) => d,
        Err(e) => {
            return Err(e);
        },
    };
    let plain = match compression {
        TarCompression::Gzip => gunzip(&data),
        TarCompression::Xz => unxz(&data),
    };
    let tar_bytes = match plain {
        Ok(b) => b,
        Err(m) => {
            return Err(ProtoError::Fs(input_file.clone(), m));
        },
    };
    match tar_entries(&tar_bytes) {
        Ok(es) => {
            match extract_entries(&es, output_dir, &remove_prefix) {
                Ok(ps) => {
                    proof {
                        assert(entries_model(es@) == tar_entries_of(tar_bytes@));
                    }
                    Ok(ps)
                },
                Err(e) => {
                    proof {
                        assert(entries_model(es@) == tar_entries_of(tar_bytes@));
                    }
                    Err(e)
                },
            }
        },
        Err(m) => Err(ProtoError::Fs(input_file.clone(), m)),
    }
}

/// Extract a gzip-compressed tarball; the written destinations are the
/// extraction plan of the gzip-decompressed input's tar entries.
pub fn untar_gzip(
    input_file: &String,
    output_dir: &String,
    remove_prefix: Option<String>,
) -> (r: Result<Vec<String>, ProtoError>)
    ensures
        r matches Ok(ps) ==> exists|d: Seq<u8>|
            paths_view(ps@) == #[trigger] spec_extract_plan(
                tar_entries_of(gunzip_of(d)),
                output_dir@,
                prefix_view(remove_prefix),
            ),
        r matches Err(e) ==> e matches ProtoError::Fs(_, _),
{
    untar(input_file, output_dir, remove_prefix, TarCompression::Gzip)
}

/// Extract an xz-compressed tarball; the written destinations are the
/// extraction plan of the xz-decompressed input's tar entries.
pub fn untar_xzip(
    input_file: &String,
    output_dir: &String,
    remove_prefix: Option<String>,
) -> (r: Result<Vec<String>, ProtoError>)
    ensures
        r matches Ok(ps) ==> exists|d: Seq<u8>|
            paths_view(ps@) == #[trigger] spec_extract_plan(
                tar_entries_of(unxz_of(d)),
                output_dir@,
                prefix_view(remove_prefix),
            ),
        r matches Err(e) ==> e matches ProtoError::Fs(_, _),
{
    untar(input_file, output_dir, remove_prefix, TarCompression::Xz)
}

/// Extract a zip archive into `output_dir`, creating it first when
/// absent. On success the written destinations are exactly the
/// extraction plan of the input bytes' zip entries; a zip-format error
/// names the input, a filesystem error the input, the output directory
/// or the destination that failed.
pub fn unzip(
    input_file: &String,
    output_dir: &String,
    remove_prefix: Option<String>,
) -> (r: Result<Vec<String>, ProtoError>)
    ensures
        r matches Ok(ps) ==> exists|d: Seq<u8>|
            paths_view(ps@) == #[trigger] spec_extract_plan(
                zip_entries_of(d),
                output_dir@,
                prefix_view(remove_prefix),
            ),
        r matches Err(e) ==> ((e matches ProtoError::Zip(p, _) && p@ == input_file@) || (e matches
            ProtoError::Fs(p, _) && (p@ == input_file@ || p@ == output_dir@ || exists|d: Seq<u8>|
            spec_plan_names(
                #[trigger] zip_entries_of(d),
                output_dir@,
                prefix_view(remove_prefix),
                p@,
            )))),
{
    let data = match read_archive_input(input_file, output_dir) {
        Ok(d) => d,
        Err(e) => {
            return Err(e);
        },
    };
    match zip_entries(&data) {
        Ok(es) => {
            match extract_entries(&es, output_dir, &remove_prefix) {
                Ok(ps) => {
                    proof {
                        assert(entries_model(es@) == zip_entries_of(data@));
                    }
                    Ok(ps)
                },
                Err(e) => {
                    proof {
                        assert(entries_model(es@) == zip_entries_of(data@));
                    }
                    Err(e)
                },
            }
        },
        Err(m) => Err(ProtoError::Zip(input_file.clone(), m)),
    }
}

/// Unpack an archive into `output_dir`, choosing the extractor by the
/// input file's extension alone. Returns `Ok(None)` when the file is no
/// archive at all (a standalone binary the caller copies instead), and
/// `Ok(Some(paths))` — the destinations written — after a completed
/// extraction; an extension no extractor handles is an error naming the
/// path and the extension.
pub fn unpack(
    input_file: &String,
    output_dir: &String,
    remove_prefix: Option<String>,
) -> (r: Result<Option<Vec<String>>, ProtoError>)
    ensures
        spec_format_of(input_file@) == ArchiveKind::NotArchive ==> (r matches Ok(op) && op
            is None),
        spec_format_of(input_file@) == ArchiveKind::Unsupported ==> (r matches Err(e) && e matches
            ProtoError::UnsupportedArchiveFormat(p, x) && p@ == input_file@ && Some(x@)
            == spec_extension(input_file@)),
        r matches Ok(Option::None) ==> spec_format_of(input_file@) == ArchiveKind::NotArchive,
        r matches Ok(Option::Some(ps)) ==> (match spec_format_of(input_file@) {
            ArchiveKind::Zip => exists|d: Seq<u8>|
                paths_view(ps@) == #[trigger] spec_extract_plan(
                    zip_entries_of(d),
                    output_dir@,
                    prefix_view(remove_prefix),
                ),
            ArchiveKind::TarGz => exists|d: Seq<u8>|
                paths_view(ps@) == #[trigger] spec_extract_plan(
                    tar_entries_of(gunzip_of(d)),
                    output_dir@,
                    prefix_view(remove_prefix),
                ),
            ArchiveKind::TarXz => exists|d: Seq<u8>|
                paths_view(ps@) == #[trigger] spec_extract_plan(
                    tar_entries_of(unxz_of(d)),
                    output_dir@,
                    prefix_view(remove_prefix),
                ),
            _ => false,
        }),
        r matches Err(e) ==> ((e matches ProtoError::UnsupportedArchiveFormat(p, _) && p@
            == input_file@) || (e matches ProtoError::Zip(p, _) && p@ == input_file@) || e matches
            ProtoError::Fs(_, _)),
{
    let v = to_chars(input_file.as_str());
    let kind = format_of(&v);
    match kind {
        ArchiveKind::NotArchive => Ok(None),
        ArchiveKind::Unsupported => {
            let k = match extension_start(&v) {
                Option::Some(k) => k,
                Option::None => {
                    proof {
                        assert(false);
                    }
                    0
                },
            };
            let ext = input_file.as_str().substring_char(k, v.len()).to_owned();
            Err(ProtoError::UnsupportedArchiveFormat(input_file.clone(), ext))
        },
        ArchiveKind::Zip => {
            match unzip(input_file, output_dir, remove_prefix) {
                Ok(ps) => Ok(Some(ps)),
                Err(e) => Err(e),
            }
        },
        ArchiveKind::TarGz => {
            match untar(input_file, output_dir, remove_prefix, TarCompression::Gzip) {
                Ok(ps) => Ok(Some(ps)),
                Err(e) => Err(e),
            }
        },
        ArchiveKind::TarXz => {
            match untar(input_file, output_dir, remove_prefix, TarCompression::Xz) {
                Ok(ps) => Ok(Some(ps)),
                Err(e) => Err(e),
            }
        },
    }
}

} // verus!
