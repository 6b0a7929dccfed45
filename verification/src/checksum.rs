use vstd::prelude::*;
use crate::error::ProtoError;
use crate::text::{spec_find, find_char, to_chars, sub_chars, chars_eq};
use crate::host;

verus! {

pub open spec fn spec_hex_char(d: u8) -> char {
    if d == 0 { '0' }
    else if d == 1 { '1' }
    else if d == 2 { '2' }
    else if d == 3 { '3' }
    else if d == 4 { '4' }
    else if d == 5 { '5' }
    else if d == 6 { '6' }
    else if d == 7 { '7' }
    else if d == 8 { '8' }
    else if d == 9 { '9' }
    else if d == 10 { 'a' }
    else if d == 11 { 'b' }
    else if d == 12 { 'c' }
    else if d == 13 { 'd' }
    else if d == 14 { 'e' }
    else { 'f' }
}

/// The lower-case hexadecimal rendering of a byte string, two digits per
/// byte.
pub open spec fn spec_hex(bytes: Seq<u8>) -> Seq<char>
    decreases bytes.len(),
{
    if bytes.len() == 0 {
        Seq::empty()
    } else {
        spec_hex(bytes.drop_last()) + seq![
            spec_hex_char(bytes.last() / 16),
            spec_hex_char(bytes.last() % 16),
        ]
    }
}

fn hex_str(d: u8) -> (r: &'static str)
    requires
        d < 16,
    ensures
        r@ =~= seq![spec_hex_char(d)],
{
    proof {
        reveal_strlit("0");
        reveal_strlit("1");
        reveal_strlit("2");
        reveal_strlit("3");
        reveal_strlit("4");
        reveal_strlit("5");
        reveal_strlit("6");
        reveal_strlit("7");
        reveal_strlit("8");
        reveal_strlit("9");
        reveal_strlit("a");
        reveal_strlit("b");
        reveal_strlit("c");
        reveal_strlit("d");
        reveal_strlit("e");
        reveal_strlit("f");
    }
    if d == 0 { "0" }
    else if d == 1 { "1" }
    else if d == 2 { "2" }
    else if d == 3 { "3" }
    else if d == 4 { "4" }
    else if d == 5 { "5" }
    else if d == 6 { "6" }
    else if d == 7 { "7" }
    else if d == 8 { "8" }
    else if d == 9 { "9" }
    else if d == 10 { "a" }
    else if d == 11 { "b" }
    else if d == 12 { "c" }
    else if d == 13 { "d" }
    else if d == 14 { "e" }
    else { "f" }
}

/// Render bytes as lower-case hexadecimal.
pub fn to_hex(bytes: &Vec<u8>) -> (r: String)
    ensures
        r@ == spec_hex(bytes@),
{
    let mut r = String::new();
    let mut i: usize = 0;
    proof {
        assert(bytes@.subrange(0, 0) =~= Seq::<u8>::empty());
    }
    while i < bytes.len()
        invariant
            0 <= i <= bytes@.len(),
            r@ == spec_hex(bytes@.subrange(0, i as int)),
        decreases bytes@.len() - i,
    {
        let b = bytes[i];
        r.append(hex_str(b / 16));
        r.append(hex_str(b % 16));
        i += 1;
        proof {
            let pre = bytes@.subrange(0, i as int);
            assert(pre.drop_last() =~= bytes@.subrange(0, i as int - 1));
            assert(pre.last() == bytes@[i as int - 1]);
        }
    }
    proof {
        assert(bytes@.subrange(0, bytes@.len() as int) =~= bytes@);
    }
    r
}

/// Whether `i` begins a line of `t`.
pub open spec fn is_line_start(t: Seq<char>, i: int) -> bool {
    i == 0 || t[i - 1] == '\n'
}

/// Whether one checksum line pairs the digest with the artifact name:
/// it starts with the digest's hexadecimal text, ends with the name,
/// and holds at least a separator between them.
pub open spec fn line_ok(line: Seq<char>, hex: Seq<char>, name: Seq<char>) -> bool {
    line.len() >= hex.len() + name.len() + 1 && line.subrange(0, hex.len() as int) == hex
        && line.subrange(line.len() - name.len(), line.len() as int) == name
}

/// Whether some line of the checksum text pairs the digest with the
/// artifact name.
pub open spec fn spec_checksum_match(t: Seq<char>, hex: Seq<char>, name: Seq<char>) -> bool {
    exists|i: int|
        0 <= i <= t.len() && is_line_start(t, i) && line_ok(
            t.subrange(i, spec_find(t, '\n', i)),
            hex,
            name,
        )
}

fn line_check(
    text: &Vec<char>,
    start: usize,
    end: usize,
    hexd: &Vec<char>,
    name: &Vec<char>,
) -> (r: bool)
    requires
        start <= end <= text@.len(),
    ensures
        r == line_ok(text@.subrange(start as int, end as int), hexd@, name@),
{
    let ll = end - start;
    if ll < hexd.len() || ll - hexd.len() <= name.len() {
        proof {
            assert(!line_ok(text@.subrange(start as int, end as int), hexd@, name@));
        }
        return false;
    }
    let head = sub_chars(text, start, start + hexd.len());
    let tail = sub_chars(text, end - name.len(), end);
    proof {
        let line = text@.subrange(start as int, end as int);
        assert(line.subrange(0, hexd@.len() as int) =~= text@.subrange(
            start as int,
            start as int + hexd@.len(),
        ));
        assert(line.subrange(line.len() - name@.len(), line.len() as int) =~= text@.subrange(
            end as int - name@.len(),
            end as int,
        ));
    }
    chars_eq(&head, hexd) && chars_eq(&tail, name)
}

fn scan_lines(text: &Vec<char>, hexd: &Vec<char>, name: &Vec<char>, start: usize) -> (r: bool)
    requires
        start <= text@.len(),
        is_line_start(text@, start as int),
    ensures
        r == exists|i: int|
            start <= i <= text@.len() && is_line_start(text@, i) && line_ok(
                text@.subrange(i, spec_find(text@, '\n', i)),
                hexd@,
                name@,
            ),
    decreases text@.len() - start,
{
    let end = find_char(text, '\n', start);
    proof {
        crate::text::lemma_find_range(text@, '\n', start as int);
    }
    if line_check(text, start, end, hexd, name) {
        return true;
    }
    if end >= text.len() {
        proof {
            assert forall|i: int|
                start < i <= text@.len() implies !is_line_start(text@, i) by {
                assert(text@[i - 1] != '\n');
            }
        }
        false
    } else {
        let r = scan_lines(text, hexd, name, end + 1);
        proof {
            assert forall|i: int| start < i <= end implies !is_line_start(text@, i) by {
                assert(text@[i - 1] != '\n');
            }
        }
        r
    }
}

/// Whether the checksum text pairs the given digest with the artifact
/// name on any of its lines.
pub fn checksum_matches(text: &Vec<char>, hexd: &Vec<char>, name: &Vec<char>) -> (r: bool)
    ensures
        r == spec_checksum_match(text@, hexd@, name@),
{
    scan_lines(text, hexd, name, 0)
}

/// The digest an artifact must carry to pass verification against a
/// checksum text: its SHA-256, rendered in hexadecimal, paired with its
/// file name on some line.
pub open spec fn spec_artifact_verified(
    artifact: Seq<u8>,
    checksum_text: Seq<char>,
    name: Seq<char>,
) -> bool {
    spec_checksum_match(checksum_text, spec_hex(host::sha256_of(artifact)), name)
}

/// Verify an artifact's bytes against a checksum text.
pub fn verify_artifact(artifact: &Vec<u8>, checksum_text: &String, name: &String) -> (r: bool)
    ensures
        r == spec_artifact_verified(artifact@, checksum_text@, name@),
{
    let digest = host::sha256(artifact);
    let hex = to_hex(&digest);
    let hexv = to_chars(hex.as_str());
    let textv = to_chars(checksum_text.as_str());
    let namev = to_chars(name.as_str());
    checksum_matches(&textv, &hexv, &namev)
}

/// An empty checksum text verifies nothing: whatever the artifact's
/// bytes and name, verification fails.
pub proof fn lemma_empty_checksum_fails(artifact: Seq<u8>, name: Seq<char>)
    ensures
        !spec_artifact_verified(artifact, Seq::<char>::empty(), name),
{
    let t = Seq::<char>::empty();
    let hex = spec_hex(host::sha256_of(artifact));
    assert forall|i: int|
        0 <= i <= t.len() && is_line_start(t, i) implies !line_ok(
        t.subrange(i, spec_find(t, '\n', i)),
        hex,
        name,
    ) by {
        assert(t.subrange(i, spec_find(t, '\n', i)).len() == 0);
    }
}

/// A checksum text none of whose lines pairs the digest with the name
/// fails verification, whatever the artifact's content: corruption is
/// never waved through.
pub proof fn lemma_corrupt_checksum_fails(
    artifact: Seq<u8>,
    checksum_text: Seq<char>,
    name: Seq<char>,
)
    requires
        forall|i: int|
            0 <= i <= checksum_text.len() && is_line_start(checksum_text, i) ==> !line_ok(
                checksum_text.subrange(i, spec_find(checksum_text, '\n', i)),
                spec_hex(host::sha256_of(artifact)),
                name,
            ),
    ensures
        !spec_artifact_verified(artifact, checksum_text, name),
{
}

/// The pipeline's verification step: read the artifact and the checksum
/// file, and fail with an invalid-checksum error naming both paths
/// unless some line of the checksum file pairs the artifact's SHA-256
/// digest with its file name.
pub fn verify_checksum(
    download_path: &String,
    checksum_path: &String,
    artifact_name: &String,
) -> (r: Result<(), ProtoError>)
    ensures
        r matches Err(e) ==> (e matches ProtoError::Fs(_, _) || (e matches
            ProtoError::VerifyInvalidChecksum(c, d) && c@ == checksum_path@ && d@
            == download_path@)),
{
    let artifact = match host::read_file_bytes(download_path) {
        Ok(b) => b,
        Err(m) => {
            return Err(ProtoError::Fs(download_path.clone(), m));
        },
    };
    let text = match host::read_file_string(checksum_path) {
        Ok(t) => t,
        Err(m) => {
            return Err(ProtoError::Fs(checksum_path.clone(), m));
        },
    };
    if verify_artifact(&artifact, &text, artifact_name) {
        Ok(())
    } else {
        Err(ProtoError::VerifyInvalidChecksum(checksum_path.clone(), download_path.clone()))
    }
}

} // verus!
