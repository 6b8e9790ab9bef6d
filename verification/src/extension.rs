//! The `.icd` extension policy for save paths.
//!
//! The file chooser filters on the `.icd` extension, but the name the user
//! confirms may still lack it. The policy here is repair, not rejection: a
//! confirmed path that does not already end in `.icd` gets the extension
//! appended, and a path that already ends in it is kept unchanged.

use vstd::prelude::*;

verus! {

/// The byte sequence of the extension suffix `.icd`.
pub open spec fn icd_extension() -> Seq<u8> {
    seq![0x2eu8, 0x69u8, 0x63u8, 0x64u8]
}

/// Whether a path, as a byte sequence, ends in `.icd`.
pub open spec fn has_icd_extension(p: Seq<u8>) -> bool {
    p.len() >= 4 && p.subrange(p.len() - 4, p.len() as int) == icd_extension()
}

/// The path a confirmed save name is repaired to: unchanged when it already
/// ends in `.icd`, with the suffix appended otherwise.
pub open spec fn with_icd_extension(p: Seq<u8>) -> Seq<u8> {
    if has_icd_extension(p) {
        p
    } else {
        p + icd_extension()
    }
}

/// Whether the path ends in `.icd`.
pub fn path_has_icd_extension(p: &Vec<u8>) -> (r: bool)
    ensures
        r == has_icd_extension(p@),
{
    let n = p.len();
    if n < 4 {
        return false;
    }
    let r = p[n - 4] == 0x2e && p[n - 3] == 0x69 && p[n - 2] == 0x63 && p[n - 1] == 0x64;
    proof {
        let tail = p@.subrange(p@.len() - 4, p@.len() as int);
        assert(tail.len() == 4);
        assert(tail[0] == p@[p@.len() - 4]);
        assert(tail[1] == p@[p@.len() - 3]);
        assert(tail[2] == p@[p@.len() - 2]);
        assert(tail[3] == p@[p@.len() - 1]);
        if r {
            assert(tail =~= icd_extension());
        }
    }
    r
}

/// Repairs a confirmed save path to carry the `.icd` extension.
pub fn ensure_icd_extension(path: Vec<u8>) -> (r: Vec<u8>)
    ensures
        r@ == with_icd_extension(path@),
        has_icd_extension(r@),
{
    let mut repaired = path;
    let ghost orig = repaired@;
    if !path_has_icd_extension(&repaired) {
        repaired.push(0x2e);
        repaired.push(0x69);
        repaired.push(0x63);
        repaired.push(0x64);
        proof {
            assert(repaired@ =~= orig + icd_extension());
            lemma_appended_extension(orig);
        }
    }
    repaired
}

/// Appending the suffix to any path yields a path that ends in `.icd`.
proof fn lemma_appended_extension(p: Seq<u8>)
    ensures
        has_icd_extension(p + icd_extension()),
{
    let q = p + icd_extension();
    assert(q.subrange(q.len() - 4, q.len() as int) =~= icd_extension());
}

/// The extension policy in full: a confirmed save path is repaired, never
/// rejected. The path written always carries the `.icd` extension; a path
/// that already carries it is kept unchanged, and one that lacks it gets
/// exactly the suffix appended.
pub proof fn lemma_extension_policy(p: Seq<u8>)
    ensures
        has_icd_extension(with_icd_extension(p)),
        has_icd_extension(p) ==> with_icd_extension(p) == p,
        !has_icd_extension(p) ==> with_icd_extension(p) == p + icd_extension(),
{
    if !has_icd_extension(p) {
        lemma_appended_extension(p);
    }
}

/// The name the save chooser suggests by default, `untitled.icd`.
pub open spec fn default_name() -> Seq<u8> {
    seq![
        0x75u8, 0x6eu8, 0x74u8, 0x69u8, 0x74u8, 0x6cu8, 0x65u8, 0x64u8,
        0x2eu8, 0x69u8, 0x63u8, 0x64u8,
    ]
}

/// The default save name handed to the file chooser; it already carries the
/// `.icd` extension, so repair leaves it unchanged.
pub fn default_save_name() -> (r: Vec<u8>)
    ensures
        r@ == default_name(),
        has_icd_extension(r@),
{
    let r: Vec<u8> = vec![
        0x75, 0x6e, 0x74, 0x69, 0x74, 0x6c, 0x65, 0x64, 0x2e, 0x69, 0x63, 0x64,
    ];
    proof {
        assert(r@ =~= default_name());
        let tail = r@.subrange(r@.len() - 4, r@.len() as int);
        assert(tail =~= icd_extension());
    }
    r
}

} // verus!
