//! Cache layout: the two-tier prefix and the relative storage path of a
//! symbol file.

use vstd::prelude::*;
use crate::ident::{canonical_hash, SymFileInfo};
use crate::text::{ascii_lower, chars_of, push_char, push_str};

verus! {

/// What `str::to_lowercase` gives for a string.
pub uninterp spec fn lower_of(s: Seq<char>) -> Seq<char>;

/// Every character is ASCII.
pub open spec fn all_ascii(s: Seq<char>) -> bool {
    forall|i: int| 0 <= i < s.len() ==> (#[trigger] s[i] as u32) < 128
}

/// Every character is ASCII and none is an uppercase letter.
pub open spec fn lower_ascii(s: Seq<char>) -> bool {
    all_ascii(s) && forall|i: int| 0 <= i < s.len() ==> !('A' <= #[trigger] s[i] && s[i] <= 'Z')
}

/// Relies on `str::to_lowercase`: the Unicode lowercase mapping of the
/// string. On ASCII text it maps `'A'..='Z'` to `'a'..='z'` and keeps every
/// other character.
#[verifier::external_body]
fn lowercase(s: &str) -> (r: String)
    ensures
        r@ == lower_of(s@),
        all_ascii(s@) ==> r@ == s@.map_values(|c: char| ascii_lower(c)),
{
    s.to_lowercase()
}

/// The number of leading characters that name the tier directory.
pub open spec fn prefix_len(s: Seq<char>) -> int {
    if s.len() < 2 { s.len() as int } else { 2 }
}

/// The two-tier directory of a file name: its first two characters (all of
/// it, when shorter), lowercased.
pub open spec fn tier_prefix(name: Seq<char>) -> Seq<char> {
    lower_of(name.take(prefix_len(name)))
}

/// Returns the two-tier prefix for a filename (first two characters, lowercase).
///
/// For filenames shorter than 2 characters, returns the filename itself.
pub fn two_tier_prefix(name: &str) -> (r: String)
    ensures
        r@ == tier_prefix(name@),
        all_ascii(name@) ==> r@ == name@.take(prefix_len(name@)).map_values(|c: char| ascii_lower(c)),
        all_ascii(name@) ==> r@.len() == prefix_len(name@),
        lower_ascii(name@) ==> r@ == name@.take(prefix_len(name@)),
{
    let cs = chars_of(name);
    let mut head = String::new();
    let mut i: usize = 0;
    while i < cs.len() && i < 2
        invariant
            0 <= i <= cs@.len(),
            i <= 2,
            cs@ == name@,
            head@ == name@.take(i as int),
        decreases 2 - i,
    {
        push_char(&mut head, cs[i]);
        i = i + 1;
        assert(name@.take(i as int) == name@.take(i as int - 1).push(cs@[i as int - 1]));
    }
    assert(i as int == prefix_len(name@));
    let r = lowercase(head.as_str());
    proof {
        let h = name@.take(i as int);
        if all_ascii(name@) {
            assert(all_ascii(h)) by {
                assert forall|j: int| 0 <= j < h.len() implies (#[trigger] h[j] as u32) < 128 by {
                    assert(h[j] == name@[j]);
                }
            }
        }
        if lower_ascii(name@) {
            assert(r@ =~= h) by {
                assert forall|j: int| 0 <= j < h.len() implies r@[j] == h[j] by {
                    assert(h[j] == name@[j]);
                    assert(!('A' <= name@[j] && name@[j] <= 'Z'));
                }
            }
        }
    }
    r
}

/// On a lowercase ASCII name of two or more characters, `two_tier_prefix`
/// gives the first two characters; those are again a lowercase ASCII name of
/// two characters, whose prefix is itself. So a second application changes
/// nothing.
pub proof fn lemma_prefix_idempotent(name: Seq<char>)
    requires
        lower_ascii(name),
        name.len() >= 2,
    ensures
        name.take(prefix_len(name)) == name.take(2),
        lower_ascii(name.take(2)),
        all_ascii(name.take(2)),
        name.take(2).take(prefix_len(name.take(2))) == name.take(2),
{
    let h = name.take(2);
    assert forall|j: int| 0 <= j < h.len() implies (#[trigger] h[j] as u32) < 128 && !('A' <= h[j] && h[j] <= 'Z') by {
        assert(h[j] == name[j]);
    }
    assert(h.take(2) =~= h);
}

/// `<filename>/<hash>/<filename>`: the path below the cache root (or below
/// the tier directory), and below a server's base URL.
pub open spec fn suffix_path(info: SymFileInfo, name: Seq<char>) -> Seq<char> {
    name + seq!['/'] + canonical_hash(info) + seq!['/'] + name
}

/// The storage path of a file below a cache root of the given layout.
pub open spec fn relative_path_of(info: SymFileInfo, name: Seq<char>, two_tier: bool) -> Seq<char> {
    if two_tier {
        tier_prefix(name) + seq!['/'] + suffix_path(info, name)
    } else {
        suffix_path(info, name)
    }
}

/// The address of a file on a server with the given base URL.
pub open spec fn download_url_of(server_url: Seq<char>, info: SymFileInfo, name: Seq<char>) -> Seq<char> {
    server_url + seq!['/'] + suffix_path(info, name)
}

/// Appends `<filename>/<hash>/<filename>`.
fn push_suffix(out: &mut String, info: &SymFileInfo, filename: &str)
    ensures
        final(out)@ == old(out)@ + suffix_path(*info, filename@),
{
    let hash = info.to_string();
    push_str(out, filename);
    push_char(out, '/');
    push_str(out, hash.as_str());
    push_char(out, '/');
    push_str(out, filename);
    assert(final(out)@ =~= old(out)@ + suffix_path(*info, filename@));
}

/// The path of a symbol file below a cache root:
/// `<prefix>/<filename>/<hash>/<filename>` when the cache is two-tier,
/// `<filename>/<hash>/<filename>` otherwise.
pub fn relative_path(info: &SymFileInfo, filename: &str, two_tier: bool) -> (r: String)
    ensures
        r@ == relative_path_of(*info, filename@, two_tier),
{
    let mut s = String::new();
    if two_tier {
        let p = two_tier_prefix(filename);
        push_str(&mut s, p.as_str());
        push_char(&mut s, '/');
    }
    push_suffix(&mut s, info, filename);
    assert(s@ =~= relative_path_of(*info, filename@, two_tier));
    s
}

/// The address of a symbol file on a server: `<server_url>/<filename>/<hash>/<filename>`.
pub fn download_url(server_url: &str, info: &SymFileInfo, filename: &str) -> (r: String)
    ensures
        r@ == download_url_of(server_url@, *info, filename@),
{
    let mut s = String::new();
    push_str(&mut s, server_url);
    push_char(&mut s, '/');
    push_suffix(&mut s, info, filename);
    assert(s@ =~= download_url_of(server_url@, *info, filename@));
    s
}

} // verus!
