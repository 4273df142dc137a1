//! The rendered images that a job page lists: the PNG files among the entries
//! of the job's output directory, in order.

use vstd::prelude::*;
use vstd::string::*;

use crate::external::{
    dotted_final_part, extension_of, file_extension, final_part, path_extension, portable_path,
};

verus! {

broadcast use vstd::seq_lib::group_to_multiset_ensures;

/// Whether text `a` comes no later than `b` when compared character by
/// character by code point, a prefix coming first. For the paths of one
/// directory this is the order of their file names, as paths are sorted.
pub open spec fn text_le(a: Seq<char>, b: Seq<char>) -> bool
    decreases a.len(),
{
    if a.len() == 0 {
        true
    } else if b.len() == 0 {
        false
    } else if a[0] != b[0] {
        (a[0] as int) < (b[0] as int)
    } else {
        text_le(a.drop_first(), b.drop_first())
    }
}

/// Any two texts are ordered one way or the other.
pub proof fn text_le_total(a: Seq<char>, b: Seq<char>)
    ensures
        text_le(a, b) || text_le(b, a),
    decreases a.len(),
{
    if a.len() > 0 && b.len() > 0 && a[0] == b[0] {
        text_le_total(a.drop_first(), b.drop_first());
    }
}

/// The order of texts is transitive.
pub proof fn text_le_transitive(a: Seq<char>, b: Seq<char>, c: Seq<char>)
    requires
        text_le(a, b),
        text_le(b, c),
    ensures
        text_le(a, c),
    decreases a.len(),
{
    if a.len() > 0 && b.len() > 0 && c.len() > 0 && a[0] == b[0] && b[0] == c[0] {
        text_le_transitive(a.drop_first(), b.drop_first(), c.drop_first());
    }
}

/// The texts in order, each no later than every one after it.
pub open spec fn sorted_texts(s: Seq<String>) -> bool {
    forall|i: int, j: int| 0 <= i < j < s.len() ==> text_le(#[trigger] s[i]@, #[trigger] s[j]@)
}

/// A path is listed as an image when its file name has the extension `png`.
pub open spec fn is_png(path: Seq<char>) -> bool {
    extension_of(path) == Some("png"@)
}

/// The final part of the path (after its last `/` or `\`) has the extension
/// `png`.
pub open spec fn final_part_is_png(path: Seq<char>) -> bool {
    file_extension(final_part(path)) == Some("png"@)
}

/// What is known of a path to make it an image, on every platform.
pub open spec fn known_png(s: Seq<char>) -> bool {
    ||| portable_path(s) && is_png(s)
    ||| dotted_final_part(s) && final_part_is_png(s)
}

/// What is known of a path to make it no image, on every platform.
pub open spec fn known_not_png(s: Seq<char>) -> bool {
    ||| portable_path(s) && !is_png(s)
    ||| dotted_final_part(s) && !final_part_is_png(s)
    ||| !s.contains('.')
}

fn text_le_exec(a: &str, b: &str) -> (r: bool)
    ensures
        r == text_le(a@, b@),
{
    let la = a.unicode_len();
    let lb = b.unicode_len();
    let mut i: usize = 0;
    assert(a@.skip(0) =~= a@ && b@.skip(0) =~= b@);
    while i < la && i < lb
        invariant
            0 <= i <= la,
            i <= lb,
            la == a@.len(),
            lb == b@.len(),
            text_le(a@, b@) == text_le(a@.skip(i as int), b@.skip(i as int)),
        decreases la - i,
    {
        let ca = a.get_char(i);
        let cb = b.get_char(i);
        assert(a@.skip(i as int)[0] == ca && b@.skip(i as int)[0] == cb);
        if ca != cb {
            return (ca as u32) < (cb as u32);
        }
        assert(a@.skip(i as int).drop_first() =~= a@.skip(i + 1));
        assert(b@.skip(i as int).drop_first() =~= b@.skip(i + 1));
        i = i + 1;
    }
    assert(i == la ==> a@.skip(i as int).len() == 0);
    i == la
}

proof fn insert_keeps_sorted(s: Seq<String>, j: int, x: String)
    requires
        sorted_texts(s),
        0 <= j <= s.len(),
        forall|k: int| 0 <= k < j ==> text_le((#[trigger] s[k])@, x@),
        forall|k: int| j <= k < s.len() ==> text_le(x@, (#[trigger] s[k])@),
    ensures
        sorted_texts(s.insert(j, x)),
{
    let t = s.insert(j, x);
    assert forall|p: int, q: int| 0 <= p < q < t.len() implies text_le(
        #[trigger] t[p]@,
        #[trigger] t[q]@,
    ) by {
        if q < j {
            assert(t[p] == s[p] && t[q] == s[q]);
        } else if q == j {
            assert(t[p] == s[p] && t[q] == x);
        } else if p < j {
            assert(t[p] == s[p] && t[q] == s[q - 1]);
        } else if p == j {
            assert(t[p] == x && t[q] == s[q - 1]);
        } else {
            assert(t[p] == s[p - 1] && t[q] == s[q - 1]);
        }
    }
}

/// The texts sorted: in order, and the same texts as many times each.
pub fn sort_texts(items: Vec<String>) -> (out: Vec<String>)
    ensures
        sorted_texts(out@),
        out@.to_multiset() == items@.to_multiset(),
{
    let mut out: Vec<String> = Vec::new();
    let mut i: usize = 0;
    while i < items.len()
        invariant
            0 <= i <= items.len(),
            sorted_texts(out@),
            out@.to_multiset() == items@.take(i as int).to_multiset(),
        decreases items.len() - i,
    {
        let x = items[i].clone();
        let mut j: usize = 0;
        let mut found = false;
        while !found && j < out.len()
            invariant
                0 <= j <= out.len(),
                sorted_texts(out@),
                forall|k: int| 0 <= k < j ==> text_le((#[trigger] out@[k])@, x@),
                found ==> j < out.len() && !text_le(out@[j as int]@, x@),
            decreases out.len() - j + (if found { 0int } else { 1int }),
        {
            if text_le_exec(out[j].as_str(), x.as_str()) {
                j = j + 1;
            } else {
                found = true;
            }
        }
        proof {
            assert forall|k: int| j <= k < out@.len() implies text_le(x@, (#[trigger] out@[k])@) by {
                text_le_total(out@[j as int]@, x@);
                if k > j {
                    text_le_transitive(x@, out@[j as int]@, out@[k]@);
                }
            }
            insert_keeps_sorted(out@, j as int, x);
            assert(items@.take(i + 1) =~= items@.take(i as int).push(items@[i as int]));
        }
        out.insert(j, x);
        i = i + 1;
    }
    proof {
        assert(items@.take(items.len() as int) =~= items@);
    }
    out
}

/// The images among the entries of an output directory, in order: every path
/// kept is one of the entries; a portable path (see `portable_path`) is kept
/// exactly when it is a PNG file; a path whose final part is a dotted name
/// (see `dotted_final_part`, such as `C:\renders\0001.png`) is kept exactly
/// when that name's extension is `png`; a path without a `.` is not kept; the
/// kept paths come sorted; and no entry is kept twice when the entries are
/// distinct.
pub fn png_images(entries: Vec<String>) -> (images: Vec<String>)
    ensures
        sorted_texts(images@),
        forall|k: int| 0 <= k < images@.len() ==> entries@.contains(#[trigger] images@[k]),
        forall|k: int|
            #![trigger entries@[k]]
            0 <= k < entries@.len() && portable_path(entries@[k]@) ==> (images@.contains(
                entries@[k],
            ) <==> is_png(entries@[k]@)),
        forall|k: int|
            #![trigger entries@[k]]
            0 <= k < entries@.len() && dotted_final_part(entries@[k]@) ==> (images@.contains(
                entries@[k],
            ) <==> final_part_is_png(entries@[k]@)),
        forall|k: int|
            #![trigger entries@[k]]
            0 <= k < entries@.len() && !entries@[k]@.contains('.') ==> !images@.contains(entries@[k]),
        entries@.no_duplicates() ==> images@.no_duplicates(),
{
    proof {
        reveal_strlit("png");
    }
    let mut kept: Vec<String> = Vec::new();
    let mut i: usize = 0;
    while i < entries.len()
        invariant
            0 <= i <= entries.len(),
            forall|k: int|
                0 <= k < kept@.len() ==> entries@.take(i as int).contains(#[trigger] kept@[k])
                    && !known_not_png(kept@[k]@),
            forall|k: int|
                #![trigger entries@[k]]
                0 <= k < i && known_png(entries@[k]@) ==> kept@.contains(entries@[k]),
            entries@.no_duplicates() ==> kept@.no_duplicates(),
        decreases entries.len() - i,
    {
        let keep = match path_extension(entries[i].as_str()) {
            Some(e) => e == String::from_str("png"),
            None => false,
        };
        proof {
            assert forall|k: int| 0 <= k < kept@.len() implies entries@.take(i + 1).contains(
                #[trigger] kept@[k],
            ) by {
                let w = choose|w: int| 0 <= w < i && entries@.take(i as int)[w] == kept@[k];
                assert(entries@.take(i + 1)[w] == kept@[k]);
            }
        }
        if keep {
            let ghost before = kept@;
            proof {
                assert(!known_not_png(entries@[i as int]@));
                if entries@.no_duplicates() {
                    assert forall|k: int| 0 <= k < before.len() implies before[k] != entries@[i as int] by {
                        assert(entries@.take(i as int).contains(before[k]));
                        let w = choose|w: int| 0 <= w < i && entries@.take(i as int)[w] == before[k];
                        assert(entries@[w] == before[k]);
                    }
                }
            }
            kept.push(entries[i].clone());
            proof {
                assert(entries@.take(i + 1)[i as int] == entries@[i as int]);
                assert(kept@[before.len() as int] == entries@[i as int]);
                assert forall|k: int|
                    #![trigger entries@[k]]
                    0 <= k < i + 1 && known_png(entries@[k]@) implies kept@.contains(entries@[k]) by {
                    if k < i {
                        let w = choose|w: int| 0 <= w < before.len() && before[w] == entries@[k];
                        assert(kept@[w] == entries@[k]);
                    }
                }
                if entries@.no_duplicates() {
                    assert forall|p: int, q: int| 0 <= p < kept@.len() && 0 <= q < kept@.len() && p != q
                        implies kept@[p] != kept@[q] by {
                        if p < before.len() && q < before.len() {
                            assert(kept@[p] == before[p] && kept@[q] == before[q]);
                        } else if p < before.len() {
                            assert(kept@[p] == before[p]);
                        } else {
                            assert(kept@[q] == before[q]);
                        }
                    }
                }
            }
        } else {
            proof {
                assert(!known_png(entries@[i as int]@));
            }
        }
        i = i + 1;
    }
    proof {
        assert(entries@.take(entries.len() as int) =~= entries@);
    }
    let images = sort_texts(kept);
    proof {
        assert forall|k: int| 0 <= k < images@.len() implies entries@.contains(#[trigger] images@[k]) by {
            assert(images@.to_multiset().count(images@[k]) > 0);
            assert(kept@.contains(images@[k]));
            let w = choose|w: int| 0 <= w < kept@.len() && kept@[w] == images@[k];
            assert(kept@[w] == images@[k]);
        }
        assert forall|k: int| 0 <= k < entries@.len() implies (images@.contains(#[trigger] entries@[k])
            ==> !known_not_png(entries@[k]@)) && (known_png(entries@[k]@) ==> images@.contains(
            entries@[k],
        )) by {
            assert(images@.to_multiset().count(entries@[k]) == kept@.to_multiset().count(entries@[k]));
            if images@.contains(entries@[k]) {
                assert(kept@.contains(entries@[k]));
                let w = choose|w: int| 0 <= w < kept@.len() && kept@[w] == entries@[k];
                assert(kept@[w] == entries@[k]);
            }
            if known_png(entries@[k]@) {
                assert(kept@.contains(entries@[k]));
                assert(images@.contains(entries@[k]));
            }
        }
        if entries@.no_duplicates() {
            kept@.lemma_multiset_has_no_duplicates();
            images@.lemma_multiset_has_no_duplicates_conv();
        }
    }
    images
}

} // verus!
