//! File-facing helpers around the workspace browser: the entry record the
//! listing returns, the dispatch from file extension to reader kind, the
//! filters the listing applies, and the order it is presented in.

use vstd::prelude::*;
use vstd::multiset::Multiset;
use crate::text::{lower_of, str_eq, to_lowercase};

verus! {

/// One entry of the workspace file listing.
pub struct FileEntry {
    pub name: String,
    pub path: String,
    pub is_dir: bool,
    pub extension: String,
    pub children: Option<Vec<FileEntry>>,
}

/// Which reader a file is handed to.
#[derive(Debug, PartialEq, Eq, Structural)]
pub enum FileKind {
    Pdf,
    Docx,
    PlainText,
    Unsupported,
}

/// The reader kind for an already-lowercased extension.
pub open spec fn kind_of_extension(ext_lower: Seq<char>) -> FileKind {
    if ext_lower == "pdf"@ {
        FileKind::Pdf
    } else if ext_lower == "docx"@ {
        FileKind::Docx
    } else if ext_lower == "md"@ || ext_lower == "txt"@ || ext_lower == "html"@ {
        FileKind::PlainText
    } else {
        FileKind::Unsupported
    }
}

/// Classify a file extension, case-insensitively, into the reader that
/// handles it.
pub fn classify_extension(ext: &str) -> (k: FileKind)
    ensures
        k == kind_of_extension(lower_of(ext@)),
{
    let low = to_lowercase(ext);
    if str_eq(low.as_str(), "pdf") {
        FileKind::Pdf
    } else if str_eq(low.as_str(), "docx") {
        FileKind::Docx
    } else if str_eq(low.as_str(), "md") || str_eq(low.as_str(), "txt") || str_eq(
        low.as_str(),
        "html",
    ) {
        FileKind::PlainText
    } else {
        FileKind::Unsupported
    }
}

/// Lexicographic order on character sequences, by scalar value: the order
/// the listing is presented in.
pub open spec fn lex_le(a: Seq<char>, b: Seq<char>) -> bool
    decreases a.len(),
{
    if a.len() == 0 {
        true
    } else if b.len() == 0 {
        false
    } else if (a[0] as u32) != (b[0] as u32) {
        (a[0] as u32) < (b[0] as u32)
    } else {
        lex_le(a.drop_first(), b.drop_first())
    }
}

/// The order is total: of any two texts, one comes no later than the other.
pub proof fn lemma_lex_le_total(a: Seq<char>, b: Seq<char>)
    ensures
        lex_le(a, b) || lex_le(b, a),
    decreases a.len(),
{
    if a.len() == 0 {
    } else if b.len() == 0 {
    } else if (a[0] as u32) != (b[0] as u32) {
    } else {
        lemma_lex_le_total(a.drop_first(), b.drop_first());
    }
}

/// The order is transitive.
pub proof fn lemma_lex_le_trans(a: Seq<char>, b: Seq<char>, c: Seq<char>)
    requires
        lex_le(a, b),
        lex_le(b, c),
    ensures
        lex_le(a, c),
    decreases a.len(),
{
    if a.len() == 0 {
    } else {
        assert(b.len() > 0);
        assert(c.len() > 0);
        if (a[0] as u32) == (b[0] as u32) && (b[0] as u32) == (c[0] as u32) {
            lemma_lex_le_trans(a.drop_first(), b.drop_first(), c.drop_first());
        }
    }
}

fn str_le_from(a: &str, b: &str, i: usize) -> (r: bool)
    requires
        i <= a@.len(),
        i <= b@.len(),
    ensures
        r == lex_le(a@.skip(i as int), b@.skip(i as int)),
    decreases a@.len() - i,
{
    if i == a.unicode_len() {
        return true;
    }
    if i == b.unicode_len() {
        return false;
    }
    let ca = a.get_char(i);
    let cb = b.get_char(i);
    proof {
        assert(a@.skip(i as int)[0] == a@[i as int]);
        assert(b@.skip(i as int)[0] == b@[i as int]);
    }
    if (ca as u32) != (cb as u32) {
        (ca as u32) < (cb as u32)
    } else {
        let r = str_le_from(a, b, i + 1);
        proof {
            assert(a@.skip(i as int).drop_first() =~= a@.skip(i + 1));
            assert(b@.skip(i as int).drop_first() =~= b@.skip(i + 1));
        }
        r
    }
}

/// Whether `a` sorts no later than `b`, by scalar value.
pub fn str_lex_le(a: &str, b: &str) -> (r: bool)
    ensures
        r == lex_le(a@, b@),
{
    proof {
        assert(a@.skip(0) =~= a@);
        assert(b@.skip(0) =~= b@);
    }
    str_le_from(a, b, 0)
}

/// The key the listing sorts by: the entry's name, lowercased.
pub open spec fn entry_key(e: FileEntry) -> Seq<char> {
    lower_of(e.name@)
}

/// Entries in non-decreasing key order.
pub open spec fn sorted_entries(v: Seq<FileEntry>) -> bool {
    forall|i: int, j: int|
        0 <= i < j < v.len() ==> lex_le(entry_key(#[trigger] v[i]), entry_key(#[trigger] v[j]))
}

/// Sort the listing by lowercased name: the result is ordered and holds
/// exactly the entries given.
pub fn sort_entries(entries: Vec<FileEntry>) -> (r: Vec<FileEntry>)
    ensures
        sorted_entries(r@),
        r@.to_multiset() == entries@.to_multiset(),
{
    broadcast use vstd::seq_lib::group_to_multiset_ensures;

    let ghost all = entries@;
    let mut rest = entries;
    let mut out: Vec<FileEntry> = Vec::new();
    while rest.len() > 0
        invariant
            sorted_entries(out@),
            out@.to_multiset().add(rest@.to_multiset()) == all.to_multiset(),
            forall|i: int, j: int|
                0 <= i < out@.len() && 0 <= j < rest@.len() ==> lex_le(
                    entry_key(#[trigger] out@[i]),
                    entry_key(#[trigger] rest@[j]),
                ),
        decreases rest@.len(),
    {
        let mut m: usize = 0;
        let mut key_m = to_lowercase(rest[0].name.as_str());
        proof {
            lemma_lex_le_total(entry_key(rest@[0]), entry_key(rest@[0]));
        }
        let mut k: usize = 1;
        while k < rest.len()
            invariant
                0 < rest@.len(),
                m < k <= rest@.len(),
                key_m@ == entry_key(rest@[m as int]),
                forall|j: int|
                    0 <= j < k ==> lex_le(entry_key(rest@[m as int]), entry_key(
                        #[trigger] rest@[j],
                    )),
            decreases rest@.len() - k,
        {
            let ko = to_lowercase(rest[k].name.as_str());
            if !str_lex_le(key_m.as_str(), ko.as_str()) {
                proof {
                    lemma_lex_le_total(key_m@, ko@);
                    assert forall|j: int| 0 <= j < k + 1 implies lex_le(
                        entry_key(rest@[k as int]),
                        entry_key(rest@[j]),
                    ) by {
                        if j < k {
                            lemma_lex_le_trans(
                                entry_key(rest@[k as int]),
                                entry_key(rest@[m as int]),
                                entry_key(rest@[j]),
                            );
                        } else {
                            lemma_lex_le_total(entry_key(rest@[k as int]), entry_key(rest@[j]));
                        }
                    }
                }
                m = k;
                key_m = ko;
            }
            k += 1;
        }
        let ghost pre_rest = rest@;
        let ghost pre_out = out@;
        let e = rest.remove(m);
        out.push(e);
        proof {
            broadcast use vstd::multiset::group_multiset_axioms;

            assert(rest@ =~= pre_rest.remove(m as int));
            assert(out@ =~= pre_out.push(e));
            vstd::seq_lib::to_multiset_build(pre_out, e);
            vstd::seq_lib::to_multiset_remove(pre_rest, m as int);
            assert(pre_rest.contains(e));
            vstd::seq_lib::to_multiset_contains(pre_rest, e);
            assert(pre_rest.to_multiset().count(e) > 0);
            assert(out@.to_multiset().add(rest@.to_multiset()) =~= all.to_multiset());
            assert forall|i: int, j: int|
                0 <= i < j < out@.len() implies lex_le(
                entry_key(#[trigger] out@[i]),
                entry_key(#[trigger] out@[j]),
            ) by {
                if j < out@.len() - 1 {
                    assert(out@[i] == pre_out[i] && out@[j] == pre_out[j]);
                } else {
                    assert(out@[j] == e);
                    assert(pre_rest[m as int] == e);
                }
            }
            assert forall|i: int, j: int|
                0 <= i < out@.len() && 0 <= j < rest@.len() implies lex_le(
                entry_key(#[trigger] out@[i]),
                entry_key(#[trigger] rest@[j]),
            ) by {
                let j0 = if j < m { j } else { j + 1 };
                assert(rest@[j] == pre_rest[j0]);
                if i < out@.len() - 1 {
                    assert(out@[i] == pre_out[i]);
                } else {
                    assert(out@[i] == e && e == pre_rest[m as int]);
                    assert(lex_le(entry_key(pre_rest[m as int]), entry_key(pre_rest[j0])));
                }
            }
        }
    }
    proof {
        assert(rest@.to_multiset() =~= Multiset::<FileEntry>::empty());
        assert(out@.to_multiset() =~= all.to_multiset());
    }
    out
}

/// Whether the listing keeps a file with this extension.
pub fn is_supported_extension(ext: &str) -> (r: bool)
    ensures
        r == (kind_of_extension(lower_of(ext@)) != FileKind::Unsupported),
{
    match classify_extension(ext) {
        FileKind::Unsupported => false,
        _ => true,
    }
}

/// Whether the listing skips a directory entry as hidden: any name that
/// starts with a dot.
pub fn is_hidden_name(name: &str) -> (r: bool)
    ensures
        r == (name@.len() > 0 && name@[0] == '.'),
{
    if name.unicode_len() == 0 {
        false
    } else {
        name.get_char(0) == '.'
    }
}

} // verus!
