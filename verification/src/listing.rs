//! HTML rendering of a directory listing.
//!
//! Given the display path of a directory and its immediate entries, the
//! renderer produces one HTML document: a title and heading of
//! `Index of {path}`, a parent-directory row for every directory except
//! the root `/`, and one table row per entry — directories as
//! `{name}/` links without a size cell, files as `{name}` links with a
//! `{size} Bytes` cell.  The entries come in as plain values; enumerating
//! the filesystem is the caller's business.

use vstd::prelude::*;
use vstd::seq_lib::lemma_concat_associative;
use vstd::string::StrSliceExecFns;
use vstd::string::StringExecFns;
use crate::text::append_decimal;
use crate::text::spec_decimal;
use crate::text::str_eq;

verus! {

/// One directory member, as the filesystem reported it: a name, whether
/// it is itself a directory, and its size in bytes (meaningful for files).
pub struct DirEntryView {
    pub name: String,
    pub is_dir: bool,
    pub size_bytes: u64,
}

/// The mathematical image of a `DirEntryView`.
pub struct DirEntryModel {
    pub name: Seq<char>,
    pub is_dir: bool,
    pub size_bytes: u64,
}

impl View for DirEntryView {
    type V = DirEntryModel;

    open spec fn view(&self) -> DirEntryModel {
        DirEntryModel { name: self.name@, is_dir: self.is_dir, size_bytes: self.size_bytes }
    }
}

/// The models of a sequence of entries, in order.
pub open spec fn entry_models(es: Seq<DirEntryView>) -> Seq<DirEntryModel> {
    es.map_values(|e: DirEntryView| e@)
}

/// The display path: the local path with every leading `.` stripped.
pub open spec fn spec_display_path(s: Seq<char>) -> Seq<char>
    decreases s.len(),
{
    if s.len() > 0 && s[0] == '.' {
        spec_display_path(s.skip(1))
    } else {
        s
    }
}

/// The table row for one entry: directories link to `{path}{name}/` and
/// have an empty size cell, files link to `{path}{name}` and show their
/// size in bytes.
pub open spec fn spec_entry_row(dir: Seq<char>, e: DirEntryModel) -> Seq<char> {
    if e.is_dir {
        "<tr><td><a href=\""@ + dir + e.name + "/\">"@ + e.name + "/</a></td><td></td></tr>"@
    } else {
        "<tr><td><a href=\""@ + dir + e.name + "\">"@ + e.name + "</a></td><td>"@
            + spec_decimal(e.size_bytes as nat) + " Bytes</td></tr>"@
    }
}

/// The rows for a sequence of entries, in enumeration order.
pub open spec fn spec_rows(dir: Seq<char>, es: Seq<DirEntryModel>) -> Seq<char>
    decreases es.len(),
{
    if es.len() == 0 {
        Seq::empty()
    } else {
        spec_entry_row(dir, es[0]) + spec_rows(dir, es.drop_first())
    }
}

/// The parent-directory row, present for every directory but the root.
pub open spec fn spec_parent_row(dir: Seq<char>) -> Seq<char> {
    if dir == "/"@ {
        Seq::empty()
    } else {
        "<tr><td><a href=\""@ + dir + "../\">../</a></td><td></td></tr>"@
    }
}

/// The complete listing document for a display path and its entries.
pub open spec fn spec_dir_listing(dir: Seq<char>, es: Seq<DirEntryModel>) -> Seq<char> {
    "<head><title>Index of "@ + dir + "</title></head>"@ + "<body><h1>Index of "@ + dir
        + "</h1><table><tbody>"@ + spec_parent_row(dir) + spec_rows(dir, es)
        + "</tbody></table></body>"@
}

proof fn lemma_rows_snoc(dir: Seq<char>, es: Seq<DirEntryModel>, k: int)
    requires
        0 <= k < es.len(),
    ensures
        spec_rows(dir, es.take(k + 1)) == spec_rows(dir, es.take(k)) + spec_entry_row(
            dir,
            es[k],
        ),
    decreases k,
{
    let row = spec_entry_row(dir, es[k]);
    if k == 0 {
        assert(es.take(1) =~= seq![es[0]]);
        assert(es.take(1).drop_first() =~= Seq::<DirEntryModel>::empty());
        assert(es.take(0) =~= Seq::<DirEntryModel>::empty());
        assert(row + Seq::<char>::empty() =~= row);
        assert(Seq::<char>::empty() + row =~= row);
    } else {
        let tail = es.drop_first();
        lemma_rows_snoc(dir, tail, k - 1);
        assert(es.take(k + 1).drop_first() =~= tail.take(k));
        assert(es.take(k).drop_first() =~= tail.take(k - 1));
        assert(es.take(k + 1)[0] == es[0]);
        assert(es.take(k)[0] == es[0]);
        assert(tail[k - 1] == es[k]);
        lemma_concat_associative(
            spec_entry_row(dir, es[0]),
            spec_rows(dir, tail.take(k - 1)),
            row,
        );
    }
}

fn display_path_of(local_path: &str) -> (r: &str)
    ensures
        r@ == spec_display_path(local_path@),
{
    let n = local_path.unicode_len();
    let mut i: usize = 0;
    proof {
        assert(local_path@.skip(0) =~= local_path@);
    }
    while i < n
        invariant
            i <= n,
            n == local_path@.len(),
            spec_display_path(local_path@) == spec_display_path(local_path@.skip(i as int)),
        decreases n - i,
    {
        if local_path.get_char(i) != '.' {
            let r = local_path.substring_char(i, n);
            proof {
                assert(local_path@.skip(i as int) =~= local_path@.subrange(
                    i as int,
                    n as int,
                ));
            }
            return r;
        }
        i = i + 1;
        proof {
            assert(local_path@.skip(i - 1).skip(1) =~= local_path@.skip(i as int));
        }
    }
    let r = local_path.substring_char(n, n);
    proof {
        assert(local_path@.skip(n as int) =~= Seq::<char>::empty());
        assert(r@ =~= Seq::<char>::empty());
    }
    r
}

/// Renders the listing document for a directory's local path and its
/// entries; the display path is the local path with leading `.` stripped.
pub fn render_dir_listing(local_path: &str, entries: &Vec<DirEntryView>) -> (r: String)
    ensures
        r@ == spec_dir_listing(spec_display_path(local_path@), entry_models(entries@)),
{
    let dir = display_path_of(local_path);
    let ghost d = dir@;
    let ghost models = entry_models(entries@);
    let mut out = String::new();
    out.append("<head><title>Index of ");
    out.append(dir);
    out.append("</title></head>");
    out.append("<body><h1>Index of ");
    out.append(dir);
    out.append("</h1><table><tbody>");
    let ghost x = "<head><title>Index of "@ + d + "</title></head>"@
        + "<body><h1>Index of "@ + d + "</h1><table><tbody>"@;
    proof {
        assert(Seq::<char>::empty() + "<head><title>Index of "@ =~= "<head><title>Index of "@);
    }
    if !str_eq(dir, "/") {
        out.append("<tr><td><a href=\"");
        out.append(dir);
        out.append("../\">../</a></td><td></td></tr>");
        proof {
            lemma_concat_associative(x, "<tr><td><a href=\""@, d);
            lemma_concat_associative(x, "<tr><td><a href=\""@ + d, "../\">../</a></td><td></td></tr>"@);
        }
    } else {
        proof {
            assert(x + Seq::<char>::empty() =~= x);
        }
    }
    let ghost head = x + spec_parent_row(d);
    proof {
        assert(out@ == head);
        assert(models.take(0) =~= Seq::<DirEntryModel>::empty());
        assert(head + Seq::<char>::empty() =~= head);
    }
    let mut k: usize = 0;
    while k < entries.len()
        invariant
            k <= entries.len(),
            d == dir@,
            models == entry_models(entries@),
            head == x + spec_parent_row(d),
            x == "<head><title>Index of "@ + d + "</title></head>"@
                + "<body><h1>Index of "@ + d + "</h1><table><tbody>"@,
            out@ == head + spec_rows(d, models.take(k as int)),
        decreases entries.len() - k,
    {
        let ghost out0 = out@;
        let e = &entries[k];
        let ghost m = models[k as int];
        proof {
            assert(m == entries@[k as int]@);
        }
        if e.is_dir {
            out.append("<tr><td><a href=\"");
            out.append(dir);
            out.append(e.name.as_str());
            out.append("/\">");
            out.append(e.name.as_str());
            out.append("/</a></td><td></td></tr>");
            proof {
                let l1 = "<tr><td><a href=\""@;
                let l2 = "/\">"@;
                let l3 = "/</a></td><td></td></tr>"@;
                let nm = m.name;
                lemma_concat_associative(out0, l1, d);
                lemma_concat_associative(out0, l1 + d, nm);
                lemma_concat_associative(out0, l1 + d + nm, l2);
                lemma_concat_associative(out0, l1 + d + nm + l2, nm);
                lemma_concat_associative(out0, l1 + d + nm + l2 + nm, l3);
                assert(out@ == out0 + spec_entry_row(d, m));
            }
        } else {
            out.append("<tr><td><a href=\"");
            out.append(dir);
            out.append(e.name.as_str());
            out.append("\">");
            out.append(e.name.as_str());
            out.append("</a></td><td>");
            append_decimal(&mut out, e.size_bytes);
            out.append(" Bytes</td></tr>");
            proof {
                let l1 = "<tr><td><a href=\""@;
                let l2 = "\">"@;
                let l3 = "</a></td><td>"@;
                let l4 = " Bytes</td></tr>"@;
                let nm = m.name;
                let dec = spec_decimal(m.size_bytes as nat);
                lemma_concat_associative(out0, l1, d);
                lemma_concat_associative(out0, l1 + d, nm);
                lemma_concat_associative(out0, l1 + d + nm, l2);
                lemma_concat_associative(out0, l1 + d + nm + l2, nm);
                lemma_concat_associative(out0, l1 + d + nm + l2 + nm, l3);
                lemma_concat_associative(out0, l1 + d + nm + l2 + nm + l3, dec);
                lemma_concat_associative(out0, l1 + d + nm + l2 + nm + l3 + dec, l4);
                assert(out@ == out0 + spec_entry_row(d, m));
            }
        }
        proof {
            lemma_rows_snoc(d, models, k as int);
            lemma_concat_associative(head, spec_rows(d, models.take(k as int)), spec_entry_row(
                d,
                m,
            ));
            assert(out@ == head + spec_rows(d, models.take(k + 1)));
        }
        k = k + 1;
    }
    proof {
        assert(models.take(models.len() as int) =~= models);
    }
    out.append("</tbody></table></body>");
    proof {
        assert(out@ == spec_dir_listing(d, models));
    }
    out
}

} // verus!
