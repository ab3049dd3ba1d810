use vstd::prelude::*;
use crate::text::{normalize_source_dir, str_eq, with_trailing_slash};

verus! {

/// The exact argument list handed to the mirror tool: archive mode, delete
/// extraneous destination entries, exclude hidden files and hidden
/// directories, then the normalized copy-from directory and the copy-to
/// directory.
pub fn mirror_args(source: &str, destination: &str) -> (args: Vec<String>)
    ensures
        args@.len() == 8,
        args@[0]@ == "-av"@,
        args@[1]@ == "--delete"@,
        args@[2]@ == "--exclude"@,
        args@[3]@ == ".*"@,
        args@[4]@ == "--exclude"@,
        args@[5]@ == ".*."@,
        args@[6]@ == with_trailing_slash(source@),
        args@[7]@ == destination@,
{
    let mut args: Vec<String> = Vec::new();
    args.push(String::from_str("-av"));
    args.push(String::from_str("--delete"));
    args.push(String::from_str("--exclude"));
    args.push(String::from_str(".*"));
    args.push(String::from_str("--exclude"));
    args.push(String::from_str(".*."));
    args.push(normalize_source_dir(source));
    args.push(destination.to_owned());
    args
}

/// A top-level entry name is hidden when it begins with `.`.
pub open spec fn hidden_name(n: Seq<char>) -> bool {
    n.len() > 0 && n[0] == '.'
}

/// The names of a list of entries.
pub open spec fn views_of(v: Seq<String>) -> Seq<Seq<char>> {
    v.map_values(|s: String| s@)
}

/// The entries the mirror copies: those of the source, hidden ones left
/// out, order kept.
pub open spec fn visible_entries(src: Seq<Seq<char>>) -> Seq<Seq<char>>
    decreases src.len(),
{
    if src.len() == 0 {
        Seq::empty()
    } else if hidden_name(src.last()) {
        visible_entries(src.drop_last())
    } else {
        visible_entries(src.drop_last()).push(src.last())
    }
}

/// The entries the mirror deletes: those of the destination that are
/// neither hidden nor present at the source, order kept.
pub open spec fn stale_entries(dst: Seq<Seq<char>>, src: Seq<Seq<char>>) -> Seq<Seq<char>>
    decreases dst.len(),
{
    if dst.len() == 0 {
        Seq::empty()
    } else if !hidden_name(dst.last()) && !src.contains(dst.last()) {
        stale_entries(dst.drop_last(), src).push(dst.last())
    } else {
        stale_entries(dst.drop_last(), src)
    }
}

/// What one mirror copy does to the two trees' top-level entries.
#[derive(Debug)]
pub struct MirrorPlan {
    /// Source entries whose contents are copied over.
    pub copy: Vec<String>,
    /// Destination entries that are deleted.
    pub delete: Vec<String>,
}

/// Whether the entry name begins with `.`.
fn is_hidden(s: &String) -> (b: bool)
    ensures
        b == hidden_name(s@),
{
    let n = s.as_str().unicode_len();
    n > 0 && s.as_str().get_char(0) == '.'
}

/// Whether some entry of `v` is named `x`.
fn contains_entry(v: &Vec<String>, x: &String) -> (b: bool)
    ensures
        b == views_of(v@).contains(x@),
{
    let mut i: usize = 0;
    while i < v.len()
        invariant
            i <= v@.len(),
            forall|k: int| 0 <= k < i ==> views_of(v@)[k] != x@,
        decreases v@.len() - i,
    {
        if str_eq(v[i].as_str(), x.as_str()) {
            proof {
                assert(views_of(v@)[i as int] == x@);
            }
            return true;
        }
        i += 1;
    }
    proof {
        assert(forall|k: int| 0 <= k < views_of(v@).len() ==> views_of(v@)[k] != x@);
    }
    false
}

/// Plans one mirror copy over the top-level entry names of the two trees:
/// which entries are copied and which are deleted, per mirror semantics
/// with hidden entries excluded on both sides.
pub fn mirror_plan(source_entries: &Vec<String>, dest_entries: &Vec<String>) -> (p: MirrorPlan)
    ensures
        views_of(p.copy@) == visible_entries(views_of(source_entries@)),
        views_of(p.delete@) == stale_entries(views_of(dest_entries@), views_of(source_entries@)),
{
    let ghost src_names = views_of(source_entries@);
    let ghost dst_names = views_of(dest_entries@);
    let mut copy: Vec<String> = Vec::new();
    let mut i: usize = 0;
    while i < source_entries.len()
        invariant
            i <= source_entries@.len(),
            src_names == views_of(source_entries@),
            views_of(copy@) == visible_entries(src_names.subrange(0, i as int)),
        decreases source_entries@.len() - i,
    {
        if !is_hidden(&source_entries[i]) {
            copy.push(source_entries[i].clone());
        }
        i += 1;
        proof {
            assert(src_names.subrange(0, i as int).drop_last() =~= src_names.subrange(
                0,
                i as int - 1,
            ));
            assert(src_names.subrange(0, i as int).last() == source_entries@[i as int - 1]@);
            assert(views_of(copy@) =~= visible_entries(src_names.subrange(0, i as int)));
        }
    }
    proof {
        assert(src_names.subrange(0, src_names.len() as int) =~= src_names);
    }
    let mut delete: Vec<String> = Vec::new();
    let mut j: usize = 0;
    while j < dest_entries.len()
        invariant
            j <= dest_entries@.len(),
            src_names == views_of(source_entries@),
            dst_names == views_of(dest_entries@),
            views_of(copy@) == visible_entries(src_names),
            views_of(delete@) == stale_entries(dst_names.subrange(0, j as int), src_names),
        decreases dest_entries@.len() - j,
    {
        if !is_hidden(&dest_entries[j]) && !contains_entry(source_entries, &dest_entries[j]) {
            delete.push(dest_entries[j].clone());
        }
        j += 1;
        proof {
            assert(dst_names.subrange(0, j as int).drop_last() =~= dst_names.subrange(
                0,
                j as int - 1,
            ));
            assert(dst_names.subrange(0, j as int).last() == dest_entries@[j as int - 1]@);
            assert(views_of(delete@) =~= stale_entries(dst_names.subrange(0, j as int), src_names));
        }
    }
    proof {
        assert(dst_names.subrange(0, dst_names.len() as int) =~= dst_names);
    }
    MirrorPlan { copy, delete }
}

/// No copied entry is hidden.
proof fn lemma_visible_spares_hidden(src: Seq<Seq<char>>)
    ensures
        forall|k: int|
            0 <= k < visible_entries(src).len() ==> !hidden_name(
                #[trigger] visible_entries(src)[k],
            ),
    decreases src.len(),
{
    if src.len() > 0 {
        lemma_visible_spares_hidden(src.drop_last());
        let v = visible_entries(src);
        let vd = visible_entries(src.drop_last());
        assert forall|k: int| 0 <= k < v.len() implies !hidden_name(v[k]) by {
            if hidden_name(src.last()) {
                assert(!hidden_name(vd[k]));
            } else if k < vd.len() {
                assert(v[k] == vd[k]);
                assert(!hidden_name(vd[k]));
            } else {
                assert(v[k] == src.last());
            }
        }
    }
}

/// No deleted entry is hidden.
proof fn lemma_stale_spares_hidden(dst: Seq<Seq<char>>, src: Seq<Seq<char>>)
    ensures
        forall|k: int|
            0 <= k < stale_entries(dst, src).len() ==> !hidden_name(
                #[trigger] stale_entries(dst, src)[k],
            ),
    decreases dst.len(),
{
    if dst.len() > 0 {
        lemma_stale_spares_hidden(dst.drop_last(), src);
        let v = stale_entries(dst, src);
        let vd = stale_entries(dst.drop_last(), src);
        assert forall|k: int| 0 <= k < v.len() implies !hidden_name(v[k]) by {
            if !hidden_name(dst.last()) && !src.contains(dst.last()) {
                if k < vd.len() {
                    assert(v[k] == vd[k]);
                    assert(!hidden_name(vd[k]));
                } else {
                    assert(v[k] == dst.last());
                }
            } else {
                assert(!hidden_name(vd[k]));
            }
        }
    }
}

/// The mirror copy never copies or deletes a top-level entry whose name
/// begins with `.`: hidden files and hidden directories — version-control
/// metadata above all — are spared on both trees, whatever the two trees
/// hold.
pub proof fn lemma_mirror_spares_hidden(src: Seq<Seq<char>>, dst: Seq<Seq<char>>)
    ensures
        forall|k: int|
            0 <= k < visible_entries(src).len() ==> !hidden_name(
                #[trigger] visible_entries(src)[k],
            ),
        forall|k: int|
            0 <= k < stale_entries(dst, src).len() ==> !hidden_name(
                #[trigger] stale_entries(dst, src)[k],
            ),
{
    lemma_visible_spares_hidden(src);
    lemma_stale_spares_hidden(dst, src);
}

} // verus!
