//! Bulk operations of the selection state: seeding and toggling the
//! selected-files and selected-extensions sets from a file index.  The
//! extension of a path here is what the filters panel shows: the part after
//! the last dot, or the whole path when it has none.

use crate::sets::StringSet;
use crate::source::SourceFile;
use crate::strutil::{find_last, last_pos, lemma_last_pos, substring_copy};
use vstd::prelude::*;

verus! {

/// The filter label of a path: everything after its last dot, or the whole
/// path when it holds no dot.
pub open spec fn spec_last_segment_ext(p: Seq<char>) -> Seq<char> {
    p.subrange(last_pos(p, '.') + 1, p.len() as int)
}

/// The filter label of `p`.
pub fn last_segment_ext(p: &str) -> (r: String)
    ensures
        r@ == spec_last_segment_ext(p@),
{
    proof {
        lemma_last_pos(p@, '.');
    }
    let n = p.unicode_len();
    let start: usize = match find_last(p, '.') {
        Some(i) => i + 1,
        None => 0,
    };
    substring_copy(p, start, n)
}

/// The set of paths of a file index.
pub open spec fn spec_path_set(files: Seq<SourceFile>) -> Set<Seq<char>> {
    Set::new(|p: Seq<char>| exists|i: int| 0 <= i < files.len() && (#[trigger] files[i].path@) == p)
}

/// The paths of a file index whose filter label is `e`.
pub open spec fn spec_paths_with_ext(files: Seq<SourceFile>, e: Seq<char>) -> Set<Seq<char>> {
    Set::new(
        |p: Seq<char>|
            exists|i: int|
                0 <= i < files.len() && (#[trigger] files[i].path@) == p && spec_last_segment_ext(
                    p,
                ) == e,
    )
}

pub proof fn lemma_path_set_step(files: Seq<SourceFile>, i: int)
    requires
        0 <= i < files.len(),
    ensures
        spec_path_set(files.subrange(0, i + 1)) =~= spec_path_set(files.subrange(0, i)).insert(
            files[i].path@,
        ),
{
    let a = files.subrange(0, i + 1);
    let b = files.subrange(0, i);
    assert forall|p: Seq<char>|
        spec_path_set(a).contains(p) <==> spec_path_set(b).insert(files[i].path@).contains(
            p,
        ) by {
        if spec_path_set(a).contains(p) {
            let j = choose|j: int| 0 <= j < a.len() && (#[trigger] a[j].path@) == p;
            if j < i {
                assert(b[j].path@ == p);
            } else {
                assert(a[i].path@ == files[i].path@);
            }
        }
        if spec_path_set(b).contains(p) {
            let j = choose|j: int| 0 <= j < b.len() && (#[trigger] b[j].path@) == p;
            assert(a[j].path@ == p);
        }
        if p == files[i].path@ {
            assert(a[i].path@ == p);
        }
    }
}

proof fn lemma_paths_with_ext_step(files: Seq<SourceFile>, e: Seq<char>, i: int)
    requires
        0 <= i < files.len(),
    ensures
        spec_paths_with_ext(files.subrange(0, i + 1), e) =~= (if spec_last_segment_ext(
            files[i].path@,
        ) == e {
            spec_paths_with_ext(files.subrange(0, i), e).insert(files[i].path@)
        } else {
            spec_paths_with_ext(files.subrange(0, i), e)
        }),
{
    let a = files.subrange(0, i + 1);
    let b = files.subrange(0, i);
    let hit = spec_last_segment_ext(files[i].path@) == e;
    assert forall|p: Seq<char>|
        spec_paths_with_ext(a, e).contains(p) <==> (if hit {
            spec_paths_with_ext(b, e).insert(files[i].path@).contains(p)
        } else {
            spec_paths_with_ext(b, e).contains(p)
        }) by {
        if spec_paths_with_ext(a, e).contains(p) {
            let j = choose|j: int|
                0 <= j < a.len() && (#[trigger] a[j].path@) == p && spec_last_segment_ext(p) == e;
            if j < i {
                assert(b[j].path@ == p);
            } else {
                assert(a[i].path@ == files[i].path@);
            }
        }
        if spec_paths_with_ext(b, e).contains(p) {
            let j = choose|j: int|
                0 <= j < b.len() && (#[trigger] b[j].path@) == p && spec_last_segment_ext(p) == e;
            assert(a[j].path@ == p);
        }
        if hit && p == files[i].path@ {
            assert(a[i].path@ == p);
        }
    }
}

/// Add the path of every file to the set.
pub fn insert_all_paths(sel: &mut StringSet, files: &Vec<SourceFile>)
    ensures
        final(sel)@ == old(sel)@.union(spec_path_set(files@)),
{
    let n = files.len();
    let mut i: usize = 0;
    proof {
        assert(spec_path_set(files@.subrange(0, 0)) =~= Set::<Seq<char>>::empty());
        assert(old(sel)@.union(Set::empty()) =~= old(sel)@);
    }
    while i < n
        invariant
            n == files@.len(),
            i <= n,
            sel@ == old(sel)@.union(spec_path_set(files@.subrange(0, i as int))),
        decreases n - i,
    {
        sel.insert(files[i].path.clone());
        proof {
            lemma_path_set_step(files@, i as int);
            assert(sel@ =~= old(sel)@.union(spec_path_set(files@.subrange(0, i + 1 as int))));
        }
        i = i + 1;
    }
    proof {
        assert(files@.subrange(0, n as int) =~= files@);
    }
}

/// Add the path of every file whose filter label is `e`.
pub fn insert_paths_with_ext(sel: &mut StringSet, files: &Vec<SourceFile>, e: &str)
    ensures
        final(sel)@ == old(sel)@.union(spec_paths_with_ext(files@, e@)),
{
    let n = files.len();
    let mut i: usize = 0;
    proof {
        assert(spec_paths_with_ext(files@.subrange(0, 0), e@) =~= Set::<Seq<char>>::empty());
        assert(old(sel)@.union(Set::empty()) =~= old(sel)@);
    }
    while i < n
        invariant
            n == files@.len(),
            i <= n,
            sel@ == old(sel)@.union(spec_paths_with_ext(files@.subrange(0, i as int), e@)),
        decreases n - i,
    {
        let ext = last_segment_ext(files[i].path.as_str());
        if crate::strutil::str_eq(ext.as_str(), e) {
            sel.insert(files[i].path.clone());
        }
        proof {
            lemma_paths_with_ext_step(files@, e@, i as int);
            assert(sel@ =~= old(sel)@.union(
                spec_paths_with_ext(files@.subrange(0, i + 1 as int), e@),
            ));
        }
        i = i + 1;
    }
    proof {
        assert(files@.subrange(0, n as int) =~= files@);
    }
}

/// Drop the path of every file whose filter label is `e`.
pub fn remove_paths_with_ext(sel: &mut StringSet, files: &Vec<SourceFile>, e: &str)
    ensures
        final(sel)@ == old(sel)@.difference(spec_paths_with_ext(files@, e@)),
{
    let n = files.len();
    let mut i: usize = 0;
    proof {
        assert(spec_paths_with_ext(files@.subrange(0, 0), e@) =~= Set::<Seq<char>>::empty());
        assert(old(sel)@.difference(Set::empty()) =~= old(sel)@);
    }
    while i < n
        invariant
            n == files@.len(),
            i <= n,
            sel@ == old(sel)@.difference(spec_paths_with_ext(files@.subrange(0, i as int), e@)),
        decreases n - i,
    {
        let ext = last_segment_ext(files[i].path.as_str());
        if crate::strutil::str_eq(ext.as_str(), e) {
            sel.remove(files[i].path.as_str());
        }
        proof {
            lemma_paths_with_ext_step(files@, e@, i as int);
            assert(sel@ =~= old(sel)@.difference(
                spec_paths_with_ext(files@.subrange(0, i + 1 as int), e@),
            ));
        }
        i = i + 1;
    }
    proof {
        assert(files@.subrange(0, n as int) =~= files@);
    }
}

/// Add every string of `items` to the set.
pub fn insert_all_items(sel: &mut StringSet, items: &Vec<String>)
    ensures
        final(sel)@ == old(sel)@.union(items.deep_view().to_set()),
{
    broadcast use vstd::prelude::Seq::lemma_push_to_set_commute;

    let n = items.len();
    let mut i: usize = 0;
    proof {
        assert(items.deep_view().subrange(0, 0).to_set() =~= Set::<Seq<char>>::empty());
        assert(old(sel)@.union(Set::empty()) =~= old(sel)@);
    }
    while i < n
        invariant
            n == items@.len(),
            i <= n,
            sel@ == old(sel)@.union(items.deep_view().subrange(0, i as int).to_set()),
        decreases n - i,
    {
        sel.insert(items[i].clone());
        proof {
            assert(items.deep_view().subrange(0, i + 1 as int) =~= items.deep_view().subrange(
                0,
                i as int,
            ).push(items.deep_view()[i as int]));
            vstd::prelude::Seq::lemma_push_to_set_commute(
                items.deep_view().subrange(0, i as int),
                items.deep_view()[i as int],
            );
            assert(sel@ =~= old(sel)@.union(
                items.deep_view().subrange(0, i + 1 as int).to_set(),
            ));
        }
        i = i + 1;
    }
    proof {
        assert(items.deep_view().subrange(0, n as int) =~= items.deep_view());
    }
}

/// Drop every string of `items` from the set.
pub fn remove_all_items(sel: &mut StringSet, items: &Vec<String>)
    ensures
        final(sel)@ == old(sel)@.difference(items.deep_view().to_set()),
{
    broadcast use vstd::prelude::Seq::lemma_push_to_set_commute;

    let n = items.len();
    let mut i: usize = 0;
    proof {
        assert(items.deep_view().subrange(0, 0).to_set() =~= Set::<Seq<char>>::empty());
        assert(old(sel)@.difference(Set::empty()) =~= old(sel)@);
    }
    while i < n
        invariant
            n == items@.len(),
            i <= n,
            sel@ == old(sel)@.difference(items.deep_view().subrange(0, i as int).to_set()),
        decreases n - i,
    {
        sel.remove(items[i].as_str());
        proof {
            assert(items.deep_view().subrange(0, i + 1 as int) =~= items.deep_view().subrange(
                0,
                i as int,
            ).push(items.deep_view()[i as int]));
            vstd::prelude::Seq::lemma_push_to_set_commute(
                items.deep_view().subrange(0, i as int),
                items.deep_view()[i as int],
            );
            assert(sel@ =~= old(sel)@.difference(
                items.deep_view().subrange(0, i + 1 as int).to_set(),
            ));
        }
        i = i + 1;
    }
    proof {
        assert(items.deep_view().subrange(0, n as int) =~= items.deep_view());
    }
}

/// Whether some file of the index has the path `p`.
pub fn index_has_path(files: &Vec<SourceFile>, p: &str) -> (r: bool)
    ensures
        r == spec_path_set(files@).contains(p@),
{
    let n = files.len();
    let mut i: usize = 0;
    while i < n
        invariant
            n == files@.len(),
            i <= n,
            forall|j: int| 0 <= j < i ==> (#[trigger] files@[j].path@) != p@,
        decreases n - i,
    {
        if crate::strutil::str_eq(files[i].path.as_str(), p) {
            proof {
                assert(files@[i as int].path@ == p@);
            }
            return true;
        }
        i = i + 1;
    }
    false
}

/// Whether every file of the index whose filter label is `e` has its path
/// in the set.
pub fn all_ext_paths_selected(sel: &StringSet, files: &Vec<SourceFile>, e: &str) -> (r: bool)
    ensures
        r == spec_paths_with_ext(files@, e@).subset_of(sel@),
{
    let n = files.len();
    let mut i: usize = 0;
    while i < n
        invariant
            n == files@.len(),
            i <= n,
            forall|j: int|
                0 <= j < i && spec_last_segment_ext((#[trigger] files@[j]).path@) == e@
                    ==> sel@.contains(files@[j].path@),
        decreases n - i,
    {
        let ext = last_segment_ext(files[i].path.as_str());
        if crate::strutil::str_eq(ext.as_str(), e) {
            if !sel.contains(files[i].path.as_str()) {
                proof {
                    assert(spec_paths_with_ext(files@, e@).contains(files@[i as int].path@));
                }
                return false;
            }
        }
        i = i + 1;
    }
    proof {
        assert forall|x: Seq<char>|
            spec_paths_with_ext(files@, e@).contains(x) implies sel@.contains(x) by {
            let j = choose|j: int|
                0 <= j < files@.len() && (#[trigger] files@[j].path@) == x
                    && spec_last_segment_ext(x) == e@;
            assert(spec_last_segment_ext(files@[j].path@) == e@);
        }
    }
    true
}

/// Whether every string of `items` is in the set.
pub fn all_items_in(sel: &StringSet, items: &Vec<String>) -> (r: bool)
    ensures
        r == items.deep_view().to_set().subset_of(sel@),
{
    let n = items.len();
    let mut i: usize = 0;
    while i < n
        invariant
            n == items@.len(),
            i <= n,
            forall|j: int| 0 <= j < i ==> sel@.contains(#[trigger] items.deep_view()[j]),
        decreases n - i,
    {
        if !sel.contains(items[i].as_str()) {
            proof {
                assert(items.deep_view().to_set().contains(items.deep_view()[i as int]));
            }
            return false;
        }
        i = i + 1;
    }
    proof {
        assert forall|x: Seq<char>|
            items.deep_view().to_set().contains(x) implies sel@.contains(x) by {
            let j = choose|j: int|
                0 <= j < items.deep_view().len() && items.deep_view()[j] == x;
            assert(sel@.contains(items.deep_view()[j]));
        }
    }
    true
}

} // verus!
