//! The filters panel: the list of extension labels derived from the loaded
//! index, with the select-all row `*`, and the selection toggling that keys
//! drive.

use crate::keys::InputKey;
use crate::selection::{
    all_items_in, insert_all_items, insert_all_paths, insert_paths_with_ext, last_segment_ext,
    remove_all_items, remove_paths_with_ext, spec_last_segment_ext, spec_path_set,
    spec_paths_with_ext,
};
use crate::sets::StringSet;
use crate::sorting::{insert_sorted_unique, sorted_lt};
use crate::source::SourceFile;
use vstd::prelude::*;

verus! {

/// The set of extension labels of a file index.
pub open spec fn spec_ext_set(files: Seq<SourceFile>) -> Set<Seq<char>> {
    Set::new(
        |x: Seq<char>|
            exists|i: int|
                0 <= i < files.len() && x == spec_last_segment_ext((#[trigger] files[i]).path@),
    )
}

proof fn lemma_ext_set_step(files: Seq<SourceFile>, i: int)
    requires
        0 <= i < files.len(),
    ensures
        spec_ext_set(files.subrange(0, i + 1)) =~= spec_ext_set(files.subrange(0, i)).insert(
            spec_last_segment_ext(files[i].path@),
        ),
{
    let a = files.subrange(0, i + 1);
    let b = files.subrange(0, i);
    let e = spec_last_segment_ext(files[i].path@);
    assert forall|x: Seq<char>|
        spec_ext_set(a).contains(x) <==> spec_ext_set(b).insert(e).contains(x) by {
        if spec_ext_set(a).contains(x) {
            let j = choose|j: int|
                0 <= j < a.len() && x == spec_last_segment_ext((#[trigger] a[j]).path@);
            if j < i {
                assert(x == spec_last_segment_ext(b[j].path@));
            } else {
                assert(a[i] == files[i]);
            }
        }
        if spec_ext_set(b).contains(x) {
            let j = choose|j: int|
                0 <= j < b.len() && x == spec_last_segment_ext((#[trigger] b[j]).path@);
            assert(x == spec_last_segment_ext(a[j].path@));
        }
        if x == e {
            assert(x == spec_last_segment_ext(a[i].path@));
        }
    }
}


/// What toggling the filter row at `cursor` does to the two selection
/// sets.
pub open spec fn filters_toggle_post(
    items: Seq<Seq<char>>,
    cursor: int,
    all_files: Seq<SourceFile>,
    old_ex: Set<Seq<char>>,
    old_fi: Set<Seq<char>>,
    new_ex: Set<Seq<char>>,
    new_fi: Set<Seq<char>>,
) -> bool {
    if items.len() == 0 {
        new_ex == old_ex && new_fi == old_fi
    } else {
        let it = items[cursor];
        let was = old_ex.contains(it);
        if it == "*"@ {
            if was {
                new_ex == old_ex.difference(items.to_set().insert("*"@)) && new_fi == Set::<
                    Seq<char>,
                >::empty()
            } else {
                new_ex == old_ex.union(items.to_set().insert("*"@)) && new_fi == spec_path_set(
                    all_files,
                )
            }
        } else {
            if was {
                new_ex == old_ex.remove(it).remove("*"@) && new_fi == old_fi.difference(
                    spec_paths_with_ext(all_files, it),
                )
            } else {
                new_fi == old_fi.union(spec_paths_with_ext(all_files, it)) && new_ex == (
                if items.to_set().subset_of(old_ex.insert(it)) {
                    old_ex.insert(it).insert("*"@)
                } else {
                    old_ex.insert(it)
                })
            }
        }
    }
}

/// The panel that lists extension labels, with `*` on top.
pub struct FiltersPanel {
    pub items: Vec<String>,
    pub cursor: usize,
    pub offset: usize,
}

impl FiltersPanel {
    /// The cursor points at an item whenever there is one.
    pub open spec fn wf(&self) -> bool {
        self.items@.len() > 0 ==> self.cursor < self.items@.len()
    }

    pub fn new() -> (r: FiltersPanel)
        ensures
            r.items@.len() == 0,
            r.cursor == 0,
            r.offset == 0,
            r.wf(),
    {
        FiltersPanel { items: Vec::new(), cursor: 0, offset: 0 }
    }

    /// Rebuild the panel from a fresh index: `*` followed by the sorted
    /// extension labels of the files, everything selected, and both
    /// selection sets extended with what the new index shows.
    pub fn init_values(
        &mut self,
        files: &Vec<SourceFile>,
        selected_exts: &mut StringSet,
        selected_files: &mut StringSet,
    )
        ensures
            final(self).wf(),
            final(self).cursor == 0,
            final(self).offset == 0,
            final(self).items@.len() >= 1,
            final(self).items.deep_view()[0] == "*"@,
            sorted_lt(final(self).items.deep_view().skip(1)),
            final(self).items.deep_view().skip(1).to_set() == spec_ext_set(files@),
            final(selected_exts)@ == old(selected_exts)@.union(
                final(self).items.deep_view().to_set(),
            ),
            final(selected_files)@ == old(selected_files)@.union(spec_path_set(files@)),
    {
        let n = files.len();
        let mut exts: Vec<String> = Vec::new();
        let mut i: usize = 0;
        proof {
            assert(spec_ext_set(files@.subrange(0, 0)) =~= Set::<Seq<char>>::empty());
            assert(exts.deep_view().to_set() =~= Set::<Seq<char>>::empty());
        }
        while i < n
            invariant
                n == files@.len(),
                i <= n,
                sorted_lt(exts.deep_view()),
                exts.deep_view().to_set() == spec_ext_set(files@.subrange(0, i as int)),
            decreases n - i,
        {
            let e = last_segment_ext(files[i].path.as_str());
            insert_sorted_unique(&mut exts, e);
            proof {
                lemma_ext_set_step(files@, i as int);
            }
            i = i + 1;
        }
        proof {
            assert(files@.subrange(0, n as int) =~= files@);
        }
        let mut new_items: Vec<String> = Vec::new();
        new_items.push(String::from_str("*"));
        let ghost exts_view = exts.deep_view();
        let mut exts = exts;
        new_items.append(&mut exts);
        proof {
            assert(new_items.deep_view() =~= seq!["*"@] + exts_view);
            assert(new_items.deep_view().skip(1) =~= exts_view);
        }
        self.items = new_items;
        self.cursor = 0;
        self.offset = 0;
        insert_all_items(selected_exts, &self.items);
        insert_all_paths(selected_files, files);
    }

    /// One key press: up and down move the cursor through the list, keeping
    /// the scroll offset in range.
    pub fn handle_key(&mut self, key: InputKey)
        requires
            old(self).wf(),
        ensures
            final(self).wf(),
            final(self).items == old(self).items,
            crate::keys::list_key_post(
                old(self).cursor as int,
                old(self).offset as int,
                old(self).items@.len() as int,
                final(self).cursor as int,
                final(self).offset as int,
                key,
            ),
    {
        match key {
            InputKey::Up => {
                if self.cursor > 0 {
                    self.cursor = self.cursor - 1;
                    if self.cursor < self.offset {
                        self.offset = self.cursor;
                    }
                }
            },
            InputKey::Down => {
                let n = self.items.len();
                if self.cursor < n && self.cursor + 1 < n {
                    self.cursor = self.cursor + 1;
                    let visible_count: usize = 10;
                    if self.offset <= usize::MAX - visible_count && self.cursor >= self.offset
                        + visible_count {
                        self.offset = self.cursor + 1 - visible_count;
                    }
                }
            },
            _ => {},
        }
    }

    /// Toggle the item under the cursor.  The `*` row selects or deselects
    /// everything; an extension row moves its files in or out of the
    /// selection, drops `*` on any deselection, and raises `*` when every
    /// row has become selected.
    pub fn toggle_selected(
        &mut self,
        selected_exts: &mut StringSet,
        selected_files: &mut StringSet,
        all_files: &Vec<SourceFile>,
    )
        requires
            old(self).wf(),
        ensures
            *final(self) == *old(self),
            filters_toggle_post(
                old(self).items.deep_view(),
                old(self).cursor as int,
                all_files@,
                old(selected_exts)@,
                old(selected_files)@,
                final(selected_exts)@,
                final(selected_files)@,
            ),
    {
        if self.items.len() == 0 {
            return ;
        }
        let selected_item = self.items[self.cursor].clone();
        let is_already_selected = selected_exts.contains(selected_item.as_str());
        if crate::strutil::str_eq(selected_item.as_str(), "*") {
            if is_already_selected {
                selected_exts.remove("*");
                remove_all_items(selected_exts, &self.items);
                selected_files.clear();
                proof {
                    assert(selected_exts@ =~= old(selected_exts)@.difference(
                        old(self).items.deep_view().to_set().insert("*"@),
                    ));
                }
            } else {
                selected_exts.insert(String::from_str("*"));
                insert_all_items(selected_exts, &self.items);
                selected_files.clear();
                insert_all_paths(selected_files, all_files);
                proof {
                    assert(selected_exts@ =~= old(selected_exts)@.union(
                        old(self).items.deep_view().to_set().insert("*"@),
                    ));
                    assert(selected_files@ =~= spec_path_set(all_files@));
                }
            }
        } else {
            if is_already_selected {
                selected_exts.remove(selected_item.as_str());
                remove_paths_with_ext(selected_files, all_files, selected_item.as_str());
                selected_exts.remove("*");
            } else {
                selected_exts.insert(selected_item.clone());
                insert_paths_with_ext(selected_files, all_files, selected_item.as_str());
                let all_included = all_items_in(selected_exts, &self.items);
                if all_included {
                    selected_exts.insert(String::from_str("*"));
                }
            }
        }
    }
}

} // verus!
