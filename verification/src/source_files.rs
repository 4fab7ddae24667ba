//! The file-list panel: the sorted paths of the loaded index, per-file
//! token-count status, the panel title, and selection toggling for single
//! files.

use crate::keys::InputKey;
use crate::selection::{
    all_ext_paths_selected, index_has_path, insert_all_paths, last_segment_ext,
    lemma_path_set_step, spec_last_segment_ext, spec_path_set, spec_paths_with_ext,
};
use crate::sets::StringSet;
use crate::sorting::{sort_strings, sorted_le};
use crate::source::SourceFile;
use crate::strutil::{concat2, spec_digits, spec_grouped, str_eq, u64_to_string};
use vstd::prelude::*;

verus! {

/// The token-count state of one file.
#[derive(Debug, Clone, Copy, PartialEq, Eq, Structural)]
pub enum TokenStatus {
    NotCounted,
    Counting,
    Done(usize),
    Error,
}

/// The statuses as a map from path to latest status: an entry log where the
/// newest entry for a path wins.
pub struct TokenStatusMap {
    entries: Vec<(String, TokenStatus)>,
}

/// The map that an entry log denotes.
pub closed spec fn map_of(entries: Seq<(String, TokenStatus)>) -> Map<Seq<char>, TokenStatus>
    decreases entries.len(),
{
    if entries.len() == 0 {
        Map::empty()
    } else {
        map_of(entries.drop_last()).insert(
            entries[entries.len() - 1].0@,
            entries[entries.len() - 1].1,
        )
    }
}

proof fn lemma_map_of_suffix_free(entries: Seq<(String, TokenStatus)>, k: Seq<char>, i: int)
    requires
        0 <= i <= entries.len(),
        forall|j: int| i <= j < entries.len() ==> (#[trigger] entries[j].0@) != k,
    ensures
        map_of(entries).contains_key(k) == map_of(entries.subrange(0, i)).contains_key(k),
        map_of(entries).contains_key(k) ==> map_of(entries)[k] == map_of(entries.subrange(0, i))[k],
    decreases entries.len(),
{
    if i == entries.len() {
        assert(entries.subrange(0, i) =~= entries);
    } else {
        assert(entries[entries.len() - 1].0@ != k);
        assert forall|j: int|
            i <= j < entries.drop_last().len() implies (#[trigger] entries.drop_last()[j].0@)
            != k by {
            assert(entries.drop_last()[j] == entries[j]);
        }
        lemma_map_of_suffix_free(entries.drop_last(), k, i);
        assert(entries.drop_last().subrange(0, i) =~= entries.subrange(0, i));
    }
}

impl View for TokenStatusMap {
    type V = Map<Seq<char>, TokenStatus>;

    closed spec fn view(&self) -> Map<Seq<char>, TokenStatus> {
        map_of(self.entries@)
    }
}

impl TokenStatusMap {
    /// The empty status map.
    pub fn new() -> (r: TokenStatusMap)
        ensures
            r@ == Map::<Seq<char>, TokenStatus>::empty(),
    {
        let r = TokenStatusMap { entries: Vec::new() };
        proof {
            assert(r.entries@.len() == 0);
        }
        r
    }

    /// Record the latest status of a path.
    pub fn set(&mut self, path: &str, st: TokenStatus)
        ensures
            final(self)@ == old(self)@.insert(path@, st),
    {
        self.entries.push((path.to_owned(), st));
        proof {
            assert(self.entries@.drop_last() =~= old(self).entries@);
        }
    }

    /// The latest status of a path, if one was ever recorded.
    pub fn get(&self, path: &str) -> (r: Option<TokenStatus>)
        ensures
            r == (if self@.contains_key(path@) {
                Some(self@[path@])
            } else {
                None::<TokenStatus>
            }),
    {
        let n = self.entries.len();
        let mut i: usize = n;
        while i > 0
            invariant
                n == self.entries@.len(),
                i <= n,
                forall|j: int| i <= j < n ==> (#[trigger] self.entries@[j].0@) != path@,
            decreases i,
        {
            i = i - 1;
            if str_eq(self.entries[i].0.as_str(), path) {
                proof {
                    lemma_map_of_suffix_free(self.entries@, path@, i + 1 as int);
                    let pre = self.entries@.subrange(0, i + 1 as int);
                    assert(pre.drop_last() =~= self.entries@.subrange(0, i as int));
                    assert(pre[pre.len() - 1] == self.entries@[i as int]);
                }
                return Some(self.entries[i].1);
            }
        }
        proof {
            lemma_map_of_suffix_free(self.entries@, path@, 0);
            assert(self.entries@.subrange(0, 0) =~= Seq::<(String, TokenStatus)>::empty());
        }
        None
    }
}

/// Whether every selected path is past counting: none is waiting or in
/// flight, so a total can be shown.
pub open spec fn spec_counts_ready(elems: Seq<Seq<char>>, m: Map<Seq<char>, TokenStatus>) -> bool {
    forall|i: int|
        0 <= i < elems.len() ==> !(m.contains_key(#[trigger] elems[i]) && (m[elems[i]]
            is NotCounted || m[elems[i]] is Counting))
}

/// The sum of the counted tokens of the selected paths.
pub open spec fn spec_token_sum(elems: Seq<Seq<char>>, m: Map<Seq<char>, TokenStatus>) -> int
    decreases elems.len(),
{
    if elems.len() == 0 {
        0
    } else {
        spec_token_sum(elems.drop_last(), m) + (if m.contains_key(elems[elems.len() - 1])
            && m[elems[elems.len() - 1]] is Done {
            m[elems[elems.len() - 1]]->Done_0 as int
        } else {
            0
        })
    }
}


/// What toggling the file row at `cursor` does to the two selection sets.
pub open spec fn files_toggle_post(
    items: Seq<Seq<char>>,
    cursor: int,
    all_files: Seq<SourceFile>,
    old_ex: Set<Seq<char>>,
    old_fi: Set<Seq<char>>,
    new_ex: Set<Seq<char>>,
    new_fi: Set<Seq<char>>,
) -> bool {
    if items.len() == 0 {
        new_ex == old_ex && new_fi == old_fi
    } else {
        let cur = items[cursor];
        let e = spec_last_segment_ext(cur);
        if old_fi.contains(cur) {
            new_fi == old_fi.remove(cur) && new_ex == (if spec_path_set(all_files).contains(cur) {
                old_ex.remove(e)
            } else {
                old_ex
            }).remove("*"@)
        } else {
            new_fi == old_fi.insert(cur) && new_ex == (if spec_paths_with_ext(
                all_files,
                e,
            ).subset_of(old_fi.insert(cur)) {
                old_ex.insert(e)
            } else {
                old_ex
            })
        }
    }
}

/// The panel that lists the files of the loaded index.
pub struct SourceFilesPanel {
    pub items: Vec<String>,
    pub cursor: usize,
    pub offset: usize,
    pub file_token_status: TokenStatusMap,
    pub panel_title: String,
}

impl SourceFilesPanel {
    /// The cursor points at an item whenever there is one.
    pub open spec fn wf(&self) -> bool {
        self.items@.len() > 0 ==> self.cursor < self.items@.len()
    }

    pub fn new() -> (r: SourceFilesPanel)
        ensures
            r.items@.len() == 0,
            r.cursor == 0,
            r.offset == 0,
            r.file_token_status@ == Map::<Seq<char>, TokenStatus>::empty(),
            r.panel_title@ == "Files"@,
            r.wf(),
    {
        SourceFilesPanel {
            items: Vec::new(),
            cursor: 0,
            offset: 0,
            file_token_status: TokenStatusMap::new(),
            panel_title: String::from_str("Files"),
        }
    }

    /// Rebuild the panel from a fresh index: the paths sorted, every file
    /// selected and marked not yet counted, and the title reset.
    pub fn init_values(&mut self, files: &Vec<SourceFile>, selected_files: &mut StringSet)
        ensures
            final(self).wf(),
            final(self).cursor == 0,
            final(self).offset == 0,
            final(self).panel_title@ == "Files"@,
            sorted_le(final(self).items.deep_view()),
            final(self).items.deep_view().to_multiset() == files@.map_values(
                |f: SourceFile| f.path@,
            ).to_multiset(),
            final(selected_files)@ == old(selected_files)@.union(spec_path_set(files@)),
            forall|k: Seq<char>|
                #[trigger] spec_path_set(files@).contains(k) ==> ({
                    let m2 = final(self).file_token_status@;
                    m2.contains_key(k) && m2[k] == TokenStatus::NotCounted
                }),
            forall|k: Seq<char>|
                !(#[trigger] spec_path_set(files@).contains(k)) ==> ({
                    let m2 = final(self).file_token_status@;
                    let m1 = old(self).file_token_status@;
                    m2.contains_key(k) == m1.contains_key(k) && (m2.contains_key(k) ==> m2[k]
                        == m1[k])
                }),
    {
        let n = files.len();
        let mut paths: Vec<String> = Vec::new();
        let mut i: usize = 0;
        while i < n
            invariant
                n == files@.len(),
                i <= n,
                paths.deep_view() =~= files@.subrange(0, i as int).map_values(
                    |f: SourceFile| f.path@,
                ),
            decreases n - i,
        {
            paths.push(files[i].path.clone());
            proof {
                assert(files@.subrange(0, i + 1 as int).map_values(|f: SourceFile| f.path@)
                    =~= files@.subrange(0, i as int).map_values(|f: SourceFile| f.path@).push(
                    files@[i as int].path@,
                ));
            }
            i = i + 1;
        }
        proof {
            assert(files@.subrange(0, n as int) =~= files@);
        }
        let sorted = sort_strings(paths);
        self.items = sorted;
        let mut j: usize = 0;
        let ghost m0 = self.file_token_status@;
        proof {
            assert(spec_path_set(files@.subrange(0, 0)) =~= Set::<Seq<char>>::empty());
        }
        while j < n
            invariant
                n == files@.len(),
                j <= n,
                forall|k: Seq<char>|
                    #[trigger] spec_path_set(files@.subrange(0, j as int)).contains(k)
                        ==> self.file_token_status@.contains_key(k)
                        && self.file_token_status@[k] == TokenStatus::NotCounted,
                forall|k: Seq<char>|
                    !(#[trigger] spec_path_set(files@.subrange(0, j as int)).contains(k)) ==> (
                    self.file_token_status@.contains_key(k)
                        == m0.contains_key(k) && (
                    self.file_token_status@.contains_key(k) ==> self.file_token_status@[k] == m0[k])),
                sorted_le(self.items.deep_view()),
                self.items.deep_view().to_multiset() == files@.map_values(
                    |f: SourceFile| f.path@,
                ).to_multiset(),
            decreases n - j,
        {
            let ghost pre_map = self.file_token_status@;
            self.file_token_status.set(files[j].path.as_str(), TokenStatus::NotCounted);
            proof {
                lemma_path_set_step(files@, j as int);
                let p = files@[j as int].path@;
                let grown = spec_path_set(files@.subrange(0, j + 1 as int));
                assert forall|k: Seq<char>| grown.contains(k) implies ({
                    let m2 = self.file_token_status@;
                    m2.contains_key(k) && m2[k] == TokenStatus::NotCounted
                }) by {
                    if k != p {
                        assert(spec_path_set(files@.subrange(0, j as int)).contains(k));
                    }
                }
                assert forall|k: Seq<char>| !grown.contains(k) implies ({
                    let m2 = self.file_token_status@;
                    let m1 = m0;
                    m2.contains_key(k) == m1.contains_key(k) && (m2.contains_key(k) ==> m2[k]
                        == m1[k])
                }) by {
                    assert(k != p);
                    assert(!spec_path_set(files@.subrange(0, j as int)).contains(k));
                    assert(pre_map.contains_key(k) == m0.contains_key(
                        k,
                    ));
                    assert(self.file_token_status@ == pre_map.insert(
                        p,
                        TokenStatus::NotCounted,
                    ));
                    assert(self.file_token_status@.contains_key(k) == pre_map.contains_key(k));
                    if pre_map.contains_key(k) {
                        assert(self.file_token_status@[k] == pre_map[k]);
                        assert(pre_map[k] == m0[k]);
                    }
                }
            }
            j = j + 1;
        }
        proof {
            assert(files@.subrange(0, n as int) =~= files@);
            assert forall|k: Seq<char>| spec_path_set(files@).contains(k) implies ({
                let m2 = self.file_token_status@;
                m2.contains_key(k) && m2[k] == TokenStatus::NotCounted
            }) by {
                assert(spec_path_set(files@.subrange(0, n as int)).contains(k));
            }
            assert forall|k: Seq<char>| !spec_path_set(files@).contains(k) implies ({
                let m2 = self.file_token_status@;
                let m1 = m0;
                m2.contains_key(k) == m1.contains_key(k) && (m2.contains_key(k) ==> m2[k]
                    == m1[k])
            }) by {
                assert(!spec_path_set(files@.subrange(0, n as int)).contains(k));
            }
        }
        insert_all_paths(selected_files, files);
        self.cursor = 0;
        self.offset = 0;
        self.panel_title = String::from_str("Files");
    }

    /// One key press: up and down move the cursor through the list, keeping
    /// the scroll offset in range.
    pub fn handle_key(&mut self, key: InputKey)
        requires
            old(self).wf(),
        ensures
            final(self).wf(),
            final(self).items == old(self).items,
            final(self).file_token_status == old(self).file_token_status,
            final(self).panel_title == old(self).panel_title,
            crate::keys::list_key_post(
                old(self).cursor as int,
                old(self).offset as int,
                old(self).items@.len() as int,
                final(self).cursor as int,
                final(self).offset as int,
                key,
            ),
    {
        match key {
            InputKey::Up => {
                if self.cursor > 0 {
                    self.cursor = self.cursor - 1;
                    if self.cursor < self.offset {
                        self.offset = self.cursor;
                    }
                }
            },
            InputKey::Down => {
                let n = self.items.len();
                if self.cursor < n && self.cursor + 1 < n {
                    self.cursor = self.cursor + 1;
                    let visible_count: usize = 10;
                    if self.offset <= usize::MAX - visible_count && self.cursor >= self.offset
                        + visible_count {
                        self.offset = self.cursor + 1 - visible_count;
                    }
                }
            },
            _ => {},
        }
    }

    /// Toggle the file under the cursor.  Deselecting a file also drops its
    /// extension label and `*`; selecting one raises its extension label
    /// once every file of that extension is selected.
    pub fn toggle_selected(
        &mut self,
        selected_exts: &mut StringSet,
        selected_files: &mut StringSet,
        all_files: &Vec<SourceFile>,
    )
        requires
            old(self).wf(),
        ensures
            *final(self) == *old(self),
            files_toggle_post(
                old(self).items.deep_view(),
                old(self).cursor as int,
                all_files@,
                old(selected_exts)@,
                old(selected_files)@,
                final(selected_exts)@,
                final(selected_files)@,
            ),
    {
        if self.items.len() == 0 {
            return ;
        }
        let current_file = self.items[self.cursor].clone();
        let ext = last_segment_ext(current_file.as_str());
        if selected_files.contains(current_file.as_str()) {
            selected_files.remove(current_file.as_str());
            if index_has_path(all_files, current_file.as_str()) {
                selected_exts.remove(ext.as_str());
            }
            selected_exts.remove("*");
        } else {
            selected_files.insert(current_file.clone());
            if all_ext_paths_selected(selected_files, all_files, ext.as_str()) {
                selected_exts.insert(ext);
            }
        }
    }

    /// Mark a file as being counted.
    pub fn set_counting(&mut self, path: &str)
        ensures
            final(self).file_token_status@ == old(self).file_token_status@.insert(
                path@,
                TokenStatus::Counting,
            ),
            final(self).items == old(self).items,
            final(self).cursor == old(self).cursor,
            final(self).offset == old(self).offset,
            final(self).panel_title == old(self).panel_title,
    {
        self.file_token_status.set(path, TokenStatus::Counting);
    }

    /// Record the outcome of counting one file.
    pub fn set_count_result(&mut self, path: &str, result: Result<usize, String>)
        ensures
            final(self).file_token_status@ == old(self).file_token_status@.insert(
                path@,
                match result {
                    Ok(n) => TokenStatus::Done(n),
                    Err(_) => TokenStatus::Error,
                },
            ),
            final(self).items == old(self).items,
            final(self).cursor == old(self).cursor,
            final(self).offset == old(self).offset,
            final(self).panel_title == old(self).panel_title,
    {
        match result {
            Ok(n) => {
                self.file_token_status.set(path, TokenStatus::Done(n));
            },
            Err(_) => {
                self.file_token_status.set(path, TokenStatus::Error);
            },
        }
    }

    /// Show that counting is under way.
    pub fn update_title_counting(&mut self)
        ensures
            final(self).panel_title@ == "Files (counting tokens)"@,
            final(self).items == old(self).items,
            final(self).cursor == old(self).cursor,
            final(self).offset == old(self).offset,
            final(self).file_token_status == old(self).file_token_status,
    {
        self.panel_title = String::from_str("Files (counting tokens)");
    }

    /// Show the total token count of the selection once every selected file
    /// is past counting; otherwise leave the title alone.
    pub fn update_title_sum(&mut self, selected_files: &StringSet)
        ensures
            final(self).items == old(self).items,
            final(self).cursor == old(self).cursor,
            final(self).offset == old(self).offset,
            final(self).file_token_status == old(self).file_token_status,
            ({
                let elems = selected_files.elements();
                let m = old(self).file_token_status@;
                if spec_counts_ready(elems, m) {
                    let total = spec_token_sum(elems, m);
                    let shown: int = if total <= usize::MAX {
                        total
                    } else {
                        usize::MAX as int
                    };
                    final(self).panel_title@ == "Files ("@ + spec_grouped(
                        spec_digits(shown as nat),
                    ) + " tokens)"@
                } else {
                    final(self).panel_title == old(self).panel_title
                }
            }),
    {
        if let Some(sum) = self.maybe_compute_total_tokens(selected_files) {
            let mut title = String::from_str("Files (");
            let num = format_number(sum);
            title.append(num.as_str());
            title.append(" tokens)");
            self.panel_title = title;
        }
    }

    /// The total token count of the selection, once no selected file is
    /// still waiting or in flight; a sum beyond the machine range saturates.
    pub fn maybe_compute_total_tokens(&self, selected_files: &StringSet) -> (r: Option<usize>)
        ensures
            r is Some <==> spec_counts_ready(
                selected_files.elements(),
                self.file_token_status@,
            ),
            r matches Some(total) ==> ({
                let sum = spec_token_sum(selected_files.elements(), self.file_token_status@);
                total == if sum <= usize::MAX {
                    sum
                } else {
                    usize::MAX as int
                }
            }),
    {
        let paths = selected_files.as_vec();
        let n = paths.len();
        let mut i: usize = 0;
        while i < n
            invariant
                n == paths@.len(),
                paths.deep_view() == selected_files.elements(),
                forall|j: int|
                    0 <= j < i ==> !(self.file_token_status@.contains_key(
                        #[trigger] paths.deep_view()[j],
                    ) && (self.file_token_status@[paths.deep_view()[j]] is NotCounted
                        || self.file_token_status@[paths.deep_view()[j]] is Counting)),
            decreases n - i,
        {
            let blocked = match self.file_token_status.get(paths[i].as_str()) {
                Some(TokenStatus::NotCounted) => true,
                Some(TokenStatus::Counting) => true,
                _ => false,
            };
            if blocked {
                proof {
                    let elems = selected_files.elements();
                    let m = self.file_token_status@;
                    assert(m.contains_key(elems[i as int]) && (m[elems[i as int]] is NotCounted
                        || m[elems[i as int]] is Counting));
                }
                return None;
            }
            i = i + 1;
        }
        let mut total: usize = 0;
        let mut k: usize = 0;
        proof {
            assert(selected_files.elements().subrange(0, 0) =~= Seq::<Seq<char>>::empty());
        }
        while k < n
            invariant
                n == paths@.len(),
                paths.deep_view() == selected_files.elements(),
                k <= n,
                ({
                    let sum = spec_token_sum(
                        selected_files.elements().subrange(0, k as int),
                        self.file_token_status@,
                    );
                    total == if sum <= usize::MAX {
                        sum
                    } else {
                        usize::MAX as int
                    }
                }),
            decreases n - k,
        {
            proof {
                assert(selected_files.elements().subrange(0, k + 1 as int).drop_last()
                    =~= selected_files.elements().subrange(0, k as int));
            }
            match self.file_token_status.get(paths[k].as_str()) {
                Some(TokenStatus::Done(c)) => {
                    if total <= usize::MAX - c {
                        total = total + c;
                    } else {
                        total = usize::MAX;
                    }
                },
                _ => {},
            }
            k = k + 1;
        }
        proof {
            assert(selected_files.elements().subrange(0, n as int) =~= selected_files.elements());
        }
        Some(total)
    }

    /// The status column for one file.
    pub fn get_status_string(&self, path: &str) -> (r: String)
        ensures
            ({
                let m = self.file_token_status@;
                if m.contains_key(path@) {
                    match m[path@] {
                        TokenStatus::Counting => r@ == "..."@,
                        TokenStatus::Done(n) => r@ == spec_grouped(spec_digits(n as nat))
                            + " tokens"@,
                        TokenStatus::Error => r@ == "Error"@,
                        TokenStatus::NotCounted => r@ == Seq::<char>::empty(),
                    }
                } else {
                    r@ == Seq::<char>::empty()
                }
            }),
    {
        match self.file_token_status.get(path) {
            Some(TokenStatus::Counting) => String::from_str("..."),
            Some(TokenStatus::Done(n)) => format_token_count(n),
            Some(TokenStatus::Error) => String::from_str("Error"),
            _ => String::new(),
        }
    }
}

/// A token count rendered for display.
pub fn format_token_count(n: usize) -> (r: String)
    ensures
        r@ == spec_grouped(spec_digits(n as nat)) + " tokens"@,
{
    let s = format_number(n);
    concat2(s.as_str(), " tokens")
}

/// Group the digit string into blocks of three from the right.
fn group_digits(s: &str) -> (r: String)
    ensures
        r@ == spec_grouped(s@),
    decreases s@.len(),
{
    let n = s.unicode_len();
    if n <= 3 {
        s.to_owned()
    } else {
        let head = s.substring_char(0, n - 3);
        let tail = s.substring_char(n - 3, n);
        let mut r = group_digits(head);
        r.append(" ");
        r.append(tail);
        proof {
            reveal_strlit(" ");
            assert(" "@ =~= seq![' ']);
        }
        r
    }
}

/// A number rendered with thin grouping: digits in blocks of three.
pub fn format_number(n: usize) -> (r: String)
    ensures
        r@ == spec_grouped(spec_digits(n as nat)),
{
    let s = u64_to_string(n as u64);
    group_digits(s.as_str())
}

} // verus!
