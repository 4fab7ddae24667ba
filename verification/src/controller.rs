//! The orchestration controller: the application state, the key-driven
//! update step, and the cooperative scheduling of the two long-running
//! operations.  Reload and merge are requested by idempotent intent flags;
//! a tick starts at most one operation, marks the controller busy, and
//! reads its target at start time; finishing an operation clears the busy
//! flag.  Reload completion replaces the index wholesale and reseeds the
//! selection to all current files.

use crate::classifier::FilterConfig;
use crate::filters::{filters_toggle_post, spec_ext_set, FiltersPanel};
use crate::fs_source::FileSystemSource;
use crate::github::GitHubSource;
use crate::keys::{list_key_post, text_key_post, InputKey};
use crate::output_panel::{output_key_post, OutputDestination, OutputPanel};
use crate::selection::spec_path_set;
use crate::sets::StringSet;
use crate::sorting::sorted_le;
use crate::source::SourceFile;
use crate::source_files::{files_toggle_post, SourceFilesPanel};
use crate::source_path::{OutputFilePanel, SourcePathPanel};
use crate::strutil::str_eq;
use vstd::prelude::*;

verus! {

/// The panel that currently receives input.
#[derive(Debug, Clone, Copy, PartialEq, Eq, Structural)]
pub enum FocusedPanel {
    SourcePath,
    Filters,
    SourceFiles,
    Output,
    OutputFile,
}

/// The live backend, replaced wholesale on each successful reload.
pub enum ActiveSource {
    FileSystem(FileSystemSource),
    GitHub(GitHubSource),
}

/// An operation that a tick has started; the caller runs it to completion
/// and then reports back.
pub enum Operation {
    Reload { target: String },
    Merge { paths: Vec<String>, destination: OutputDestination, output_file: String },
}

/// The next panel in the cycle; the output-file row is skipped when the
/// destination is the clipboard alone.
pub open spec fn spec_next_panel(p: FocusedPanel, dest: OutputDestination) -> FocusedPanel {
    match p {
        FocusedPanel::SourcePath => FocusedPanel::Filters,
        FocusedPanel::Filters => FocusedPanel::SourceFiles,
        FocusedPanel::SourceFiles => FocusedPanel::Output,
        FocusedPanel::Output => if dest == OutputDestination::Clipboard {
            FocusedPanel::SourcePath
        } else {
            FocusedPanel::OutputFile
        },
        FocusedPanel::OutputFile => FocusedPanel::SourcePath,
    }
}

/// The previous panel in the cycle.
pub open spec fn spec_prev_panel(p: FocusedPanel, dest: OutputDestination) -> FocusedPanel {
    match p {
        FocusedPanel::SourcePath => FocusedPanel::OutputFile,
        FocusedPanel::Filters => FocusedPanel::SourcePath,
        FocusedPanel::SourceFiles => FocusedPanel::Filters,
        FocusedPanel::Output => FocusedPanel::SourceFiles,
        FocusedPanel::OutputFile => FocusedPanel::Output,
    }
}

impl FocusedPanel {
    pub fn next_panel(&self, app: &App) -> (r: FocusedPanel)
        ensures
            r == spec_next_panel(*self, app.output_panel.destination),
    {
        match self {
            FocusedPanel::SourcePath => FocusedPanel::Filters,
            FocusedPanel::Filters => FocusedPanel::SourceFiles,
            FocusedPanel::SourceFiles => FocusedPanel::Output,
            FocusedPanel::Output => {
                if app.output_panel.destination == OutputDestination::Clipboard {
                    FocusedPanel::SourcePath
                } else {
                    FocusedPanel::OutputFile
                }
            },
            FocusedPanel::OutputFile => FocusedPanel::SourcePath,
        }
    }

    pub fn prev_panel(&self, app: &App) -> (r: FocusedPanel)
        ensures
            r == spec_prev_panel(*self, app.output_panel.destination),
    {
        match self {
            FocusedPanel::SourcePath => FocusedPanel::OutputFile,
            FocusedPanel::Filters => FocusedPanel::SourcePath,
            FocusedPanel::SourceFiles => FocusedPanel::Filters,
            FocusedPanel::Output => FocusedPanel::SourceFiles,
            FocusedPanel::OutputFile => FocusedPanel::Output,
        }
    }
}

/// The whole interactive state: the panels, the loaded index, the selection
/// sets, the active backend, and the scheduling flags.
pub struct App {
    pub source_path_panel: SourcePathPanel,
    pub filters_panel: FiltersPanel,
    pub source_files_panel: SourceFilesPanel,
    pub output_panel: OutputPanel,
    pub output_file_panel: OutputFilePanel,
    pub focused_panel: FocusedPanel,
    pub loaded_files: Vec<SourceFile>,
    pub selected_extensions: StringSet,
    pub selected_files: StringSet,
    pub processing: bool,
    pub filter_config: FilterConfig,
    pub text_source: Option<ActiveSource>,
    pub exit_requested: bool,
    pub reload_files_needed: bool,
    pub merge_needed: bool,
    pub prev_source_path: String,
}

/// Requesting a reload only raises the intent flag; raising it twice is the
/// same as raising it once.
pub open spec fn spec_request_reload(s: App) -> App {
    App { reload_files_needed: true, ..s }
}

/// Requesting a merge only raises the intent flag.
pub open spec fn spec_request_merge(s: App) -> App {
    App { merge_needed: true, ..s }
}

/// A tick starts a reload exactly when one is pending and the controller is
/// not busy.
pub open spec fn spec_starts_reload(s: App) -> bool {
    !s.processing && s.reload_files_needed
}

/// A tick starts a merge exactly when one is pending, no reload is pending,
/// and the controller is not busy.
pub open spec fn spec_starts_merge(s: App) -> bool {
    !s.processing && !s.reload_files_needed && s.merge_needed
}

/// The state after one tick: the started operation's intent is consumed and
/// the controller becomes busy; otherwise nothing changes.
pub open spec fn spec_tick_state(s: App) -> App {
    if spec_starts_reload(s) {
        App { reload_files_needed: false, processing: true, ..s }
    } else if spec_starts_merge(s) {
        App { merge_needed: false, processing: true, ..s }
    } else {
        s
    }
}

/// The paths of `items` that are in the selection, in item order.
pub open spec fn spec_selected_paths(items: Seq<Seq<char>>, sel: Set<Seq<char>>) -> Seq<Seq<char>>
    decreases items.len(),
{
    if items.len() == 0 {
        Seq::empty()
    } else {
        spec_selected_paths(items.drop_last(), sel) + (if sel.contains(items[items.len() - 1]) {
            seq![items[items.len() - 1]]
        } else {
            Seq::empty()
        })
    }
}

/// The two text panels after a set-cursor-to-end on the focused one;
/// everything else of `b` equals `a`.
pub open spec fn cursor_end_post(a: App, b: App) -> bool {
    &&& b == (App { source_path_panel: b.source_path_panel, output_file_panel: b.output_file_panel, ..a })
    &&& match a.focused_panel {
        FocusedPanel::SourcePath => b.source_path_panel.value == a.source_path_panel.value
            && b.source_path_panel.cursor_pos == a.source_path_panel.value@.len()
            && b.output_file_panel == a.output_file_panel,
        FocusedPanel::OutputFile => b.output_file_panel.value == a.output_file_panel.value
            && b.output_file_panel.cursor_pos == a.output_file_panel.value@.len()
            && b.source_path_panel == a.source_path_panel,
        _ => b.source_path_panel == a.source_path_panel && b.output_file_panel
            == a.output_file_panel,
    }
}

/// Focus moved one panel forward, with the cursor of a newly focused text
/// panel put at its end.
pub open spec fn focus_moved_next(a: App, b: App) -> bool {
    cursor_end_post(
        App { focused_panel: spec_next_panel(a.focused_panel, a.output_panel.destination), ..a },
        b,
    )
}

/// Focus moved one panel back, with the cursor of a newly focused text
/// panel put at its end.
pub open spec fn focus_moved_prev(a: App, b: App) -> bool {
    cursor_end_post(
        App { focused_panel: spec_prev_panel(a.focused_panel, a.output_panel.destination), ..a },
        b,
    )
}

/// Neither the loaded index, the backend, the configuration, the flags, the
/// focus nor the recorded previous path changed.
pub open spec fn same_control(a: App, b: App) -> bool {
    &&& b.loaded_files == a.loaded_files
    &&& b.processing == a.processing
    &&& b.filter_config == a.filter_config
    &&& b.text_source == a.text_source
    &&& b.exit_requested == a.exit_requested
    &&& b.reload_files_needed == a.reload_files_needed
    &&& b.merge_needed == a.merge_needed
    &&& b.prev_source_path == a.prev_source_path
    &&& b.focused_panel == a.focused_panel
}

/// No panel changed.
pub open spec fn same_panels(a: App, b: App) -> bool {
    &&& b.source_path_panel == a.source_path_panel
    &&& b.filters_panel == a.filters_panel
    &&& b.source_files_panel == a.source_files_panel
    &&& b.output_panel == a.output_panel
    &&& b.output_file_panel == a.output_file_panel
}

/// Neither selection set changed.
pub open spec fn same_sets(a: App, b: App) -> bool {
    &&& b.selected_extensions == a.selected_extensions
    &&& b.selected_files == a.selected_files
}

impl App {
    /// Every panel is well formed.
    pub open spec fn wf(&self) -> bool {
        &&& self.source_path_panel.wf()
        &&& self.output_file_panel.wf()
        &&& self.filters_panel.wf()
        &&& self.source_files_panel.wf()
        &&& self.output_panel.wf()
    }

    pub fn new(default_path: String, default_output_path: String) -> (r: App)
        ensures
            r.wf(),
            r.source_path_panel.value@ == default_path@,
            r.output_file_panel.value@ == default_output_path@,
            r.focused_panel == FocusedPanel::SourcePath,
            r.loaded_files@ == Seq::<SourceFile>::empty(),
            r.selected_extensions@ == Set::<Seq<char>>::empty(),
            r.selected_files@ == Set::<Seq<char>>::empty(),
            r.processing == false,
            r.text_source is None,
            r.exit_requested == false,
            r.reload_files_needed == false,
            r.merge_needed == false,
            r.prev_source_path@ == default_path@,
            r.filter_config.show_hidden == false,
            r.filter_config.additional_text_extensions@ == Set::<Seq<char>>::empty(),
            r.filter_config.additional_binary_extensions@ == Set::<Seq<char>>::empty(),
    {
        let prev = default_path.clone();
        App {
            source_path_panel: SourcePathPanel::new(default_path),
            filters_panel: FiltersPanel::new(),
            source_files_panel: SourceFilesPanel::new(),
            output_panel: OutputPanel::new(),
            output_file_panel: OutputFilePanel::new(default_output_path),
            focused_panel: FocusedPanel::SourcePath,
            loaded_files: Vec::new(),
            selected_extensions: StringSet::new(),
            selected_files: StringSet::new(),
            processing: false,
            filter_config: FilterConfig::new(),
            text_source: None,
            exit_requested: false,
            reload_files_needed: false,
            merge_needed: false,
            prev_source_path: prev,
        }
    }

    /// Queue a reload; a repeated request while one is already pending or
    /// running changes nothing more.
    pub fn request_reload(&mut self)
        ensures
            *final(self) == spec_request_reload(*old(self)),
    {
        self.reload_files_needed = true;
    }

    /// Queue a merge; a repeated request while one is already pending or
    /// running changes nothing more.
    pub fn request_merge(&mut self)
        ensures
            *final(self) == spec_request_merge(*old(self)),
    {
        self.merge_needed = true;
    }

    /// One scheduling step.  A busy controller starts nothing.  Otherwise a
    /// pending reload starts first, reading its target from the source path
    /// field now, not at request time; else a pending merge starts, reading
    /// the selected paths, destination and output file now.  Starting an
    /// operation consumes its intent and marks the controller busy.
    pub fn tick(&mut self) -> (r: Option<Operation>)
        ensures
            *final(self) == spec_tick_state(*old(self)),
            r is Some <==> spec_starts_reload(*old(self)) || spec_starts_merge(*old(self)),
            spec_starts_reload(*old(self)) ==> (r matches Some(op) && op
                matches Operation::Reload { target } && target@
                == old(self).source_path_panel.value@),
            spec_starts_merge(*old(self)) ==> (r matches Some(op) && op
                matches Operation::Merge { paths, destination, output_file }
                && paths.deep_view() == spec_selected_paths(
                old(self).source_files_panel.items.deep_view(),
                old(self).selected_files@,
            ) && destination == old(self).output_panel.destination && output_file@
                == old(self).output_file_panel.value@),
    {
        if self.processing {
            return None;
        }
        if self.reload_files_needed {
            self.reload_files_needed = false;
            self.processing = true;
            let target = self.source_path_panel.value.clone();
            return Some(Operation::Reload { target });
        }
        if self.merge_needed {
            self.merge_needed = false;
            self.processing = true;
            let paths = selected_paths(&self.source_files_panel.items, &self.selected_files);
            let destination = self.output_panel.destination;
            let output_file = self.output_file_panel.value.clone();
            return Some(Operation::Merge { paths, destination, output_file });
        }
        None
    }

    /// Install the outcome of a finished reload: the backend and index are
    /// replaced wholesale (an error leaves an empty index), the panels are
    /// rebuilt, and the selection is reset to all current files and all
    /// current extension labels — whatever was selected before is
    /// discarded.  The controller is idle again.
    pub fn finish_reload(&mut self, source: Option<ActiveSource>, index: Option<Vec<SourceFile>>)
        requires
            old(self).wf(),
        ensures
            final(self).wf(),
            final(self).text_source == source,
            final(self).loaded_files@ == (match index {
                Some(f) => f@,
                None => Seq::<SourceFile>::empty(),
            }),
            final(self).processing == false,
            final(self).selected_files@ == spec_path_set(final(self).loaded_files@),
            final(self).selected_extensions@ == spec_ext_set(final(self).loaded_files@).insert(
                "*"@,
            ),
            final(self).exit_requested == old(self).exit_requested,
            final(self).reload_files_needed == old(self).reload_files_needed,
            final(self).merge_needed == old(self).merge_needed,
            final(self).prev_source_path == old(self).prev_source_path,
            final(self).focused_panel == old(self).focused_panel,
            final(self).filter_config == old(self).filter_config,
            final(self).source_path_panel == old(self).source_path_panel,
            final(self).output_file_panel == old(self).output_file_panel,
            final(self).output_panel == old(self).output_panel,
            sorted_le(final(self).source_files_panel.items.deep_view()),
            ({
                let post = *final(self);
                post.source_files_panel.items.deep_view().to_multiset()
                    == post.loaded_files@.map_values(|f: SourceFile| f.path@).to_multiset()
            }),
    {
        self.text_source = source;
        match index {
            Some(f) => {
                self.loaded_files = f;
            },
            None => {
                self.loaded_files = Vec::new();
                proof {
                    assert(self.loaded_files@ =~= Seq::<SourceFile>::empty());
                }
            },
        }
        self.selected_extensions.clear();
        self.selected_files.clear();
        self.filters_panel.init_values(
            &self.loaded_files,
            &mut self.selected_extensions,
            &mut self.selected_files,
        );
        self.source_files_panel.init_values(&self.loaded_files, &mut self.selected_files);
        self.processing = false;
        proof {
            assert(self.selected_files@ =~= spec_path_set(self.loaded_files@));
            let items = self.filters_panel.items.deep_view();
            assert forall|x: Seq<char>|
                items.to_set().contains(x) <==> spec_ext_set(self.loaded_files@).insert(
                    "*"@,
                ).contains(x) by {
                if items.to_set().contains(x) {
                    let j = choose|j: int| 0 <= j < items.len() && items[j] == x;
                    if j >= 1 {
                        assert(items.skip(1)[j - 1] == x);
                        assert(items.skip(1).to_set().contains(x));
                    }
                }
                if spec_ext_set(self.loaded_files@).contains(x) {
                    assert(items.skip(1).to_set().contains(x));
                    let j = choose|j: int|
                        0 <= j < items.skip(1).len() && items.skip(1)[j] == x;
                    assert(items[j + 1] == x);
                }
                if x == "*"@ {
                    assert(items[0] == x);
                }
            }
            assert(self.selected_extensions@ =~= spec_ext_set(self.loaded_files@).insert("*"@));
        }
    }

    /// A finished merge only releases the controller.
    pub fn finish_merge(&mut self)
        ensures
            *final(self) == (App { processing: false, ..*old(self) }),
    {
        self.processing = false;
    }

    /// Put the cursor of the focused text panel at its end.
    fn set_cursor_to_end(&mut self)
        ensures
            cursor_end_post(*old(self), *final(self)),
            old(self).source_path_panel.wf() ==> final(self).source_path_panel.wf(),
            old(self).output_file_panel.wf() ==> final(self).output_file_panel.wf(),
    {
        match self.focused_panel {
            FocusedPanel::SourcePath => {
                self.source_path_panel.set_cursor_to_end();
                proof {
                    assert(cursor_end_post(*old(self), *self));
                }
            },
            FocusedPanel::OutputFile => {
                self.output_file_panel.set_cursor_to_end();
                proof {
                    assert(cursor_end_post(*old(self), *self));
                }
            },
            _ => {
                proof {
                    assert(cursor_end_post(*old(self), *self));
                }
            },
        }
    }

    /// One key press of the interactive loop: the global keys drive exit,
    /// the intent flags, field clearing and focus movement; anything else
    /// goes to the focused panel.  Leaving the source path field with a
    /// changed target queues a reload.
    pub fn update(&mut self, key: InputKey)
        requires
            old(self).wf(),
        ensures
            final(self).wf(),
            match key {
                InputKey::F(n) => if n == 10 {
                    *final(self) == (App { exit_requested: true, ..*old(self) })
                } else if n == 1 {
                    *final(self) == spec_request_reload(*old(self))
                } else if n == 2 {
                    *final(self) == spec_request_merge(*old(self))
                } else if n == 3 {
                    match old(self).focused_panel {
                        FocusedPanel::SourcePath => *final(self) == (App {
                            source_path_panel: final(self).source_path_panel,
                            ..*old(self)
                        }) && final(self).source_path_panel.value@ == Seq::<char>::empty()
                            && final(self).source_path_panel.cursor_pos == 0,
                        FocusedPanel::OutputFile => *final(self) == (App {
                            output_file_panel: final(self).output_file_panel,
                            ..*old(self)
                        }) && final(self).output_file_panel.value@ == Seq::<char>::empty()
                            && final(self).output_file_panel.cursor_pos == 0,
                        _ => *final(self) == *old(self),
                    }
                } else {
                    *final(self) == *old(self)
                },
                InputKey::Esc => if old(self).focused_panel == FocusedPanel::SourcePath {
                    *final(self) == (App { exit_requested: true, ..*old(self) })
                } else {
                    focus_moved_prev(*old(self), *final(self))
                },
                InputKey::Enter => match old(self).focused_panel {
                    FocusedPanel::Output => if old(self).output_panel.destination
                        == OutputDestination::Clipboard {
                        *final(self) == spec_request_merge(*old(self))
                    } else {
                        focus_moved_next(*old(self), *final(self))
                    },
                    FocusedPanel::OutputFile => *final(self) == spec_request_merge(*old(self)),
                    FocusedPanel::SourcePath => ({
                        let changed = old(self).source_path_panel.value@ != old(
                            self,
                        ).prev_source_path@;
                        focus_moved_next(
                            App {
                                reload_files_needed: old(self).reload_files_needed || changed,
                                prev_source_path: final(self).prev_source_path,
                                ..*old(self)
                            },
                            *final(self),
                        ) && (changed ==> final(self).prev_source_path@ == old(
                            self,
                        ).source_path_panel.value@) && (!changed ==> final(self).prev_source_path
                            == old(self).prev_source_path)
                    }),
                    _ => focus_moved_next(*old(self), *final(self)),
                },
                InputKey::Char(c) => if c == ' ' {
                    same_control(*old(self), *final(self)) && same_panels(
                        *old(self),
                        *final(self),
                    ) && (match old(self).focused_panel {
                        FocusedPanel::Filters => filters_toggle_post(
                            old(self).filters_panel.items.deep_view(),
                            old(self).filters_panel.cursor as int,
                            old(self).loaded_files@,
                            old(self).selected_extensions@,
                            old(self).selected_files@,
                            final(self).selected_extensions@,
                            final(self).selected_files@,
                        ),
                        FocusedPanel::SourceFiles => files_toggle_post(
                            old(self).source_files_panel.items.deep_view(),
                            old(self).source_files_panel.cursor as int,
                            old(self).loaded_files@,
                            old(self).selected_extensions@,
                            old(self).selected_files@,
                            final(self).selected_extensions@,
                            final(self).selected_files@,
                        ),
                        _ => same_sets(*old(self), *final(self)),
                    })
                } else {
                    dispatched_key_post(*old(self), *final(self), key)
                },
                _ => dispatched_key_post(*old(self), *final(self), key),
            },
    {
        match key {
            InputKey::F(n) => {
                if n == 10 {
                    self.exit_requested = true;
                } else if n == 1 {
                    self.request_reload();
                } else if n == 2 {
                    self.request_merge();
                } else if n == 3 {
                    match self.focused_panel {
                        FocusedPanel::SourcePath => {
                            self.source_path_panel.clear();
                        },
                        FocusedPanel::OutputFile => {
                            self.output_file_panel.clear();
                        },
                        _ => {},
                    }
                }
            },
            InputKey::Esc => {
                if self.focused_panel == FocusedPanel::SourcePath {
                    self.exit_requested = true;
                } else {
                    self.focused_panel = self.focused_panel.prev_panel(&*self);
                    self.set_cursor_to_end();
                }
            },
            InputKey::Enter => {
                self.handle_enter();
            },
            InputKey::Char(c) => {
                if c == ' ' {
                    match self.focused_panel {
                        FocusedPanel::Filters => {
                            self.filters_panel.toggle_selected(
                                &mut self.selected_extensions,
                                &mut self.selected_files,
                                &self.loaded_files,
                            );
                        },
                        FocusedPanel::SourceFiles => {
                            self.source_files_panel.toggle_selected(
                                &mut self.selected_extensions,
                                &mut self.selected_files,
                                &self.loaded_files,
                            );
                        },
                        _ => {},
                    }
                } else {
                    self.dispatch_key(key);
                }
            },
            _ => {
                self.dispatch_key(key);
            },
        }
    }

    /// Send one non-global key to the focused panel.
    fn dispatch_key(&mut self, key: InputKey)
        requires
            old(self).wf(),
        ensures
            final(self).wf(),
            dispatched_key_post(*old(self), *final(self), key),
    {
        match self.focused_panel {
            FocusedPanel::SourcePath => {
                self.source_path_panel.handle_key(key);
            },
            FocusedPanel::Filters => {
                self.filters_panel.handle_key(key);
            },
            FocusedPanel::SourceFiles => {
                self.source_files_panel.handle_key(key);
            },
            FocusedPanel::Output => {
                self.output_panel.handle_key(key);
            },
            FocusedPanel::OutputFile => {
                self.output_file_panel.handle_key(key);
            },
        }
    }

    /// Enter confirms: on the output rows it queues the merge (directly on
    /// the clipboard destination, from the output-file row otherwise); from
    /// any other panel it moves focus forward, and leaving the source path
    /// with a changed target queues a reload.
    fn handle_enter(&mut self)
        requires
            old(self).wf(),
        ensures
            final(self).wf(),
            match old(self).focused_panel {
                FocusedPanel::Output => if old(self).output_panel.destination
                    == OutputDestination::Clipboard {
                    *final(self) == spec_request_merge(*old(self))
                } else {
                    focus_moved_next(*old(self), *final(self))
                },
                FocusedPanel::OutputFile => *final(self) == spec_request_merge(*old(self)),
                FocusedPanel::SourcePath => ({
                    let changed = old(self).source_path_panel.value@ != old(
                        self,
                    ).prev_source_path@;
                    focus_moved_next(
                        App {
                            reload_files_needed: old(self).reload_files_needed || changed,
                            prev_source_path: final(self).prev_source_path,
                            ..*old(self)
                        },
                        *final(self),
                    ) && (changed ==> final(self).prev_source_path@ == old(
                        self,
                    ).source_path_panel.value@) && (!changed ==> final(self).prev_source_path
                        == old(self).prev_source_path)
                }),
                _ => focus_moved_next(*old(self), *final(self)),
            },
    {
        match self.focused_panel {
            FocusedPanel::Output => {
                if self.output_panel.destination == OutputDestination::Clipboard {
                    self.request_merge();
                } else {
                    self.focused_panel = self.focused_panel.next_panel(&*self);
                    self.set_cursor_to_end();
                }
            },
            FocusedPanel::OutputFile => {
                self.request_merge();
            },
            FocusedPanel::SourcePath => {
                let changed = !str_eq(
                    self.source_path_panel.value.as_str(),
                    self.prev_source_path.as_str(),
                );
                if changed {
                    self.reload_files_needed = true;
                    self.prev_source_path = self.source_path_panel.value.clone();
                }
                self.focused_panel = self.focused_panel.next_panel(&*self);
                self.set_cursor_to_end();
            },
            _ => {
                self.focused_panel = self.focused_panel.next_panel(&*self);
                self.set_cursor_to_end();
            },
        }
    }

    /// The key help line shown under the panels.
    pub fn get_bottom_text(&self) -> (r: String)
        ensures
            match self.focused_panel {
                FocusedPanel::SourcePath => r@
                    == "enter - Filters  \u{2022}  F1 - reload  \u{2022}  F2 - merge  \u{2022}  F3 - clear  \u{2022}  F10/esc - close"@,
                FocusedPanel::Filters => r@
                    == "\u{2191}/\u{2193} - navigate  \u{2022}  space - (de)select  \u{2022}  enter - Files  \u{2022}  esc - Source  \u{2022}  F1 - reload  \u{2022}  F2 - generate  \u{2022}  F10 - close"@,
                FocusedPanel::SourceFiles => r@
                    == "\u{2191}/\u{2193} - navigate  \u{2022}  space - (de)select  \u{2022}  enter - Output  \u{2022}  esc - Filters  \u{2022}  F1 - reload  \u{2022}  F2 - generate  \u{2022}  F10 - close"@,
                FocusedPanel::Output => if self.output_panel.destination
                    == OutputDestination::Clipboard {
                    r@
                        == "\u{2190}/\u{2192} - toggle  \u{2022}  enter/F2 - merge  \u{2022}  esc - Files  \u{2022}  F1 - reload  \u{2022}  F10 - close"@
                } else {
                    r@
                        == "\u{2190}/\u{2192} - toggle  \u{2022}  enter - Output File  \u{2022}  esc - Files  \u{2022}  F1 - reload  \u{2022}  F2 - generate  \u{2022}  F10 - close"@
                },
                FocusedPanel::OutputFile => r@
                    == "enter/F2 - merge  \u{2022}  esc - Output  \u{2022}  F1 - reload  \u{2022}  F3 - clear  \u{2022}  F10 - close"@,
            },
    {
        match self.focused_panel {
            FocusedPanel::SourcePath => String::from_str(
                "enter - Filters  \u{2022}  F1 - reload  \u{2022}  F2 - merge  \u{2022}  F3 - clear  \u{2022}  F10/esc - close",
            ),
            FocusedPanel::Filters => String::from_str(
                "\u{2191}/\u{2193} - navigate  \u{2022}  space - (de)select  \u{2022}  enter - Files  \u{2022}  esc - Source  \u{2022}  F1 - reload  \u{2022}  F2 - generate  \u{2022}  F10 - close",
            ),
            FocusedPanel::SourceFiles => String::from_str(
                "\u{2191}/\u{2193} - navigate  \u{2022}  space - (de)select  \u{2022}  enter - Output  \u{2022}  esc - Filters  \u{2022}  F1 - reload  \u{2022}  F2 - generate  \u{2022}  F10 - close",
            ),
            FocusedPanel::Output => {
                if self.output_panel.destination == OutputDestination::Clipboard {
                    String::from_str(
                        "\u{2190}/\u{2192} - toggle  \u{2022}  enter/F2 - merge  \u{2022}  esc - Files  \u{2022}  F1 - reload  \u{2022}  F10 - close",
                    )
                } else {
                    String::from_str(
                        "\u{2190}/\u{2192} - toggle  \u{2022}  enter - Output File  \u{2022}  esc - Files  \u{2022}  F1 - reload  \u{2022}  F2 - generate  \u{2022}  F10 - close",
                    )
                }
            },
            FocusedPanel::OutputFile => String::from_str(
                "enter/F2 - merge  \u{2022}  esc - Output  \u{2022}  F1 - reload  \u{2022}  F3 - clear  \u{2022}  F10 - close",
            ),
        }
    }
}

/// A non-global key changed only the focused panel, exactly as that panel's
/// key semantics say.
pub open spec fn dispatched_key_post(a: App, b: App, key: InputKey) -> bool {
    &&& same_control(a, b)
    &&& same_sets(a, b)
    &&& match a.focused_panel {
        FocusedPanel::SourcePath => text_key_post(
            a.source_path_panel.value@,
            a.source_path_panel.cursor_pos as int,
            b.source_path_panel.value@,
            b.source_path_panel.cursor_pos as int,
            key,
        ) && b.filters_panel == a.filters_panel && b.source_files_panel == a.source_files_panel
            && b.output_panel == a.output_panel && b.output_file_panel == a.output_file_panel,
        FocusedPanel::Filters => list_key_post(
            a.filters_panel.cursor as int,
            a.filters_panel.offset as int,
            a.filters_panel.items@.len() as int,
            b.filters_panel.cursor as int,
            b.filters_panel.offset as int,
            key,
        ) && b.filters_panel.items == a.filters_panel.items && b.source_path_panel
            == a.source_path_panel && b.source_files_panel == a.source_files_panel
            && b.output_panel == a.output_panel && b.output_file_panel == a.output_file_panel,
        FocusedPanel::SourceFiles => list_key_post(
            a.source_files_panel.cursor as int,
            a.source_files_panel.offset as int,
            a.source_files_panel.items@.len() as int,
            b.source_files_panel.cursor as int,
            b.source_files_panel.offset as int,
            key,
        ) && b.source_files_panel.items == a.source_files_panel.items
            && b.source_files_panel.file_token_status == a.source_files_panel.file_token_status
            && b.source_files_panel.panel_title == a.source_files_panel.panel_title
            && b.source_path_panel == a.source_path_panel && b.filters_panel == a.filters_panel
            && b.output_panel == a.output_panel && b.output_file_panel == a.output_file_panel,
        FocusedPanel::Output => output_key_post(
            a.output_panel.selected as int,
            a.output_panel.items@.len() as int,
            b.output_panel.selected as int,
            key,
        ) && b.output_panel.destination == b.output_panel.items@[b.output_panel.selected as int]
            && b.output_panel.items == a.output_panel.items && b.source_path_panel
            == a.source_path_panel && b.filters_panel == a.filters_panel && b.source_files_panel
            == a.source_files_panel && b.output_file_panel == a.output_file_panel,
        FocusedPanel::OutputFile => text_key_post(
            a.output_file_panel.value@,
            a.output_file_panel.cursor_pos as int,
            b.output_file_panel.value@,
            b.output_file_panel.cursor_pos as int,
            key,
        ) && b.source_path_panel == a.source_path_panel && b.filters_panel == a.filters_panel
            && b.source_files_panel == a.source_files_panel && b.output_panel == a.output_panel,
    }
}

/// The paths of `items` that are in the selection, in item order.
fn selected_paths(items: &Vec<String>, sel: &StringSet) -> (r: Vec<String>)
    ensures
        r.deep_view() == spec_selected_paths(items.deep_view(), sel@),
{
    let n = items.len();
    let mut r: Vec<String> = Vec::new();
    let mut i: usize = 0;
    proof {
        assert(r.deep_view() =~= spec_selected_paths(items.deep_view().subrange(0, 0), sel@));
    }
    while i < n
        invariant
            n == items@.len(),
            i <= n,
            r.deep_view() == spec_selected_paths(items.deep_view().subrange(0, i as int), sel@),
        decreases n - i,
    {
        let ghost pre = r.deep_view();
        proof {
            assert(items.deep_view().subrange(0, i + 1 as int).drop_last() =~= items.deep_view()
                .subrange(0, i as int));
            assert(items.deep_view().subrange(0, i + 1 as int)[i as int] == items.deep_view()[i
                as int]);
        }
        if sel.contains(items[i].as_str()) {
            r.push(items[i].clone());
            proof {
                assert(r.deep_view() =~= pre.push(items.deep_view()[i as int]));
                assert(pre.push(items.deep_view()[i as int]) =~= pre + seq![
                    items.deep_view()[i as int],
                ]);
            }
        }
        proof {
            assert(r.deep_view() =~= spec_selected_paths(
                items.deep_view().subrange(0, i + 1 as int),
                sel@,
            ));
        }
        i = i + 1;
    }
    proof {
        assert(items.deep_view().subrange(0, n as int) =~= items.deep_view());
    }
    r
}

/// Law: reload is single flight.  From an idle controller, requesting a
/// reload any number of times queues exactly one pending reload; the tick
/// that starts it consumes the intent and marks the controller busy, and a
/// further tick taken while it is busy starts neither a reload nor a merge
/// and changes nothing — so exactly one reload runs before the controller
/// is idle again.
pub proof fn lemma_reload_single_flight(s: App)
    requires
        !s.processing,
    ensures
        ({
            let queued = spec_request_reload(spec_request_reload(s));
            let running = spec_tick_state(queued);
            &&& spec_request_reload(spec_request_reload(s)) == spec_request_reload(s)
            &&& spec_starts_reload(queued)
            &&& running.processing
            &&& !running.reload_files_needed
            &&& !spec_starts_reload(running)
            &&& !spec_starts_merge(running)
            &&& spec_tick_state(running) == running
        }),
{
}

} // verus!
