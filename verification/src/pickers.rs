use vstd::prelude::*;
use vstd::string::StringExecFns;

use crate::scene_files::{file_extension, is_supported_scene_name, is_supported_scene_path};
use crate::text::{
    chars_of, lemma_text_le_antisymmetric, lemma_text_le_total, lemma_text_le_transitive, text_le,
    text_le_exec,
};

verus! {

broadcast use vstd::seq_lib::group_to_multiset_ensures;

/// What the application read about one entry of a directory: its file
/// name (with any bytes that are not UTF-8 replaced), whether that name is
/// exactly the file's name, its full path, and whether it is a directory.
pub struct DirectoryItem {
    pub name: String,
    pub utf8_name: bool,
    pub path: String,
    pub is_dir: bool,
}

/// One row of a file picker.
#[derive(Debug)]
pub struct PickerEntry {
    pub label: String,
    pub path: String,
    pub is_dir: bool,
}

/// What a row of a picker shows and leads to.
pub struct PickerRow {
    pub label: Seq<char>,
    pub path: Seq<char>,
    pub is_dir: bool,
}

impl View for PickerEntry {
    type V = PickerRow;

    open spec fn view(&self) -> PickerRow {
        PickerRow { label: self.label@, path: self.path@, is_dir: self.is_dir }
    }
}

/// The rows that `entries` show.
pub open spec fn rows(entries: Seq<PickerEntry>) -> Seq<PickerRow> {
    entries.map_values(|entry: PickerEntry| entry@)
}

impl Clone for PickerEntry {
    fn clone(&self) -> (copy: Self)
        ensures
            copy == *self,
    {
        PickerEntry { label: self.label.clone(), path: self.path.clone(), is_dir: self.is_dir }
    }
}

/// How the rows of a picker are ordered.
#[derive(Clone, Copy, Debug, PartialEq, Eq, Structural)]
pub enum EntryOrder {
    /// By label, as `str` compares.
    ByLabel,
    /// Directories first, then by label in small letters.
    DirectoriesFirst,
}

/// What `str::to_lowercase` gives for `text`: every character replaced by
/// its Unicode lowercase mapping.
pub uninterp spec fn unicode_lowercase(text: Seq<char>) -> Seq<char>;

/// `str::to_lowercase`. Its result is a function of the text alone, which
/// is all that is claimed of it; the Unicode case tables are not stated.
#[verifier::external_body]
fn lowercase(text: &str) -> (lower: String)
    ensures
        lower@ == unicode_lowercase(text@),
{
    text.to_lowercase()
}

/// `a` is placed no later than `b` in `order`.
pub open spec fn entry_le(order: EntryOrder, a: PickerRow, b: PickerRow) -> bool {
    match order {
        EntryOrder::ByLabel => text_le(a.label, b.label),
        EntryOrder::DirectoriesFirst => (a.is_dir && !b.is_dir) || (a.is_dir == b.is_dir
            && text_le(unicode_lowercase(a.label), unicode_lowercase(b.label))),
    }
}

/// The rows of `entries` are in `order`.
pub open spec fn entries_sorted(order: EntryOrder, entries: Seq<PickerRow>) -> bool {
    forall|i: int, j: int|
        0 <= i < j < entries.len() ==> #[trigger] entry_le(order, entries[i], entries[j])
}

/// `sorted` holds the rows of `source`, each as often, in `order`.
pub open spec fn sorted_arrangement(
    order: EntryOrder,
    sorted: Seq<PickerRow>,
    source: Seq<PickerRow>,
) -> bool {
    sorted.to_multiset() == source.to_multiset() && entries_sorted(order, sorted)
}

proof fn lemma_entry_le_total(order: EntryOrder, a: PickerRow, b: PickerRow)
    ensures
        entry_le(order, a, b) || entry_le(order, b, a),
{
    lemma_text_le_total(a.label, b.label);
    lemma_text_le_total(unicode_lowercase(a.label), unicode_lowercase(b.label));
}

proof fn lemma_entry_le_transitive(order: EntryOrder, a: PickerRow, b: PickerRow, c: PickerRow)
    requires
        entry_le(order, a, b),
        entry_le(order, b, c),
    ensures
        entry_le(order, a, c),
{
    match order {
        EntryOrder::ByLabel => lemma_text_le_transitive(a.label, b.label, c.label),
        EntryOrder::DirectoriesFirst => {
            if a.is_dir == b.is_dir && b.is_dir == c.is_dir {
                lemma_text_le_transitive(
                    unicode_lowercase(a.label),
                    unicode_lowercase(b.label),
                    unicode_lowercase(c.label),
                );
            }
        },
    }
}

/// Whether `a` is placed no later than `b` in `order`.
fn entry_le_exec(order: EntryOrder, a: &PickerEntry, b: &PickerEntry) -> (le: bool)
    ensures
        le == entry_le(order, a@, b@),
{
    match order {
        EntryOrder::ByLabel => text_le_exec(a.label.as_str(), b.label.as_str()),
        EntryOrder::DirectoriesFirst => {
            if a.is_dir != b.is_dir {
                a.is_dir
            } else {
                let a_lower = lowercase(a.label.as_str());
                let b_lower = lowercase(b.label.as_str());
                text_le_exec(a_lower.as_str(), b_lower.as_str())
            }
        },
    }
}

/// The rows of `entries`, rearranged into `order`.
pub fn sort_entries(entries: Vec<PickerEntry>, order: EntryOrder) -> (sorted: Vec<PickerEntry>)
    ensures
        sorted_arrangement(order, rows(sorted@), rows(entries@)),
{
    let ghost source = rows(entries@);
    let mut rest = entries;
    let mut sorted: Vec<PickerEntry> = Vec::new();
    assert(rows(sorted@) =~= Seq::<PickerRow>::empty());
    while rest.len() > 0
        invariant
            rows(sorted@).to_multiset().add(rows(rest@).to_multiset()) == source.to_multiset(),
            entries_sorted(order, rows(sorted@)),
        decreases rest@.len(),
    {
        let ghost before = rest@;
        let item = match rest.pop() {
            Some(item) => item,
            None => {
                return sorted;
            },
        };
        assert(rows(before) =~= rows(rest@).push(item@));
        let mut position: usize = 0;
        while position < sorted.len() && !entry_le_exec(order, &item, &sorted[position])
            invariant
                position <= sorted@.len(),
                entries_sorted(order, rows(sorted@)),
                forall|k: int| 0 <= k < position ==> #[trigger] entry_le(order, rows(sorted@)[k], item@),
            decreases sorted@.len() - position,
        {
            proof {
                lemma_entry_le_total(order, item@, sorted@[position as int]@);
            }
            position = position + 1;
        }
        let ghost old_rows = rows(sorted@);
        proof {
            assert forall|k: int| position <= k < old_rows.len() implies #[trigger] entry_le(
                order,
                item@,
                old_rows[k],
            ) by {
                if k > position {
                    lemma_entry_le_transitive(order, item@, old_rows[position as int], old_rows[k]);
                }
            }
        }
        let ghost item_row = item@;
        sorted.insert(position, item);
        proof {
            let inserted = rows(sorted@);
            assert(inserted =~= old_rows.insert(position as int, item_row));
            assert forall|i: int, j: int| 0 <= i < j < inserted.len() implies #[trigger] entry_le(
                order,
                inserted[i],
                inserted[j],
            ) by {
                if j < position {
                    assert(entry_le(order, old_rows[i], old_rows[j]));
                } else if j == position {
                    assert(entry_le(order, old_rows[i], item_row));
                } else if i < position {
                    assert(entry_le(order, old_rows[i], old_rows[j - 1]));
                } else if i == position {
                    assert(entry_le(order, item_row, old_rows[j - 1]));
                } else {
                    assert(entry_le(order, old_rows[i - 1], old_rows[j - 1]));
                }
            }
        }
    }
    proof {
        broadcast use vstd::multiset::group_multiset_axioms;

        assert(rows(rest@) =~= Seq::<PickerRow>::empty());
        assert(rows(rest@).to_multiset() =~= vstd::multiset::Multiset::empty());
        assert(rows(sorted@).to_multiset().add(rows(rest@).to_multiset()) =~= rows(
            sorted@,
        ).to_multiset());
    }
    sorted
}


/// What the application read of a directory: its entries, or the error
/// that stopped the read, and the directory's parent, if it has one.
pub struct DirectoryListing {
    pub items: Result<Vec<DirectoryItem>, String>,
    pub parent: Option<String>,
}

/// `name` between square brackets, as directories are shown.
pub open spec fn bracketed(name: Seq<char>) -> Seq<char> {
    seq!['['] + name + seq![']']
}

/// The directories of a listing, in listing order, as the `.a3d` picker
/// shows them.
pub open spec fn a3d_directory_rows(items: Seq<DirectoryItem>) -> Seq<PickerRow>
    decreases items.len(),
{
    if items.len() == 0 {
        seq![]
    } else {
        let before = a3d_directory_rows(items.drop_last());
        let item = items.last();
        if item.is_dir {
            before.push(PickerRow { label: bracketed(item.name@), path: item.path@, is_dir: true })
        } else {
            before
        }
    }
}

/// The `.a3d` files of a listing, in listing order, as the `.a3d` picker
/// shows them.
pub open spec fn a3d_file_rows(items: Seq<DirectoryItem>) -> Seq<PickerRow>
    decreases items.len(),
{
    if items.len() == 0 {
        seq![]
    } else {
        let before = a3d_file_rows(items.drop_last());
        let item = items.last();
        if !item.is_dir && file_extension(item.name@) == Some("a3d"@) {
            before.push(PickerRow { label: item.name@, path: item.path@, is_dir: false })
        } else {
            before
        }
    }
}

/// The row that leads to the parent directory: to `parent`, or back to
/// `current_dir` where there is none.
pub open spec fn parent_row(parent: Option<String>, current_dir: Seq<char>) -> PickerRow {
    PickerRow {
        label: "[..]"@,
        path: match parent {
            Some(parent) => parent@,
            None => current_dir,
        },
        is_dir: true,
    }
}

/// A picker for `.a3d` scene files: directories first, then files, each
/// group by label, below a row for the parent directory.
pub struct A3dFilePicker {
    pub current_dir: String,
    pub entries: Vec<PickerEntry>,
    pub selected: usize,
    pub error: Option<String>,
}

/// `name` between square brackets.
fn bracket(name: &str) -> (label: String)
    ensures
        label@ == bracketed(name@),
{
    let mut label = "[".to_owned();
    label.append(name);
    label.append("]");
    proof {
        reveal_strlit("[");
        reveal_strlit("]");
        assert(label@ =~= bracketed(name@));
    }
    label
}

/// The directories and the `.a3d` files of a listing, as the picker shows
/// them, in listing order.
fn a3d_rows_of(items: &Vec<DirectoryItem>) -> (split: (Vec<PickerEntry>, Vec<PickerEntry>))
    ensures
        rows(split.0@) == a3d_directory_rows(items@),
        rows(split.1@) == a3d_file_rows(items@),
{
    let mut dirs: Vec<PickerEntry> = Vec::new();
    let mut files: Vec<PickerEntry> = Vec::new();
    let mut index: usize = 0;
    while index < items.len()
        invariant
            index <= items@.len(),
            rows(dirs@) == a3d_directory_rows(items@.take(index as int)),
            rows(files@) == a3d_file_rows(items@.take(index as int)),
        decreases items@.len() - index,
    {
        let item = &items[index];
        assert(items@.take(index + 1).drop_last() =~= items@.take(index as int));
        if item.is_dir {
            let entry = PickerEntry { label: bracket(item.name.as_str()), path: item.path.clone(), is_dir: true };
            dirs.push(entry);
            assert(rows(dirs@) =~= a3d_directory_rows(items@.take(index + 1)));
            assert(rows(files@) =~= a3d_file_rows(items@.take(index + 1)));
        } else {
            let is_a3d = match crate::scene_files::extension_of(item.name.as_str()) {
                Some(extension) => extension == "a3d".to_owned(),
                None => false,
            };
            if is_a3d {
                let entry = PickerEntry { label: item.name.clone(), path: item.path.clone(), is_dir: false };
                files.push(entry);
            }
            assert(rows(dirs@) =~= a3d_directory_rows(items@.take(index + 1)));
            assert(rows(files@) =~= a3d_file_rows(items@.take(index + 1)));
        }
        index = index + 1;
    }
    assert(items@.take(index as int) =~= items@);
    (dirs, files)
}

impl A3dFilePicker {
    /// The picker after `refresh(listing)` from `self`.
    pub open spec fn refreshed(self, final_state: Self, listing: DirectoryListing) -> bool {
        refresh_outcome(self.current_dir@, self.selected, final_state, listing)
    }
}

/// `final_state` is what refreshing a picker of `current_dir`, whose
/// selection was `selected`, with `listing` gives.
pub open spec fn refresh_outcome(
    current_dir: Seq<char>,
    selected: usize,
    final_state: A3dFilePicker,
    listing: DirectoryListing,
) -> bool {
        &&& final_state.current_dir@ == current_dir
        &&& match listing.items {
            Err(message) => {
                &&& final_state.entries@.len() == 0
                &&& final_state.error == Some(message)
                &&& final_state.selected == selected
            },
            Ok(items) => {
                let directories = a3d_directory_rows(items@);
                let files = a3d_file_rows(items@);
                let shown = rows(final_state.entries@);
                &&& shown.len() == 1 + directories.len() as int + files.len()
                &&& shown[0] == parent_row(listing.parent, current_dir)
                &&& sorted_arrangement(
                    EntryOrder::ByLabel,
                    shown.subrange(1, 1 + directories.len() as int),
                    directories,
                )
                &&& sorted_arrangement(
                    EntryOrder::ByLabel,
                    shown.subrange(1 + directories.len() as int, shown.len() as int),
                    files,
                )
                &&& final_state.selected == if selected < shown.len() - 1 {
                    selected as int
                } else {
                    shown.len() - 1
                }
                &&& final_state.error is None
            },
        }
}

impl A3dFilePicker {

    /// A picker showing `current_dir`, whose read is `listing`, with its
    /// first row selected.
    pub fn new(current_dir: String, listing: DirectoryListing) -> (picker: Self)
        ensures
            refresh_outcome(current_dir@, 0, picker, listing),
    {
        let mut picker = A3dFilePicker { current_dir, entries: Vec::new(), selected: 0, error: None };
        picker.refresh(listing);
        picker
    }

    /// Shows `listing`, the read of the current directory, keeping the
    /// selection where it still exists.
    pub fn refresh(&mut self, listing: DirectoryListing)
        ensures
            old(self).refreshed(*final(self), listing),
    {
        self.entries = Vec::new();
        let parent = listing.parent;
        let items = match listing.items {
            Ok(items) => items,
            Err(message) => {
                self.error = Some(message);
                return;
            },
        };
        let (dirs, files) = a3d_rows_of(&items);
        let mut dirs = sort_entries(dirs, EntryOrder::ByLabel);
        let mut files = sort_entries(files, EntryOrder::ByLabel);
        let parent_path = match parent {
            Some(parent) => parent,
            None => self.current_dir.clone(),
        };
        let mut entries: Vec<PickerEntry> = Vec::new();
        entries.push(PickerEntry { label: "[..]".to_owned(), path: parent_path, is_dir: true });
        let ghost first = entries@;
        let ghost directories = dirs@;
        let ghost file_entries = files@;
        entries.append(&mut dirs);
        entries.append(&mut files);
        proof {
            assert(rows(directories).to_multiset().len() == a3d_directory_rows(items@).to_multiset().len());
            assert(rows(file_entries).to_multiset().len() == a3d_file_rows(items@).to_multiset().len());
            assert(entries@ =~= first + directories + file_entries);
            let shown = rows(entries@);
            assert(shown.subrange(1, 1 + directories.len() as int) =~= rows(directories));
            assert(shown.subrange(1 + directories.len() as int, shown.len() as int) =~= rows(file_entries));
            reveal_strlit("[..]");
        }
        let count = entries.len();
        self.selected = if self.selected < count - 1 {
            self.selected
        } else {
            count - 1
        };
        self.entries = entries;
        self.error = None;

    }

    /// Selects the row above, staying on the first.
    pub fn move_up(&mut self)
        ensures
            final(self).selected == if old(self).selected > 0 {
                old(self).selected - 1
            } else {
                0
            },
            final(self).entries == old(self).entries,
            final(self).current_dir == old(self).current_dir,
            final(self).error == old(self).error,
    {
        self.selected = self.selected.saturating_sub(1);
    }

    /// Selects the row below, staying on the last.
    pub fn move_down(&mut self)
        requires
            old(self).entries@.len() == 0 || old(self).selected < usize::MAX,
        ensures
            final(self).selected == if old(self).entries@.len() == 0 {
                old(self).selected as int
            } else if old(self).selected + 1 < old(self).entries@.len() - 1 {
                old(self).selected + 1
            } else {
                old(self).entries@.len() - 1
            },
            final(self).entries == old(self).entries,
            final(self).current_dir == old(self).current_dir,
            final(self).error == old(self).error,
    {
        if self.entries.len() > 0 {
            let next = self.selected + 1;
            let last = self.entries.len() - 1;
            self.selected = if next < last {
                next
            } else {
                last
            };
        }
    }

    /// The selected row, if the selection is on one.
    pub fn selected_entry(&self) -> (entry: Option<&PickerEntry>)
        ensures
            match entry {
                Some(entry) => self.selected < self.entries@.len() && *entry
                    == self.entries@[self.selected as int],
                None => self.selected >= self.entries@.len(),
            },
    {
        if self.selected < self.entries.len() {
            Some(&self.entries[self.selected])
        } else {
            None
        }
    }

    /// Moves to the parent directory, if there is one; `listing` is the read
    /// of that parent.
    pub fn open_parent(&mut self, parent: Option<String>, listing: DirectoryListing)
        ensures
            match parent {
                Some(parent) => refresh_outcome(parent@, old(self).selected, *final(self), listing),
                None => *final(self) == *old(self),
            },
    {
        if let Some(parent) = parent {
            self.current_dir = parent;
            self.refresh(listing);
        }
    }

    /// The labels of the rows, top to bottom.
    pub fn labels(&self) -> (labels: Vec<String>)
        ensures
            labels@.len() == self.entries@.len(),
            forall|index: int| 0 <= index < labels@.len() ==> #[trigger] labels@[index]@
                == self.entries@[index].label@,
    {
        let mut labels: Vec<String> = Vec::new();
        let mut index: usize = 0;
        while index < self.entries.len()
            invariant
                index <= self.entries@.len(),
                labels@.len() == index,
                forall|k: int| 0 <= k < index ==> #[trigger] labels@[k]@ == self.entries@[k].label@,
            decreases self.entries@.len() - index,
        {
            labels.push(self.entries[index].label.clone());
            index = index + 1;
        }
        labels
    }
}


/// The rows that the scene picker shows for a listing, in listing order:
/// directories as `[name]` and supported scene files by name; entries
/// whose name is not UTF-8 are left out.
pub open spec fn scene_rows(items: Seq<DirectoryItem>) -> Seq<PickerRow>
    decreases items.len(),
{
    if items.len() == 0 {
        seq![]
    } else {
        let before = scene_rows(items.drop_last());
        let item = items.last();
        if !item.utf8_name || (!item.is_dir && !is_supported_scene_name(item.name@)) {
            before
        } else {
            before.push(
                PickerRow {
                    label: if item.is_dir {
                        bracketed(item.name@)
                    } else {
                        item.name@
                    },
                    path: item.path@,
                    is_dir: item.is_dir,
                },
            )
        }
    }
}

/// Whether the scene picker walks the file system or lists the scenes that
/// come with the application.
#[derive(Clone, Copy, Debug, PartialEq, Eq, Structural)]
pub enum ScenePickerMode {
    Open,
    BrowseBuiltIn,
}

/// What activating the selected row of the scene picker did.
#[derive(Debug, PartialEq, Eq)]
pub enum ScenePickerActivation {
    /// No row is selected.
    Nothing,
    /// The picker moved into the selected directory; the caller reads it and
    /// hands the read to `refresh_directory`.
    EnteredDirectory,
    /// The selected scene file, to be opened.
    OpenScene(String),
}

/// The row above `selected` among `count` rows, from the first to the last.
pub open spec fn row_above(selected: int, count: int) -> int {
    if count == 0 {
        0
    } else if selected == 0 {
        count - 1
    } else {
        selected - 1
    }
}

/// The row below `selected` among `count` rows, from the last to the first.
pub open spec fn row_below(selected: int, count: int) -> int {
    if count == 0 {
        0
    } else {
        (selected + 1) % count
    }
}

/// In the scene picker, moving down and then up, or up and then down,
/// comes back to the row it started from.
pub proof fn law_scene_picker_moves_undo(selected: int, count: int)
    requires
        0 <= selected < count,
    ensures
        row_above(row_below(selected, count), count) == selected,
        row_below(row_above(selected, count), count) == selected,
{
    if selected + 1 < count {
        vstd::arithmetic::div_mod::lemma_small_mod((selected + 1) as nat, count as nat);
    } else {
        vstd::arithmetic::div_mod::lemma_mod_self_0(count);
    }
    let above = row_above(selected, count);
    if above + 1 < count {
        vstd::arithmetic::div_mod::lemma_small_mod((above + 1) as nat, count as nat);
    } else {
        vstd::arithmetic::div_mod::lemma_mod_self_0(count);
    }
}

/// The scene picker of the scene viewer.
pub struct ScenePickerState {
    pub mode: ScenePickerMode,
    pub current_dir: String,
    pub entries: Vec<PickerEntry>,
    pub selected: usize,
    pub error: Option<String>,
}

/// `final_state` shows `items` as the scene picker does, or the error that
/// stopped their read, with the first row selected.
pub open spec fn scene_refresh_outcome(
    final_state: ScenePickerState,
    items: Result<Vec<DirectoryItem>, String>,
) -> bool {
    &&& final_state.selected == 0
    &&& match items {
        Err(message) => final_state.entries@.len() == 0 && final_state.error == Some(message),
        Ok(items) => sorted_arrangement(
            EntryOrder::DirectoriesFirst,
            rows(final_state.entries@),
            scene_rows(items@),
        ) && final_state.error is None,
    }
}

/// The rows that the scene picker shows for `items`, in listing order.
fn scene_rows_of(items: &Vec<DirectoryItem>) -> (shown: Vec<PickerEntry>)
    ensures
        rows(shown@) == scene_rows(items@),
{
    let mut shown: Vec<PickerEntry> = Vec::new();
    let mut index: usize = 0;
    while index < items.len()
        invariant
            index <= items@.len(),
            rows(shown@) == scene_rows(items@.take(index as int)),
        decreases items@.len() - index,
    {
        let item = &items[index];
        assert(items@.take(index + 1).drop_last() =~= items@.take(index as int));
        if item.utf8_name && (item.is_dir || is_supported_scene_path(item.name.as_str())) {
            let label = if item.is_dir {
                bracket(item.name.as_str())
            } else {
                item.name.clone()
            };
            shown.push(PickerEntry { label, path: item.path.clone(), is_dir: item.is_dir });
        }
        assert(rows(shown@) =~= scene_rows(items@.take(index + 1)));
        index = index + 1;
    }
    assert(items@.take(index as int) =~= items@);
    shown
}

impl ScenePickerState {
    /// A picker walking the file system from `start_dir`, whose read is
    /// `items`.
    pub fn open(start_dir: String, items: Result<Vec<DirectoryItem>, String>) -> (state: Self)
        ensures
            state.mode == ScenePickerMode::Open,
            state.current_dir == start_dir,
            scene_refresh_outcome(state, items),
    {
        let mut state = ScenePickerState {
            mode: ScenePickerMode::Open,
            current_dir: start_dir,
            entries: Vec::new(),
            selected: 0,
            error: None,
        };
        state.refresh_directory(items);
        state
    }

    /// A picker listing `scenes`, the scene files that come with the
    /// application, by label.
    pub fn browse_built_in(scenes: Vec<PickerEntry>) -> (state: Self)
        ensures
            state.mode == ScenePickerMode::BrowseBuiltIn,
            state.current_dir@ == "assets"@,
            sorted_arrangement(EntryOrder::ByLabel, rows(state.entries@), rows(scenes@)),
            state.selected == 0,
            state.error is None,
    {
        let entries = sort_entries(scenes, EntryOrder::ByLabel);
        ScenePickerState {
            mode: ScenePickerMode::BrowseBuiltIn,
            current_dir: "assets".to_owned(),
            entries,
            selected: 0,
            error: None,
        }
    }

    pub open spec fn spec_title(self) -> Seq<char> {
        match self.mode {
            ScenePickerMode::Open => "Open Scene"@,
            ScenePickerMode::BrowseBuiltIn => "Built-in Scenes"@,
        }
    }

    pub fn title(&self) -> (title: &'static str)
        ensures
            title@ == self.spec_title(),
    {
        match self.mode {
            ScenePickerMode::Open => "Open Scene",
            ScenePickerMode::BrowseBuiltIn => "Built-in Scenes",
        }
    }

    /// Selects the row above, from the first to the last.
    pub fn move_up(&mut self)
        ensures
            final(self).selected == row_above(old(self).selected as int, old(self).entries@.len() as int),
            final(self).mode == old(self).mode,
            final(self).current_dir == old(self).current_dir,
            final(self).entries == old(self).entries,
            final(self).error == old(self).error,
    {
        if self.entries.len() == 0 {
            self.selected = 0;
        } else if self.selected == 0 {
            self.selected = self.entries.len() - 1;
        } else {
            self.selected = self.selected - 1;
        }
    }

    /// Selects the row below, from the last to the first.
    pub fn move_down(&mut self)
        requires
            old(self).entries@.len() == 0 || old(self).selected < usize::MAX,
        ensures
            final(self).selected == row_below(old(self).selected as int, old(self).entries@.len() as int),
            final(self).mode == old(self).mode,
            final(self).current_dir == old(self).current_dir,
            final(self).entries == old(self).entries,
            final(self).error == old(self).error,
    {
        if self.entries.len() == 0 {
            self.selected = 0;
        } else {
            self.selected = (self.selected + 1) % self.entries.len();
        }
    }

    /// Moves to the parent directory while walking the file system, if there
    /// is one; `items` is the read of that parent.
    pub fn parent(&mut self, parent: Option<String>, items: Result<Vec<DirectoryItem>, String>)
        ensures
            old(self).mode == ScenePickerMode::Open && parent is Some ==> {
                &&& final(self).mode == old(self).mode
                &&& final(self).current_dir == parent->0
                &&& scene_refresh_outcome(*final(self), items)
            },
            !(old(self).mode == ScenePickerMode::Open && parent is Some) ==> *final(self)
                == *old(self),
    {
        if self.mode != ScenePickerMode::Open {
            return;
        }
        if let Some(parent) = parent {
            self.current_dir = parent;
            self.refresh_directory(items);
        }
    }

    /// Opens the selected row: enters a directory, or hands back the path of
    /// a scene file.
    pub fn activate(&mut self) -> (activation: ScenePickerActivation)
        ensures
            old(self).selected >= old(self).entries@.len() ==> activation
                == ScenePickerActivation::Nothing && *final(self) == *old(self),
            old(self).selected < old(self).entries@.len() ==> {
                let entry = old(self).entries@[old(self).selected as int];
                if entry.is_dir {
                    &&& activation == ScenePickerActivation::EnteredDirectory
                    &&& final(self).current_dir == entry.path
                    &&& final(self).mode == old(self).mode
                    &&& final(self).entries == old(self).entries
                    &&& final(self).selected == old(self).selected
                    &&& final(self).error == old(self).error
                } else {
                    &&& activation == ScenePickerActivation::OpenScene(entry.path)
                    &&& *final(self) == *old(self)
                }
            },
    {
        if self.selected >= self.entries.len() {
            return ScenePickerActivation::Nothing;
        }
        let entry = self.entries[self.selected].clone();
        if entry.is_dir {
            self.current_dir = entry.path;
            ScenePickerActivation::EnteredDirectory
        } else {
            ScenePickerActivation::OpenScene(entry.path)
        }
    }

    /// Shows `items`, the read of the current directory, with the first row
    /// selected.
    pub fn refresh_directory(&mut self, items: Result<Vec<DirectoryItem>, String>)
        ensures
            final(self).mode == old(self).mode,
            final(self).current_dir == old(self).current_dir,
            scene_refresh_outcome(*final(self), items),
    {
        self.entries = Vec::new();
        self.selected = 0;
        self.error = None;
        let items = match items {
            Ok(items) => items,
            Err(message) => {
                self.error = Some(message);
                return;
            },
        };
        let shown = scene_rows_of(&items);
        self.entries = sort_entries(shown, EntryOrder::DirectoriesFirst);
    }
}

} // verus!
