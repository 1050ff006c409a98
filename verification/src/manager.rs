//! The drag-and-drop list manager: two ordered columns of mod identifiers
//! (`available`, `installed`), synchronized from directory listings and
//! mutated only by [`SakawaApp::apply_move`].

use vstd::prelude::*;

verus! {

/// Index of the column of mods that are present in the mods directory but
/// not installed.
pub const AVAILABLE_COL: usize = 0;

/// Index of the column of mods that are present in the game's active-mods
/// directory.
pub const INSTALLED_COL: usize = 1;

/// Sentinel row index meaning "append at the end of the column".
pub const APPEND_ROW: usize = usize::MAX;

/// A position in the two-column model: `(column index, row index)`.
/// `row` may be [`APPEND_ROW`].
#[derive(Clone, Copy, Debug, PartialEq, Eq, Structural)]
pub struct Location {
    pub col: usize,
    pub row: usize,
}

/// The two filesystem paths the manager mirrors: the directory of
/// available mod files and the root of the game installation.
pub struct Config {
    pub mods_path: String,
    pub game_path: String,
}

/// The application state: the configuration, the most recent directory
/// listings, and the two columns shown to the user.
///
/// `columns` is either empty (meaning "rebuild from disk on the next
/// synchronization") or holds exactly the `available` and `installed`
/// columns, in that order.
pub struct SakawaApp {
    pub config: Config,
    pub available_mods: Option<Vec<String>>,
    pub installed_mods: Vec<String>,
    pub columns: Vec<Vec<String>>,
}

/// The filesystem side effect a cross-column move calls for: copying the
/// named file into the active-mods directory, or deleting it from there.
#[derive(Debug, PartialEq, Eq)]
pub enum MirrorAction {
    Install(String),
    Uninstall(String),
}

impl MirrorAction {
    /// Mathematical value of an action: whether it installs, and the name
    /// of the file it concerns.
    pub open spec fn model(self) -> (bool, Seq<char>) {
        match self {
            MirrorAction::Install(name) => (true, name@),
            MirrorAction::Uninstall(name) => (false, name@),
        }
    }
}

/// Mathematical value of an optional action.
pub open spec fn action_view(action: Option<MirrorAction>) -> Option<(bool, Seq<char>)> {
    match action {
        Some(a) => Some(a.model()),
        None => None,
    }
}

/// Mathematical value of a directory listing: the sequence of entry
/// names, empty when the directory was absent.
pub open spec fn listing_view(listing: Option<Vec<String>>) -> Seq<Seq<char>> {
    match listing {
        Some(v) => v.deep_view(),
        None => Seq::empty(),
    }
}

/// The names of `mods` that do not occur in `installed`, in their
/// original order.
pub open spec fn filter_not_installed(
    mods: Seq<Seq<char>>,
    installed: Seq<Seq<char>>,
) -> Seq<Seq<char>>
    decreases mods.len(),
{
    if mods.len() == 0 {
        Seq::empty()
    } else {
        let rest = filter_not_installed(mods.drop_last(), installed);
        if installed.contains(mods.last()) {
            rest
        } else {
            rest.push(mods.last())
        }
    }
}

/// The columns a rebuild from the two directory listings produces:
/// `installed` as listed, and `available` with every installed name
/// removed.
pub open spec fn sync_columns(
    mods: Seq<Seq<char>>,
    installed: Seq<Seq<char>>,
) -> Seq<Seq<Seq<char>>> {
    seq![filter_not_installed(mods, installed), installed]
}

/// What synchronization does to the columns: a rebuild when they are
/// empty, nothing otherwise.
pub open spec fn sync_model(
    cols: Seq<Seq<Seq<char>>>,
    mods: Seq<Seq<char>>,
    installed: Seq<Seq<char>>,
) -> Seq<Seq<Seq<char>>> {
    if cols.len() == 0 {
        sync_columns(mods, installed)
    } else {
        cols
    }
}

/// The row a move actually inserts at, with the same-column adjustment
/// (removal first shifts later rows down by one) and the clamp of the
/// append sentinel to the destination length.
pub open spec fn resolved_row(cols: Seq<Seq<Seq<char>>>, from: Location, to: Location) -> int {
    if from.col == to.col {
        let adjusted: int = if from.row < to.row {
            to.row - 1
        } else {
            to.row as int
        };
        let limit: int = cols[from.col as int].len() as int - 1;
        if adjusted > limit {
            limit
        } else {
            adjusted
        }
    } else {
        let limit: int = cols[to.col as int].len() as int;
        if to.row > limit {
            limit
        } else {
            to.row as int
        }
    }
}

/// The columns after moving the item at `from` to `to`: removed from its
/// source column and inserted at the resolved row of the destination.
pub open spec fn moved_columns(
    cols: Seq<Seq<Seq<char>>>,
    from: Location,
    to: Location,
) -> Seq<Seq<Seq<char>>> {
    let item = cols[from.col as int][from.row as int];
    let target = resolved_row(cols, from, to);
    if from.col == to.col {
        cols.update(
            from.col as int,
            cols[from.col as int].remove(from.row as int).insert(target, item),
        )
    } else {
        cols.update(from.col as int, cols[from.col as int].remove(from.row as int)).update(
            to.col as int,
            cols[to.col as int].insert(target, item),
        )
    }
}

/// The side effect a move implies: none within a column, an install when
/// the item enters the installed column, an uninstall when it leaves it.
pub open spec fn move_action_model(
    cols: Seq<Seq<Seq<char>>>,
    from: Location,
    to: Location,
) -> Option<(bool, Seq<char>)> {
    if from.col == to.col {
        None
    } else if to.col == INSTALLED_COL {
        Some((true, cols[from.col as int][from.row as int]))
    } else {
        Some((false, cols[from.col as int][from.row as int]))
    }
}

impl Default for SakawaApp {
    /// The state before any user action: the mods directory is the
    /// relative `mods` folder, the game root is the Epic Games default,
    /// nothing has been listed yet, and the columns await their first
    /// rebuild.
    fn default() -> (result: Self)
        ensures
            result.config.mods_path@ == "mods"@,
            result.config.game_path@ == crate::defines::EPIC_PATH@,
            result.available_mods is None,
            result.installed_mods@.len() == 0,
            result.cols().len() == 0,
    {
        SakawaApp {
            config: Config {
                mods_path: "mods".to_string(),
                game_path: crate::defines::EPIC_PATH.to_string(),
            },
            available_mods: None,
            installed_mods: Vec::new(),
            columns: Vec::new(),
        }
    }
}

impl SakawaApp {
    /// Mathematical value of the columns: each column as a sequence of
    /// names, each name as a sequence of characters.
    pub open spec fn cols(self) -> Seq<Seq<Seq<char>>> {
        self.columns.deep_view()
    }

    /// Takes the listing of the mods directory (`None` when the directory
    /// does not exist) and remembers it as the available mods. On `None`
    /// nothing is remembered and `None` is returned.
    pub fn load_available_mods(&mut self, listing: Option<Vec<String>>) -> (mods: Option<
        Vec<String>,
    >)
        ensures
            listing is None ==> mods is None && *final(self) == *old(self),
            listing matches Some(entries) ==> {
                &&& mods matches Some(m) && m.deep_view() == entries.deep_view()
                &&& final(self).available_mods matches Some(a) && a.deep_view()
                    == entries.deep_view()
                &&& final(self).config == old(self).config
                &&& final(self).installed_mods == old(self).installed_mods
                &&& final(self).columns == old(self).columns
            },
    {
        match listing {
            None => None,
            Some(entries) => {
                let copy = entries.clone();
                proof {
                    assert(copy.deep_view() =~= entries.deep_view());
                }
                self.available_mods = Some(copy);
                Some(entries)
            },
        }
    }

    /// Takes the listing of the game's active-mods directory (`None` when
    /// the directory does not exist, treated as empty) and replaces the
    /// installed mods with it.
    pub fn load_installed_mods(&mut self, listing: Option<Vec<String>>) -> (mods: Option<
        Vec<String>,
    >)
        ensures
            final(self).installed_mods.deep_view() == listing_view(listing),
            mods matches Some(m) && m.deep_view() == listing_view(listing),
            final(self).config == old(self).config,
            final(self).available_mods == old(self).available_mods,
            final(self).columns == old(self).columns,
    {
        let entries: Vec<String> = match listing {
            Some(entries) => entries,
            None => Vec::new(),
        };
        proof {
            assert(entries.deep_view() =~= listing_view(listing));
        }
        let copy = entries.clone();
        proof {
            assert(copy.deep_view() =~= entries.deep_view());
        }
        self.installed_mods = entries;
        Some(copy)
    }

    /// Rebuilds the two columns from the given directory listings when the
    /// in-memory columns are empty; otherwise leaves the whole state
    /// untouched, so that moves already applied in memory survive. A
    /// missing directory (`None` listing) counts as empty, never as an
    /// error.
    pub fn synchronize(
        &mut self,
        mods_listing: Option<Vec<String>>,
        installed_listing: Option<Vec<String>>,
    )
        ensures
            final(self).cols() == sync_model(
                old(self).cols(),
                listing_view(mods_listing),
                listing_view(installed_listing),
            ),
            old(self).cols().len() != 0 ==> *final(self) == *old(self),
            final(self).config == old(self).config,
            old(self).cols().len() == 0 ==> final(self).installed_mods.deep_view()
                == listing_view(installed_listing),
            old(self).cols().len() == 0 && mods_listing is Some ==> (final(self).available_mods
                matches Some(cached) && cached.deep_view() == listing_view(mods_listing)),
            old(self).cols().len() == 0 && mods_listing is None ==> final(self).available_mods
                == old(self).available_mods,
    {
        if self.columns.is_empty() {
            proof {
                assert(old(self).cols().len() == 0);
            }
            let mods: Vec<String> = match self.load_available_mods(mods_listing) {
                Some(m) => m,
                None => Vec::new(),
            };
            proof {
                assert(mods.deep_view() =~= listing_view(mods_listing));
            }
            let installed: Vec<String> = match self.load_installed_mods(installed_listing) {
                Some(m) => m,
                None => Vec::new(),
            };
            let ghost mods_seq: Seq<Seq<char>> = mods.deep_view();
            let ghost installed_seq: Seq<Seq<char>> = installed.deep_view();
            let mut filtered: Vec<String> = Vec::new();
            let mut idx: usize = 0;
            while idx < mods.len()
                invariant
                    idx <= mods.len(),
                    mods_seq == mods.deep_view(),
                    installed_seq == installed.deep_view(),
                    filtered.deep_view() == filter_not_installed(
                        mods_seq.take(idx as int),
                        installed_seq,
                    ),
                decreases mods.len() - idx,
            {
                let ghost prefix: Seq<Seq<char>> = mods_seq.take(idx as int);
                let ghost next_prefix: Seq<Seq<char>> = mods_seq.take(idx as int + 1);
                proof {
                    assert(next_prefix.drop_last() =~= prefix);
                    assert(next_prefix.last() == mods_seq[idx as int]);
                }
                let entry: &String = &mods[idx];
                if !vec_contains_string(&installed, entry) {
                    let copy = entry.clone();
                    filtered.push(copy);
                    proof {
                        assert(filtered.deep_view() =~= filter_not_installed(
                            next_prefix,
                            installed_seq,
                        ));
                    }
                }
                idx = idx + 1;
            }
            proof {
                assert(mods_seq.take(mods_seq.len() as int) =~= mods_seq);
            }
            let columns: Vec<Vec<String>> = vec![filtered, installed];
            proof {
                assert(columns.deep_view() =~= sync_columns(
                    listing_view(mods_listing),
                    listing_view(installed_listing),
                ));
            }
            self.columns = columns;
        }
    }
}

impl SakawaApp {
    /// Whether `from` and `to` may be handed to [`SakawaApp::apply_move`]:
    /// the columns are the two of the model, `from` names an existing row,
    /// and `to` names a column (its row may be [`APPEND_ROW`]).
    pub open spec fn move_allowed(self, from: Location, to: Location) -> bool {
        &&& self.cols().len() == 2
        &&& from.col < 2
        &&& to.col < 2
        &&& (from.row as int) < self.cols()[from.col as int].len()
    }

    /// Records a newly picked game root. The columns stay as they are:
    /// they mirror the mods directory, which did not change.
    pub fn set_game_path(&mut self, path: String)
        ensures
            final(self).config.game_path == path,
            final(self).config.mods_path == old(self).config.mods_path,
            final(self).available_mods == old(self).available_mods,
            final(self).installed_mods == old(self).installed_mods,
            final(self).columns == old(self).columns,
    {
        self.config.game_path = path;
    }

    /// Records a newly picked mods directory and clears the cached
    /// listing and the columns, so that the next synchronization rebuilds
    /// both columns from disk.
    pub fn set_mods_path(&mut self, path: String)
        ensures
            final(self).config.mods_path == path,
            final(self).config.game_path == old(self).config.game_path,
            final(self).available_mods is None,
            final(self).installed_mods == old(self).installed_mods,
            final(self).cols().len() == 0,
    {
        self.config.mods_path = path;
        self.available_mods = None;
        self.columns.clear();
    }

    /// The filesystem side effect the move from `from` to `to` calls for,
    /// without touching the columns. The shell performs this action first
    /// and applies the move in memory only once the action has succeeded,
    /// so the installed column never shows a file the copy did not
    /// produce.
    pub fn move_action(&self, from: Location, to: Location) -> (action: Option<MirrorAction>)
        requires
            self.move_allowed(from, to),
        ensures
            action_view(action) == move_action_model(self.cols(), from, to),
    {
        if from.col == to.col {
            None
        } else {
            let column: &Vec<String> = &self.columns[from.col];
            let name: String = column[from.row].clone();
            proof {
                assert(name@ == self.cols()[from.col as int][from.row as int]);
            }
            if to.col == INSTALLED_COL {
                Some(MirrorAction::Install(name))
            } else {
                Some(MirrorAction::Uninstall(name))
            }
        }
    }

    /// Moves the item at `from` in front of the row `to` points at: within
    /// a column a pure reorder, across columns a transfer, with the append
    /// sentinel resolved to the end of the destination. Returns the
    /// filesystem action the transfer calls for, exactly as
    /// [`SakawaApp::move_action`] would have.
    pub fn apply_move(&mut self, from: Location, to: Location) -> (action: Option<MirrorAction>)
        requires
            old(self).move_allowed(from, to),
        ensures
            final(self).cols() == moved_columns(old(self).cols(), from, to),
            action_view(action) == move_action_model(old(self).cols(), from, to),
            final(self).config == old(self).config,
            final(self).available_mods == old(self).available_mods,
            final(self).installed_mods == old(self).installed_mods,
    {
        let ghost deep0: Seq<Seq<Seq<char>>> = old(self).cols();
        let action = self.move_action(from, to);
        let mut target: usize = to.row;
        if from.col == to.col && from.row < target {
            target = target - 1;
        }
        let mut source_column: Vec<String> = self.columns.remove(from.col);
        let item: String = source_column.remove(from.row);
        proof {
            assert(item@ == deep0[from.col as int][from.row as int]);
            assert(source_column.deep_view() =~= deep0[from.col as int].remove(from.row as int));
        }
        let ghost source_removed: Seq<Seq<char>> = source_column.deep_view();
        self.columns.insert(from.col, source_column);
        proof {
            assert forall|c: int| 0 <= c < deep0.len() implies #[trigger] self.cols()[c]
                == deep0.update(from.col as int, source_removed)[c] by {
                if c != from.col {
                    assert(self.columns@[c] == old(self).columns@[c]);
                }
            }
            assert(self.cols() =~= deep0.update(from.col as int, source_removed));
        }
        let ghost deep1: Seq<Seq<Seq<char>>> = self.cols();
        let ghost vecs1: Seq<Vec<String>> = self.columns@;
        let mut destination_column: Vec<String> = self.columns.remove(to.col);
        let limit: usize = destination_column.len();
        if target > limit {
            target = limit;
        }
        proof {
            assert(target as int == resolved_row(deep0, from, to));
        }
        destination_column.insert(target, item);
        proof {
            assert(destination_column.deep_view() =~= deep1[to.col as int].insert(
                resolved_row(deep0, from, to),
                item@,
            ));
        }
        let ghost destination_inserted: Seq<Seq<char>> = destination_column.deep_view();
        self.columns.insert(to.col, destination_column);
        proof {
            assert forall|c: int| 0 <= c < deep1.len() implies #[trigger] self.cols()[c]
                == deep1.update(to.col as int, destination_inserted)[c] by {
                if c != to.col {
                    assert(self.columns@[c] == vecs1[c]);
                }
            }
            assert(self.cols() =~= deep1.update(to.col as int, destination_inserted));
            assert(self.cols() =~= moved_columns(deep0, from, to));
        }
        action
    }
}

/// Whether `name` occurs, character for character, among `names`.
pub fn vec_contains_string(names: &Vec<String>, name: &String) -> (present: bool)
    ensures
        present == names.deep_view().contains(name@),
{
    let mut idx: usize = 0;
    while idx < names.len()
        invariant
            idx <= names.len(),
            forall|j: int| 0 <= j < idx ==> names.deep_view()[j] != name@,
        decreases names.len() - idx,
    {
        if names[idx].eq(name) {
            proof {
                assert(names.deep_view()[idx as int] == name@);
            }
            return true;
        }
        idx = idx + 1;
    }
    false
}

/// Computes the row an item dropped onto an existing row would land in.
///
/// While a drag hovers over the item at `hovered_row`, whose on-screen
/// rectangle spans `rect_top..rect_bottom` vertically, the drop target is
/// the edge of that rectangle the pointer is closer to: strictly above the
/// vertical center inserts before the hovered item, at or below the center
/// inserts after it. Hovering over the dragged item itself keeps it at its
/// own row.
pub fn compute_insert_index(
    pointer_y: i32,
    rect_top: i32,
    rect_bottom: i32,
    hovered_row: usize,
    hovered_is_dragged: bool,
) -> (target_row: usize)
    requires
        hovered_row < usize::MAX,
    ensures
        hovered_is_dragged ==> target_row == hovered_row,
        !hovered_is_dragged && 2 * pointer_y < rect_top + rect_bottom ==> target_row
            == hovered_row,
        !hovered_is_dragged && 2 * pointer_y >= rect_top + rect_bottom ==> target_row
            == hovered_row + 1,
{
    if hovered_is_dragged {
        hovered_row
    } else {
        let doubled_pointer: i64 = 2 * (pointer_y as i64);
        let center_doubled: i64 = rect_top as i64 + rect_bottom as i64;
        if doubled_pointer < center_doubled {
            hovered_row
        } else {
            hovered_row + 1
        }
    }
}

} // verus!
