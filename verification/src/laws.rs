//! Laws of the list manager, proved once and for all over its
//! mathematical model.

use vstd::prelude::*;

use crate::manager::{
    filter_not_installed, moved_columns, resolved_row, sync_columns, sync_model, Location,
    AVAILABLE_COL, INSTALLED_COL,
};

verus! {

/// A name belongs to the filtered sequence exactly when it occurs among
/// the mods and not among the installed names.
pub proof fn lemma_filter_not_installed_membership(
    mods: Seq<Seq<char>>,
    installed: Seq<Seq<char>>,
    id: Seq<char>,
)
    ensures
        filter_not_installed(mods, installed).contains(id) <==> (mods.contains(id)
            && !installed.contains(id)),
    decreases mods.len(),
{
    broadcast use vstd::seq_lib::group_seq_properties;

    if mods.len() == 0 {
    } else {
        lemma_filter_not_installed_membership(mods.drop_last(), installed, id);
        assert(mods =~= mods.drop_last().push(mods.last()));
        if mods.contains(id) {
            let i = choose|i: int| 0 <= i < mods.len() && mods[i] == id;
            if i < mods.len() - 1 {
                assert(mods.drop_last()[i] == id);
            }
        }
        let rest = filter_not_installed(mods.drop_last(), installed);
        if !installed.contains(mods.last()) {
            if rest.push(mods.last()).contains(id) {
                let i = choose|i: int|
                    0 <= i < rest.push(mods.last()).len() && rest.push(mods.last())[i] == id;
                if i < rest.len() {
                    assert(rest[i] == id);
                }
            }
            if rest.contains(id) {
                let i = choose|i: int| 0 <= i < rest.len() && rest[i] == id;
                assert(rest.push(mods.last())[i] == id);
            }
            if mods.last() == id {
                assert(rest.push(mods.last())[rest.len() as int] == id);
            }
        }
    }
}

/// Deduplication: a name present both in the mods listing and in the
/// installed listing ends up in the installed column of a rebuild and
/// never in the available column.
pub proof fn lemma_synchronize_dedup(
    mods: Seq<Seq<char>>,
    installed: Seq<Seq<char>>,
    id: Seq<char>,
)
    requires
        mods.contains(id),
        installed.contains(id),
    ensures
        sync_columns(mods, installed)[INSTALLED_COL as int].contains(id),
        !sync_columns(mods, installed)[AVAILABLE_COL as int].contains(id),
{
    lemma_filter_not_installed_membership(mods, installed, id);
}

/// A rebuild never shows a name in both columns: whatever the listings,
/// no identifier is both available and installed.
pub proof fn lemma_sync_columns_disjoint(
    mods: Seq<Seq<char>>,
    installed: Seq<Seq<char>>,
    id: Seq<char>,
)
    ensures
        !(sync_columns(mods, installed)[AVAILABLE_COL as int].contains(id) && sync_columns(
            mods,
            installed,
        )[INSTALLED_COL as int].contains(id)),
{
    lemma_filter_not_installed_membership(mods, installed, id);
}

/// A move within one column is a pure reorder: the column keeps its
/// multiset of names, the moved name lands exactly at the resolved row,
/// and the other columns are untouched.
pub proof fn lemma_same_column_reorder(cols: Seq<Seq<Seq<char>>>, from: Location, to: Location)
    requires
        from.col == to.col,
        (from.col as int) < cols.len(),
        (from.row as int) < cols[from.col as int].len(),
    ensures
        moved_columns(cols, from, to).len() == cols.len(),
        moved_columns(cols, from, to)[from.col as int].to_multiset() == cols[from.col
            as int].to_multiset(),
        moved_columns(cols, from, to)[from.col as int][resolved_row(cols, from, to)] == cols[from.col
            as int][from.row as int],
        forall|c: int|
            0 <= c < cols.len() && c != from.col ==> moved_columns(cols, from, to)[c] == cols[c],
{
    broadcast use vstd::seq_lib::group_to_multiset_ensures;

    let column = cols[from.col as int];
    let item = column[from.row as int];
    let removed = column.remove(from.row as int);
    let target = resolved_row(cols, from, to);
    assert(0 <= target <= removed.len());
    assert(column.contains(item));
    assert(column.to_multiset().count(item) > 0);
    assert(removed.to_multiset() == column.to_multiset().remove(item));
    assert(removed.insert(target, item).to_multiset() == removed.to_multiset().insert(item));
    assert(removed.insert(target, item).to_multiset() =~= column.to_multiset());
    assert(removed.insert(target, item)[target] == item);
}

/// A move across columns conserves the items: the two column lengths sum
/// to what they summed to before, the combined multiset of names is
/// unchanged, and the other columns are untouched.
pub proof fn lemma_cross_column_conservation(
    cols: Seq<Seq<Seq<char>>>,
    from: Location,
    to: Location,
)
    requires
        from.col != to.col,
        (from.col as int) < cols.len(),
        (to.col as int) < cols.len(),
        (from.row as int) < cols[from.col as int].len(),
    ensures
        moved_columns(cols, from, to).len() == cols.len(),
        moved_columns(cols, from, to)[from.col as int].len() + moved_columns(cols, from, to)[to.col
            as int].len() == cols[from.col as int].len() + cols[to.col as int].len(),
        moved_columns(cols, from, to)[from.col as int].to_multiset().add(
            moved_columns(cols, from, to)[to.col as int].to_multiset(),
        ) == cols[from.col as int].to_multiset().add(cols[to.col as int].to_multiset()),
        moved_columns(cols, from, to)[to.col as int][resolved_row(cols, from, to)] == cols[from.col
            as int][from.row as int],
        forall|c: int|
            0 <= c < cols.len() && c != from.col && c != to.col ==> moved_columns(cols, from, to)[c]
                == cols[c],
{
    broadcast use vstd::seq_lib::group_to_multiset_ensures;

    let source = cols[from.col as int];
    let dest = cols[to.col as int];
    let item = source[from.row as int];
    let target = resolved_row(cols, from, to);
    assert(0 <= target <= dest.len());
    assert(source.contains(item));
    assert(source.to_multiset().count(item) > 0);
    assert(source.remove(from.row as int).to_multiset() == source.to_multiset().remove(item));
    assert(dest.insert(target, item).to_multiset() == dest.to_multiset().insert(item));
    assert(source.remove(from.row as int).to_multiset().add(
        dest.insert(target, item).to_multiset(),
    ) =~= source.to_multiset().add(dest.to_multiset()));
}

/// Idempotence: synchronizing a second time, with the same listings and
/// no move in between, changes nothing — the first rebuild leaves the
/// columns non-empty, and non-empty columns are returned as they are.
pub proof fn lemma_synchronize_idempotent(
    cols: Seq<Seq<Seq<char>>>,
    mods: Seq<Seq<char>>,
    installed: Seq<Seq<char>>,
)
    ensures
        sync_model(sync_model(cols, mods, installed), mods, installed) == sync_model(
            cols,
            mods,
            installed,
        ),
{
    assert(sync_columns(mods, installed).len() == 2);
}

} // verus!
