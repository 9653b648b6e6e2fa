//! Laws of the store, proved over its transitions.

use crate::app::{rows, AppView};
use crate::task::TaskView;
use crate::text::is_blank;
use vstd::prelude::*;

verus! {

impl AppView {
    /// The store with `entry` prepared for an add: its text typed, its
    /// priority current.
    pub open spec fn prepared(self, entry: TaskView) -> AppView {
        AppView { input: entry.description, current_priority: entry.priority, ..self }
    }

    /// The store after one add for each of `entries`, in their order.
    pub open spec fn add_each(self, entries: Seq<TaskView>) -> AppView
        decreases entries.len(),
    {
        if entries.len() == 0 {
            self
        } else {
            self.add_each(entries.drop_last()).prepared(entries.last()).add_task()
        }
    }
}

impl AppView {
    /// No task of the list has a blank description.
    pub open spec fn all_described(self) -> bool {
        forall|i: int| 0 <= i < self.tasks.len() ==> !is_blank(#[trigger] self.tasks[i].description)
    }
}

/// An add of text that is not blank makes the list longer by exactly one
/// task, the new one, at its tail, and clears the typed text.
pub proof fn lemma_add_appends_one(store: AppView)
    requires
        !is_blank(store.input),
    ensures
        store.add_task().tasks.len() == store.tasks.len() + 1,
        store.add_task().tasks == store.tasks.push(store.pending_task()),
        store.add_task().tasks.last() == store.pending_task(),
        store.add_task().input.len() == 0,
{
}

/// Any number of adds of text that is not blank make the list longer by one
/// task each, and the tasks stand in the list in the order of the adds, behind
/// those that were there.
pub proof fn lemma_adds_append_in_order(store: AppView, entries: Seq<TaskView>)
    requires
        forall|i: int| 0 <= i < entries.len() ==> !is_blank(#[trigger] entries[i].description),
    ensures
        store.add_each(entries).tasks == store.tasks + entries,
        store.add_each(entries).tasks.len() == store.tasks.len() + entries.len(),
    decreases entries.len(),
{
    if entries.len() == 0 {
        assert(store.tasks + entries =~= store.tasks);
    } else {
        let before = entries.drop_last();
        lemma_adds_append_in_order(store, before);
        let ready = store.add_each(before).prepared(entries.last());
        assert(ready.pending_task() == entries.last());
        assert(!is_blank(entries[entries.len() - 1].description));
        assert((store.tasks + before).push(entries.last()) =~= store.tasks + entries);
    }
}

/// An add of blank text changes nothing: neither the list nor the typed text.
pub proof fn lemma_blank_add_changes_nothing(store: AppView)
    requires
        is_blank(store.input),
    ensures
        store.add_task() == store,
        store.add_task().tasks.len() == store.tasks.len(),
        store.add_task().input == store.input,
{
}

/// Three steps of the priority cycle restore the store, and no step of it
/// touches a task.
pub proof fn lemma_three_cycles_restore(store: AppView)
    ensures
        store.cycle_priority().cycle_priority().cycle_priority() == store,
        store.cycle_priority().tasks == store.tasks,
{
}

/// With tasks in the list and none selected, a move in either direction
/// selects the first task and brings the view to the top, wherever the
/// scroll offset stood.
pub proof fn lemma_first_move_selects_first(store: AppView, down: bool, max_visible: nat)
    requires
        store.selected_index is None,
        store.tasks.len() >= 1,
    ensures
        store.move_selection(down, max_visible).selected_index == Some(0nat),
        store.move_selection(down, max_visible).scroll_offset == 0,
{
}

/// A move down from the last task leaves the selection on it.
pub proof fn lemma_move_down_stops_at_last(store: AppView, max_visible: nat)
    requires
        store.tasks.len() >= 1,
        store.selected_index == Some((store.tasks.len() - 1) as nat),
    ensures
        store.move_selection(true, max_visible).selected_index == store.selected_index,
{
}

/// After a move down in a list that is not empty, a task of the list is
/// selected: the selection never passes the last index.
pub proof fn lemma_move_down_stays_in_list(store: AppView, max_visible: nat)
    requires
        store.tasks.len() >= 1,
    ensures
        store.move_selection(true, max_visible).selected_index matches Some(i) && i
            <= store.tasks.len() - 1,
{
}

/// A move never wraps round: up from the first task stays on the first.
pub proof fn lemma_move_up_stops_at_first(store: AppView, max_visible: nat)
    requires
        store.tasks.len() >= 1,
        store.selected_index == Some(0nat),
    ensures
        store.move_selection(false, max_visible).selected_index == Some(0nat),
{
}

/// A move in an empty list leaves nothing selected and the scroll offset
/// where it was.
pub proof fn lemma_move_in_empty_list(store: AppView, down: bool, max_visible: nat)
    requires
        store.tasks.len() == 0,
    ensures
        store.move_selection(down, max_visible).selected_index is None,
        store.move_selection(down, max_visible).scroll_offset == store.scroll_offset,
{
}

/// After a move in a list that is not empty, from any store, the selected
/// task is visible: the scroll offset is at most its index, and less than
/// `max_visible` rows (one row, where that is zero) above it.
pub proof fn lemma_move_makes_selection_visible(store: AppView, down: bool, max_visible: nat)
    requires
        store.tasks.len() >= 1,
    ensures
        store.move_selection(down, max_visible).selected_index is Some,
        store.move_selection(down, max_visible).selection_visible(max_visible),
        store.move_selection(down, max_visible).scroll_offset
            <= store.move_selection(down, max_visible).selected_index->0,
        store.move_selection(down, max_visible).scroll_offset + rows(max_visible)
            > store.move_selection(down, max_visible).selected_index->0,
{
}

/// With a display of no rows, the scroll offset lands on the selected task.
pub proof fn lemma_move_without_rows(store: AppView, down: bool)
    requires
        store.tasks.len() >= 1,
    ensures
        Some(store.move_selection(down, 0).scroll_offset) == store.move_selection(
            down,
            0,
        ).selected_index,
        store.move_selection(down, 0) == store.move_selection(down, 1),
{
}

/// A delete of the only task, selected, leaves an empty list and no
/// selection.
pub proof fn lemma_delete_only_task(store: AppView)
    requires
        store.tasks.len() == 1,
        store.selected_index == Some(0nat),
    ensures
        store.delete_selected_task().tasks.len() == 0,
        store.delete_selected_task().selected_index is None,
{
}

/// A delete of the last of several tasks, selected, selects the task before
/// it, which is the new last one: in a list of three, a delete at index 2
/// leaves index 1 selected.
pub proof fn lemma_delete_last_selects_new_last(store: AppView)
    requires
        store.tasks.len() >= 2,
        store.selected_index == Some((store.tasks.len() - 1) as nat),
    ensures
        store.delete_selected_task().tasks == store.tasks.drop_last(),
        store.delete_selected_task().selected_index == Some((store.tasks.len() - 2) as nat),
{
    assert(store.tasks.remove(store.tasks.len() - 1) =~= store.tasks.drop_last());
}

/// A delete of a selected task that is not the last keeps the selection on
/// its index, where the task that followed now stands.
pub proof fn lemma_delete_inner_keeps_index(store: AppView, i: nat)
    requires
        store.selected_index == Some(i),
        i + 1 < store.tasks.len(),
    ensures
        store.delete_selected_task().tasks.len() == store.tasks.len() - 1,
        store.delete_selected_task().selected_index == Some(i),
        store.delete_selected_task().tasks[i as int] == store.tasks[i as int + 1],
{
}

/// After a delete that removes a task, from any store, the scroll offset is
/// not behind the selection: it is the old offset, or the selection where
/// the old offset would be behind it, and the top where the list is empty.
pub proof fn lemma_delete_brings_offset_back(store: AppView)
    requires
        store.delete_applies(),
    ensures
        store.delete_selected_task().selected_index matches Some(j) ==> {
            &&& j < store.delete_selected_task().tasks.len()
            &&& store.delete_selected_task().scroll_offset <= j
            &&& store.delete_selected_task().scroll_offset <= store.scroll_offset
            &&& store.delete_selected_task().scroll_offset == store.scroll_offset
                || store.delete_selected_task().scroll_offset == j
        },
        store.delete_selected_task().selected_index is None ==> {
            &&& store.delete_selected_task().tasks.len() == 0
            &&& store.delete_selected_task().scroll_offset == 0
        },
{
}

/// A delete with nothing selected, or with a selection that is no index of
/// the list, changes nothing.
pub proof fn lemma_delete_without_target(store: AppView)
    requires
        !store.delete_applies(),
    ensures
        store.delete_selected_task() == store,
{
}

/// Every transition keeps the cursor fit for the list. From a store in
/// which the selection, if any, is the index of a task, the scroll offset is
/// the index of a task (or zero in an empty list) and the scroll offset is
/// not behind the selection, each operation leads to such a store again.
pub proof fn lemma_transitions_keep_cursor_in_list(
    store: AppView,
    c: char,
    down: bool,
    max_visible: nat,
)
    requires
        store.wf(),
    ensures
        AppView::initial().wf(),
        store.type_char(c).wf(),
        store.erase_char().wf(),
        store.add_task().wf(),
        store.cycle_priority().wf(),
        store.move_selection(down, max_visible).wf(),
        store.delete_selected_task().wf(),
{
}

/// The selected task stays visible. A move makes it visible in a display of
/// `max_visible` rows, and from a store in which it is visible in such a
/// display, every other operation leads to a store in which it still is.
pub proof fn lemma_transitions_keep_selection_visible(
    store: AppView,
    c: char,
    down: bool,
    max_visible: nat,
)
    requires
        store.selection_visible(max_visible),
    ensures
        AppView::initial().selection_visible(max_visible),
        store.type_char(c).selection_visible(max_visible),
        store.erase_char().selection_visible(max_visible),
        store.add_task().selection_visible(max_visible),
        store.cycle_priority().selection_visible(max_visible),
        store.move_selection(down, max_visible).selection_visible(max_visible),
        store.delete_selected_task().selection_visible(max_visible),
{
}

/// Typing and taking back touch nothing but the typed text, and taking back
/// what was just typed restores the store.
pub proof fn lemma_erase_undoes_type(store: AppView, c: char)
    ensures
        store.type_char(c).erase_char() == store,
        store.type_char(c).input.last() == c,
        store.type_char(c).tasks == store.tasks,
        store.erase_char().tasks == store.tasks,
{
    assert(store.input.push(c).drop_last() =~= store.input);
}

/// No operation on the list puts a task with a blank description into it:
/// where every task has a description that is not blank, that is so again
/// after an add, a delete, a move and a step of the priority cycle.
pub proof fn lemma_transitions_keep_tasks_described(
    store: AppView,
    c: char,
    down: bool,
    max_visible: nat,
)
    requires
        store.all_described(),
    ensures
        AppView::initial().all_described(),
        store.type_char(c).all_described(),
        store.erase_char().all_described(),
        store.add_task().all_described(),
        store.cycle_priority().all_described(),
        store.move_selection(down, max_visible).all_described(),
        store.delete_selected_task().all_described(),
{
    if store.delete_applies() {
        let i = store.selected_index->0 as int;
        let rest = store.delete_selected_task().tasks;
        assert forall|k: int| 0 <= k < rest.len() implies !is_blank(
            #[trigger] rest[k].description,
        ) by {
            if k < i {
                assert(rest[k] == store.tasks[k]);
            } else {
                assert(rest[k] == store.tasks[k + 1]);
            }
        }
    }
}

/// A load into the store at startup gives a store in which nothing is
/// selected, holding the tasks that were read, or none where nothing could
/// be read.
pub proof fn lemma_load_at_startup(loaded: Option<Seq<TaskView>>)
    ensures
        AppView::initial().read_file(loaded).wf(),
        AppView::initial().read_file(None).tasks.len() == 0,
        loaded matches Some(tasks) ==> AppView::initial().read_file(loaded).tasks == tasks,
{
}

} // verus!
