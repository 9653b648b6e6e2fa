//! The store: the list of tasks, the text being typed, the priority that the
//! next task will get, and the cursor (selection and scroll offset).
//!
//! Every operation is stated as a transition of [`AppView`], the store as a
//! mathematical value, and the executable operation is proved to make
//! exactly that transition. The store does no input or output: an operation
//! that changes what must be on disk answers with [`Effect::Flush`], and the
//! caller writes the list out.

use crate::priority::Priority;
use crate::scrollbar::{scrollbar_view, ScrollbarView};
use crate::task::{tasks_view, Task, TaskView};
use crate::text::{blank, is_blank, pop_char, push_char};
use ratatui::widgets::ScrollbarState;
use vstd::prelude::*;

verus! {

/// The directory, below the user's configuration directory, that holds the
/// task file.
pub const STORE_DIRECTORY: &'static str = "cratouille";

/// The name of the task file.
pub const STORE_FILE: &'static str = "tasks.json";

/// What the caller owes the task file after an operation.
#[derive(Clone, Copy, Debug, PartialEq, Eq, Structural)]
pub enum Effect {
    /// The task file stays as it is.
    Nothing,
    /// The whole list is to be written to the task file.
    Flush,
}

/// The store.
pub struct App {
    /// The text typed so far for the next task.
    pub input: String,
    /// The tasks, in the order in which they were added and are shown.
    pub tasks: Vec<Task>,
    /// The priority that the next task will get.
    pub current_priority: Priority,
    /// The index of the selected task, if one is selected.
    pub selected_index: Option<usize>,
    /// The scrollbar state kept for the display.
    pub scroll_state: ScrollbarState,
    /// The index of the first task that is visible.
    pub scroll_offset: usize,
}

/// The store as a mathematical value.
pub ghost struct AppView {
    pub input: Seq<char>,
    pub tasks: Seq<TaskView>,
    pub current_priority: Priority,
    pub selected_index: Option<nat>,
    pub scroll: ScrollbarView,
    pub scroll_offset: nat,
}

/// An optional machine index as an optional natural number.
pub open spec fn index_view(index: Option<usize>) -> Option<nat> {
    match index {
        Some(i) => Some(i as nat),
        None => None,
    }
}

impl View for App {
    type V = AppView;

    open spec fn view(&self) -> AppView {
        AppView {
            input: self.input@,
            tasks: tasks_view(self.tasks@),
            current_priority: self.current_priority,
            selected_index: index_view(self.selected_index),
            scroll: scrollbar_view(self.scroll_state),
            scroll_offset: self.scroll_offset as nat,
        }
    }
}

impl AppView {
    /// The cursor fits the list: the selection, if there is one, is the
    /// index of a task; the scroll offset is the index of a task, or zero in
    /// an empty list; and the scroll offset is not behind the selection.
    pub open spec fn wf(self) -> bool {
        &&& self.selected_index matches Some(i) ==> i < self.tasks.len()
        &&& self.scroll_offset == 0 || self.scroll_offset < self.tasks.len()
        &&& self.selected_index matches Some(i) ==> self.scroll_offset <= i
    }

    /// The selected task lies in the band of `max_visible` rows that starts
    /// at the scroll offset. A band of no rows counts as one row.
    pub open spec fn selection_visible(self, max_visible: nat) -> bool {
        self.selected_index matches Some(i) ==> self.scroll_offset <= i < self.scroll_offset
            + rows(max_visible)
    }

    /// The store at startup: nothing typed, no task, priority Medium, no
    /// selection, the view at the top.
    pub open spec fn initial() -> AppView {
        AppView {
            input: Seq::empty(),
            tasks: Seq::empty(),
            current_priority: Priority::Medium,
            selected_index: None,
            scroll: ScrollbarView { content_length: 0, position: 0, viewport_length: 0 },
            scroll_offset: 0,
        }
    }

    /// The task that an add would make now: the typed text as it stands,
    /// untrimmed, with the current priority.
    pub open spec fn pending_task(self) -> TaskView {
        TaskView { description: self.input, priority: self.current_priority }
    }

    /// Whether an add would be turned down: the typed text is blank.
    pub open spec fn add_rejected(self) -> bool {
        is_blank(self.input)
    }

    /// The store after an add. Blank text changes nothing. Any other text
    /// becomes a task at the tail of the list, the typed text is cleared, and
    /// the scrollbar is told the new length.
    pub open spec fn add_task(self) -> AppView {
        if self.add_rejected() {
            self
        } else {
            AppView {
                input: Seq::empty(),
                tasks: self.tasks.push(self.pending_task()),
                scroll: ScrollbarView { content_length: self.tasks.len() + 1, ..self.scroll },
                ..self
            }
        }
    }

    /// The store after a character has been typed: it stands at the end of
    /// the typed text.
    pub open spec fn type_char(self, c: char) -> AppView {
        AppView { input: self.input.push(c), ..self }
    }

    /// The store after the last typed character has been taken back. Where
    /// nothing is typed, nothing changes.
    pub open spec fn erase_char(self) -> AppView {
        if self.input.len() == 0 {
            self
        } else {
            AppView { input: self.input.drop_last(), ..self }
        }
    }

    /// The store after the priority for the next task has moved one step
    /// through the cycle. The tasks that exist keep theirs.
    pub open spec fn cycle_priority(self) -> AppView {
        AppView { current_priority: self.current_priority.successor(), ..self }
    }

    /// Where the selection goes from index `i` in a list of `len > 0` tasks:
    /// one step down or up, stopping at the ends.
    pub open spec fn step(i: nat, len: nat, down: bool) -> nat {
        if down {
            if i + 1 < len {
                i + 1
            } else {
                (len - 1) as nat
            }
        } else {
            if i >= 1 {
                (i - 1) as nat
            } else {
                0
            }
        }
    }

    /// The scroll offset that keeps `index` in a band of `max_visible` rows,
    /// moving the band from `offset` no further than needed.
    pub open spec fn follow(offset: nat, index: nat, max_visible: nat) -> nat {
        if index >= offset + rows(max_visible) {
            (index - rows(max_visible) + 1) as nat
        } else if index < offset {
            index
        } else {
            offset
        }
    }

    /// The task that a move selects in a list that is not empty: the first
    /// one where none is selected, whatever the direction, and else the one
    /// that is one step from the selected.
    pub open spec fn target(self, down: bool) -> nat {
        match self.selected_index {
            None => 0,
            Some(i) => Self::step(i, self.tasks.len(), down),
        }
    }

    /// The store after the selection has moved. In an empty list nothing is
    /// selected and the scroll offset stays. Otherwise the target of the
    /// move becomes selected and the scroll offset follows it.
    pub open spec fn move_selection(self, down: bool, max_visible: nat) -> AppView {
        if self.tasks.len() == 0 {
            AppView { selected_index: None, ..self }
        } else {
            AppView {
                selected_index: Some(self.target(down)),
                scroll_offset: Self::follow(self.scroll_offset, self.target(down), max_visible),
                ..self
            }
        }
    }

    /// Whether a delete would remove a task: one is selected, and its index
    /// is in the list.
    pub open spec fn delete_applies(self) -> bool {
        self.selected_index matches Some(i) && i < self.tasks.len()
    }

    /// Where the selection stands after the task at index `i` has left and
    /// `remaining` tasks are there: nowhere in an empty list, else on `i`, or
    /// on the new last task where `i` is past it.
    pub open spec fn selection_after_delete(i: nat, remaining: nat) -> Option<nat> {
        if remaining == 0 {
            None
        } else if i < remaining {
            Some(i)
        } else {
            Some((remaining - 1) as nat)
        }
    }

    /// The scroll offset after a delete: the top where nothing is selected
    /// any more, and else `offset`, or the selection where that is before it.
    pub open spec fn offset_after_delete(offset: nat, selection: Option<nat>) -> nat {
        match selection {
            None => 0,
            Some(j) => if offset <= j {
                offset
            } else {
                j
            },
        }
    }

    /// The store after a delete. Without a selected task in the list nothing
    /// changes. Otherwise that task leaves, those behind it move up by one,
    /// the selection stays on its index or falls back to the new last task,
    /// or goes where the list is now empty, the scroll offset comes back to
    /// the selection where it would be behind it, and the scrollbar is told
    /// the new length.
    pub open spec fn delete_selected_task(self) -> AppView {
        if self.delete_applies() {
            let i = self.selected_index->0;
            let rest = self.tasks.remove(i as int);
            let selection = Self::selection_after_delete(i, rest.len());
            AppView {
                tasks: rest,
                selected_index: selection,
                scroll: ScrollbarView { content_length: rest.len(), ..self.scroll },
                scroll_offset: Self::offset_after_delete(self.scroll_offset, selection),
                ..self
            }
        } else {
            self
        }
    }

    /// The store after a load: the list is what the task file held, or empty
    /// where nothing could be read from it.
    pub open spec fn read_file(self, loaded: Option<Seq<TaskView>>) -> AppView {
        AppView {
            tasks: match loaded {
                Some(tasks) => tasks,
                None => Seq::empty(),
            },
            ..self
        }
    }
}

impl App {
    /// An empty store: nothing typed, no task, priority Medium, no selection,
    /// the view at the top.
    pub fn new() -> (app: App)
        ensures
            app@ == AppView::initial(),
    {
        let app = App {
            input: String::new(),
            tasks: Vec::new(),
            current_priority: Priority::Medium,
            selected_index: None,
            scroll_state: ScrollbarState::default(),
            scroll_offset: 0,
        };
        assert(app@.tasks =~= Seq::empty());
        app
    }

    /// Turns the typed text into a task at the tail of the list, unless the
    /// text is blank. Answers `Flush` exactly when a task was added.
    pub fn add_task(&mut self) -> (effect: Effect)
        ensures
            final(self)@ == old(self)@.add_task(),
            old(self)@.add_rejected() ==> effect == Effect::Nothing && final(self)@ == old(self)@,
            !old(self)@.add_rejected() ==> effect == Effect::Flush,
            old(self)@.wf() ==> final(self)@.wf(),
    {
        if blank(self.input.as_str()) {
            return Effect::Nothing;
        }
        let task = Task { description: self.input.clone(), priority: self.current_priority };
        self.tasks.push(task);
        self.input = String::new();
        self.scroll_state = self.scroll_state.content_length(self.tasks.len());
        assert(final(self)@.tasks =~= old(self)@.tasks.push(old(self)@.pending_task()));
        Effect::Flush
    }

    /// Puts a typed character at the end of the text for the next task.
    pub fn type_char(&mut self, c: char)
        ensures
            final(self)@ == old(self)@.type_char(c),
            final(self)@.input == old(self)@.input.push(c),
            old(self)@.wf() ==> final(self)@.wf(),
    {
        push_char(&mut self.input, c);
    }

    /// Takes the last typed character back, if there is one.
    pub fn erase_char(&mut self)
        ensures
            final(self)@ == old(self)@.erase_char(),
            old(self)@.input.len() > 0 ==> final(self)@.input == old(self)@.input.drop_last(),
            old(self)@.input.len() == 0 ==> final(self)@ == old(self)@,
            old(self)@.wf() ==> final(self)@.wf(),
    {
        pop_char(&mut self.input);
    }

    /// Moves the priority for the next task one step through the cycle.
    pub fn cycle_priority(&mut self)
        ensures
            final(self)@ == old(self)@.cycle_priority(),
            old(self)@.wf() ==> final(self)@.wf(),
    {
        self.current_priority = self.current_priority.next();
    }

    /// Moves the selection one step down or up, or onto the first task where
    /// none was selected, and lets the scroll offset follow it, for a display
    /// of `max_visible` rows. Afterwards the selected task is visible.
    pub fn move_selection(&mut self, down: bool, max_visible: usize)
        ensures
            final(self)@ == old(self)@.move_selection(down, max_visible as nat),
            final(self)@.selection_visible(max_visible as nat),
            old(self)@.wf() ==> final(self)@.wf(),
    {
        let len: usize = self.tasks.len();
        if len == 0 {
            self.selected_index = None;
            return;
        }
        let target: usize = match self.selected_index {
            None => 0,
            Some(i) => {
                if down {
                    if i < len - 1 {
                        i + 1
                    } else {
                        len - 1
                    }
                } else {
                    if i >= 1 {
                        i - 1
                    } else {
                        0
                    }
                }
            },
        };
        let height: usize = if max_visible == 0 {
            1
        } else {
            max_visible
        };
        if target >= self.scroll_offset && target - self.scroll_offset >= height {
            self.scroll_offset = target - (height - 1);
        } else if target < self.scroll_offset {
            self.scroll_offset = target;
        }
        self.selected_index = Some(target);
    }

    /// Removes the selected task, if one is selected and in the list, and
    /// keeps the selection inside what is left and the scroll offset not
    /// behind the selection. Always answers `Flush`, also where nothing was
    /// removed.
    pub fn delete_selected_task(&mut self) -> (effect: Effect)
        ensures
            final(self)@ == old(self)@.delete_selected_task(),
            !old(self)@.delete_applies() ==> final(self)@ == old(self)@,
            effect == Effect::Flush,
            old(self)@.wf() ==> final(self)@.wf(),
    {
        if let Some(index) = self.selected_index {
            if index < self.tasks.len() {
                self.tasks.remove(index);
                if self.tasks.len() == 0 {
                    self.selected_index = None;
                    self.scroll_offset = 0;
                } else {
                    let selection: usize = if index < self.tasks.len() {
                        index
                    } else {
                        self.tasks.len() - 1
                    };
                    self.selected_index = Some(selection);
                    if self.scroll_offset > selection {
                        self.scroll_offset = selection;
                    }
                }
                self.scroll_state = self.scroll_state.content_length(self.tasks.len());
                assert(final(self)@.tasks =~= old(self)@.tasks.remove(index as int));
            }
        }
        Effect::Flush
    }

    /// Takes over what a load of the task file gave: `loaded` holds the
    /// list that was read, or nothing where the file could not be opened or
    /// its content is no list of tasks. In that case the list becomes empty.
    pub fn read_file(&mut self, loaded: Option<Vec<Task>>)
        ensures
            final(self)@ == old(self)@.read_file(loaded_view(loaded)),
            loaded is None ==> final(self)@.tasks.len() == 0,
            old(self)@.selected_index is None && old(self)@.scroll_offset == 0
                ==> final(self)@.wf(),
    {
        match loaded {
            Some(tasks) => {
                self.tasks = tasks;
            },
            None => {
                self.tasks = Vec::new();
                assert(final(self)@.tasks =~= Seq::empty());
            },
        }
    }

    /// The text that a flush writes to the task file: `encoded`, the
    /// encoding of the list, or the empty text where the list could not be
    /// encoded.
    pub fn save_file(&self, encoded: Option<String>) -> (payload: String)
        ensures
            payload@ == match encoded {
                Some(text) => text@,
                None => Seq::<char>::empty(),
            },
    {
        match encoded {
            Some(text) => text,
            None => String::new(),
        }
    }
}

/// What a load gave, as a mathematical value.
pub open spec fn loaded_view(loaded: Option<Vec<Task>>) -> Option<Seq<TaskView>> {
    match loaded {
        Some(tasks) => Some(tasks_view(tasks@)),
        None => None,
    }
}

/// The height of the visible band in rows: `max_visible`, and one row where
/// that is zero.
pub open spec fn rows(max_visible: nat) -> nat {
    if max_visible == 0 {
        1
    } else {
        max_visible
    }
}

} // verus!
