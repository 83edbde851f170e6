//! The state of the interface: which view is shown, which item of its list
//! is selected, and what the operator is typing.

use vstd::prelude::*;
use vstd::string::*;

verus! {

/// The views of the interface, in the order of their tabs.
#[derive(Debug, Clone, Copy, PartialEq, Eq, Structural)]
pub enum CurrentView {
    Dashboard,
    AVCAlerts,
    ModuleManager,
    BooleanManager,
    RollbackHistory,
    SafeSettings,
    FileContexts,
    Ports,
}

/// What the keys typed by the operator mean.
#[derive(Debug, Clone, Copy, PartialEq, Eq, Structural)]
pub enum InputMode {
    Normal,
    /// The operator is entering text.
    Editing,
    /// The operator is entering a search query.
    Search,
}

/// The popup that lies over the view.
#[derive(Debug, Clone)]
pub enum PopupType {
    /// No popup is shown.
    Closed,
    AddPort,
    AddFileContext,
    /// Help on the key that it holds.
    Help(String),
    Search,
}

impl PopupType {
    /// Whether a popup is shown.
    pub fn is_shown(&self) -> (r: bool)
        ensures
            r == !(self is Closed),
    {
        match self {
            PopupType::Closed => false,
            _ => true,
        }
    }
}

impl CurrentView {
    /// The view of the tab to the right; after the last comes the first.
    pub open spec fn spec_next(self) -> CurrentView {
        match self {
            CurrentView::Dashboard => CurrentView::AVCAlerts,
            CurrentView::AVCAlerts => CurrentView::ModuleManager,
            CurrentView::ModuleManager => CurrentView::BooleanManager,
            CurrentView::BooleanManager => CurrentView::RollbackHistory,
            CurrentView::RollbackHistory => CurrentView::SafeSettings,
            CurrentView::SafeSettings => CurrentView::FileContexts,
            CurrentView::FileContexts => CurrentView::Ports,
            CurrentView::Ports => CurrentView::Dashboard,
        }
    }

    /// The view of the tab to the left; before the first comes the last.
    pub open spec fn spec_previous(self) -> CurrentView {
        match self {
            CurrentView::Dashboard => CurrentView::Ports,
            CurrentView::AVCAlerts => CurrentView::Dashboard,
            CurrentView::ModuleManager => CurrentView::AVCAlerts,
            CurrentView::BooleanManager => CurrentView::ModuleManager,
            CurrentView::RollbackHistory => CurrentView::BooleanManager,
            CurrentView::SafeSettings => CurrentView::RollbackHistory,
            CurrentView::FileContexts => CurrentView::SafeSettings,
            CurrentView::Ports => CurrentView::FileContexts,
        }
    }

    /// The position of the view's tab, from 0.
    pub open spec fn position(self) -> int {
        match self {
            CurrentView::Dashboard => 0,
            CurrentView::AVCAlerts => 1,
            CurrentView::ModuleManager => 2,
            CurrentView::BooleanManager => 3,
            CurrentView::RollbackHistory => 4,
            CurrentView::SafeSettings => 5,
            CurrentView::FileContexts => 6,
            CurrentView::Ports => 7,
        }
    }

    /// The view of the tab to the right.
    pub fn next(&self) -> (r: Self)
        ensures
            r == self.spec_next(),
            r.position() == (self.position() + 1) % 8,
    {
        match self {
            Self::Dashboard => Self::AVCAlerts,
            Self::AVCAlerts => Self::ModuleManager,
            Self::ModuleManager => Self::BooleanManager,
            Self::BooleanManager => Self::RollbackHistory,
            Self::RollbackHistory => Self::SafeSettings,
            Self::SafeSettings => Self::FileContexts,
            Self::FileContexts => Self::Ports,
            Self::Ports => Self::Dashboard,
        }
    }

    /// The view of the tab to the left.
    pub fn previous(&self) -> (r: Self)
        ensures
            r == self.spec_previous(),
            r.position() == (self.position() + 7) % 8,
    {
        match self {
            Self::Dashboard => Self::Ports,
            Self::AVCAlerts => Self::Dashboard,
            Self::ModuleManager => Self::AVCAlerts,
            Self::BooleanManager => Self::ModuleManager,
            Self::RollbackHistory => Self::BooleanManager,
            Self::SafeSettings => Self::RollbackHistory,
            Self::FileContexts => Self::SafeSettings,
            Self::Ports => Self::FileContexts,
        }
    }

    /// The position of the view's tab, from 0.
    pub fn index(&self) -> (r: usize)
        ensures
            r == self.position(),
    {
        match self {
            Self::Dashboard => 0,
            Self::AVCAlerts => 1,
            Self::ModuleManager => 2,
            Self::BooleanManager => 3,
            Self::RollbackHistory => 4,
            Self::SafeSettings => 5,
            Self::FileContexts => 6,
            Self::Ports => 7,
        }
    }
}

/// Going to the next view and back, or back and on, ends where it began.
pub proof fn lemma_next_and_previous_cancel(view: CurrentView)
    ensures
        view.spec_next().spec_previous() == view,
        view.spec_previous().spec_next() == view,
{
}

/// The selection of a list as a list widget holds it.
#[derive(Debug, Clone, Copy, PartialEq, Eq, Structural)]
pub struct ListSelection {
    pub selected: Option<usize>,
}

impl ListSelection {
    /// The index of the selected item.
    pub fn selected(&self) -> (r: Option<usize>)
        ensures
            r == self.selected,
    {
        self.selected
    }

    /// Selects the item at `index`, or none.
    pub fn select(&mut self, index: Option<usize>)
        ensures
            final(self).selected == index,
    {
        self.selected = index;
    }
}

/// The state of the interface.
#[derive(Debug, Clone)]
pub struct AppState {
    pub current_view: CurrentView,
    pub list_state: ListSelection,
    pub selected_index: Option<usize>,
    pub current_items_len: usize,
    pub input_mode: InputMode,
    pub popup_type: PopupType,
    /// The text that the operator has typed so far.
    pub input_buffer: String,
    pub input_cursor_position: usize,
    /// The search query in force.
    pub search_query: String,
}

impl AppState {
    /// The state at start: the dashboard with its first item selected, no
    /// popup, nothing typed.
    pub fn new() -> (r: Self)
        ensures
            r.current_view == CurrentView::Dashboard,
            r.list_state.selected == Some(0usize),
            r.selected_index == Some(0usize),
            r.current_items_len == 0,
            r.input_mode == InputMode::Normal,
            r.popup_type is Closed,
            r.input_buffer@ == Seq::<char>::empty(),
            r.input_cursor_position == 0,
            r.search_query@ == Seq::<char>::empty(),
    {
        let mut list_state = ListSelection { selected: None };
        list_state.select(Some(0));
        AppState {
            current_view: CurrentView::Dashboard,
            list_state,
            selected_index: Some(0),
            current_items_len: 0,
            input_mode: InputMode::Normal,
            popup_type: PopupType::Closed,
            input_buffer: String::new(),
            input_cursor_position: 0,
            search_query: String::new(),
        }
    }

    /// Notes that the list of the view now has `len` items. A selection at
    /// or behind the last item of a list that is not empty moves to the
    /// last item.
    pub fn set_current_len(&mut self, len: usize)
        ensures
            final(self).current_items_len == len,
            match old(self).list_state.selected {
                Some(sel) if len > 0 && sel >= len - 1 => {
                    &&& final(self).list_state.selected == Some((len - 1) as usize)
                    &&& final(self).selected_index == Some((len - 1) as usize)
                },
                _ => {
                    &&& final(self).list_state == old(self).list_state
                    &&& final(self).selected_index == old(self).selected_index
                },
            },
            final(self).current_view == old(self).current_view,
            final(self).input_mode == old(self).input_mode,
            final(self).popup_type == old(self).popup_type,
            final(self).input_buffer == old(self).input_buffer,
            final(self).input_cursor_position == old(self).input_cursor_position,
            final(self).search_query == old(self).search_query,
    {
        self.current_items_len = len;
        if let Some(sel) = self.list_state.selected() {
            if len > 0 && sel >= len - 1 {
                self.list_state.select(Some(len - 1));
                self.selected_index = self.list_state.selected();
            }
        }
    }

    /// Opens `popup` for the entry of text, with nothing typed yet.
    pub fn enter_input_mode(&mut self, popup: PopupType)
        ensures
            final(self).input_mode == InputMode::Editing,
            final(self).popup_type == popup,
            final(self).input_buffer@ == Seq::<char>::empty(),
            final(self).input_cursor_position == 0,
            final(self).current_view == old(self).current_view,
            final(self).list_state == old(self).list_state,
            final(self).selected_index == old(self).selected_index,
            final(self).current_items_len == old(self).current_items_len,
            final(self).search_query == old(self).search_query,
    {
        self.input_mode = InputMode::Editing;
        self.popup_type = popup;
        self.input_buffer = String::new();
        self.input_cursor_position = 0;
    }

    /// Opens the search popup, with nothing typed yet. The cursor position
    /// stays as it is.
    pub fn enter_search_mode(&mut self)
        ensures
            final(self).input_mode == InputMode::Search,
            final(self).popup_type is Search,
            final(self).input_buffer@ == Seq::<char>::empty(),
            final(self).input_cursor_position == old(self).input_cursor_position,
            final(self).current_view == old(self).current_view,
            final(self).list_state == old(self).list_state,
            final(self).selected_index == old(self).selected_index,
            final(self).current_items_len == old(self).current_items_len,
            final(self).search_query == old(self).search_query,
    {
        self.input_mode = InputMode::Search;
        self.popup_type = PopupType::Search;
        self.input_buffer = String::new();
    }

    /// Closes the popup. What was typed stays in the buffer.
    pub fn reset_mode(&mut self)
        ensures
            final(self).input_mode == InputMode::Normal,
            final(self).popup_type is Closed,
            final(self).input_buffer == old(self).input_buffer,
            final(self).input_cursor_position == old(self).input_cursor_position,
            final(self).current_view == old(self).current_view,
            final(self).list_state == old(self).list_state,
            final(self).selected_index == old(self).selected_index,
            final(self).current_items_len == old(self).current_items_len,
            final(self).search_query == old(self).search_query,
    {
        self.input_mode = InputMode::Normal;
        self.popup_type = PopupType::Closed;
    }

    /// Shows `view` with its first item selected.
    pub fn show_view(&mut self, view: CurrentView)
        ensures
            final(self).current_view == view,
            final(self).list_state.selected == Some(0usize),
            final(self).selected_index == Some(0usize),
            final(self).current_items_len == old(self).current_items_len,
            final(self).input_mode == old(self).input_mode,
            final(self).popup_type == old(self).popup_type,
            final(self).input_buffer == old(self).input_buffer,
            final(self).input_cursor_position == old(self).input_cursor_position,
            final(self).search_query == old(self).search_query,
    {
        self.current_view = view;
        self.list_state.select(Some(0));
        self.selected_index = Some(0);
    }

    /// Goes to the view of the tab to the right, with its first item selected.
    pub fn next_view(&mut self)
        ensures
            final(self).current_view == old(self).current_view.spec_next(),
            final(self).list_state.selected == Some(0usize),
            final(self).selected_index == Some(0usize),
            final(self).current_items_len == old(self).current_items_len,
            final(self).input_mode == old(self).input_mode,
            final(self).popup_type == old(self).popup_type,
            final(self).input_buffer == old(self).input_buffer,
            final(self).input_cursor_position == old(self).input_cursor_position,
            final(self).search_query == old(self).search_query,
    {
        let view = self.current_view.next();
        self.show_view(view);
    }

    /// Goes to the view of the tab to the left, with its first item selected.
    pub fn previous_view(&mut self)
        ensures
            final(self).current_view == old(self).current_view.spec_previous(),
            final(self).list_state.selected == Some(0usize),
            final(self).selected_index == Some(0usize),
            final(self).current_items_len == old(self).current_items_len,
            final(self).input_mode == old(self).input_mode,
            final(self).popup_type == old(self).popup_type,
            final(self).input_buffer == old(self).input_buffer,
            final(self).input_cursor_position == old(self).input_cursor_position,
            final(self).search_query == old(self).search_query,
    {
        let view = self.current_view.previous();
        self.show_view(view);
    }

    /// The item that counts as selected: the selection of the list, or the
    /// first item where the list has none.
    pub open spec fn cursor(&self) -> int {
        match self.list_state.selected {
            Some(i) => i as int,
            None => 0,
        }
    }

    /// Moves the selection one item down, unless it stands on the last item
    /// or behind it.
    pub fn next_item(&mut self)
        ensures
            old(self).cursor() + 1 < old(self).current_items_len ==> {
                &&& final(self).list_state.selected == Some((old(self).cursor() + 1) as usize)
                &&& final(self).selected_index == Some((old(self).cursor() + 1) as usize)
            },
            old(self).cursor() + 1 >= old(self).current_items_len ==> {
                &&& final(self).list_state == old(self).list_state
                &&& final(self).selected_index == old(self).selected_index
            },
            final(self).current_view == old(self).current_view,
            final(self).current_items_len == old(self).current_items_len,
            final(self).input_mode == old(self).input_mode,
            final(self).popup_type == old(self).popup_type,
            final(self).input_buffer == old(self).input_buffer,
            final(self).input_cursor_position == old(self).input_cursor_position,
            final(self).search_query == old(self).search_query,
    {
        let current: usize = match self.list_state.selected() {
            Some(i) => i,
            None => 0,
        };
        let item_count: usize = self.get_current_item_count();
        if item_count > 0 && current < item_count - 1 {
            self.list_state.select(Some(current + 1));
            self.selected_index = Some(current + 1);
        }
    }

    /// Moves the selection one item up, unless it stands on the first item.
    pub fn previous_item(&mut self)
        ensures
            old(self).cursor() > 0 ==> {
                &&& final(self).list_state.selected == Some((old(self).cursor() - 1) as usize)
                &&& final(self).selected_index == Some((old(self).cursor() - 1) as usize)
            },
            old(self).cursor() == 0 ==> {
                &&& final(self).list_state == old(self).list_state
                &&& final(self).selected_index == old(self).selected_index
            },
            final(self).current_view == old(self).current_view,
            final(self).current_items_len == old(self).current_items_len,
            final(self).input_mode == old(self).input_mode,
            final(self).popup_type == old(self).popup_type,
            final(self).input_buffer == old(self).input_buffer,
            final(self).input_cursor_position == old(self).input_cursor_position,
            final(self).search_query == old(self).search_query,
    {
        let current: usize = match self.list_state.selected() {
            Some(i) => i,
            None => 0,
        };
        if current > 0 {
            self.list_state.select(Some(current - 1));
            self.selected_index = Some(current - 1);
        }
    }

    fn get_current_item_count(&self) -> (r: usize)
        ensures
            r == self.current_items_len,
    {
        self.current_items_len
    }
}

} // verus!
