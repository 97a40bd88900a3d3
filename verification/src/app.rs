//! The whole state of the viewer, and how events and frames change it.

use crate::capture::{CaptureStore, CapturedView};
use crate::line::LineView;
use crate::state::inspection::{InspectionState, InspectionView};
use crate::state::search::{SearchState, SearchView};
use crate::state::tabs::{TabsState, TabsView};
use crate::state::window::{WindowState, WindowView};
use crate::text::texts;
use vstd::prelude::*;

verus! {

/// What the viewer is started with.
pub struct Config {
    /// The log to follow.
    pub log_path: String,
    /// The filters, in the order of their categories.
    pub message_filters: Vec<String>,
    /// The sound that announces a line, if one is wanted.
    pub notification_sound_path: Option<String>,
    /// The category whose lines are announced, if any is.
    pub notify_on: Option<String>,
}

/// The view of a text that may be missing.
pub open spec fn text_view(text: Option<String>) -> Option<Seq<char>> {
    match text {
        Some(text) => Some(text@),
        None => None,
    }
}

/// What the main loop waits for.
pub enum Event<I> {
    Input(I),
    Tick,
}

/// A key, as far as the viewer tells keys apart.
#[derive(Clone, Copy, Debug, PartialEq, Eq)]
pub enum Key {
    Char(char),
    Backspace,
    Delete,
    Left,
    Right,
    Up,
    Down,
    Esc,
    /// Any other key.
    Other,
}

/// What the main loop does after an event.
#[derive(Clone, Copy, Debug, PartialEq, Eq)]
pub enum Control {
    Continue,
    Quit,
}

/// The panel above the list of lines.
#[derive(Clone, Copy, Debug, PartialEq, Eq)]
pub enum TopPanel {
    /// The expanded line, which takes the whole frame.
    Inspection,
    /// The text searched for.
    Search,
    /// The categories.
    Tabs,
}

/// The whole state of the viewer.
pub struct App {
    tabs: TabsState,
    messages_window: WindowState,
    search: SearchState,
    inspection_window: InspectionState,
    captured_messages: CaptureStore,
    notify_on: Option<String>,
    is_preloaded: bool,
}

/// The mathematical view of an [`App`].
pub struct AppView {
    pub tabs: TabsView,
    pub messages_window: WindowView,
    pub search: SearchView,
    pub inspection_window: InspectionView,
    pub captured_messages: CapturedView,
    pub notify_on: Option<Seq<char>>,
    pub is_preloaded: bool,
}

impl AppView {
    /// Every part is well-formed, there is a tab for every category, and
    /// the inspection is open only on a line that was selected.
    pub open spec fn wf(self) -> bool {
        &&& self.tabs.wf()
        &&& self.messages_window.wf()
        &&& self.search.wf()
        &&& self.inspection_window.wf()
        &&& self.captured_messages.wf()
        &&& self.captured_messages.categories.len() == self.tabs.titles.len()
        &&& self.inspection_window.is_initiated ==> self.messages_window.selected_line is Some
    }

    /// The viewer as it starts.
    pub open spec fn initial(filters: Seq<Seq<char>>, notify_on: Option<Seq<char>>) -> AppView {
        AppView {
            tabs: TabsView::initial(filters),
            messages_window: WindowView::initial(),
            search: SearchView::initial(),
            inspection_window: InspectionView::initial(),
            captured_messages: CapturedView::initial(filters),
            notify_on,
            is_preloaded: false,
        }
    }

    /// Keys go to the text searched for: the search is open and the
    /// inspection is not.
    pub open spec fn is_editing(self) -> bool {
        self.search.is_initiated && !self.inspection_window.is_initiated
    }

    /// Another category is shown, and nothing selected in it.
    pub open spec fn switch_tab(self, is_next: bool) -> AppView {
        AppView {
            messages_window: self.messages_window.reset(),
            tabs: if is_next {
                self.tabs.next()
            } else {
                self.tabs.previous()
            },
            ..self
        }
    }

    /// What a character does.
    ///
    /// While the text searched for is edited, every character but the line
    /// feed is typed into it, and the selection is dropped. Otherwise `f`
    /// opens the search and drops the selection, and the line feed opens
    /// the inspection if a line was selected.
    pub open spec fn on_char(self, c: char) -> AppView {
        if self.is_editing() && c != '\n' {
            AppView {
                search: self.search.add_input(c),
                messages_window: self.messages_window.reset(),
                ..self
            }
        } else if c == 'f' {
            AppView {
                messages_window: self.messages_window.reset(),
                search: self.search.initiate(),
                ..self
            }
        } else if c == '\n' && self.messages_window.selected_line is Some {
            AppView { inspection_window: self.inspection_window.initiate(), ..self }
        } else {
            self
        }
    }

    /// What the escape key does: it closes the inspection; else the
    /// search, dropping the selection; else it drops the selection.
    pub open spec fn on_escape(self) -> AppView {
        if self.inspection_window.is_initiated {
            AppView { inspection_window: InspectionView::initial(), ..self }
        } else if self.search.is_initiated {
            AppView {
                search: self.search.close(),
                messages_window: self.messages_window.reset(),
                ..self
            }
        } else if self.messages_window.line_is_selected {
            AppView { messages_window: self.messages_window.reset(), ..self }
        } else {
            self
        }
    }

    /// What a key does to the viewer.
    ///
    /// While the text searched for is edited, backspace and delete remove
    /// from it and drop the selection, and left and right move its cursor;
    /// otherwise left and right switch the category. Up and down scroll
    /// the inspection while it is open, and move the selection otherwise.
    pub open spec fn on_key(self, key: Key) -> AppView {
        match key {
            Key::Char(c) => self.on_char(c),
            Key::Backspace => if self.is_editing() {
                AppView {
                    search: self.search.remove_input_backspace(),
                    messages_window: self.messages_window.reset(),
                    ..self
                }
            } else {
                self
            },
            Key::Delete => if self.is_editing() {
                AppView {
                    search: self.search.remove_input_delete(),
                    messages_window: self.messages_window.reset(),
                    ..self
                }
            } else {
                self
            },
            Key::Left => if self.is_editing() {
                AppView { search: self.search.cursor_move_left(), ..self }
            } else {
                self.switch_tab(false)
            },
            Key::Right => if self.is_editing() {
                AppView { search: self.search.cursor_move_right(), ..self }
            } else {
                self.switch_tab(true)
            },
            Key::Esc => self.on_escape(),
            Key::Up => if self.inspection_window.is_initiated {
                AppView { inspection_window: self.inspection_window.scroll_up(), ..self }
            } else {
                AppView { messages_window: self.messages_window.previous(), ..self }
            },
            Key::Down => if self.inspection_window.is_initiated {
                AppView { inspection_window: self.inspection_window.scroll_down(), ..self }
            } else {
                AppView { messages_window: self.messages_window.next(), ..self }
            },
            Key::Other => self,
        }
    }

    /// Whether a key ends the viewer: `q` does, unless it is typed into
    /// the text searched for.
    pub open spec fn quits_on(self, key: Key) -> bool {
        key == Key::Char('q') && !self.is_editing()
    }

    /// What an event does to the viewer: a key what [`on_key`](Self::on_key)
    /// says, a tick nothing.
    pub open spec fn on_event(self, event: Event<Key>) -> AppView {
        match event {
            Event::Input(key) => self.on_key(key),
            Event::Tick => self,
        }
    }

    /// The panel above the list of lines: the inspection before the
    /// search, the search before the tabs.
    pub open spec fn top_panel(self) -> TopPanel {
        if self.inspection_window.is_initiated {
            TopPanel::Inspection
        } else if self.search.is_initiated {
            TopPanel::Search
        } else {
            TopPanel::Tabs
        }
    }

    /// The lines of the category shown.
    pub open spec fn category_shown(self) -> Seq<LineView> {
        self.captured_messages.categories[self.tabs.index as int]
    }

    /// Whether the list shows what the search finds rather than the whole
    /// category: the search is open and its text not empty.
    pub open spec fn is_filtering(self) -> bool {
        self.search.is_initiated && self.search.input.len() > 0
    }

    /// The viewer once a frame has been composed for a list of
    /// `list_height` rows, border included.
    ///
    /// While the inspection is open, the selected line is expanded and
    /// nothing else changes. Otherwise the window renders the category
    /// shown, or what the search finds in it.
    pub open spec fn compose(self, list_height: nat) -> AppView {
        if self.inspection_window.is_initiated {
            AppView {
                inspection_window: self.inspection_window.inspect(
                    self.messages_window.selected_line->0,
                ),
                ..self
            }
        } else if self.is_filtering() {
            let search = self.search.get_results(self.category_shown());
            AppView {
                search,
                messages_window: self.messages_window.display_lines(search.results, list_height),
                ..self
            }
        } else {
            AppView {
                messages_window: self.messages_window.display_lines(
                    self.category_shown(),
                    list_height,
                ),
                ..self
            }
        }
    }

    /// The column of the cursor in the text searched for, while that text
    /// is edited.
    pub open spec fn cursor_column(self) -> Option<nat> {
        if self.is_editing() {
            Some(self.search.cursor_column())
        } else {
            None
        }
    }

    /// The viewer once `message` has arrived.
    pub open spec fn capture_message(self, message: Seq<char>) -> AppView {
        AppView { captured_messages: self.captured_messages.capture_message(message), ..self }
    }
}

impl View for App {
    type V = AppView;

    closed spec fn view(&self) -> AppView {
        AppView {
            tabs: self.tabs@,
            messages_window: self.messages_window@,
            search: self.search@,
            inspection_window: self.inspection_window@,
            captured_messages: self.captured_messages@,
            notify_on: text_view(self.notify_on),
            is_preloaded: self.is_preloaded,
        }
    }
}

impl App {
    /// See [`AppView::wf`].
    pub open spec fn wf(&self) -> bool {
        self@.wf()
    }

    /// The viewer as it starts: a tab and a category for "All" and for
    /// every filter, no lines, nothing selected, searched or inspected.
    pub fn new(config: &Config) -> (app: App)
        ensures
            app.wf(),
            app@ == AppView::initial(texts(config.message_filters@), text_view(config.notify_on)),
    {
        App {
            tabs: TabsState::new(&config.message_filters),
            messages_window: WindowState::new(),
            search: SearchState::new(),
            inspection_window: InspectionState::new(),
            captured_messages: CaptureStore::new(&config.message_filters),
            notify_on: match &config.notify_on {
                Some(label) => Some(label.clone()),
                None => None,
            },
            is_preloaded: false,
        }
    }

    /// Does what `event` asks for, and says whether the viewer goes on.
    pub fn handle_event(&mut self, event: Event<Key>) -> (control: Control)
        requires
            old(self).wf(),
        ensures
            final(self).wf(),
            final(self)@ == old(self)@.on_event(event),
            control == (match event {
                Event::Input(key) => if old(self)@.quits_on(key) {
                    Control::Quit
                } else {
                    Control::Continue
                },
                Event::Tick => Control::Continue,
            }),
    {
        match event {
            Event::Input(key) => self.handle_key(key),
            Event::Tick => Control::Continue,
        }
    }

    /// Does what `key` asks for, and says whether the viewer goes on.
    pub fn handle_key(&mut self, key: Key) -> (control: Control)
        requires
            old(self).wf(),
        ensures
            final(self).wf(),
            final(self)@ == old(self)@.on_key(key),
            control == if old(self)@.quits_on(key) {
                Control::Quit
            } else {
                Control::Continue
            },
    {
        let inspecting = self.inspection_window.is_initiated();
        let editing = self.search.is_initiated() && !inspecting;
        match key {
            Key::Char(c) => {
                if editing && c != '\n' {
                    self.search.add_input(c);
                    self.messages_window.reset();
                } else if c == 'q' {
                    return Control::Quit;
                } else if c == 'f' {
                    self.messages_window.reset();
                    self.search.initiate();
                } else if c == '\n' && self.messages_window.selected_line().is_some() {
                    self.inspection_window.initiate();
                }
            },
            Key::Backspace => {
                if editing {
                    self.search.remove_input_backspace();
                    self.messages_window.reset();
                }
            },
            Key::Delete => {
                if editing {
                    self.search.remove_input_delete();
                    self.messages_window.reset();
                }
            },
            Key::Left => {
                if editing {
                    self.search.cursor_move_left();
                } else {
                    self.switch_tab(false);
                }
            },
            Key::Right => {
                if editing {
                    self.search.cursor_move_right();
                } else {
                    self.switch_tab(true);
                }
            },
            Key::Esc => {
                if inspecting {
                    self.inspection_window.close();
                } else if self.search.is_initiated() {
                    self.search.close();
                    self.messages_window.reset();
                } else if self.messages_window.line_is_selected() {
                    self.messages_window.reset();
                }
            },
            Key::Up => {
                if inspecting {
                    self.inspection_window.scroll_up();
                } else {
                    self.messages_window.previous();
                }
            },
            Key::Down => {
                if inspecting {
                    self.inspection_window.scroll_down();
                } else {
                    self.messages_window.next();
                }
            },
            Key::Other => {},
        }
        Control::Continue
    }

    /// Shows the next category, or the one before, with nothing selected.
    pub fn switch_tab(&mut self, is_next: bool)
        requires
            old(self).wf(),
        ensures
            final(self).wf(),
            final(self)@ == old(self)@.switch_tab(is_next),
    {
        self.messages_window.reset();

        if is_next {
            self.tabs.next();
        } else {
            self.tabs.previous();
        }
    }

    /// Takes a line of the log into the categories that it belongs to.
    pub fn capture_message(&mut self, message: &str)
        requires
            old(self).wf(),
        ensures
            final(self).wf(),
            final(self)@ == old(self)@.capture_message(message@),
    {
        self.captured_messages.capture_message(message);
    }

    /// The panel to draw above the list of lines.
    pub fn top_panel(&self) -> (panel: TopPanel)
        ensures
            panel == self@.top_panel(),
    {
        if self.inspection_window.is_initiated() {
            TopPanel::Inspection
        } else if self.search.is_initiated() {
            TopPanel::Search
        } else {
            TopPanel::Tabs
        }
    }

    /// Brings the state up to date for a frame whose list of lines is
    /// `list_height` rows high, border included, and says which panel the
    /// frame shows above the list.
    pub fn compose(&mut self, list_height: usize) -> (panel: TopPanel)
        requires
            old(self).wf(),
        ensures
            final(self).wf(),
            final(self)@ == old(self)@.compose(list_height as nat),
            panel == old(self)@.top_panel(),
            panel == final(self)@.top_panel(),
    {
        if self.inspection_window.is_initiated() {
            if let Some(line) = self.messages_window.selected_line() {
                self.inspection_window.inspect(line);
            }
            return TopPanel::Inspection;
        }
        let lines = self.captured_messages.lines(self.tabs.index());
        if self.search.is_initiated() && !self.search.input().is_empty() {
            let results = self.search.get_results(lines.as_slice());
            self.messages_window.display_lines(results, list_height);
        } else {
            self.messages_window.display_lines(lines.as_slice(), list_height);
        }
        if self.search.is_initiated() {
            TopPanel::Search
        } else {
            TopPanel::Tabs
        }
    }

    /// The column of the cursor in the text searched for while that text
    /// is edited, and `None` while the cursor is hidden.
    pub fn cursor_column(&self) -> (column: Option<u16>)
        requires
            self.wf(),
        ensures
            match column {
                Some(column) => self@.cursor_column() == Some(column as nat),
                None => self@.cursor_column() is None,
            },
    {
        if self.search.is_initiated() && !self.inspection_window.is_initiated() {
            Some(self.search.get_cursor_location())
        } else {
            None
        }
    }

    pub fn tabs(&self) -> (tabs: &TabsState)
        ensures
            tabs@ == self@.tabs,
    {
        &self.tabs
    }

    pub fn messages_window(&self) -> (window: &WindowState)
        ensures
            window@ == self@.messages_window,
    {
        &self.messages_window
    }

    pub fn search(&self) -> (search: &SearchState)
        ensures
            search@ == self@.search,
    {
        &self.search
    }

    pub fn inspection_window(&self) -> (inspection: &InspectionState)
        ensures
            inspection@ == self@.inspection_window,
    {
        &self.inspection_window
    }

    pub fn captured_messages(&self) -> (store: &CaptureStore)
        ensures
            store@ == self@.captured_messages,
    {
        &self.captured_messages
    }

    /// The category whose lines are announced, if any is.
    pub fn notify_on(&self) -> (label: Option<&str>)
        ensures
            match label {
                Some(label) => self@.notify_on == Some(label@),
                None => self@.notify_on is None,
            },
    {
        match &self.notify_on {
            Some(label) => Some(label.as_str()),
            None => None,
        }
    }

    /// Whether the lines that the log held at the start have been read.
    pub fn is_preloaded(&self) -> (preloaded: bool)
        ensures
            preloaded == self@.is_preloaded,
    {
        self.is_preloaded
    }

    /// Records whether the lines that the log held at the start have been
    /// read.
    pub fn set_preloaded(&mut self, preloaded: bool)
        ensures
            final(self)@ == (AppView { is_preloaded: preloaded, ..old(self)@ }),
    {
        self.is_preloaded = preloaded;
    }
}

/// Whatever event arrives, a well-formed viewer stays well-formed.
pub proof fn lemma_on_event_keeps_wf(app: AppView, event: Event<Key>)
    requires
        app.wf(),
    ensures
        app.on_event(event).wf(),
{
}

/// Composing a frame keeps a well-formed viewer well-formed, changes
/// neither the tabs nor the captured lines, and shows the panel that was
/// due before.
pub proof fn lemma_compose_keeps_wf(app: AppView, list_height: nat)
    requires
        app.wf(),
    ensures
        app.compose(list_height).wf(),
        app.compose(list_height).tabs == app.tabs,
        app.compose(list_height).captured_messages == app.captured_messages,
        app.compose(list_height).top_panel() == app.top_panel(),
{
}

/// While nothing is typed into the search, open or not, the list shows the
/// whole category, and composing a frame leaves the search as it is.
pub proof fn lemma_empty_query_shows_the_category(app: AppView, list_height: nat)
    requires
        !app.inspection_window.is_initiated,
        app.search.input.len() == 0,
    ensures
        app.compose(list_height).messages_window == app.messages_window.display_lines(
            app.category_shown(),
            list_height,
        ),
        app.compose(list_height).search == app.search,
{
}

/// A line that arrives leaves a well-formed viewer well-formed.
pub proof fn lemma_capture_message_keeps_wf(app: AppView, message: Seq<char>)
    requires
        app.wf(),
    ensures
        app.capture_message(message).wf(),
{
    crate::capture::lemma_capture_message_keeps_wf(app.captured_messages, message);
}

/// Whatever changes the sequence of lines that the window shows drops the
/// selection: a switch of the category, whichever way it goes, and the
/// opening, the editing and the closing of the search.
pub proof fn lemma_new_sequence_drops_selection(app: AppView, is_next: bool, c: char)
    ensures
        app.switch_tab(is_next).messages_window == app.messages_window.reset(),
        !app.inspection_window.is_initiated ==> app.on_key(Key::Char('f')).messages_window
            == app.messages_window.reset(),
        app.is_editing() && c != '\n' ==> app.on_key(Key::Char(c)).messages_window
            == app.messages_window.reset(),
        app.is_editing() ==> app.on_key(Key::Backspace).messages_window
            == app.messages_window.reset(),
        app.is_editing() ==> app.on_key(Key::Delete).messages_window
            == app.messages_window.reset(),
        app.is_editing() ==> app.on_key(Key::Esc).messages_window == app.messages_window.reset(),
{
}

/// While the inspection is open, escape closes it, up and down scroll it,
/// and none of the three changes anything else. No key changes the
/// captured lines, whatever is open.
pub proof fn lemma_inspection_intercepts(app: AppView, key: Key)
    requires
        app.inspection_window.is_initiated,
    ensures
        app.on_key(Key::Esc) == (AppView { inspection_window: InspectionView::initial(), ..app }),
        app.on_key(Key::Up) == (AppView {
            inspection_window: app.inspection_window.scroll_up(),
            ..app
        }),
        app.on_key(Key::Down) == (AppView {
            inspection_window: app.inspection_window.scroll_down(),
            ..app
        }),
        app.on_key(key).captured_messages == app.captured_messages,
{
}

} // verus!
