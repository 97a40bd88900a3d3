use crate::line::{lemma_line_views_push, line_views, Line, LineView};
use vstd::prelude::*;

verus! {

/// The rows of a window that its border takes.
pub const BORDER_MARGIN: usize = 2;

/// The window on a sequence of lines: which of them are shown, and which
/// one is selected.
///
/// The newest line is shown first. The selection is held as two numbers:
/// how many lines lie between the newest line and the selected one, and on
/// which row of the window the selected line stands.
pub struct WindowState {
    lines: Vec<Line>,
    line_is_selected: bool,
    selected_line: Option<Line>,
    selected_line_index: usize,
    selected_line_index_relative: usize,
    line_count: usize,
    displayed_line_amount: usize,
}

/// The mathematical view of a [`WindowState`].
pub struct WindowView {
    /// The rows last rendered, the selected one in reverse video.
    pub lines: Seq<LineView>,
    pub line_is_selected: bool,
    /// The selected line as it was before it was put in reverse video.
    pub selected_line: Option<LineView>,
    /// The distance of the selected line from the newest line.
    pub selected_index: nat,
    /// The row of the selected line.
    pub relative_index: nat,
    /// The length of the sequence last rendered.
    pub line_count: nat,
    /// The number of rows last rendered into.
    pub displayed_line_amount: nat,
}

/// A step of the selection.
pub enum Move {
    /// Towards the newest line.
    Next,
    /// Towards older lines.
    Previous,
}

/// The rows that a window of `height` rows shows of `lines` once the
/// `skipped` newest lines have scrolled out of it: the newest of the rest
/// first, as many as there are and as the window holds.
pub open spec fn visible(lines: Seq<LineView>, skipped: nat, height: nat) -> Seq<LineView> {
    let available = if skipped < lines.len() {
        lines.len() - skipped
    } else {
        0
    };
    let shown = if available < height {
        available
    } else {
        height as int
    };
    Seq::new(shown as nat, |row: int| lines[lines.len() - 1 - skipped - row])
}

/// The rows of a window that is `window_height` rows high with its border.
pub open spec fn rows_within(window_height: nat) -> nat {
    if window_height >= BORDER_MARGIN {
        (window_height - BORDER_MARGIN) as nat
    } else {
        0
    }
}

/// The row nearest to `row` that a window of `height` rows has.
pub open spec fn row_within(row: nat, height: nat) -> nat {
    if height == 0 {
        0
    } else if row >= height - 1 {
        (height - 1) as nat
    } else {
        row
    }
}

impl WindowView {
    /// The selected row is a row of the window and no further from the
    /// first row than the selected line is from the newest; without a
    /// selection both numbers are 0.
    pub open spec fn wf(self) -> bool {
        &&& self.relative_index <= self.selected_index
        &&& self.displayed_line_amount > 0 ==> self.relative_index < self.displayed_line_amount
        &&& self.displayed_line_amount == 0 ==> self.relative_index == 0
        &&& !self.line_is_selected ==> self.selected_index == 0
    }

    /// A window that has shown nothing yet.
    pub open spec fn initial() -> WindowView {
        WindowView {
            lines: Seq::empty(),
            line_is_selected: false,
            selected_line: None,
            selected_index: 0,
            relative_index: 0,
            line_count: 0,
            displayed_line_amount: 0,
        }
    }

    /// The selection one line nearer to the newest line, and one row nearer
    /// to the first row, as far as each can go.
    pub open spec fn next(self) -> WindowView {
        WindowView {
            selected_index: if self.selected_index > 0 {
                (self.selected_index - 1) as nat
            } else {
                0
            },
            relative_index: if self.relative_index > 0 {
                (self.relative_index - 1) as nat
            } else {
                0
            },
            ..self
        }
    }

    /// The selection one line further from the newest line. Where no older
    /// line is left nothing changes. Without a selection the newest line
    /// becomes the selected one. The selected row moves along as long as
    /// it is above the last row of the window; from the last row on, the
    /// window scrolls instead.
    pub open spec fn previous(self) -> WindowView {
        if self.line_count <= self.selected_index + 1 {
            self
        } else if self.line_is_selected {
            WindowView {
                selected_index: self.selected_index + 1,
                relative_index: if self.relative_index + 1 < self.displayed_line_amount {
                    self.relative_index + 1
                } else {
                    self.relative_index
                },
                ..self
            }
        } else {
            WindowView { line_is_selected: true, ..self }
        }
    }

    /// No selection.
    pub open spec fn reset(self) -> WindowView {
        WindowView { line_is_selected: false, selected_index: 0, relative_index: 0, ..self }
    }

    /// The window after it has rendered `lines`, oldest first, into
    /// `window_height` rows, border included.
    ///
    /// The selected row is brought back into the window if the window has
    /// shrunk. The newest lines scroll out as far as the selected line is
    /// further from the newest than its row is from the first. Where a
    /// line stands on the selected row, it is put in reverse video and
    /// recorded as it was.
    pub open spec fn display_lines(self, lines: Seq<LineView>, window_height: nat) -> WindowView {
        let height = rows_within(window_height);
        let relative = row_within(self.relative_index, height);
        let rows = visible(lines, (self.selected_index - relative) as nat, height);
        let marked = self.line_is_selected && relative < rows.len();
        WindowView {
            lines: if marked {
                rows.update(relative as int, rows[relative as int].reversed())
            } else {
                rows
            },
            line_is_selected: self.line_is_selected,
            selected_line: if marked {
                Some(rows[relative as int])
            } else {
                self.selected_line
            },
            selected_index: self.selected_index,
            relative_index: relative,
            line_count: lines.len(),
            displayed_line_amount: height,
        }
    }

    /// One step of the selection.
    pub open spec fn step(self, m: Move) -> WindowView {
        match m {
            Move::Next => self.next(),
            Move::Previous => self.previous(),
        }
    }

    /// Any number of steps of the selection, one after the other.
    pub open spec fn walk(self, moves: Seq<Move>) -> WindowView
        decreases moves.len(),
    {
        if moves.len() == 0 {
            self
        } else {
            self.walk(moves.drop_last()).step(moves.last())
        }
    }
}

impl View for WindowState {
    type V = WindowView;

    closed spec fn view(&self) -> WindowView {
        WindowView {
            lines: line_views(self.lines@),
            line_is_selected: self.line_is_selected,
            selected_line: match self.selected_line {
                Some(line) => Some(line@),
                None => None,
            },
            selected_index: self.selected_line_index as nat,
            relative_index: self.selected_line_index_relative as nat,
            line_count: self.line_count as nat,
            displayed_line_amount: self.displayed_line_amount as nat,
        }
    }
}

impl Default for WindowState {
    fn default() -> (window: WindowState)
        ensures
            window.wf(),
            window@ == WindowView::initial(),
    {
        WindowState::new()
    }
}

impl WindowState {
    /// See [`WindowView::wf`].
    pub open spec fn wf(&self) -> bool {
        self@.wf()
    }

    pub fn new() -> (window: WindowState)
        ensures
            window.wf(),
            window@ == WindowView::initial(),
    {
        let window = WindowState {
            lines: Vec::new(),
            line_is_selected: false,
            selected_line: None,
            selected_line_index: 0,
            selected_line_index_relative: 0,
            line_count: 0,
            displayed_line_amount: 0,
        };
        assert(window@.lines =~= Seq::empty());
        window
    }

    /// Moves the selection towards the newest line.
    pub fn next(&mut self)
        requires
            old(self).wf(),
        ensures
            final(self).wf(),
            final(self)@ == old(self)@.next(),
    {
        if self.selected_line_index > 0 {
            self.selected_line_index -= 1;
        }
        if self.selected_line_index_relative > 0 {
            self.selected_line_index_relative -= 1;
        }
    }

    /// Moves the selection towards older lines.
    pub fn previous(&mut self)
        requires
            old(self).wf(),
        ensures
            final(self).wf(),
            final(self)@ == old(self)@.previous(),
    {
        if self.line_count == 0 || self.line_count - 1 <= self.selected_line_index {
            return ;
        }
        if self.line_is_selected {
            self.selected_line_index += 1;
            if self.selected_line_index_relative + 1 < self.displayed_line_amount {
                self.selected_line_index_relative += 1;
            }
        } else {
            self.line_is_selected = true
        };
    }

    /// Renders `lines`, oldest first, into a window of `window_height`
    /// rows, border included.
    pub fn display_lines(&mut self, lines: &[Line], window_height: usize)
        requires
            old(self).wf(),
        ensures
            final(self).wf(),
            final(self)@ == old(self)@.display_lines(line_views(lines@), window_height as nat),
    {
        self.calculate_displayed_line_amount(window_height);
        self.calculate_relative_selected_line_index();
        self.line_count = lines.len();

        let skipped_line_amount = self.selected_line_index - self.selected_line_index_relative;
        let available = if skipped_line_amount < lines.len() {
            lines.len() - skipped_line_amount
        } else {
            0
        };
        let shown = if available < self.displayed_line_amount {
            available
        } else {
            self.displayed_line_amount
        };
        let ghost rows = visible(
            line_views(lines@),
            skipped_line_amount as nat,
            self.displayed_line_amount as nat,
        );
        let mut taken: Vec<Line> = Vec::new();
        let mut row: usize = 0;
        while row < shown
            invariant
                row <= shown,
                shown == rows.len(),
                shown == 0 || shown + skipped_line_amount <= lines@.len(),
                rows == visible(
                    line_views(lines@),
                    skipped_line_amount as nat,
                    self.displayed_line_amount as nat,
                ),
                line_views(taken@) == rows.subrange(0, row as int),
            decreases shown - row,
        {
            let line = lines[lines.len() - 1 - skipped_line_amount - row].clone();
            proof {
                lemma_line_views_push(taken@, line);
            }
            taken.push(line);
            row += 1;
        }
        assert(rows.subrange(0, row as int) =~= rows);
        self.lines = taken;

        if self.line_is_selected {
            self.apply_selected_style();
        }
    }

    /// Clears the selection.
    pub fn reset(&mut self)
        ensures
            final(self).wf(),
            final(self)@ == old(self)@.reset(),
    {
        self.line_is_selected = false;
        self.selected_line_index = 0;
        self.selected_line_index_relative = 0;
    }

    /// Puts the line on the selected row in reverse video, and records it
    /// as it was. Without a line on that row nothing changes.
    fn apply_selected_style(&mut self)
        ensures
            final(self)@ == (if old(self)@.relative_index < old(self)@.lines.len() {
                WindowView {
                    lines: old(self)@.lines.update(
                        old(self)@.relative_index as int,
                        old(self)@.lines[old(self)@.relative_index as int].reversed(),
                    ),
                    selected_line: Some(old(self)@.lines[old(self)@.relative_index as int]),
                    ..old(self)@
                }
            } else {
                old(self)@
            }),
    {
        let row = self.selected_line_index_relative;
        if row < self.lines.len() {
            let line = self.lines[row].clone();
            self.lines[row] = line.reversed();
            self.selected_line = Some(line);
            assert(self@.lines =~= old(self)@.lines.update(row as int, line@.reversed()));
        }
    }

    fn calculate_displayed_line_amount(&mut self, window_height: usize)
        ensures
            final(self)@ == (WindowView {
                displayed_line_amount: rows_within(window_height as nat),
                ..old(self)@
            }),
    {
        self.displayed_line_amount = if window_height >= BORDER_MARGIN {
            window_height - BORDER_MARGIN
        } else {
            0
        };
    }

    fn calculate_relative_selected_line_index(&mut self)
        ensures
            final(self)@ == (WindowView {
                relative_index: row_within(
                    old(self)@.relative_index,
                    old(self)@.displayed_line_amount,
                ),
                ..old(self)@
            }),
    {
        if self.displayed_line_amount == 0 {
            self.selected_line_index_relative = 0;
        } else if self.selected_line_index_relative >= self.displayed_line_amount - 1 {
            self.selected_line_index_relative = self.displayed_line_amount - 1;
        }
    }

    /// The rows last rendered, the newest line first.
    pub fn lines(&self) -> (lines: &Vec<Line>)
        ensures
            line_views(lines@) == self@.lines,
    {
        &self.lines
    }

    /// Whether a line is selected.
    pub fn line_is_selected(&self) -> (selected: bool)
        ensures
            selected == self@.line_is_selected,
    {
        self.line_is_selected
    }

    /// The line last rendered as selected, in its own style.
    pub fn selected_line(&self) -> (line: Option<&Line>)
        ensures
            match line {
                Some(line) => self@.selected_line == Some(line@),
                None => self@.selected_line is None,
            },
    {
        self.selected_line.as_ref()
    }

    /// How many lines lie between the newest line and the selected one.
    pub fn selected_line_index(&self) -> (index: usize)
        ensures
            index == self@.selected_index,
    {
        self.selected_line_index
    }

    /// The row of the selected line.
    pub fn selected_line_index_relative(&self) -> (row: usize)
        ensures
            row == self@.relative_index,
    {
        self.selected_line_index_relative
    }

    /// The length of the sequence last rendered.
    pub fn line_count(&self) -> (count: usize)
        ensures
            count == self@.line_count,
    {
        self.line_count
    }

    /// The number of rows last rendered into.
    pub fn displayed_line_amount(&self) -> (rows: usize)
        ensures
            rows == self@.displayed_line_amount,
    {
        self.displayed_line_amount
    }
}

/// The rows shown are a window on the lines in reverse: the lines from the
/// newest to the oldest, without the first `skipped` of them, and of the
/// rest the first `height`.
pub proof fn lemma_visible_is_a_window_on_the_reverse(
    lines: Seq<LineView>,
    skipped: nat,
    height: nat,
)
    requires
        skipped <= lines.len(),
    ensures
        height <= lines.len() - skipped ==> visible(lines, skipped, height)
            == lines.reverse().subrange(skipped as int, (skipped + height) as int),
        height >= lines.len() - skipped ==> visible(lines, skipped, height)
            == lines.reverse().subrange(skipped as int, lines.len() as int),
{
}

/// At the newest line a step towards the newest line changes nothing, and
/// at the oldest line a step towards older lines changes nothing.
pub proof fn lemma_steps_stop_at_the_ends(window: WindowView)
    requires
        window.wf(),
    ensures
        window.selected_index == 0 ==> window.next() == window,
        window.selected_index + 1 >= window.line_count ==> window.previous() == window,
{
}

/// A step towards older lines, where a line is selected and an older one
/// is left, takes the selection one line further and the selected row one
/// row further, unless the row is the last of the window: then the row
/// stays and the window scrolls.
pub proof fn lemma_previous_moves_the_row_to_the_last(window: WindowView)
    requires
        window.line_is_selected,
        window.line_count > window.selected_index + 1,
        window.displayed_line_amount >= 1,
    ensures
        window.previous().line_is_selected,
        window.previous().selected_index == window.selected_index + 1,
        window.previous().relative_index == if window.relative_index
            < window.displayed_line_amount - 1 {
            window.relative_index + 1
        } else {
            window.relative_index
        },
{
}

/// A step towards the newest line and a step back leave the selection
/// where it was, unless it stood on the first row; a step towards older
/// lines and a step back do, unless it stood on the last row.
pub proof fn lemma_steps_cancel_within_the_window(window: WindowView)
    requires
        window.wf(),
        window.line_is_selected,
    ensures
        window.relative_index > 0 && window.selected_index < window.line_count
            ==> window.next().previous() == window,
        window.relative_index + 1 < window.displayed_line_amount && window.selected_index + 1
            < window.line_count ==> window.previous().next() == window,
{
}

/// Every step of the selection keeps a well-formed window well-formed, and
/// changes neither the number of lines nor the number of rows.
pub proof fn lemma_step_keeps_wf(window: WindowView, m: Move)
    requires
        window.wf(),
    ensures
        window.step(m).wf(),
        window.step(m).line_count == window.line_count,
        window.step(m).displayed_line_amount == window.displayed_line_amount,
{
}

/// Whatever steps the selection takes, the window stays well-formed: the
/// selected row stays a row of the window.
pub proof fn lemma_walk_keeps_wf(window: WindowView, moves: Seq<Move>)
    requires
        window.wf(),
    ensures
        window.walk(moves).wf(),
        window.walk(moves).line_count == window.line_count,
        window.walk(moves).displayed_line_amount == window.displayed_line_amount,
    decreases moves.len(),
{
    if moves.len() > 0 {
        lemma_walk_keeps_wf(window, moves.drop_last());
    }
}

/// Whatever steps the selection takes from a line that exists, in a window
/// that has rows, it stays on a line that exists and on a row of the
/// window.
pub proof fn lemma_walk_stays_in_bounds(window: WindowView, moves: Seq<Move>)
    requires
        window.wf(),
        window.selected_index < window.line_count,
        window.displayed_line_amount > 0,
    ensures
        0 <= window.walk(moves).selected_index <= window.walk(moves).line_count - 1,
        0 <= window.walk(moves).relative_index <= window.walk(moves).displayed_line_amount - 1,
    decreases moves.len(),
{
    if moves.len() > 0 {
        lemma_walk_stays_in_bounds(window, moves.drop_last());
        lemma_walk_keeps_wf(window, moves.drop_last());
    }
}

/// No walk takes the selection further from the newest line than it was,
/// unless to a line that exists.
pub proof fn lemma_walk_never_passes_the_oldest(window: WindowView, moves: Seq<Move>)
    ensures
        window.walk(moves).selected_index <= window.selected_index || window.walk(
            moves,
        ).selected_index < window.walk(moves).line_count,
        window.walk(moves).line_count == window.line_count,
    decreases moves.len(),
{
    if moves.len() > 0 {
        lemma_walk_never_passes_the_oldest(window, moves.drop_last());
    }
}

/// After a reset nothing is selected, and a second reset changes nothing.
pub proof fn lemma_reset_is_idempotent(window: WindowView)
    ensures
        !window.reset().line_is_selected,
        window.reset().selected_index == 0,
        window.reset().relative_index == 0,
        window.reset().wf(),
        window.reset().reset() == window.reset(),
{
}

/// Rendering keeps a well-formed window well-formed, whatever the lines
/// and however small the window.
pub proof fn lemma_display_lines_keeps_wf(
    window: WindowView,
    lines: Seq<LineView>,
    window_height: nat,
)
    requires
        window.wf(),
    ensures
        window.display_lines(lines, window_height).wf(),
        window.display_lines(lines, window_height).lines.len() <= rows_within(window_height),
        window.display_lines(lines, window_height).lines.len() <= lines.len(),
{
}

/// Where a line is selected that exists, and the window has a row, the
/// line recorded as selected is the one that lies `selected_index` lines
/// before the newest, and it stands in reverse video on the selected row.
pub proof fn lemma_selected_line_is_rendered(
    window: WindowView,
    lines: Seq<LineView>,
    window_height: nat,
)
    requires
        window.wf(),
        window.line_is_selected,
        window.selected_index < lines.len(),
        window_height > BORDER_MARGIN,
    ensures
        ({
            let after = window.display_lines(lines, window_height);
            let chosen = lines[lines.len() - 1 - window.selected_index];
            &&& after.relative_index < after.lines.len()
            &&& after.selected_line == Some(chosen)
            &&& after.lines[after.relative_index as int] == chosen.reversed()
        }),
{
}

/// Without a selection the window shows the newest lines, newest first,
/// each as it is.
pub proof fn lemma_unselected_window_shows_newest(
    window: WindowView,
    lines: Seq<LineView>,
    window_height: nat,
)
    requires
        window.wf(),
        !window.line_is_selected,
    ensures
        ({
            let after = window.display_lines(lines, window_height);
            &&& after.lines == visible(lines, 0, rows_within(window_height))
            &&& forall|row: int|
                0 <= row < after.lines.len() ==> after.lines[row] == lines[lines.len() - 1 - row]
            &&& after.selected_line == window.selected_line
        }),
{
}

} // verus!
