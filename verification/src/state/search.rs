use crate::line::{line_views, Line, LineView};
use crate::text::{
    chars_of, contains, display_width, is_substring, lemma_empty_is_substring, lowercase,
    push_chars, to_lowercase, width,
};
use rayon::iter::{IntoParallelRefIterator, ParallelIterator};
use vstd::prelude::*;
use vstd::string::StrSliceExecFns;

verus! {

/// The search over the lines of a category: the text typed so far, where
/// in it the cursor stands, and the lines last found.
///
/// The lines found are kept from one call of
/// [`get_results`](SearchState::get_results) to the next, and looked for
/// again only after the text or the cursor has been touched.
pub struct SearchState {
    results: Vec<Line>,
    is_initiated: bool,
    input: String,
    should_filter: bool,
    cursor_location: usize,
}

/// The mathematical view of a [`SearchState`].
pub struct SearchView {
    /// The lines last found.
    pub results: Seq<LineView>,
    pub is_initiated: bool,
    /// The text typed so far.
    pub input: Seq<char>,
    /// Whether `results` may be out of date.
    pub should_filter: bool,
    /// How many characters of `input` stand before the cursor.
    pub cursor_location: nat,
}

/// The lines whose text, in lower case, holds `needle`.
pub open spec fn holding(needle: Seq<char>) -> spec_fn(LineView) -> bool {
    |line: LineView| is_substring(lowercase(line.text), needle)
}

/// The lines among `lines` that hold `input`, whatever the case of either,
/// in the order of `lines`.
pub open spec fn found(lines: Seq<LineView>, input: Seq<char>) -> Seq<LineView> {
    lines.filter(holding(lowercase(input)))
}

/// Where the cursor stands after a step to the left in a text of `len`
/// characters: one character back, and from the start of a text that is
/// not empty to before its last character.
pub open spec fn left_of(cursor: nat, len: nat) -> nat {
    if cursor == 0 && len > 0 {
        (len - 1) as nat
    } else if cursor > 0 {
        (cursor - 1) as nat
    } else {
        cursor
    }
}

impl SearchView {
    /// The cursor stands within the text.
    pub open spec fn wf(self) -> bool {
        self.cursor_location <= self.input.len()
    }

    /// No search, no text.
    pub open spec fn initial() -> SearchView {
        SearchView {
            results: Seq::empty(),
            is_initiated: false,
            input: Seq::empty(),
            should_filter: false,
            cursor_location: 0,
        }
    }

    pub open spec fn initiate(self) -> SearchView {
        SearchView { is_initiated: true, ..self }
    }

    /// The search is over and its text gone. What was found stays as it is.
    pub open spec fn close(self) -> SearchView {
        SearchView { is_initiated: false, input: Seq::empty(), cursor_location: 0, ..self }
    }

    /// `character` typed at the cursor, and the cursor behind it.
    pub open spec fn add_input(self, character: char) -> SearchView {
        SearchView {
            input: self.input.insert(self.cursor_location as int, character),
            cursor_location: self.cursor_location + 1,
            should_filter: true,
            ..self
        }
    }

    /// The character before the cursor removed, and the cursor one step to
    /// the left. At the start of the text nothing is removed and the cursor
    /// steps as [`left_of`] says.
    pub open spec fn remove_input_backspace(self) -> SearchView {
        let input = if self.cursor_location > 0 {
            self.input.remove(self.cursor_location - 1)
        } else {
            self.input
        };
        SearchView {
            input,
            cursor_location: left_of(self.cursor_location, input.len()),
            should_filter: true,
            ..self
        }
    }

    /// The character at the cursor removed. At the end of the text nothing
    /// is removed.
    pub open spec fn remove_input_delete(self) -> SearchView {
        SearchView {
            input: if self.cursor_location < self.input.len() {
                self.input.remove(self.cursor_location as int)
            } else {
                self.input
            },
            should_filter: true,
            ..self
        }
    }

    pub open spec fn cursor_move_left(self) -> SearchView {
        SearchView {
            cursor_location: left_of(self.cursor_location, self.input.len()),
            should_filter: true,
            ..self
        }
    }

    /// The cursor one character to the right, unless it stands at the end.
    pub open spec fn cursor_move_right(self) -> SearchView {
        SearchView {
            cursor_location: if self.cursor_location < self.input.len() {
                self.cursor_location + 1
            } else {
                self.cursor_location
            },
            should_filter: true,
            ..self
        }
    }

    /// The search once it has been asked for what it finds in `lines`:
    /// found anew if what it holds may be out of date, else as it is.
    pub open spec fn get_results(self, lines: Seq<LineView>) -> SearchView {
        if self.should_filter {
            SearchView { results: found(lines, self.input), should_filter: false, ..self }
        } else {
            self
        }
    }

    /// The column of the cursor: the displayed width of the text before
    /// it, as far as 16 bits hold it.
    pub open spec fn cursor_column(self) -> nat {
        display_width(self.input.subrange(0, self.cursor_location as int)) % 0x10000
    }
}

impl View for SearchState {
    type V = SearchView;

    closed spec fn view(&self) -> SearchView {
        SearchView {
            results: line_views(self.results@),
            is_initiated: self.is_initiated,
            input: self.input@,
            should_filter: self.should_filter,
            cursor_location: self.cursor_location as nat,
        }
    }
}

impl SearchState {
    /// See [`SearchView::wf`].
    pub open spec fn wf(&self) -> bool {
        self@.wf()
    }

    pub fn new() -> (search: SearchState)
        ensures
            search.wf(),
            search@ == SearchView::initial(),
    {
        let search = SearchState {
            results: Vec::new(),
            is_initiated: false,
            input: String::new(),
            should_filter: false,
            cursor_location: 0,
        };
        assert(search@.results =~= Seq::empty());
        search
    }

    /// Opens the search.
    pub fn initiate(&mut self)
        requires
            old(self).wf(),
        ensures
            final(self).wf(),
            final(self)@ == old(self)@.initiate(),
    {
        self.is_initiated = true;
    }

    /// Closes the search and drops its text.
    pub fn close(&mut self)
        ensures
            final(self).wf(),
            final(self)@ == old(self)@.close(),
    {
        self.is_initiated = false;
        self.input = String::new();
        self.cursor_location = 0;
    }

    /// The lines among `lines` that hold the text typed, whatever the case
    /// of either, in the order of `lines`. They are looked for only if the
    /// text or the cursor has been touched since the last call; else the
    /// lines found then are returned, whatever `lines` holds now. Where
    /// nothing is typed, every line is found.
    pub fn get_results(&mut self, lines: &[Line]) -> (results: &[Line])
        requires
            old(self).wf(),
        ensures
            final(self).wf(),
            final(self)@ == old(self)@.get_results(line_views(lines@)),
            line_views(results@) == final(self)@.results,
            old(self)@.should_filter && old(self)@.input.len() == 0 ==> final(self)@.results
                == line_views(lines@),
    {
        if self.should_filter {
            self.should_filter = false;

            let search_input = to_lowercase(self.input.as_str());
            proof {
                if self@.input.len() == 0 {
                    lemma_empty_needle_finds_every_line(line_views(lines@), self@.input);
                }
            }
            self.results = filter_lines(lines, search_input.as_str());
        }
        self.results.as_slice()
    }

    /// Types `character` at the cursor.
    pub fn add_input(&mut self, character: char)
        requires
            old(self).wf(),
        ensures
            final(self).wf(),
            final(self)@ == old(self)@.add_input(character),
    {
        let chars = chars_of(self.input.as_str());
        let mut new_input = String::new();

        push_chars(&mut new_input, &chars, 0, self.cursor_location);
        new_input.push(character);
        push_chars(&mut new_input, &chars, self.cursor_location, chars.len());

        self.input = new_input;
        self.cursor_move_right();
        self.should_filter = true;
    }

    /// Removes the character before the cursor.
    pub fn remove_input_backspace(&mut self)
        requires
            old(self).wf(),
        ensures
            final(self).wf(),
            final(self)@ == old(self)@.remove_input_backspace(),
    {
        let chars = chars_of(self.input.as_str());
        let mut len = chars.len();
        if self.cursor_location > 0 {
            let mut new_input = String::new();

            push_chars(&mut new_input, &chars, 0, self.cursor_location - 1);
            push_chars(&mut new_input, &chars, self.cursor_location, chars.len());

            self.input = new_input;
            len = len - 1;
        }
        self.cursor_location = step_left(self.cursor_location, len);
        self.should_filter = true;
    }

    /// Removes the character at the cursor.
    pub fn remove_input_delete(&mut self)
        requires
            old(self).wf(),
        ensures
            final(self).wf(),
            final(self)@ == old(self)@.remove_input_delete(),
    {
        let chars = chars_of(self.input.as_str());
        if self.cursor_location < chars.len() {
            let mut new_input = String::new();

            push_chars(&mut new_input, &chars, 0, self.cursor_location);
            push_chars(&mut new_input, &chars, self.cursor_location + 1, chars.len());

            self.input = new_input;
        }
        self.should_filter = true;
    }

    /// Moves the cursor one character to the left. From the start of a
    /// text that is not empty it goes to before the last character.
    pub fn cursor_move_left(&mut self)
        requires
            old(self).wf(),
        ensures
            final(self).wf(),
            final(self)@ == old(self)@.cursor_move_left(),
    {
        let len = self.input.as_str().unicode_len();
        self.cursor_location = step_left(self.cursor_location, len);
        self.should_filter = true;
    }

    /// Moves the cursor one character to the right, unless it stands at
    /// the end of the text.
    pub fn cursor_move_right(&mut self)
        requires
            old(self).wf(),
        ensures
            final(self).wf(),
            final(self)@ == old(self)@.cursor_move_right(),
    {
        if self.input.as_str().unicode_len() > self.cursor_location {
            self.cursor_location += 1;
        }
        self.should_filter = true;
    }

    /// The column in which the cursor stands.
    pub fn get_cursor_location(&self) -> (column: u16)
        requires
            self.wf(),
        ensures
            column == self@.cursor_column(),
    {
        let chars = chars_of(self.input.as_str());
        let mut before = String::new();
        push_chars(&mut before, &chars, 0, self.cursor_location);
        (width(before.as_str()) % 0x10000) as u16
    }

    /// The lines last found.
    pub fn results(&self) -> (results: &Vec<Line>)
        ensures
            line_views(results@) == self@.results,
    {
        &self.results
    }

    /// Whether the search is open.
    pub fn is_initiated(&self) -> (open: bool)
        ensures
            open == self@.is_initiated,
    {
        self.is_initiated
    }

    /// The text typed so far.
    pub fn input(&self) -> (input: &str)
        ensures
            input@ == self@.input,
    {
        self.input.as_str()
    }

    /// Whether the lines found may be out of date.
    pub fn should_filter(&self) -> (stale: bool)
        ensures
            stale == self@.should_filter,
    {
        self.should_filter
    }

    /// How many characters of the text stand before the cursor.
    pub fn cursor_location(&self) -> (cursor: usize)
        ensures
            cursor == self@.cursor_location,
    {
        self.cursor_location
    }
}

/// Where the cursor stands after a step to the left in a text of `len`
/// characters.
fn step_left(cursor: usize, len: usize) -> (left: usize)
    ensures
        left == left_of(cursor as nat, len as nat),
{
    if cursor == 0 && len > 0 {
        len - 1
    } else if cursor > 0 {
        cursor - 1
    } else {
        cursor
    }
}

/// Whether `line`, in lower case, holds `needle`.
pub(crate) fn line_holds(line: &Line, needle: &str) -> (held: bool)
    ensures
        held == holding(needle@)(line@),
{
    let lower = to_lowercase(line.text.as_str());
    contains(lower.as_str(), needle)
}

/// rayon's `par_iter`, `filter`, `cloned` and `collect` on a slice of
/// lines: copies of the lines that `line_holds` accepts, in the order of
/// the slice.
#[verifier::external_body]
fn filter_lines(lines: &[Line], needle: &str) -> (kept: Vec<Line>)
    ensures
        line_views(kept@) == line_views(lines@).filter(holding(needle@)),
{
    lines.par_iter().filter(|line| line_holds(line, needle)).cloned().collect()
}

/// Asked twice with nothing touched in between, the search returns the
/// same lines twice, whatever it is asked about; and asked while what it
/// holds is up to date, it changes nothing.
pub proof fn lemma_get_results_is_idempotent(
    search: SearchView,
    first: Seq<LineView>,
    second: Seq<LineView>,
)
    ensures
        !search.get_results(first).should_filter,
        search.get_results(first).get_results(second) == search.get_results(first),
        !search.should_filter ==> search.get_results(first) == search,
{
}

/// Every line found holds the text typed and is a line of the category,
/// and every line of the category that holds the text is found.
pub proof fn lemma_found_is_exact(lines: Seq<LineView>, input: Seq<char>)
    ensures
        forall|line: LineView|
            found(lines, input).contains(line) <==> lines.contains(line) && holding(
                lowercase(input),
            )(line),
{
    let kept = holding(lowercase(input));
    assert forall|line: LineView| found(lines, input).contains(line) implies lines.contains(line)
        && kept(line) by {
        lines.lemma_filter_contains_rev(kept, line);
    }
}

/// A text whose lower-case form is empty is held by every line: searched
/// for, it finds every line of the category.
pub proof fn lemma_empty_needle_finds_every_line(lines: Seq<LineView>, input: Seq<char>)
    requires
        lowercase(input).len() == 0,
    ensures
        found(lines, input) == lines,
    decreases lines.len(),
{
    reveal(Seq::filter);
    if lines.len() > 0 {
        lemma_empty_needle_finds_every_line(lines.drop_last(), input);
        lemma_empty_is_substring(lowercase(lines.last().text), lowercase(input));
        assert(lines.drop_last().push(lines.last()) =~= lines);
    }
}

/// The lines found stand in the order of the category: a line that comes
/// to the end of the category comes to the end of the lines found if it
/// holds the text, and changes nothing if it does not.
pub proof fn lemma_found_keeps_order(lines: Seq<LineView>, line: LineView, input: Seq<char>)
    ensures
        found(Seq::empty(), input) == Seq::<LineView>::empty(),
        found(lines.push(line), input) == if holding(lowercase(input))(line) {
            found(lines, input).push(line)
        } else {
            found(lines, input)
        },
{
    lines.lemma_filter_push(line, holding(lowercase(input)));
}

/// Every edit leaves the cursor within the text and marks what was found
/// as out of date.
pub proof fn lemma_edits_keep_wf(search: SearchView, character: char)
    requires
        search.wf(),
    ensures
        search.add_input(character).wf(),
        search.remove_input_backspace().wf(),
        search.remove_input_delete().wf(),
        search.cursor_move_left().wf(),
        search.cursor_move_right().wf(),
        search.add_input(character).should_filter,
        search.remove_input_backspace().should_filter,
        search.remove_input_delete().should_filter,
        search.cursor_move_left().should_filter,
        search.cursor_move_right().should_filter,
{
}

/// A character typed and then removed with backspace leaves the text and
/// the cursor as they were.
pub proof fn lemma_backspace_undoes_add_input(search: SearchView, character: char)
    requires
        search.wf(),
    ensures
        search.add_input(character).remove_input_backspace().input == search.input,
        search.add_input(character).remove_input_backspace().cursor_location
            == search.cursor_location,
{
    let typed = search.add_input(character);
}

} // verus!
