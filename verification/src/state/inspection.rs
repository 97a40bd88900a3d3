use crate::json::{pretty, pretty_form};
use crate::line::{Line, LineView};
use crate::text::{
    chars_of, count_char, leading_run, leading_without, lemma_leading_run_unique,
    lemma_trailing_run_unique, occurrences, push_chars, string_of, trailing_run,
    trailing_without,
};
use vstd::prelude::*;
use vstd::string::StringExecFns;

verus! {

/// The expanded display of one line.
pub struct InspectionState {
    is_initiated: bool,
    is_json_format: bool,
    text: Option<Line>,
    scroll_value: u16,
}

/// The mathematical view of an [`InspectionState`].
pub struct InspectionView {
    pub is_initiated: bool,
    pub is_json_format: bool,
    pub text: Option<LineView>,
    pub scroll_value: nat,
}

/// A text cut in three around its payload.
pub struct Payload {
    pub prefix: Seq<char>,
    pub body: Seq<char>,
    pub suffix: Seq<char>,
}

/// The payload of a text reaches from its first `{` to its last `}`, both
/// included. A text without a `{`, or without a `}` behind its first `{`,
/// has none.
pub open spec fn payload_of(text: Seq<char>) -> Option<Payload> {
    let before = leading_without(text, '{');
    let after = trailing_without(text, '}');
    if before + after < text.len() {
        Some(
            Payload {
                prefix: text.subrange(0, before as int),
                body: text.subrange(before as int, text.len() - after),
                suffix: text.subrange(text.len() - after, text.len() as int),
            },
        )
    } else {
        None
    }
}

/// The expansion of a text whose payload is JSON: what stands before the
/// payload, the payload pretty-printed, and what stands behind it, each on
/// lines of its own. `None` for a text without a payload, or whose payload
/// is not JSON.
pub open spec fn expansion(text: Seq<char>) -> Option<Seq<char>> {
    match payload_of(text) {
        Some(payload) => match pretty_form(payload.body) {
            Some(printed) => Some(
                payload.prefix + seq!['\n'] + printed + seq!['\n'] + payload.suffix,
            ),
            None => None,
        },
        None => None,
    }
}

/// How far a text can be scrolled: to its last line, and no further than
/// the offset can count.
pub open spec fn max_scroll(text: Option<LineView>) -> nat {
    match text {
        Some(line) => if occurrences(line.text, '\n') < u16::MAX {
            occurrences(line.text, '\n')
        } else {
            u16::MAX as nat
        },
        None => 0,
    }
}

impl InspectionView {
    /// The offset stays within the text.
    pub open spec fn wf(self) -> bool {
        self.scroll_value <= max_scroll(self.text)
    }

    /// Nothing is inspected.
    pub open spec fn initial() -> InspectionView {
        InspectionView { is_initiated: false, is_json_format: false, text: None, scroll_value: 0 }
    }

    pub open spec fn initiate(self) -> InspectionView {
        InspectionView { is_initiated: true, ..self }
    }

    /// What is shown for `line`: its expansion where it has one, else its
    /// own text, in the line's style. The offset is kept as far as the new
    /// text allows.
    pub open spec fn inspect(self, line: LineView) -> InspectionView {
        let shown = LineView {
            text: match expansion(line.text) {
                Some(expanded) => expanded,
                None => line.text,
            },
            style: line.style,
        };
        InspectionView {
            is_initiated: self.is_initiated,
            is_json_format: expansion(line.text) is Some,
            text: Some(shown),
            scroll_value: if self.scroll_value <= max_scroll(Some(shown)) {
                self.scroll_value
            } else {
                max_scroll(Some(shown))
            },
        }
    }

    /// One line further down, unless the last line is reached.
    pub open spec fn scroll_down(self) -> InspectionView {
        InspectionView {
            scroll_value: if self.scroll_value < max_scroll(self.text) {
                self.scroll_value + 1
            } else {
                self.scroll_value
            },
            ..self
        }
    }

    /// One line further up, unless the first line is reached.
    pub open spec fn scroll_up(self) -> InspectionView {
        InspectionView {
            scroll_value: if self.scroll_value > 0 {
                (self.scroll_value - 1) as nat
            } else {
                0
            },
            ..self
        }
    }
}

impl View for InspectionState {
    type V = InspectionView;

    closed spec fn view(&self) -> InspectionView {
        InspectionView {
            is_initiated: self.is_initiated,
            is_json_format: self.is_json_format,
            text: match self.text {
                Some(line) => Some(line@),
                None => None,
            },
            scroll_value: self.scroll_value as nat,
        }
    }
}

impl Default for InspectionState {
    fn default() -> (state: InspectionState)
        ensures
            state.wf(),
            state@ == InspectionView::initial(),
    {
        InspectionState::new()
    }
}

impl InspectionState {
    /// See [`InspectionView::wf`].
    pub open spec fn wf(&self) -> bool {
        self@.wf()
    }

    pub fn new() -> (state: InspectionState)
        ensures
            state.wf(),
            state@ == InspectionView::initial(),
    {
        InspectionState { is_initiated: false, is_json_format: false, text: None, scroll_value: 0 }
    }

    /// Opens the inspection.
    pub fn initiate(&mut self)
        requires
            old(self).wf(),
        ensures
            final(self).wf(),
            final(self)@ == old(self)@.initiate(),
    {
        self.is_initiated = true;
    }

    /// Closes the inspection and forgets what was shown.
    pub fn close(&mut self)
        ensures
            final(self).wf(),
            final(self)@ == InspectionView::initial(),
    {
        self.is_initiated = false;
        self.is_json_format = false;
        self.text = None;
        self.scroll_value = 0;
    }

    /// Expands `line` for display.
    pub fn inspect(&mut self, line: &Line)
        ensures
            final(self).wf(),
            final(self)@ == old(self)@.inspect(line@),
    {
        let chars = chars_of(line.text.as_str());
        let len = chars.len();
        let before = leading_run(&chars, '{');
        let after = trailing_run(&chars, '}');
        let mut expanded: Option<String> = None;
        if before < len && after < len - before {
            let body = string_of(&chars, before, len - after);
            if let Some(printed) = pretty(body.as_str()) {
                let mut shown = string_of(&chars, 0, before);
                shown.push('\n');
                shown.append(printed.as_str());
                shown.push('\n');
                push_chars(&mut shown, &chars, len - after, len);
                expanded = Some(shown);
            }
        }
        assert(match expanded {
            Some(text) => expansion(line@.text) == Some(text@),
            None => expansion(line@.text) is None,
        });
        self.is_json_format = expanded.is_some();
        let shown = Line {
            text: match expanded {
                Some(text) => text,
                None => line.text.clone(),
            },
            style: line.style,
        };
        let limit = scroll_limit(&shown);
        if self.scroll_value > limit {
            self.scroll_value = limit;
        }
        self.text = Some(shown);
    }

    /// Scrolls one line down, but not past the last line of the text.
    pub fn scroll_down(&mut self)
        requires
            old(self).wf(),
        ensures
            final(self).wf(),
            final(self)@ == old(self)@.scroll_down(),
    {
        let limit = match &self.text {
            Some(line) => scroll_limit(line),
            None => 0,
        };
        if self.scroll_value < limit {
            self.scroll_value += 1;
        }
    }

    /// Scrolls one line up, but not past the first line of the text.
    pub fn scroll_up(&mut self)
        requires
            old(self).wf(),
        ensures
            final(self).wf(),
            final(self)@ == old(self)@.scroll_up(),
    {
        if self.scroll_value > 0 {
            self.scroll_value -= 1;
        }
    }

    /// Whether the inspection is open.
    pub fn is_initiated(&self) -> (open: bool)
        ensures
            open == self@.is_initiated,
    {
        self.is_initiated
    }

    /// Whether the text shown is an expansion.
    pub fn is_json_format(&self) -> (structured: bool)
        ensures
            structured == self@.is_json_format,
    {
        self.is_json_format
    }

    /// The text shown, if any.
    pub fn text(&self) -> (text: Option<&Line>)
        ensures
            match text {
                Some(line) => self@.text == Some(line@),
                None => self@.text is None,
            },
    {
        self.text.as_ref()
    }

    /// How many lines the text is scrolled down.
    pub fn scroll_value(&self) -> (offset: u16)
        ensures
            offset == self@.scroll_value,
    {
        self.scroll_value
    }
}

/// A payload that opens with `{` and closes with `}` is found again
/// between a prefix without `{` and a suffix without `}`.
pub proof fn lemma_payload_found(prefix: Seq<char>, body: Seq<char>, suffix: Seq<char>)
    requires
        body.len() > 0,
        body[0] == '{',
        body.last() == '}',
        !prefix.contains('{'),
        !suffix.contains('}'),
    ensures
        payload_of(prefix + body + suffix) == Some(Payload { prefix, body, suffix }),
{
    let text = prefix + body + suffix;
    assert forall|j: int| 0 <= j < prefix.len() implies text[j] != '{' by {}
    lemma_leading_run_unique(text, '{', prefix.len() as int);
    assert forall|j: int| text.len() - suffix.len() <= j < text.len() implies text[j] != '}' by {}
    assert(text[text.len() - suffix.len() - 1] == body.last());
    lemma_trailing_run_unique(text, '}', suffix.len() as int);
    let found = payload_of(text)->0;
    assert(found.prefix =~= prefix);
    assert(found.body =~= body);
    assert(found.suffix =~= suffix);
}

/// Inspecting a line that holds JSON between a prefix without `{` and a
/// suffix without `}` shows the prefix, the JSON pretty-printed and the
/// suffix, each on lines of its own, and says that the text is structured.
pub proof fn lemma_inspect_structured(
    state: InspectionView,
    prefix: Seq<char>,
    body: Seq<char>,
    suffix: Seq<char>,
    line: LineView,
)
    requires
        line.text == prefix + body + suffix,
        body.len() > 0,
        body[0] == '{',
        body.last() == '}',
        !prefix.contains('{'),
        !suffix.contains('}'),
        pretty_form(body) is Some,
    ensures
        state.inspect(line).is_json_format,
        state.inspect(line).text == Some(
            LineView {
                text: prefix + seq!['\n'] + pretty_form(body)->0 + seq!['\n'] + suffix,
                style: line.style,
            },
        ),
{
    lemma_payload_found(prefix, body, suffix);
}

/// A line without a `{` is shown as it is.
pub proof fn lemma_inspect_plain(state: InspectionView, line: LineView)
    requires
        !line.text.contains('{'),
    ensures
        !state.inspect(line).is_json_format,
        state.inspect(line).text == Some(line),
{
    assert forall|j: int| 0 <= j < line.text.len() implies line.text[j] != '{' by {}
    lemma_leading_run_unique(line.text, '{', line.text.len() as int);
}

/// Inspecting keeps the offset within the text, whatever it was.
pub proof fn lemma_inspect_wf(state: InspectionView, line: LineView)
    ensures
        state.inspect(line).wf(),
{
}

/// How far `line` can be scrolled.
fn scroll_limit(line: &Line) -> (limit: u16)
    ensures
        limit == max_scroll(Some(line@)),
{
    let breaks = count_char(line.text.as_str(), '\n');
    if breaks < 0xffff {
        breaks as u16
    } else {
        0xffff
    }
}

} // verus!
