//! The captured lines, sorted into categories as they arrive.

use crate::line::{lemma_line_views_push, line_views, Line, LineView, Style};
use crate::text::{contains, is_substring, texts};
use vstd::prelude::*;

verus! {

/// The category that holds every line.
pub const ALL_MESSAGES_INDEX: usize = 0;

/// The lines captured so far, by category, each category in the order of
/// arrival. Category 0 holds every line; category `i + 1` holds the lines
/// that hold filter `i`.
pub struct CaptureStore {
    message_types: Vec<String>,
    captured_messages: Vec<Vec<Line>>,
}

/// The mathematical view of a [`CaptureStore`].
pub struct CapturedView {
    pub filters: Seq<Seq<char>>,
    pub categories: Seq<Seq<LineView>>,
}

/// `message` in the colour of `category`.
pub open spec fn copy_for(message: Seq<char>, category: nat) -> LineView {
    LineView { text: message, style: Style::Category(category as usize) }
}

/// The copies of `message` that the first `upto` filters claim, one for
/// each filter that the message holds, in the order of the filters.
pub open spec fn copies(filters: Seq<Seq<char>>, message: Seq<char>, upto: nat) -> Seq<LineView>
    decreases upto,
{
    if upto == 0 {
        Seq::empty()
    } else if is_substring(message, filters[upto - 1]) {
        copies(filters, message, (upto - 1) as nat).push(copy_for(message, upto))
    } else {
        copies(filters, message, (upto - 1) as nat)
    }
}

/// What `message` adds to category 0: its copies for the filters that it
/// holds, or one copy in the colour of category 0 if it holds none.
pub open spec fn arrivals(filters: Seq<Seq<char>>, message: Seq<char>) -> Seq<LineView> {
    if copies(filters, message, filters.len()).len() == 0 {
        seq![copy_for(message, 0)]
    } else {
        copies(filters, message, filters.len())
    }
}

/// The lines of category `category`.
pub open spec fn of_category(category: nat) -> spec_fn(LineView) -> bool {
    |line: LineView| line.style == Style::Category(category as usize)
}

impl CapturedView {
    /// There is one category for all lines and one for each filter, no
    /// more of them than can be counted, and the lines are sorted into
    /// them.
    pub open spec fn wf(self) -> bool {
        &&& self.sized()
        &&& self.sorted()
    }

    /// There is one category for all lines and one for each filter, and
    /// no more of them than can be counted.
    pub open spec fn sized(self) -> bool {
        &&& self.categories.len() == self.filters.len() + 1
        &&& self.categories.len() <= usize::MAX
    }

    /// Every line stands in category 0, in the colour of category 0 if it
    /// holds no filter, else once for each filter that it holds, in that
    /// filter's colour. The category of a filter holds the lines of its
    /// colour, in the order in which they stand in category 0.
    pub open spec fn sorted(self) -> bool {
        &&& forall|c: int|
            1 <= c < self.categories.len() ==> #[trigger] self.categories[c]
                == self.categories[0].filter(of_category(c as nat))
        &&& forall|i: int|
            0 <= i < self.categories[0].len() ==> self.claims(#[trigger] self.categories[0][i])
    }

    /// `line` is painted as its text demands.
    pub open spec fn claims(self, line: LineView) -> bool {
        match line.style {
            Style::Category(c) => c <= self.filters.len() && if c == 0 {
                forall|i: int|
                    0 <= i < self.filters.len() ==> !is_substring(
                        line.text,
                        #[trigger] self.filters[i],
                    )
            } else {
                is_substring(line.text, self.filters[c - 1])
            },
            Style::Reversed => false,
        }
    }

    /// No lines yet.
    pub open spec fn initial(filters: Seq<Seq<char>>) -> CapturedView {
        CapturedView { filters, categories: Seq::new(filters.len() + 1, |c: int| Seq::empty()) }
    }

    /// The store once `message` has arrived.
    pub open spec fn capture_message(self, message: Seq<char>) -> CapturedView {
        CapturedView {
            filters: self.filters,
            categories: Seq::new(
                self.categories.len(),
                |c: int|
                    if c == 0 {
                        self.categories[0] + arrivals(self.filters, message)
                    } else if is_substring(message, self.filters[c - 1]) {
                        self.categories[c].push(copy_for(message, c as nat))
                    } else {
                        self.categories[c]
                    },
            ),
        }
    }
}

impl View for CaptureStore {
    type V = CapturedView;

    closed spec fn view(&self) -> CapturedView {
        CapturedView {
            filters: texts(self.message_types@),
            categories: Seq::new(
                self.captured_messages@.len(),
                |c: int| line_views(self.captured_messages@[c]@),
            ),
        }
    }
}

impl CaptureStore {
    /// See [`CapturedView::wf`].
    pub open spec fn wf(&self) -> bool {
        self@.wf()
    }

    /// An empty store for a list of filters.
    pub fn new(message_types: &Vec<String>) -> (store: CaptureStore)
        ensures
            store.wf(),
            store@ == CapturedView::initial(texts(message_types@)),
    {
        let mut filters: Vec<String> = Vec::new();
        let mut captured_messages: Vec<Vec<Line>> = Vec::new();
        captured_messages.push(Vec::new());
        let mut i: usize = 0;
        while i < message_types.len()
            invariant
                i <= message_types@.len(),
                filters@.len() == i,
                captured_messages@.len() == i + 1,
                forall|j: int| 0 <= j < i ==> filters@[j]@ == message_types@[j]@,
                forall|c: int| 0 <= c <= i ==> (#[trigger] captured_messages@[c])@.len() == 0,
            decreases message_types@.len() - i,
        {
            filters.push(message_types[i].clone());
            captured_messages.push(Vec::new());
            i += 1;
        }
        assert(captured_messages.len() == message_types@.len() + 1);
        let store = CaptureStore { message_types: filters, captured_messages };
        assert(store@.filters =~= texts(message_types@));
        assert(store@.categories =~= CapturedView::initial(texts(message_types@)).categories) by {
            assert forall|c: int| 0 <= c < store@.categories.len() implies store@.categories[c]
                =~= Seq::empty() by {}
        }
        proof {
            lemma_initial_is_wf(texts(message_types@));
        }
        store
    }

    /// Takes `message` into category 0 and into the category of every
    /// filter that it holds.
    pub fn capture_message(&mut self, message: &str)
        requires
            old(self).wf(),
        ensures
            final(self).wf(),
            final(self)@ == old(self)@.capture_message(message@),
    {
        let ghost before = self@;
        let mut message_captured = false;
        let mut index: usize = 0;
        while index < self.message_types.len()
            invariant
                index <= self.message_types@.len(),
                self.message_types == old(self).message_types,
                before == old(self)@,
                before.sized(),
                self@.filters == before.filters,
                self@.categories.len() == before.categories.len(),
                self@.categories[0] == before.categories[0] + copies(
                    before.filters,
                    message@,
                    index as nat,
                ),
                message_captured == (copies(before.filters, message@, index as nat).len() > 0),
                forall|c: int|
                    1 <= c < before.categories.len() ==> #[trigger] self@.categories[c] == if c
                        <= index && is_substring(message@, before.filters[c - 1]) {
                        before.categories[c].push(copy_for(message@, c as nat))
                    } else {
                        before.categories[c]
                    },
            decreases self.message_types@.len() - index,
        {
            let ghost earlier = self@;
            if contains(message, self.message_types[index].as_str()) {
                let styled = Line::new(message, Style::Category(index + 1));
                let copy = styled.clone();
                self.captured_messages[index + 1].push(copy);
                proof {
                    lemma_line_views_push(self.captured_messages@[0]@, styled);
                }
                self.captured_messages[ALL_MESSAGES_INDEX].push(styled);

                message_captured = true;
            }
            index += 1;
            assert forall|c: int| 1 <= c < before.categories.len() implies #[trigger] self@.categories[c]
                == if c <= index && is_substring(message@, before.filters[c - 1]) {
                before.categories[c].push(copy_for(message@, c as nat))
            } else {
                before.categories[c]
            } by {
                assert(earlier.categories[c] == if c <= index - 1 && is_substring(
                    message@,
                    before.filters[c - 1],
                ) {
                    before.categories[c].push(copy_for(message@, c as nat))
                } else {
                    before.categories[c]
                });
            }
        }

        let ghost sorted = self@;
        if !message_captured {
            let styled = Line::new(message, Style::Category(0));
            self.captured_messages[ALL_MESSAGES_INDEX].push(styled);
        }
        assert forall|c: int| 0 <= c < before.categories.len() implies self@.categories[c]
            == before.capture_message(message@).categories[c] by {
            if c > 0 {
                assert(self@.categories[c] == sorted.categories[c]);
            }
        }
        assert(self@.categories =~= before.capture_message(message@).categories);
        proof {
            lemma_capture_message_keeps_wf(before, message@);
        }
    }

    /// The filters, in the order of their categories.
    pub fn message_types(&self) -> (filters: &Vec<String>)
        ensures
            texts(filters@) == self@.filters,
    {
        &self.message_types
    }

    /// The number of categories.
    pub fn len(&self) -> (count: usize)
        ensures
            count == self@.categories.len(),
    {
        self.captured_messages.len()
    }

    /// The lines of a category that exists, oldest first.
    pub fn lines(&self, index: usize) -> (lines: &Vec<Line>)
        requires
            index < self@.categories.len(),
        ensures
            line_views(lines@) == self@.categories[index as int],
    {
        &self.captured_messages[index]
    }

    /// The lines of one category, oldest first; `None` where there is no
    /// such category.
    pub fn category(&self, index: usize) -> (lines: Option<&Vec<Line>>)
        ensures
            match lines {
                Some(lines) => index < self@.categories.len() && line_views(lines@)
                    == self@.categories[index as int],
                None => index >= self@.categories.len(),
            },
    {
        if index < self.captured_messages.len() {
            Some(&self.captured_messages[index])
        } else {
            None
        }
    }
}

/// Among the copies that the first `upto` filters claim, the one in the
/// colour of category `c` is there exactly if filter `c - 1` is one of
/// them and the message holds it.
proof fn lemma_copies_of_category(
    filters: Seq<Seq<char>>,
    message: Seq<char>,
    upto: nat,
    c: nat,
)
    requires
        1 <= c,
        c <= usize::MAX,
        upto <= usize::MAX,
    ensures
        copies(filters, message, upto).filter(of_category(c)) == if c <= upto && is_substring(
            message,
            filters[c - 1],
        ) {
            seq![copy_for(message, c)]
        } else {
            Seq::empty()
        },
    decreases upto,
{
    if upto > 0 {
        lemma_copies_of_category(filters, message, (upto - 1) as nat, c);
        if is_substring(message, filters[upto - 1]) {
            copies(filters, message, (upto - 1) as nat).lemma_filter_push(
                copy_for(message, upto),
                of_category(c),
            );
        }
    }
}

/// `line` is a copy of `message` in the colour of one of the first `upto`
/// filters, which the message holds.
spec fn is_claimed_copy(
    filters: Seq<Seq<char>>,
    message: Seq<char>,
    upto: nat,
    line: LineView,
) -> bool {
    match line.style {
        Style::Category(c) => 1 <= c <= upto && is_substring(message, filters[c - 1])
            && line.text == message,
        Style::Reversed => false,
    }
}

/// Every copy that the first `upto` filters claim is in the colour of one
/// of them, which the message holds; and there is no copy exactly if the
/// message holds none of them.
proof fn lemma_copies_claimed(filters: Seq<Seq<char>>, message: Seq<char>, upto: nat)
    requires
        upto <= usize::MAX,
    ensures
        forall|i: int|
            0 <= i < copies(filters, message, upto).len() ==> is_claimed_copy(
                filters,
                message,
                upto,
                #[trigger] copies(filters, message, upto)[i],
            ),
        copies(filters, message, upto).len() == 0 <==> forall|i: int|
            0 <= i < upto ==> !is_substring(message, #[trigger] filters[i]),
    decreases upto,
{
    if upto > 0 {
        lemma_copies_claimed(filters, message, (upto - 1) as nat);
    }
}

/// A store without lines is well-formed.
pub proof fn lemma_initial_is_wf(filters: Seq<Seq<char>>)
    requires
        filters.len() < usize::MAX,
    ensures
        CapturedView::initial(filters).wf(),
{
    reveal(Seq::filter);
}

/// A well-formed store is well-formed again once a message has arrived:
/// the message stands in category 0 and in the category of every filter
/// that it holds, and in no other.
pub proof fn lemma_capture_message_keeps_wf(store: CapturedView, message: Seq<char>)
    requires
        store.wf(),
    ensures
        store.capture_message(message).wf(),
{
    let after = store.capture_message(message);
    let arrived = arrivals(store.filters, message);
    lemma_copies_claimed(store.filters, message, store.filters.len());
    assert forall|c: int| 1 <= c < after.categories.len() implies #[trigger] after.categories[c]
        == after.categories[0].filter(of_category(c as nat)) by {
        lemma_copies_of_category(store.filters, message, store.filters.len(), c as nat);
        if copies(store.filters, message, store.filters.len()).len() == 0 {
            Seq::<LineView>::empty().lemma_filter_push(copy_for(message, 0), of_category(c as nat));
        }
    }
}

} // verus!
