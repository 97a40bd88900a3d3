use crate::text::texts;
use vstd::prelude::*;

verus! {

/// The categories, "All" first, and the one that is shown.
pub struct TabsState {
    titles: Vec<String>,
    index: usize,
}

/// The mathematical view of a [`TabsState`].
pub struct TabsView {
    pub titles: Seq<Seq<char>>,
    pub index: nat,
}

impl TabsView {
    /// The shown category is one of the categories.
    pub open spec fn wf(self) -> bool {
        self.index < self.titles.len()
    }

    /// The tabs made for a list of filters: "All", then one per filter.
    pub open spec fn initial(filters: Seq<Seq<char>>) -> TabsView {
        TabsView { titles: seq!["All"@] + filters, index: 0 }
    }

    /// The category after the shown one, the first after the last.
    pub open spec fn next(self) -> TabsView {
        TabsView {
            index: if self.index + 1 < self.titles.len() {
                self.index + 1
            } else {
                0
            },
            ..self
        }
    }

    /// The category before the shown one, the last before the first.
    pub open spec fn previous(self) -> TabsView {
        TabsView {
            index: if self.index > 0 {
                (self.index - 1) as nat
            } else {
                (self.titles.len() - 1) as nat
            },
            ..self
        }
    }
}

impl View for TabsState {
    type V = TabsView;

    closed spec fn view(&self) -> TabsView {
        TabsView { titles: texts(self.titles@), index: self.index as nat }
    }
}

impl TabsState {
    /// See [`TabsView::wf`].
    pub open spec fn wf(&self) -> bool {
        self@.wf()
    }

    /// The tabs for a list of filters, with "All" shown.
    pub fn new(titles: &Vec<String>) -> (tabs: TabsState)
        ensures
            tabs.wf(),
            tabs@ == TabsView::initial(texts(titles@)),
    {
        let mut vector: Vec<String> = Vec::new();
        vector.push("All".to_owned());
        let mut i: usize = 0;
        while i < titles.len()
            invariant
                i <= titles@.len(),
                vector@.len() == i + 1,
                vector@[0]@ == "All"@,
                forall|j: int| 0 <= j < i ==> vector@[j + 1]@ == titles@[j]@,
            decreases titles@.len() - i,
        {
            vector.push(titles[i].clone());
            i += 1;
        }
        assert(texts(vector@) =~= seq!["All"@] + texts(titles@));
        TabsState { titles: vector, index: 0 }
    }

    /// Shows the next category; after the last comes the first.
    pub fn next(&mut self)
        requires
            old(self).wf(),
        ensures
            final(self).wf(),
            final(self)@ == old(self)@.next(),
    {
        let count = self.titles.len();
        proof {
            if self.index + 1 < count {
                vstd::arithmetic::div_mod::lemma_small_mod((self.index + 1) as nat, count as nat);
            } else {
                vstd::arithmetic::div_mod::lemma_mod_self_0(count as int);
            }
        }
        self.index = (self.index + 1) % count;
    }

    /// Shows the category before; before the first comes the last.
    pub fn previous(&mut self)
        requires
            old(self).wf(),
        ensures
            final(self).wf(),
            final(self)@ == old(self)@.previous(),
    {
        if self.index > 0 {
            self.index -= 1;
        } else {
            self.index = self.titles.len() - 1;
        }
    }

    /// The category labels, "All" first.
    pub fn titles(&self) -> (titles: &Vec<String>)
        ensures
            texts(titles@) == self@.titles,
    {
        &self.titles
    }

    /// The index of the shown category.
    pub fn index(&self) -> (index: usize)
        ensures
            index == self@.index,
    {
        self.index
    }
}

/// Going to the next category and back, or back and to the next, shows the
/// category that was shown before; neither changes the labels.
pub proof fn lemma_next_and_previous_cancel(tabs: TabsView)
    requires
        tabs.wf(),
    ensures
        tabs.next().wf(),
        tabs.previous().wf(),
        tabs.next().previous() == tabs,
        tabs.previous().next() == tabs,
{
}

/// From the last category the next is the first, and from the first the
/// one before is the last.
pub proof fn lemma_tabs_wrap_around(tabs: TabsView)
    requires
        tabs.wf(),
    ensures
        tabs.index == tabs.titles.len() - 1 ==> tabs.next().index == 0,
        tabs.index == 0 ==> tabs.previous().index == tabs.titles.len() - 1,
{
}

} // verus!
