//! The pages that have been visited, and the place among them.

use vstd::prelude::*;

verus! {

/// What a finished load does to the history.
#[derive(Clone, Copy, Debug, PartialEq, Eq, Structural)]
pub enum HistoryAction {
    /// The page becomes the newest one.
    Push,
    /// The page is the one at the given place.
    Traverse(usize),
    /// The page takes the place of the current one.
    Reload,
}

/// Visited pages, the oldest first, and the current one among them.
#[derive(Debug)]
pub struct History {
    pub entries: Vec<String>,
    pub index: Option<usize>,
}

/// Visited pages and the place of the current one, as plain values.
pub ghost struct VisitedPages {
    pub entries: Seq<Seq<char>>,
    pub place: Option<int>,
}

impl View for History {
    type V = VisitedPages;

    open spec fn view(&self) -> VisitedPages {
        VisitedPages {
            entries: self.entries@.map_values(|url: String| url@),
            place: self.place(),
        }
    }
}

impl VisitedPages {
    /// The history once a load has finished.
    pub open spec fn after(self, action: HistoryAction, url: Seq<char>) -> VisitedPages {
        match action {
            HistoryAction::Push => match self.place {
                Some(place) => VisitedPages {
                    entries: self.entries.take(place + 1).push(url),
                    place: Some(place + 1),
                },
                None => VisitedPages { entries: seq![url], place: Some(0) },
            },
            HistoryAction::Traverse(place) => if place < self.entries.len() {
                VisitedPages {
                    entries: self.entries.update(place as int, url),
                    place: Some(place as int),
                }
            } else {
                self
            },
            HistoryAction::Reload => match self.place {
                Some(place) => VisitedPages { entries: self.entries.update(place, url), ..self },
                None => VisitedPages { entries: seq![url], place: Some(0) },
            },
        }
    }

    /// Whether there is an older page than the current one.
    pub open spec fn has_previous(self) -> bool {
        self.place matches Some(place) && place > 0
    }

    /// Whether there is a newer page than the current one.
    pub open spec fn has_next(self) -> bool {
        self.place matches Some(place) && place + 1 < self.entries.len()
    }
}

impl History {
    /// There is a current page exactly when there is any page, and it is one of
    /// them.
    pub open spec fn wf(self) -> bool {
        match self.index {
            Some(index) => index < self.entries@.len(),
            None => self.entries@.len() == 0,
        }
    }

    /// The pages once a load has finished.
    pub open spec fn entries_after(self, action: HistoryAction, url: String) -> Seq<String> {
        match action {
            HistoryAction::Push => match self.index {
                Some(index) => self.entries@.take(index + 1).push(url),
                None => seq![url],
            },
            HistoryAction::Traverse(place) => if place < self.entries@.len() {
                self.entries@.update(place as int, url)
            } else {
                self.entries@
            },
            HistoryAction::Reload => match self.index {
                Some(index) => self.entries@.update(index as int, url),
                None => seq![url],
            },
        }
    }

    /// The place of the current page once a load has finished.
    pub open spec fn index_after(self, action: HistoryAction) -> Option<int> {
        match action {
            HistoryAction::Push => match self.index {
                Some(index) => Some(index + 1),
                None => Some(0),
            },
            HistoryAction::Traverse(place) => if place < self.entries@.len() {
                Some(place as int)
            } else {
                self.place()
            },
            HistoryAction::Reload => match self.index {
                Some(index) => Some(index as int),
                None => Some(0),
            },
        }
    }

    /// The place of the current page.
    pub open spec fn place(self) -> Option<int> {
        match self.index {
            Some(index) => Some(index as int),
            None => None,
        }
    }

    /// Whether this is the history `before` once a load has finished.
    pub open spec fn committed(self, before: History, action: HistoryAction, url: String) -> bool {
        self.entries@ == before.entries_after(action, url) && self.place() == before.index_after(
            action,
        )
    }

    /// The place of the previous page, if there is one.
    pub open spec fn previous(self) -> Option<int> {
        match self.index {
            Some(index) => if index > 0 {
                Some(index - 1)
            } else {
                None
            },
            None => None,
        }
    }

    /// The place of the next page, if there is one.
    pub open spec fn next(self) -> Option<int> {
        match self.index {
            Some(index) => if index + 1 < self.entries@.len() {
                Some(index + 1)
            } else {
                None
            },
            None => None,
        }
    }

    /// A history without any page.
    pub fn new() -> (result: History)
        ensures
            result.wf(),
            result.entries@ == Seq::<String>::empty(),
            result.index is None,
    {
        History { entries: Vec::new(), index: None }
    }

    /// Enter a finished load.
    pub fn commit(&mut self, action: HistoryAction, url: String)
        requires
            old(self).wf(),
        ensures
            final(self).wf(),
            final(self).committed(*old(self), action, url),
            final(self)@ == old(self)@.after(action, url@),
    {
        match action {
            HistoryAction::Push => {
                let count = self.entries.len();
                assert(self.index is Some ==> self.index->0 < count);
                match self.index {
                    Some(index) => {
                        self.entries.truncate(index + 1);
                        assert(self.entries@ =~= old(self).entries@.take(index + 1));
                    },
                    None => self.entries.clear(),
                }
                self.entries.push(url);
                assert(self.entries@ =~= old(self).entries_after(action, url));
                self.index = Some(self.entries.len() - 1);
            },
            HistoryAction::Traverse(place) => {
                if place < self.entries.len() {
                    self.entries.set(place, url);
                    self.index = Some(place);
                }
            },
            HistoryAction::Reload => {
                match self.index {
                    Some(index) => {
                        self.entries.set(index, url);
                    },
                    None => {
                        self.entries.push(url);
                        assert(self.entries@ =~= seq![url]);
                        self.index = Some(0);
                    },
                }
            },
        }
        assert(self@.entries =~= old(self)@.after(action, url@).entries);
    }

    /// Whether there is a previous page.
    pub fn can_go_back(&self) -> (result: bool)
        ensures
            result == (self.previous() is Some),
            result == self@.has_previous(),
    {
        match self.index {
            Some(index) => index > 0,
            None => false,
        }
    }

    /// Whether there is a next page.
    pub fn can_go_forward(&self) -> (result: bool)
        ensures
            result == (self.next() is Some),
            result == self@.has_next(),
    {
        match self.index {
            Some(index) => index < self.entries.len() && self.entries.len() - index > 1,
            None => false,
        }
    }

    /// The previous page and its place, if there is one.
    pub fn previous_page(&self) -> (result: Option<(usize, &String)>)
        requires
            self.wf(),
        ensures
            result is Some <==> self.previous() is Some,
            result matches Some((place, url)) ==> self.previous() == Some(place as int) && *url
                == self.entries@[place as int],
    {
        match self.index {
            Some(index) => if index > 0 {
                Some((index - 1, &self.entries[index - 1]))
            } else {
                None
            },
            None => None,
        }
    }

    /// The next page and its place, if there is one.
    pub fn next_page(&self) -> (result: Option<(usize, &String)>)
        requires
            self.wf(),
        ensures
            result is Some <==> self.next() is Some,
            result matches Some((place, url)) ==> self.next() == Some(place as int) && *url
                == self.entries@[place as int],
    {
        match self.index {
            Some(index) => if self.entries.len() - index > 1 {
                Some((index + 1, &self.entries[index + 1]))
            } else {
                None
            },
            None => None,
        }
    }
}

/// A new page is the newest one, nothing lies ahead of it, and exactly the
/// pages up to the one that was left lie behind it.
pub proof fn new_page_is_the_newest(before: History, url: String, after: History)
    requires
        before.wf(),
        after.committed(before, HistoryAction::Push, url),
    ensures
        after.wf(),
        after.entries@.last() == url,
        after.next() is None,
        before.index is Some ==> after.previous() == before.place() && after.entries@.drop_last()
            == before.entries@.take(before.index->0 + 1),
{
    if before.index is Some {
        assert(after.entries@.drop_last() =~= before.entries@.take(before.index->0 + 1));
    }
}

/// Going back and then forward again leads to the page that was left, and no
/// other page has moved.
pub proof fn back_and_forward_return(
    start: History,
    back_url: String,
    back: History,
    forward_url: String,
    forward: History,
)
    requires
        start.wf(),
        start.previous() is Some,
        back.committed(start, HistoryAction::Traverse(start.previous()->0 as usize), back_url),
        back.next() is Some,
        forward.committed(back, HistoryAction::Traverse(back.next()->0 as usize), forward_url),
    ensures
        back.next() == start.place(),
        back.entries@[start.index->0 as int] == start.entries@[start.index->0 as int],
        forward.place() == start.place(),
        forward.entries@.len() == start.entries@.len(),
        forall|i: int|
            0 <= i < start.entries@.len() && i != start.index->0 && i != start.index->0 - 1
                ==> #[trigger] forward.entries@[i] == start.entries@[i],
{
}

/// After going back there is always a page to go forward to.
pub proof fn going_back_leaves_a_way_forward(start: History, back_url: String, back: History)
    requires
        start.wf(),
        start.previous() is Some,
        back.committed(start, HistoryAction::Traverse(start.previous()->0 as usize), back_url),
    ensures
        back.wf(),
        back.next() == start.place(),
{
}

/// Loading a page again neither adds a page nor removes one nor moves to
/// another.
pub proof fn reload_stays_in_place(before: History, url: String, after: History)
    requires
        before.wf(),
        before.index is Some,
        after.committed(before, HistoryAction::Reload, url),
    ensures
        after.place() == before.place(),
        after.entries@.len() == before.entries@.len(),
        after.previous() == before.previous(),
        after.next() == before.next(),
{
}

/// A page that is gone to becomes the current one and stands where it stood, and
/// no other page has moved; a place that there is none at is not gone to.
pub proof fn traversal_moves_to_the_place(before: VisitedPages, place: usize, url: Seq<char>)
    ensures
        ({
            let after = before.after(HistoryAction::Traverse(place), url);
            &&& place < before.entries.len() ==> {
                &&& after.place == Some(place as int)
                &&& after.entries.len() == before.entries.len()
                &&& after.entries[place as int] == url
                &&& forall|i: int|
                    0 <= i < before.entries.len() && i != place ==> #[trigger] after.entries[i]
                        == before.entries[i]
            }
            &&& place >= before.entries.len() ==> after == before
        }),
{
}

/// A new page follows the one that was left: what lies behind that page stays,
/// what lay ahead of it is gone, and the new page is the last and the current
/// one.
pub proof fn new_pages_follow_the_current_one(before: VisitedPages, url: Seq<char>)
    requires
        before.place matches Some(place) ==> 0 <= place < before.entries.len(),
        before.place is None ==> before.entries.len() == 0,
    ensures
        ({
            let after = before.after(HistoryAction::Push, url);
            let kept: int = match before.place {
                Some(place) => place + 1,
                None => 0,
            };
            &&& after.entries.len() == kept + 1
            &&& after.entries[kept] == url
            &&& after.place == Some(kept)
            &&& forall|i: int| 0 <= i < kept ==> #[trigger] after.entries[i] == before.entries[i]
        }),
{
}

/// A page that is loaded again, or replaced, changes only its own entry; where
/// there was no page, it is the first.
pub proof fn reloads_change_one_entry(before: VisitedPages, url: Seq<char>)
    requires
        before.place matches Some(place) ==> 0 <= place < before.entries.len(),
    ensures
        ({
            let after = before.after(HistoryAction::Reload, url);
            &&& before.place matches Some(place) ==> {
                &&& after.place == Some(place)
                &&& after.entries.len() == before.entries.len()
                &&& after.entries[place] == url
                &&& forall|i: int|
                    0 <= i < before.entries.len() && i != place ==> #[trigger] after.entries[i]
                        == before.entries[i]
            }
            &&& before.place is None ==> after.entries.len() == 1 && after.entries[0] == url
                && after.place == Some(0int)
        }),
{
}

/// There is a way back exactly from every place but the first, and a way forward
/// exactly from every place but the last.
pub proof fn ways_lead_to_other_pages(pages: VisitedPages)
    requires
        pages.place matches Some(place) ==> 0 <= place < pages.entries.len(),
    ensures
        pages.has_previous() <==> pages.place is Some && pages.place != Some(0int),
        pages.has_next() <==> pages.place is Some && pages.place != Some(pages.entries.len() - 1),
{
}

/// The previous page is directly before the current one, and the next page
/// directly after it.
pub proof fn neighbours_are_next_to_the_current_page(history: History)
    requires
        history.wf(),
        history.index is Some,
    ensures
        history.index->0 > 0 ==> history.previous() == Some(history.index->0 - 1),
        history.index->0 == 0 ==> history.previous() is None,
        history.index->0 + 1 < history.entries@.len() ==> history.next() == Some(
            history.index->0 + 1,
        ),
        history.index->0 + 1 == history.entries@.len() ==> history.next() is None,
{
}

} // verus!
