//! The visible part of the note list: the entries that the current query
//! selects, each remembered by its position in the whole list, and a cursor
//! over them.

use crate::error::SessionError;
use crate::list_index::Cursor;
use crate::list_index::ListIndex;
use crate::pattern::compile;
use crate::pattern::is_match;
use crate::pattern::pattern_of;
use crate::pattern::query_is_valid;
use crate::pattern::query_selects;
use vstd::prelude::*;

verus! {

/// The mathematical value of a filtered list: for each visible entry its
/// position in the whole list, and the cursor over the visible entries.
pub struct FilteredView {
    pub cursor: Cursor,
    pub mapping: Seq<usize>,
}

/// Each position is greater than the one before it.
pub open spec fn ascending(mapping: Seq<usize>) -> bool {
    forall|i: int, j: int| 0 <= i < j < mapping.len() ==> mapping[i] < mapping[j]
}

/// The positions `0, 1, .., size - 1`.
pub open spec fn all_positions(size: nat) -> Seq<usize> {
    Seq::new(size, |i: int| i as usize)
}

/// The texts of a list of strings.
pub open spec fn texts(strings: Seq<String>) -> Seq<Seq<char>> {
    Seq::new(strings.len(), |i: int| strings[i]@)
}

/// The positions of the corpus entries that the query selects, in ascending
/// order.
pub open spec fn matching_positions(query: Seq<char>, corpus: Seq<Seq<char>>) -> Seq<usize>
    decreases corpus.len(),
{
    if corpus.len() == 0 {
        Seq::<usize>::empty()
    } else {
        let before = matching_positions(query, corpus.drop_last());
        if query_selects(query, corpus.last()) {
            before.push((corpus.len() - 1) as usize)
        } else {
            before
        }
    }
}

/// The names found at the mapped positions, in the mapping's order; a
/// position outside the list of names contributes nothing.
pub open spec fn visible_names<T>(mapping: Seq<usize>, names: Seq<T>) -> Seq<T>
    decreases mapping.len(),
{
    if mapping.len() == 0 {
        Seq::<T>::empty()
    } else {
        let before = visible_names(mapping.drop_last(), names);
        if mapping.last() < names.len() {
            before.push(names[mapping.last() as int])
        } else {
            before
        }
    }
}

impl FilteredView {
    /// The cursor walks exactly the visible entries, which stand in ascending
    /// original order.
    pub open spec fn wf(self) -> bool {
        &&& self.cursor.wf()
        &&& self.cursor.size == self.mapping.len()
        &&& ascending(self.mapping)
    }

    /// The unfiltered view of a list of `size` entries.
    pub open spec fn identity(size: nat) -> FilteredView {
        FilteredView { cursor: Cursor::fresh(size), mapping: all_positions(size) }
    }

    /// The view that a valid query leaves of a corpus, with the cursor on its
    /// first entry.
    pub open spec fn filtered(query: Seq<char>, corpus: Seq<Seq<char>>) -> FilteredView {
        let mapping = matching_positions(query, corpus);
        FilteredView { cursor: Cursor::fresh(mapping.len()), mapping }
    }

    /// The original position of the selected entry.
    pub open spec fn original_index(self) -> Option<usize> {
        match self.cursor.position {
            Some(p) => Some(self.mapping[p as int]),
            None => None,
        }
    }

    /// Every mapped position lies inside a list of `size` entries.
    pub open spec fn within(self, size: nat) -> bool {
        forall|k: int| 0 <= k < self.mapping.len() ==> self.mapping[k] < size
    }
}

/// A cursor over the entries that a query selects.
pub struct FilteredList {
    list_index: ListIndex,
    filtered_indexes: Vec<usize>,
}

impl View for FilteredList {
    type V = FilteredView;

    closed spec fn view(&self) -> FilteredView {
        FilteredView { cursor: self.list_index@, mapping: self.filtered_indexes@ }
    }
}

impl FilteredList {
    /// The invariant of every filtered list that this type hands out.
    pub open spec fn wf(&self) -> bool {
        self@.wf()
    }

    /// The unfiltered view of a list of `list_size` entries, with the cursor
    /// on the first of them.
    pub fn new(list_size: usize) -> (list: FilteredList)
        ensures
            list.wf(),
            list@ == FilteredView::identity(list_size as nat),
    {
        let mut filtered_indexes: Vec<usize> = Vec::new();
        let mut i: usize = 0;
        while i < list_size
            invariant
                i <= list_size,
                filtered_indexes@ == all_positions(i as nat),
            decreases list_size - i,
        {
            filtered_indexes.push(i);
            i = i + 1;
            assert(filtered_indexes@ =~= all_positions(i as nat));
        }
        let list_index = ListIndex::new(filtered_indexes.len());
        FilteredList { list_index, filtered_indexes }
    }

    /// Selects the next visible entry, from the last on to the first.
    pub fn select_next(&mut self)
        requires
            old(self).wf(),
        ensures
            final(self).wf(),
            final(self)@.mapping == old(self)@.mapping,
            final(self)@.cursor == old(self)@.cursor.increment(),
    {
        self.list_index.increment();
    }

    /// Selects the previous visible entry, from the first on to the last.
    pub fn select_previous(&mut self)
        requires
            old(self).wf(),
        ensures
            final(self).wf(),
            final(self)@.mapping == old(self)@.mapping,
            final(self)@.cursor == old(self)@.cursor.decrement(),
    {
        self.list_index.decrement();
    }

    /// Moves the selection `n` visible entries forward, at most to the last.
    pub fn select_next_n(&mut self, n: u16)
        requires
            old(self).wf(),
        ensures
            final(self).wf(),
            final(self)@.mapping == old(self)@.mapping,
            final(self)@.cursor == old(self)@.cursor.increment_n(n as nat),
    {
        self.list_index.increment_n(n);
    }

    /// Moves the selection `n` visible entries backward, at most to the first.
    pub fn select_previous_n(&mut self, n: u16)
        requires
            old(self).wf(),
        ensures
            final(self).wf(),
            final(self)@.mapping == old(self)@.mapping,
            final(self)@.cursor == old(self)@.cursor.decrement_n(n as nat),
    {
        self.list_index.decrement_n(n);
    }

    /// The selected position among the visible entries.
    pub fn get_index(&self) -> (position: Result<usize, SessionError>)
        ensures
            position == match self@.cursor.position {
                Some(p) => Ok::<usize, SessionError>(p as usize),
                None => Err::<usize, SessionError>(SessionError::NoSelection),
            },
            position matches Ok(p) ==> self@.cursor.position == Some(p as nat),
    {
        self.list_index.get_index()
    }

    /// The position that the selected entry has in the whole list.
    pub fn get_original_index(&self) -> (position: Result<usize, SessionError>)
        requires
            self.wf(),
        ensures
            position == match self@.original_index() {
                Some(p) => Ok::<usize, SessionError>(p),
                None => Err::<usize, SessionError>(SessionError::NoSelection),
            },
    {
        match self.list_index.get_index() {
            Ok(i) => Ok(self.filtered_indexes[i]),
            Err(e) => Err(e),
        }
    }

    /// Whether a visible entry is selected, which is whether any is visible.
    pub fn is_some(&self) -> (selected: bool)
        ensures
            selected == (self@.cursor.position is Some),
    {
        self.list_index.is_some()
    }

    /// The names of the visible entries, in their order.
    pub fn get_kakisute_file_name_list<'a>(&'a self, kakisute_name_list: Vec<&'a str>) -> (visible:
        Vec<&'a str>)
        ensures
            visible@ == visible_names(self@.mapping, kakisute_name_list@),
    {
        let mut visible: Vec<&'a str> = Vec::new();
        let mut k: usize = 0;
        while k < self.filtered_indexes.len()
            invariant
                k <= self.filtered_indexes.len(),
                visible@ == visible_names(self.filtered_indexes@.take(k as int), kakisute_name_list@),
            decreases self.filtered_indexes.len() - k,
        {
            let index = self.filtered_indexes[k];
            proof {
                let next = self.filtered_indexes@.take(k + 1);
                assert(next.drop_last() =~= self.filtered_indexes@.take(k as int));
                assert(next.last() == index);
            }
            if index < kakisute_name_list.len() {
                visible.push(kakisute_name_list[index]);
            }
            k = k + 1;
        }
        proof {
            assert(self.filtered_indexes@.take(k as int) =~= self.filtered_indexes@);
        }
        visible
    }

    /// Shows the corpus entries that the query, read as a regular expression,
    /// matches somewhere, and selects the first of them. The empty query shows
    /// every entry. A query that is no regular expression changes nothing.
    pub fn filter(&mut self, user_input: &str, kakisute_content_list: Vec<String>) -> (done: Result<
        (),
        SessionError,
    >)
        requires
            old(self).wf(),
        ensures
            done == Ok::<(), SessionError>(()),
            final(self).wf(),
            !query_is_valid(user_input@) ==> final(self)@ == old(self)@,
            query_is_valid(user_input@) ==> final(self)@ == FilteredView::filtered(
                user_input@,
                texts(kakisute_content_list@),
            ),
            query_is_valid(user_input@) ==> final(self)@.within(kakisute_content_list@.len()),
            user_input@.len() == 0 ==> final(self)@ == FilteredView::identity(
                kakisute_content_list@.len(),
            ),
    {
        let ghost corpus = texts(kakisute_content_list@);
        if user_input.is_empty() {
            proof {
                lemma_empty_query_selects_all(user_input@, corpus);
            }
            *self = FilteredList::new(kakisute_content_list.len());
            return Ok(());
        }
        match compile(user_input) {
            Err(_) => {},
            Ok(matcher) => {
                let mut matches: Vec<usize> = Vec::new();
                let mut i: usize = 0;
                while i < kakisute_content_list.len()
                    invariant
                        i <= kakisute_content_list.len(),
                        corpus == texts(kakisute_content_list@),
                        user_input@.len() != 0,
                        pattern_of(matcher) == user_input@,
                        matches@ == matching_positions(user_input@, corpus.take(i as int)),
                    decreases kakisute_content_list.len() - i,
                {
                    proof {
                        let next = corpus.take(i + 1);
                        assert(next.drop_last() =~= corpus.take(i as int));
                        assert(next.last() == kakisute_content_list@[i as int]@);
                    }
                    let found = is_match(&matcher, kakisute_content_list[i].as_str());
                    if let Ok(true) = found {
                        matches.push(i);
                    }
                    i = i + 1;
                }
                proof {
                    assert(corpus.take(i as int) =~= corpus);
                    lemma_matching_positions(user_input@, corpus);
                }
                let list_index = ListIndex::new(matches.len());
                *self = FilteredList { list_index, filtered_indexes: matches };
            },
        }
        Ok(())
    }
}

/// What the matching positions are: ascending positions of the corpus, each of
/// an entry that the query selects, and none of those is missing.
pub proof fn lemma_matching_positions(query: Seq<char>, corpus: Seq<Seq<char>>)
    requires
        corpus.len() <= usize::MAX,
    ensures
        ascending(matching_positions(query, corpus)),
        matching_positions(query, corpus).len() <= corpus.len(),
        forall|k: int|
            0 <= k < matching_positions(query, corpus).len() ==> {
                &&& (#[trigger] matching_positions(query, corpus)[k]) < corpus.len()
                &&& query_selects(query, corpus[matching_positions(query, corpus)[k] as int])
            },
        forall|p: int|
            0 <= p < corpus.len() && query_selects(query, #[trigger] corpus[p])
                ==> matching_positions(query, corpus).contains(p as usize),
    decreases corpus.len(),
{
    if corpus.len() > 0 {
        let shorter = corpus.drop_last();
        let before = matching_positions(query, shorter);
        let all = matching_positions(query, corpus);
        lemma_matching_positions(query, shorter);
        assert forall|p: int| 0 <= p < corpus.len() && query_selects(query, #[trigger] corpus[p])
            implies all.contains(p as usize) by {
            if p < shorter.len() {
                assert(shorter[p] == corpus[p]);
                let k = choose|k: int| 0 <= k < before.len() && before[k] == p as usize;
                assert(all[k] == p as usize);
            } else {
                assert(all[all.len() - 1] == p as usize);
            }
        }
        assert forall|k: int| 0 <= k < all.len() implies {
            &&& (#[trigger] all[k]) < corpus.len()
            &&& query_selects(query, corpus[all[k] as int])
        } by {
            if k < before.len() {
                assert(all[k] == before[k]);
                assert(shorter[before[k] as int] == corpus[before[k] as int]);
            }
        }
    }
}

/// The empty query shows every entry of the corpus, in ascending order.
pub proof fn lemma_empty_query_selects_all(query: Seq<char>, corpus: Seq<Seq<char>>)
    requires
        query.len() == 0,
    ensures
        query_is_valid(query),
        matching_positions(query, corpus) == all_positions(corpus.len()),
        FilteredView::filtered(query, corpus) == FilteredView::identity(corpus.len()),
    decreases corpus.len(),
{
    if corpus.len() > 0 {
        lemma_empty_query_selects_all(query, corpus.drop_last());
    }
    assert(matching_positions(query, corpus) =~= all_positions(corpus.len()));
}

/// Where every mapped position lies inside the list of names, the visible
/// names are the names at the mapped positions, one for one.
pub proof fn lemma_visible_names_within<T>(mapping: Seq<usize>, names: Seq<T>)
    requires
        forall|k: int| 0 <= k < mapping.len() ==> mapping[k] < names.len(),
    ensures
        visible_names(mapping, names) == Seq::new(mapping.len(), |k: int| names[mapping[k] as int]),
    decreases mapping.len(),
{
    if mapping.len() > 0 {
        lemma_visible_names_within(mapping.drop_last(), names);
    }
    assert(visible_names(mapping, names) =~= Seq::new(
        mapping.len(),
        |k: int| names[mapping[k] as int],
    ));
}

} // verus!
