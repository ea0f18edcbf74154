//! The session controller: the owner of the interactive state.

use crate::display_data::Info;
use crate::error::SessionError;
use crate::filtered_list::lemma_visible_names_within;
use crate::filtered_list::texts;
use crate::filtered_list::FilteredList;
use crate::filtered_list::FilteredView;
use crate::pattern::query_is_valid;
use crate::service::ServiceTrait;
use crate::text_input::TextInput;
use vstd::prelude::*;
use vstd::string::*;

verus! {

/// What the keys currently mean.
#[derive(Eq, PartialEq, Debug, Clone, Copy, Structural)]
pub enum Mode {
    Normal,
    Insert,
    DeleteConfirm,
    Search,
}

/// The mathematical value of a session.
pub struct AppView {
    pub mode: Mode,
    pub new_filename: Seq<char>,
    pub search_query: Seq<char>,
    pub exit: bool,
    /// The identifiers of all notes, in the storage's order.
    pub names: Seq<Seq<char>>,
    /// The visible part of `names` and the cursor over it.
    pub filtered: FilteredView,
    /// For each note, its content if it has been read since the last reload.
    pub cache: Seq<Option<Seq<char>>>,
}

/// The empty cache for `size` notes.
pub open spec fn nothing_cached(size: nat) -> Seq<Option<Seq<char>>> {
    Seq::new(size, |i: int| None::<Seq<char>>)
}

/// `after` holds all that `before` held, and maybe more.
pub open spec fn cache_extends(before: Seq<Option<Seq<char>>>, after: Seq<Option<Seq<char>>>) -> bool {
    &&& after.len() == before.len()
    &&& forall|i: int| 0 <= i < before.len() && before[i] is Some ==> after[i] == before[i]
}

impl AppView {
    /// The visible entries are entries of the list, the cursor walks them, and
    /// the cache has one place per note.
    pub open spec fn wf(self) -> bool {
        &&& self.filtered.wf()
        &&& self.filtered.within(self.names.len())
        &&& self.cache.len() == self.names.len()
    }

    /// The state after a reload that found `names`: normal mode, the whole
    /// list visible, empty buffers, nothing cached.
    pub open spec fn reset(names: Seq<Seq<char>>, exit: bool) -> AppView {
        AppView {
            mode: Mode::Normal,
            new_filename: Seq::<char>::empty(),
            search_query: Seq::<char>::empty(),
            exit,
            names,
            filtered: FilteredView::identity(names.len()),
            cache: nothing_cached(names.len()),
        }
    }

    /// The position that the selected note has in the whole list.
    pub open spec fn selected(self) -> Option<usize> {
        self.filtered.original_index()
    }

    /// Every note's content has been read.
    pub open spec fn all_cached(self) -> bool {
        forall|i: int| 0 <= i < self.cache.len() ==> (#[trigger] self.cache[i]) is Some
    }

    /// What a search looks through: for each note its identifier, followed by
    /// its content as far as it is cached.
    pub open spec fn corpus(self) -> Seq<Seq<char>> {
        Seq::new(
            self.names.len(),
            |i: int|
                self.names[i] + match self.cache[i] {
                    Some(content) => content,
                    None => Seq::<char>::empty(),
                },
        )
    }

    /// The identifiers of the visible notes.
    pub open spec fn visible(self) -> Seq<Seq<char>> {
        Seq::new(self.filtered.mapping.len(), |k: int| self.names[self.filtered.mapping[k] as int])
    }

    /// The state after a character was typed: appended to the buffer of the
    /// active mode, if the mode has one.
    pub open spec fn push_text(self, c: char) -> AppView {
        match self.mode {
            Mode::Insert => AppView { new_filename: self.new_filename.push(c), ..self },
            Mode::Search => AppView { search_query: self.search_query.push(c), ..self },
            _ => self,
        }
    }

    /// The state after the last character was taken back from the buffer of
    /// the active mode, if the mode has one and it is not empty.
    pub open spec fn pop_text(self) -> AppView {
        match self.mode {
            Mode::Insert => if self.new_filename.len() > 0 {
                AppView { new_filename: self.new_filename.drop_last(), ..self }
            } else {
                self
            },
            Mode::Search => if self.search_query.len() > 0 {
                AppView { search_query: self.search_query.drop_last(), ..self }
            } else {
                self
            },
            _ => self,
        }
    }

    /// The state after the buffer of the active mode was emptied, if the mode
    /// has one.
    pub open spec fn clear_text(self) -> AppView {
        match self.mode {
            Mode::Insert => AppView { new_filename: Seq::<char>::empty(), ..self },
            Mode::Search => AppView { search_query: Seq::<char>::empty(), ..self },
            _ => self,
        }
    }

    /// The state after the visible list was computed anew from the search
    /// query and the corpus; a query that is no regular expression leaves the
    /// visible list as it was.
    pub open spec fn refilter(self) -> AppView {
        if query_is_valid(self.search_query) {
            AppView { filtered: FilteredView::filtered(self.search_query, self.corpus()), ..self }
        } else {
            self
        }
    }
}

/// The session controller. It owns the mode, the two text buffers, the visible
/// list with its cursor and the cache of note contents, and reaches the stored
/// notes through `service`.
pub struct AppInteractor<'a, S: ServiceTrait> {
    mode: Mode,
    new_filename: TextInput,
    search_query: TextInput,
    exit: bool,
    service: &'a S,
    filtered_list: FilteredList,
    cached_content: Vec<Option<String>>,
    kakisute_name_list: Vec<String>,
}

/// The texts held in a cache.
pub open spec fn cache_texts(cache: Seq<Option<String>>) -> Seq<Option<Seq<char>>> {
    Seq::new(
        cache.len(),
        |i: int|
            match cache[i] {
                Some(content) => Some(content@),
                None => None,
            },
    )
}

impl<'a, S: ServiceTrait> View for AppInteractor<'a, S> {
    type V = AppView;

    closed spec fn view(&self) -> AppView {
        AppView {
            mode: self.mode,
            new_filename: self.new_filename@,
            search_query: self.search_query@,
            exit: self.exit,
            names: texts(self.kakisute_name_list@),
            filtered: self.filtered_list@,
            cache: cache_texts(self.cached_content@),
        }
    }
}

impl<'a, S: ServiceTrait> AppInteractor<'a, S> {
    /// The invariant of every session that this type hands out.
    pub open spec fn wf(&self) -> bool {
        self@.wf()
    }

    /// A cache for `size` notes with nothing in it.
    fn empty_cache(size: usize) -> (cache: Vec<Option<String>>)
        ensures
            cache_texts(cache@) == nothing_cached(size as nat),
    {
        let mut cache: Vec<Option<String>> = Vec::new();
        let mut i: usize = 0;
        while i < size
            invariant
                i <= size,
                cache@.len() == i,
                forall|k: int| 0 <= k < i ==> cache@[k] is None,
            decreases size - i,
        {
            cache.push(None);
            i = i + 1;
        }
        assert(cache_texts(cache@) =~= nothing_cached(size as nat));
        cache
    }

    /// Starts a session on the notes that the service lists: normal mode, the
    /// whole list visible, the first note selected if there is one.
    pub fn new(service: &'a S) -> (app: AppInteractor<'a, S>)
        ensures
            app.wf(),
            app@ == AppView::reset(app@.names, false),
    {
        let kakisute_name_list = service.get_kakisute_list();
        let filtered_list = FilteredList::new(kakisute_name_list.len());
        let cached_content = Self::empty_cache(kakisute_name_list.len());
        AppInteractor {
            mode: Mode::Normal,
            new_filename: TextInput::new(),
            search_query: TextInput::new(),
            exit: false,
            service,
            filtered_list,
            cached_content,
            kakisute_name_list,
        }
    }

    /// Reads the content of every note that is not cached yet, in the list's
    /// order, and stops at the first that cannot be read.
    fn load_all_kakisute(&mut self) -> (done: Result<(), SessionError>)
        requires
            old(self).wf(),
        ensures
            final(self).wf(),
            final(self)@ == (AppView { cache: final(self)@.cache, ..old(self)@ }),
            cache_extends(old(self)@.cache, final(self)@.cache),
            done is Ok <==> final(self)@.all_cached(),
    {
        let mut i: usize = 0;
        while i < self.kakisute_name_list.len()
            invariant
                self.wf(),
                self@ == (AppView { cache: self@.cache, ..old(self)@ }),
                cache_extends(old(self)@.cache, self@.cache),
                i <= self.kakisute_name_list.len(),
                forall|k: int| 0 <= k < i ==> (#[trigger] self@.cache[k]) is Some,
            decreases self.kakisute_name_list.len() - i,
        {
            match self.fetch_content(i) {
                Ok(_) => {},
                Err(e) => {
                    assert(self@.cache[i as int] is None);
                    return Err(e);
                },
            }
            i = i + 1;
        }
        Ok(())
    }

    /// The text buffer of the active mode; `NoTextInput` in a mode that has none.
    pub fn get_current_text_input(&self) -> (input: Result<&TextInput, SessionError>)
        ensures
            match self@.mode {
                Mode::Insert => input matches Ok(buffer) && buffer@ == self@.new_filename,
                Mode::Search => input matches Ok(buffer) && buffer@ == self@.search_query,
                _ => input == Err::<&TextInput, SessionError>(SessionError::NoTextInput),
            },
    {
        match self.mode {
            Mode::Insert => Ok(&self.new_filename),
            Mode::Search => Ok(&self.search_query),
            _ => Err(SessionError::NoTextInput),
        }
    }

    /// Puts a newly enumerated list in place of the old one.
    fn install(&mut self, names: Vec<String>)
        ensures
            final(self).wf(),
            final(self)@ == AppView::reset(texts(names@), old(self)@.exit),
    {
        self.filtered_list = FilteredList::new(names.len());
        self.cached_content = Self::empty_cache(names.len());
        self.kakisute_name_list = names;
        self.new_filename.clear();
        self.search_query.clear();
        self.mode = Mode::Normal;
    }

    /// Has the storage enumerate its notes anew and starts over on what it
    /// finds: normal mode, the whole list visible, empty buffers, nothing
    /// cached. Never fails.
    pub fn reload(&mut self) -> (done: Result<(), SessionError>)
        ensures
            done == Ok::<(), SessionError>(()),
            final(self).wf(),
            final(self)@ == AppView::reset(final(self)@.names, old(self)@.exit),
    {
        self.service.reload();
        let names = self.service.get_kakisute_list();
        self.install(names);
        Ok(())
    }

    /// The corpus of a search: each note's identifier followed by its cached
    /// content.
    fn corpus(&self) -> (corpus: Vec<String>)
        requires
            self.wf(),
        ensures
            texts(corpus@) == self@.corpus(),
    {
        let mut corpus: Vec<String> = Vec::new();
        let mut i: usize = 0;
        while i < self.kakisute_name_list.len()
            invariant
                self.wf(),
                i <= self.kakisute_name_list.len(),
                corpus@.len() == i,
                forall|k: int| 0 <= k < i ==> (#[trigger] corpus@[k])@ == self@.corpus()[k],
            decreases self.kakisute_name_list.len() - i,
        {
            let name = self.kakisute_name_list[i].clone();
            let entry = match &self.cached_content[i] {
                Some(content) => name.concat(content.as_str()),
                None => name,
            };
            assert(entry@ =~= self@.corpus()[i as int]);
            corpus.push(entry);
            i = i + 1;
        }
        assert(texts(corpus@) =~= self@.corpus());
        corpus
    }

    /// Reads every note, then shows the notes whose identifier and content
    /// the search query matches somewhere. A note that cannot be read stops
    /// the search with its error and leaves the visible list as it was; a
    /// query that is no regular expression leaves it as it was, too.
    pub fn filter(&mut self) -> (done: Result<(), SessionError>)
        requires
            old(self).wf(),
        ensures
            final(self).wf(),
            cache_extends(old(self)@.cache, final(self)@.cache),
            done is Ok <==> final(self)@.all_cached(),
            done is Ok ==> final(self)@ == (AppView {
                cache: final(self)@.cache,
                ..old(self)@
            }).refilter(),
            done is Err ==> final(self)@ == (AppView { cache: final(self)@.cache, ..old(self)@ }),
    {
        match self.load_all_kakisute() {
            Err(e) => Err(e),
            Ok(_) => {
                let corpus = self.corpus();
                let query = self.search_query.get();
                self.filtered_list.filter(query.as_str(), corpus)
            },
        }
    }

    /// Switches to the given mode.
    pub fn enter_mode(&mut self, mode: Mode)
        ensures
            final(self)@ == (AppView { mode, ..old(self)@ }),
    {
        self.mode = mode;
    }

    /// Selects the next visible note, from the last on to the first.
    pub fn select_next(&mut self)
        requires
            old(self).wf(),
        ensures
            final(self).wf(),
            final(self)@ == (AppView {
                filtered: FilteredView {
                    cursor: old(self)@.filtered.cursor.increment(),
                    ..old(self)@.filtered
                },
                ..old(self)@
            }),
    {
        self.filtered_list.select_next();
    }

    /// Selects the previous visible note, from the first on to the last.
    pub fn select_previous(&mut self)
        requires
            old(self).wf(),
        ensures
            final(self).wf(),
            final(self)@ == (AppView {
                filtered: FilteredView {
                    cursor: old(self)@.filtered.cursor.decrement(),
                    ..old(self)@.filtered
                },
                ..old(self)@
            }),
    {
        self.filtered_list.select_previous();
    }

    /// Moves the selection `n` visible notes forward, at most to the last.
    pub fn select_next_n(&mut self, n: u16)
        requires
            old(self).wf(),
        ensures
            final(self).wf(),
            final(self)@ == (AppView {
                filtered: FilteredView {
                    cursor: old(self)@.filtered.cursor.increment_n(n as nat),
                    ..old(self)@.filtered
                },
                ..old(self)@
            }),
    {
        self.filtered_list.select_next_n(n);
    }

    /// Moves the selection `n` visible notes backward, at most to the first.
    pub fn select_previous_n(&mut self, n: u16)
        requires
            old(self).wf(),
        ensures
            final(self).wf(),
            final(self)@ == (AppView {
                filtered: FilteredView {
                    cursor: old(self)@.filtered.cursor.decrement_n(n as nat),
                    ..old(self)@.filtered
                },
                ..old(self)@
            }),
    {
        self.filtered_list.select_previous_n(n);
    }

    /// Empties the text buffer of the active mode; does nothing in a mode that
    /// has none.
    pub fn clear_text_input(&mut self)
        ensures
            final(self)@ == old(self)@.clear_text(),
    {
        match self.mode {
            Mode::Insert => self.new_filename.clear(),
            Mode::Search => self.search_query.clear(),
            _ => {},
        }
    }

    /// The content of the selected note: from the cache if it is there, else
    /// from the storage, which fills the cache. `None` if nothing is selected
    /// or the note cannot be read.
    pub fn get_selected_kakisute_content(&mut self) -> (content: Option<String>)
        requires
            old(self).wf(),
        ensures
            final(self).wf(),
            final(self)@ == (AppView { cache: final(self)@.cache, ..old(self)@ }),
            match old(self)@.selected() {
                None => content is None && final(self)@.cache == old(self)@.cache,
                Some(index) => match content {
                    Some(text) => {
                        &&& final(self)@.cache == old(self)@.cache.update(index as int, Some(text@))
                        &&& old(self)@.cache[index as int] matches Some(cached) ==> text@ == cached
                    },
                    None => {
                        &&& final(self)@.cache == old(self)@.cache
                        &&& old(self)@.cache[index as int] is None
                    },
                },
            },
    {
        match self.filtered_list.get_original_index() {
            Ok(index) => self.load_kakisute_content(index),
            Err(_) => None,
        }
    }

    /// The content of the note at `index`, from the cache or else from the
    /// storage; what the storage gives is cached.
    fn fetch_content(&mut self, index: usize) -> (content: Result<String, SessionError>)
        requires
            old(self).wf(),
        ensures
            final(self).wf(),
            final(self)@ == (AppView { cache: final(self)@.cache, ..old(self)@ }),
            index >= old(self)@.names.len() ==> content == Err::<String, SessionError>(
                SessionError::NotFound,
            ) && final(self)@.cache == old(self)@.cache,
            index < old(self)@.names.len() ==> match content {
                Ok(text) => {
                    &&& final(self)@.cache == old(self)@.cache.update(index as int, Some(text@))
                    &&& old(self)@.cache[index as int] matches Some(cached) ==> text@ == cached
                },
                Err(_) => {
                    &&& final(self)@.cache == old(self)@.cache
                    &&& old(self)@.cache[index as int] is None
                },
            },
    {
        if index >= self.kakisute_name_list.len() {
            return Err(SessionError::NotFound);
        }
        if let Some(content) = self.load_from_cache(index) {
            assert(self@.cache =~= self@.cache.update(index as int, Some(content@)));
            return Ok(content);
        }
        match self.service.get_content_by_index(index) {
            Ok(content) => {
                let ghost before = self@.cache;
                self.cached_content[index] = Some(content.clone());
                assert(self@.cache =~= before.update(index as int, Some(content@)));
                Ok(content)
            },
            Err(e) => Err(e),
        }
    }

    /// The content of the note at `index`, if it can be had.
    fn load_kakisute_content(&mut self, index: usize) -> (content: Option<String>)
        requires
            old(self).wf(),
        ensures
            final(self).wf(),
            final(self)@ == (AppView { cache: final(self)@.cache, ..old(self)@ }),
            index >= old(self)@.names.len() ==> content is None && final(self)@.cache == old(
                self,
            )@.cache,
            index < old(self)@.names.len() ==> match content {
                Some(text) => {
                    &&& final(self)@.cache == old(self)@.cache.update(index as int, Some(text@))
                    &&& old(self)@.cache[index as int] matches Some(cached) ==> text@ == cached
                },
                None => {
                    &&& final(self)@.cache == old(self)@.cache
                    &&& old(self)@.cache[index as int] is None
                },
            },
    {
        match self.fetch_content(index) {
            Ok(content) => Some(content),
            Err(_) => None,
        }
    }

    /// The cached content of the note at `index`.
    fn load_from_cache(&self, index: usize) -> (content: Option<String>)
        requires
            self.wf(),
        ensures
            match content {
                Some(text) => index < self@.cache.len() && self@.cache[index as int] == Some(text@),
                None => index >= self@.cache.len() || self@.cache[index as int] is None,
            },
    {
        if index >= self.cached_content.len() {
            return None;
        }
        match &self.cached_content[index] {
            Some(content) => Some(content.clone()),
            None => None,
        }
    }

    /// Opens the selected note in the editor and returns its identifier.
    /// Fails with `NoSelection`, without reaching the storage, when nothing
    /// is selected; otherwise the storage decides.
    pub fn edit_kakisute(&self) -> (edited: Result<String, SessionError>)
        requires
            self.wf(),
        ensures
            self@.selected() is None ==> edited == Err::<String, SessionError>(
                SessionError::NoSelection,
            ),
    {
        match self.filtered_list.get_original_index() {
            Ok(index) => self.service.edit_by_index(index),
            Err(e) => Err(e),
        }
    }

    /// Creates a note named after the "new note name" buffer. The storage
    /// decides whether that succeeds.
    pub fn create_new_kakisute_with_file_name(&self) -> (created: Result<(), SessionError>) {
        let suffix = self.new_filename.get();
        let outcome = self.service.create_kakisute(Some(suffix));
        crate::input_handler::without_name(outcome)
    }

    /// Creates a note with the default name. The storage decides whether that
    /// succeeds; of its answer the success or the failure is handed on, not
    /// the name.
    pub fn create_new_kakisute(&self) -> (created: Result<(), SessionError>) {
        let outcome = self.service.create_kakisute(None);
        crate::input_handler::without_name(outcome)
    }

    /// Deletes the selected note and returns its identifier. Fails with
    /// `NoSelection`, without reaching the storage, when nothing is selected;
    /// otherwise the storage decides.
    pub fn delete_kakisute(&self) -> (deleted: Result<String, SessionError>)
        requires
            self.wf(),
        ensures
            self@.selected() is None ==> deleted == Err::<String, SessionError>(
                SessionError::NoSelection,
            ),
    {
        match self.filtered_list.get_original_index() {
            Ok(index) => self.service.delete_by_index(index),
            Err(e) => Err(e),
        }
    }

    /// Whether a note is selected.
    pub fn is_kakisute_selected(&self) -> (selected: bool)
        ensures
            selected == (self@.filtered.cursor.position is Some),
    {
        self.filtered_list.is_some()
    }

    /// The active mode.
    pub fn get_mode(&self) -> (mode: &Mode)
        ensures
            *mode == self@.mode,
    {
        &self.mode
    }

    /// Appends a character to the text buffer of the active mode; does nothing
    /// in a mode that has none.
    pub fn push_text_input(&mut self, c: char)
        ensures
            final(self)@ == old(self)@.push_text(c),
    {
        match self.mode {
            Mode::Insert => self.new_filename.push(c),
            Mode::Search => self.search_query.push(c),
            _ => {},
        }
    }

    /// Takes the last character back from the text buffer of the active mode;
    /// does nothing in a mode that has none, or on an empty buffer.
    pub fn pop_text_input(&mut self)
        ensures
            final(self)@ == old(self)@.pop_text(),
    {
        match self.mode {
            Mode::Insert => {
                self.new_filename.pop();
            },
            Mode::Search => {
                self.search_query.pop();
            },
            _ => {},
        }
    }

    /// Records that the session is over.
    pub fn exit(&mut self)
        ensures
            final(self)@ == (AppView { exit: true, ..old(self)@ }),
    {
        self.exit = true
    }

    /// Whether the session is over.
    pub fn is_exited(&self) -> (exited: bool)
        ensures
            exited == self@.exit,
    {
        self.exit
    }

    /// A snapshot for drawing: the cursor, the mode, the identifiers of the
    /// visible notes, the content of the selected note and the two buffers.
    /// Reading the selected note may fill the cache.
    pub fn generate_info(&mut self) -> (info: Info)
        requires
            old(self).wf(),
        ensures
            final(self).wf(),
            final(self)@ == (AppView { cache: final(self)@.cache, ..old(self)@ }),
            cache_extends(old(self)@.cache, final(self)@.cache),
            selected_read(old(self)@.cache, final(self)@.cache, old(self)@.selected()),
            info.index == match old(self)@.filtered.cursor.position {
                Some(p) => Some(p as usize),
                None => None,
            },
            info.mode == old(self)@.mode,
            texts(info.kakisute_list@) == old(self)@.visible(),
            info.new_filename@ == old(self)@.new_filename,
            info.search_query@ == old(self)@.search_query,
            match old(self)@.selected() {
                None => info.content is None,
                Some(index) => match info.content {
                    Some(text) => final(self)@.cache[index as int] == Some(text@),
                    None => final(self)@.cache[index as int] is None,
                },
            },
    {
        let content = self.get_selected_kakisute_content();
        proof {
            if let Some(index) = old(self)@.selected() {
                if old(self)@.cache[index as int] is Some {
                    assert(self@.cache =~= old(self)@.cache);
                }
            }
        }
        let kakisute_list = self.visible_names();
        Info {
            index: self.filtered_list.get_index().ok(),
            mode: self.mode,
            kakisute_list,
            content,
            new_filename: self.new_filename.get(),
            search_query: self.search_query.get(),
        }
    }

    /// The identifiers of the visible notes, in their order.
    fn visible_names(&self) -> (visible: Vec<String>)
        requires
            self.wf(),
        ensures
            texts(visible@) == self@.visible(),
    {
        let mut names: Vec<&str> = Vec::new();
        let mut i: usize = 0;
        while i < self.kakisute_name_list.len()
            invariant
                i <= self.kakisute_name_list.len(),
                names@.len() == i,
                forall|k: int| 0 <= k < i ==> (#[trigger] names@[k])@ == self.kakisute_name_list@[k]@,
            decreases self.kakisute_name_list.len() - i,
        {
            names.push(self.kakisute_name_list[i].as_str());
            i = i + 1;
        }
        let ghost all = names@;
        let picked = self.filtered_list.get_kakisute_file_name_list(names);
        proof {
            lemma_visible_names_within(self@.filtered.mapping, all);
        }
        let mut visible: Vec<String> = Vec::new();
        let mut k: usize = 0;
        while k < picked.len()
            invariant
                k <= picked.len(),
                visible@.len() == k,
                forall|j: int| 0 <= j < k ==> (#[trigger] visible@[j])@ == picked@[j]@,
            decreases picked.len() - k,
        {
            visible.push(String::from_str(picked[k]));
            k = k + 1;
        }
        assert(texts(visible@) =~= self@.visible());
        visible
    }
}

/// How reading the selected note changes the cache: not at all, or the empty
/// place of the selected note is filled and every other place stays.
pub open spec fn selected_read(
    before: Seq<Option<Seq<char>>>,
    after: Seq<Option<Seq<char>>>,
    selected: Option<usize>,
) -> bool {
    match selected {
        None => after == before,
        Some(index) => after == before || (before[index as int] is None && after[index as int]
            is Some && after == before.update(index as int, after[index as int])),
    }
}

} // verus!
