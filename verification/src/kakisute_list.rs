//! The list of stored notes, by identifier, in the order of their creation.
//! A file is a note if its name starts with the time of its creation.

use crate::datetime_helper::created_at_of;
use crate::datetime_helper::string_to_datetime;
use crate::filtered_list::texts;
use crate::service::SingleQuery;
use vstd::multiset::Multiset;
use vstd::prelude::*;
use vstd::utf8::encode_utf8;

verus! {

/// The identifiers of the stored notes, the oldest first, and those of one
/// second by their identifiers.
#[derive(Clone, Debug)]
pub struct KakisuteList {
    files: Vec<String>,
}

impl View for KakisuteList {
    type V = Seq<Seq<char>>;

    closed spec fn view(&self) -> Seq<Seq<char>> {
        Seq::new(self.files@.len(), |i: int| self.files@[i]@)
    }
}

/// The position of the first note with the given identifier.
pub open spec fn first_position(names: Seq<Seq<char>>, wanted: Seq<char>) -> Option<usize> {
    if exists|i: int| 0 <= i < names.len() && names[i] == wanted {
        let first = choose|i: int|
            0 <= i < names.len() && names[i] == wanted && forall|j: int|
                0 <= j < i ==> names[j] != wanted;
        Some(first as usize)
    } else {
        None
    }
}

/// The position that a query asks for: that of the first note with the name
/// given; without a name, that of the newest note if the newest is asked for
/// and there is one.
pub open spec fn matching_index(names: Seq<Seq<char>>, is_latest: bool, file_name: Option<Seq<char>>) -> Option<
    usize,
> {
    match file_name {
        Some(wanted) => first_position(names, wanted),
        None => if is_latest && names.len() > 0 {
            Some((names.len() - 1) as usize)
        } else {
            None
        },
    }
}

/// The order of byte strings in which the first differing byte decides, and
/// a string comes before those that it starts.
pub open spec fn bytes_le(left: Seq<u8>, right: Seq<u8>) -> bool
    decreases left.len(),
{
    if left.len() == 0 {
        true
    } else if right.len() == 0 {
        false
    } else if left[0] == right[0] {
        bytes_le(left.skip(1), right.skip(1))
    } else {
        left[0] < right[0]
    }
}

/// The order of texts by their bytes.
pub open spec fn name_le(left: Seq<char>, right: Seq<char>) -> bool {
    bytes_le(encode_utf8(left), encode_utf8(right))
}

/// The time of creation that an identifier carries, as one number; zero for
/// an identifier that carries none.
#[verifier::opaque]
pub open spec fn creation_key(file_name: Seq<char>) -> nat {
    match created_at_of(file_name) {
        Some(instant) => instant.number(),
        None => 0,
    }
}

/// The order of notes: the older note first, and of two notes created in
/// the same second the one whose identifier comes first.
pub open spec fn note_le(left: Seq<char>, right: Seq<char>) -> bool {
    creation_key(left) < creation_key(right) || (creation_key(left) == creation_key(right)
        && name_le(left, right))
}

/// No note stands before one that precedes it.
pub open spec fn sorted(names: Seq<Seq<char>>) -> bool {
    forall|i: int, j: int| 0 <= i < j < names.len() ==> note_le(names[i], names[j])
}

/// The candidates that are notes, each as often as it is given: those that
/// carry a time of creation.
pub open spec fn notes_among(candidates: Seq<Seq<char>>) -> Multiset<Seq<char>>
    decreases candidates.len(),
{
    if candidates.len() == 0 {
        Multiset::empty()
    } else {
        let before = notes_among(candidates.drop_last());
        if created_at_of(candidates.last()) is Some {
            before.insert(candidates.last())
        } else {
            before
        }
    }
}

/// In a list of notes, none is newer than the last: the note that a query for
/// the latest finds.
pub proof fn lemma_last_is_latest(names: Seq<Seq<char>>, position: int)
    requires
        sorted(names),
        0 <= position < names.len(),
    ensures
        matching_index(names, true, None) == Some((names.len() - 1) as usize),
        creation_key(names[position]) <= creation_key(names[names.len() - 1]),
{
    if position < names.len() - 1 {
        assert(note_le(names[position], names[names.len() - 1]));
    }
}

/// Of two byte strings, one stands before the other.
pub proof fn lemma_bytes_le_total(left: Seq<u8>, right: Seq<u8>)
    ensures
        bytes_le(left, right) || bytes_le(right, left),
    decreases left.len(),
{
    if left.len() > 0 && right.len() > 0 && left[0] == right[0] {
        lemma_bytes_le_total(left.skip(1), right.skip(1));
    }
}

/// What stands before a byte string stands before all that the string stands
/// before.
pub proof fn lemma_bytes_le_transitive(first: Seq<u8>, second: Seq<u8>, third: Seq<u8>)
    requires
        bytes_le(first, second),
        bytes_le(second, third),
    ensures
        bytes_le(first, third),
    decreases first.len(),
{
    if first.len() > 0 && second.len() > 0 && third.len() > 0 {
        if first[0] == second[0] && second[0] == third[0] {
            lemma_bytes_le_transitive(first.skip(1), second.skip(1), third.skip(1));
        }
    }
}

/// The time of creation that an identifier carries, as one number.
fn key_of(file_name: &str) -> (key: u64)
    ensures
        key == creation_key(file_name@),
{
    proof {
        reveal(creation_key);
    }
    match string_to_datetime(file_name) {
        Some(created_at) => created_at.number(),
        None => 0,
    }
}

/// Whether the note `left` stands before the note `right`, or is the same.
fn note_precedes(left: &str, right: &str) -> (first: bool)
    ensures
        first == note_le(left@, right@),
{
    let l = key_of(left);
    let r = key_of(right);
    l < r || (l == r && precedes(left, right))
}

/// Whether the text `left` stands before the text `right`, or is equal to it.
fn precedes(left: &str, right: &str) -> (first: bool)
    ensures
        first == name_le(left@, right@),
{
    let a = left.as_bytes();
    let b = right.as_bytes();
    let mut i: usize = 0;
    proof {
        assert(a@.skip(0) =~= a@);
        assert(b@.skip(0) =~= b@);
    }
    while i < a.len() && i < b.len()
        invariant
            i <= a.len(),
            i <= b.len(),
            a@ == encode_utf8(left@),
            b@ == encode_utf8(right@),
            bytes_le(a@, b@) == bytes_le(a@.skip(i as int), b@.skip(i as int)),
        decreases a.len() - i,
    {
        proof {
            assert(a@.skip(i as int)[0] == a@[i as int]);
            assert(b@.skip(i as int)[0] == b@[i as int]);
            assert(a@.skip(i as int).skip(1) =~= a@.skip(i + 1));
            assert(b@.skip(i as int).skip(1) =~= b@.skip(i + 1));
        }
        if a[i] != b[i] {
            return a[i] < b[i];
        }
        i = i + 1;
    }
    i == a.len()
}

/// Puts a name into a sorted list, at its place.
fn insert_sorted(names: &mut Vec<String>, name: String)
    requires
        sorted(texts(old(names)@)),
    ensures
        sorted(texts(final(names)@)),
        texts(final(names)@).to_multiset() == texts(old(names)@).to_multiset().insert(name@),
{
    let mut at: usize = 0;
    while at < names.len() && note_precedes(names[at].as_str(), name.as_str())
        invariant
            at <= names.len(),
            *names == *old(names),
            forall|k: int| 0 <= k < at ==> note_le(#[trigger] names@[k]@, name@),
        decreases names.len() - at,
    {
        at = at + 1;
    }
    let ghost before = texts(names@);
    proof {
        if at < names.len() {
            lemma_bytes_le_total(encode_utf8(names@[at as int]@), encode_utf8(name@));
            assert forall|k: int| at <= k < names.len() implies note_le(
                name@,
                #[trigger] names@[k]@,
            ) by {
                if k > at {
                    assert(note_le(before[at as int], before[k]));
                    if creation_key(name@) == creation_key(names@[k]@) {
                        lemma_bytes_le_transitive(
                            encode_utf8(name@),
                            encode_utf8(names@[at as int]@),
                            encode_utf8(names@[k]@),
                        );
                    }
                }
            }
        }
    }
    names.insert(at, name);
    proof {
        let after = texts(names@);
        assert(after =~= before.insert(at as int, name@));
        assert forall|i: int, j: int| 0 <= i < j < after.len() implies note_le(
            after[i],
            after[j],
        ) by {
            if j < at {
                assert(note_le(before[i], before[j]));
            } else if j == at {
                assert(after[i] == before[i]);
            } else if i < at {
                assert(note_le(before[i], before[j - 1]));
            } else if i == at {
                assert(after[j] == before[j - 1]);
            } else {
                assert(note_le(before[i - 1], before[j - 1]));
            }
        }
        assert(after.remove(at as int) =~= before);
        vstd::seq_lib::to_multiset_remove(after, at as int);
        assert(after.to_multiset().count(name@) > 0) by {
            broadcast use vstd::seq_lib::group_to_multiset_ensures;

            assert(after[at as int] == name@);
            assert(after.contains(name@));
        }
        assert(after.to_multiset() =~= before.to_multiset().insert(name@));
    }
}

impl Default for KakisuteList {
    fn default() -> (list: KakisuteList)
        ensures
            list.wf(),
            list@ == Seq::<Seq<char>>::empty(),
    {
        KakisuteList::new()
    }
}

impl KakisuteList {
    /// The invariant of every list that this type hands out.
    pub open spec fn wf(&self) -> bool {
        sorted(self@)
    }

    /// The empty list.
    pub fn new() -> (list: KakisuteList)
        ensures
            list.wf(),
            list@ == Seq::<Seq<char>>::empty(),
    {
        let list = KakisuteList { files: Vec::new() };
        assert(list@ =~= Seq::<Seq<char>>::empty());
        list
    }

    /// The list of the notes among the files of a directory, given by
    /// their names: those that start with the time of their creation, the
    /// oldest first, and those of one second by their identifiers.
    pub fn from_dir(candidates: Vec<String>) -> (list: KakisuteList)
        ensures
            list.wf(),
            list@.to_multiset() == notes_among(texts(candidates@)),
    {
        let mut files: Vec<String> = Vec::new();
        let mut i: usize = 0;
        assert(texts(files@).to_multiset() =~= notes_among(texts(candidates@).take(0))) by {
            broadcast use vstd::seq_lib::group_to_multiset_ensures;

            assert(texts(files@).len() == 0);
        }
        while i < candidates.len()
            invariant
                i <= candidates.len(),
                sorted(texts(files@)),
                texts(files@).to_multiset() == notes_among(texts(candidates@).take(i as int)),
            decreases candidates.len() - i,
        {
            proof {
                let next = texts(candidates@).take(i + 1);
                assert(next.drop_last() =~= texts(candidates@).take(i as int));
                assert(next.last() == candidates@[i as int]@);
            }
            if string_to_datetime(candidates[i].as_str()).is_some() {
                insert_sorted(&mut files, candidates[i].clone());
            }
            i = i + 1;
        }
        proof {
            assert(texts(candidates@).take(i as int) =~= texts(candidates@));
        }
        let list = KakisuteList { files };
        assert(list@ =~= texts(files@));
        list
    }

    /// Puts the notes among the files of a directory in place of the list.
    pub fn reload(&mut self, candidates: Vec<String>)
        ensures
            final(self).wf(),
            final(self)@.to_multiset() == notes_among(texts(candidates@)),
    {
        *self = KakisuteList::from_dir(candidates);
    }

    /// The number of notes.
    pub fn len(&self) -> (count: usize)
        ensures
            count == self@.len(),
    {
        self.files.len()
    }

    /// Whether there is no note.
    pub fn is_empty(&self) -> (empty: bool)
        ensures
            empty == (self@.len() == 0),
    {
        self.len() == 0
    }

    /// The identifiers, in the list's order.
    pub fn get_kakisute_file_name_list(&self) -> (names: Vec<String>)
        ensures
            texts(names@) == self@,
    {
        let mut names: Vec<String> = Vec::new();
        let mut i: usize = 0;
        while i < self.files.len()
            invariant
                i <= self.files.len(),
                names@.len() == i,
                forall|k: int| 0 <= k < i ==> (#[trigger] names@[k])@ == self.files@[k]@,
            decreases self.files.len() - i,
        {
            names.push(self.files[i].clone());
            i = i + 1;
        }
        assert(texts(names@) =~= self@);
        names
    }

    /// The identifier of the note at `index`, if there is one.
    pub fn get_file_name_by_index(&self, index: usize) -> (name: Option<String>)
        ensures
            match name {
                Some(text) => index < self@.len() && text@ == self@[index as int],
                None => index >= self@.len(),
            },
    {
        if index < self.files.len() {
            Some(self.files[index].clone())
        } else {
            None
        }
    }

    /// The position of the note that a query asks for.
    pub fn get_matching_index(&self, query: SingleQuery) -> (index: Option<usize>)
        ensures
            index == matching_index(
                self@,
                query.is_latest,
                match query.file_name {
                    Some(name) => Some(name@),
                    None => None,
                },
            ),
            index matches Some(position) ==> position < self@.len(),
    {
        match query.file_name {
            Some(file_name) => self.get_index_by_file_name(&file_name),
            None => {
                if query.is_latest && self.files.len() > 0 {
                    Some(self.files.len() - 1)
                } else {
                    None
                }
            },
        }
    }

    /// The identifier of the note that a query asks for.
    pub fn single_select(&self, query: SingleQuery) -> (name: Option<String>)
        ensures
            match matching_index(
                self@,
                query.is_latest,
                match query.file_name {
                    Some(name) => Some(name@),
                    None => None,
                },
            ) {
                Some(index) => name matches Some(text) && index < self@.len() && text@
                    == self@[index as int],
                None => name is None,
            },
    {
        match self.get_matching_index(query) {
            Some(index) => self.get_file_name_by_index(index),
            None => None,
        }
    }

    /// The position of the first note with the given identifier.
    fn get_index_by_file_name(&self, file_name: &String) -> (index: Option<usize>)
        ensures
            index == first_position(self@, file_name@),
            index matches Some(position) ==> position < self@.len() && self@[position as int]
                == file_name@,
    {
        let mut i: usize = 0;
        while i < self.files.len()
            invariant
                i <= self.files.len(),
                forall|j: int| 0 <= j < i ==> self@[j] != file_name@,
            decreases self.files.len() - i,
        {
            if self.files[i] == *file_name {
                proof {
                    let first = choose|k: int|
                        0 <= k < self@.len() && self@[k] == file_name@ && forall|j: int|
                            0 <= j < k ==> self@[j] != file_name@;
                    assert(self@[i as int] == file_name@);
                    assert(first == i) by {
                        if first < i {
                            assert(self@[first] != file_name@);
                        } else if first > i {
                            assert(self@[i as int] != file_name@);
                        }
                    }
                }
                return Some(i);
            }
            i = i + 1;
        }
        None
    }
}

} // verus!
