//! A cursor over a list whose size is known only at run time.

use crate::error::SessionError;
use vstd::prelude::*;

verus! {

/// The mathematical value of a cursor: the size of the list it walks and the
/// selected position, if any.
pub struct Cursor {
    pub position: Option<nat>,
    pub size: nat,
}

impl Cursor {
    /// The cursor of a freshly shown list: the first entry, or nothing when
    /// the list is empty.
    pub open spec fn fresh(size: nat) -> Cursor {
        Cursor { position: if size == 0 { None } else { Some(0nat) }, size }
    }

    /// Nothing is selected exactly when the list is empty, and a selected
    /// position lies inside the list.
    pub open spec fn wf(self) -> bool {
        match self.position {
            None => self.size == 0,
            Some(p) => p < self.size,
        }
    }

    /// One step forward, from the last entry back to the first.
    pub open spec fn increment(self) -> Cursor {
        match self.position {
            None => self,
            Some(p) => Cursor { position: Some((((p + 1) as int) % (self.size as int)) as nat), size: self.size },
        }
    }

    /// One step backward, from the first entry on to the last.
    pub open spec fn decrement(self) -> Cursor {
        match self.position {
            None => self,
            Some(p) => Cursor {
                position: Some((((p + self.size - 1) as int) % (self.size as int)) as nat),
                size: self.size,
            },
        }
    }

    /// A jump of `n` entries forward that stops at the last entry.
    pub open spec fn increment_n(self, n: nat) -> Cursor {
        match self.position {
            None => self,
            Some(p) => Cursor {
                position: Some(if p + n > self.size - 1 { (self.size - 1) as nat } else { p + n }),
                size: self.size,
            },
        }
    }

    /// A jump of `n` entries backward that stops at the first entry.
    pub open spec fn decrement_n(self, n: nat) -> Cursor {
        match self.position {
            None => self,
            Some(p) => Cursor {
                position: Some(if p < n { 0nat } else { (p - n) as nat }),
                size: self.size,
            },
        }
    }

    /// `count` single steps forward.
    pub open spec fn increment_times(self, count: nat) -> Cursor
        decreases count,
    {
        if count == 0 {
            self
        } else {
            self.increment_times((count - 1) as nat).increment()
        }
    }

    /// `count` single steps backward.
    pub open spec fn decrement_times(self, count: nat) -> Cursor
        decreases count,
    {
        if count == 0 {
            self
        } else {
            self.decrement_times((count - 1) as nat).decrement()
        }
    }
}

/// A bounds-safe cursor over a list of `size` entries.
pub struct ListIndex {
    index: Option<usize>,
    size: usize,
}

impl View for ListIndex {
    type V = Cursor;

    closed spec fn view(&self) -> Cursor {
        Cursor {
            position: match self.index {
                None => None,
                Some(i) => Some(i as nat),
            },
            size: self.size as nat,
        }
    }
}

impl ListIndex {
    /// The invariant of every cursor that this type hands out.
    pub open spec fn wf(&self) -> bool {
        self@.wf()
    }

    /// A cursor on the first of `size` entries, or on nothing when `size` is 0.
    pub fn new(size: usize) -> (cursor: ListIndex)
        ensures
            cursor.wf(),
            cursor@ == Cursor::fresh(size as nat),
            cursor@.position is None <==> size == 0,
    {
        let index = if size == 0 { None } else { Some(0) };
        ListIndex { index, size }
    }

    /// Moves to the next entry; from the last entry to the first.
    pub fn increment(&mut self)
        requires
            old(self).wf(),
        ensures
            final(self).wf(),
            final(self)@ == old(self)@.increment(),
    {
        match self.index {
            None => {},
            Some(i) => {
                self.index = Some((i + 1) % self.size);
            },
        }
    }

    /// Moves `n` entries forward and stops at the last entry.
    pub fn increment_n(&mut self, n: u16)
        requires
            old(self).wf(),
        ensures
            final(self).wf(),
            final(self)@ == old(self)@.increment_n(n as nat),
            final(self)@.position matches Some(p) ==> p <= old(self)@.size - 1,
    {
        match self.index {
            None => {},
            Some(i) => {
                let last: usize = self.size - 1;
                if n as usize > last - i {
                    self.index = Some(last);
                } else {
                    self.index = Some(i + n as usize);
                }
            },
        }
    }

    /// Moves to the previous entry; from the first entry to the last.
    pub fn decrement(&mut self)
        requires
            old(self).wf(),
        ensures
            final(self).wf(),
            final(self)@ == old(self)@.decrement(),
    {
        match self.index {
            None => {},
            Some(i) => {
                proof {
                    lemma_step_back(i as int, self.size as int);
                }
                if i == 0 {
                    self.index = Some(self.size - 1);
                } else {
                    self.index = Some(i - 1);
                }
            },
        }
    }

    /// Moves `n` entries backward and stops at the first entry.
    pub fn decrement_n(&mut self, n: u16)
        requires
            old(self).wf(),
        ensures
            final(self).wf(),
            final(self)@ == old(self)@.decrement_n(n as nat),
    {
        match self.index {
            None => {},
            Some(i) => {
                if i < n as usize {
                    self.index = Some(0);
                } else {
                    self.index = Some(i - n as usize);
                }
            },
        }
    }

    /// Whether an entry is selected.
    pub fn is_some(&self) -> (selected: bool)
        ensures
            selected == (self@.position is Some),
    {
        self.index.is_some()
    }

    /// Whether no entry is selected.
    pub fn is_none(&self) -> (empty: bool)
        ensures
            empty == (self@.position is None),
    {
        self.index.is_none()
    }

    /// The selected position, or `NoSelection` when there is none.
    pub fn get_index(&self) -> (position: Result<usize, SessionError>)
        ensures
            position == match self@.position {
                Some(p) => Ok::<usize, SessionError>(p as usize),
                None => Err::<usize, SessionError>(SessionError::NoSelection),
            },
            position matches Ok(p) ==> self@.position == Some(p as nat),
    {
        match self.index {
            Some(i) => Ok(i),
            None => Err(SessionError::NoSelection),
        }
    }
}

/// Stepping back from `p` in a list of `size` entries: the last entry from the
/// first, else the entry before.
proof fn lemma_step_back(p: int, size: int)
    requires
        0 <= p < size,
    ensures
        (p + size - 1) % size == if p == 0 { size - 1 } else { p - 1 },
{
    if p == 0 {
        vstd::arithmetic::div_mod::lemma_small_mod((size - 1) as nat, size as nat);
    } else {
        vstd::arithmetic::div_mod::lemma_mod_add_multiples_vanish(p - 1, size);
        vstd::arithmetic::div_mod::lemma_small_mod((p - 1) as nat, size as nat);
    }
}

/// Where `count` steps forward lead from a selected position: `count` places
/// further, counted round the list.
pub proof fn lemma_increment_times(c: Cursor, count: nat)
    requires
        c.wf(),
        c.position is Some,
    ensures
        c.increment_times(count) == (Cursor {
            position: Some((((c.position.unwrap() + count) as int) % (c.size as int)) as nat),
            size: c.size,
        }),
    decreases count,
{
    let p = c.position.unwrap() as int;
    let s = c.size as int;
    if count == 0 {
        vstd::arithmetic::div_mod::lemma_small_mod(p as nat, s as nat);
    } else {
        lemma_increment_times(c, (count - 1) as nat);
        vstd::arithmetic::div_mod::lemma_add_mod_noop_right(1, p + count - 1, s);
        assert(((p + count - 1) % s + 1) % s == (p + count) % s);
    }
}

/// Where `count` steps backward lead from a selected position: `count` places
/// back, counted round the list.
pub proof fn lemma_decrement_times(c: Cursor, count: nat)
    requires
        c.wf(),
        c.position is Some,
    ensures
        c.decrement_times(count) == (Cursor {
            position: Some((((c.position.unwrap() - count) as int) % (c.size as int)) as nat),
            size: c.size,
        }),
    decreases count,
{
    let p = c.position.unwrap() as int;
    let s = c.size as int;
    if count == 0 {
        vstd::arithmetic::div_mod::lemma_small_mod(p as nat, s as nat);
    } else {
        lemma_decrement_times(c, (count - 1) as nat);
        let q = (p - (count - 1)) % s;
        vstd::arithmetic::div_mod::lemma_add_mod_noop_right(s - 1, p - (count - 1), s);
        vstd::arithmetic::div_mod::lemma_mod_add_multiples_vanish(p - count, s);
        assert((q + s - 1) % s == (p - count) % s);
    }
}

/// As many steps forward as the list has entries bring the cursor back to
/// where it stood.
pub proof fn lemma_increment_full_cycle(c: Cursor)
    requires
        c.wf(),
    ensures
        c.increment_times(c.size) == c,
{
    match c.position {
        None => {
            assert(c.increment_times(0) == c);
        },
        Some(p) => {
            lemma_increment_times(c, c.size);
            vstd::arithmetic::div_mod::lemma_mod_add_multiples_vanish(p as int, c.size as int);
            vstd::arithmetic::div_mod::lemma_small_mod(p, c.size);
        },
    }
}

/// As many steps backward as the list has entries bring the cursor back to
/// where it stood.
pub proof fn lemma_decrement_full_cycle(c: Cursor)
    requires
        c.wf(),
    ensures
        c.decrement_times(c.size) == c,
{
    match c.position {
        None => {
            assert(c.decrement_times(0) == c);
        },
        Some(p) => {
            lemma_decrement_times(c, c.size);
            vstd::arithmetic::div_mod::lemma_mod_sub_multiples_vanish(p as int, c.size as int);
            vstd::arithmetic::div_mod::lemma_small_mod(p, c.size);
        },
    }
}

/// A jump never leaves the list: forward it ends at the last entry at most,
/// backward at the first, and each keeps a well-formed cursor well-formed.
pub proof fn lemma_jumps_stay_inside(c: Cursor, n: nat)
    requires
        c.wf(),
    ensures
        c.increment_n(n).wf(),
        c.decrement_n(n).wf(),
        c.increment_n(n).position matches Some(p) ==> p <= c.size - 1,
        c.decrement_n(n).position matches Some(p) ==> 0 <= p,
{
}

} // verus!
