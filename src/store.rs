//! An in-process todo store: the collection, the four operations on it, and
//! what holds of them taken together.

use vstd::prelude::*;
use crate::error::AppError;
use crate::ids::{decimal, decimal_string, lemma_decimal_injective, lemma_decimal_len};
use crate::todo::{Todo, TodoView, views};

verus! {

/// Some todo in `s` has identifier `id`.
pub open spec fn has_id(s: Seq<TodoView>, id: Seq<char>) -> bool {
    exists|i: int| 0 <= i < s.len() && #[trigger] s[i].id == id
}

/// No two todos of `s` share an identifier.
pub open spec fn distinct_ids(s: Seq<TodoView>) -> bool {
    forall|i: int, j: int|
        0 <= i < s.len() && 0 <= j < s.len() && #[trigger] s[i].id == #[trigger] s[j].id ==> i
            == j
}

/// Where in `s` the todo with identifier `id` stands.
pub open spec fn position(s: Seq<TodoView>, id: Seq<char>) -> int {
    choose|i: int| 0 <= i < s.len() && #[trigger] s[i].id == id
}

/// `s` with the content of the todo `id` replaced by `content`.
pub open spec fn with_content(s: Seq<TodoView>, id: Seq<char>, content: Seq<char>) -> Seq<
    TodoView,
> {
    s.update(position(s, id), TodoView { id, content })
}

/// `s` without the todo `id`.
pub open spec fn without(s: Seq<TodoView>, id: Seq<char>) -> Seq<TodoView> {
    s.remove(position(s, id))
}

/// `id` is the numeral of a number below `n`.
pub open spec fn handed_out(id: Seq<char>, n: nat) -> bool {
    exists|k: nat| k < n && #[trigger] decimal(k) == id
}

/// The message of a lookup of an unknown identifier.
pub const NOT_FOUND_MESSAGE: &'static str = "Todo item not found";

/// The message of a create once every identifier has been handed out.
pub const EXHAUSTED_MESSAGE: &'static str = "no identifier is left for a new todo";

/// The todos, in order of creation, and the count of identifiers handed out.
pub struct TodoStore {
    records: Vec<Todo>,
    issued: u64,
}

impl View for TodoStore {
    type V = Seq<TodoView>;

    closed spec fn view(&self) -> Seq<TodoView> {
        views(self.records@)
    }
}

impl TodoStore {
    /// How many identifiers the store has handed out.
    pub closed spec fn issued(&self) -> nat {
        self.issued as nat
    }

    /// Identifiers are distinct, each one handed out earlier.
    pub closed spec fn wf(&self) -> bool {
        &&& distinct_ids(self@)
        &&& forall|i: int|
            0 <= i < self.records@.len() ==> handed_out(#[trigger] self.records@[i].id@, self.issued as nat)
    }

    /// A well-formed store has distinct identifiers.
    pub proof fn lemma_distinct(&self)
        requires
            self.wf(),
        ensures
            distinct_ids(self@),
    {
    }

    /// An empty store.
    pub fn new() -> (r: TodoStore)
        ensures
            r.wf(),
            r@ == Seq::<TodoView>::empty(),
            r.issued() == 0,
    {
        let r = TodoStore { records: Vec::new(), issued: 0 };
        assert(r@ =~= Seq::<TodoView>::empty());
        r
    }

    /// The number of todos.
    pub fn len(&self) -> (r: usize)
        ensures
            r == self@.len(),
    {
        self.records.len()
    }

    /// Every todo, in order of creation.
    pub fn list(&self) -> (r: Vec<Todo>)
        ensures
            views(r@) == self@,
    {
        let mut r: Vec<Todo> = Vec::new();
        let mut i: usize = 0;
        while i < self.records.len()
            invariant
                i <= self.records@.len(),
                r@.len() == i,
                forall|j: int| 0 <= j < i ==> #[trigger] r@[j] == self.records@[j],
            decreases self.records@.len() - i,
        {
            r.push(self.records[i].duplicate());
            i = i + 1;
        }
        assert(views(r@) =~= self@);
        r
    }

    /// The index of the todo `id`, if there is one.
    fn find(&self, id: &String) -> (r: Option<usize>)
        requires
            self.wf(),
        ensures
            match r {
                Some(i) => i < self@.len() && i == position(self@, id@) && has_id(self@, id@),
                None => !has_id(self@, id@),
            },
    {
        let mut i: usize = 0;
        while i < self.records.len()
            invariant
                i <= self.records@.len(),
                self.wf(),
                forall|j: int| 0 <= j < i ==> self.records@[j].id@ != id@,
            decreases self.records@.len() - i,
        {
            if self.records[i].id == *id {
                proof {
                    assert(self@[i as int] == self.records@[i as int]@);
                    assert(self@[i as int].id == id@);
                    assert(has_id(self@, id@));
                    let p = position(self@, id@);
                    assert(0 <= p < self@.len() && self@[p].id == id@);
                    assert(distinct_ids(self@));
                    assert(self@[p].id == self@[i as int].id);
                }
                return Some(i);
            }
            i = i + 1;
        }
        proof {
            assert forall|j: int| 0 <= j < self@.len() implies self@[j].id != id@ by {
                assert(self@[j] == self.records@[j]@);
            }
        }
        None
    }

    /// Stores a new todo with `content` under an identifier that no todo of
    /// the store has (the numeral of the count handed out so far), and
    /// returns it. Fails, leaving the store as it was, only
    /// once every identifier has been handed out.
    pub fn create(&mut self, content: String) -> (r: Result<Todo, AppError>)
        requires
            old(self).wf(),
        ensures
            final(self).wf(),
            old(self).issued() < u64::MAX ==> {
                &&& r is Ok
                &&& final(self).issued() == old(self).issued() + 1
            },
            old(self).issued() == u64::MAX ==> {
                &&& r is Err
                &&& r->Err_0 is StoreError
                &&& final(self)@ == old(self)@
                &&& final(self).issued() == old(self).issued()
            },
            r matches Ok(t) ==> {
                &&& t.content == content
                &&& t.id@ == decimal(old(self).issued())
                &&& t.id@.len() > 0
                &&& !has_id(old(self)@, t.id@)
                &&& final(self)@ == old(self)@.push(t@)
            },
    {
        if self.issued == u64::MAX {
            return Err(AppError::StoreError(String::from_str(EXHAUSTED_MESSAGE)));
        }
        let id = decimal_string(self.issued);
        let ghost fresh = decimal(self.issued as nat);
        proof {
            lemma_decimal_len(self.issued as nat);
            assert forall|i: int| 0 <= i < self@.len() implies self@[i].id != fresh by {
                assert(self@[i] == self.records@[i]@);
                assert(handed_out(self.records@[i].id@, self.issued as nat));
                let k = choose|k: nat| k < self.issued && #[trigger] decimal(k) == self.records@[i].id@;
                if decimal(k) == fresh {
                    lemma_decimal_injective(k, self.issued as nat);
                }
            }
        }
        let t = Todo::new(id, content);
        let ghost before = self@;
        let ghost old_recs = self.records@;
        self.records.push(t.duplicate());
        self.issued = self.issued + 1;
        proof {
            assert(self@ =~= before.push(t@));
            assert forall|i: int|
                0 <= i < self.records@.len() implies handed_out(#[trigger] self.records@[i].id@, self.issued as nat) by {
                if i < old_recs.len() {
                    assert(self.records@[i] == old_recs[i]);
                    assert(handed_out(old_recs[i].id@, (self.issued - 1) as nat));
                    let k = choose|k: nat| k < self.issued - 1 && #[trigger] decimal(k) == old_recs[i].id@;
                    assert(decimal(k) == self.records@[i].id@);
                } else {
                    assert(decimal((self.issued - 1) as nat) == self.records@[i].id@);
                }
            }
        }
        Ok(t)
    }

    /// Replaces the content of the todo `id` and returns the todo as it now
    /// is; `NotFound`, with the store unchanged, where no todo has that
    /// identifier.
    pub fn update(&mut self, id: &String, content: String) -> (r: Result<Todo, AppError>)
        requires
            old(self).wf(),
        ensures
            final(self).wf(),
            final(self).issued() == old(self).issued(),
            has_id(old(self)@, id@) ==> {
                &&& r matches Ok(t)
                &&& t.id@ == id@
                &&& t.content == content
                &&& final(self)@ == with_content(old(self)@, id@, content@)
            },
            !has_id(old(self)@, id@) ==> {
                &&& r is Err
                &&& r->Err_0 is NotFound
                &&& final(self)@ == old(self)@
            },
    {
        match self.find(id) {
            None => Err(AppError::NotFound(String::from_str(NOT_FOUND_MESSAGE))),
            Some(i) => {
                let t = Todo::new(id.clone(), content);
                let ghost before = self@;
                let ghost old_recs = self.records@;
                self.records.set(i, t.duplicate());
                proof {
                    assert(self@ =~= with_content(before, id@, t.content@));
                    assert forall|j: int|
                        0 <= j < self.records@.len() implies handed_out(#[trigger] self.records@[j].id@, self.issued as nat) by {
                        assert(self.records@[j].id@ == old_recs[j].id@);
                        assert(handed_out(old_recs[j].id@, self.issued as nat));
                    }
                }
                Ok(t)
            },
        }
    }

    /// Removes the todo `id` and returns it; `NotFound`, with the store
    /// unchanged, where no todo has that identifier.
    pub fn delete(&mut self, id: &String) -> (r: Result<Todo, AppError>)
        requires
            old(self).wf(),
        ensures
            final(self).wf(),
            final(self).issued() == old(self).issued(),
            has_id(old(self)@, id@) ==> {
                &&& r matches Ok(t)
                &&& t@ == old(self)@[position(old(self)@, id@)]
                &&& final(self)@ == without(old(self)@, id@)
            },
            !has_id(old(self)@, id@) ==> {
                &&& r is Err
                &&& r->Err_0 is NotFound
                &&& final(self)@ == old(self)@
            },
    {
        match self.find(id) {
            None => Err(AppError::NotFound(String::from_str(NOT_FOUND_MESSAGE))),
            Some(i) => {
                let ghost before = self@;
                let ghost old_recs = self.records@;
                let t = self.records.remove(i);
                proof {
                    assert(self@ =~= without(before, id@));
                    assert(t@ == before[i as int]);
                    assert forall|j: int|
                        0 <= j < self.records@.len() implies handed_out(#[trigger] self.records@[j].id@, self.issued as nat) by {
                        let o = if j < i { j } else { j + 1 };
                        assert(self.records@[j] == old_recs[o]);
                        assert(handed_out(old_recs[o].id@, self.issued as nat));
                    }
                    assert forall|a: int, b: int|
                        0 <= a < self@.len() && 0 <= b < self@.len() && #[trigger] self@[a].id
                            == #[trigger] self@[b].id implies a == b by {
                        let oa = if a < i { a } else { a + 1 };
                        let ob = if b < i { b } else { b + 1 };
                        assert(self@[a] == before[oa]);
                        assert(self@[b] == before[ob]);
                    }
                }
                Ok(t)
            },
        }
    }
}

} // verus!
