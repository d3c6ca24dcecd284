//! An in-memory task store: records keyed by task id, held in submission
//! order. It offers the same interface a document store would — insert with a
//! unique-id constraint, update by id, find by id, list all — with each
//! operation's effect stated exactly.

use vstd::prelude::*;

use crate::models::Task;

verus! {

/// A failure of a store operation.
#[derive(Clone, Copy, Debug, PartialEq, Eq, Structural)]
pub enum StoreError {
    /// `insert` found a record with the same id already present.
    DuplicateKey,
    /// `update` found no record with the given id.
    NotFound,
}

/// Some record in `s` carries `id`.
pub open spec fn contains_id(s: Seq<Task>, id: u64) -> bool {
    exists|i: int| 0 <= i < s.len() && (#[trigger] s[i]).id == id
}

/// No two records in `s` share an id.
pub open spec fn ids_unique(s: Seq<Task>) -> bool {
    forall|i: int, j: int| 0 <= i < j < s.len() ==> (#[trigger] s[i]).id != (#[trigger] s[j]).id
}

/// The task store. Its view is the sequence of records in insertion order.
pub struct Store {
    tasks: Vec<Task>,
}

impl View for Store {
    type V = Seq<Task>;

    closed spec fn view(&self) -> Seq<Task> {
        self.tasks@
    }
}

impl Store {
    pub fn new() -> (s: Store)
        ensures
            s@ == Seq::<Task>::empty(),
    {
        Store { tasks: Vec::new() }
    }

    pub fn len(&self) -> (n: usize)
        ensures
            n == self@.len(),
    {
        self.tasks.len()
    }

    /// Borrows all records, in insertion order.
    pub fn tasks(&self) -> (v: &Vec<Task>)
        ensures
            v@ == self@,
    {
        &self.tasks
    }

    /// A copy of all records, in insertion order.
    pub fn find_all(&self) -> (v: Vec<Task>)
        ensures
            v@ == self@,
    {
        let n = self.tasks.len();
        let mut out: Vec<Task> = Vec::new();
        let mut i: usize = 0;
        while i < n
            invariant
                i <= n,
                n == self@.len(),
                out@ == self@.take(i as int),
            decreases n - i,
        {
            out.push(self.tasks[i]);
            proof {
                assert(out@ =~= self@.take(i as int + 1));
            }
            i = i + 1;
        }
        proof {
            assert(self@.take(n as int) =~= self@);
        }
        out
    }

    /// The record at position `i` in insertion order.
    pub fn get(&self, i: usize) -> (t: Task)
        requires
            i < self@.len(),
        ensures
            t == self@[i as int],
    {
        self.tasks[i]
    }

    /// Looks up the first record carrying `id` — the only one, wherever the
    /// unique-id constraint holds.
    pub fn find_by_id(&self, id: u64) -> (r: Option<Task>)
        ensures
            r is Some <==> contains_id(self@, id),
            r matches Some(t) ==> t.id == id && exists|i: int|
                0 <= i < self@.len() && #[trigger] self@[i] == t,
    {
        let n = self.tasks.len();
        let mut i: usize = 0;
        while i < n
            invariant
                i <= n,
                n == self@.len(),
                forall|j: int| 0 <= j < i ==> (#[trigger] self@[j]).id != id,
            decreases n - i,
        {
            if self.tasks[i].id == id {
                return Some(self.tasks[i]);
            }
            i = i + 1;
        }
        None
    }

    /// Inserts a record. Fails with `DuplicateKey`, leaving the store
    /// unchanged, exactly when a record with the same id is already present.
    pub fn insert(&mut self, task: Task) -> (r: Result<(), StoreError>)
        ensures
            contains_id(old(self)@, task.id) ==> r == Err::<(), StoreError>(
                StoreError::DuplicateKey,
            ) && final(self)@ == old(self)@,
            !contains_id(old(self)@, task.id) ==> r == Ok::<(), StoreError>(())
                && final(self)@ == old(self)@.push(task),
    {
        let n = self.tasks.len();
        let mut i: usize = 0;
        while i < n
            invariant
                i <= n,
                n == self@.len(),
                self@ == old(self)@,
                forall|j: int| 0 <= j < i ==> (#[trigger] self@[j]).id != task.id,
            decreases n - i,
        {
            if self.tasks[i].id == task.id {
                return Err(StoreError::DuplicateKey);
            }
            i = i + 1;
        }
        self.tasks.push(task);
        Ok(())
    }

    /// Replaces the record carrying `id`. Fails with `NotFound`, leaving the
    /// store unchanged, exactly when no record carries `id`.
    pub fn update(&mut self, id: u64, updated: Task) -> (r: Result<(), StoreError>)
        requires
            updated.id == id,
        ensures
            r is Ok <==> contains_id(old(self)@, id),
            r is Ok ==> exists|i: int|
                0 <= i < old(self)@.len() && (#[trigger] old(self)@[i]).id == id
                    && final(self)@ == old(self)@.update(i, updated),
            r is Err ==> r == Err::<(), StoreError>(StoreError::NotFound)
                && final(self)@ == old(self)@,
    {
        let n = self.tasks.len();
        let mut i: usize = 0;
        while i < n
            invariant
                i <= n,
                n == self@.len(),
                self@ == old(self)@,
                forall|j: int| 0 <= j < i ==> (#[trigger] self@[j]).id != id,
            decreases n - i,
        {
            if self.tasks[i].id == id {
                self.tasks[i] = updated;
                return Ok(());
            }
            i = i + 1;
        }
        Err(StoreError::NotFound)
    }
}

} // verus!
