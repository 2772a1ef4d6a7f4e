//! Storage-access layer for tasks: an in-memory store holding the rows,
//! keyed by the task id, with the uniqueness constraint as its invariant.
//! The store is handed to the service explicitly; there is no hidden
//! process-wide state.

use vstd::prelude::*;
use crate::error::RepositoryError;
use crate::json::opt_view;
use crate::task::{NewTask, Task, TaskView, UpdateTask};

verus! {

/// Whether some row in the view carries this id.
pub open spec fn has_id(s: Seq<TaskView>, id: Seq<char>) -> bool {
    exists|i: int| 0 <= i < s.len() && s[i].id == id
}

/// The index of the row carrying this id.
pub open spec fn idx_of(s: Seq<TaskView>, id: Seq<char>) -> int {
    choose|i: int| 0 <= i < s.len() && s[i].id == id
}

/// The view a row takes after a partial change set: only fields present in
/// the change set are modified; id and timestamps never change here.
pub open spec fn apply_update(t: TaskView, up: &UpdateTask) -> TaskView {
    TaskView {
        id: t.id,
        title: match up.title {
            Some(s) => s@,
            None => t.title,
        },
        description: match up.description {
            Some(d) => Some(d@),
            None => t.description,
        },
        completed: match up.completed {
            Some(b) => b,
            None => t.completed,
        },
        created_at: t.created_at,
        updated_at: t.updated_at,
    }
}

/// The row a creation persists: the caller-supplied fields plus the
/// generated id and timestamps.
pub open spec fn created_view(new_task: &NewTask, id: Seq<char>, now: Seq<char>) -> TaskView {
    TaskView {
        id: id,
        title: new_task.title@,
        description: opt_view(new_task.description),
        completed: new_task.completed,
        created_at: now,
        updated_at: now,
    }
}

/// In-memory task storage.
pub struct TaskRepository {
    tasks: Vec<Task>,
}

impl View for TaskRepository {
    type V = Seq<TaskView>;

    closed spec fn view(&self) -> Seq<TaskView> {
        Seq::new(self.tasks@.len(), |i: int| self.tasks@[i]@)
    }
}

impl TaskRepository {
    /// Invariant: the uniqueness constraint — no two rows share an id.
    pub open spec fn wf(&self) -> bool {
        forall|i: int, j: int| 0 <= i < j < self@.len() ==> self@[i].id != self@[j].id
    }

    /// An empty store.
    pub fn new() -> (r: Self)
        ensures
            r@ == Seq::<TaskView>::empty(),
            r.wf(),
    {
        let r = TaskRepository { tasks: Vec::new() };
        proof {
            assert(r@ =~= Seq::<TaskView>::empty());
        }
        r
    }

    /// Whether a row with this id exists.
    pub fn contains_id(&self, id: &String) -> (b: bool)
        ensures
            b == has_id(self@, id@),
    {
        let mut i: usize = 0;
        while i < self.tasks.len()
            invariant
                i <= self.tasks.len(),
                forall|k: int| 0 <= k < i ==> self@[k].id != id@,
            decreases self.tasks.len() - i,
        {
            if self.tasks[i].id == *id {
                proof {
                    assert(self@[i as int].id == id@);
                }
                return true;
            }
            i += 1;
        }
        false
    }

    /// Finds the position of the row with this id.
    fn position_of(&self, id: &String) -> (r: Option<usize>)
        requires
            self.wf(),
        ensures
            match r {
                Some(k) => {
                    &&& has_id(self@, id@)
                    &&& k < self@.len()
                    &&& k == idx_of(self@, id@)
                    &&& self@[k as int].id == id@
                },
                None => !has_id(self@, id@),
            },
    {
        let mut i: usize = 0;
        while i < self.tasks.len()
            invariant
                i <= self.tasks.len(),
                forall|k: int| 0 <= k < i ==> self@[k].id != id@,
                self.wf(),
            decreases self.tasks.len() - i,
        {
            if self.tasks[i].id == *id {
                proof {
                    assert(self@[i as int].id == id@);
                    let j = idx_of(self@, id@);
                    assert(0 <= j < self@.len() && self@[j].id == id@);
                    if j < i as int {
                        assert(self@[j].id != self@[i as int].id);
                    }
                    if (i as int) < j {
                        assert(self@[i as int].id != self@[j].id);
                    }
                }
                return Some(i);
            }
            i += 1;
        }
        None
    }

    /// Returns all rows in storage order; an empty list, not an error, when
    /// none exist.
    pub fn find_all(&self) -> (r: Result<Vec<Task>, RepositoryError>)
        ensures
            r matches Ok(ts) && ts.deep_view() == self@,
    {
        let mut out: Vec<Task> = Vec::new();
        let mut i: usize = 0;
        while i < self.tasks.len()
            invariant
                i <= self.tasks.len(),
                out@.len() == i,
                forall|k: int| 0 <= k < i ==> out@[k]@ == self@[k],
            decreases self.tasks.len() - i,
        {
            out.push(self.tasks[i].duplicate());
            i += 1;
        }
        proof {
            assert forall|k: int| 0 <= k < self@.len() implies out.deep_view()[k] == self@[k] by {
                assert(out@[k]@ == self@[k]);
            }
            assert(out.deep_view() =~= self@);
        }
        Ok(out)
    }

    /// Returns the row with this id, or a not-found failure when the id is
    /// absent.
    pub fn find_by_id(&self, id: &String) -> (r: Result<Task, RepositoryError>)
        requires
            self.wf(),
        ensures
            match r {
                Ok(t) => has_id(self@, id@) && t@ == self@[idx_of(self@, id@)],
                Err(e) => !has_id(self@, id@) && e is NotFound,
            },
    {
        match self.position_of(id) {
            Some(k) => Ok(self.tasks[k].duplicate()),
            None => Err(RepositoryError::NotFound),
        }
    }

    /// Persists a new row under the given id and timestamp. Fails with a
    /// duplicate failure when the id is already taken — the uniqueness
    /// constraint — and otherwise returns the persisted row.
    pub fn create(&mut self, new_task: NewTask, id: String, now: String) -> (r: Result<
        Task,
        RepositoryError,
    >)
        requires
            old(self).wf(),
        ensures
            final(self).wf(),
            has_id(old(self)@, id@) ==> (r matches Err(e) && e is Duplicate && final(self)@
                == old(self)@),
            !has_id(old(self)@, id@) ==> (r matches Ok(t) && t@ == created_view(
                &new_task,
                id@,
                now@,
            ) && final(self)@ == old(self)@.push(t@)),
    {
        if self.contains_id(&id) {
            return Err(RepositoryError::Duplicate);
        }
        let row = Task {
            id,
            title: new_task.title,
            description: new_task.description,
            completed: new_task.completed,
            created_at: now.clone(),
            updated_at: now,
        };
        let out = row.duplicate();
        self.tasks.push(row);
        proof {
            assert(final(self)@ =~= old(self)@.push(out@));
            assert forall|i: int, j: int|
                0 <= i < j < final(self)@.len() implies final(self)@[i].id != final(self)@[j].id by {
                if j < old(self)@.len() {
                    assert(old(self)@[i].id != old(self)@[j].id);
                } else {
                    assert(final(self)@[j] == out@);
                    assert(final(self)@[i] == old(self)@[i]);
                    assert(!has_id(old(self)@, out@.id));
                }
            }
        }
        Ok(out)
    }

    /// Applies a partial change set to the row with this id: only fields
    /// present in the change set are modified. Fails with a not-found
    /// failure when the id is absent.
    pub fn update(&mut self, id: &String, up: UpdateTask) -> (r: Result<Task, RepositoryError>)
        requires
            old(self).wf(),
        ensures
            final(self).wf(),
            !has_id(old(self)@, id@) ==> (r matches Err(e) && e is NotFound && final(self)@
                == old(self)@),
            has_id(old(self)@, id@) ==> (r matches Ok(t) && t@ == apply_update(
                old(self)@[idx_of(old(self)@, id@)],
                &up,
            ) && final(self)@ == old(self)@.update(idx_of(old(self)@, id@), t@)),
    {
        let k = match self.position_of(id) {
            Some(k) => k,
            None => {
                return Err(RepositoryError::NotFound);
            },
        };
        let old_row = self.tasks[k].duplicate();
        let UpdateTask { title, description, completed } = up;
        let row = Task {
            id: old_row.id,
            title: match title {
                Some(t) => t,
                None => old_row.title,
            },
            description: match description {
                Some(d) => Some(d),
                None => old_row.description,
            },
            completed: match completed {
                Some(b) => b,
                None => old_row.completed,
            },
            created_at: old_row.created_at,
            updated_at: old_row.updated_at,
        };
        let out = row.duplicate();
        self.tasks.remove(k);
        self.tasks.insert(k, row);
        proof {
            assert(final(self)@ =~= old(self)@.update(k as int, out@));
            assert forall|i: int, j: int|
                0 <= i < j < final(self)@.len() implies final(self)@[i].id != final(self)@[j].id by {
                assert(final(self)@[i].id == old(self)@[i].id);
                assert(final(self)@[j].id == old(self)@[j].id);
                assert(old(self)@[i].id != old(self)@[j].id);
            }
        }
        Ok(out)
    }

    /// Removes the row with this id; removing an absent row is a no-op
    /// success. The service layer pre-checks existence, which is what makes
    /// a delete of an absent id surface as not-found there.
    pub fn delete(&mut self, id: &String) -> (r: Result<(), RepositoryError>)
        requires
            old(self).wf(),
        ensures
            final(self).wf(),
            r is Ok,
            !has_id(old(self)@, id@) ==> final(self)@ == old(self)@,
            has_id(old(self)@, id@) ==> final(self)@ == old(self)@.remove(idx_of(old(self)@, id@)),
    {
        let k = match self.position_of(id) {
            Some(k) => k,
            None => {
                return Ok(());
            },
        };
        self.tasks.remove(k);
        proof {
            assert(final(self)@ =~= old(self)@.remove(k as int));
            assert forall|i: int, j: int|
                0 <= i < j < final(self)@.len() implies final(self)@[i].id != final(self)@[j].id by {
                let oi = if i < k as int { i } else { i + 1 };
                let oj = if j < k as int { j } else { j + 1 };
                assert(final(self)@[i] == old(self)@[oi]);
                assert(final(self)@[j] == old(self)@[oj]);
                assert(old(self)@[oi].id != old(self)@[oj].id);
            }
        }
        Ok(())
    }
}


/// Law: creating under a fresh id makes that id present in the store, so a
/// second creation colliding on the uniqueness constraint meets `create`'s
/// duplicate case: the first call succeeds and the second fails with a
/// duplicate failure, leaving the store unchanged.
pub proof fn lemma_second_create_conflicts(s: Seq<TaskView>, t: TaskView, id: Seq<char>)
    requires
        !has_id(s, id),
        t.id == id,
    ensures
        has_id(s.push(t), id),
{
    assert(s.push(t)[s.len() as int] == t);
}

} // verus!
