//! The service layer: input validation and orchestration over the
//! repository. This is the only layer that produces validation errors; every
//! storage failure arrives here already classified by the repository.

use vstd::prelude::*;
use crate::error::AppError;
use crate::json::{chars_to_string, opt_view, str_to_chars};
use crate::repository::{has_id, idx_of, TaskRepository};
use crate::task::{CreateTaskRequest, NewTask, TaskResponse, TaskView, UpdateTask, UpdateTaskRequest};

verus! {

/// Whitespace as trimming understands it: the Unicode white-space
/// characters.
pub open spec fn is_space(c: char) -> bool {
    ||| c == '\t'
    ||| c == '\n'
    ||| c == '\u{b}'
    ||| c == '\u{c}'
    ||| c == '\r'
    ||| c == ' '
    ||| c == '\u{85}'
    ||| c == '\u{a0}'
    ||| c == '\u{1680}'
    ||| c == '\u{2000}'
    ||| c == '\u{2001}'
    ||| c == '\u{2002}'
    ||| c == '\u{2003}'
    ||| c == '\u{2004}'
    ||| c == '\u{2005}'
    ||| c == '\u{2006}'
    ||| c == '\u{2007}'
    ||| c == '\u{2008}'
    ||| c == '\u{2009}'
    ||| c == '\u{200a}'
    ||| c == '\u{2028}'
    ||| c == '\u{2029}'
    ||| c == '\u{202f}'
    ||| c == '\u{205f}'
    ||| c == '\u{3000}'
}

/// The text with leading whitespace removed.
pub open spec fn trim_start(s: Seq<char>) -> Seq<char>
    decreases s.len(),
{
    if s.len() > 0 && is_space(s[0]) {
        trim_start(s.drop_first())
    } else {
        s
    }
}

/// The text with trailing whitespace removed.
pub open spec fn trim_end(s: Seq<char>) -> Seq<char>
    decreases s.len(),
{
    if s.len() > 0 && is_space(s.last()) {
        trim_end(s.drop_last())
    } else {
        s
    }
}

/// The text with whitespace removed from both ends.
pub open spec fn trimmed(s: Seq<char>) -> Seq<char> {
    trim_end(trim_start(s))
}

/// A description as stored: trimmed, and absent rather than empty.
pub open spec fn norm_desc(o: Option<Seq<char>>) -> Option<Seq<char>> {
    match o {
        None => None,
        Some(d) => if trimmed(d).len() == 0 {
            None
        } else {
            Some(trimmed(d))
        },
    }
}

/// Whether an update request's title, if present, passes validation.
pub open spec fn update_title_ok(title: Option<Seq<char>>) -> bool {
    match title {
        None => true,
        Some(t) => trimmed(t).len() > 0 && t.len() <= 255,
    }
}

/// The view a row takes after an update request: present fields are trimmed
/// and applied; a description that trims to empty is treated as absent and
/// leaves the stored one unchanged.
pub open spec fn updated_view(
    t: TaskView,
    title: Option<Seq<char>>,
    description: Option<Seq<char>>,
    completed: Option<bool>,
) -> TaskView {
    TaskView {
        id: t.id,
        title: match title {
            Some(x) => trimmed(x),
            None => t.title,
        },
        description: match norm_desc(description) {
            Some(d) => Some(d),
            None => t.description,
        },
        completed: match completed {
            Some(b) => b,
            None => t.completed,
        },
        created_at: t.created_at,
        updated_at: t.updated_at,
    }
}

/// Exec counterpart of `is_space`.
pub fn is_space_exec(c: char) -> (b: bool)
    ensures
        b == is_space(c),
{
    c == '\t' || c == '\n' || c == '\u{b}' || c == '\u{c}' || c == '\r' || c == ' '
        || c == '\u{85}' || c == '\u{a0}' || c == '\u{1680}' || c == '\u{2000}' || c == '\u{2001}'
        || c == '\u{2002}' || c == '\u{2003}' || c == '\u{2004}' || c == '\u{2005}'
        || c == '\u{2006}' || c == '\u{2007}' || c == '\u{2008}' || c == '\u{2009}'
        || c == '\u{200a}' || c == '\u{2028}' || c == '\u{2029}' || c == '\u{202f}'
        || c == '\u{205f}' || c == '\u{3000}'
}

/// Removes whitespace from both ends of a character sequence.
pub fn trim_chars(v: &Vec<char>) -> (r: Vec<char>)
    ensures
        r@ == trimmed(v@),
{
    proof {
        assert(v@.skip(0) =~= v@);
    }
    let mut a: usize = 0;
    while a < v.len() && is_space_exec(v[a])
        invariant
            a <= v.len(),
            trim_start(v@) == trim_start(v@.skip(a as int)),
        decreases v.len() - a,
    {
        proof {
            assert(v@.skip(a as int)[0] == v@[a as int]);
            assert(v@.skip(a as int).drop_first() =~= v@.skip(a + 1 as int));
        }
        a += 1;
    }
    proof {
        if a < v.len() {
            assert(v@.skip(a as int)[0] == v@[a as int]);
        }
        assert(trim_start(v@) == v@.skip(a as int));
    }
    proof {
        let w = v@.skip(a as int);
        assert(w.take((v.len() - a) as int) =~= w);
    }
    let mut b: usize = v.len();
    while b > a && is_space_exec(v[b - 1])
        invariant
            a <= b <= v.len(),
            trim_end(v@.skip(a as int)) == trim_end(v@.skip(a as int).take((b - a) as int)),
        decreases b,
    {
        proof {
            let w = v@.skip(a as int);
            let t = w.take((b - a) as int);
            assert(t.last() == v@[(b - 1) as int]);
            assert(t.drop_last() =~= w.take(((b - 1) - a) as int));
        }
        b -= 1;
    }
    proof {
        let w = v@.skip(a as int);
        let t = w.take((b - a) as int);
        if b > a {
            assert(t.last() == v@[(b - 1) as int]);
        }
        assert(trim_end(w) == t);
    }
    let mut r: Vec<char> = Vec::new();
    let mut i: usize = a;
    while i < b
        invariant
            a <= i <= b <= v.len(),
            r@.len() == i - a,
            forall|k: int| 0 <= k < i - a ==> r@[k] == v@[a + k],
        decreases b - i,
    {
        r.push(v[i]);
        i += 1;
    }
    proof {
        assert(r@ =~= v@.skip(a as int).take((b - a) as int));
    }
    r
}

/// Removes whitespace from both ends of a string.
pub fn trim_string(s: &String) -> (r: String)
    ensures
        r@ == trimmed(s@),
{
    let cs = str_to_chars(s.as_str());
    let t = trim_chars(&cs);
    chars_to_string(&t)
}

/// Trims a description and treats one that trims to empty as absent.
pub fn normalize_description(o: Option<String>) -> (r: Option<String>)
    ensures
        opt_view(r) == norm_desc(opt_view(o)),
{
    match o {
        None => None,
        Some(d) => {
            let cs = str_to_chars(d.as_str());
            let t = trim_chars(&cs);
            if t.len() == 0 {
                None
            } else {
                Some(chars_to_string(&t))
            }
        },
    }
}

/// Input validation and orchestration for tasks, over an explicitly
/// injected repository.
pub struct TaskService;

impl TaskService {
    /// Returns every task as a DTO, in storage order.
    pub fn get_all(repo: &TaskRepository) -> (r: Result<Vec<TaskResponse>, AppError>)
        ensures
            r matches Ok(ts) && ts.deep_view() == repo@,
    {
        let rows = match repo.find_all() {
            Ok(rows) => rows,
            Err(e) => {
                return Err(AppError::from_repository(e));
            },
        };
        let mut out: Vec<TaskResponse> = Vec::new();
        let mut i: usize = 0;
        while i < rows.len()
            invariant
                i <= rows.len(),
                rows.deep_view() == repo@,
                out@.len() == i,
                forall|k: int| 0 <= k < i ==> out@[k]@ == repo@[k],
            decreases rows.len() - i,
        {
            proof {
                assert(rows.deep_view()[i as int] == repo@[i as int]);
            }
            out.push(TaskResponse::from_task(rows[i].duplicate()));
            i += 1;
        }
        proof {
            assert(rows.deep_view().len() == rows@.len());
            assert forall|k: int| 0 <= k < repo@.len() implies out.deep_view()[k] == repo@[k] by {
                assert(out@[k]@ == repo@[k]);
            }
            assert(out.deep_view() =~= repo@);
        }
        Ok(out)
    }

    /// Returns the task with this id as a DTO, or a not-found error.
    pub fn get_by_id(repo: &TaskRepository, id: &String) -> (r: Result<TaskResponse, AppError>)
        requires
            repo.wf(),
        ensures
            has_id(repo@, id@) ==> (r matches Ok(dto) && dto@ == repo@[idx_of(repo@, id@)]),
            !has_id(repo@, id@) ==> (r matches Err(e) && e matches AppError::NotFound(m) && m@
                == "Resource not found"@),
    {
        match repo.find_by_id(id) {
            Ok(t) => Ok(TaskResponse::from_task(t)),
            Err(e) => Err(AppError::from_repository(e)),
        }
    }

    /// Validates and creates a task: rejects a title that is empty after
    /// trimming or longer than 255 characters, trims what is stored, treats
    /// a description that trims to empty as absent, and persists under the
    /// given id and timestamp.
    pub fn create(repo: &mut TaskRepository, req: CreateTaskRequest, id: String, now: String)
        -> (r: Result<TaskResponse, AppError>)
        requires
            old(repo).wf(),
        ensures
            final(repo).wf(),
            trimmed(req.title@).len() == 0 ==> (r matches Err(e) && e matches
                AppError::ValidationError(m) && m@ == "Title cannot be empty"@ && final(repo)@
                == old(repo)@),
            trimmed(req.title@).len() > 0 && req.title@.len() > 255 ==> (r matches Err(e) && e
                matches AppError::ValidationError(m) && m@
                == "Title must be less than 255 characters"@ && final(repo)@ == old(repo)@),
            trimmed(req.title@).len() > 0 && req.title@.len() <= 255 && has_id(old(repo)@, id@)
                ==> (r matches Err(e) && e matches AppError::Duplicate(m) && m@
                == "Resource already exists"@ && final(repo)@ == old(repo)@),
            trimmed(req.title@).len() > 0 && req.title@.len() <= 255 && !has_id(old(repo)@, id@)
                ==> (r matches Ok(dto) && dto@ == (TaskView {
                id: id@,
                title: trimmed(req.title@),
                description: norm_desc(opt_view(req.description)),
                completed: req.completed,
                created_at: now@,
                updated_at: now@,
            }) && final(repo)@ == old(repo)@.push(dto@)),
    {
        let title_chars = str_to_chars(req.title.as_str());
        let trimmed_title = trim_chars(&title_chars);
        if trimmed_title.len() == 0 {
            return Err(AppError::validation(String::from_str("Title cannot be empty")));
        }
        if title_chars.len() > 255 {
            return Err(
                AppError::validation(String::from_str("Title must be less than 255 characters")),
            );
        }
        let new_task = NewTask {
            title: chars_to_string(&trimmed_title),
            description: normalize_description(req.description),
            completed: req.completed,
        };
        match repo.create(new_task, id, now) {
            Ok(t) => Ok(TaskResponse::from_task(t)),
            Err(e) => Err(AppError::from_repository(e)),
        }
    }

    /// Validates and applies a partial update: the title, when present, is
    /// validated as on creation; the task must exist — the existence
    /// pre-check makes a missing id surface as not-found before any storage
    /// mutation is attempted.
    pub fn update(repo: &mut TaskRepository, id: &String, req: UpdateTaskRequest) -> (r: Result<
        TaskResponse,
        AppError,
    >)
        requires
            old(repo).wf(),
        ensures
            final(repo).wf(),
            req.title matches Some(t) && trimmed(t@).len() == 0 ==> (r matches Err(e) && e matches
                AppError::ValidationError(m) && m@ == "Title cannot be empty"@ && final(repo)@
                == old(repo)@),
            req.title matches Some(t) && trimmed(t@).len() > 0 && t@.len() > 255 ==> (r matches
                Err(e) && e matches AppError::ValidationError(m) && m@
                == "Title must be less than 255 characters"@ && final(repo)@ == old(repo)@),
            update_title_ok(opt_view(req.title)) && !has_id(old(repo)@, id@) ==> (r matches Err(e)
                && e matches AppError::NotFound(m) && m@ == "Resource not found"@ && final(repo)@
                == old(repo)@),
            update_title_ok(opt_view(req.title)) && has_id(old(repo)@, id@) ==> (r matches Ok(dto)
                && dto@ == updated_view(
                old(repo)@[idx_of(old(repo)@, id@)],
                opt_view(req.title),
                opt_view(req.description),
                req.completed,
            ) && final(repo)@ == old(repo)@.update(idx_of(old(repo)@, id@), dto@)),
    {
        let title = match req.title {
            Some(t) => {
                let title_chars = str_to_chars(t.as_str());
                let trimmed_title = trim_chars(&title_chars);
                if trimmed_title.len() == 0 {
                    return Err(AppError::validation(String::from_str("Title cannot be empty")));
                }
                if title_chars.len() > 255 {
                    return Err(
                        AppError::validation(
                            String::from_str("Title must be less than 255 characters"),
                        ),
                    );
                }
                Some(chars_to_string(&trimmed_title))
            },
            None => None,
        };
        match repo.find_by_id(id) {
            Ok(_) => {},
            Err(e) => {
                return Err(AppError::from_repository(e));
            },
        }
        let up = UpdateTask {
            title,
            description: normalize_description(req.description),
            completed: req.completed,
        };
        match repo.update(id, up) {
            Ok(t) => Ok(TaskResponse::from_task(t)),
            Err(e) => Err(AppError::from_repository(e)),
        }
    }

    /// Deletes the task with this id; the existence pre-check makes a
    /// missing id surface as not-found before the removal is attempted.
    pub fn delete(repo: &mut TaskRepository, id: &String) -> (r: Result<(), AppError>)
        requires
            old(repo).wf(),
        ensures
            final(repo).wf(),
            !has_id(old(repo)@, id@) ==> (r matches Err(e) && e matches AppError::NotFound(m)
                && m@ == "Resource not found"@ && final(repo)@ == old(repo)@),
            has_id(old(repo)@, id@) ==> (r is Ok && final(repo)@ == old(repo)@.remove(
                idx_of(old(repo)@, id@),
            )),
    {
        match repo.find_by_id(id) {
            Ok(_) => {},
            Err(e) => {
                return Err(AppError::from_repository(e));
            },
        }
        match repo.delete(id) {
            Ok(_) => Ok(()),
            Err(e) => Err(AppError::from_repository(e)),
        }
    }
}

} // verus!
