use vstd::prelude::*;
use crate::model::Task;
use crate::ordering::{tasks_at, uuid_pos, lemma_uuid_pos, derefs};

verus! {

/// The list of tasks on screen: a snapshot, the rows shown (as indices into
/// the snapshot, in display order) and the selected row.
pub struct TaskListWidget {
    pub tasks: Vec<Task>,
    pub order: Vec<usize>,
    pub selected: Option<usize>,
}

/// Which row to select in `rows`: the one carrying the preserved uuid, if any
/// row does; with no uuid to preserve, the first row of a non-empty list.
pub open spec fn selection_for(rows: Seq<Task>, preserve: Option<Seq<char>>) -> Option<int> {
    match preserve {
        Some(u) => uuid_pos(rows, u),
        None => if rows.len() > 0 {
            Some(0)
        } else {
            None
        },
    }
}

/// The selection one row down in a list of `n` rows, wrapping to the top.
pub open spec fn next_row(sel: Option<usize>, n: int) -> Option<usize> {
    if n == 0 {
        None
    } else {
        match sel {
            Some(i) => if i + 1 >= n {
                Some(0usize)
            } else {
                Some((i + 1) as usize)
            },
            None => Some(0usize),
        }
    }
}

/// The selection one row up in a list of `n` rows, wrapping to the bottom.
pub open spec fn previous_row(sel: Option<usize>, n: int) -> Option<usize> {
    if n == 0 {
        None
    } else {
        match sel {
            Some(i) => if i == 0 {
                Some((n - 1) as usize)
            } else {
                Some((i - 1) as usize)
            },
            None => Some(0usize),
        }
    }
}

pub open spec fn opt_usize(o: Option<usize>) -> Option<int> {
    match o {
        Some(k) => Some(k as int),
        None => None,
    }
}

impl TaskListWidget {
    /// The tasks shown, in display order.
    pub open spec fn rows(&self) -> Seq<Task> {
        tasks_at(self.tasks@, self.order@)
    }

    pub open spec fn wf(&self) -> bool {
        &&& forall|j: int| 0 <= j < self.order@.len() ==> (#[trigger] self.order@[j]) < self.tasks@.len()
        &&& match self.selected {
            Some(k) => k < self.order@.len(),
            None => true,
        }
    }

    pub fn new() -> (r: TaskListWidget)
        ensures
            r.wf(),
            r.rows().len() == 0,
            r.selected is None,
    {
        TaskListWidget { tasks: Vec::new(), order: Vec::new(), selected: None }
    }

    /// Shows all of `tasks` in the given order and selects the first row.
    pub fn set_tasks(&mut self, tasks: Vec<Task>)
        ensures
            final(self).wf(),
            final(self).rows() == tasks@,
            final(self).selected == (if tasks@.len() > 0 {
                Some(0usize)
            } else {
                None
            }),
    {
        let mut order: Vec<usize> = Vec::new();
        let mut i: usize = 0;
        while i < tasks.len()
            invariant
                i <= tasks@.len(),
                order@.len() == i,
                forall|j: int| 0 <= j < i ==> (#[trigger] order@[j]) == j,
            decreases tasks@.len() - i,
        {
            order.push(i);
            i = i + 1;
        }
        assert(tasks_at(tasks@, order@) =~= tasks@);
        self.selected = if tasks.len() > 0 {
            Some(0)
        } else {
            None
        };
        self.tasks = tasks;
        self.order = order;
    }

    /// Shows the rows `order` of `tasks` and selects by `preserve_uuid`.
    pub fn show_rows(&mut self, tasks: Vec<Task>, order: Vec<usize>, preserve_uuid: Option<&str>)
        requires
            forall|j: int| 0 <= j < order@.len() ==> (#[trigger] order@[j]) < tasks@.len(),
        ensures
            final(self).wf(),
            final(self).tasks@ == tasks@,
            final(self).order@ == order@,
            opt_usize(final(self).selected) == selection_for(
                tasks_at(tasks@, order@),
                match preserve_uuid {
                    Some(u) => Some(u@),
                    None => None,
                },
            ),
    {
        let ghost rows = tasks_at(tasks@, order@);
        let selected: Option<usize> = match preserve_uuid {
            None => if order.len() > 0 {
                Some(0)
            } else {
                None
            },
            Some(u) => find_row(&tasks, &order, u),
        };
        proof {
            if preserve_uuid is Some {
                lemma_uuid_pos(rows, preserve_uuid->0@);
            }
        }
        self.tasks = tasks;
        self.order = order;
        self.selected = selected;
    }

    pub fn len(&self) -> (r: usize)
        ensures
            r == self.rows().len(),
    {
        self.order.len()
    }

    /// Moves the selection one row down, wrapping to the top.
    pub fn next(&mut self)
        requires
            old(self).wf(),
        ensures
            final(self).wf(),
            final(self).tasks@ == old(self).tasks@,
            final(self).order@ == old(self).order@,
            final(self).selected == next_row(old(self).selected, old(self).order@.len() as int),
    {
        let n = self.order.len();
        if n == 0 {
            self.selected = None;
            return;
        }
        self.selected = match self.selected {
            Some(i) => if i + 1 >= n {
                Some(0)
            } else {
                Some(i + 1)
            },
            None => Some(0),
        };
    }

    /// Moves the selection one row up, wrapping to the bottom.
    pub fn previous(&mut self)
        requires
            old(self).wf(),
        ensures
            final(self).wf(),
            final(self).tasks@ == old(self).tasks@,
            final(self).order@ == old(self).order@,
            final(self).selected == previous_row(old(self).selected, old(self).order@.len() as int),
    {
        let n = self.order.len();
        if n == 0 {
            self.selected = None;
            return;
        }
        self.selected = match self.selected {
            Some(i) => if i == 0 {
                Some(n - 1)
            } else {
                Some(i - 1)
            },
            None => Some(0),
        };
    }

    /// The task on the selected row.
    pub fn selected_task(&self) -> (r: Option<&Task>)
        requires
            self.wf(),
        ensures
            match self.selected {
                Some(k) => r is Some && *r->0 == self.rows()[k as int],
                None => r is None,
            },
    {
        match self.selected {
            Some(k) => Some(&self.tasks[self.order[k]]),
            None => None,
        }
    }

    /// The uuid of the task on the selected row.
    pub fn selected_task_uuid(&self) -> (r: Option<String>)
        requires
            self.wf(),
        ensures
            match self.selected {
                Some(k) => r is Some && r->0@ == self.rows()[k as int].uuid@,
                None => r is None,
            },
    {
        match self.selected {
            Some(k) => Some(self.tasks[self.order[k]].uuid.clone()),
            None => None,
        }
    }

    /// The tasks shown, in display order.
    pub fn visible_tasks(&self) -> (r: Vec<&Task>)
        requires
            self.wf(),
        ensures
            derefs(r@) == self.rows(),
    {
        let mut r: Vec<&Task> = Vec::new();
        let mut j: usize = 0;
        while j < self.order.len()
            invariant
                self.wf(),
                j <= self.order@.len(),
                r@.len() == j,
                derefs(r@) == self.rows().subrange(0, j as int),
            decreases self.order@.len() - j,
        {
            r.push(&self.tasks[self.order[j]]);
            proof {
                assert(*r@[j as int] == self.rows()[j as int]);
                assert(derefs(r@) =~= self.rows().subrange(0, j as int + 1));
            }
            j = j + 1;
        }
        assert(self.rows().subrange(0, self.order@.len() as int) =~= self.rows());
        r
    }
}

/// The first row whose task carries uuid `u`.
fn find_row(tasks: &Vec<Task>, order: &Vec<usize>, u: &str) -> (r: Option<usize>)
    requires
        forall|j: int| 0 <= j < order@.len() ==> (#[trigger] order@[j]) < tasks@.len(),
    ensures
        opt_usize(r) == uuid_pos(tasks_at(tasks@, order@), u@),
{
    let ghost rows = tasks_at(tasks@, order@);
    proof {
        lemma_uuid_pos(rows, u@);
    }
    let mut k: usize = 0;
    while k < order.len()
        invariant
            rows == tasks_at(tasks@, order@),
            forall|j: int| 0 <= j < order@.len() ==> (#[trigger] order@[j]) < tasks@.len(),
            k <= order@.len(),
            forall|j: int| 0 <= j < k ==> (#[trigger] rows[j]).uuid@ != u@,
            uuid_pos(rows, u@) is Some ==> {
                let p = uuid_pos(rows, u@)->0;
                &&& 0 <= p < rows.len()
                &&& rows[p].uuid@ == u@
                &&& forall|j: int| 0 <= j < p ==> (#[trigger] rows[j]).uuid@ != u@
            },
            uuid_pos(rows, u@) is None ==> forall|j: int|
                0 <= j < rows.len() ==> (#[trigger] rows[j]).uuid@ != u@,
        decreases order@.len() - k,
    {
        assert(rows[k as int] == tasks@[order@[k as int] as int]);
        if same_text(tasks[order[k]].uuid.as_str(), u) {
            proof {
                if uuid_pos(rows, u@) is Some {
                    let p = uuid_pos(rows, u@)->0;
                    assert(!(p < k));
                    assert(!(k < p));
                }
            }
            return Some(k);
        }
        k = k + 1;
    }
    proof {
        if uuid_pos(rows, u@) is Some {
            let p = uuid_pos(rows, u@)->0;
            assert(rows[p].uuid@ == u@);
        }
    }
    None
}

/// Character-wise equality of two strings of equal length.
pub fn same_text(a: &str, b: &str) -> (r: bool)
    ensures
        r == (a@ == b@),
{
    let n = a.unicode_len();
    if n != b.unicode_len() {
        return false;
    }
    let mut i: usize = 0;
    while i < n
        invariant
            n == a@.len(),
            n == b@.len(),
            i <= n,
            forall|k: int| 0 <= k < i ==> a@[k] == b@[k],
        decreases n - i,
    {
        if a.get_char(i) != b.get_char(i) {
            return false;
        }
        i = i + 1;
    }
    assert(a@ =~= b@);
    true
}

} // verus!
