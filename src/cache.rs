use vstd::prelude::*;
use crate::model::Task;
use crate::task_list::same_text;

verus! {

/// A task kept with the instant (seconds) it was stored.
pub struct CachedTask {
    pub task: Task,
    pub cached_at: i64,
}

/// Recently loaded tasks by uuid, each usable for `max_age` seconds.
pub struct TaskCache {
    pub entries: Vec<CachedTask>,
    pub max_age: u64,
}

pub open spec fn is_fresh(e: CachedTask, now: int, max_age: int) -> bool {
    now - e.cached_at < max_age
}

/// The entries of `s` still fresh at `now`, in order.
pub open spec fn fresh_entries(s: Seq<CachedTask>, now: int, max_age: int) -> Seq<CachedTask>
    decreases s.len(),
{
    if s.len() == 0 {
        s
    } else {
        let p = fresh_entries(s.drop_last(), now, max_age);
        if is_fresh(s.last(), now, max_age) {
            p.push(s.last())
        } else {
            p
        }
    }
}

pub open spec fn uuid_at(s: Seq<CachedTask>, i: int) -> Seq<char> {
    s[i].task.uuid@
}

/// Position of the entry for uuid `u`, if any.
pub open spec fn holds_uuid(s: Seq<CachedTask>, u: Seq<char>) -> bool {
    exists|i: int| 0 <= i < s.len() && uuid_at(s, i) == u
}

impl TaskCache {
    /// No two entries share a uuid.
    pub open spec fn wf(&self) -> bool {
        forall|i: int, j: int|
            0 <= i < self.entries@.len() && 0 <= j < self.entries@.len() && uuid_at(
                self.entries@,
                i,
            ) == uuid_at(self.entries@, j) ==> i == j
    }

    pub fn new(max_age_seconds: u64) -> (r: TaskCache)
        ensures
            r.wf(),
            r.entries@.len() == 0,
            r.max_age == max_age_seconds,
    {
        TaskCache { entries: Vec::new(), max_age: max_age_seconds }
    }

    fn find(&self, uuid: &str) -> (r: Option<usize>)
        ensures
            match r {
                Some(i) => i < self.entries@.len() && uuid_at(self.entries@, i as int) == uuid@,
                None => !holds_uuid(self.entries@, uuid@),
            },
    {
        let mut i: usize = 0;
        while i < self.entries.len()
            invariant
                i <= self.entries@.len(),
                forall|k: int| 0 <= k < i ==> uuid_at(self.entries@, k) != uuid@,
            decreases self.entries@.len() - i,
        {
            if same_text(self.entries[i].task.uuid.as_str(), uuid) {
                return Some(i);
            }
            i = i + 1;
        }
        None
    }

    /// The task stored under `uuid`, while it is fresh at `now`.
    pub fn get(&self, uuid: &str, now: i64) -> (r: Option<&Task>)
        requires
            self.wf(),
        ensures
            match r {
                Some(t) => exists|i: int|
                    0 <= i < self.entries@.len() && uuid_at(self.entries@, i) == uuid@ && is_fresh(
                        self.entries@[i],
                        now as int,
                        self.max_age as int,
                    ) && *t == self.entries@[i].task,
                None => forall|i: int|
                    0 <= i < self.entries@.len() && uuid_at(self.entries@, i) == uuid@ ==> !is_fresh(
                        self.entries@[i],
                        now as int,
                        self.max_age as int,
                    ),
            },
    {
        match self.find(uuid) {
            Some(i) => {
                let e = &self.entries[i];
                if (now as i128) - (e.cached_at as i128) < self.max_age as i128 {
                    Some(&e.task)
                } else {
                    None
                }
            },
            None => None,
        }
    }

    /// Stores `task` as of `now`, replacing the entry with the same uuid.
    pub fn insert(&mut self, task: Task, now: i64)
        requires
            old(self).wf(),
        ensures
            final(self).wf(),
            final(self).max_age == old(self).max_age,
            holds_uuid(final(self).entries@, task.uuid@),
            forall|i: int|
                0 <= i < final(self).entries@.len() && uuid_at(final(self).entries@, i) == task.uuid@
                    ==> final(self).entries@[i].task == task && final(self).entries@[i].cached_at
                    == now,
            forall|i: int|
                0 <= i < old(self).entries@.len() && uuid_at(old(self).entries@, i) != task.uuid@
                    ==> final(self).entries@.contains(old(self).entries@[i]),
            forall|i: int|
                0 <= i < final(self).entries@.len() && uuid_at(final(self).entries@, i) != task.uuid@
                    ==> old(self).entries@.contains(final(self).entries@[i]),
    {
        let ghost e0 = self.entries@;
        let ghost t0 = task;
        let found = self.find(task.uuid.as_str());
        match found {
            Some(i) => {
                self.entries.set(i, CachedTask { task, cached_at: now });
                proof {
                    assert forall|a: int| 0 <= a < e0.len() && uuid_at(e0, a) != t0.uuid@ implies self.entries@.contains(e0[a]) by {
                        assert(a != i);
                        assert(self.entries@[a] == e0[a]);
                    }
                    assert forall|a: int| 0 <= a < self.entries@.len() && uuid_at(self.entries@, a) != t0.uuid@ implies e0.contains(self.entries@[a]) by {
                        assert(self.entries@[a] == e0[a]);
                    }
                    assert(uuid_at(self.entries@, i as int) == t0.uuid@);
                    assert forall|a: int| 0 <= a < e0.len() implies #[trigger] uuid_at(self.entries@, a) == uuid_at(e0, a) by {
                        if a != i {
                            assert(self.entries@[a] == e0[a]);
                        }
                    }
                    assert forall|a: int, b: int|
                        0 <= a < self.entries@.len() && 0 <= b < self.entries@.len() && uuid_at(self.entries@, a) == uuid_at(self.entries@, b) implies a == b by {
                        assert(uuid_at(e0, a) == uuid_at(e0, b));
                    }
                    assert forall|a: int| 0 <= a < self.entries@.len() && uuid_at(self.entries@, a) == t0.uuid@ implies self.entries@[a].task == t0 && self.entries@[a].cached_at == now by {
                        assert(uuid_at(e0, a) == uuid_at(e0, i as int));
                        assert(a == i);
                    }
                }
            },
            None => {
                self.entries.push(CachedTask { task, cached_at: now });
                proof {
                    let n = e0.len() as int;
                    assert(uuid_at(self.entries@, n) == t0.uuid@);
                    assert forall|a: int| 0 <= a < e0.len() && uuid_at(e0, a) != t0.uuid@ implies self.entries@.contains(e0[a]) by {
                        assert(self.entries@[a] == e0[a]);
                    }
                    assert forall|a: int| 0 <= a < self.entries@.len() && uuid_at(self.entries@, a) != t0.uuid@ implies e0.contains(self.entries@[a]) by {
                        assert(a < n);
                        assert(self.entries@[a] == e0[a]);
                    }
                    assert forall|a: int| 0 <= a < n implies #[trigger] uuid_at(self.entries@, a) == uuid_at(e0, a) && uuid_at(e0, a) != t0.uuid@ by {
                        assert(self.entries@[a] == e0[a]);
                    }
                    assert forall|a: int, b: int|
                        0 <= a < self.entries@.len() && 0 <= b < self.entries@.len() && uuid_at(self.entries@, a) == uuid_at(self.entries@, b) implies a == b by {
                        if a < n && b < n {
                            assert(uuid_at(e0, a) == uuid_at(e0, b));
                        }
                    }
                }
            },
        }
    }

    /// Drops the entry for `uuid`, if any.
    pub fn remove(&mut self, uuid: &str)
        requires
            old(self).wf(),
        ensures
            final(self).wf(),
            final(self).max_age == old(self).max_age,
            !holds_uuid(final(self).entries@, uuid@),
            forall|i: int|
                0 <= i < old(self).entries@.len() && uuid_at(old(self).entries@, i) != uuid@
                    ==> final(self).entries@.contains(old(self).entries@[i]),
            forall|i: int| 0 <= i < final(self).entries@.len() ==> old(self).entries@.contains(
                #[trigger] final(self).entries@[i]),
    {
        let ghost e0 = self.entries@;
        if let Some(i) = self.find(uuid) {
            self.entries.remove(i);
            proof {
                let n = e0.len() as int;
                assert forall|a: int| 0 <= a < self.entries@.len() implies #[trigger] self.entries@[a] == if a < i {
                    e0[a]
                } else {
                    e0[a + 1]
                } by {}
                assert forall|a: int, b: int|
                    0 <= a < self.entries@.len() && 0 <= b < self.entries@.len() && uuid_at(self.entries@, a) == uuid_at(self.entries@, b) implies a == b by {
                    let oa = if a < i { a } else { a + 1 };
                    let ob = if b < i { b } else { b + 1 };
                    assert(self.entries@[a] == e0[oa]);
                    assert(self.entries@[b] == e0[ob]);
                    assert(uuid_at(e0, oa) == uuid_at(e0, ob));
                }
                assert(uuid_at(e0, i as int) == uuid@);
                assert forall|a: int| 0 <= a < self.entries@.len() implies uuid_at(self.entries@, a) != uuid@ by {
                    let oa = if a < i { a } else { a + 1 };
                    assert(self.entries@[a] == e0[oa]);
                    assert(oa != i);
                    if uuid_at(e0, oa) == uuid@ {
                        assert(uuid_at(e0, oa) == uuid_at(e0, i as int));
                    }
                }
                assert forall|a: int| 0 <= a < e0.len() && uuid_at(e0, a) != uuid@ implies self.entries@.contains(e0[a]) by {
                    if a < i {
                        assert(self.entries@[a] == e0[a]);
                    } else {
                        assert(a != i);
                        assert(self.entries@[a - 1] == e0[a]);
                    }
                }
                assert forall|a: int| 0 <= a < self.entries@.len() implies e0.contains(#[trigger] self.entries@[a]) by {
                    if a < i {
                        assert(self.entries@[a] == e0[a]);
                    } else {
                        assert(self.entries@[a] == e0[a + 1]);
                    }
                }
            }
        } else {
            proof {
                assert forall|a: int| 0 <= a < self.entries@.len() implies e0.contains(#[trigger] self.entries@[a]) by {
                    assert(self.entries@[a] == e0[a]);
                }
            }
        }
    }

    pub fn clear(&mut self)
        ensures
            final(self).wf(),
            final(self).entries@.len() == 0,
            final(self).max_age == old(self).max_age,
    {
        self.entries.clear();
    }

    /// Drops every entry that is no longer fresh at `now`.
    pub fn cleanup_expired(&mut self, now: i64)
        requires
            old(self).wf(),
        ensures
            final(self).entries@ == fresh_entries(old(self).entries@, now as int, old(self).max_age as int),
            final(self).max_age == old(self).max_age,
    {
        let ghost e0 = self.entries@;
        let max_age = self.max_age;
        let mut k: usize = 0;
        let mut j: usize = 0;
        let n = self.entries.len();
        while j < n
            invariant
                n == e0.len(),
                j <= n,
                self.max_age == max_age,
                k <= j,
                k as int == fresh_entries(e0.subrange(0, j as int), now as int, max_age as int).len(),
                self.entries@ == fresh_entries(e0.subrange(0, j as int), now as int, max_age as int)
                    + e0.subrange(j as int, n as int),
            decreases n - j,
        {
            let ghost kept = fresh_entries(e0.subrange(0, j as int), now as int, max_age as int);
            let ghost after = e0.subrange(0, j as int + 1);
            proof {
                assert(after.drop_last() =~= e0.subrange(0, j as int));
                assert(after.last() == e0[j as int]);
                assert(self.entries@[k as int] == e0[j as int]);
            }
            let at = self.entries[k].cached_at;
            if (now as i128) - (at as i128) < max_age as i128 {
                proof {
                    assert(self.entries@ =~= kept.push(e0[j as int]) + e0.subrange(j as int + 1, n as int));
                }
                k = k + 1;
                assert(k <= j + 1);
            } else {
                self.entries.remove(k);
                proof {
                    assert(self.entries@ =~= kept + e0.subrange(j as int + 1, n as int));
                }
            }
            j = j + 1;
        }
        assert(e0.subrange(0, n as int) =~= e0);
        assert(self.entries@ =~= fresh_entries(e0, now as int, max_age as int));
    }
}

} // verus!
