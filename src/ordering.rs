use vstd::prelude::*;
use crate::model::Task;
use crate::criteria::{FilterCriteria, task_matches, is_empty_criteria, matches_criteria};

verus! {

/// The tasks of `s` that pass `c`, in snapshot order.
pub open spec fn filter_seq(s: Seq<Task>, c: FilterCriteria, now: int) -> Seq<Task>
    decreases s.len(),
{
    if s.len() == 0 {
        s
    } else {
        let p = filter_seq(s.drop_last(), c, now);
        if task_matches(s.last(), c, now) {
            p.push(s.last())
        } else {
            p
        }
    }
}

/// Where a task created at `e` goes in a newest-first list: after every task
/// that is at least as new, so that equal instants keep their arrival order.
pub open spec fn insert_pos(s: Seq<Task>, e: i64) -> nat
    decreases s.len(),
{
    if s.len() == 0 {
        0
    } else if s[0].entry < e {
        0
    } else {
        1 + insert_pos(s.drop_first(), e)
    }
}

pub open spec fn insert_by_entry(s: Seq<Task>, t: Task) -> Seq<Task> {
    s.insert(insert_pos(s, t.entry) as int, t)
}

/// Stable sort, newest `entry` first.
pub open spec fn sort_by_entry(s: Seq<Task>) -> Seq<Task>
    decreases s.len(),
{
    if s.len() == 0 {
        s
    } else {
        insert_by_entry(sort_by_entry(s.drop_last()), s.last())
    }
}

/// The filtered, newest-first view of a snapshot.
pub open spec fn filtered_view(s: Seq<Task>, c: FilterCriteria, now: int) -> Seq<Task> {
    sort_by_entry(filter_seq(s, c, now))
}

/// Creation instants never increase along the sequence.
pub open spec fn newest_first(s: Seq<Task>) -> bool {
    forall|i: int, j: int| 0 <= i < j < s.len() ==> s[i].entry >= s[j].entry
}

/// The tasks that a list of indices designates.
pub open spec fn tasks_at(s: Seq<Task>, idx: Seq<usize>) -> Seq<Task> {
    idx.map_values(|i: usize| s[i as int])
}

pub open spec fn derefs<'a>(s: Seq<&'a Task>) -> Seq<Task> {
    s.map_values(|x: &'a Task| *x)
}

proof fn lemma_insert_pos_bounds(s: Seq<Task>, e: i64)
    ensures
        insert_pos(s, e) <= s.len(),
        forall|j: int| 0 <= j < insert_pos(s, e) ==> s[j].entry >= e,
        insert_pos(s, e) < s.len() ==> s[insert_pos(s, e) as int].entry < e,
    decreases s.len(),
{
    if s.len() > 0 && s[0].entry >= e {
        lemma_insert_pos_bounds(s.drop_first(), e);
        assert forall|j: int| 0 <= j < insert_pos(s, e) implies s[j].entry >= e by {
            if j > 0 {
                assert(s[j] == s.drop_first()[j - 1]);
            }
        }
    }
}

proof fn lemma_insert_pos_skip(s: Seq<Task>, e: i64, k: int)
    requires
        0 <= k <= s.len(),
        forall|j: int| 0 <= j < k ==> s[j].entry >= e,
    ensures
        insert_pos(s, e) == k + insert_pos(s.subrange(k, s.len() as int), e),
    decreases k,
{
    if k == 0 {
        assert(s.subrange(0, s.len() as int) =~= s);
    } else {
        lemma_insert_pos_skip(s, e, k - 1);
        let sub = s.subrange(k - 1, s.len() as int);
        assert(sub[0] == s[k - 1]);
        assert(sub.drop_first() =~= s.subrange(k, s.len() as int));
    }
}

proof fn lemma_insert_keeps_order(s: Seq<Task>, t: Task)
    requires
        newest_first(s),
    ensures
        newest_first(insert_by_entry(s, t)),
{
    lemma_insert_pos_bounds(s, t.entry);
    let k = insert_pos(s, t.entry) as int;
    s.insert_ensures(k, t);
    let r = insert_by_entry(s, t);
    assert forall|i: int, j: int| 0 <= i < j < r.len() implies r[i].entry >= r[j].entry by {
        if j < k {
        } else if j == k {
        } else if i < k {
            assert(r[j] == s[j - 1]);
        } else if i == k {
            assert(r[j] == s[j - 1]);
            assert(s[k].entry >= s[j - 1].entry);
        } else {
            assert(r[i] == s[i - 1]);
            assert(r[j] == s[j - 1]);
        }
    }
}

proof fn lemma_sort_ordered(s: Seq<Task>)
    ensures
        newest_first(sort_by_entry(s)),
    decreases s.len(),
{
    if s.len() > 0 {
        lemma_sort_ordered(s.drop_last());
        lemma_insert_keeps_order(sort_by_entry(s.drop_last()), s.last());
    }
}

proof fn lemma_sort_multiset(s: Seq<Task>)
    ensures
        sort_by_entry(s).to_multiset() == s.to_multiset(),
    decreases s.len(),
{
    broadcast use vstd::seq_lib::group_to_multiset_ensures;

    if s.len() > 0 {
        lemma_sort_multiset(s.drop_last());
        let p = sort_by_entry(s.drop_last());
        lemma_insert_pos_bounds(p, s.last().entry);
        assert(s.drop_last().push(s.last()) =~= s);
    }
}

proof fn lemma_sort_of_ordered(s: Seq<Task>)
    requires
        newest_first(s),
    ensures
        sort_by_entry(s) == s,
    decreases s.len(),
{
    if s.len() > 0 {
        let p = s.drop_last();
        assert(newest_first(p));
        lemma_sort_of_ordered(p);
        lemma_insert_pos_bounds(p, s.last().entry);
        assert(insert_pos(p, s.last().entry) == p.len());
        assert(p.insert(p.len() as int, s.last()) =~= s);
    }
}

proof fn lemma_filter_all_pass(s: Seq<Task>, c: FilterCriteria, now: int)
    requires
        forall|i: int| 0 <= i < s.len() ==> task_matches(#[trigger] s[i], c, now),
    ensures
        filter_seq(s, c, now) == s,
    decreases s.len(),
{
    if s.len() > 0 {
        lemma_filter_all_pass(s.drop_last(), c, now);
        assert(s.drop_last().push(s.last()) =~= s);
    }
}

proof fn lemma_filter_passes(s: Seq<Task>, c: FilterCriteria, now: int)
    ensures
        forall|i: int|
            0 <= i < filter_seq(s, c, now).len() ==> task_matches(
                #[trigger] filter_seq(s, c, now)[i],
                c,
                now,
            ),
    decreases s.len(),
{
    if s.len() > 0 {
        lemma_filter_passes(s.drop_last(), c, now);
        let p = filter_seq(s.drop_last(), c, now);
        if task_matches(s.last(), c, now) {
            let q = p.push(s.last());
            assert forall|i: int| 0 <= i < q.len() implies task_matches(#[trigger] q[i], c, now) by {
                if i < p.len() {
                    assert(q[i] == p[i]);
                }
            }
        }
    }
}

/// Criteria that constrain nothing keep the whole snapshot: the view holds
/// exactly the snapshot's tasks, newest first.
pub proof fn lemma_empty_criteria_keeps_all(s: Seq<Task>, c: FilterCriteria, now: int)
    requires
        is_empty_criteria(c),
    ensures
        filtered_view(s, c, now) == sort_by_entry(s),
        filtered_view(s, c, now).to_multiset() == s.to_multiset(),
        newest_first(filtered_view(s, c, now)),
{
    lemma_filter_all_pass(s, c, now);
    lemma_sort_multiset(s);
    lemma_sort_ordered(s);
}

/// Filtering an already filtered view again with the same criteria changes nothing.
pub proof fn lemma_refilter_is_identity(s: Seq<Task>, c: FilterCriteria, now: int)
    ensures
        filtered_view(filtered_view(s, c, now), c, now) == filtered_view(s, c, now),
{
    broadcast use vstd::seq_lib::group_to_multiset_ensures;

    let f = filter_seq(s, c, now);
    let v = sort_by_entry(f);
    lemma_filter_passes(s, c, now);
    lemma_sort_multiset(f);
    lemma_sort_ordered(f);
    assert forall|i: int| 0 <= i < v.len() implies task_matches(#[trigger] v[i], c, now) by {
        assert(v.contains(v[i]));
        assert(v.to_multiset().count(v[i]) > 0);
        assert(f.contains(v[i]));
    }
    lemma_filter_all_pass(v, c, now);
    lemma_sort_of_ordered(v);
}

/// Position in `order` (indices into `tasks`) where a task created at `e` belongs.
fn find_slot(tasks: &Vec<Task>, order: &Vec<usize>, e: i64) -> (k: usize)
    requires
        forall|j: int| 0 <= j < order@.len() ==> (#[trigger] order@[j]) < tasks@.len(),
    ensures
        k == insert_pos(tasks_at(tasks@, order@), e),
{
    let ghost v = tasks_at(tasks@, order@);
    let mut k: usize = 0;
    while k < order.len() && tasks[order[k]].entry >= e
        invariant
            v == tasks_at(tasks@, order@),
            forall|j: int| 0 <= j < order@.len() ==> (#[trigger] order@[j]) < tasks@.len(),
            k <= order@.len(),
            forall|j: int| 0 <= j < k ==> (#[trigger] v[j]).entry >= e,
        decreases order@.len() - k,
    {
        k = k + 1;
    }
    proof {
        lemma_insert_pos_skip(v, e, k as int);
        let rest = v.subrange(k as int, v.len() as int);
        if k < order@.len() {
            assert(rest[0] == v[k as int]);
        }
    }
    k
}

/// Indices of the tasks that pass `c`, newest first, ties in snapshot order.
pub fn filter_indices(tasks: &Vec<Task>, c: &FilterCriteria, now: i64) -> (r: Vec<usize>)
    ensures
        forall|j: int| 0 <= j < r@.len() ==> (#[trigger] r@[j]) < tasks@.len(),
        tasks_at(tasks@, r@) == filtered_view(tasks@, *c, now as int),
{
    let mut r: Vec<usize> = Vec::new();
    let mut i: usize = 0;
    while i < tasks.len()
        invariant
            i <= tasks@.len(),
            forall|j: int| 0 <= j < r@.len() ==> (#[trigger] r@[j]) < tasks@.len(),
            tasks_at(tasks@, r@) == sort_by_entry(
                filter_seq(tasks@.subrange(0, i as int), *c, now as int),
            ),
        decreases tasks@.len() - i,
    {
        let ghost before = tasks@.subrange(0, i as int);
        let ghost after = tasks@.subrange(0, i as int + 1);
        proof {
            assert(after.drop_last() =~= before);
        }
        if matches_criteria(&tasks[i], c, now) {
            let k = find_slot(tasks, &r, tasks[i].entry);
            let ghost old_r = r@;
            proof {
                lemma_insert_pos_bounds(tasks_at(tasks@, old_r), tasks@[i as int].entry);
            }
            r.insert(k, i);
            proof {
                let f = filter_seq(before, *c, now as int);
                assert(filter_seq(after, *c, now as int) == f.push(tasks@[i as int]));
                assert(f.push(tasks@[i as int]).drop_last() =~= f);
                assert(tasks_at(tasks@, r@) =~= tasks_at(tasks@, old_r).insert(
                    k as int,
                    tasks@[i as int],
                ));
            }
        }
        i = i + 1;
    }
    assert(tasks@.subrange(0, tasks@.len() as int) =~= tasks@);
    r
}

/// The tasks that pass `c`, newest first, ties in snapshot order.
pub fn filter_tasks<'a>(tasks: &'a Vec<Task>, c: &FilterCriteria, now: i64) -> (r: Vec<&'a Task>)
    ensures
        derefs(r@) == filtered_view(tasks@, *c, now as int),
{
    let order = filter_indices(tasks, c, now);
    let mut r: Vec<&'a Task> = Vec::new();
    let mut j: usize = 0;
    while j < order.len()
        invariant
            j <= order@.len(),
            r@.len() == j,
            forall|m: int| 0 <= m < order@.len() ==> (#[trigger] order@[m]) < tasks@.len(),
            derefs(r@) == tasks_at(tasks@, order@).subrange(0, j as int),
        decreases order@.len() - j,
    {
        r.push(&tasks[order[j]]);
        proof {
            assert(*r@[j as int] == tasks_at(tasks@, order@)[j as int]);
            assert(derefs(r@) =~= tasks_at(tasks@, order@).subrange(0, j as int + 1));
        }
        j = j + 1;
    }
    assert(tasks_at(tasks@, order@).subrange(0, order@.len() as int) =~= tasks_at(tasks@, order@));
    r
}

/// First row whose uuid reads `u`.
pub open spec fn uuid_pos(s: Seq<Task>, u: Seq<char>) -> Option<int>
    decreases s.len(),
{
    if s.len() == 0 {
        None
    } else if s[0].uuid@ == u {
        Some(0)
    } else {
        match uuid_pos(s.drop_first(), u) {
            Some(k) => Some(k + 1),
            None => None,
        }
    }
}

/// No two tasks of the snapshot share a uuid.
pub open spec fn uuids_unique(s: Seq<Task>) -> bool {
    forall|i: int, j: int|
        0 <= i < s.len() && 0 <= j < s.len() && (#[trigger] s[i]).uuid@ == (#[trigger] s[j]).uuid@
            ==> i == j
}

pub proof fn lemma_uuid_pos(s: Seq<Task>, u: Seq<char>)
    ensures
        uuid_pos(s, u) is Some ==> {
            let k = uuid_pos(s, u)->0;
            &&& 0 <= k < s.len()
            &&& s[k].uuid@ == u
            &&& forall|j: int| 0 <= j < k ==> (#[trigger] s[j]).uuid@ != u
        },
        uuid_pos(s, u) is None ==> forall|j: int| 0 <= j < s.len() ==> (#[trigger] s[j]).uuid@ != u,
    decreases s.len(),
{
    if s.len() > 0 && s[0].uuid@ != u {
        lemma_uuid_pos(s.drop_first(), u);
        assert forall|j: int| 1 <= j < s.len() implies s[j] == s.drop_first()[j - 1] by {}
    }
}

proof fn lemma_filter_contains(s: Seq<Task>, c: FilterCriteria, now: int, x: Task)
    ensures
        filter_seq(s, c, now).contains(x) <==> (s.contains(x) && task_matches(x, c, now)),
    decreases s.len(),
{
    broadcast use vstd::seq_lib::group_seq_properties;

    if s.len() > 0 {
        let p = s.drop_last();
        lemma_filter_contains(p, c, now, x);
        assert(s =~= p.push(s.last()));
    }
}

/// Re-filtering keeps a task selected exactly while it still passes: when it
/// passes, the row found by its uuid is that task; when it no longer passes, no
/// row carries its uuid, so the selection is empty rather than another task.
pub proof fn lemma_selection_follows_task(s: Seq<Task>, c: FilterCriteria, now: int, i: int)
    requires
        0 <= i < s.len(),
        uuids_unique(s),
    ensures
        task_matches(s[i], c, now) ==> uuid_pos(filtered_view(s, c, now), s[i].uuid@) is Some
            && filtered_view(s, c, now)[uuid_pos(filtered_view(s, c, now), s[i].uuid@)->0]
            == s[i],
        !task_matches(s[i], c, now) ==> uuid_pos(filtered_view(s, c, now), s[i].uuid@) is None,
{
    broadcast use vstd::seq_lib::group_to_multiset_ensures;

    let f = filter_seq(s, c, now);
    let v = sort_by_entry(f);
    let u = s[i].uuid@;
    lemma_sort_multiset(f);
    lemma_uuid_pos(v, u);
    lemma_filter_contains(s, c, now, s[i]);
    assert(s.contains(s[i]));
    if uuid_pos(v, u) is Some {
        let k = uuid_pos(v, u)->0;
        let x = v[k];
        assert(v.contains(x));
        assert(v.to_multiset().count(x) > 0);
        assert(f.contains(x));
        lemma_filter_contains(s, c, now, x);
        let m = choose|m: int| 0 <= m < s.len() && s[m] == x;
        assert(s[m].uuid@ == s[i].uuid@);
        assert(m == i);
    } else if task_matches(s[i], c, now) {
        assert(f.contains(s[i]));
        assert(f.to_multiset().count(s[i]) > 0);
        assert(v.contains(s[i]));
        let k = choose|k: int| 0 <= k < v.len() && v[k] == s[i];
        assert(v[k].uuid@ == u);
    }
}

/// A uuid that no task of the snapshot carries selects no row after filtering,
/// whatever the criteria: the selection never lands on an unrelated task.
pub proof fn lemma_absent_uuid_selects_nothing(s: Seq<Task>, c: FilterCriteria, now: int, u: Seq<char>)
    requires
        forall|i: int| 0 <= i < s.len() ==> (#[trigger] s[i]).uuid@ != u,
    ensures
        uuid_pos(filtered_view(s, c, now), u) is None,
{
    broadcast use vstd::seq_lib::group_to_multiset_ensures;

    let f = filter_seq(s, c, now);
    let v = sort_by_entry(f);
    lemma_sort_multiset(f);
    lemma_uuid_pos(v, u);
    if uuid_pos(v, u) is Some {
        let k = uuid_pos(v, u)->0;
        let x = v[k];
        assert(v.contains(x));
        assert(v.to_multiset().count(x) > 0);
        assert(f.contains(x));
        lemma_filter_contains(s, c, now, x);
        let m = choose|m: int| 0 <= m < s.len() && s[m] == x;
        assert(s[m].uuid@ == u);
    }
}

} // verus!
