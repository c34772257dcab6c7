use vstd::prelude::*;
use crate::model::{Task, TaskStatus};
use crate::text::chars_of;

verus! {

/// Lexicographic order on characters (the order of `str`'s `Ord`).
pub open spec fn str_less(a: Seq<char>, b: Seq<char>) -> bool
    decreases a.len(),
{
    if a.len() == 0 {
        b.len() > 0
    } else if b.len() == 0 {
        false
    } else if a[0] != b[0] {
        a[0] < b[0]
    } else {
        str_less(a.drop_first(), b.drop_first())
    }
}

/// Each name is strictly smaller than the next one: sorted, no repeats.
pub open spec fn strictly_ascending(v: Seq<String>) -> bool {
    forall|i: int| 0 <= i < v.len() - 1 ==> str_less(#[trigger] v[i]@, v[i + 1]@)
}

/// The names held by a list of strings.
pub open spec fn names_of(v: Seq<String>) -> Set<Seq<char>> {
    Set::new(|s: Seq<char>| exists|i: int| 0 <= i < v.len() && (#[trigger] v[i])@ == s)
}

/// Tasks whose values are offered as filter choices.
pub open spec fn is_filterable(t: Task) -> bool {
    t.status == TaskStatus::Pending || t.status == TaskStatus::Waiting || t.status
        == TaskStatus::Recurring
}

/// Projects of the filterable tasks.
pub open spec fn project_names(s: Seq<Task>) -> Set<Seq<char>> {
    Set::new(
        |p: Seq<char>|
            exists|i: int|
                0 <= i < s.len() && is_filterable(#[trigger] s[i]) && s[i].project.is_some()
                    && s[i].project.unwrap()@ == p,
    )
}

/// Tags of the filterable tasks.
pub open spec fn tag_names(s: Seq<Task>) -> Set<Seq<char>> {
    Set::new(
        |g: Seq<char>|
            exists|i: int, j: int|
                0 <= i < s.len() && is_filterable(#[trigger] s[i]) && 0 <= j < s[i].tags@.len()
                    && (#[trigger] s[i].tags@[j])@ == g,
    )
}

proof fn lemma_less_skip(a: Seq<char>, b: Seq<char>, k: int)
    requires
        0 <= k <= a.len(),
        k <= b.len(),
        a.subrange(0, k) == b.subrange(0, k),
    ensures
        str_less(a, b) == str_less(a.subrange(k, a.len() as int), b.subrange(k, b.len() as int)),
    decreases k,
{
    if k == 0 {
        assert(a.subrange(0, a.len() as int) =~= a);
        assert(b.subrange(0, b.len() as int) =~= b);
    } else {
        assert(a.subrange(0, k - 1) =~= a.subrange(0, k).subrange(0, k - 1));
        assert(b.subrange(0, k - 1) =~= b.subrange(0, k).subrange(0, k - 1));
        lemma_less_skip(a, b, k - 1);
        let sa = a.subrange(k - 1, a.len() as int);
        let sb = b.subrange(k - 1, b.len() as int);
        assert(a.subrange(0, k)[k - 1] == a[k - 1]);
        assert(b.subrange(0, k)[k - 1] == b[k - 1]);
        assert(sa[0] == a[k - 1]);
        assert(sb[0] == b[k - 1]);
        assert(sa.drop_first() =~= a.subrange(k, a.len() as int));
        assert(sb.drop_first() =~= b.subrange(k, b.len() as int));
    }
}

proof fn lemma_less_total(a: Seq<char>, b: Seq<char>)
    requires
        !str_less(a, b),
        a != b,
    ensures
        str_less(b, a),
    decreases a.len(),
{
    if a.len() > 0 && b.len() > 0 && a[0] == b[0] {
        if a.drop_first() == b.drop_first() {
            assert(a =~= seq![a[0]] + a.drop_first());
            assert(b =~= seq![b[0]] + b.drop_first());
        }
        lemma_less_total(a.drop_first(), b.drop_first());
    } else if a.len() == 0 && b.len() == 0 {
        assert(a =~= b);
    }
}

/// Lexicographic comparison of two strings.
pub fn less_than(a: &String, b: &String) -> (r: bool)
    ensures
        r == str_less(a@, b@),
{
    let x = chars_of(a.as_str());
    let y = chars_of(b.as_str());
    let mut k: usize = 0;
    while k < x.len() && k < y.len() && x[k] == y[k]
        invariant
            x@ == a@,
            y@ == b@,
            k <= x@.len(),
            k <= y@.len(),
            x@.subrange(0, k as int) == y@.subrange(0, k as int),
        decreases x@.len() - k,
    {
        proof {
            assert(x@.subrange(0, k as int + 1) =~= x@.subrange(0, k as int).push(x@[k as int]));
            assert(y@.subrange(0, k as int + 1) =~= y@.subrange(0, k as int).push(y@[k as int]));
        }
        k = k + 1;
    }
    proof {
        lemma_less_skip(x@, y@, k as int);
    }
    let ghost sa = x@.subrange(k as int, x@.len() as int);
    let ghost sb = y@.subrange(k as int, y@.len() as int);
    if k == x.len() {
        k < y.len()
    } else if k == y.len() {
        false
    } else {
        assert(sa[0] == x@[k as int] && sb[0] == y@[k as int]);
        x[k] < y[k]
    }
}

/// Adds `name` to a strictly ascending list unless it is already there.
pub fn insert_name(v: &mut Vec<String>, name: &String)
    requires
        strictly_ascending(old(v)@),
    ensures
        strictly_ascending(final(v)@),
        names_of(final(v)@) == names_of(old(v)@).insert(name@),
{
    let ghost v0 = v@;
    let mut k: usize = 0;
    while k < v.len() && less_than(&v[k], name)
        invariant
            v@ == v0,
            strictly_ascending(v0),
            k <= v0.len(),
            k > 0 ==> str_less(v0[k - 1]@, name@),
        decreases v0.len() - k,
    {
        k = k + 1;
    }
    if k < v.len() && v[k] == *name {
        assert(names_of(v0).contains(name@));
        assert(names_of(v0).insert(name@) =~= names_of(v0));
        return;
    }
    proof {
        if k < v0.len() {
            lemma_less_total(v0[k as int]@, name@);
        }
    }
    v.insert(k, name.clone());
    proof {
        v0.insert_ensures(k as int, *name);
        assert forall|i: int| 0 <= i < v@.len() - 1 implies str_less(
            #[trigger] v@[i]@,
            v@[i + 1]@,
        ) by {
            if i + 1 < k {
            } else if i + 1 == k {
            } else if i == k {
            } else {
                assert(v@[i] == v0[i - 1]);
                assert(v@[i + 1] == v0[i]);
            }
        }
        assert forall|s: Seq<char>| names_of(v@).contains(s) <==> names_of(v0).insert(
            name@,
        ).contains(s) by {
            if names_of(v@).contains(s) {
                let i = choose|i: int| 0 <= i < v@.len() && (#[trigger] v@[i])@ == s;
                if i < k {
                } else if i == k {
                } else {
                    assert(v@[i] == v0[i - 1]);
                }
            }
            if names_of(v0).contains(s) {
                let i = choose|i: int| 0 <= i < v0.len() && (#[trigger] v0[i])@ == s;
                if i < k {
                    assert(v@[i] == v0[i]);
                } else {
                    assert(v@[i + 1] == v0[i]);
                }
            }
            if s == name@ {
                assert(v@[k as int] == *name);
            }
        }
        assert(names_of(v@) =~= names_of(v0).insert(name@));
    }
}

pub fn is_filterable_status(t: &Task) -> (r: bool)
    ensures
        r == is_filterable(*t),
{
    t.status == TaskStatus::Pending || t.status == TaskStatus::Waiting || t.status
        == TaskStatus::Recurring
}

/// Distinct projects of the pending, waiting and recurring tasks, sorted.
pub fn available_projects(tasks: &Vec<Task>) -> (r: Vec<String>)
    ensures
        strictly_ascending(r@),
        names_of(r@) == project_names(tasks@),
{
    let mut r: Vec<String> = Vec::new();
    let mut i: usize = 0;
    assert(names_of(r@) =~= project_names(tasks@.subrange(0, 0)));
    while i < tasks.len()
        invariant
            i <= tasks@.len(),
            strictly_ascending(r@),
            names_of(r@) == project_names(tasks@.subrange(0, i as int)),
        decreases tasks@.len() - i,
    {
        let ghost before = tasks@.subrange(0, i as int);
        let ghost after = tasks@.subrange(0, i as int + 1);
        let t = &tasks[i];
        if is_filterable_status(t) && t.project.is_some() {
            let p = t.project.as_ref().unwrap();
            insert_name(&mut r, p);
            assert forall|q: Seq<char>| project_names(after).contains(q) <==> project_names(
                before,
            ).insert(p@).contains(q) by {
                if project_names(after).contains(q) {
                    let m = choose|m: int|
                        0 <= m < after.len() && is_filterable(#[trigger] after[m])
                            && after[m].project.is_some() && after[m].project.unwrap()@ == q;
                    if m < i {
                        assert(before[m] == after[m]);
                    }
                }
                if project_names(before).contains(q) {
                    let m = choose|m: int|
                        0 <= m < before.len() && is_filterable(#[trigger] before[m])
                            && before[m].project.is_some() && before[m].project.unwrap()@ == q;
                    assert(before[m] == after[m]);
                }
                if q == p@ {
                    assert(after[i as int] == *t);
                }
            }
            assert(project_names(after) =~= project_names(before).insert(p@));
        } else {
            assert forall|q: Seq<char>| project_names(after).contains(q) <==> project_names(
                before,
            ).contains(q) by {
                if project_names(after).contains(q) {
                    let m = choose|m: int|
                        0 <= m < after.len() && is_filterable(#[trigger] after[m])
                            && after[m].project.is_some() && after[m].project.unwrap()@ == q;
                    if m < i {
                        assert(before[m] == after[m]);
                    } else {
                        assert(after[m] == *t);
                    }
                }
                if project_names(before).contains(q) {
                    let m = choose|m: int|
                        0 <= m < before.len() && is_filterable(#[trigger] before[m])
                            && before[m].project.is_some() && before[m].project.unwrap()@ == q;
                    assert(before[m] == after[m]);
                }
            }
            assert(project_names(after) =~= project_names(before));
        }
        i = i + 1;
    }
    assert(tasks@.subrange(0, tasks@.len() as int) =~= tasks@);
    r
}

/// Tags of the tasks in `s` whose index is below `i`, plus the first `j` tags of task `i`.
pub open spec fn tag_names_upto(s: Seq<Task>, i: int, j: int) -> Set<Seq<char>> {
    Set::new(
        |g: Seq<char>|
            exists|m: int, n: int|
                0 <= m <= i && m < s.len() && is_filterable(#[trigger] s[m]) && 0 <= n
                    < s[m].tags@.len() && (m < i || n < j) && (#[trigger] s[m].tags@[n])@ == g,
    )
}

/// Distinct tags of the pending, waiting and recurring tasks, sorted.
pub fn available_tags(tasks: &Vec<Task>) -> (r: Vec<String>)
    ensures
        strictly_ascending(r@),
        names_of(r@) == tag_names(tasks@),
{
    let mut r: Vec<String> = Vec::new();
    let mut i: usize = 0;
    assert(names_of(r@) =~= tag_names_upto(tasks@, 0, 0));
    while i < tasks.len()
        invariant
            i <= tasks@.len(),
            strictly_ascending(r@),
            names_of(r@) == tag_names_upto(tasks@, i as int, 0),
        decreases tasks@.len() - i,
    {
        let t = &tasks[i];
        if is_filterable_status(t) {
            let mut j: usize = 0;
            while j < t.tags.len()
                invariant
                    i < tasks@.len(),
                    *t == tasks@[i as int],
                    is_filterable(*t),
                    j <= t.tags@.len(),
                    strictly_ascending(r@),
                    names_of(r@) == tag_names_upto(tasks@, i as int, j as int),
                decreases t.tags@.len() - j,
            {
                let ghost prev = tag_names_upto(tasks@, i as int, j as int);
                insert_name(&mut r, &t.tags[j]);
                let ghost g = t.tags@[j as int]@;
                assert forall|q: Seq<char>| tag_names_upto(
                    tasks@,
                    i as int,
                    j as int + 1,
                ).contains(q) <==> prev.insert(g).contains(q) by {
                    if q == g {
                        assert(tasks@[i as int].tags@[j as int]@ == g);
                    }
                }
                assert(tag_names_upto(tasks@, i as int, j as int + 1) =~= prev.insert(g));
                j = j + 1;
            }
            assert(tag_names_upto(tasks@, i as int, j as int) =~= tag_names_upto(
                tasks@,
                i as int + 1,
                0,
            ));
        } else {
            assert(tag_names_upto(tasks@, i as int, 0) =~= tag_names_upto(
                tasks@,
                i as int + 1,
                0,
            ));
        }
        i = i + 1;
    }
    assert forall|g: Seq<char>| tag_names_upto(tasks@, i as int, 0).contains(g) <==> tag_names(
        tasks@,
    ).contains(g) by {
        if tag_names(tasks@).contains(g) {
            let (m, n) = choose|m: int, n: int|
                0 <= m < tasks@.len() && is_filterable(#[trigger] tasks@[m]) && 0 <= n
                    < tasks@[m].tags@.len() && (#[trigger] tasks@[m].tags@[n])@ == g;
            assert(m < i);
        }
    }
    assert(tag_names_upto(tasks@, i as int, 0) =~= tag_names(tasks@));
    r
}

} // verus!
