use vstd::prelude::*;
use crate::model::{Task, TaskStatus, Priority};
use crate::text::push_char;

verus! {

/// Window for completed tasks in the feed, in seconds (7 days).
pub const COMPLETED_WINDOW: i64 = 604800;

/// Window for newly created tasks in the feed, in seconds (3 days).
pub const CREATED_WINDOW: i64 = 259200;

/// Why a task appears in the activity feed.
#[derive(Debug, Clone, Copy, PartialEq, Eq, Structural)]
pub enum ActivityKind {
    Completed,
    Created,
}

/// One line of the activity feed: when, why, which task of the snapshot, and
/// how long ago in words.
pub struct ActivityEntry {
    pub at: i64,
    pub kind: ActivityKind,
    pub task_index: usize,
    pub label: String,
}

/// The parts of an entry that order and identify it.
pub type ActivityKey = (int, ActivityKind, int);

pub open spec fn key_of(e: ActivityEntry) -> ActivityKey {
    (e.at as int, e.kind, e.task_index as int)
}

pub open spec fn keys_of(v: Seq<ActivityEntry>) -> Seq<ActivityKey> {
    v.map_values(|e: ActivityEntry| key_of(e))
}

/// The feed items a single task contributes: its completion, then its creation.
pub open spec fn items_of(t: Task, idx: int, now: int) -> Seq<ActivityKey> {
    let done: Seq<ActivityKey> = if t.status == TaskStatus::Completed && t.end.is_some()
        && t.end.unwrap() > now - COMPLETED_WINDOW {
        seq![(t.end.unwrap() as int, ActivityKind::Completed, idx)]
    } else {
        Seq::empty()
    };
    let made: Seq<ActivityKey> = if t.entry > now - CREATED_WINDOW {
        seq![(t.entry as int, ActivityKind::Created, idx)]
    } else {
        Seq::empty()
    };
    done + made
}

/// All feed items of a snapshot, in snapshot order.
pub open spec fn feed_items(s: Seq<Task>, now: int) -> Seq<ActivityKey>
    decreases s.len(),
{
    if s.len() == 0 {
        Seq::empty()
    } else {
        feed_items(s.drop_last(), now) + items_of(s.last(), s.len() - 1, now)
    }
}

/// Where an item at instant `e` goes in a newest-first list (after equal instants).
pub open spec fn slot_of(s: Seq<ActivityKey>, e: int) -> nat
    decreases s.len(),
{
    if s.len() == 0 {
        0
    } else if s[0].0 < e {
        0
    } else {
        1 + slot_of(s.drop_first(), e)
    }
}

pub open spec fn insert_item(s: Seq<ActivityKey>, x: ActivityKey) -> Seq<ActivityKey> {
    s.insert(slot_of(s, x.0) as int, x)
}

/// Stable sort of feed items, newest first.
pub open spec fn sort_items(s: Seq<ActivityKey>) -> Seq<ActivityKey>
    decreases s.len(),
{
    if s.len() == 0 {
        s
    } else {
        insert_item(sort_items(s.drop_last()), s.last())
    }
}

/// The feed: all items newest first, at most `max` of them.
pub open spec fn feed(s: Seq<Task>, now: int, max: int) -> Seq<ActivityKey> {
    let all = sort_items(feed_items(s, now));
    if max < all.len() {
        all.subrange(0, max)
    } else {
        all
    }
}

pub open spec fn digit_char(d: int) -> char {
    if d == 0 {
        '0'
    } else if d == 1 {
        '1'
    } else if d == 2 {
        '2'
    } else if d == 3 {
        '3'
    } else if d == 4 {
        '4'
    } else if d == 5 {
        '5'
    } else if d == 6 {
        '6'
    } else if d == 7 {
        '7'
    } else if d == 8 {
        '8'
    } else {
        '9'
    }
}

/// Decimal digits of a natural number, most significant first.
pub open spec fn digits(n: nat) -> Seq<char>
    decreases n,
{
    if n < 10 {
        seq![digit_char(n as int)]
    } else {
        digits(n / 10).push(digit_char((n % 10) as int))
    }
}

/// Decimal text of an integer, with a leading '-' when negative.
pub open spec fn decimal(n: int) -> Seq<char> {
    if n < 0 {
        seq!['-'] + digits((-n) as nat)
    } else {
        digits(n as nat)
    }
}

/// Division rounding toward zero.
pub open spec fn div_toward_zero(a: int, b: int) -> int {
    if a >= 0 {
        a / b
    } else {
        -((-a) / b)
    }
}

/// "Xmin ago" under an hour, "Xh ago" under a day, "Xd ago" otherwise; the
/// units are whole, rounded toward zero.
pub open spec fn age_label(elapsed: int) -> Seq<char> {
    let minutes = div_toward_zero(elapsed, 60);
    let hours = div_toward_zero(elapsed, 3600);
    let days = div_toward_zero(elapsed, 86400);
    if minutes < 60 {
        decimal(minutes) + "min ago"@
    } else if hours < 24 {
        decimal(hours) + "h ago"@
    } else {
        decimal(days) + "d ago"@
    }
}

fn digit_of(d: u128) -> (c: char)
    requires
        d < 10,
    ensures
        c == digit_char(d as int),
{
    if d == 0 {
        '0'
    } else if d == 1 {
        '1'
    } else if d == 2 {
        '2'
    } else if d == 3 {
        '3'
    } else if d == 4 {
        '4'
    } else if d == 5 {
        '5'
    } else if d == 6 {
        '6'
    } else if d == 7 {
        '7'
    } else if d == 8 {
        '8'
    } else {
        '9'
    }
}

fn push_digits(s: &mut String, n: u128)
    ensures
        final(s)@ == old(s)@ + digits(n as nat),
    decreases n,
{
    if n < 10 {
        push_char(s, digit_of(n));
        assert(final(s)@ =~= old(s)@ + digits(n as nat));
    } else {
        push_digits(s, n / 10);
        push_char(s, digit_of(n % 10));
        assert(final(s)@ =~= old(s)@ + digits(n as nat));
    }
}

/// Decimal text of an integer.
pub fn decimal_text(n: i128) -> (r: String)
    requires
        n > i128::MIN,
    ensures
        r@ == decimal(n as int),
{
    let mut s = String::new();
    if n < 0 {
        push_char(&mut s, '-');
        let m: i128 = -n;
        push_digits(&mut s, m as u128);
        assert(s@ =~= seq!['-'] + digits((-n) as nat));
    } else {
        push_digits(&mut s, n as u128);
        assert(s@ =~= digits(n as nat));
    }
    s
}

fn quotient_toward_zero(a: i128, b: i128) -> (r: i128)
    requires
        b > 0,
        a > i128::MIN,
    ensures
        r == div_toward_zero(a as int, b as int),
{
    if a >= 0 {
        a / b
    } else {
        -((-a) / b)
    }
}

/// The human-relative label for something `elapsed` seconds ago.
pub fn age_text(elapsed: i128) -> (r: String)
    requires
        elapsed > i128::MIN,
    ensures
        r@ == age_label(elapsed as int),
{
    let minutes = quotient_toward_zero(elapsed, 60);
    if minutes < 60 {
        return decimal_text(minutes).concat("min ago");
    }
    let hours = quotient_toward_zero(elapsed, 3600);
    if hours < 24 {
        return decimal_text(hours).concat("h ago");
    }
    decimal_text(quotient_toward_zero(elapsed, 86400)).concat("d ago")
}

proof fn lemma_slot_bounds(s: Seq<ActivityKey>, e: int)
    ensures
        slot_of(s, e) <= s.len(),
    decreases s.len(),
{
    if s.len() > 0 && s[0].0 >= e {
        lemma_slot_bounds(s.drop_first(), e);
    }
}

proof fn lemma_slot_skip(s: Seq<ActivityKey>, e: int, k: int)
    requires
        0 <= k <= s.len(),
        forall|j: int| 0 <= j < k ==> s[j].0 >= e,
    ensures
        slot_of(s, e) == k + slot_of(s.subrange(k, s.len() as int), e),
    decreases k,
{
    if k == 0 {
        assert(s.subrange(0, s.len() as int) =~= s);
    } else {
        lemma_slot_skip(s, e, k - 1);
        let sub = s.subrange(k - 1, s.len() as int);
        assert(sub[0] == s[k - 1]);
        assert(sub.drop_first() =~= s.subrange(k, s.len() as int));
    }
}

fn find_item_slot(v: &Vec<ActivityEntry>, e: i64) -> (k: usize)
    ensures
        k == slot_of(keys_of(v@), e as int),
{
    let ghost ks = keys_of(v@);
    let mut k: usize = 0;
    while k < v.len() && v[k].at >= e
        invariant
            ks == keys_of(v@),
            k <= v@.len(),
            forall|j: int| 0 <= j < k ==> (#[trigger] ks[j]).0 >= e,
        decreases v@.len() - k,
    {
        assert(ks[k as int] == key_of(v@[k as int]));
        k = k + 1;
    }
    proof {
        lemma_slot_skip(ks, e as int, k as int);
        if k < v@.len() {
            assert(ks.subrange(k as int, ks.len() as int)[0] == ks[k as int]);
        }
    }
    k
}

/// Every entry's label tells how long before `now` it happened.
pub open spec fn labels_agree(v: Seq<ActivityEntry>, now: int) -> bool {
    forall|k: int| 0 <= k < v.len() ==> (#[trigger] v[k]).label@ == age_label(now - v[k].at)
}

fn insert_entry(v: &mut Vec<ActivityEntry>, e: ActivityEntry, now: i64)
    requires
        labels_agree(old(v)@, now as int),
        e.label@ == age_label(now - e.at),
    ensures
        keys_of(final(v)@) == insert_item(keys_of(old(v)@), key_of(e)),
        labels_agree(final(v)@, now as int),
{
    let k = find_item_slot(v, e.at);
    let ghost v0 = v@;
    let ghost key = key_of(e);
    proof {
        lemma_slot_bounds(keys_of(v0), e.at as int);
    }
    v.insert(k, e);
    proof {
        v0.insert_ensures(k as int, e);
        keys_of(v0).insert_ensures(k as int, key);
        assert(keys_of(v@) =~= keys_of(v0).insert(k as int, key));
        assert forall|j: int| 0 <= j < v@.len() implies (#[trigger] v@[j]).label@ == age_label(
            now - v@[j].at,
        ) by {
            if j < k {
                assert(v@[j] == v0[j]);
            } else if j > k {
                assert(v@[j] == v0[j - 1]);
            }
        }
    }
}

/// Recent activity: tasks completed within the last 7 days (by completion
/// time) and tasks created within the last 3 days (by creation time), newest
/// first (ties keep snapshot order, completion before creation), at most `max`
/// entries, each labelled with how long ago it happened.
pub fn recent_activity(tasks: &Vec<Task>, now: i64, max: usize) -> (r: Vec<ActivityEntry>)
    ensures
        keys_of(r@) == feed(tasks@, now as int, max as int),
        labels_agree(r@, now as int),
{
    let mut r: Vec<ActivityEntry> = Vec::new();
    let mut i: usize = 0;
    while i < tasks.len()
        invariant
            i <= tasks@.len(),
            keys_of(r@) == sort_items(feed_items(tasks@.subrange(0, i as int), now as int)),
            labels_agree(r@, now as int),
        decreases tasks@.len() - i,
    {
        let ghost before = tasks@.subrange(0, i as int);
        let ghost after = tasks@.subrange(0, i as int + 1);
        let ghost f0 = feed_items(before, now as int);
        proof {
            assert(after.drop_last() =~= before);
            assert(after.last() == tasks@[i as int]);
        }
        let t = &tasks[i];
        let ghost mid = f0;
        if t.status == TaskStatus::Completed && t.end.is_some() {
            let end = t.end.unwrap();
            if (end as i128) > (now as i128) - (COMPLETED_WINDOW as i128) {
                let e = ActivityEntry {
                    at: end,
                    kind: ActivityKind::Completed,
                    task_index: i,
                    label: age_text((now as i128) - (end as i128)),
                };
                let ghost prev = keys_of(r@);
                insert_entry(&mut r, e, now);
                proof {
                    mid = f0.push((end as int, ActivityKind::Completed, i as int));
                    assert(mid.drop_last() =~= f0);
                }
            }
        }
        assert(keys_of(r@) == sort_items(mid));
        if (t.entry as i128) > (now as i128) - (CREATED_WINDOW as i128) {
            let e = ActivityEntry {
                at: t.entry,
                kind: ActivityKind::Created,
                task_index: i,
                label: age_text((now as i128) - (t.entry as i128)),
            };
            let ghost m0 = mid;
            insert_entry(&mut r, e, now);
            proof {
                mid = m0.push((t.entry as int, ActivityKind::Created, i as int));
                assert(mid.drop_last() =~= m0);
            }
        }
        proof {
            assert(feed_items(after, now as int) =~= mid);
        }
        i = i + 1;
    }
    assert(tasks@.subrange(0, tasks@.len() as int) =~= tasks@);
    let ghost all = keys_of(r@);
    let ghost full = r@;
    r.truncate(max);
    proof {
        if max < full.len() {
            assert(keys_of(r@) =~= all.subrange(0, max as int));
        } else {
            assert(r@ == full);
        }
        assert forall|k: int| 0 <= k < r@.len() implies (#[trigger] r@[k]).label@ == age_label(
            now - r@[k].at,
        ) by {
            assert(r@[k] == full[k]);
        }
    }
    r
}

pub open spec fn priority_suffix(p: Option<Priority>) -> Seq<char> {
    match p {
        Some(Priority::High) => " [H]"@,
        Some(Priority::Medium) => " [M]"@,
        Some(Priority::Low) => " [L]"@,
        None => Seq::empty(),
    }
}

/// The headline of a feed entry.
pub open spec fn activity_title_of(t: Task, kind: ActivityKind) -> Seq<char> {
    match kind {
        ActivityKind::Completed => match t.project {
            Some(p) => "Completed in ["@ + p@ + "]"@,
            None => "Completed (no project)"@,
        },
        ActivityKind::Created => {
            let what = if t.tags@.len() == 0 {
                if t.due is Some {
                    "Task+due added"@
                } else {
                    "Task added"@
                }
            } else {
                if t.due is Some {
                    "Task+tags+due added"@
                } else {
                    "Task+tags added"@
                }
            };
            match t.project {
                Some(p) => what + " to ["@ + p@ + "]"@ + priority_suffix(t.priority),
                None => what + priority_suffix(t.priority),
            }
        },
    }
}

/// The headline of a feed entry: what happened, in which project, and the
/// priority of a new task.
pub fn activity_title(task: &Task, kind: ActivityKind) -> (r: String)
    ensures
        r@ == activity_title_of(*task, kind),
{
    match kind {
        ActivityKind::Completed => match &task.project {
            Some(p) => String::from_str("Completed in [").concat(p.as_str()).concat("]"),
            None => String::from_str("Completed (no project)"),
        },
        ActivityKind::Created => {
            let what: &str = if task.tags.len() == 0 {
                if task.due.is_some() {
                    "Task+due added"
                } else {
                    "Task added"
                }
            } else {
                if task.due.is_some() {
                    "Task+tags+due added"
                } else {
                    "Task+tags added"
                }
            };
            let suffix: &str = match task.priority {
                Some(Priority::High) => " [H]",
                Some(Priority::Medium) => " [M]",
                Some(Priority::Low) => " [L]",
                None => "",
            };
            proof {
                reveal_strlit("");
                assert(suffix@ == priority_suffix(task.priority));
            }
            match &task.project {
                Some(p) => String::from_str(what).concat(" to [").concat(p.as_str()).concat(
                    "]",
                ).concat(suffix),
                None => String::from_str(what).concat(suffix),
            }
        },
    }
}

/// When the next pending task of a project is due, `ahead` seconds from now
/// (whole days, rounded toward zero).
pub open spec fn next_due_label(ahead: int) -> Seq<char> {
    let days = div_toward_zero(ahead, 86400);
    if days < 0 {
        decimal(-days) + "d ago"@
    } else if days == 0 {
        "Today"@
    } else if days == 1 {
        "Tomorrow"@
    } else {
        decimal(days) + "d"@
    }
}

/// Text for the next due date of a project, `ahead` seconds from now.
pub fn next_due_text(ahead: i128) -> (r: String)
    requires
        ahead > i128::MIN,
    ensures
        r@ == next_due_label(ahead as int),
{
    let days = quotient_toward_zero(ahead, 86400);
    if days < 0 {
        decimal_text(-days).concat("d ago")
    } else if days == 0 {
        String::from_str("Today")
    } else if days == 1 {
        String::from_str("Tomorrow")
    } else {
        decimal_text(days).concat("d")
    }
}

/// A task completed within the week and a task created within three days
/// both appear, the later of the two instants first: here the completion,
/// which is more recent than the creation.
pub proof fn lemma_recent_completion_before_older_creation(a: Task, b: Task, now: int, max: int)
    requires
        a.status == TaskStatus::Completed,
        a.end is Some,
        a.end->0 > now - COMPLETED_WINDOW,
        a.entry <= now - CREATED_WINDOW,
        !(b.status == TaskStatus::Completed && b.end is Some && b.end->0 > now - COMPLETED_WINDOW),
        b.entry > now - CREATED_WINDOW,
        a.end->0 > b.entry,
        max >= 2,
    ensures
        feed(seq![a, b], now, max) == seq![
            (a.end->0 as int, ActivityKind::Completed, 0int),
            (b.entry as int, ActivityKind::Created, 1int),
        ],
{
    let s = seq![a, b];
    let ka = (a.end->0 as int, ActivityKind::Completed, 0int);
    let kb = (b.entry as int, ActivityKind::Created, 1int);
    assert(items_of(a, 0, now) =~= seq![ka]);
    assert(items_of(b, 1, now) =~= seq![kb]);
    assert(s.drop_last() =~= seq![a]);
    assert(seq![a].drop_last() =~= Seq::<Task>::empty());
    assert(feed_items(Seq::<Task>::empty(), now) =~= Seq::<ActivityKey>::empty());
    assert(feed_items(seq![a], now) =~= seq![ka]);
    assert(feed_items(s, now) =~= seq![ka, kb]);
    let one = seq![ka];
    assert(seq![ka, kb].drop_last() =~= one);
    assert(one.drop_last() =~= Seq::<ActivityKey>::empty());
    assert(sort_items(Seq::<ActivityKey>::empty()) =~= Seq::<ActivityKey>::empty());
    assert(slot_of(Seq::<ActivityKey>::empty(), ka.0) == 0);
    assert(sort_items(one) =~= one);
    assert(one.drop_first() =~= Seq::<ActivityKey>::empty());
    assert(one[0] == ka);
    assert(!(one[0].0 < kb.0));
    assert(slot_of(one.drop_first(), kb.0) == 0);
    assert(slot_of(one, kb.0) == 1);
    assert(sort_items(seq![ka, kb]) =~= seq![ka, kb]);
}

} // verus!
