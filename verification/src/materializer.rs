//! Materialization of recurrence rules into concrete occurrences:
//! once per day and rule, exactly one occurrence is created, guarded
//! twice — by the occurrences already on today's timeline and by a
//! persisted idempotency marker, which is authoritative across
//! process restarts.

use vstd::prelude::*;
use crate::calendar::{CivilDate, DayContext};
use crate::records::{Matter, RepeatTask};
use crate::recurrence::{
    created_matter_matches, spec_available_on, spec_time_range, RepeatTaskHandler,
};

verus! {

/// The idempotency markers of one day's materialization run: which
/// (task, date) pairs already produced their occurrence. The host
/// persists them in its settings store under per-task, per-date keys
/// and rebuilds this ledger from it on every tick.
pub struct IdempotencyLedger {
    entries: Vec<MarkerKey>,
}

/// One idempotency marker: the named task was already materialized on
/// the named date.
#[derive(Debug, Clone)]
pub struct MarkerKey {
    pub task_id: String,
    pub date: CivilDate,
}

/// The set of (task, date) pairs a sequence of markers stands for.
pub open spec fn marker_set(entries: Seq<MarkerKey>) -> Set<(Seq<char>, CivilDate)> {
    Set::new(
        |k: (Seq<char>, CivilDate)|
            exists|i: int|
                0 <= i < entries.len() && (#[trigger] entries[i]).task_id@ == k.0
                    && entries[i].date == k.1,
    )
}

impl View for IdempotencyLedger {
    type V = Set<(Seq<char>, CivilDate)>;

    closed spec fn view(&self) -> Set<(Seq<char>, CivilDate)> {
        marker_set(self.entries@)
    }
}

proof fn lemma_marker_set_push(entries: Seq<MarkerKey>, e: MarkerKey)
    ensures
        marker_set(entries.push(e)) == marker_set(entries).insert((e.task_id@, e.date)),
{
    let a = marker_set(entries.push(e));
    let b = marker_set(entries).insert((e.task_id@, e.date));
    assert forall|k: (Seq<char>, CivilDate)| a.contains(k) implies b.contains(k) by {
        let i = choose|i: int|
            0 <= i < entries.push(e).len() && (#[trigger] entries.push(e)[i]).task_id@ == k.0
                && entries.push(e)[i].date == k.1;
        if i < entries.len() {
            assert(entries.push(e)[i] == entries[i]);
            assert(marker_set(entries).contains(k));
        } else {
            assert(entries.push(e)[i] == e);
        }
    }
    assert forall|k: (Seq<char>, CivilDate)| b.contains(k) implies a.contains(k) by {
        if k == (e.task_id@, e.date) {
            assert((#[trigger] entries.push(e)[entries.len() as int]).task_id@ == k.0
                && entries.push(e)[entries.len() as int].date == k.1);
        } else {
            let i = choose|i: int|
                0 <= i < entries.len() && (#[trigger] entries[i]).task_id@ == k.0
                    && entries[i].date == k.1;
            assert((#[trigger] entries.push(e)[i]).task_id@ == k.0 && entries.push(e)[i].date
                == k.1);
        }
    }
    assert(a =~= b);
}

impl IdempotencyLedger {
    /// An empty ledger, holding no markers.
    pub fn new() -> (r: IdempotencyLedger)
        ensures
            r@ == Set::<(Seq<char>, CivilDate)>::empty(),
    {
        let r = IdempotencyLedger { entries: Vec::new() };
        proof {
            assert(r@ =~= Set::<(Seq<char>, CivilDate)>::empty());
        }
        r
    }

    /// Whether the marker for `task_id` on `date` is present.
    pub fn contains(&self, task_id: &String, date: &CivilDate) -> (r: bool)
        ensures
            r == self@.contains((task_id@, *date)),
    {
        let n: usize = self.entries.len();
        let mut i: usize = 0;
        while i < n
            invariant
                i <= n,
                n == self.entries@.len(),
                forall|j: int|
                    0 <= j < i ==> !((#[trigger] self.entries@[j]).task_id@ == task_id@
                        && self.entries@[j].date == *date),
            decreases n - i,
        {
            let e: &MarkerKey = &self.entries[i];
            if e.task_id == *task_id && e.date == *date {
                return true;
            }
            i = i + 1;
        }
        false
    }

    /// Adds the marker for `task_id` on `date`.
    pub fn mark(&mut self, task_id: String, date: CivilDate)
        ensures
            final(self)@ == old(self)@.insert((task_id@, date)),
    {
        let ghost tid = task_id@;
        let ghost olde = self.entries@;
        self.entries.push(MarkerKey { task_id, date });
        proof {
            let e = self.entries@[olde.len() as int];
            assert(self.entries@ =~= olde.push(e));
            assert(e.task_id@ == tid && e.date == date);
            lemma_marker_set_push(olde, e);
        }
    }
}

/// An occurrence whose back-reference is `task_id` and whose start
/// lies in `[lo, hi]`.
pub open spec fn back_ref_within(m: Matter, task_id: Seq<char>, lo: int, hi: int) -> bool {
    &&& lo <= m.start_time <= hi
    &&& m.reserved_2 matches Some(back) && back@ == task_id
}

/// Today's timeline already holds an occurrence whose back-reference
/// is `task_id` and whose start lies in `[lo, hi]`.
pub open spec fn spec_has_generated(
    matters: Seq<Matter>,
    task_id: Seq<char>,
    lo: int,
    hi: int,
) -> bool {
    exists|i: int|
        0 <= i < matters.len() && back_ref_within(#[trigger] matters[i], task_id, lo, hi)
}

/// Whether one task materializes now: it is active today, today's
/// timeline holds no occurrence of it yet, no idempotency marker for
/// it exists, and its daily time range does not end before it starts
/// — an occurrence never ends before its start.
pub open spec fn spec_should_create(
    task: RepeatTask,
    matters: Seq<Matter>,
    led: Set<(Seq<char>, CivilDate)>,
    day: DayContext,
) -> bool {
    &&& spec_available_on(
        task.repeat_time@,
        day.date.year as int,
        day.date.month as int,
        day.date.day as int,
    )
    &&& !spec_has_generated(
        matters,
        task.id@,
        day.midnight_utc as int,
        day.midnight_utc + 86399,
    )
    &&& !led.contains((task.id@, day.date))
    &&& {
        let t = spec_time_range(task.repeat_time@)->0;
        t.0 <= t.1
    }
}

/// The plan of one materialization pass: which tasks create their
/// occurrence today, in order, and the markers the ledger holds
/// afterwards. Each creation marks its task at once, so a task
/// listed twice creates only once.
pub open spec fn spec_materialize(
    tasks: Seq<RepeatTask>,
    matters: Seq<Matter>,
    led: Set<(Seq<char>, CivilDate)>,
    day: DayContext,
) -> (Seq<RepeatTask>, Set<(Seq<char>, CivilDate)>)
    decreases tasks.len(),
{
    if tasks.len() == 0 {
        (Seq::<RepeatTask>::empty(), led)
    } else {
        let t = tasks[0];
        if spec_should_create(t, matters, led, day) {
            let rest = spec_materialize(
                tasks.drop_first(),
                matters,
                led.insert((t.id@, day.date)),
                day,
            );
            (seq![t] + rest.0, rest.1)
        } else {
            spec_materialize(tasks.drop_first(), matters, led, day)
        }
    }
}

fn has_generated_matter(matters: &Vec<Matter>, task_id: &String, lo: i64, hi: i64) -> (r: bool)
    ensures
        r == spec_has_generated(matters@, task_id@, lo as int, hi as int),
{
    let n: usize = matters.len();
    let mut i: usize = 0;
    while i < n
        invariant
            i <= n,
            n == matters@.len(),
            forall|j: int|
                0 <= j < i ==> !back_ref_within(
                    #[trigger] matters@[j],
                    task_id@,
                    lo as int,
                    hi as int,
                ),
        decreases n - i,
    {
        let m: &Matter = &matters[i];
        let hit: bool = m.start_time >= lo && m.start_time <= hi && match &m.reserved_2 {
            Some(back) => *back == *task_id,
            None => false,
        };
        if hit {
            assert(back_ref_within(matters@[i as int], task_id@, lo as int, hi as int));
            return true;
        }
        i = i + 1;
    }
    false
}

/// One materialization pass over the active recurring tasks: for each
/// task that is active today and not yet materialized — on the
/// timeline or in the ledger — builds its occurrence for today and
/// marks the ledger. Returns the occurrences to persist, in task
/// order; the caller writes them and the new markers to its stores.
pub fn check_repeat_tasks(
    tasks: &Vec<RepeatTask>,
    matters: &Vec<Matter>,
    ledger: &mut IdempotencyLedger,
    day: &DayContext,
) -> (created: Vec<Matter>)
    requires
        day.wf(),
    ensures
        ({
            let plan = spec_materialize(tasks@, matters@, old(ledger)@, *day);
            &&& final(ledger)@ == plan.1
            &&& created@.len() == plan.0.len()
            &&& forall|i: int|
                0 <= i < created@.len() ==> {
                    let tr = spec_time_range(plan.0[i].repeat_time@)->0;
                    created_matter_matches(#[trigger] created@[i], plan.0[i], *day, tr.0, tr.1)
                }
            &&& forall|i: int| 0 <= i < created@.len() ==> (#[trigger] created@[i]).wf()
        }),
{
    let ghost full = spec_materialize(tasks@, matters@, ledger@, *day);
    let ghost mut done: Seq<RepeatTask> = Seq::<RepeatTask>::empty();
    let mut created: Vec<Matter> = Vec::new();
    let n: usize = tasks.len();
    let mut idx: usize = 0;
    let lo: i64 = day.midnight_utc;
    let hi: i64 = day.midnight_utc + 86399;
    proof {
        assert(tasks@.skip(0) =~= tasks@);
    }
    while idx < n
        invariant
            idx <= n,
            n == tasks@.len(),
            day.wf(),
            lo == day.midnight_utc,
            hi == day.midnight_utc + 86399,
            full == spec_materialize(tasks@, matters@, old(ledger)@, *day),
            ({
                let rest = spec_materialize(tasks@.skip(idx as int), matters@, ledger@, *day);
                full.0 == done + rest.0 && full.1 == rest.1
            }),
            created@.len() == done.len(),
            forall|i: int|
                0 <= i < created@.len() ==> {
                    let tr = spec_time_range(done[i].repeat_time@)->0;
                    created_matter_matches(#[trigger] created@[i], done[i], *day, tr.0, tr.1)
                },
            forall|i: int| 0 <= i < created@.len() ==> (#[trigger] created@[i]).wf(),
        decreases n - idx,
    {
        let task: &RepeatTask = &tasks[idx];
        proof {
            assert(tasks@.skip(idx as int)[0] == tasks@[idx as int]);
            assert(tasks@.skip(idx as int).drop_first() =~= tasks@.skip(idx as int + 1));
        }
        let available: bool = RepeatTaskHandler::is_available_today(task, &day.date);
        if available {
            let on_timeline: bool = has_generated_matter(matters, &task.id, lo, hi);
            if !on_timeline {
                let marked: bool = ledger.contains(&task.id, &day.date);
                if !marked {
                    if let Some(range) = RepeatTaskHandler::get_time_range(task) {
                        if range.0.secs <= range.1.secs {
                            let m: Matter = RepeatTaskHandler::create_today_task(task, day, range);
                            assert(m.wf());
                            created.push(m);
                            ledger.mark(task.id.clone(), day.date);
                            proof {
                                done = done + seq![tasks@[idx as int]];
                                assert(full.0 == done + spec_materialize(
                                    tasks@.skip(idx as int + 1),
                                    matters@,
                                    ledger@,
                                    *day,
                                ).0);
                            }
                        } else {
                            // a range that ends before it starts never
                            // materializes
                            assert(!spec_should_create(tasks@[idx as int], matters@, ledger@, *day));
                        }
                    } else {
                        // excluded: an active rule always carries a
                        // parsed time range
                        assert(false);
                    }
                }
            }
        }
        idx = idx + 1;
    }
    proof {
        assert(tasks@.skip(n as int) =~= Seq::<RepeatTask>::empty());
    }
    created
}

/// Markers only accumulate: every marker present before a pass is
/// still present after it.
proof fn lemma_materialize_ledger_grows(
    tasks: Seq<RepeatTask>,
    matters: Seq<Matter>,
    led: Set<(Seq<char>, CivilDate)>,
    day: DayContext,
)
    ensures
        led.subset_of(spec_materialize(tasks, matters, led, day).1),
    decreases tasks.len(),
{
    if tasks.len() > 0 {
        let t = tasks[0];
        if spec_should_create(t, matters, led, day) {
            lemma_materialize_ledger_grows(
                tasks.drop_first(),
                matters,
                led.insert((t.id@, day.date)),
                day,
            );
        } else {
            lemma_materialize_ledger_grows(tasks.drop_first(), matters, led, day);
        }
    }
}

proof fn lemma_has_generated_monotone(
    matters: Seq<Matter>,
    extra: Seq<Matter>,
    task_id: Seq<char>,
    lo: int,
    hi: int,
)
    requires
        spec_has_generated(matters, task_id, lo, hi),
    ensures
        spec_has_generated(matters + extra, task_id, lo, hi),
{
    let i = choose|i: int|
        0 <= i < matters.len() && back_ref_within(#[trigger] matters[i], task_id, lo, hi);
    assert((matters + extra)[i] == matters[i]);
}

/// A pass whose markers are all already present, over a timeline that
/// holds at least what the earlier pass saw, creates nothing.
proof fn lemma_no_recreation(
    tasks: Seq<RepeatTask>,
    matters: Seq<Matter>,
    extra: Seq<Matter>,
    led: Set<(Seq<char>, CivilDate)>,
    led2: Set<(Seq<char>, CivilDate)>,
    day: DayContext,
)
    requires
        led.subset_of(led2),
        spec_materialize(tasks, matters, led, day).1.subset_of(led2),
    ensures
        spec_materialize(tasks, matters + extra, led2, day).0 =~= Seq::<RepeatTask>::empty(),
    decreases tasks.len(),
{
    if tasks.len() > 0 {
        let t = tasks[0];
        let key = (t.id@, day.date);
        if spec_should_create(t, matters, led, day) {
            lemma_materialize_ledger_grows(
                tasks.drop_first(),
                matters,
                led.insert(key),
                day,
            );
            assert(led2.contains(key));
            assert(!spec_should_create(t, matters + extra, led2, day));
            lemma_no_recreation(tasks.drop_first(), matters, extra, led.insert(key), led2, day);
        } else {
            if spec_has_generated(matters, t.id@, day.midnight_utc as int, day.midnight_utc
                + 86399) {
                lemma_has_generated_monotone(
                    matters,
                    extra,
                    t.id@,
                    day.midnight_utc as int,
                    day.midnight_utc + 86399,
                );
            }
            assert(!spec_should_create(t, matters + extra, led2, day));
            lemma_no_recreation(tasks.drop_first(), matters, extra, led, led2, day);
        }
    }
}

/// Materialization is idempotent within a day: after one pass, a
/// second pass over the same tasks and date — with the ledger the
/// first pass left and a timeline extended by any further occurrences
/// — plans no creation at all.
pub proof fn lemma_materialize_idempotent(
    tasks: Seq<RepeatTask>,
    matters: Seq<Matter>,
    extra: Seq<Matter>,
    led: Set<(Seq<char>, CivilDate)>,
    day: DayContext,
)
    ensures
        ({
            let first = spec_materialize(tasks, matters, led, day);
            spec_materialize(tasks, matters + extra, first.1, day).0 =~= Seq::<
                RepeatTask,
            >::empty()
        }),
{
    let first = spec_materialize(tasks, matters, led, day);
    lemma_materialize_ledger_grows(tasks, matters, led, day);
    lemma_no_recreation(tasks, matters, extra, led, first.1, day);
}

} // verus!
