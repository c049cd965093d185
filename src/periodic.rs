use vstd::prelude::*;

use vstd::arithmetic::div_mod::lemma_fundamental_div_mod_converse;

use crate::helpers::{u16_bytes, u16_to_bytes};
use crate::protocol::{CommandCode, CommandMessage};

verus! {

/// The scheduler's tick in milliseconds, and the quantum of every frequency.
pub const BASE_FREQUENCY: u32 = 50;

/// A requested frequency rounded down to a multiple of the tick, and never
/// below one tick.
pub open spec fn quantized(freq: u32) -> u32 {
    if freq <= BASE_FREQUENCY {
        BASE_FREQUENCY
    } else {
        (freq - freq % BASE_FREQUENCY) as u32
    }
}

/// A recurring call of entrypoint `entry` of module `module`.
#[derive(Clone, Copy, Debug)]
pub struct PeriodicTask {
    module: u16,
    entry: u16,
    frequency: u32,
    counter: u32,
}

impl PeriodicTask {
    /// The frequency is a positive multiple of the tick, and the counter a
    /// multiple of the tick below it.
    #[verifier::type_invariant]
    spec fn inv(self) -> bool {
        &&& self.frequency >= BASE_FREQUENCY
        &&& self.frequency % BASE_FREQUENCY == 0
        &&& self.counter % BASE_FREQUENCY == 0
        &&& self.counter < self.frequency
    }

    pub closed spec fn module(self) -> u16 {
        self.module
    }

    pub closed spec fn entry(self) -> u16 {
        self.entry
    }

    /// The effective frequency in milliseconds.
    pub closed spec fn frequency(self) -> u32 {
        self.frequency
    }

    /// The time in milliseconds accumulated since the task last fired.
    pub closed spec fn counter(self) -> u32 {
        self.counter
    }

    /// Whether the next tick makes the task fire.
    pub open spec fn fires(self) -> bool {
        self.counter() + BASE_FREQUENCY >= self.frequency()
    }

    /// The counter that the next tick leaves.
    pub open spec fn next_counter(self) -> int {
        if self.fires() {
            0
        } else {
            self.counter() + BASE_FREQUENCY
        }
    }

    /// Whether `t` holds the state that the next tick leaves in `self`.
    pub open spec fn ticked_to(self, t: PeriodicTask) -> bool {
        &&& t.module() == self.module()
        &&& t.entry() == self.entry()
        &&& t.frequency() == self.frequency()
        &&& t.counter() == self.next_counter()
    }

    pub fn new(module: u16, entry: u16, frequency: u32) -> (r: PeriodicTask)
        ensures
            r.module() == module,
            r.entry() == entry,
            r.frequency() == quantized(frequency),
            r.counter() == 0,
            r.frequency() % BASE_FREQUENCY == 0,
    {
        PeriodicTask { module, entry, frequency: set_frequency(frequency), counter: 0 }
    }

    /// Advances the counter by one tick; when it reaches the frequency it is
    /// reset and the result says that the entrypoint is due.
    pub fn increment_counter(&mut self) -> (r: bool)
        ensures
            r == old(self).fires(),
            old(self).ticked_to(*final(self)),
            final(self).counter() < final(self).frequency(),
            final(self).frequency() % BASE_FREQUENCY == 0,
            final(self).counter() % BASE_FREQUENCY == 0,
    {
        proof {
            use_type_invariant(&*self);
        }
        let c = self.counter + BASE_FREQUENCY;
        if c >= self.frequency {
            self.counter = 0;
            true
        } else {
            self.counter = c;
            false
        }
    }

    pub fn get_module(&self) -> (r: u16)
        ensures
            r == self.module(),
    {
        self.module
    }

    pub fn get_entry(&self) -> (r: u16)
        ensures
            r == self.entry(),
    {
        self.entry
    }

    pub fn get_frequency(&self) -> (r: u32)
        ensures
            r == self.frequency(),
    {
        self.frequency
    }

    pub fn get_counter(&self) -> (r: u32)
        ensures
            r == self.counter(),
    {
        self.counter
    }
}

/// Rounds a requested frequency down to a multiple of the tick, with a floor
/// of one tick.
pub fn set_frequency(freq: u32) -> (r: u32)
    ensures
        r == quantized(freq),
        r >= BASE_FREQUENCY,
        r % BASE_FREQUENCY == 0,
        r <= freq || freq < BASE_FREQUENCY,
{
    if freq <= BASE_FREQUENCY {
        BASE_FREQUENCY
    } else {
        freq - freq % BASE_FREQUENCY
    }
}

/// The tasks of `tasks` that fire on the next tick, in order, as they stand
/// after that tick.
pub open spec fn due_tasks(before: Seq<PeriodicTask>, after: Seq<PeriodicTask>) -> Seq<PeriodicTask>
    decreases before.len(),
{
    if before.len() == 0 || after.len() != before.len() {
        Seq::empty()
    } else {
        let rest = due_tasks(before.drop_last(), after.drop_last());
        if before.last().fires() {
            rest.push(after.last())
        } else {
            rest
        }
    }
}

/// One scan of the scheduler: every task advances by one tick, and the tasks
/// that fired come back, in order, as copies to call once no lock is held.
pub fn scan_tasks(tasks: &mut Vec<PeriodicTask>) -> (due: Vec<PeriodicTask>)
    ensures
        final(tasks)@.len() == old(tasks)@.len(),
        forall|i: int|
            0 <= i < old(tasks)@.len() ==> #[trigger] old(tasks)@[i].ticked_to(final(tasks)@[i]),
        forall|i: int|
            0 <= i < final(tasks)@.len() ==> #[trigger] final(tasks)@[i].counter()
                < final(tasks)@[i].frequency(),
        forall|i: int|
            0 <= i < final(tasks)@.len() ==> #[trigger] final(tasks)@[i].frequency()
                % BASE_FREQUENCY == 0 && final(tasks)@[i].counter() % BASE_FREQUENCY == 0,
        due@ == due_tasks(old(tasks)@, final(tasks)@),
{
    let ghost before = tasks@;
    let mut due: Vec<PeriodicTask> = Vec::new();
    let mut i: usize = 0;
    while i < tasks.len()
        invariant
            tasks@.len() == before.len(),
            i <= before.len(),
            forall|j: int| 0 <= j < i ==> #[trigger] before[j].ticked_to(tasks@[j]),
            forall|j: int| 0 <= j < i ==> #[trigger] tasks@[j].counter() < tasks@[j].frequency(),
            forall|j: int|
                0 <= j < i ==> #[trigger] tasks@[j].frequency() % BASE_FREQUENCY == 0
                    && tasks@[j].counter() % BASE_FREQUENCY == 0,
            forall|j: int| i <= j < before.len() ==> tasks@[j] == before[j],
            due@ == due_tasks(before.subrange(0, i as int), tasks@.subrange(0, i as int)),
        decreases before.len() - i,
    {
        let ghost prev = tasks@;
        let mut t = tasks[i];
        let fired = t.increment_counter();
        tasks[i] = t;
        if fired {
            due.push(t);
        }
        let ghost b = before.subrange(0, i + 1);
        let ghost a = tasks@.subrange(0, i + 1);
        assert(b.drop_last() =~= before.subrange(0, i as int));
        assert(a.drop_last() =~= prev.subrange(0, i as int));
        assert(b.last() == before[i as int]);
        assert(a.last() == t);
        i = i + 1;
    }
    assert(before.subrange(0, i as int) =~= before);
    assert(tasks@.subrange(0, i as int) =~= tasks@);
    due
}

/// The payload that calls a task's entrypoint: module id, then entry id.
pub open spec fn call_payload(module: u16, entry: u16) -> Seq<u8> {
    u16_bytes(module) + u16_bytes(entry)
}

/// The command that fires `task` at this host's manager.
pub fn fire_command(task: &PeriodicTask) -> (r: CommandMessage)
    ensures
        r.code == CommandCode::CallEntrypoint,
        r.payload matches Some(p) && p@ == call_payload(task.module(), task.entry()),
{
    let m = u16_to_bytes(task.get_module());
    let e = u16_to_bytes(task.get_entry());
    let mut payload: Vec<u8> = Vec::with_capacity(4);
    payload.push(m[0]);
    payload.push(m[1]);
    payload.push(e[0]);
    payload.push(e[1]);
    assert(payload@ =~= call_payload(task.module(), task.entry()));
    CommandMessage::new(CommandCode::CallEntrypoint, Some(payload))
}

/// A task of frequency one hundred fires on every second tick: its counter
/// runs 0, 50, 0, and only the second tick fires.
pub proof fn lemma_fires_every_second_tick(t0: PeriodicTask, t1: PeriodicTask, t2: PeriodicTask)
    requires
        t0.frequency() == 100,
        t0.counter() == 0,
        t0.ticked_to(t1),
        t1.ticked_to(t2),
    ensures
        !t0.fires(),
        t1.counter() == 50,
        t1.fires(),
        t2.counter() == 0,
        t2.module() == t0.module() && t2.entry() == t0.entry() && t2.frequency() == t0.frequency(),
{
}

/// The time accumulated after `n` ticks by a task of frequency `f` that
/// starts from zero, and how it moves on the next tick.
proof fn lemma_tick_arith(n: int, f: int)
    requires
        n >= 0,
        f >= 50,
        f % 50 == 0,
    ensures
        0 <= (n * 50) % f,
        (n * 50) % f + 50 <= f,
        (n * 50) % f + 50 == f ==> ((n + 1) * 50) % f == 0,
        (n * 50) % f + 50 < f ==> ((n + 1) * 50) % f == (n * 50) % f + 50,
{
    let x = n * 50;
    let q = x / f;
    let c = x % f;
    let k = f / 50;
    assert(f == 50 * k);
    assert(0 <= c < f && x == q * f + c) by (nonlinear_arith)
        requires
            f > 0,
            q == x / f,
            c == x % f,
    ;
    let m = n - q * k;
    assert(c == 50 * m) by (nonlinear_arith)
        requires
            x == q * f + c,
            x == n * 50,
            f == 50 * k,
            m == n - q * k,
    ;
    assert(c + 50 <= f) by (nonlinear_arith)
        requires
            c == 50 * m,
            f == 50 * k,
            c < f,
    ;
    assert((n + 1) * 50 == q * f + (c + 50)) by (nonlinear_arith)
        requires
            x == q * f + c,
            x == n * 50,
    ;
    if c + 50 == f {
        assert((n + 1) * 50 == (q + 1) * f + 0) by (nonlinear_arith)
            requires
                (n + 1) * 50 == q * f + (c + 50),
                c + 50 == f,
        ;
        lemma_fundamental_div_mod_converse((n + 1) * 50, f, q + 1, 0);
    } else {
        lemma_fundamental_div_mod_converse((n + 1) * 50, f, q, c + 50);
    }
}

/// A task whose counter starts at zero, ticked over and over, holds after
/// `n` ticks the time since the last multiple of its frequency, and fires on
/// exactly the ticks that complete such a multiple: a task of frequency `f`
/// fires once every `f / 50` ticks.
pub proof fn lemma_firing_schedule(ts: Seq<PeriodicTask>)
    requires
        ts.len() >= 1,
        ts[0].counter() == 0,
        ts[0].frequency() >= BASE_FREQUENCY,
        ts[0].frequency() % BASE_FREQUENCY == 0,
        forall|i: int| 0 <= i < ts.len() - 1 ==> #[trigger] ts[i].ticked_to(ts[i + 1]),
    ensures
        forall|n: int|
            #![trigger ts[n]]
            0 <= n < ts.len() ==> ts[n].counter() == (n * 50) % (ts[0].frequency() as int)
                && ts[n].frequency() == ts[0].frequency(),
        forall|n: int|
            #![trigger ts[n]]
            0 <= n < ts.len() - 1 ==> (ts[n].fires() <==> ((n + 1) * 50) % (
            ts[0].frequency() as int) == 0),
{
    let f = ts[0].frequency() as int;
    assert forall|n: int| #![trigger ts[n]] 0 <= n < ts.len() implies ts[n].counter() == (n * 50) % (
    ts[0].frequency() as int) && ts[n].frequency() == ts[0].frequency() by {
        lemma_schedule_prefix(ts, n);
    }
    assert forall|n: int| #![trigger ts[n]] 0 <= n < ts.len() - 1 implies (ts[n].fires() <==> ((n + 1)
        * 50) % f == 0) by {
        lemma_schedule_prefix(ts, n);
        lemma_tick_arith(n, f);
    }
}

proof fn lemma_schedule_prefix(ts: Seq<PeriodicTask>, n: int)
    requires
        0 <= n < ts.len(),
        ts[0].counter() == 0,
        ts[0].frequency() >= BASE_FREQUENCY,
        ts[0].frequency() % BASE_FREQUENCY == 0,
        forall|i: int| 0 <= i < ts.len() - 1 ==> #[trigger] ts[i].ticked_to(ts[i + 1]),
    ensures
        ts[n].counter() == (n * 50) % (ts[0].frequency() as int),
        ts[n].frequency() == ts[0].frequency(),
    decreases n,
{
    let f = ts[0].frequency() as int;
    if n == 0 {
        assert(0int % f == 0) by (nonlinear_arith)
            requires
                f > 0,
        ;
        assert(0 * 50 == 0int);
    } else {
        lemma_schedule_prefix(ts, n - 1);
        lemma_tick_arith(n - 1, f);
        assert(ts[n - 1].ticked_to(ts[n]));
        assert((n - 1 + 1) == n);
    }
}

/// Effective frequencies: at or below one tick gives one tick, otherwise the
/// request rounded down to a multiple of the tick.
pub proof fn lemma_quantized_examples()
    ensures
        quantized(30) == 50,
        quantized(50) == 50,
        quantized(130) == 100,
        forall|f: u32| f > BASE_FREQUENCY ==> #[trigger] quantized(f) <= f && quantized(f) + BASE_FREQUENCY > f,
{
}

} // verus!
