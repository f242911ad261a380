//! Slow-frame phase attribution and the bounded aggregation windows that
//! publish at most one report per scope and interval.
//!
//! Times are nanoseconds: instants since a process-wide origin, durations as
//! lengths. The caller samples the clock and formats the report.

use vstd::prelude::*;

use crate::search::{first_from, lemma_first_from, lemma_first_from_unique};
use crate::text::{lemma_str_less_total, lemma_str_less_transitive, str_equal, str_less, str_lt};

verus! {

/// Phase slots retained for one profiled frame.
pub const PHASE_SLOTS: usize = 16;

/// A frame at least this long is slow.
pub const SLOW_FRAME_NANOS: u128 = 5_000_000;

/// A window publishes once this much wall-clock time has passed.
pub const REPORT_INTERVAL_NANOS: u128 = 2_000_000_000;

/// The longest representable duration (`Duration::MAX`) in nanoseconds.
pub const MAX_DURATION_NANOS: u128 = 18_446_744_073_709_551_615_999_999_999;

/// `Duration::saturating_sub`.
pub open spec fn sat_sub(a: u128, b: u128) -> u128 {
    if a >= b {
        (a - b) as u128
    } else {
        0
    }
}

pub open spec fn max_u128(a: u128, b: u128) -> u128 {
    if a >= b {
        a
    } else {
        b
    }
}

/// Elapsed time attributed to one named phase of a frame.
#[derive(Clone, Copy, Debug)]
pub struct PhaseSample {
    pub label: &'static str,
    pub elapsed: u128,
}

/// Sampled phases of one frame: each mark attributes the time since the
/// previous mark; only the first sixteen marks keep a slot.
pub struct PhaseMarks {
    previous: u128,
    phases: Vec<PhaseSample>,
}

/// The samples after marking `label` at `elapsed`, the previous mark being at
/// `previous`: the time since it is attributed while a slot is free.
pub open spec fn mark_step(
    previous: u128,
    samples: Seq<PhaseSample>,
    label: &'static str,
    elapsed: u128,
) -> Seq<PhaseSample> {
    if samples.len() < PHASE_SLOTS {
        samples.push(PhaseSample { label, elapsed: sat_sub(elapsed, previous) })
    } else {
        samples
    }
}

impl PhaseMarks {
    pub closed spec fn previous(&self) -> u128 {
        self.previous
    }

    pub closed spec fn samples(&self) -> Seq<PhaseSample> {
        self.phases@
    }

    pub fn new() -> (marks: Self)
        ensures
            marks.previous() == 0,
            marks.samples() == Seq::<PhaseSample>::empty(),
    {
        PhaseMarks { previous: 0, phases: Vec::new() }
    }

    /// Attributes `elapsed - previous` to `label` while a slot is free.
    pub fn mark(&mut self, label: &'static str, elapsed: u128)
        ensures
            final(self).previous() == elapsed,
            final(self).samples() == mark_step(
                old(self).previous(),
                old(self).samples(),
                label,
                elapsed,
            ),
    {
        if self.phases.len() < PHASE_SLOTS {
            let delta = if elapsed >= self.previous {
                elapsed - self.previous
            } else {
                0
            };
            self.phases.push(PhaseSample { label, elapsed: delta });
        }
        self.previous = elapsed;
    }

    /// The retained phase samples, in marking order.
    pub fn phases(&self) -> (phases: &[PhaseSample])
        ensures
            phases@ == self.samples(),
    {
        self.phases.as_slice()
    }

    /// Time after the last mark, attributed to no phase.
    pub fn tail(&self, elapsed: u128) -> (tail: u128)
        ensures
            tail == sat_sub(elapsed, self.previous()),
    {
        if elapsed >= self.previous {
            elapsed - self.previous
        } else {
            0
        }
    }
}

/// The phase marks of one profiled transaction. Profiling is enabled per
/// process; a disabled profile records nothing, whatever is marked.
pub struct FrameProfile {
    scope: &'static str,
    enabled: bool,
    marks: PhaseMarks,
}

impl FrameProfile {
    #[verifier::type_invariant]
    spec fn disabled_is_empty(&self) -> bool {
        !self.enabled ==> self.marks.samples().len() == 0 && self.marks.previous() == 0
    }

    pub closed spec fn scope(&self) -> &'static str {
        self.scope
    }

    pub closed spec fn enabled(&self) -> bool {
        self.enabled
    }

    pub closed spec fn samples(&self) -> Seq<PhaseSample> {
        self.marks.samples()
    }

    pub closed spec fn previous(&self) -> u128 {
        self.marks.previous()
    }

    pub fn new(scope: &'static str, enabled: bool) -> (profile: Self)
        ensures
            profile.scope() == scope,
            profile.enabled() == enabled,
            profile.samples() == Seq::<PhaseSample>::empty(),
            profile.previous() == 0,
    {
        FrameProfile { scope, enabled, marks: PhaseMarks::new() }
    }

    pub fn label(&self) -> (scope: &'static str)
        ensures
            scope == self.scope(),
    {
        self.scope
    }

    pub fn is_enabled(&self) -> (enabled: bool)
        ensures
            enabled == self.enabled(),
    {
        self.enabled
    }

    /// Attributes `elapsed - previous` to `phase` when profiling is enabled;
    /// a disabled profile stays empty.
    pub fn mark(&mut self, phase: &'static str, elapsed: u128)
        ensures
            final(self).scope() == old(self).scope(),
            final(self).enabled() == old(self).enabled(),
            !old(self).enabled() ==> final(self).samples() == Seq::<PhaseSample>::empty()
                && final(self).previous() == 0,
            old(self).enabled() ==> final(self).previous() == elapsed && final(self).samples()
                == mark_step(old(self).previous(), old(self).samples(), phase, elapsed),
    {
        proof {
            use_type_invariant(&*self);
        }
        if self.enabled {
            let mut marks = PhaseMarks::new();
            std::mem::swap(&mut marks, &mut self.marks);
            marks.mark(phase, elapsed);
            self.marks = marks;
        }
    }

    /// The retained phase samples, in marking order.
    pub fn phases(&self) -> (phases: &[PhaseSample])
        ensures
            phases@ == self.samples(),
    {
        self.marks.phases()
    }

    /// Time after the last mark, attributed to no phase.
    pub fn tail(&self, elapsed: u128) -> (tail: u128)
        ensures
            tail == sat_sub(elapsed, self.previous()),
    {
        self.marks.tail(elapsed)
    }
}

/// Cumulative timing of one phase name within a window.
#[derive(Clone, Copy, Debug, PartialEq, Eq)]
pub struct PhaseTotal {
    pub samples: u64,
    pub elapsed: u128,
    pub maximum: u128,
}

pub open spec fn zero_total() -> PhaseTotal {
    PhaseTotal { samples: 0, elapsed: 0, maximum: 0 }
}

impl PhaseTotal {
    pub fn zero() -> (total: PhaseTotal)
        ensures
            total == zero_total(),
    {
        PhaseTotal { samples: 0, elapsed: 0, maximum: 0 }
    }

    pub open spec fn bumped(self, elapsed: u128) -> PhaseTotal {
        PhaseTotal {
            samples: (self.samples + 1) as u64,
            elapsed: (self.elapsed + elapsed) as u128,
            maximum: max_u128(self.maximum, elapsed),
        }
    }

    pub open spec fn can_bump(self, elapsed: u128) -> bool {
        self.samples < u64::MAX && self.elapsed + elapsed <= MAX_DURATION_NANOS
    }
}

/// A phase name and its totals.
#[derive(Clone, Copy, Debug)]
pub struct PhaseEntry {
    pub label: &'static str,
    pub total: PhaseTotal,
}

/// Index of the entry named `label`, or the length.
pub open spec fn entry_index(entries: Seq<PhaseEntry>, label: Seq<char>) -> int {
    first_from(entries, 0, |e: PhaseEntry| e.label@ == label)
}

/// Where a new entry named `label` goes: before the first greater name.
pub open spec fn insertion_index(entries: Seq<PhaseEntry>, label: Seq<char>) -> int {
    first_from(entries, 0, |e: PhaseEntry| str_less(label, e.label@))
}

/// Folds one phase sample into the named totals; a new name takes its place
/// in name order.
pub open spec fn add_phase(entries: Seq<PhaseEntry>, sample: PhaseSample) -> Seq<PhaseEntry> {
    let k = entry_index(entries, sample.label@);
    if k < entries.len() {
        entries.update(
            k,
            PhaseEntry { label: entries[k].label, total: entries[k].total.bumped(sample.elapsed) },
        )
    } else {
        entries.insert(
            insertion_index(entries, sample.label@),
            PhaseEntry { label: sample.label, total: zero_total().bumped(sample.elapsed) },
        )
    }
}

/// Folds a frame's phases in order.
pub open spec fn add_phases(entries: Seq<PhaseEntry>, samples: Seq<PhaseSample>) -> Seq<PhaseEntry>
    decreases samples.len(),
{
    if samples.len() == 0 {
        entries
    } else {
        add_phase(add_phases(entries, samples.drop_last()), samples.last())
    }
}

/// Folding a frame's phases overflows no total.
pub open spec fn phases_fit(entries: Seq<PhaseEntry>, samples: Seq<PhaseSample>) -> bool
    decreases samples.len(),
{
    if samples.len() == 0 {
        true
    } else {
        let before = add_phases(entries, samples.drop_last());
        let k = entry_index(before, samples.last().label@);
        &&& phases_fit(entries, samples.drop_last())
        &&& if k < before.len() {
            before[k].total.can_bump(samples.last().elapsed)
        } else {
            zero_total().can_bump(samples.last().elapsed)
        }
    }
}

/// Entries are kept in `str` order of their names, each name once: the
/// order in which a map keyed by name is walked.
pub open spec fn sorted_labels(entries: Seq<PhaseEntry>) -> bool {
    forall|i: int, j: int|
        0 <= i < j < entries.len() ==> str_less(
            (#[trigger] entries[i]).label@,
            (#[trigger] entries[j]).label@,
        )
}

/// Every entry keeps its name, with its totals cleared.
pub open spec fn cleared(entries: Seq<PhaseEntry>) -> Seq<PhaseEntry> {
    Seq::new(entries.len(), |i: int| PhaseEntry { label: entries[i].label, total: zero_total() })
}

/// Mathematical state of one aggregation window.
pub struct ProfileWindowState {
    pub started: u128,
    pub samples: u64,
    pub elapsed: u128,
    pub maximum: u128,
    pub slow_frames: u64,
    pub cycles: u128,
    pub cycle_samples: u64,
    pub tail: u128,
    pub phases: Seq<PhaseEntry>,
    pub worst_phases: Seq<PhaseSample>,
}

impl ProfileWindowState {
    pub open spec fn well_formed(self) -> bool {
        &&& self.slow_frames <= self.samples
        &&& self.cycle_samples <= self.samples
        &&& self.worst_phases.len() <= PHASE_SLOTS
        &&& sorted_labels(self.phases)
    }

    /// Recording this frame overflows no counter or duration sum.
    pub open spec fn can_record(
        self,
        elapsed: u128,
        cycles: Option<u64>,
        phases: Seq<PhaseSample>,
        tail: u128,
    ) -> bool {
        &&& self.samples < u64::MAX
        &&& self.elapsed + elapsed <= MAX_DURATION_NANOS
        &&& self.tail + tail <= MAX_DURATION_NANOS
        &&& cycles matches Some(c) ==> self.cycles + c <= u128::MAX && self.cycle_samples < u64::MAX
        &&& phases_fit(self.phases, phases)
    }

    /// The window after accounting one frame.
    pub open spec fn recorded(
        self,
        elapsed: u128,
        cycles: Option<u64>,
        phases: Seq<PhaseSample>,
        tail: u128,
    ) -> Self {
        let worst = elapsed >= self.maximum;
        ProfileWindowState {
            samples: (self.samples + 1) as u64,
            elapsed: (self.elapsed + elapsed) as u128,
            slow_frames: (self.slow_frames + if elapsed >= SLOW_FRAME_NANOS {
                1int
            } else {
                0int
            }) as u64,
            tail: (self.tail + tail) as u128,
            cycles: match cycles {
                Some(c) => (self.cycles + c) as u128,
                None => self.cycles,
            },
            cycle_samples: match cycles {
                Some(_) => (self.cycle_samples + 1) as u64,
                None => self.cycle_samples,
            },
            maximum: if worst {
                elapsed
            } else {
                self.maximum
            },
            worst_phases: if worst {
                phases.take(if phases.len() < PHASE_SLOTS {
                    phases.len() as int
                } else {
                    PHASE_SLOTS as int
                })
            } else {
                self.worst_phases
            },
            phases: add_phases(self.phases, phases),
            ..self
        }
    }

    /// Whether the window's wall-clock interval has elapsed at `now`.
    pub open spec fn ready(self, now: u128) -> bool {
        sat_sub(now, self.started) >= REPORT_INTERVAL_NANOS
    }

    /// A fresh interval from `now` that keeps the known phase names.
    pub open spec fn reset_at(self, now: u128) -> Self {
        ProfileWindowState {
            started: now,
            samples: 0,
            elapsed: 0,
            maximum: 0,
            slow_frames: 0,
            cycles: 0,
            cycle_samples: 0,
            tail: 0,
            phases: cleared(self.phases),
            worst_phases: Seq::empty(),
        }
    }
}

/// Cumulative timings and the worst complete frame of the current window.
pub struct ProfileWindow {
    started: u128,
    samples: u64,
    elapsed: u128,
    maximum: u128,
    slow_frames: u64,
    cycles: u128,
    cycle_samples: u64,
    tail: u128,
    phases: Vec<PhaseEntry>,
    worst_phases: Vec<PhaseSample>,
}

impl View for ProfileWindow {
    type V = ProfileWindowState;

    closed spec fn view(&self) -> ProfileWindowState {
        ProfileWindowState {
            started: self.started,
            samples: self.samples,
            elapsed: self.elapsed,
            maximum: self.maximum,
            slow_frames: self.slow_frames,
            cycles: self.cycles,
            cycle_samples: self.cycle_samples,
            tail: self.tail,
            phases: self.phases@,
            worst_phases: self.worst_phases@,
        }
    }
}

/// Folding one sample keeps the names in order.
proof fn lemma_add_phase_sorted(entries: Seq<PhaseEntry>, sample: PhaseSample)
    requires
        sorted_labels(entries),
    ensures
        sorted_labels(add_phase(entries, sample)),
{
    let label = sample.label@;
    let p = |e: PhaseEntry| e.label@ == sample.label@;
    lemma_first_from(entries, 0, p);
    let k = entry_index(entries, sample.label@);
    let next = add_phase(entries, sample);
    if k < entries.len() {
        let e = PhaseEntry { label: entries[k].label, total: entries[k].total.bumped(sample.elapsed) };
        assert(next == entries.update(k, e));
        assert forall|i: int, j: int| 0 <= i < j < next.len() implies str_less(
            (#[trigger] next[i]).label@,
            (#[trigger] next[j]).label@,
        ) by {
            assert(next[i].label@ == entries[i].label@) by {
                if i == k {
                    assert(next[i] == e);
                } else {
                    assert(next[i] == entries[i]);
                }
            }
            assert(next[j].label@ == entries[j].label@) by {
                if j == k {
                    assert(next[j] == e);
                } else {
                    assert(next[j] == entries[j]);
                }
            }
        }
    } else {
        let lt = |e: PhaseEntry| str_less(sample.label@, e.label@);
        lemma_first_from(entries, 0, lt);
        let q = insertion_index(entries, label);
        assert forall|i: int| 0 <= i < q implies str_less(entries[i].label@, label) by {
            assert(!lt(entries[i]));
            assert(!p(entries[i]));
            lemma_str_less_total(entries[i].label@, label);
        }
        assert forall|i: int| q <= i < entries.len() implies str_less(label, entries[i].label@) by {
            assert(lt(entries[q]));
            if i > q {
                lemma_str_less_transitive(label, entries[q].label@, entries[i].label@);
            }
        }
        assert forall|i: int, j: int| 0 <= i < j < next.len() implies str_less(
            (#[trigger] next[i]).label@,
            (#[trigger] next[j]).label@,
        ) by {
            if j < q {
            } else if j == q {
            } else if i < q {
                lemma_str_less_transitive(entries[i].label@, label, entries[j - 1].label@);
            } else if i == q {
            } else {
            }
        }
    }
}

proof fn lemma_add_phases_sorted(entries: Seq<PhaseEntry>, samples: Seq<PhaseSample>)
    requires
        sorted_labels(entries),
    ensures
        sorted_labels(add_phases(entries, samples)),
    decreases samples.len(),
{
    if samples.len() > 0 {
        lemma_add_phases_sorted(entries, samples.drop_last());
        lemma_add_phase_sorted(add_phases(entries, samples.drop_last()), samples.last());
    }
}

/// Whether `a + b` is a representable duration.
fn fits_duration(a: u128, b: u128) -> (fits: bool)
    ensures
        fits == (a + b <= MAX_DURATION_NANOS),
{
    match a.checked_add(b) {
        Some(sum) => sum <= MAX_DURATION_NANOS,
        None => false,
    }
}

/// Finds the entry named `label`, or the number of entries.
fn find_entry(entries: &[PhaseEntry], label: &str) -> (index: usize)
    ensures
        index as int == entry_index(entries@, label@),
        index <= entries@.len(),
{
    let ghost p = |e: PhaseEntry| e.label@ == label@;
    let mut i: usize = 0;
    while i < entries.len()
        invariant
            p == (|e: PhaseEntry| e.label@ == label@),
            0 <= i <= entries@.len(),
            forall|j: int| 0 <= j < i ==> !p(#[trigger] entries@[j]),
        decreases entries@.len() - i,
    {
        if str_equal(entries[i].label, label) {
            proof {
                lemma_first_from_unique(entries@, 0, i as int, p);
            }
            return i;
        }
        i += 1;
    }
    proof {
        lemma_first_from_unique(entries@, 0, i as int, p);
    }
    i
}

/// Where a new entry named `label` goes among `entries`.
fn insertion_point(entries: &[PhaseEntry], label: &str) -> (index: usize)
    ensures
        index as int == insertion_index(entries@, label@),
        index <= entries@.len(),
{
    let ghost p = |e: PhaseEntry| str_less(label@, e.label@);
    let mut i: usize = 0;
    while i < entries.len()
        invariant
            p == (|e: PhaseEntry| str_less(label@, e.label@)),
            0 <= i <= entries@.len(),
            forall|j: int| 0 <= j < i ==> !p(#[trigger] entries@[j]),
        decreases entries@.len() - i,
    {
        if str_lt(label, entries[i].label) {
            proof {
                lemma_first_from_unique(entries@, 0, i as int, p);
            }
            return i;
        }
        i += 1;
    }
    proof {
        lemma_first_from_unique(entries@, 0, i as int, p);
    }
    i
}

impl ProfileWindow {
    /// Opens a window at `now`.
    pub fn new(now: u128) -> (window: Self)
        ensures
            window@ == (ProfileWindowState {
                started: now,
                samples: 0,
                elapsed: 0,
                maximum: 0,
                slow_frames: 0,
                cycles: 0,
                cycle_samples: 0,
                tail: 0,
                phases: Seq::empty(),
                worst_phases: Seq::empty(),
            }),
            window@.well_formed(),
    {
        ProfileWindow {
            started: now,
            samples: 0,
            elapsed: 0,
            maximum: 0,
            slow_frames: 0,
            cycles: 0,
            cycle_samples: 0,
            tail: 0,
            phases: Vec::new(),
            worst_phases: Vec::new(),
        }
    }

    /// Finds the entry named `label`.
    fn find_phase(&self, label: &str) -> (index: usize)
        ensures
            index as int == entry_index(self@.phases, label@),
    {
        find_entry(self.phases.as_slice(), label)
    }

    /// Whether recording this frame overflows no counter or duration sum
    /// (the condition under which `record` may be called).
    pub fn accepts(&self, elapsed: u128, cycles: Option<u64>, phases: &[PhaseSample], tail: u128) -> (accepted:
        bool)
        ensures
            accepted == self@.can_record(elapsed, cycles, phases@, tail),
    {
        if self.samples == u64::MAX || !fits_duration(self.elapsed, elapsed) || !fits_duration(
            self.tail,
            tail,
        ) {
            return false;
        }
        if let Some(c) = cycles {
            if self.cycles > u128::MAX - (c as u128) || self.cycle_samples == u64::MAX {
                return false;
            }
        }
        let mut entries: Vec<PhaseEntry> = Vec::new();
        let mut k: usize = 0;
        while k < self.phases.len()
            invariant
                0 <= k <= self.phases@.len(),
                entries@ == self.phases@.take(k as int),
            decreases self.phases@.len() - k,
        {
            entries.push(self.phases[k]);
            k += 1;
            assert(entries@ =~= self.phases@.take(k as int));
        }
        assert(self.phases@.take(k as int) =~= self.phases@);
        let ghost start = self@.phases;
        let mut i: usize = 0;
        while i < phases.len()
            invariant
                0 <= i <= phases@.len(),
                start == self@.phases,
                entries@ == add_phases(start, phases@.take(i as int)),
                phases_fit(start, phases@.take(i as int)),
            decreases phases@.len() - i,
        {
            let ghost prefix = phases@.take(i as int + 1);
            assert(prefix.drop_last() =~= phases@.take(i as int));
            assert(prefix.last() == phases@[i as int]);
            let sample = phases[i];
            let j = find_entry(entries.as_slice(), sample.label);
            let total = if j < entries.len() {
                entries[j].total
            } else {
                PhaseTotal::zero()
            };
            if total.samples == u64::MAX || !fits_duration(total.elapsed, sample.elapsed) {
                proof {
                    if phases_fit(start, phases@) {
                        lemma_phases_fit_prefix(start, phases@, i as int + 1);
                    }
                }
                return false;
            }
            let bumped = PhaseTotal {
                samples: total.samples + 1,
                elapsed: total.elapsed + sample.elapsed,
                maximum: if total.maximum >= sample.elapsed {
                    total.maximum
                } else {
                    sample.elapsed
                },
            };
            if j < entries.len() {
                let label = entries[j].label;
                entries.set(j, PhaseEntry { label, total: bumped });
            } else {
                let at = insertion_point(entries.as_slice(), sample.label);
                entries.insert(at, PhaseEntry { label: sample.label, total: bumped });
            }
            i += 1;
        }
        assert(phases@.take(phases@.len() as int) =~= phases@);
        true
    }

    /// Accounts one frame and reports whether the window's interval has
    /// elapsed: readiness depends solely on the wall clock.
    pub fn record(
        &mut self,
        now: u128,
        elapsed: u128,
        cycles: Option<u64>,
        phases: &[PhaseSample],
        tail: u128,
    ) -> (ready: bool)
        requires
            old(self)@.well_formed(),
            old(self)@.can_record(elapsed, cycles, phases@, tail),
        ensures
            final(self)@ == old(self)@.recorded(elapsed, cycles, phases@, tail),
            final(self)@.well_formed(),
            ready == old(self)@.ready(now),
    {
        let ghost before = self@;
        self.samples = self.samples + 1;
        self.elapsed = self.elapsed + elapsed;
        if elapsed >= SLOW_FRAME_NANOS {
            self.slow_frames = self.slow_frames + 1;
        }
        self.tail = self.tail + tail;
        if let Some(c) = cycles {
            self.cycles = self.cycles + c as u128;
            self.cycle_samples = self.cycle_samples + 1;
        }
        if elapsed >= self.maximum {
            self.maximum = elapsed;
            let count = if phases.len() < PHASE_SLOTS {
                phases.len()
            } else {
                PHASE_SLOTS
            };
            let mut worst: Vec<PhaseSample> = Vec::new();
            let mut i: usize = 0;
            while i < count
                invariant
                    count <= phases@.len(),
                    0 <= i <= count,
                    worst@ == phases@.take(i as int),
                decreases count - i,
            {
                worst.push(phases[i]);
                i += 1;
                assert(worst@ =~= phases@.take(i as int));
            }
            self.worst_phases = worst;
        }
        let ghost mid = self@;
        let n = phases.len();
        let mut i: usize = 0;
        while i < n
            invariant
                self@ == (ProfileWindowState { phases: self@.phases, ..mid }),
                n == phases@.len(),
                0 <= i <= n,
                self@.phases == add_phases(before.phases, phases@.take(i as int)),
                phases_fit(before.phases, phases@),
                sorted_labels(before.phases),
            decreases n - i,
        {
            let ghost prefix = phases@.take(i as int + 1);
            assert(prefix.drop_last() =~= phases@.take(i as int));
            assert(prefix.last() == phases@[i as int]);
            proof {
                lemma_phases_fit_prefix(before.phases, phases@, i as int + 1);
            }
            let sample = phases[i];
            let k = self.find_phase(sample.label);
            if k < self.phases.len() {
                let entry = self.phases[k];
                let total = PhaseTotal {
                    samples: entry.total.samples + 1,
                    elapsed: entry.total.elapsed + sample.elapsed,
                    maximum: if entry.total.maximum >= sample.elapsed {
                        entry.total.maximum
                    } else {
                        sample.elapsed
                    },
                };
                self.phases.set(k, PhaseEntry { label: entry.label, total });
            } else {
                let total = PhaseTotal {
                    samples: 1,
                    elapsed: sample.elapsed,
                    maximum: sample.elapsed,
                };
                let at = insertion_point(self.phases.as_slice(), sample.label);
                self.phases.insert(at, PhaseEntry { label: sample.label, total });
            }
            i += 1;
        }
        assert(phases@.take(n as int) =~= phases@);
        proof {
            lemma_add_phases_sorted(before.phases, phases@);
        }
        now >= self.started && now - self.started >= REPORT_INTERVAL_NANOS
    }

    /// Starts another interval at `now`, keeping the known phase names.
    pub fn reset(&mut self, now: u128)
        requires
            old(self)@.well_formed(),
        ensures
            final(self)@ == old(self)@.reset_at(now),
            final(self)@.well_formed(),
    {
        let ghost before = self@.phases;
        self.started = now;
        self.samples = 0;
        self.elapsed = 0;
        self.maximum = 0;
        self.slow_frames = 0;
        self.cycles = 0;
        self.cycle_samples = 0;
        self.tail = 0;
        self.worst_phases = Vec::new();
        let ghost mid = self@;
        let n = self.phases.len();
        let mut i: usize = 0;
        while i < n
            invariant
                self@ == (ProfileWindowState { phases: self@.phases, ..mid }),
                n == before.len(),
                self@.phases.len() == n,
                0 <= i <= n,
                forall|j: int|
                    0 <= j < i ==> #[trigger] self@.phases[j] == (PhaseEntry {
                        label: before[j].label,
                        total: zero_total(),
                    }),
                forall|j: int| i <= j < n ==> #[trigger] self@.phases[j] == before[j],
            decreases n - i,
        {
            let label = self.phases[i].label;
            self.phases.set(i, PhaseEntry { label, total: PhaseTotal::zero() });
            i += 1;
        }
        assert(self@.phases =~= cleared(before));
        assert(sorted_labels(cleared(before))) by {
            assert forall|i: int, j: int| 0 <= i < j < n implies str_less(
                (#[trigger] cleared(before)[i]).label@,
                (#[trigger] cleared(before)[j]).label@,
            ) by {
                assert(str_less(before[i].label@, before[j].label@));
            }
        }
    }

    pub fn started(&self) -> (started: u128)
        ensures
            started == self@.started,
    {
        self.started
    }

    pub fn samples(&self) -> (samples: u64)
        ensures
            samples == self@.samples,
    {
        self.samples
    }

    pub fn elapsed(&self) -> (elapsed: u128)
        ensures
            elapsed == self@.elapsed,
    {
        self.elapsed
    }

    pub fn maximum(&self) -> (maximum: u128)
        ensures
            maximum == self@.maximum,
    {
        self.maximum
    }

    pub fn slow_frames(&self) -> (slow: u64)
        ensures
            slow == self@.slow_frames,
    {
        self.slow_frames
    }

    pub fn cycles(&self) -> (cycles: u128)
        ensures
            cycles == self@.cycles,
    {
        self.cycles
    }

    pub fn cycle_samples(&self) -> (count: u64)
        ensures
            count == self@.cycle_samples,
    {
        self.cycle_samples
    }

    pub fn tail(&self) -> (tail: u128)
        ensures
            tail == self@.tail,
    {
        self.tail
    }

    /// The phases of the slowest frame of this window.
    pub fn worst_phases(&self) -> (worst: &[PhaseSample])
        ensures
            worst@ == self@.worst_phases,
    {
        self.worst_phases.as_slice()
    }

    /// Every known phase name with its totals, in name order.
    pub fn phases(&self) -> (phases: &[PhaseEntry])
        ensures
            phases@ == self@.phases,
    {
        self.phases.as_slice()
    }

    /// Totals of the phase named `label`.
    pub fn phase(&self, label: &str) -> (total: Option<PhaseTotal>)
        ensures
            ({
                let k = entry_index(self@.phases, label@);
                total == if k < self@.phases.len() {
                    Some(self@.phases[k].total)
                } else {
                    None
                }
            }),
    {
        let k = self.find_phase(label);
        if k < self.phases.len() {
            Some(self.phases[k].total)
        } else {
            None
        }
    }
}

/// A phase entry that recorded at least one sample in the interval.
pub open spec fn occurred() -> spec_fn(PhaseEntry) -> bool {
    |e: PhaseEntry| e.total.samples != 0
}

/// What a window publishes at the end of its interval: its counts and sums,
/// the phases that occurred, and the phases of its slowest frame.
pub struct ProfileReport {
    pub samples: u64,
    pub slow_frames: u64,
    pub elapsed: u128,
    pub maximum: u128,
    pub cycles: u128,
    pub cycle_samples: u64,
    pub tail: u128,
    pub phases: Vec<PhaseEntry>,
    pub worst_phases: Vec<PhaseSample>,
}

impl ProfileReport {
    /// This report publishes the window `w`.
    pub open spec fn describes(&self, w: ProfileWindowState) -> bool {
        &&& self.samples == w.samples
        &&& self.slow_frames == w.slow_frames
        &&& self.elapsed == w.elapsed
        &&& self.maximum == w.maximum
        &&& self.cycles == w.cycles
        &&& self.cycle_samples == w.cycle_samples
        &&& self.tail == w.tail
        &&& self.phases@ == w.phases.filter(occurred())
        &&& self.worst_phases@ == w.worst_phases
    }
}

impl ProfileWindow {
    /// The window's publication: phases without a sample in this interval
    /// are left out, the others come in name order.
    pub fn report(&self) -> (report: ProfileReport)
        ensures
            report.describes(self@),
            self@.well_formed() ==> sorted_labels(report.phases@),
    {
        let ghost entries = self@.phases;
        let mut phases: Vec<PhaseEntry> = Vec::new();
        let mut i: usize = 0;
        while i < self.phases.len()
            invariant
                entries == self@.phases,
                0 <= i <= entries.len(),
                phases@ == entries.take(i as int).filter(occurred()),
                self@.well_formed() ==> sorted_labels(phases@),
                self@.well_formed() ==> forall|m: int, j: int|
                    0 <= m < phases@.len() && i <= j < entries.len() ==> str_less(
                        (#[trigger] phases@[m]).label@,
                        (#[trigger] entries[j]).label@,
                    ),
            decreases entries.len() - i,
        {
            let entry = self.phases[i];
            let ghost kept = phases@;
            proof {
                let next = entries.take(i as int + 1);
                assert(next.drop_last() =~= entries.take(i as int));
                assert(next.last() == entry);
                reveal_with_fuel(Seq::filter, 1);
            }
            if entry.total.samples != 0 {
                phases.push(entry);
                proof {
                    if self@.well_formed() {
                        assert forall|m: int, j: int|
                            0 <= m < phases@.len() && i + 1 <= j < entries.len() implies str_less(
                            (#[trigger] phases@[m]).label@,
                            (#[trigger] entries[j]).label@,
                        ) by {
                            if m < kept.len() {
                                assert(phases@[m] == kept[m]);
                            } else {
                                assert(phases@[m] == entries[i as int]);
                            }
                        }
                        assert forall|m: int, n: int| 0 <= m < n < phases@.len() implies str_less(
                            (#[trigger] phases@[m]).label@,
                            (#[trigger] phases@[n]).label@,
                        ) by {
                            assert(phases@[m] == kept[m]);
                            if n < kept.len() {
                                assert(phases@[n] == kept[n]);
                            } else {
                                assert(phases@[n] == entries[i as int]);
                            }
                        }
                    }
                }
            }
            i += 1;
        }
        assert(entries.take(i as int) =~= entries);
        let mut worst: Vec<PhaseSample> = Vec::new();
        let mut j: usize = 0;
        while j < self.worst_phases.len()
            invariant
                0 <= j <= self@.worst_phases.len(),
                worst@ == self@.worst_phases.take(j as int),
            decreases self@.worst_phases.len() - j,
        {
            worst.push(self.worst_phases[j]);
            j += 1;
            assert(worst@ =~= self@.worst_phases.take(j as int));
        }
        assert(self@.worst_phases.take(j as int) =~= self@.worst_phases);
        ProfileReport {
            samples: self.samples,
            slow_frames: self.slow_frames,
            elapsed: self.elapsed,
            maximum: self.maximum,
            cycles: self.cycles,
            cycle_samples: self.cycle_samples,
            tail: self.tail,
            phases,
            worst_phases: worst,
        }
    }
}

/// A window opened at `now` with nothing recorded.
pub open spec fn fresh_window(now: u128) -> ProfileWindowState {
    ProfileWindowState {
        started: now,
        samples: 0,
        elapsed: 0,
        maximum: 0,
        slow_frames: 0,
        cycles: 0,
        cycle_samples: 0,
        tail: 0,
        phases: Seq::empty(),
        worst_phases: Seq::empty(),
    }
}

pub open spec fn same_scope(label: Seq<char>) -> spec_fn(Seq<char>) -> bool {
    |l: Seq<char>| l == label
}

/// Index of the scope named `label`, or the number of scopes.
pub open spec fn scope_index(labels: Seq<Seq<char>>, label: Seq<char>) -> int {
    first_from(labels, 0, same_scope(label))
}

/// The aggregation windows of the profiled scopes of one thread, one window
/// per scope name, each opened on the scope's first sample.
pub struct ProfileScopes {
    labels: Vec<&'static str>,
    windows: Vec<ProfileWindow>,
}

impl ProfileScopes {
    pub closed spec fn labels(&self) -> Seq<Seq<char>> {
        self.labels@.map_values(|l: &'static str| l@)
    }

    pub closed spec fn windows(&self) -> Seq<ProfileWindowState> {
        self.windows@.map_values(|w: ProfileWindow| w@)
    }

    /// One window per distinct scope name, each well formed.
    pub open spec fn well_formed(&self) -> bool {
        &&& self.labels().len() == self.windows().len()
        &&& forall|i: int| 0 <= i < self.windows().len() ==> (#[trigger] self.windows()[i]).well_formed()
        &&& forall|i: int, j: int|
            0 <= i < j < self.labels().len() ==> (#[trigger] self.labels()[i]) != (#[trigger] self.labels()[j])
    }

    /// The window that a sample of `label` at `now` is accounted in.
    pub open spec fn window_for(&self, label: Seq<char>, now: u128) -> ProfileWindowState {
        let k = scope_index(self.labels(), label);
        if k < self.windows().len() {
            self.windows()[k]
        } else {
            fresh_window(now)
        }
    }

    pub fn new() -> (scopes: Self)
        ensures
            scopes.labels() == Seq::<Seq<char>>::empty(),
            scopes.windows() == Seq::<ProfileWindowState>::empty(),
            scopes.well_formed(),
    {
        let scopes = ProfileScopes { labels: Vec::new(), windows: Vec::new() };
        assert(scopes.labels() =~= Seq::<Seq<char>>::empty());
        assert(scopes.windows() =~= Seq::<ProfileWindowState>::empty());
        scopes
    }

    fn find_scope(&self, label: &str) -> (index: usize)
        ensures
            index as int == scope_index(self.labels(), label@),
            index <= self.labels().len(),
    {
        let ghost labels = self.labels();
        let ghost p = same_scope(label@);
        let mut i: usize = 0;
        while i < self.labels.len()
            invariant
                labels == self.labels(),
                labels.len() == self.labels@.len(),
                p == same_scope(label@),
                0 <= i <= labels.len(),
                forall|j: int| 0 <= j < i ==> !p(#[trigger] labels[j]),
            decreases labels.len() - i,
        {
            if str_equal(self.labels[i], label) {
                proof {
                    assert(labels[i as int] == self.labels@[i as int]@);
                    lemma_first_from_unique(labels, 0, i as int, p);
                }
                return i;
            }
            assert(labels[i as int] == self.labels@[i as int]@);
            i += 1;
        }
        proof {
            lemma_first_from_unique(labels, 0, i as int, p);
        }
        i
    }

    /// Whether a sample of `label` at `now` may be recorded: it overflows no
    /// counter or duration sum of the scope's window.
    pub fn accepts(
        &self,
        label: &str,
        now: u128,
        elapsed: u128,
        cycles: Option<u64>,
        phases: &[PhaseSample],
        tail: u128,
    ) -> (accepted: bool)
        requires
            self.well_formed(),
        ensures
            accepted == self.window_for(label@, now).can_record(elapsed, cycles, phases@, tail),
    {
        let k = self.find_scope(label);
        if k < self.windows.len() {
            assert(self.windows@[k as int]@ == self.windows()[k as int]);
            self.windows[k].accepts(elapsed, cycles, phases, tail)
        } else {
            ProfileWindow::new(now).accepts(elapsed, cycles, phases, tail)
        }
    }

    /// Accounts one sample of the scope `label` at `now`, opening the
    /// scope's window on its first sample. When the window's interval has
    /// elapsed, returns its report and starts the next interval at `now`.
    pub fn record(
        &mut self,
        label: &'static str,
        now: u128,
        elapsed: u128,
        cycles: Option<u64>,
        phases: &[PhaseSample],
        tail: u128,
    ) -> (report: Option<ProfileReport>)
        requires
            old(self).well_formed(),
            old(self).window_for(label@, now).can_record(elapsed, cycles, phases@, tail),
        ensures
            final(self).well_formed(),
            ({
                let k = scope_index(old(self).labels(), label@);
                let w = old(self).window_for(label@, now);
                let after = w.recorded(elapsed, cycles, phases@, tail);
                let kept = if w.ready(now) {
                    after.reset_at(now)
                } else {
                    after
                };
                &&& final(self).labels() == if k < old(self).labels().len() {
                    old(self).labels()
                } else {
                    old(self).labels().push(label@)
                }
                &&& final(self).windows() == if k < old(self).windows().len() {
                    old(self).windows().update(k, kept)
                } else {
                    old(self).windows().push(kept)
                }
                &&& match report {
                    Some(r) => w.ready(now) && r.describes(after),
                    None => !w.ready(now),
                }
            }),
            ({
                let f = FrameSample { now, elapsed, cycles, phases: phases@, tail };
                let (labels, windows, published) = scopes_record(
                    old(self).labels(),
                    old(self).windows(),
                    label@,
                    f,
                );
                &&& final(self).labels() == labels
                &&& final(self).windows() == windows
                &&& match report {
                    Some(r) => published matches Some((t, w)) && t == now && r.describes(w),
                    None => published is None,
                }
            }),
    {
        let ghost labels0 = self.labels();
        let ghost windows0 = self.windows();
        let k = self.find_scope(label);
        proof {
            lemma_first_from(labels0, 0, same_scope(label@));
        }
        if k == self.labels.len() {
            self.labels.push(label);
            self.windows.push(ProfileWindow::new(now));
            assert(self.labels() =~= labels0.push(label@));
            assert(self.windows() =~= windows0.push(fresh_window(now)));
        }
        let ghost labels1 = self.labels();
        let ghost windows1 = self.windows();
        assert(windows1[k as int] == old(self).window_for(label@, now));
        let mut window = self.windows.remove(k);
        assert(window@ == windows1[k as int]);
        let ready = window.record(now, elapsed, cycles, phases, tail);
        let report = if ready {
            let r = window.report();
            window.reset(now);
            Some(r)
        } else {
            None
        };
        let ghost kept = window@;
        self.windows.insert(k, window);
        assert(self.windows() =~= windows1.update(k as int, kept));
        assert(self.labels() =~= labels1);
        report
    }
}

/// `phases_fit` of a sequence holds for each of its prefixes.
proof fn lemma_phases_fit_prefix(entries: Seq<PhaseEntry>, samples: Seq<PhaseSample>, n: int)
    requires
        phases_fit(entries, samples),
        0 <= n <= samples.len(),
    ensures
        phases_fit(entries, samples.take(n)),
    decreases samples.len() - n,
{
    if n < samples.len() {
        assert(samples.take(n + 1).drop_last() =~= samples.take(n));
        lemma_phases_fit_prefix(entries, samples, n + 1);
    } else {
        assert(samples.take(n) =~= samples);
    }
}

/// The report flag depends only on the window's start and the clock: a
/// window records any frame without reporting before its interval elapses,
/// and every frame recorded after it elapses reports.
pub proof fn law_report_depends_only_on_interval(
    window: ProfileWindowState,
    now: u128,
)
    ensures
        window.ready(now) == (now >= window.started && now - window.started
            >= REPORT_INTERVAL_NANOS),
        window.reset_at(now).ready(now) == false,
{
}

/// Between resets a window counts every recorded frame: `samples` frames, of
/// which `slow_frames` lasted at least the slow threshold, with `maximum` the
/// longest and its phases retained as the worst frame's.
pub proof fn law_window_accounts_every_frame(
    window: ProfileWindowState,
    elapsed: u128,
    cycles: Option<u64>,
    phases: Seq<PhaseSample>,
    tail: u128,
)
    requires
        window.well_formed(),
        window.can_record(elapsed, cycles, phases, tail),
    ensures
        ({
            let next = window.recorded(elapsed, cycles, phases, tail);
            &&& next.samples == window.samples + 1
            &&& next.slow_frames == window.slow_frames + (if elapsed >= SLOW_FRAME_NANOS {
                1int
            } else {
                0int
            })
            &&& next.slow_frames <= next.samples
            &&& next.maximum >= elapsed
            &&& next.maximum >= window.maximum
            &&& next.maximum == elapsed ==> next.worst_phases.len() <= PHASE_SLOTS
        }),
{
}

/// The samples of fresh marks after marking `labels[i]` at `times[i]` in
/// turn.
pub open spec fn marks_after(labels: Seq<&'static str>, times: Seq<u128>) -> Seq<PhaseSample>
    decreases labels.len(),
{
    if labels.len() == 0 || times.len() != labels.len() {
        Seq::empty()
    } else {
        let n = labels.len() - 1;
        mark_step(
            if n == 0 {
                0
            } else {
                times[n - 1]
            },
            marks_after(labels.take(n), times.take(n)),
            labels[n],
            times[n],
        )
    }
}

/// The total time attributed by some samples.
pub open spec fn attributed(samples: Seq<PhaseSample>) -> int
    decreases samples.len(),
{
    if samples.len() == 0 {
        0
    } else {
        attributed(samples.drop_last()) + samples.last().elapsed
    }
}

/// The time before mark `i`: the previous mark's, or the frame's start.
pub open spec fn mark_before(times: Seq<u128>, i: int) -> u128 {
    if i == 0 {
        0
    } else {
        times[i - 1]
    }
}

proof fn lemma_marks_shape(labels: Seq<&'static str>, times: Seq<u128>)
    requires
        labels.len() == times.len(),
    ensures
        ({
            let s = marks_after(labels, times);
            &&& s.len() == if labels.len() < PHASE_SLOTS {
                labels.len() as int
            } else {
                PHASE_SLOTS as int
            }
            &&& forall|i: int|
                0 <= i < s.len() ==> (#[trigger] s[i]).label == labels[i] && s[i].elapsed == sat_sub(
                    times[i],
                    mark_before(times, i),
                )
        }),
    decreases labels.len(),
{
    if labels.len() > 0 {
        let n = labels.len() - 1;
        let lt = labels.take(n);
        let tt = times.take(n);
        lemma_marks_shape(lt, tt);
        let before = marks_after(lt, tt);
        let s = marks_after(labels, times);
        assert forall|i: int| 0 <= i < s.len() implies (#[trigger] s[i]).label == labels[i]
            && s[i].elapsed == sat_sub(times[i], mark_before(times, i)) by {
            if i < before.len() {
                assert(s[i] == before[i]);
                assert(lt[i] == labels[i]);
                assert(tt[i] == times[i]);
                if i > 0 {
                    assert(tt[i - 1] == times[i - 1]);
                }
            }
        }
    }
}

/// `marks_after` is what successive `mark` calls record: one more mark at
/// `time` applies `mark_step` with the previous mark's time.
pub proof fn law_marks_after_is_successive_marks(
    labels: Seq<&'static str>,
    times: Seq<u128>,
    label: &'static str,
    time: u128,
)
    requires
        labels.len() == times.len(),
    ensures
        marks_after(labels.push(label), times.push(time)) == mark_step(
            mark_before(times.push(time), labels.len() as int),
            marks_after(labels, times),
            label,
            time,
        ),
{
    assert(labels.push(label).take(labels.len() as int) =~= labels);
    assert(times.push(time).take(times.len() as int) =~= times);
}

/// Marking a frame's phases from fresh marks, at any times: exactly the
/// first sixteen marks keep a slot, in call order, each with the time since
/// the previous mark (or the frame's start), saturating at zero; later marks
/// are dropped.
pub proof fn law_marks_keep_first_sixteen_in_order(labels: Seq<&'static str>, times: Seq<u128>)
    requires
        labels.len() == times.len(),
    ensures
        ({
            let s = marks_after(labels, times);
            &&& s.len() == if labels.len() < PHASE_SLOTS {
                labels.len() as int
            } else {
                PHASE_SLOTS as int
            }
            &&& forall|i: int|
                0 <= i < s.len() ==> (#[trigger] s[i]).label == labels[i] && s[i].elapsed == sat_sub(
                    times[i],
                    mark_before(times, i),
                )
        }),
{
    lemma_marks_shape(labels, times);
}

proof fn lemma_marks_after(labels: Seq<&'static str>, times: Seq<u128>)
    requires
        labels.len() == times.len(),
        forall|i: int, j: int| 0 <= i <= j < times.len() ==> times[i] <= times[j],
    ensures
        ({
            let s = marks_after(labels, times);
            &&& s.len() == if labels.len() < PHASE_SLOTS {
                labels.len() as int
            } else {
                PHASE_SLOTS as int
            }
            &&& forall|i: int|
                0 <= i < s.len() ==> (#[trigger] s[i]).label == labels[i] && s[i].elapsed == times[i]
                    - if i == 0 {
                    0
                } else {
                    times[i - 1] as int
                }
            &&& forall|k: int|
                0 <= k <= s.len() ==> #[trigger] attributed(s.take(k)) == if k == 0 {
                    0
                } else {
                    times[k - 1] as int
                }
        }),
    decreases labels.len(),
{
    let s = marks_after(labels, times);
    if labels.len() == 0 {
        assert forall|k: int| 0 <= k <= s.len() implies #[trigger] attributed(s.take(k)) == if k == 0 {
            0
        } else {
            times[k - 1] as int
        } by {
            assert(s.take(k) =~= Seq::<PhaseSample>::empty());
        }
    } else {
        let n = labels.len() - 1;
        let lt = labels.take(n);
        let tt = times.take(n);
        lemma_marks_after(lt, tt);
        let before = marks_after(lt, tt);
        assert forall|i: int| 0 <= i < s.len() implies (#[trigger] s[i]).label == labels[i]
            && s[i].elapsed == times[i] - if i == 0 {
            0
        } else {
            times[i - 1] as int
        } by {
            if i < before.len() {
                assert(s[i] == before[i]);
                assert(lt[i] == labels[i]);
                assert(tt[i] == times[i]);
                if i > 0 {
                    assert(tt[i - 1] == times[i - 1]);
                }
            } else {
                assert(i == n);
                if n > 0 {
                    assert(times[n - 1] <= times[n]);
                }
            }
        }
        assert forall|k: int| 0 <= k <= s.len() implies #[trigger] attributed(s.take(k)) == if k == 0 {
            0
        } else {
            times[k - 1] as int
        } by {
            if k <= before.len() {
                assert(s.take(k) =~= before.take(k));
                if k > 0 {
                    assert(tt[k - 1] == times[k - 1]);
                }
            } else {
                assert(k == n + 1);
                assert(s.take(k) =~= s);
                assert(s.drop_last() =~= before);
                assert(before.take(n) =~= before);
                assert(attributed(before.take(n)) == if n == 0 {
                    0
                } else {
                    tt[n - 1] as int
                });
                assert(attributed(s) == attributed(before) + s.last().elapsed);
                if n > 0 {
                    assert(tt[n - 1] == times[n - 1]);
                    assert(times[n - 1] <= times[n]);
                }
            }
        }
    }
}

/// Marking a frame's phases from fresh marks, at non-decreasing times:
/// exactly the first sixteen marks keep a slot, in call order, each with the
/// time since the previous mark, and the first `k` samples add up to the
/// time elapsed at the `k`-th mark.
pub proof fn law_marks_attribute_elapsed_in_order(labels: Seq<&'static str>, times: Seq<u128>)
    requires
        labels.len() == times.len(),
        forall|i: int, j: int| 0 <= i <= j < times.len() ==> times[i] <= times[j],
    ensures
        ({
            let s = marks_after(labels, times);
            &&& s.len() == if labels.len() < PHASE_SLOTS {
                labels.len() as int
            } else {
                PHASE_SLOTS as int
            }
            &&& forall|i: int|
                0 <= i < s.len() ==> (#[trigger] s[i]).label == labels[i] && s[i].elapsed == times[i]
                    - if i == 0 {
                    0
                } else {
                    times[i - 1] as int
                }
            &&& forall|k: int|
                0 <= k <= s.len() ==> #[trigger] attributed(s.take(k)) == if k == 0 {
                    0
                } else {
                    times[k - 1] as int
                }
        }),
{
    lemma_marks_after(labels, times);
}

/// One profiled frame offered to a window: when it ends, how long it took,
/// its cycle count, its phases and its unattributed tail.
pub struct FrameSample {
    pub now: u128,
    pub elapsed: u128,
    pub cycles: Option<u64>,
    pub phases: Seq<PhaseSample>,
    pub tail: u128,
}

/// One `record` followed, when it reports, by the report and `reset`: the
/// window after it and the report's time and window, if it published.
pub open spec fn window_step(w: ProfileWindowState, f: FrameSample) -> (
    ProfileWindowState,
    Option<(u128, ProfileWindowState)>,
) {
    let after = w.recorded(f.elapsed, f.cycles, f.phases, f.tail);
    if w.ready(f.now) {
        (after.reset_at(f.now), Some((f.now, after)))
    } else {
        (after, None)
    }
}

/// The window after recording `frames` in turn, and the reports it
/// published, in order.
pub open spec fn window_run(w: ProfileWindowState, frames: Seq<FrameSample>) -> (
    ProfileWindowState,
    Seq<(u128, ProfileWindowState)>,
)
    decreases frames.len(),
{
    if frames.len() == 0 {
        (w, Seq::empty())
    } else {
        let (next, report) = window_step(w, frames[0]);
        let (last, reports) = window_run(next, frames.drop_first());
        match report {
            Some(r) => (last, seq![r] + reports),
            None => (last, reports),
        }
    }
}

/// Every frame of the run may be recorded: no counter or sum overflows.
pub open spec fn run_records(w: ProfileWindowState, frames: Seq<FrameSample>) -> bool
    decreases frames.len(),
{
    frames.len() == 0 || {
        &&& w.can_record(frames[0].elapsed, frames[0].cycles, frames[0].phases, frames[0].tail)
        &&& run_records(window_step(w, frames[0]).0, frames.drop_first())
    }
}

/// Frames counted by published windows.
pub open spec fn reported_samples(reports: Seq<(u128, ProfileWindowState)>) -> int
    decreases reports.len(),
{
    if reports.len() == 0 {
        0
    } else {
        reports[0].1.samples + reported_samples(reports.drop_first())
    }
}

/// Frame time summed by published windows.
pub open spec fn reported_elapsed(reports: Seq<(u128, ProfileWindowState)>) -> int
    decreases reports.len(),
{
    if reports.len() == 0 {
        0
    } else {
        reports[0].1.elapsed + reported_elapsed(reports.drop_first())
    }
}

pub open spec fn frames_elapsed(frames: Seq<FrameSample>) -> int
    decreases frames.len(),
{
    if frames.len() == 0 {
        0
    } else {
        frames[0].elapsed + frames_elapsed(frames.drop_first())
    }
}

/// Over any run of frames a window publishes at most one report per
/// interval: the first no earlier than an interval after the window opened,
/// each later one no earlier than an interval after the previous; and every
/// frame is counted in exactly one window, published or still open.
pub proof fn law_one_report_per_interval(w: ProfileWindowState, frames: Seq<FrameSample>)
    requires
        run_records(w, frames),
    ensures
        ({
            let (last, reports) = window_run(w, frames);
            &&& forall|j: int|
                0 <= j < reports.len() ==> (#[trigger] reports[j]).0 >= (if j == 0 {
                    w.started
                } else {
                    reports[j - 1].0
                }) + REPORT_INTERVAL_NANOS
            &&& reported_samples(reports) + last.samples == w.samples + frames.len()
            &&& reported_elapsed(reports) + last.elapsed == w.elapsed + frames_elapsed(frames)
        }),
    decreases frames.len(),
{
    if frames.len() > 0 {
        let f = frames[0];
        let (next, report) = window_step(w, f);
        law_one_report_per_interval(next, frames.drop_first());
        let (last, rest) = window_run(next, frames.drop_first());
        let (l2, reports) = window_run(w, frames);
        match report {
            Some(r) => {
                assert(reports == seq![r] + rest);
                assert(reports.drop_first() =~= rest);
                assert(next.started == f.now);
                assert forall|j: int|
                    0 <= j < reports.len() implies (#[trigger] reports[j]).0 >= (if j == 0 {
                    w.started
                } else {
                    reports[j - 1].0
                }) + REPORT_INTERVAL_NANOS by {
                    if j > 0 {
                        assert(reports[j] == rest[j - 1]);
                        if j > 1 {
                            assert(reports[j - 1] == rest[j - 2]);
                        }
                    }
                }
            },
            None => {
                assert(next.started == w.started);
            },
        }
    }
}

/// The scopes after one sample of `label`: the scope names, their windows,
/// and the report published, if any (its time and window). The scope's
/// window is opened at the sample's time on its first sample.
pub open spec fn scopes_record(
    labels: Seq<Seq<char>>,
    windows: Seq<ProfileWindowState>,
    label: Seq<char>,
    f: FrameSample,
) -> (Seq<Seq<char>>, Seq<ProfileWindowState>, Option<(u128, ProfileWindowState)>) {
    let k = scope_index(labels, label);
    let w = if k < windows.len() {
        windows[k]
    } else {
        fresh_window(f.now)
    };
    let (kept, report) = window_step(w, f);
    if k < labels.len() {
        (labels, windows.update(k, kept), report)
    } else {
        (labels.push(label), windows.push(kept), report)
    }
}

/// The scopes after samples of several scopes in turn, and every report
/// published, each with its scope's name.
pub open spec fn scopes_run(
    labels: Seq<Seq<char>>,
    windows: Seq<ProfileWindowState>,
    frames: Seq<(Seq<char>, FrameSample)>,
) -> (Seq<Seq<char>>, Seq<ProfileWindowState>, Seq<(Seq<char>, (u128, ProfileWindowState))>)
    decreases frames.len(),
{
    if frames.len() == 0 {
        (labels, windows, Seq::empty())
    } else {
        let (l1, w1, report) = scopes_record(labels, windows, frames[0].0, frames[0].1);
        let (l2, w2, reports) = scopes_run(l1, w1, frames.drop_first());
        (
            l2,
            w2,
            match report {
                Some(r) => seq![(frames[0].0, r)] + reports,
                None => reports,
            },
        )
    }
}

/// The samples of one scope, in order.
pub open spec fn frames_of(frames: Seq<(Seq<char>, FrameSample)>, label: Seq<char>) -> Seq<
    FrameSample,
>
    decreases frames.len(),
{
    if frames.len() == 0 {
        Seq::empty()
    } else if frames[0].0 == label {
        seq![frames[0].1] + frames_of(frames.drop_first(), label)
    } else {
        frames_of(frames.drop_first(), label)
    }
}

/// The reports of one scope, in order.
pub open spec fn reports_of(
    reports: Seq<(Seq<char>, (u128, ProfileWindowState))>,
    label: Seq<char>,
) -> Seq<(u128, ProfileWindowState)>
    decreases reports.len(),
{
    if reports.len() == 0 {
        Seq::empty()
    } else if reports[0].0 == label {
        seq![reports[0].1] + reports_of(reports.drop_first(), label)
    } else {
        reports_of(reports.drop_first(), label)
    }
}

/// The window of the scope `label`, if it has one.
pub open spec fn window_of(
    labels: Seq<Seq<char>>,
    windows: Seq<ProfileWindowState>,
    label: Seq<char>,
) -> Option<ProfileWindowState> {
    let k = scope_index(labels, label);
    if k < windows.len() {
        Some(windows[k])
    } else {
        None
    }
}

/// One scope's window after its own samples, from its window (or, without
/// one, a window opened at its first sample's time), and its reports.
pub open spec fn scope_run(start: Option<ProfileWindowState>, frames: Seq<FrameSample>) -> (
    Option<ProfileWindowState>,
    Seq<(u128, ProfileWindowState)>,
) {
    if frames.len() == 0 {
        (start, Seq::empty())
    } else {
        let w = match start {
            Some(w) => w,
            None => fresh_window(frames[0].now),
        };
        let (last, reports) = window_run(w, frames);
        (Some(last), reports)
    }
}

proof fn lemma_scope_index_push(labels: Seq<Seq<char>>, added: Seq<char>, label: Seq<char>)
    ensures
        scope_index(labels, label) < labels.len() ==> scope_index(labels.push(added), label)
            == scope_index(labels, label),
        scope_index(labels, label) == labels.len() ==> scope_index(labels.push(added), label)
            == if added == label {
            labels.len() as int
        } else {
            labels.len() + 1int
        },
{
    let p = same_scope(label);
    let pushed = labels.push(added);
    lemma_first_from(labels, 0, p);
    let k = scope_index(labels, label);
    assert forall|i: int| 0 <= i < k implies !p(#[trigger] pushed[i]) by {
        assert(pushed[i] == labels[i]);
        assert(!p(labels[i]));
    }
    if k < labels.len() {
        assert(pushed[k] == labels[k]);
        lemma_first_from_unique(pushed, 0, k, p);
    } else if added == label {
        lemma_first_from_unique(pushed, 0, k, p);
    } else {
        lemma_first_from_unique(pushed, 0, k + 1, p);
    }
}

/// One sample of `added` moves the window of `label` exactly as the scope's
/// own step when the names match, and leaves it alone otherwise.
proof fn lemma_scopes_record_window(
    labels: Seq<Seq<char>>,
    windows: Seq<ProfileWindowState>,
    added: Seq<char>,
    f: FrameSample,
    label: Seq<char>,
)
    requires
        labels.len() == windows.len(),
    ensures
        ({
            let (l1, w1, report) = scopes_record(labels, windows, added, f);
            let start = match window_of(labels, windows, label) {
                Some(w) => w,
                None => fresh_window(f.now),
            };
            &&& l1.len() == w1.len()
            &&& added == label ==> window_of(l1, w1, label) == Some(window_step(start, f).0)
                && report == window_step(start, f).1
            &&& added != label ==> window_of(l1, w1, label) == window_of(labels, windows, label)
        }),
{
    let p = same_scope(label);
    let q = same_scope(added);
    lemma_first_from(labels, 0, p);
    lemma_first_from(labels, 0, q);
    lemma_scope_index_push(labels, added, label);
    let k = scope_index(labels, added);
    let kl = scope_index(labels, label);
    if added != label && k < labels.len() && kl < labels.len() {
        assert(q(labels[k]));
        assert(p(labels[kl]));
        assert(k != kl);
    }
}

/// Each scope's window lives on its own: over any samples of several scopes,
/// the window of `label` and the reports published for it are exactly those
/// of its own samples, from its window (or from a window opened at its first
/// sample's time). With `law_one_report_per_interval`, each scope publishes
/// at most one report per interval and counts every one of its samples once.
pub proof fn law_each_scope_reports_on_its_own(
    labels: Seq<Seq<char>>,
    windows: Seq<ProfileWindowState>,
    frames: Seq<(Seq<char>, FrameSample)>,
    label: Seq<char>,
)
    requires
        labels.len() == windows.len(),
    ensures
        ({
            let (l2, w2, reports) = scopes_run(labels, windows, frames);
            let (own, own_reports) = scope_run(
                window_of(labels, windows, label),
                frames_of(frames, label),
            );
            &&& window_of(l2, w2, label) == own
            &&& reports_of(reports, label) == own_reports
        }),
    decreases frames.len(),
{
    if frames.len() > 0 {
        let (m, f) = frames[0];
        let rest = frames.drop_first();
        lemma_scopes_record_window(labels, windows, m, f, label);
        let (l1, w1, report) = scopes_record(labels, windows, m, f);
        law_each_scope_reports_on_its_own(l1, w1, rest, label);
        let (l2, w2, reports_rest) = scopes_run(l1, w1, rest);
        let reports = scopes_run(labels, windows, frames).2;
        let start = match window_of(labels, windows, label) {
            Some(w) => w,
            None => fresh_window(f.now),
        };
        match report {
            Some(r) => {
                assert(reports == seq![(m, r)] + reports_rest);
                assert(reports.drop_first() =~= reports_rest);
            },
            None => {},
        }
        if m == label {
            let own_rest = frames_of(rest, label);
            let own = frames_of(frames, label);
            assert(own == seq![f] + own_rest);
            assert(own.drop_first() =~= own_rest);
            assert(own[0] == f);
            let (next, step_report) = window_step(start, f);
            assert(window_run(start, own).0 == window_run(next, own_rest).0);
        }
    }
}

} // verus!
