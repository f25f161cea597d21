//! Classification of raw button samples into press events.

use crate::clock::{elapsed_between, span};
use vstd::prelude::*;

verus! {

/// Default time that the level must stay asserted before a press counts,
/// in milliseconds.
pub const DEFAULT_DEBOUNCE_MS: u64 = 50;

/// Default time after which a confirmed press is a long press, in
/// milliseconds.
pub const DEFAULT_LONG_PRESS_MS: u64 = 1000;

/// Where the classifier stands in a press-release cycle.
#[derive(Clone, Copy, Debug, PartialEq, Eq, Structural)]
pub enum InputState {
    Released,
    DebouncingPress,
    Pressed,
    LongPressed,
}

/// What one press-release cycle is reported as.
#[derive(Clone, Copy, Debug, PartialEq, Eq, Structural)]
pub enum PressEvent {
    ShortPress,
    LongPress,
}

/// The two durations that the classifier works with.
#[derive(Clone, Copy, Debug, PartialEq, Eq, Structural)]
pub struct InputTiming {
    pub debounce_ms: u64,
    pub long_press_ms: u64,
}

/// State of the classifier and the time at which it entered that state.
#[derive(Clone, Copy, Debug, PartialEq, Eq, Structural)]
pub struct InputSnapshot {
    pub state: InputState,
    pub since_ms: u64,
}

/// One reading of the button: whether its level is asserted, and when.
#[derive(Clone, Copy, Debug, PartialEq, Eq, Structural)]
pub struct Sample {
    pub asserted: bool,
    pub at_ms: u64,
}

/// Time spent in the current state.
pub open spec fn elapsed(snapshot: InputSnapshot, now_ms: u64) -> int {
    span(snapshot.since_ms, now_ms)
}

/// The snapshot before the first sample.
pub open spec fn initial_snapshot() -> InputSnapshot {
    InputSnapshot { state: InputState::Released, since_ms: 0 }
}

/// One step of the classifier: the next snapshot and the event, if any.
///
/// A level change starts the debounce window; a level that is still
/// asserted when the window has passed confirms the press; a confirmed
/// press held for more than the long-press time is reported once as
/// `LongPress`; a release reports `ShortPress` unless the long press was
/// already reported. A release inside the debounce window is a bounce and
/// reports nothing.
pub open spec fn step(timing: InputTiming, snapshot: InputSnapshot, sample: Sample) -> (
    InputSnapshot,
    Option<PressEvent>,
) {
    let entered = |state: InputState| InputSnapshot { state, since_ms: sample.at_ms };
    match snapshot.state {
        InputState::Released => if sample.asserted {
            (entered(InputState::DebouncingPress), None)
        } else {
            (snapshot, None)
        },
        InputState::DebouncingPress => if !sample.asserted {
            (entered(InputState::Released), None)
        } else if elapsed(snapshot, sample.at_ms) >= timing.debounce_ms {
            (entered(InputState::Pressed), None)
        } else {
            (snapshot, None)
        },
        InputState::Pressed => if !sample.asserted {
            (entered(InputState::Released), Some(PressEvent::ShortPress))
        } else if elapsed(snapshot, sample.at_ms) > timing.long_press_ms {
            (entered(InputState::LongPressed), Some(PressEvent::LongPress))
        } else {
            (snapshot, None)
        },
        InputState::LongPressed => if !sample.asserted {
            (entered(InputState::Released), None)
        } else {
            (snapshot, None)
        },
    }
}

/// The classifier run over `samples` in order: the last snapshot and all
/// events, oldest first.
pub open spec fn run(timing: InputTiming, start: InputSnapshot, samples: Seq<Sample>) -> (
    InputSnapshot,
    Seq<PressEvent>,
)
    decreases samples.len(),
{
    if samples.len() == 0 {
        (start, Seq::empty())
    } else {
        let (middle, earlier) = run(timing, start, samples.drop_last());
        let (end, event) = step(timing, middle, samples.last());
        (
            end,
            match event {
                Some(e) => earlier.push(e),
                None => earlier,
            },
        )
    }
}

/// The readings of a level that stays asserted, taken at `held_at`.
pub open spec fn held_samples(held_at: Seq<u64>) -> Seq<Sample> {
    Seq::new(held_at.len(), |i: int| Sample { asserted: true, at_ms: held_at[i] })
}

/// One press-release cycle as the classifier sees it: the level asserted
/// at each time of `held_at`, then released at `released_at_ms`.
pub open spec fn press_cycle(held_at: Seq<u64>, released_at_ms: u64) -> Seq<Sample> {
    held_samples(held_at).push(Sample { asserted: false, at_ms: released_at_ms })
}

/// Whether the reading at index `i` finds the level asserted for at least
/// the debounce window since the first reading.
pub open spec fn confirms(timing: InputTiming, held_at: Seq<u64>, i: int) -> bool {
    1 <= i < held_at.len() && span(held_at[0], held_at[i]) >= timing.debounce_ms
}

/// Whether the press outlasts the debounce window, so that it is a press
/// and no bounce.
pub open spec fn press_confirmed(timing: InputTiming, held_at: Seq<u64>) -> bool {
    exists|i: int| confirms(timing, held_at, i)
}

/// Running over two stretches of samples is running over the first and
/// going on from there over the second.
pub proof fn lemma_run_concat(
    timing: InputTiming,
    start: InputSnapshot,
    first: Seq<Sample>,
    second: Seq<Sample>,
)
    ensures
        run(timing, start, first + second).0 == run(
            timing,
            run(timing, start, first).0,
            second,
        ).0,
        run(timing, start, first + second).1 == run(timing, start, first).1 + run(
            timing,
            run(timing, start, first).0,
            second,
        ).1,
    decreases second.len(),
{
    let middle = run(timing, start, first).0;
    if second.len() == 0 {
        assert(first + second =~= first);
        assert(run(timing, start, first).1 + run(timing, middle, second).1 =~= run(
            timing,
            start,
            first,
        ).1);
    } else {
        lemma_run_concat(timing, start, first, second.drop_last());
        assert((first + second).drop_last() =~= first + second.drop_last());
        assert((first + second).last() == second.last());
        let before = run(timing, middle, second.drop_last());
        let event = step(timing, before.0, second.last()).1;
        match event {
            Some(e) => {
                assert(run(timing, start, first + second).1 =~= run(timing, start, first).1
                    + before.1.push(e));
            },
            None => {},
        }
    }
}

/// While the level stays asserted the classifier leaves `Released`, waits
/// in `DebouncingPress` exactly until the press is confirmed, and has
/// reported nothing but the one `LongPress` of `LongPressed`.
pub proof fn lemma_while_held(timing: InputTiming, start: InputSnapshot, held_at: Seq<u64>)
    requires
        start.state == InputState::Released,
        held_at.len() > 0,
    ensures
        ({
            let (snapshot, events) = run(timing, start, held_samples(held_at));
            &&& snapshot.state != InputState::Released
            &&& snapshot.state == InputState::DebouncingPress <==> !press_confirmed(
                timing,
                held_at,
            )
            &&& snapshot.state == InputState::DebouncingPress ==> snapshot.since_ms == held_at[0]
            &&& snapshot.state == InputState::LongPressed ==> events == seq![PressEvent::LongPress]
            &&& snapshot.state != InputState::LongPressed ==> events == Seq::<PressEvent>::empty()
        }),
    decreases held_at.len(),
{
    let samples = held_samples(held_at);
    if held_at.len() == 1 {
        reveal_with_fuel(run, 2);
        assert(samples.drop_last() =~= Seq::<Sample>::empty());
        assert(run(timing, start, samples).1 =~= Seq::<PressEvent>::empty());
        assert forall|i: int| !confirms(timing, held_at, i) by {}
    } else {
        let earlier = held_at.drop_last();
        lemma_while_held(timing, start, earlier);
        assert(samples.drop_last() =~= held_samples(earlier));
        let (middle, reported) = run(timing, start, held_samples(earlier));
        let last = held_at.len() - 1;
        assert(samples.last() == Sample { asserted: true, at_ms: held_at[last] });
        assert forall|i: int| confirms(timing, earlier, i) implies confirms(
            timing,
            held_at,
            i,
        ) by {}
        if middle.state == InputState::DebouncingPress {
            assert forall|i: int| confirms(timing, held_at, i) implies i == last by {
                if i != last {
                    assert(confirms(timing, earlier, i));
                }
            }
            if span(held_at[0], held_at[last]) >= timing.debounce_ms {
                assert(confirms(timing, held_at, last));
            }
        } else {
            let i = choose|i: int| confirms(timing, earlier, i);
            assert(confirms(timing, held_at, i));
        }
        if middle.state == InputState::Pressed && step(timing, middle, samples.last()).1
            is Some {
            assert(reported.push(PressEvent::LongPress) =~= seq![PressEvent::LongPress]);
        }
    }
}

/// Every press-release cycle that starts in `Released` ends in `Released`
/// and reports exactly one event if the press was confirmed, and none if
/// it was a bounce.
pub proof fn lemma_one_event_per_cycle(
    timing: InputTiming,
    start: InputSnapshot,
    held_at: Seq<u64>,
    released_at_ms: u64,
)
    requires
        start.state == InputState::Released,
        held_at.len() > 0,
    ensures
        run(timing, start, press_cycle(held_at, released_at_ms)).0.state == InputState::Released,
        press_confirmed(timing, held_at) ==> run(
            timing,
            start,
            press_cycle(held_at, released_at_ms),
        ).1.len() == 1,
        !press_confirmed(timing, held_at) ==> run(
            timing,
            start,
            press_cycle(held_at, released_at_ms),
        ).1.len() == 0,
{
    lemma_while_held(timing, start, held_at);
    let cycle = press_cycle(held_at, released_at_ms);
    assert(cycle.drop_last() =~= held_samples(held_at));
    assert(cycle.last() == Sample { asserted: false, at_ms: released_at_ms });
}

/// Readings of a released level leave a released classifier as it is and
/// report nothing.
pub proof fn lemma_idle_reports_nothing(
    timing: InputTiming,
    start: InputSnapshot,
    samples: Seq<Sample>,
)
    requires
        start.state == InputState::Released,
        forall|i: int| 0 <= i < samples.len() ==> !(#[trigger] samples[i]).asserted,
    ensures
        run(timing, start, samples) == (start, Seq::<PressEvent>::empty()),
    decreases samples.len(),
{
    if samples.len() > 0 {
        lemma_idle_reports_nothing(timing, start, samples.drop_last());
        assert(!samples[samples.len() - 1].asserted);
    }
}

/// One press as the button drives it: the level asserted at each time of
/// `held_at`, then released at each time of `released_at`.
pub struct PressCycle {
    pub held_at: Seq<u64>,
    pub released_at: Seq<u64>,
}

/// The readings of a level that stays released, taken at `released_at`.
pub open spec fn released_samples(released_at: Seq<u64>) -> Seq<Sample> {
    Seq::new(released_at.len(), |i: int| Sample { asserted: false, at_ms: released_at[i] })
}

/// The readings of one cycle.
pub open spec fn cycle_samples(cycle: PressCycle) -> Seq<Sample> {
    held_samples(cycle.held_at) + released_samples(cycle.released_at)
}

/// The readings of a series of cycles, one after the other.
pub open spec fn series_samples(cycles: Seq<PressCycle>) -> Seq<Sample>
    decreases cycles.len(),
{
    if cycles.len() == 0 {
        Seq::empty()
    } else {
        series_samples(cycles.drop_last()) + cycle_samples(cycles.last())
    }
}

/// The number of cycles whose press outlasts the debounce window.
pub open spec fn confirmed_presses(timing: InputTiming, cycles: Seq<PressCycle>) -> nat
    decreases cycles.len(),
{
    if cycles.len() == 0 {
        0
    } else if press_confirmed(timing, cycles.last().held_at) {
        confirmed_presses(timing, cycles.drop_last()) + 1
    } else {
        confirmed_presses(timing, cycles.drop_last())
    }
}

/// Whether the cycle has at least one reading of each level.
pub open spec fn complete_cycle(cycle: PressCycle) -> bool {
    cycle.held_at.len() > 0 && cycle.released_at.len() > 0
}

/// However the readings of a series of press-release cycles are spaced,
/// the classifier reports exactly one event for each confirmed press and
/// none for a bounce, and is back in `Released` at the end.
pub proof fn lemma_one_event_per_press(
    timing: InputTiming,
    start: InputSnapshot,
    cycles: Seq<PressCycle>,
)
    requires
        start.state == InputState::Released,
        forall|i: int| 0 <= i < cycles.len() ==> complete_cycle(#[trigger] cycles[i]),
    ensures
        run(timing, start, series_samples(cycles)).0.state == InputState::Released,
        run(timing, start, series_samples(cycles)).1.len() == confirmed_presses(timing, cycles),
    decreases cycles.len(),
{
    if cycles.len() > 0 {
        let earlier = cycles.drop_last();
        let cycle = cycles.last();
        assert(complete_cycle(cycles[cycles.len() - 1]));
        lemma_one_event_per_press(timing, start, earlier);
        let middle = run(timing, start, series_samples(earlier)).0;
        lemma_run_concat(timing, start, series_samples(earlier), cycle_samples(cycle));

        // The cycle is its press with the first release, then idle readings.
        let first_release = cycle.released_at[0];
        let rest = released_samples(cycle.released_at.skip(1));
        assert(cycle_samples(cycle) =~= press_cycle(cycle.held_at, first_release) + rest);
        lemma_run_concat(timing, middle, press_cycle(cycle.held_at, first_release), rest);
        lemma_one_event_per_cycle(timing, middle, cycle.held_at, first_release);
        let released = run(timing, middle, press_cycle(cycle.held_at, first_release)).0;
        lemma_idle_reports_nothing(timing, released, rest);
    }
}

/// The pure form of the classifier: from a snapshot and one sample to the
/// next snapshot and the event, if any.
pub fn next_input(timing: InputTiming, snapshot: InputSnapshot, sample: Sample) -> (next: (
    InputSnapshot,
    Option<PressEvent>,
))
    ensures
        next == step(timing, snapshot, sample),
{
    let held: u64 = elapsed_between(snapshot.since_ms, sample.at_ms);
    match snapshot.state {
        InputState::Released => {
            if sample.asserted {
                (InputSnapshot { state: InputState::DebouncingPress, since_ms: sample.at_ms }, None)
            } else {
                (snapshot, None)
            }
        },
        InputState::DebouncingPress => {
            if !sample.asserted {
                (InputSnapshot { state: InputState::Released, since_ms: sample.at_ms }, None)
            } else if held >= timing.debounce_ms {
                (InputSnapshot { state: InputState::Pressed, since_ms: sample.at_ms }, None)
            } else {
                (snapshot, None)
            }
        },
        InputState::Pressed => {
            if !sample.asserted {
                (
                    InputSnapshot { state: InputState::Released, since_ms: sample.at_ms },
                    Some(PressEvent::ShortPress),
                )
            } else if held > timing.long_press_ms {
                (
                    InputSnapshot { state: InputState::LongPressed, since_ms: sample.at_ms },
                    Some(PressEvent::LongPress),
                )
            } else {
                (snapshot, None)
            }
        },
        InputState::LongPressed => {
            if !sample.asserted {
                (InputSnapshot { state: InputState::Released, since_ms: sample.at_ms }, None)
            } else {
                (snapshot, None)
            }
        },
    }
}

/// Button classifier: its timing and where it stands.
pub struct InputClassifier {
    timing: InputTiming,
    snapshot: InputSnapshot,
}

impl InputClassifier {
    /// The timing that the classifier was made with.
    pub closed spec fn timing_spec(&self) -> InputTiming {
        self.timing
    }

    /// Where the classifier stands.
    pub closed spec fn snapshot_spec(&self) -> InputSnapshot {
        self.snapshot
    }

    /// A classifier in `Released` with the given timing.
    pub fn new(debounce_ms: u64, long_press_ms: u64) -> (classifier: InputClassifier)
        ensures
            classifier.timing_spec() == (InputTiming { debounce_ms, long_press_ms }),
            classifier.snapshot_spec() == initial_snapshot(),
    {
        InputClassifier {
            timing: InputTiming { debounce_ms, long_press_ms },
            snapshot: InputSnapshot { state: InputState::Released, since_ms: 0 },
        }
    }

    /// A classifier in `Released` with the default timing.
    pub fn with_defaults() -> (classifier: InputClassifier)
        ensures
            classifier.timing_spec() == (InputTiming {
                debounce_ms: DEFAULT_DEBOUNCE_MS,
                long_press_ms: DEFAULT_LONG_PRESS_MS,
            }),
            classifier.snapshot_spec() == initial_snapshot(),
    {
        InputClassifier::new(DEFAULT_DEBOUNCE_MS, DEFAULT_LONG_PRESS_MS)
    }

    /// The timing.
    pub fn timing(&self) -> (timing: InputTiming)
        ensures
            timing == self.timing_spec(),
    {
        self.timing
    }

    /// The current state.
    pub fn state(&self) -> (state: InputState)
        ensures
            state == self.snapshot_spec().state,
    {
        self.snapshot.state
    }

    /// The current state and the time at which it was entered.
    pub fn snapshot(&self) -> (snapshot: InputSnapshot)
        ensures
            snapshot == self.snapshot_spec(),
    {
        self.snapshot
    }

    /// Takes one reading of the button at time `now_ms` and reports the
    /// event that it completes, if any.
    pub fn sample(&mut self, raw_level: bool, now_ms: u64) -> (event: Option<PressEvent>)
        ensures
            final(self).timing_spec() == old(self).timing_spec(),
            (final(self).snapshot_spec(), event) == step(
                old(self).timing_spec(),
                old(self).snapshot_spec(),
                Sample { asserted: raw_level, at_ms: now_ms },
            ),
    {
        let (snapshot, event) = next_input(
            self.timing,
            self.snapshot,
            Sample { asserted: raw_level, at_ms: now_ms },
        );
        self.snapshot = snapshot;
        event
    }
}

} // verus!
