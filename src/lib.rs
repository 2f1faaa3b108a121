//! Periodic on/off pattern logic for driving a single LED, kept free of
//! any hardware so that every transition can be stated and proved.
//!
//! The root module holds the unbounded pattern generator; `blinky` holds the
//! controller that stops after a configured number of blinks.
use vstd::prelude::*;

pub mod blinky;

verus! {

/// The level of the output: lit or dark.
#[derive(Debug, Clone, Copy, PartialEq, Eq, Structural)]
pub enum BlinkyState {
    On,
    Off,
}

impl BlinkyState {
    /// The opposite level.
    pub open spec fn flipped(self) -> BlinkyState {
        match self {
            BlinkyState::On => BlinkyState::Off,
            BlinkyState::Off => BlinkyState::On,
        }
    }

    /// The text shown for a level.
    pub open spec fn label(self) -> Seq<char> {
        match self {
            BlinkyState::On => seq!['O', 'N'],
            BlinkyState::Off => seq!['O', 'F', 'F'],
        }
    }

    /// Flips the state in place.
    pub fn toggle(&mut self)
        ensures
            *final(self) == old(self).flipped(),
    {
        *self = match *self {
            BlinkyState::On => BlinkyState::Off,
            BlinkyState::Off => BlinkyState::On,
        };
    }

    /// The opposite state, leaving `self` as it is.
    pub fn next(&self) -> (r: BlinkyState)
        ensures
            r == self.flipped(),
    {
        match self {
            BlinkyState::On => BlinkyState::Off,
            BlinkyState::Off => BlinkyState::On,
        }
    }

    /// `true` for `On`, `false` for `Off`.
    pub fn as_bool(&self) -> (r: bool)
        ensures
            r == (*self == BlinkyState::On),
    {
        match self {
            BlinkyState::On => true,
            BlinkyState::Off => false,
        }
    }

    /// `"ON"` or `"OFF"`, for logs and reports.
    pub fn as_str(&self) -> (r: &'static str)
        ensures
            r@ == self.label(),
    {
        proof {
            reveal_strlit("ON");
            reveal_strlit("OFF");
        }
        match self {
            BlinkyState::On => "ON",
            BlinkyState::Off => "OFF",
        }
    }
}

/// Flipping twice gives the state back, and flipping once never does.
pub proof fn lemma_flip_involutive(s: BlinkyState)
    ensures
        s.flipped().flipped() == s,
        s.flipped() != s,
{
}

/// On and off durations, in milliseconds, of the unbounded pattern.
#[derive(Debug, Clone, Copy)]
pub struct BlinkyConfig {
    /// Duration in milliseconds for the `On` state.
    pub on_duration_ms: u32,
    /// Duration in milliseconds for the `Off` state.
    pub off_duration_ms: u32,
}

impl Default for BlinkyConfig {
    /// 500 ms on, 500 ms off.
    fn default() -> (r: Self)
        ensures
            r.on_duration_ms == 500,
            r.off_duration_ms == 500,
    {
        BlinkyConfig { on_duration_ms: 500, off_duration_ms: 500 }
    }
}

impl BlinkyConfig {
    /// How long the pattern stays in `state`.
    pub open spec fn duration_of(self, state: BlinkyState) -> u32 {
        match state {
            BlinkyState::On => self.on_duration_ms,
            BlinkyState::Off => self.off_duration_ms,
        }
    }

    /// Both durations are positive.
    pub open spec fn valid(self) -> bool {
        self.on_duration_ms > 0 && self.off_duration_ms > 0
    }

    /// A configuration with the given durations.
    pub fn new(on_duration_ms: u32, off_duration_ms: u32) -> (r: Self)
        ensures
            r.on_duration_ms == on_duration_ms,
            r.off_duration_ms == off_duration_ms,
    {
        BlinkyConfig { on_duration_ms, off_duration_ms }
    }

    /// 100 ms on, 100 ms off.
    pub fn fast() -> (r: Self)
        ensures
            r.on_duration_ms == 100,
            r.off_duration_ms == 100,
    {
        Self::new(100, 100)
    }

    /// 1000 ms on, 1000 ms off.
    pub fn slow() -> (r: Self)
        ensures
            r.on_duration_ms == 1000,
            r.off_duration_ms == 1000,
    {
        Self::new(1000, 1000)
    }

    /// The duration to wait while in `state`.
    pub fn duration_for_state(&self, state: BlinkyState) -> (r: u32)
        ensures
            r == self.duration_of(state),
    {
        match state {
            BlinkyState::On => self.on_duration_ms,
            BlinkyState::Off => self.off_duration_ms,
        }
    }

    /// Whether both durations are positive.
    pub fn is_valid(&self) -> (r: bool)
        ensures
            r == self.valid(),
    {
        self.on_duration_ms > 0 && self.off_duration_ms > 0
    }
}

/// Adds one to a counter, staying at the maximum instead of wrapping.
pub open spec fn saturating_inc(c: u32) -> u32 {
    if c == u32::MAX {
        c
    } else {
        (c + 1) as u32
    }
}

/// What a `BlinkyPattern` holds, as plain values.
pub struct PatternView {
    pub state: BlinkyState,
    pub config: BlinkyConfig,
    pub cycle_count: u32,
}

impl PatternView {
    /// A fresh pattern: `Off`, with no cycle counted.
    pub open spec fn initial(config: BlinkyConfig) -> PatternView {
        PatternView { state: BlinkyState::Off, config, cycle_count: 0 }
    }

    /// The pattern after one transition: the state flips, and entering `On`
    /// counts a cycle.
    pub open spec fn advanced(self) -> PatternView {
        let s = self.state.flipped();
        PatternView {
            state: s,
            config: self.config,
            cycle_count: if s == BlinkyState::On {
                saturating_inc(self.cycle_count)
            } else {
                self.cycle_count
            },
        }
    }

    /// What one transition reports: the new state and how long to hold it.
    pub open spec fn output(self) -> (BlinkyState, u32) {
        let a = self.advanced();
        (a.state, a.config.duration_of(a.state))
    }

    /// The pattern after `n` transitions.
    pub open spec fn run(self, n: nat) -> PatternView
        decreases n,
    {
        if n == 0 {
            self
        } else {
            self.run((n - 1) as nat).advanced()
        }
    }

    /// The outputs of the first `n` transitions, in order.
    pub open spec fn trace(self, n: nat) -> Seq<(BlinkyState, u32)> {
        Seq::new(n, |i: int| self.run(i as nat).output())
    }
}

/// Leaving a state never lowers the cycle count: entering `On` adds one
/// (below the maximum) and entering `Off` adds nothing.
pub proof fn lemma_cycle_count_edges(v: PatternView)
    ensures
        v.advanced().cycle_count >= v.cycle_count,
        v.advanced().state == BlinkyState::On && v.cycle_count < u32::MAX
            ==> v.advanced().cycle_count == v.cycle_count + 1,
        v.advanced().state == BlinkyState::Off ==> v.advanced().cycle_count == v.cycle_count,
{
}

/// Without a reset, the cycle count never goes down over any number of
/// transitions.
pub proof fn lemma_cycle_count_monotonic(v: PatternView, m: nat, n: nat)
    requires
        m <= n,
    ensures
        v.run(m).cycle_count <= v.run(n).cycle_count,
    decreases n,
{
    if m < n {
        lemma_cycle_count_monotonic(v, m, (n - 1) as nat);
        lemma_cycle_count_edges(v.run((n - 1) as nat));
    }
}

/// The configuration never changes while the pattern runs.
pub proof fn lemma_run_keeps_config(v: PatternView, n: nat)
    ensures
        v.run(n).config == v.config,
    decreases n,
{
    if n > 0 {
        lemma_run_keeps_config(v, (n - 1) as nat);
    }
}

/// Two patterns built from equal configurations report the same states and
/// durations, step for step.
pub proof fn lemma_trace_deterministic(c1: BlinkyConfig, c2: BlinkyConfig, n: nat)
    requires
        c1 == c2,
    ensures
        PatternView::initial(c1).trace(n) == PatternView::initial(c2).trace(n),
{
}

/// A fresh pattern alternates `On` and `Off`, starting with `On`, each with
/// its configured duration, and after `n` transitions has counted
/// `(n + 1) / 2` cycles.
pub proof fn lemma_fresh_pattern_alternates(c: BlinkyConfig, n: nat)
    requires
        (n + 1) / 2 <= u32::MAX,
    ensures
        PatternView::initial(c).run(n).state == (if n % 2 == 0 {
            BlinkyState::Off
        } else {
            BlinkyState::On
        }),
        PatternView::initial(c).run(n).cycle_count == (n + 1) / 2,
        forall|i: int|
            0 <= i < n ==> #[trigger] PatternView::initial(c).trace(n)[i] == (if i % 2 == 0 {
                (BlinkyState::On, c.on_duration_ms)
            } else {
                (BlinkyState::Off, c.off_duration_ms)
            }),
    decreases n,
{
    let v = PatternView::initial(c);
    if n > 0 {
        lemma_fresh_pattern_alternates(c, (n - 1) as nat);
    }
    assert forall|i: int| 0 <= i < n implies #[trigger] v.trace(n)[i] == (if i % 2 == 0 {
        (BlinkyState::On, c.on_duration_ms)
    } else {
        (BlinkyState::Off, c.off_duration_ms)
    }) by {
        lemma_fresh_pattern_alternates(c, i as nat);
        lemma_run_keeps_config(v, i as nat);
    }
}

/// A count at the maximum stays there, whatever follows.
pub proof fn lemma_cycle_count_stays_at_max(v: PatternView, n: nat)
    requires
        v.cycle_count == u32::MAX,
    ensures
        v.run(n).cycle_count == u32::MAX,
    decreases n,
{
    if n > 0 {
        lemma_cycle_count_stays_at_max(v, (n - 1) as nat);
    }
}

/// From one below the maximum, entering `On` reaches the maximum, and no
/// later transition moves it: the count never wraps.
pub proof fn lemma_cycle_count_saturates(v: PatternView, n: nat)
    requires
        v.cycle_count == u32::MAX - 1,
        v.state == BlinkyState::Off,
    ensures
        v.advanced().cycle_count == u32::MAX,
        v.advanced().run(n).cycle_count == u32::MAX,
{
    lemma_cycle_count_stays_at_max(v.advanced(), n);
}

/// Generates the on/off sequence of an LED forever, counting the cycles.
pub struct BlinkyPattern {
    state: BlinkyState,
    config: BlinkyConfig,
    cycle_count: u32,
}

impl View for BlinkyPattern {
    type V = PatternView;

    closed spec fn view(&self) -> PatternView {
        PatternView { state: self.state, config: self.config, cycle_count: self.cycle_count }
    }
}

impl BlinkyPattern {
    /// A pattern that starts `Off` with no cycle counted.
    pub fn new(config: BlinkyConfig) -> (r: Self)
        ensures
            r@ == PatternView::initial(config),
    {
        BlinkyPattern { state: BlinkyState::Off, config, cycle_count: 0 }
    }

    /// The current state.
    pub fn state(&self) -> (r: BlinkyState)
        ensures
            r == self@.state,
    {
        self.state
    }

    /// The number of times the pattern has entered `On`, at most `u32::MAX`.
    pub fn cycle_count(&self) -> (r: u32)
        ensures
            r == self@.cycle_count,
    {
        self.cycle_count
    }

    /// The configuration.
    pub fn config(&self) -> (r: BlinkyConfig)
        ensures
            r == self@.config,
    {
        self.config
    }

    /// Flips the state and returns it with the duration to wait; entering
    /// `On` counts one more cycle, saturating at `u32::MAX`.
    pub fn next(&mut self) -> (r: (BlinkyState, u32))
        ensures
            final(self)@ == old(self)@.advanced(),
            r == old(self)@.output(),
    {
        self.state.toggle();
        if self.state == BlinkyState::On {
            self.cycle_count = self.cycle_count.saturating_add(1);
        }
        let duration = self.config.duration_for_state(self.state);
        (self.state, duration)
    }

    /// Back to `Off` with no cycle counted, whatever came before; the
    /// configuration stays.
    pub fn reset(&mut self)
        ensures
            final(self)@ == PatternView::initial(old(self)@.config),
    {
        self.state = BlinkyState::Off;
        self.cycle_count = 0;
    }

    /// Sets the cycle counter, to start a pattern from a chosen count.
    pub fn set_cycle_count_for_test(&mut self, count: u32)
        ensures
            final(self)@ == (PatternView { cycle_count: count, ..old(self)@ }),
    {
        self.cycle_count = count;
    }
}

} // verus!
