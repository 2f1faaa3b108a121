//! The bounded controller: it drives an LED through its own `Led` handle
//! and stops after a configured number of blinks.
use vstd::prelude::*;

pub use crate::BlinkyState;
use crate::saturating_inc;

verus! {

/// Something that can be lit and darkened, such as an LED on a GPIO pin.
/// An implementation promises that each method leaves it lit or dark as
/// stated below.
pub trait Led {
    /// Whether the LED is lit. Code outside the verified library implements
    /// it as a plain method that reports the same.
    spec fn is_lit(&self) -> bool;

    /// Turns the LED on.
    fn set_high(&mut self)
        ensures
            final(self).is_lit(),
    ;

    /// Turns the LED off.
    fn set_low(&mut self)
        ensures
            !final(self).is_lit(),
    ;

    /// Flips the LED.
    fn toggle(&mut self)
        ensures
            final(self).is_lit() == !old(self).is_lit(),
    ;
}

/// On and off durations, in milliseconds, and an optional number of blinks.
#[derive(Debug, Clone, Copy, PartialEq, Eq, Structural)]
pub struct BlinkyConfig {
    /// Duration LED is on (milliseconds).
    pub on_duration_ms: u64,
    /// Duration LED is off (milliseconds).
    pub off_duration_ms: u64,
    /// Number of blinks (`None` = without end).
    pub count: Option<u32>,
}

impl Default for BlinkyConfig {
    /// 500 ms on, 500 ms off, without end.
    fn default() -> (r: Self)
        ensures
            r == (BlinkyConfig { on_duration_ms: 500, off_duration_ms: 500, count: None }),
    {
        BlinkyConfig { on_duration_ms: 500, off_duration_ms: 500, count: None }
    }
}

/// Whether a controller that has completed `done` blinks goes on blinking.
pub open spec fn continues(count: Option<u32>, done: u32) -> bool {
    match count {
        Some(max) => done < max,
        None => true,
    }
}

impl BlinkyConfig {
    /// Not both durations are zero, and a blink count, if any, is positive.
    pub open spec fn valid(self) -> bool {
        &&& !(self.on_duration_ms == 0 && self.off_duration_ms == 0)
        &&& self.count != Some(0u32)
    }

    /// A configuration with the given durations and no blink count.
    pub fn new(on_duration_ms: u64, off_duration_ms: u64) -> (r: Self)
        ensures
            r == (BlinkyConfig { on_duration_ms, off_duration_ms, count: None }),
    {
        BlinkyConfig { on_duration_ms, off_duration_ms, count: None }
    }

    /// The same configuration, stopping after `count` blinks.
    pub fn with_count(self, count: u32) -> (r: Self)
        ensures
            r == (BlinkyConfig { count: Some(count), ..self }),
    {
        let mut c = self;
        c.count = Some(count);
        c
    }

    /// The length of one blink, on and off together.
    pub fn period_ms(&self) -> (r: u64)
        requires
            self.on_duration_ms + self.off_duration_ms <= u64::MAX,
        ensures
            r == self.on_duration_ms + self.off_duration_ms,
    {
        self.on_duration_ms + self.off_duration_ms
    }

    /// `Ok` exactly for a valid configuration; otherwise a message that says
    /// which rule is broken.
    pub fn validate(&self) -> (r: Result<(), &'static str>)
        ensures
            r is Ok <==> self.valid(),
            self.on_duration_ms == 0 && self.off_duration_ms == 0 ==> r == Err::<
                (),
                &'static str,
            >("Both on and off durations cannot be zero"),
            !(self.on_duration_ms == 0 && self.off_duration_ms == 0) && self.count == Some(0u32)
                ==> r == Err::<(), &'static str>("Blink count cannot be zero"),
    {
        if self.on_duration_ms == 0 && self.off_duration_ms == 0 {
            return Err("Both on and off durations cannot be zero");
        }
        match self.count {
            Some(count) => {
                if count == 0 {
                    return Err("Blink count cannot be zero");
                }
            },
            None => {},
        }
        Ok(())
    }
}

/// What a `BlinkyController` holds, as plain values.
pub struct ControllerView {
    pub config: BlinkyConfig,
    pub state: BlinkyState,
    pub blink_count: u32,
}

impl ControllerView {
    /// Whether this controller goes on blinking.
    pub open spec fn should_continue(self) -> bool {
        continues(self.config.count, self.blink_count)
    }

    /// The controller after one `step`.
    pub open spec fn stepped(self) -> ControllerView {
        if !self.should_continue() {
            self
        } else {
            match self.state {
                BlinkyState::Off => ControllerView { state: BlinkyState::On, ..self },
                BlinkyState::On => ControllerView {
                    state: BlinkyState::Off,
                    blink_count: saturating_inc(self.blink_count),
                    ..self
                },
            }
        }
    }

    /// What one `step` returns: the time to wait, or `None` once the
    /// controller has finished.
    pub open spec fn step_result(self) -> Option<u64> {
        let n = self.stepped();
        if !self.should_continue() {
            None
        } else {
            match self.state {
                BlinkyState::Off => Some(self.config.on_duration_ms),
                BlinkyState::On => if n.should_continue() {
                    Some(self.config.off_duration_ms)
                } else {
                    None
                },
            }
        }
    }

    /// The controller after `n` steps.
    pub open spec fn run(self, n: nat) -> ControllerView
        decreases n,
    {
        if n == 0 {
            self
        } else {
            self.run((n - 1) as nat).stepped()
        }
    }
}

/// A step never lowers the blink count. It adds one exactly when a running
/// controller leaves `On` below the maximum, and nothing otherwise.
pub proof fn lemma_blink_count_edges(v: ControllerView)
    ensures
        v.stepped().blink_count >= v.blink_count,
        v.should_continue() && v.state == BlinkyState::On && v.blink_count < u32::MAX
            ==> v.stepped().blink_count == v.blink_count + 1,
        !(v.should_continue() && v.state == BlinkyState::On) ==> v.stepped().blink_count
            == v.blink_count,
{
}

/// Once a controller has finished, further steps change nothing and return
/// `None`.
pub proof fn lemma_finished_is_terminal(v: ControllerView, n: nat)
    requires
        !v.should_continue(),
    ensures
        v.run(n) == v,
        v.run(n).step_result() is None,
    decreases n,
{
    if n > 0 {
        lemma_finished_is_terminal(v, (n - 1) as nat);
    }
}

/// A bounded controller never counts more blinks than its bound.
pub proof fn lemma_bound_respected(v: ControllerView, n: nat)
    requires
        v.config.count is Some,
        v.blink_count <= v.config.count->0,
    ensures
        v.run(n).blink_count <= v.config.count->0,
        v.run(n).config == v.config,
    decreases n,
{
    if n > 0 {
        lemma_bound_respected(v, (n - 1) as nat);
    }
}

/// A fresh controller bounded to `k` blinks alternates `On` and `Off` and
/// has done `i / 2` blinks after `i` steps, for every `i` up to `2 * k`.
proof fn lemma_bounded_prefix(c: BlinkyConfig, k: u32, i: nat)
    requires
        c.count == Some(k),
        i <= 2 * k,
    ensures
        (ControllerView { config: c, state: BlinkyState::Off, blink_count: 0 }).run(i) == (
        ControllerView {
            config: c,
            state: if i % 2 == 0 {
                BlinkyState::Off
            } else {
                BlinkyState::On
            },
            blink_count: (i / 2) as u32,
        }),
    decreases i,
{
    if i > 0 {
        lemma_bounded_prefix(c, k, (i - 1) as nat);
    }
}

/// A fresh controller bounded to `k` blinks runs for `2 * k` steps, starting
/// each even one `Off` (so the step lights the LED) and each odd one `On` (so
/// it darkens it). It returns a duration from each of its first `2 * k - 1`
/// steps, alternating on and off durations, and `None` from the step that
/// completes the `k`-th blink; it has then finished.
pub proof fn lemma_bounded_blinks(c: BlinkyConfig, k: u32)
    requires
        c.count == Some(k),
        k >= 1,
    ensures
        forall|i: nat|
            i < 2 * k ==> {
                let v = #[trigger] (ControllerView {
                    config: c,
                    state: BlinkyState::Off,
                    blink_count: 0,
                }).run(i);
                &&& v.should_continue()
                &&& v.state == (if i % 2 == 0 {
                    BlinkyState::Off
                } else {
                    BlinkyState::On
                })
            },
        forall|i: nat|
            i < 2 * k - 1 ==> #[trigger] (ControllerView {
                config: c,
                state: BlinkyState::Off,
                blink_count: 0,
            }).run(i).step_result() == Some(
                if i % 2 == 0 {
                    c.on_duration_ms
                } else {
                    c.off_duration_ms
                },
            ),
        (ControllerView { config: c, state: BlinkyState::Off, blink_count: 0 }).run(
            (2 * k - 1) as nat,
        ).step_result() is None,
        (ControllerView { config: c, state: BlinkyState::Off, blink_count: 0 }).run(
            (2 * k) as nat,
        ).blink_count == k,
        !(ControllerView { config: c, state: BlinkyState::Off, blink_count: 0 }).run(
            (2 * k) as nat,
        ).should_continue(),
{
    let v = ControllerView { config: c, state: BlinkyState::Off, blink_count: 0 };
    assert forall|i: nat| i < 2 * k implies {
        let w = #[trigger] v.run(i);
        &&& w.should_continue()
        &&& w.state == (if i % 2 == 0 {
            BlinkyState::Off
        } else {
            BlinkyState::On
        })
    } by {
        lemma_bounded_prefix(c, k, i);
    }
    assert forall|i: nat| i < 2 * k - 1 implies #[trigger] v.run(i).step_result() == Some(
        if i % 2 == 0 {
            c.on_duration_ms
        } else {
            c.off_duration_ms
        },
    ) by {
        lemma_bounded_prefix(c, k, i);
    }
    lemma_bounded_prefix(c, k, (2 * k - 1) as nat);
    lemma_bounded_prefix(c, k, (2 * k) as nat);
}

/// Drives an LED on and off, and stops after the configured number of blinks.
pub struct BlinkyController {
    config: BlinkyConfig,
    state: BlinkyState,
    blink_count: u32,
}

impl View for BlinkyController {
    type V = ControllerView;

    closed spec fn view(&self) -> ControllerView {
        ControllerView { config: self.config, state: self.state, blink_count: self.blink_count }
    }
}

impl BlinkyController {
    /// A controller that starts `Off` with no blink done; `Err` exactly when
    /// the configuration is not valid.
    pub fn new(config: BlinkyConfig) -> (r: Result<Self, &'static str>)
        ensures
            r is Ok <==> config.valid(),
            config.on_duration_ms == 0 && config.off_duration_ms == 0 ==> (r is Err && r->Err_0
                == "Both on and off durations cannot be zero"),
            !(config.on_duration_ms == 0 && config.off_duration_ms == 0) && config.count == Some(
                0u32,
            ) ==> (r is Err && r->Err_0 == "Blink count cannot be zero"),
            r matches Ok(c) ==> c@ == (ControllerView {
                config,
                state: BlinkyState::Off,
                blink_count: 0,
            }),
    {
        match config.validate() {
            Ok(()) => Ok(BlinkyController { config, state: BlinkyState::Off, blink_count: 0 }),
            Err(e) => Err(e),
        }
    }

    /// The current state.
    pub fn state(&self) -> (r: BlinkyState)
        ensures
            r == self@.state,
    {
        self.state
    }

    /// The number of blinks completed.
    pub fn blink_count(&self) -> (r: u32)
        ensures
            r == self@.blink_count,
    {
        self.blink_count
    }

    /// The configuration.
    pub fn config(&self) -> (r: &BlinkyConfig)
        ensures
            *r == self@.config,
    {
        &self.config
    }

    /// `true` without a blink count, else while fewer blinks than the count
    /// are done.
    pub fn should_continue(&self) -> (r: bool)
        ensures
            r == self@.should_continue(),
    {
        match self.config.count {
            Some(max) => self.blink_count < max,
            None => true,
        }
    }

    /// One half of a blink. From `Off` the LED is set high and the on
    /// duration is returned; from `On` it is set low, one blink is counted,
    /// and the off duration is returned while the controller goes on. Once it
    /// has finished, nothing changes, the LED is left alone and `None` is
    /// returned.
    pub fn step<L: Led>(&mut self, led: &mut L) -> (r: Option<u64>)
        ensures
            final(self)@ == old(self)@.stepped(),
            r == old(self)@.step_result(),
            old(self)@.should_continue() ==> final(led).is_lit() == (old(self)@.state
                == BlinkyState::Off),
            !old(self)@.should_continue() ==> *final(led) == *old(led),
    {
        if !self.should_continue() {
            return None;
        }
        match self.state {
            BlinkyState::Off => {
                led.set_high();
                self.state = BlinkyState::On;
                Some(self.config.on_duration_ms)
            },
            BlinkyState::On => {
                led.set_low();
                self.state = BlinkyState::Off;
                self.blink_count = self.blink_count.saturating_add(1);
                if self.should_continue() {
                    Some(self.config.off_duration_ms)
                } else {
                    None
                }
            },
        }
    }
}

} // verus!
