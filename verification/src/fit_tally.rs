//! The tally of a repeated straight-line fit: every new random seed draws a
//! new data set, and the first fit after it is counted once as a success
//! (the true line lies inside the fit's confidence region) or a failure.

use rand::Rng;
use vstd::prelude::*;

verus! {

/// The seed the demo starts from.
pub const INITIAL_SEED: u64 = 423894187419;

/// The tally as mathematical values.
pub struct Tally {
    pub seed: u64,
    pub successes: nat,
    pub trials: nat,
    /// The current seed has not been fitted and counted yet.
    pub awaiting: bool,
    /// `'Y'` after a counted success, `'N'` after a counted failure, `'0'`
    /// before the first count.
    pub symbol: char,
}

impl Tally {
    /// The tally before any fit.
    pub open spec fn initial() -> Tally {
        Tally { seed: INITIAL_SEED, successes: 0, trials: 0, awaiting: true, symbol: '0' }
    }

    /// The tally after a fit whose confidence region holds the true line
    /// exactly when `inside`: counted only if the seed is new.
    pub open spec fn record(self, inside: bool) -> Tally {
        if self.awaiting {
            Tally {
                seed: self.seed,
                successes: if inside { self.successes + 1 } else { self.successes },
                trials: self.trials + 1,
                awaiting: false,
                symbol: if inside { 'Y' } else { 'N' },
            }
        } else {
            self
        }
    }

    /// The tally after a new seed was drawn: the next fit will be counted.
    pub open spec fn reseed(self, seed: u64) -> Tally {
        Tally { seed, awaiting: true, ..self }
    }

    /// What holds of every tally the demo can reach: no more successes
    /// than trials; the symbol is `'0'` exactly while no trial has been
    /// counted and `'Y'` or `'N'` afterwards; and while no trial has been
    /// counted, the next fit will be.
    pub open spec fn valid(self) -> bool {
        &&& self.successes <= self.trials
        &&& (self.symbol == '0' <==> self.trials == 0)
        &&& (self.trials != 0 ==> (self.symbol == 'Y' || self.symbol == 'N'))
        &&& (self.trials == 0 ==> self.awaiting)
    }

    /// The tally after one event.
    pub open spec fn step(self, event: TallyEvent) -> Tally {
        match event {
            TallyEvent::Fit(inside) => self.record(inside),
            TallyEvent::Reseed(seed) => self.reseed(seed),
        }
    }

    /// The tally after the events of `events`, first to last.
    pub open spec fn run(self, events: Seq<TallyEvent>) -> Tally
        decreases events.len(),
    {
        if events.len() == 0 {
            self
        } else {
            self.run(events.drop_last()).step(events.last())
        }
    }
}

/// What can happen to the tally: a fit whose region holds the true line
/// or not, or a new seed.
pub enum TallyEvent {
    Fit(bool),
    Reseed(u64),
}

/// The tally kept by the fitting demo.
pub struct FitTally {
    seed: u64,
    n_successes: u32,
    n_trials: u32,
    just_refreshed_seed: bool,
    success_symbol: char,
}

impl View for FitTally {
    type V = Tally;

    closed spec fn view(&self) -> Tally {
        Tally {
            seed: self.seed,
            successes: self.n_successes as nat,
            trials: self.n_trials as nat,
            awaiting: self.just_refreshed_seed,
            symbol: self.success_symbol,
        }
    }
}

/// Calls `rand::thread_rng().gen::<u64>()`. Nothing is claimed of the
/// result: it is a random number.
#[verifier::external_body]
fn random_seed() -> u64 {
    rand::thread_rng().gen::<u64>()
}

impl FitTally {
    /// Every tally is one the demo can reach.
    #[verifier::type_invariant]
    spec fn inv(self) -> bool {
        self@.valid()
    }

    /// The tally at the start: the initial seed, nothing counted, and the
    /// first fit still to be counted.
    pub fn new() -> (t: Self)
        ensures
            t@ == Tally::initial(),
            t@.valid(),
    {
        FitTally {
            seed: INITIAL_SEED,
            n_successes: 0,
            n_trials: 0,
            just_refreshed_seed: true,
            success_symbol: '0',
        }
    }

    /// The seed of the current data set.
    pub fn seed(&self) -> (s: u64)
        ensures
            s == self@.seed,
    {
        self.seed
    }

    /// The number of counted fits whose region held the true line.
    pub fn n_successes(&self) -> (n: u32)
        ensures
            n == self@.successes,
            self@.valid(),
    {
        proof {
            use_type_invariant(self);
        }
        self.n_successes
    }

    /// The number of counted fits.
    pub fn n_trials(&self) -> (n: u32)
        ensures
            n == self@.trials,
            self@.valid(),
    {
        proof {
            use_type_invariant(self);
        }
        self.n_trials
    }

    /// Whether the current seed still waits for its fit to be counted.
    pub fn just_refreshed_seed(&self) -> (b: bool)
        ensures
            b == self@.awaiting,
    {
        self.just_refreshed_seed
    }

    /// `'Y'` or `'N'` for the last counted fit, `'0'` before any.
    pub fn success_symbol(&self) -> (c: char)
        ensures
            c == self@.symbol,
            c == '0' <==> self@.trials == 0,
            self@.trials != 0 ==> (c == 'Y' || c == 'N'),
            self@.valid(),
    {
        proof {
            use_type_invariant(self);
        }
        self.success_symbol
    }

    /// Counts the fit of the current data set, if it was not counted yet:
    /// `inside` tells whether the true line lies in the fit's region.
    pub fn record_fit(&mut self, inside: bool)
        requires
            old(self)@.awaiting ==> old(self)@.trials < u32::MAX,
        ensures
            final(self)@ == old(self)@.record(inside),
            final(self)@.valid(),
            old(self)@.awaiting ==> final(self)@.symbol == (if inside { 'Y' } else { 'N' }),
            old(self)@.awaiting ==> final(self)@.trials == old(self)@.trials + 1,
            old(self)@.awaiting ==> final(self)@.successes == old(self)@.successes + (if inside { 1nat } else { 0nat }),
            old(self)@.awaiting ==> !final(self)@.awaiting,
            !old(self)@.awaiting ==> final(self)@ == old(self)@,
            final(self)@.seed == old(self)@.seed,
    {
        proof {
            use_type_invariant(&*self);
        }
        if self.just_refreshed_seed {
            *self = FitTally {
                seed: self.seed,
                n_successes: if inside { self.n_successes + 1 } else { self.n_successes },
                n_trials: self.n_trials + 1,
                just_refreshed_seed: false,
                success_symbol: if inside { 'Y' } else { 'N' },
            };
        }
        proof {
            use_type_invariant(&*self);
        }
    }

    /// Takes `seed` for the next data set; its fit will be counted.
    pub fn reseed(&mut self, seed: u64)
        ensures
            final(self)@ == old(self)@.reseed(seed),
            final(self)@.valid(),
    {
        proof {
            use_type_invariant(&*self);
        }
        self.seed = seed;
        self.just_refreshed_seed = true;
        proof {
            use_type_invariant(&*self);
        }
    }

    /// Draws a random seed for the next data set (the demo's "Randomize"
    /// button); its fit will be counted.
    pub fn randomize(&mut self)
        ensures
            final(self)@ == old(self)@.reseed(final(self)@.seed),
            final(self)@.valid(),
    {
        let seed = random_seed();
        self.reseed(seed);
    }
}

/// A data set is counted at most once: a second fit before a new seed
/// changes nothing.
pub proof fn lemma_counted_once(t: Tally, first: bool, second: bool)
    ensures
        t.record(first).record(second) == t.record(first),
{
}

/// After a new seed, the next fit is counted as exactly one trial, and as
/// a success exactly when its region holds the true line.
pub proof fn lemma_reseed_then_record(t: Tally, seed: u64, inside: bool)
    ensures
        t.reseed(seed).record(inside).trials == t.trials + 1,
        t.reseed(seed).record(inside).successes == t.successes + if inside { 1nat } else { 0nat },
        t.reseed(seed).record(inside).seed == seed,
        !t.reseed(seed).record(inside).awaiting,
{
}

/// A counted fit shows `'Y'` exactly when its region held the true line
/// and `'N'` otherwise, whatever was counted before; it adds one trial, and
/// one success exactly when its region held the true line.
pub proof fn lemma_counted_fit_outcome(t: Tally, inside: bool)
    requires
        t.awaiting,
    ensures
        t.record(inside).symbol == (if inside { 'Y' } else { 'N' }),
        t.record(inside).trials == t.trials + 1,
        t.record(inside).successes == t.successes + (if inside { 1nat } else { 0nat }),
        t.record(inside).seed == t.seed,
        !t.record(inside).awaiting,
{
}

/// Every single event keeps a tally the demo can reach.
pub proof fn lemma_step_keeps_valid(t: Tally, event: TallyEvent)
    requires
        t.valid(),
    ensures
        t.step(event).valid(),
{
}

/// Whatever events follow, from the start or from any reachable tally, the
/// successes never outnumber the trials, the symbol is `'0'` exactly while
/// no trial has been counted and `'Y'` or `'N'` afterwards, and while no
/// trial has been counted the next fit will be.
pub proof fn lemma_run_keeps_valid(t: Tally, events: Seq<TallyEvent>)
    requires
        t.valid(),
    ensures
        t.run(events).valid(),
        Tally::initial().run(events).valid(),
    decreases events.len(),
{
    if events.len() > 0 {
        lemma_run_keeps_valid(t, events.drop_last());
        lemma_step_keeps_valid(t.run(events.drop_last()), events.last());
        lemma_step_keeps_valid(Tally::initial().run(events.drop_last()), events.last());
    }
}

/// After any events followed by a fit, at least one trial has been
/// counted, so the fraction of successes is never taken over zero trials.
pub proof fn lemma_fit_counts_a_trial(events: Seq<TallyEvent>, inside: bool)
    ensures
        Tally::initial().run(events.push(TallyEvent::Fit(inside))).trials >= 1,
{
    lemma_run_keeps_valid(Tally::initial(), events);
    assert(events.push(TallyEvent::Fit(inside)).drop_last() =~= events);
}

} // verus!
