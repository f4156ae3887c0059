//! Tap tempo: beats per minute from the time between two presses of a sync button.
use crate::value::Ratio;
use vstd::prelude::*;

verus! {

/// Microseconds in a second.
pub const MICROS_PER_SECOND: u64 = 1_000_000;

/// Microseconds in a minute.
pub const MICROS_PER_MINUTE: u64 = 60_000_000;

/// A reference edge is dropped once more than this many whole seconds have
/// passed since it.
pub const STALE_AFTER_SECONDS: u64 = 2;

/// Two edges closer than this many microseconds measure no tempo.
pub const MIN_INTERVAL: u64 = 50_000;

/// What a [`Tempo`] holds.
pub struct TempoModel {
    /// Time of the last edge, unless it went stale.
    pub reference: Option<u64>,
    /// The interval between the two edges that last measured a tempo.
    pub interval: Option<u64>,
}

impl TempoModel {
    /// Every measured interval is long enough to divide by.
    pub open spec fn wf(self) -> bool {
        self.interval matches Some(d) ==> d >= MIN_INTERVAL
    }

    /// No edge seen, no tempo measured.
    pub open spec fn fresh() -> TempoModel {
        TempoModel { reference: None, interval: None }
    }

    /// Microseconds from the reference edge to `now`; zero without a
    /// reference, or when `now` lies before it.
    pub open spec fn elapsed(self, now: u64) -> int {
        match self.reference {
            Some(r) => if now >= r {
                now - r
            } else {
                0
            },
            None => 0,
        }
    }

    /// Whether the reference edge is too old at `now` to measure from.
    pub open spec fn is_stale(self, now: u64) -> bool {
        self.reference is Some && self.elapsed(now) / (MICROS_PER_SECOND as int)
            > STALE_AFTER_SECONDS
    }

    /// The state after the staleness sweep at `now`: a stale reference is
    /// dropped, the measured tempo stays.
    pub open spec fn swept(self, now: u64) -> TempoModel {
        if self.is_stale(now) {
            TempoModel { reference: None, ..self }
        } else {
            self
        }
    }

    /// Whether an edge at `now` measures a tempo: there is a reference, and it
    /// lies at least [`MIN_INTERVAL`] back.
    pub open spec fn measures(self, now: u64) -> bool {
        self.reference is Some && self.elapsed(now) >= MIN_INTERVAL
    }

    /// The state after a sync edge at `now`: the interval since the reference
    /// is recorded if it measures a tempo, and `now` becomes the reference in
    /// any case.
    pub open spec fn after_edge(self, now: u64) -> TempoModel {
        TempoModel {
            reference: Some(now),
            interval: if self.measures(now) {
                Some(self.elapsed(now) as u64)
            } else {
                self.interval
            },
        }
    }

    /// Beats per minute: a minute over the measured interval, and zero as
    /// long as nothing was measured.
    pub open spec fn bpm(self) -> Ratio {
        match self.interval {
            Some(d) => Ratio { numerator: MICROS_PER_MINUTE, denominator: d },
            None => Ratio { numerator: 0, denominator: 1 },
        }
    }

    /// An edge after a stale gap measures nothing: the sweep drops the old
    /// reference, the tempo stays what it was, and the edge becomes the new
    /// reference.
    pub proof fn stale_gap_starts_afresh(self, now: u64)
        requires
            self.is_stale(now),
        ensures
            self.swept(now).after_edge(now).bpm() == self.bpm(),
            self.swept(now).after_edge(now).interval == self.interval,
            self.swept(now).after_edge(now).reference == Some(now),
    {
    }

    /// Two edges `gap` microseconds apart, with `gap` at least
    /// [`MIN_INTERVAL`] and short enough not to go stale, measure a minute
    /// over `gap`, whatever was measured before.
    pub proof fn two_edges_measure_their_gap(self, first: u64, gap: u64)
        requires
            first + gap <= u64::MAX,
            gap >= MIN_INTERVAL,
            gap / MICROS_PER_SECOND <= STALE_AFTER_SECONDS,
        ensures
            self.after_edge(first).swept((first + gap) as u64).after_edge(
                (first + gap) as u64,
            ).bpm() == (Ratio { numerator: MICROS_PER_MINUTE, denominator: gap }),
    {
    }

    /// Edges closer than [`MIN_INTERVAL`] leave the tempo as it was.
    pub proof fn close_edges_measure_nothing(self, now: u64)
        requires
            self.elapsed(now) < MIN_INTERVAL,
        ensures
            self.after_edge(now).bpm() == self.bpm(),
    {
    }

    /// Sweeping and edges keep measured intervals long enough to divide by.
    pub proof fn steps_keep_wf(self, now: u64)
        requires
            self.wf(),
        ensures
            self.swept(now).wf(),
            self.after_edge(now).wf(),
            self.after_edge(now).bpm().denominator > 0,
    {
    }
}

/// The tempo estimator of one deck.
#[derive(Clone, Copy, Debug)]
pub struct Tempo {
    reference: Option<u64>,
    interval: Option<u64>,
}

impl View for Tempo {
    type V = TempoModel;

    closed spec fn view(&self) -> TempoModel {
        TempoModel { reference: self.reference, interval: self.interval }
    }
}

impl Tempo {
    #[verifier::type_invariant]
    spec fn inv(self) -> bool {
        self@.wf()
    }

    /// An estimator that has seen no edge.
    pub fn new() -> (r: Tempo)
        ensures
            r@ == TempoModel::fresh(),
            r@.wf(),
    {
        Tempo { reference: None, interval: None }
    }

    /// The staleness sweep: forgets a reference edge that is too old at `now`.
    pub fn sweep(&mut self, now: u64)
        ensures
            final(self)@ == old(self)@.swept(now),
            final(self)@.wf(),
    {
        proof {
            use_type_invariant(&*self);
        }
        if let Some(r) = self.reference {
            if now >= r && (now - r) / MICROS_PER_SECOND > STALE_AFTER_SECONDS {
                self.reference = None;
            }
        }
    }

    /// Records a rising edge of the sync button at `now` and returns the
    /// tempo that holds after it.
    pub fn on_sync_edge(&mut self, now: u64) -> (bpm: Ratio)
        ensures
            final(self)@ == old(self)@.after_edge(now),
            final(self)@.wf(),
            bpm == final(self)@.bpm(),
            bpm.denominator > 0,
    {
        proof {
            use_type_invariant(&*self);
        }
        if let Some(r) = self.reference {
            if now >= r && now - r >= MIN_INTERVAL {
                self.interval = Some(now - r);
            }
        }
        self.reference = Some(now);
        self.bpm()
    }

    /// The tempo measured last, in beats per minute; zero before the first
    /// measurement.
    pub fn bpm(&self) -> (r: Ratio)
        ensures
            r == self@.bpm(),
            r.denominator > 0,
    {
        proof {
            use_type_invariant(self);
        }
        match self.interval {
            Some(d) => Ratio { numerator: MICROS_PER_MINUTE, denominator: d },
            None => Ratio { numerator: 0, denominator: 1 },
        }
    }

    /// Time of the reference edge, if there is one.
    pub fn last_edge(&self) -> (r: Option<u64>)
        ensures
            r == self@.reference,
    {
        self.reference
    }
}

} // verus!
