use vstd::prelude::*;

use crate::filter::{is_median, slide, MedianFilter};

verus! {

/// Sub-samples taken of every channel in one sampling cycle.
pub const SUBSAMPLES: usize = 5;

/// Pause, in milliseconds, after each round of sub-samples.
pub const SETTLE_MILLIS: u64 = 100;

/// Period, in seconds, of the timer that starts a sampling cycle.
pub const PERIOD_SECS: u64 = 10;

/// Where a sampler stands.
#[derive(Debug, Clone, Copy, PartialEq, Eq, Structural)]
pub enum Phase {
    /// Waiting for the timer.
    Idle,
    /// In sub-sample round `round`, about to measure channel `channel` (or to
    /// settle, once every channel has been measured).
    Sampling { round: usize, channel: usize },
}

/// What happened since the sampler's last step.
#[derive(Debug, Clone, Copy, PartialEq, Eq, Structural)]
pub enum Event {
    /// The periodic timer fired.
    Tick,
    /// The requested measurement gave this sample (hundredths of a centimetre).
    Sampled(u64),
    /// The requested measurement gave no sample.
    SampleFailed,
    /// The pause after a round is over.
    Settled,
}

/// What the sampler asks its driver to do next.
#[derive(Debug, Clone)]
pub enum Action {
    /// Nothing until the next timer tick.
    Wait,
    /// Take one raw sample of this channel.
    Measure(usize),
    /// Pause for `SETTLE_MILLIS`.
    Settle,
    /// Hand these readings, one per channel, to the collaborators. A channel
    /// with no sample yet reads `None`.
    Report(Vec<Option<u64>>),
}

/// The phase after `event` reaches a sampler with `n` channels in `phase`.
/// An event that does not fit the phase changes nothing.
pub open spec fn phase_after(phase: Phase, n: nat, event: Event) -> Phase {
    match phase {
        Phase::Idle => if event is Tick {
            Phase::Sampling { round: 0, channel: 0 }
        } else {
            phase
        },
        Phase::Sampling { round, channel } => {
            if channel < n && (event is Sampled || event is SampleFailed) {
                Phase::Sampling { round, channel: (channel + 1) as usize }
            } else if channel == n && event is Settled {
                if round + 1 < SUBSAMPLES {
                    Phase::Sampling { round: (round + 1) as usize, channel: 0 }
                } else {
                    Phase::Idle
                }
            } else {
                phase
            }
        },
    }
}

/// The channel windows after `event`: a sample goes into the window of the
/// channel being measured, and into no other.
pub open spec fn windows_after(phase: Phase, windows: Seq<Seq<u64>>, event: Event) -> Seq<
    Seq<u64>,
> {
    match phase {
        Phase::Sampling { round, channel } => match event {
            Event::Sampled(v) => if channel < windows.len() {
                windows.update(channel as int, slide(windows[channel as int], v))
            } else {
                windows
            },
            _ => windows,
        },
        Phase::Idle => windows,
    }
}

/// `event` ends the last round of a cycle.
pub open spec fn completes_cycle(phase: Phase, n: nat, event: Event) -> bool {
    match phase {
        Phase::Sampling { round, channel } => round + 1 == SUBSAMPLES && channel == n
            && event is Settled,
        Phase::Idle => false,
    }
}

/// The action that a sampler in `phase` with `n` channels asks for.
pub open spec fn action_of(phase: Phase, n: nat) -> Action {
    match phase {
        Phase::Idle => Action::Wait,
        Phase::Sampling { round, channel } => if channel < n {
            Action::Measure(channel)
        } else {
            Action::Settle
        },
    }
}

/// `readings` holds the median of each window, `None` for an empty one.
pub open spec fn readings_of(readings: Seq<Option<u64>>, windows: Seq<Seq<u64>>) -> bool {
    &&& readings.len() == windows.len()
    &&& forall|i: int|
        0 <= i < windows.len() ==> (readings[i].is_none() <==> windows[i].len() == 0)
    &&& forall|i: int, x: u64|
        0 <= i < windows.len() && readings[i] == Some(x) ==> is_median(windows[i], x)
}

/// Channel `j` is the one being measured in `phase`.
pub open spec fn measuring(phase: Phase, j: int) -> bool {
    match phase {
        Phase::Sampling { round, channel } => channel == j,
        Phase::Idle => false,
    }
}

/// Channels never see each other's samples: whatever the event, the window
/// of every channel other than the one being measured is left as it was.
pub proof fn lemma_channels_isolated(phase: Phase, windows: Seq<Seq<u64>>, event: Event, j: int)
    requires
        0 <= j < windows.len(),
        !measuring(phase, j),
    ensures
        windows_after(phase, windows, event).len() == windows.len(),
        windows_after(phase, windows, event)[j] == windows[j],
{
}

/// Drives the sampling cycle of several independent sensor channels.
///
/// On each timer tick it runs `SUBSAMPLES` rounds; a round measures every
/// channel in turn, feeding each sample into that channel's median filter,
/// then settles. After the last round it reports every channel's median at
/// once. A failed measurement skips that sample and the cycle goes on.
pub struct Sampler {
    filters: Vec<MedianFilter>,
    phase: Phase,
}

impl Sampler {
    /// Every filter is well formed and the phase is within bounds.
    pub closed spec fn wf(&self) -> bool {
        &&& forall|i: int| 0 <= i < self.filters@.len() ==> self.filters@[i].wf()
        &&& match self.phase {
            Phase::Sampling { round, channel } => round < SUBSAMPLES && channel
                <= self.filters@.len(),
            Phase::Idle => true,
        }
    }

    /// The phase.
    pub closed spec fn phase_spec(&self) -> Phase {
        self.phase
    }

    /// The sample window of each channel.
    pub closed spec fn windows(&self) -> Seq<Seq<u64>> {
        self.filters@.map_values(|f: MedianFilter| f@)
    }

    /// A sampler of `channels` channels, idle, with empty filters.
    pub fn new(channels: usize) -> (r: Sampler)
        ensures
            r.wf(),
            r.phase_spec() == Phase::Idle,
            r.windows().len() == channels,
            forall|i: int| 0 <= i < channels ==> r.windows()[i] == Seq::<u64>::empty(),
    {
        let mut filters: Vec<MedianFilter> = Vec::new();
        let mut i: usize = 0;
        while i < channels
            invariant
                i <= channels,
                filters@.len() == i,
                forall|j: int| 0 <= j < i ==> filters@[j].wf(),
                forall|j: int| 0 <= j < i ==> filters@[j]@ == Seq::<u64>::empty(),
            decreases channels - i,
        {
            filters.push(MedianFilter::new());
            i = i + 1;
        }
        Sampler { filters, phase: Phase::Idle }
    }

    /// Number of channels.
    pub fn channels(&self) -> (r: usize)
        ensures
            r == self.windows().len(),
    {
        self.filters.len()
    }

    /// The phase.
    pub fn phase(&self) -> (r: Phase)
        ensures
            r == self.phase_spec(),
    {
        self.phase
    }

    /// The median of each channel's window, `None` where it is empty.
    pub fn readings(&self) -> (r: Vec<Option<u64>>)
        requires
            self.wf(),
        ensures
            readings_of(r@, self.windows()),
    {
        let mut out: Vec<Option<u64>> = Vec::new();
        let mut i: usize = 0;
        while i < self.filters.len()
            invariant
                self.wf(),
                i <= self.filters@.len(),
                out@.len() == i,
                forall|j: int|
                    0 <= j < i ==> (out@[j].is_none() <==> self.filters@[j]@.len() == 0),
                forall|j: int, x: u64|
                    0 <= j < i && out@[j] == Some(x) ==> is_median(self.filters@[j]@, x),
            decreases self.filters@.len() - i,
        {
            out.push(self.filters[i].median());
            i = i + 1;
        }
        out
    }

    /// What the sampler asks for now.
    pub fn action(&self) -> (r: Action)
        ensures
            r == action_of(self.phase_spec(), self.windows().len()),
    {
        match self.phase {
            Phase::Idle => Action::Wait,
            Phase::Sampling { round: _, channel } => if channel < self.filters.len() {
                Action::Measure(channel)
            } else {
                Action::Settle
            },
        }
    }

    /// Takes one event and returns what to do next: the readings when the
    /// event ends a cycle, else the action of the new phase.
    pub fn step(&mut self, event: Event) -> (r: Action)
        requires
            old(self).wf(),
        ensures
            final(self).wf(),
            final(self).phase_spec() == phase_after(
                old(self).phase_spec(),
                old(self).windows().len(),
                event,
            ),
            final(self).windows() == windows_after(old(self).phase_spec(), old(self).windows(), event),
            completes_cycle(old(self).phase_spec(), old(self).windows().len(), event) ==> (
            r is Report && readings_of(r->Report_0@, final(self).windows())),
            !completes_cycle(old(self).phase_spec(), old(self).windows().len(), event) ==> r
                == action_of(final(self).phase_spec(), final(self).windows().len()),
    {
        let n = self.filters.len();
        match self.phase {
            Phase::Idle => {
                if let Event::Tick = event {
                    self.phase = Phase::Sampling { round: 0, channel: 0 };
                }
            },
            Phase::Sampling { round, channel } => {
                if channel < n {
                    match event {
                        Event::Sampled(v) => {
                            self.filters[channel].consume(v);
                            self.phase = Phase::Sampling { round, channel: channel + 1 };
                        },
                        Event::SampleFailed => {
                            self.phase = Phase::Sampling { round, channel: channel + 1 };
                        },
                        _ => {},
                    }
                } else if let Event::Settled = event {
                    if round + 1 < SUBSAMPLES {
                        self.phase = Phase::Sampling { round: round + 1, channel: 0 };
                    } else {
                        self.phase = Phase::Idle;
                        return Action::Report(self.readings());
                    }
                }
            },
        }
        self.action()
    }
}

} // verus!
