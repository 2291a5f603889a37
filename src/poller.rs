use vstd::prelude::*;

use crate::models::CurrentlyPlaying;

verus! {

/// A change notification sent from the poller to the display loop. `None`
/// means that nothing is playing any more.
#[derive(Debug, Clone)]
pub enum Signal {
    ChangeSong(Option<CurrentlyPlaying>),
    UpdateProgress(Option<u32>),
}

/// What one fetch of the remote state gave.
#[derive(Debug, Clone)]
pub enum PollResult {
    /// The request or the decoding of its body failed.
    Failed,
    /// The service answered that nothing is playing.
    NothingPlaying,
    /// The service reported this playback state.
    Playing(CurrentlyPlaying),
}

/// Pause before the next poll after a successful fetch, in milliseconds.
pub const POLL_INTERVAL_MS: u32 = 1000;

/// Pause before the next poll after a failed fetch, in milliseconds.
pub const FAILURE_BACKOFF_MS: u32 = 5000;

/// The last track name and progress that the poller has signalled.
#[derive(Debug, Clone)]
pub struct ObservedState {
    pub song: Option<String>,
    pub position: Option<u32>,
}

/// The observed state as plain values: the track name and the progress.
pub type Observed = (Option<Seq<char>>, Option<u32>);

impl View for ObservedState {
    type V = Observed;

    open spec fn view(&self) -> Observed {
        (
            match self.song {
                Some(s) => Some(s@),
                None => None,
            },
            self.position,
        )
    }
}

/// Whether anything has been observed at all.
pub open spec fn observed_any(obs: Observed) -> bool {
    obs.0 is Some || obs.1 is Some
}

/// The observed state after one poll with result `r`.
pub open spec fn observed_after(obs: Observed, r: PollResult) -> Observed {
    match r {
        PollResult::Playing(cp) => (Some(cp.track.name@), Some(cp.progress_secs)),
        _ => (None, None),
    }
}

/// The signals that one poll with result `r` emits, in order: a clearing
/// pair once when playback goes away, otherwise a song change when the
/// track name differs and a progress update when the progress differs.
pub open spec fn signals_for(obs: Observed, r: PollResult) -> Seq<Signal> {
    match r {
        PollResult::Playing(cp) => {
            let song: Seq<Signal> = if obs.0 != Some(cp.track.name@) {
                seq![Signal::ChangeSong(Some(cp))]
            } else {
                seq![]
            };
            let progress: Seq<Signal> = if obs.1 != Some(cp.progress_secs) {
                seq![Signal::UpdateProgress(Some(cp.progress_secs))]
            } else {
                seq![]
            };
            song + progress
        },
        _ => if observed_any(obs) {
            seq![Signal::ChangeSong(None), Signal::UpdateProgress(None)]
        } else {
            seq![]
        },
    }
}

/// The pause before the poll that follows one with result `r`.
pub open spec fn delay_after(r: PollResult) -> u32 {
    match r {
        PollResult::Failed => FAILURE_BACKOFF_MS,
        _ => POLL_INTERVAL_MS,
    }
}

/// What one poll cycle decided: the signals to send, in order, and how long
/// to wait before the next poll.
#[derive(Debug)]
pub struct PollOutcome {
    pub signals: Vec<Signal>,
    pub delay_ms: u32,
}

impl ObservedState {
    /// The state before anything was observed.
    pub fn new() -> (s: ObservedState)
        ensures
            s@ == (None::<Seq<char>>, None::<u32>),
    {
        ObservedState { song: None, position: None }
    }

    /// Diffs one poll result against the observed state, updates the state
    /// and returns the signals to emit and the pause before the next poll.
    pub fn poll_step(&mut self, result: PollResult) -> (out: PollOutcome)
        ensures
            final(self)@ == observed_after(old(self)@, result),
            out.signals@ == signals_for(old(self)@, result),
            out.delay_ms == delay_after(result),
    {
        let mut signals: Vec<Signal> = Vec::new();
        match result {
            PollResult::Playing(cp) => {
                let name = cp.track.name.clone();
                let progress = cp.progress_secs;
                let song_changed = match &self.song {
                    Some(prev) => !(*prev == name),
                    None => true,
                };
                let progress_changed = match self.position {
                    Some(prev) => prev != progress,
                    None => true,
                };
                self.song = Some(name);
                self.position = Some(progress);
                if song_changed {
                    signals.push(Signal::ChangeSong(Some(cp)));
                }
                if progress_changed {
                    signals.push(Signal::UpdateProgress(Some(progress)));
                }
                assert(signals@ =~= signals_for(old(self)@, result));
                PollOutcome { signals, delay_ms: POLL_INTERVAL_MS }
            },
            _ => {
                if self.song.is_some() || self.position.is_some() {
                    self.song = None;
                    self.position = None;
                    signals.push(Signal::ChangeSong(None));
                    signals.push(Signal::UpdateProgress(None));
                }
                assert(signals@ =~= signals_for(old(self)@, result));
                let delay_ms = match result {
                    PollResult::Failed => FAILURE_BACKOFF_MS,
                    _ => POLL_INTERVAL_MS,
                };
                PollOutcome { signals, delay_ms }
            },
        }
    }
}

/// Two successive snapshots of one track whose progress differs: the
/// second poll emits exactly one progress update, with the new progress,
/// and no song change.
pub proof fn lemma_same_track_progress_only(obs: Observed, a: CurrentlyPlaying, b: CurrentlyPlaying)
    requires
        a.track.name@ == b.track.name@,
        a.progress_secs != b.progress_secs,
    ensures
        signals_for(observed_after(obs, PollResult::Playing(a)), PollResult::Playing(b))
            == seq![Signal::UpdateProgress(Some(b.progress_secs))],
{
    let mid = observed_after(obs, PollResult::Playing(a));
    assert(signals_for(mid, PollResult::Playing(b)) =~= seq![
        Signal::UpdateProgress(Some(b.progress_secs)),
    ]);
}

/// Two successive snapshots of different tracks: the second poll emits one
/// song change carrying the new snapshot, followed by one progress update
/// exactly when the progress differs too.
pub proof fn lemma_new_track_signals(obs: Observed, a: CurrentlyPlaying, b: CurrentlyPlaying)
    requires
        a.track.name@ != b.track.name@,
    ensures
        signals_for(observed_after(obs, PollResult::Playing(a)), PollResult::Playing(b)) == if a.progress_secs != b.progress_secs {
            seq![Signal::ChangeSong(Some(b)), Signal::UpdateProgress(Some(b.progress_secs))]
        } else {
            seq![Signal::ChangeSong(Some(b))]
        },
{
    let mid = observed_after(obs, PollResult::Playing(a));
    if a.progress_secs != b.progress_secs {
        assert(signals_for(mid, PollResult::Playing(b)) =~= seq![
            Signal::ChangeSong(Some(b)),
            Signal::UpdateProgress(Some(b.progress_secs)),
        ]);
    } else {
        assert(signals_for(mid, PollResult::Playing(b)) =~= seq![Signal::ChangeSong(Some(b))]);
    }
}

/// After a track was seen playing, three failed polls in a row emit the
/// clearing pair once, on the first failure, and nothing on the other two.
pub proof fn lemma_failures_clear_once(obs: Observed, a: CurrentlyPlaying)
    ensures
        ({
            let s0 = observed_after(obs, PollResult::Playing(a));
            let s1 = observed_after(s0, PollResult::Failed);
            let s2 = observed_after(s1, PollResult::Failed);
            &&& signals_for(s0, PollResult::Failed) == seq![
                Signal::ChangeSong(None),
                Signal::UpdateProgress(None),
            ]
            &&& signals_for(s1, PollResult::Failed) == Seq::<Signal>::empty()
            &&& signals_for(s2, PollResult::Failed) == Seq::<Signal>::empty()
            &&& observed_after(s2, PollResult::Failed) == (None::<Seq<char>>, None::<u32>)
        }),
{
    let s0 = observed_after(obs, PollResult::Playing(a));
    let s1 = observed_after(s0, PollResult::Failed);
    assert(signals_for(s1, PollResult::Failed) =~= Seq::<Signal>::empty());
}

} // verus!
