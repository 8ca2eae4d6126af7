//! A group's playback session: a bound voice channel, a first-in-first-out
//! queue of requested tracks, and the track that is playing.
//!
//! The session is reactive. It never talks to the voice transport itself:
//! every operation is one atomic transition that returns what the caller has
//! to carry out on the transport (halt a track, start one, leave the channel).

use std::collections::VecDeque;
use vstd::prelude::*;
use crate::error::{SessionError, SessionErrorView};
use crate::track::{track_view_opt, track_views, TrackInfo, TrackView};

verus! {

/// Where a session stands in its life.
#[derive(Clone, Copy, Debug, PartialEq, Eq, Structural)]
pub enum SessionState {
    /// No track is playing; the queue may hold entries.
    Idle,
    /// A track is playing.
    Playing,
    /// Teardown is being carried out. A teardown is a single step here, so
    /// no operation leaves a session in this state.
    Stopping,
    /// Terminal: the connection is released.
    Destroyed,
}

/// The mathematical value of a [`Session`].
pub struct SessionView {
    /// The voice channel the session is bound to.
    pub channel: u64,
    /// Pending tracks, the next to play first.
    pub queue: Seq<TrackView>,
    /// The track that is playing, if any.
    pub now_playing: Option<TrackView>,
    pub state: SessionState,
}

/// What an advance asks of the transport.
pub struct AdvanceView {
    /// The track whose output is halted first.
    pub halted: Option<TrackView>,
    /// The track that is started after that.
    pub started: Option<TrackView>,
}

/// What a teardown asks of the transport.
pub struct TeardownView {
    /// The track whose output is halted, failures ignored.
    pub halted: Option<TrackView>,
    /// Whether the voice channel is left.
    pub leave: bool,
}

impl SessionView {
    /// A session accepts queue and playback requests while it is idle or playing.
    pub open spec fn live(self) -> bool {
        self.state is Idle || self.state is Playing
    }

    /// A session holds its connection until it is destroyed.
    pub open spec fn holds_connection(self) -> bool {
        !(self.state is Destroyed)
    }

    /// A track is recorded as playing exactly in the state `Playing`.
    pub open spec fn wf(self) -> bool {
        self.state is Playing <==> self.now_playing is Some
    }

    /// The session as it is right after its channel was joined.
    pub open spec fn fresh(channel: u64) -> SessionView {
        SessionView {
            channel,
            queue: Seq::empty(),
            now_playing: None,
            state: SessionState::Idle,
        }
    }

    /// The session after a request to queue `track`.
    pub open spec fn appended(self, track: TrackView) -> SessionView {
        if self.live() {
            SessionView { queue: self.queue.push(track), ..self }
        } else {
            self
        }
    }

    /// The session after every track of `tracks` was queued in order.
    pub open spec fn appended_all(self, tracks: Seq<TrackView>) -> SessionView
        decreases tracks.len(),
    {
        if tracks.len() == 0 {
            self
        } else {
            self.appended_all(tracks.drop_last()).appended(tracks.last())
        }
    }

    /// What one advance asks of the transport.
    pub open spec fn advance_step(self) -> AdvanceView {
        if self.live() {
            AdvanceView {
                halted: self.now_playing,
                started: if self.queue.len() > 0 {
                    Some(self.queue.first())
                } else {
                    None
                },
            }
        } else {
            AdvanceView { halted: None, started: None }
        }
    }

    /// The session after one advance.
    pub open spec fn advanced(self) -> SessionView {
        if !self.live() {
            self
        } else if self.queue.len() > 0 {
            SessionView {
                queue: self.queue.drop_first(),
                now_playing: Some(self.queue.first()),
                state: SessionState::Playing,
                ..self
            }
        } else {
            SessionView { now_playing: None, state: SessionState::Idle, ..self }
        }
    }

    /// The session after `n` advances in a row.
    pub open spec fn advanced_by(self, n: nat) -> SessionView
        decreases n,
    {
        if n == 0 {
            self
        } else {
            self.advanced().advanced_by((n - 1) as nat)
        }
    }

    /// The tracks that `n` advances in a row start, in the order in which
    /// they start; an advance that starts nothing adds nothing.
    pub open spec fn playback_order(self, n: nat) -> Seq<TrackView>
        decreases n,
    {
        if n == 0 {
            Seq::empty()
        } else {
            let rest = self.advanced().playback_order((n - 1) as nat);
            match self.advance_step().started {
                Some(t) => seq![t] + rest,
                None => rest,
            }
        }
    }

    /// The track that a stop halts.
    pub open spec fn stop_step(self) -> Option<TrackView> {
        if self.state is Playing {
            self.now_playing
        } else {
            None
        }
    }

    /// The session after a stop.
    pub open spec fn stopped(self) -> SessionView {
        if self.state is Playing {
            SessionView { now_playing: None, state: SessionState::Idle, ..self }
        } else {
            self
        }
    }

    /// What a teardown asks of the transport.
    pub open spec fn teardown_step(self) -> TeardownView {
        if self.holds_connection() {
            TeardownView { halted: self.now_playing, leave: true }
        } else {
            TeardownView { halted: None, leave: false }
        }
    }

    /// The session after a teardown.
    pub open spec fn destroyed(self) -> SessionView {
        SessionView { now_playing: None, state: SessionState::Destroyed, ..self }
    }
}

/// What the caller of [`Session::advance`] carries out, in this order: halt
/// the output of `halted`, then start `started`.
#[derive(Debug, PartialEq, Eq)]
pub struct Advance {
    pub halted: Option<TrackInfo>,
    pub started: Option<TrackInfo>,
}

impl View for Advance {
    type V = AdvanceView;

    open spec fn view(&self) -> AdvanceView {
        AdvanceView {
            halted: track_view_opt(self.halted),
            started: track_view_opt(self.started),
        }
    }
}

/// What the caller of [`Session::destroy`] carries out, in this order: halt
/// the output of `halted`, ignoring a failure, then leave the voice channel
/// if `leave` is set.
#[derive(Debug, PartialEq, Eq)]
pub struct Teardown {
    pub halted: Option<TrackInfo>,
    pub leave: bool,
}

impl View for Teardown {
    type V = TeardownView;

    open spec fn view(&self) -> TeardownView {
        TeardownView { halted: track_view_opt(self.halted), leave: self.leave }
    }
}

/// The state of a session together with what only that state holds.
#[derive(Debug)]
enum Phase {
    Idle,
    Playing(TrackInfo),
    Stopping,
    Destroyed,
}

/// One group's live playback context.
#[derive(Debug)]
pub struct Session {
    channel: u64,
    tracks: VecDeque<TrackInfo>,
    phase: Phase,
}

impl View for Session {
    type V = SessionView;

    closed spec fn view(&self) -> SessionView {
        SessionView {
            channel: self.channel,
            queue: track_views(self.tracks@),
            now_playing: match self.phase {
                Phase::Playing(track) => Some(track@),
                _ => None,
            },
            state: match self.phase {
                Phase::Idle => SessionState::Idle,
                Phase::Playing(_) => SessionState::Playing,
                Phase::Stopping => SessionState::Stopping,
                Phase::Destroyed => SessionState::Destroyed,
            },
        }
    }
}

impl Session {
    /// Every session is well formed: it records a playing track exactly
    /// while it is in the state `Playing`.
    pub proof fn lemma_wf(self)
        ensures
            self@.wf(),
    {
    }

    /// Where the session stands in its life.
    pub fn state(&self) -> (state: SessionState)
        ensures
            state == self@.state,
    {
        match self.phase {
            Phase::Idle => SessionState::Idle,
            Phase::Playing(_) => SessionState::Playing,
            Phase::Stopping => SessionState::Stopping,
            Phase::Destroyed => SessionState::Destroyed,
        }
    }

    /// Makes the session for `channel` from the outcome of the attempt to
    /// join that channel: an idle session with an empty queue if the join
    /// succeeded, else the transport's report as a join error.
    pub fn create(channel: u64, joined: Result<(), String>) -> (made: Result<Session, SessionError>)
        ensures
            joined is Ok ==> made is Ok && made->Ok_0@ == SessionView::fresh(channel),
            joined is Err ==> made is Err && made->Err_0@
                == SessionErrorView::CallJoinError(joined->Err_0@),
    {
        match joined {
            Ok(()) => {
                let session = Session { channel, tracks: VecDeque::new(), phase: Phase::Idle };
                assert(session@.queue =~= Seq::empty());
                Ok(session)
            },
            Err(report) => Err(SessionError::CallJoinError(report)),
        }
    }

    /// Takes the playing track out and leaves the session idle, or leaves the
    /// session as it is where none is playing.
    fn take_playing(&mut self) -> (taken: Option<TrackInfo>)
        ensures
            track_view_opt(taken) == old(self)@.now_playing,
            final(self)@ == old(self)@.stopped(),
    {
        match self.phase {
            Phase::Playing(_) => {
                let mut phase = Phase::Idle;
                std::mem::swap(&mut self.phase, &mut phase);
                match phase {
                    Phase::Playing(track) => Some(track),
                    _ => None,
                }
            },
            _ => None,
        }
    }

    /// The voice channel the session is bound to; it never changes.
    pub fn channel(&self) -> (channel: u64)
        ensures
            channel == self@.channel,
    {
        self.channel
    }

    /// The track that is playing, if any.
    pub fn now_playing(&self) -> (track: Option<&TrackInfo>)
        ensures
            self@.now_playing == match track {
                Some(t) => Some(t@),
                None => None,
            },
    {
        match &self.phase {
            Phase::Playing(track) => Some(track),
            _ => None,
        }
    }

    /// How many tracks wait in the queue.
    pub fn queue_len(&self) -> (len: usize)
        ensures
            len == self@.queue.len(),
    {
        self.tracks.len()
    }

    /// The waiting track at `position`, counted from the front of the queue.
    pub fn queued(&self, position: usize) -> (track: Option<&TrackInfo>)
        ensures
            position < self@.queue.len() ==> track is Some && track->Some_0@
                == self@.queue[position as int],
            position >= self@.queue.len() ==> track is None,
    {
        if position < self.tracks.len() {
            Some(&self.tracks[position])
        } else {
            None
        }
    }

    /// Puts a request by `requester` for `source` at the back of the queue.
    /// Playback is not started. The request is accepted while the session is
    /// idle or playing and refused, with nothing changed, otherwise.
    pub fn append(&mut self, source: String, requester: u64) -> (accepted: bool)
        ensures
            accepted == old(self)@.live(),
            final(self)@ == old(self)@.appended(TrackView { source: source@, requester }),
    {
        match self.phase {
            Phase::Idle | Phase::Playing(_) => {
                let track = TrackInfo::new(source, requester);
                let ghost before = self.tracks@;
                self.tracks.push_back(track);
                assert(track_views(before.push(track)) =~= track_views(before).push(track@));
                true
            },
            _ => false,
        }
    }

    /// Promotes the next queued track to the playing one.
    ///
    /// While the session is idle or playing, the track that was playing is
    /// handed back to be halted, the front of the queue leaves the queue and
    /// is handed back to be started, and the session is `Playing`; with an
    /// empty queue nothing is started and the session is `Idle`. A session
    /// that is being torn down or is destroyed does not change and asks for
    /// nothing.
    pub fn advance(&mut self) -> (step: Advance)
        ensures
            step@ == old(self)@.advance_step(),
            final(self)@ == old(self)@.advanced(),
    {
        let halted = match self.phase {
            Phase::Idle => None,
            Phase::Playing(_) => self.take_playing(),
            _ => {
                return Advance { halted: None, started: None };
            },
        };
        let ghost before = self.tracks@;
        match self.tracks.pop_front() {
            Some(track) => {
                let started = track.clone();
                self.phase = Phase::Playing(track);
                assert(track_views(before.subrange(1, before.len() as int)) =~= track_views(
                    before,
                ).drop_first());
                Advance { halted, started: Some(started) }
            },
            None => Advance { halted, started: None },
        }
    }

    /// Halts the playing track without touching the queue: a playing session
    /// hands its track back to be halted and is idle afterwards. In every
    /// other state nothing changes and nothing is handed back.
    pub fn stop(&mut self) -> (halted: Option<TrackInfo>)
        ensures
            track_view_opt(halted) == old(self)@.stop_step(),
            final(self)@ == old(self)@.stopped(),
    {
        match self.phase {
            Phase::Playing(_) => self.take_playing(),
            _ => None,
        }
    }

    /// Tears the session down. A session that still holds its connection
    /// hands back the playing track to be halted and asks for the channel to
    /// be left; it is `Destroyed` afterwards. A destroyed session stays as it
    /// is and asks for nothing, so a second call has no further effect.
    pub fn destroy(&mut self) -> (teardown: Teardown)
        ensures
            teardown@ == old(self)@.teardown_step(),
            final(self)@ == old(self)@.destroyed(),
    {
        match self.phase {
            Phase::Destroyed => Teardown { halted: None, leave: false },
            _ => {
                let halted = self.take_playing();
                self.phase = Phase::Destroyed;
                Teardown { halted, leave: true }
            },
        }
    }
}

/// Reports the outcome of a playback control request to the caller of the
/// operation that asked for it: a refusal becomes a control error that
/// carries the transport's report.
pub fn control_result(outcome: Result<(), String>) -> (reported: Result<(), SessionError>)
    ensures
        outcome is Ok ==> reported is Ok,
        outcome is Err ==> reported is Err && reported->Err_0@
            == SessionErrorView::SongbirdControlError(outcome->Err_0@),
{
    match outcome {
        Ok(()) => Ok(()),
        Err(report) => Err(SessionError::SongbirdControlError(report)),
    }
}

/// Settles a teardown from what the transport answered to the request to
/// halt the playing track and to the request to leave the channel: teardown
/// is best effort, so a failure of either is dropped and the teardown counts
/// as done.
pub fn teardown_result(halted: Result<(), String>, left: Result<(), String>) -> (done: Result<
    (),
    SessionError,
>)
    ensures
        done is Ok,
{
    Ok(())
}

} // verus!
