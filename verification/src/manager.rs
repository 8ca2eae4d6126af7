//! The registry of sessions: at most one live session for each group.
//!
//! A session is made, reached and destroyed through the registry alone, so
//! the entry of a group and the state of its session cannot drift apart.
//! Joining a voice channel suspends the caller and is therefore not done
//! here. [`SessionManager::get_or_create`] says whether a join is needed and
//! for which channel, and reserves the group for the caller it tells to
//! join: until that caller has settled the join, every other request for the
//! group is told to wait. [`SessionManager::bind_channel`] takes what the
//! lookup of the channel found, and [`SessionManager::create`] the outcome
//! of the join; either ends the reservation.

use std::collections::HashMap;
use vstd::prelude::*;
use vstd::std_specs::hash::*;
use crate::error::{SessionError, SessionErrorView};
use crate::session::{Advance, Session, SessionView, Teardown, TeardownView};
use crate::track::{track_view_opt, TrackInfo, TrackView};
use crate::util::Channel;

verus! {

broadcast use group_hash_axioms;

/// What [`SessionManager::get_or_create`] found.
#[derive(Clone, Copy, Debug, PartialEq, Eq, Structural)]
pub enum Admission {
    /// The group has a session; nothing is to be joined.
    Existing,
    /// The group has no session and nobody is joining for it: the caller is
    /// to join this voice channel, and the group is reserved for the caller
    /// until the join is settled.
    Join(u64),
    /// Another request is joining this voice channel for the group. Nothing
    /// is to be joined: the caller asks again once that join is settled.
    Joining(u64),
}

/// The voice channel a new session is bound to: the one that was named,
/// else the one the requesting user is in.
pub open spec fn target_channel(channel: Option<u64>, author_channel: Option<u64>) -> Option<u64> {
    match channel {
        Some(c) => Some(c),
        None => author_channel,
    }
}

/// The channel that a session is bound to, from what the lookup of the
/// target channel found: the channel itself where it is a channel of a
/// group. A channel of another kind counts as no voice channel; a failed
/// lookup is a gateway error with its report.
pub fn guild_channel(lookup: Result<Channel, String>) -> (bound: Result<u64, SessionError>)
    ensures
        match lookup {
            Ok(Channel::Guild { id, .. }) => bound == Ok::<u64, SessionError>(id),
            Ok(Channel::Private) => bound is Err && bound->Err_0@
                == SessionErrorView::MissingVoiceChannel,
            Err(report) => bound is Err && bound->Err_0@ == SessionErrorView::SerenityError(
                report@,
            ),
        },
{
    match lookup {
        Ok(Channel::Guild { id, .. }) => Ok(id),
        Ok(Channel::Private) => Err(SessionError::MissingVoiceChannel),
        Err(report) => Err(SessionError::SerenityError(report)),
    }
}

/// Every session of the registry is well formed and is idle or playing.
pub open spec fn all_live(sessions: Map<u64, SessionView>) -> bool {
    forall|guild: u64| #[trigger]
        sessions.contains_key(guild) ==> sessions[guild].live() && sessions[guild].wf()
}

/// The registry after `guild`'s session, if there is one, went through the
/// transition `step`.
pub open spec fn updated(
    sessions: Map<u64, SessionView>,
    guild: u64,
    step: spec_fn(SessionView) -> SessionView,
) -> Map<u64, SessionView> {
    if sessions.contains_key(guild) {
        sessions.insert(guild, step(sessions[guild]))
    } else {
        sessions
    }
}

/// The mathematical value of a [`SessionManager`].
pub struct RegistryView {
    /// The session of each group that has one.
    pub sessions: Map<u64, SessionView>,
    /// The groups that are reserved for a caller who is joining, each with
    /// the voice channel that is being joined.
    pub joining: Map<u64, u64>,
}

impl RegistryView {
    /// The registry without sessions and without reservations.
    pub open spec fn empty() -> RegistryView {
        RegistryView { sessions: Map::empty(), joining: Map::empty() }
    }

    /// Every session is well formed and is idle or playing, and no group
    /// that has a session is reserved.
    pub open spec fn wf(self) -> bool {
        &&& all_live(self.sessions)
        &&& forall|guild: u64| #[trigger]
            self.joining.contains_key(guild) ==> !self.sessions.contains_key(guild)
    }

    /// A group is taken while it has a session or is reserved for a join.
    pub open spec fn occupied(self, guild: u64) -> bool {
        self.sessions.contains_key(guild) || self.joining.contains_key(guild)
    }

    /// What a fetch-or-create request for `guild` is answered with.
    pub open spec fn admission(
        self,
        guild: u64,
        channel: Option<u64>,
        author_channel: Option<u64>,
    ) -> Result<Admission, SessionErrorView> {
        if self.sessions.contains_key(guild) {
            Ok(Admission::Existing)
        } else if self.joining.contains_key(guild) {
            Ok(Admission::Joining(self.joining[guild]))
        } else {
            match target_channel(channel, author_channel) {
                Some(c) => Ok(Admission::Join(c)),
                None => Err(SessionErrorView::MissingVoiceChannel),
            }
        }
    }

    /// The registry after a fetch-or-create request for `guild`: a request
    /// that is told to join reserves the group, any other changes nothing.
    pub open spec fn requested(
        self,
        guild: u64,
        channel: Option<u64>,
        author_channel: Option<u64>,
    ) -> RegistryView {
        match self.admission(guild, channel, author_channel) {
            Ok(Admission::Join(c)) => RegistryView { joining: self.joining.insert(guild, c), ..self },
            _ => self,
        }
    }

    /// The registry after the lookup of `guild`'s target channel: a lookup
    /// that found no channel of a group ends the reservation.
    pub open spec fn bound(self, guild: u64, found: bool) -> RegistryView {
        if found {
            self
        } else {
            RegistryView { joining: self.joining.remove(guild), ..self }
        }
    }

    /// The registry after the join of `channel` for `guild` was settled: the
    /// reservation ends, and a join that succeeded for a group without a
    /// session enters a fresh session.
    pub open spec fn created(self, guild: u64, channel: u64, joined: bool) -> RegistryView {
        RegistryView {
            sessions: if joined && !self.sessions.contains_key(guild) {
                self.sessions.insert(guild, SessionView::fresh(channel))
            } else {
                self.sessions
            },
            joining: self.joining.remove(guild),
        }
    }

    /// The registry after the session of `guild` was destroyed.
    pub open spec fn destroyed(self, guild: u64) -> RegistryView {
        RegistryView { sessions: self.sessions.remove(guild), ..self }
    }

    /// The registry after `guild`'s session, if there is one, went through
    /// the transition `step`.
    pub open spec fn touched(self, guild: u64, step: spec_fn(SessionView) -> SessionView) -> RegistryView {
        RegistryView { sessions: updated(self.sessions, guild, step), ..self }
    }
}

/// A manager for all active listening sessions, keyed by group.
#[derive(Debug)]
pub struct SessionManager {
    sessions: HashMap<u64, Session>,
    joining: HashMap<u64, u64>,
}

impl View for SessionManager {
    type V = RegistryView;

    closed spec fn view(&self) -> RegistryView {
        RegistryView {
            sessions: Map::new(
                |guild: u64| self.sessions@.contains_key(guild),
                |guild: u64| self.sessions@[guild]@,
            ),
            joining: self.joining@,
        }
    }
}

impl Default for SessionManager {
    /// A registry without sessions.
    fn default() -> (manager: Self)
        ensures
            manager@ == RegistryView::empty(),
    {
        SessionManager::new()
    }
}

impl SessionManager {
    #[verifier::type_invariant]
    spec fn inv(self) -> bool {
        &&& forall|guild: u64| #[trigger]
            self.sessions@.contains_key(guild) ==> self.sessions@[guild]@.live()
        &&& forall|guild: u64| #[trigger]
            self.joining@.contains_key(guild) ==> !self.sessions@.contains_key(guild)
    }

    proof fn lemma_wf(self)
        requires
            self.inv(),
        ensures
            self@.wf(),
    {
        assert forall|guild: u64| #[trigger] self@.sessions.contains_key(guild) implies self@.sessions[guild].live()
            && self@.sessions[guild].wf() by {
            self.sessions@[guild].lemma_wf();
        }
    }

    /// A registry without sessions.
    pub fn new() -> (manager: Self)
        ensures
            manager@ == RegistryView::empty(),
    {
        let manager = SessionManager { sessions: HashMap::new(), joining: HashMap::new() };
        assert(manager@.sessions =~= Map::<u64, SessionView>::empty());
        manager
    }

    /// Fetches the session of `guild`, if it exists. Nothing changes.
    pub fn get(&self, guild: u64) -> (found: Option<&Session>)
        ensures
            self@.wf(),
            match found {
                Some(session) => self@.sessions.contains_key(guild) && self@.sessions[guild]
                    == session@,
                None => !self@.sessions.contains_key(guild),
            },
    {
        proof {
            use_type_invariant(self);
            self.lemma_wf();
        }
        self.sessions.get(&guild)
    }

    /// The voice channel that is being joined for `guild`, while the group
    /// is reserved for a caller who is joining. Nothing changes.
    pub fn joining(&self, guild: u64) -> (channel: Option<u64>)
        ensures
            self@.wf(),
            match channel {
                Some(c) => self@.joining.contains_key(guild) && self@.joining[guild] == c,
                None => !self@.joining.contains_key(guild),
            },
    {
        proof {
            use_type_invariant(self);
            self.lemma_wf();
        }
        match self.joining.get(&guild) {
            Some(c) => Some(*c),
            None => None,
        }
    }

    /// Decides a fetch-or-create request for `guild`.
    ///
    /// A group that has a session needs nothing more. A group that another
    /// caller is joining for is answered with `Joining`: the caller joins
    /// nothing and asks again later. For a group that is free, the channel to
    /// join is `channel` where it is given, else `author_channel`, the voice
    /// channel the requesting user is in; with neither the request fails with
    /// `MissingVoiceChannel` and the group stays free. The caller that is told
    /// to join holds the group from then on, so that of all requests that
    /// arrive before the join is settled, whatever their order, one is told
    /// to join. The session itself is entered by [`SessionManager::create`].
    pub fn get_or_create(
        &mut self,
        guild: u64,
        channel: Option<u64>,
        author_channel: Option<u64>,
    ) -> (decided: Result<Admission, SessionError>)
        ensures
            final(self)@.wf(),
            final(self)@ == old(self)@.requested(guild, channel, author_channel),
            match decided {
                Ok(found) => old(self)@.admission(guild, channel, author_channel) == Ok::<
                    Admission,
                    SessionErrorView,
                >(found),
                Err(error) => old(self)@.admission(guild, channel, author_channel) == Err::<
                    Admission,
                    SessionErrorView,
                >(error@),
            },
    {
        proof {
            use_type_invariant(&*self);
            self.lemma_wf();
        }
        if self.sessions.contains_key(&guild) {
            return Ok(Admission::Existing);
        }
        match self.joining.get(&guild) {
            Some(c) => {
                return Ok(Admission::Joining(*c));
            },
            None => {},
        }
        let target = match channel {
            Some(c) => Some(c),
            None => author_channel,
        };
        match target {
            Some(c) => {
                let mut joining = HashMap::new();
                std::mem::swap(&mut self.joining, &mut joining);
                joining.insert(guild, c);
                std::mem::swap(&mut self.joining, &mut joining);
                proof {
                    self.lemma_wf();
                }
                Ok(Admission::Join(c))
            },
            None => Err(SessionError::MissingVoiceChannel),
        }
    }

    /// Takes what the lookup of `guild`'s target channel found, and hands
    /// back the channel that the session is to be bound to, as
    /// [`guild_channel`] tells it. Where the lookup gives no such channel the
    /// join is off: the reservation of the group ends, and the next request
    /// for it is decided anew.
    pub fn bind_channel(&mut self, guild: u64, lookup: Result<Channel, String>) -> (bound: Result<
        u64,
        SessionError,
    >)
        ensures
            final(self)@.wf(),
            final(self)@ == old(self)@.bound(guild, lookup matches Ok(Channel::Guild { .. })),
            match lookup {
                Ok(Channel::Guild { id, .. }) => bound == Ok::<u64, SessionError>(id),
                Ok(Channel::Private) => bound is Err && bound->Err_0@
                    == SessionErrorView::MissingVoiceChannel,
                Err(report) => bound is Err && bound->Err_0@ == SessionErrorView::SerenityError(
                    report@,
                ),
            },
    {
        proof {
            use_type_invariant(&*self);
            self.lemma_wf();
        }
        let bound = guild_channel(lookup);
        if bound.is_err() {
            self.release(guild);
        }
        bound
    }

    /// Ends the reservation of `guild`, if there is one.
    fn release(&mut self, guild: u64)
        ensures
            final(self)@.wf(),
            final(self)@ == (RegistryView {
                joining: old(self)@.joining.remove(guild),
                ..old(self)@
            }),
    {
        proof {
            use_type_invariant(&*self);
        }
        let mut joining = HashMap::new();
        std::mem::swap(&mut self.joining, &mut joining);
        joining.remove(&guild);
        std::mem::swap(&mut self.joining, &mut joining);
        proof {
            self.lemma_wf();
        }
    }

    /// Enters the session of `guild`, bound to `channel`, from the outcome
    /// `joined` of the attempt to join that channel.
    ///
    /// The check for an entry and the insertion are one step. Where the group
    /// has a session already, the request fails with `SessionExists` and the
    /// channel that session is bound to; where the join failed, it fails with
    /// `CallJoinError` and the transport's report. Either way no session
    /// changes. Otherwise the group has a fresh idle session with an empty
    /// queue. Whatever the outcome, the join is settled and the reservation
    /// of the group ends.
    pub fn create(&mut self, guild: u64, channel: u64, joined: Result<(), String>) -> (made: Result<
        (),
        SessionError,
    >)
        ensures
            final(self)@.wf(),
            final(self)@ == old(self)@.created(guild, channel, joined is Ok),
            old(self)@.sessions.contains_key(guild) ==> made is Err && made->Err_0@
                == SessionErrorView::SessionExists(old(self)@.sessions[guild].channel),
            !old(self)@.sessions.contains_key(guild) && joined is Err ==> made is Err
                && made->Err_0@ == SessionErrorView::CallJoinError(joined->Err_0@),
            !old(self)@.sessions.contains_key(guild) && joined is Ok ==> made is Ok,
    {
        proof {
            use_type_invariant(&*self);
            self.lemma_wf();
        }
        let ghost before = self@;
        self.release(guild);
        match self.sessions.get(&guild) {
            Some(existing) => {
                return Err(SessionError::SessionExists(existing.channel()));
            },
            None => {},
        }
        match Session::create(channel, joined) {
            Ok(session) => {
                proof {
                    use_type_invariant(&*self);
                }
                let mut sessions = HashMap::new();
                std::mem::swap(&mut self.sessions, &mut sessions);
                sessions.insert(guild, session);
                std::mem::swap(&mut self.sessions, &mut sessions);
                proof {
                    assert(self@.sessions =~= before.sessions.insert(
                        guild,
                        SessionView::fresh(channel),
                    ));
                    self.lemma_wf();
                }
                Ok(())
            },
            Err(error) => Err(error),
        }
    }

    /// Destroys the session of `guild`, if it exists: the entry leaves the
    /// registry at once and the session is torn down. What the teardown asks
    /// of the transport is handed back; a failure of the transport in carrying
    /// it out is not reported here and does not bring the entry back. Without
    /// a session nothing changes and nothing is asked. The call never fails.
    pub fn destroy(&mut self, guild: u64) -> (done: Result<Teardown, SessionError>)
        ensures
            final(self)@.wf(),
            done is Ok,
            final(self)@ == old(self)@.destroyed(guild),
            done->Ok_0@ == if old(self)@.sessions.contains_key(guild) {
                old(self)@.sessions[guild].teardown_step()
            } else {
                TeardownView { halted: None, leave: false }
            },
    {
        proof {
            use_type_invariant(&*self);
        }
        let ghost before = self@;
        let mut sessions = HashMap::new();
        std::mem::swap(&mut self.sessions, &mut sessions);
        let removed = sessions.remove(&guild);
        std::mem::swap(&mut self.sessions, &mut sessions);
        proof {
            assert(self@.sessions =~= before.sessions.remove(guild));
            self.lemma_wf();
        }
        match removed {
            Some(mut session) => Ok(session.destroy()),
            None => Ok(Teardown { halted: None, leave: false }),
        }
    }

    /// Queues a request by `requester` for `source` on the session of
    /// `guild`, behind everything that waits there. Says whether the group has
    /// a session; without one nothing changes.
    pub fn append(&mut self, guild: u64, source: String, requester: u64) -> (queued: bool)
        ensures
            final(self)@.wf(),
            queued == old(self)@.sessions.contains_key(guild),
            final(self)@ == old(self)@.touched(
                guild,
                |s: SessionView| s.appended(TrackView { source: source@, requester }),
            ),
    {
        proof {
            use_type_invariant(&*self);
        }
        let ghost before = self@;
        let mut sessions = HashMap::new();
        std::mem::swap(&mut self.sessions, &mut sessions);
        let queued = match sessions.remove(&guild) {
            Some(mut session) => {
                session.append(source, requester);
                sessions.insert(guild, session);
                true
            },
            None => false,
        };
        std::mem::swap(&mut self.sessions, &mut sessions);
        proof {
            assert(self@.sessions =~= updated(
                before.sessions,
                guild,
                |s: SessionView| s.appended(TrackView { source: source@, requester }),
            ));
            self.lemma_wf();
        }
        queued
    }

    /// Advances the session of `guild` to its next queued track and hands
    /// back what that asks of the transport, or nothing where the group has
    /// no session.
    pub fn advance(&mut self, guild: u64) -> (step: Option<Advance>)
        ensures
            final(self)@.wf(),
            step is Some == old(self)@.sessions.contains_key(guild),
            step is Some ==> step->Some_0@ == old(self)@.sessions[guild].advance_step(),
            final(self)@ == old(self)@.touched(guild, |s: SessionView| s.advanced()),
    {
        proof {
            use_type_invariant(&*self);
        }
        let ghost before = self@;
        let mut sessions = HashMap::new();
        std::mem::swap(&mut self.sessions, &mut sessions);
        let step = match sessions.remove(&guild) {
            Some(mut session) => {
                let step = session.advance();
                sessions.insert(guild, session);
                Some(step)
            },
            None => None,
        };
        std::mem::swap(&mut self.sessions, &mut sessions);
        proof {
            assert(self@.sessions =~= updated(
                before.sessions,
                guild,
                |s: SessionView| s.advanced(),
            ));
            self.lemma_wf();
        }
        step
    }

    /// Stops the playing track of the session of `guild` without advancing
    /// its queue, and hands back the track to be halted, if one was playing.
    pub fn stop(&mut self, guild: u64) -> (halted: Option<TrackInfo>)
        ensures
            final(self)@.wf(),
            track_view_opt(halted) == if old(self)@.sessions.contains_key(guild) {
                old(self)@.sessions[guild].stop_step()
            } else {
                None
            },
            final(self)@ == old(self)@.touched(guild, |s: SessionView| s.stopped()),
    {
        proof {
            use_type_invariant(&*self);
        }
        let ghost before = self@;
        let mut sessions = HashMap::new();
        std::mem::swap(&mut self.sessions, &mut sessions);
        let halted = match sessions.remove(&guild) {
            Some(mut session) => {
                let halted = session.stop();
                sessions.insert(guild, session);
                halted
            },
            None => None,
        };
        std::mem::swap(&mut self.sessions, &mut sessions);
        proof {
            assert(self@.sessions =~= updated(
                before.sessions,
                guild,
                |s: SessionView| s.stopped(),
            ));
            self.lemma_wf();
        }
        halted
    }
}

} // verus!
