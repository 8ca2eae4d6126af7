//! What holds of every session and of every registry, proved from the
//! transition functions that the operations are specified by.

use vstd::prelude::*;
use crate::error::SessionErrorView;
use crate::manager::{target_channel, updated, Admission, RegistryView};
use crate::session::{SessionView, TeardownView};
use crate::track::TrackView;

verus! {

/// Queueing tracks on a session that is idle or playing puts them behind
/// what waits already, in the order in which they were queued, and changes
/// nothing else.
pub proof fn lemma_append_keeps_order(s: SessionView, tracks: Seq<TrackView>)
    requires
        s.live(),
    ensures
        s.appended_all(tracks) == (SessionView { queue: s.queue + tracks, ..s }),
    decreases tracks.len(),
{
    if tracks.len() == 0 {
        assert(s.queue + tracks =~= s.queue);
    } else {
        lemma_append_keeps_order(s, tracks.drop_last());
        assert((s.queue + tracks.drop_last()).push(tracks.last()) =~= s.queue + tracks);
    }
}

/// As long as the queue lasts, `n` advances start its first `n` tracks, front
/// first, and leave the rest waiting in their order.
pub proof fn lemma_advance_takes_front(s: SessionView, n: nat)
    requires
        s.live(),
        n <= s.queue.len(),
    ensures
        s.playback_order(n) == s.queue.subrange(0, n as int),
        s.advanced_by(n).queue == s.queue.subrange(n as int, s.queue.len() as int),
        s.advanced_by(n).live(),
    decreases n,
{
    if n == 0 {
        assert(s.queue.subrange(0, 0) =~= Seq::<TrackView>::empty());
        assert(s.queue.subrange(0, s.queue.len() as int) =~= s.queue);
    } else {
        let next = s.advanced();
        lemma_advance_takes_front(next, (n - 1) as nat);
        assert(seq![s.queue.first()] + next.queue.subrange(0, n - 1) =~= s.queue.subrange(
            0,
            n as int,
        ));
        assert(next.queue.subrange(n - 1, next.queue.len() as int) =~= s.queue.subrange(
            n as int,
            s.queue.len() as int,
        ));
    }
}

/// First in, first out: after `tracks` were queued in order on a session that
/// is idle or playing, as many advances as tracks wait start the tracks that
/// waited before, and then `tracks`, each in the order in which it was queued.
pub proof fn lemma_fifo_order(s: SessionView, tracks: Seq<TrackView>)
    requires
        s.live(),
    ensures
        s.appended_all(tracks).playback_order(s.queue.len() + tracks.len()) == s.queue + tracks,
        s.appended_all(tracks).advanced_by(s.queue.len() + tracks.len()).queue
            == Seq::<TrackView>::empty(),
{
    lemma_append_keeps_order(s, tracks);
    let queued = s.appended_all(tracks);
    lemma_advance_takes_front(queued, s.queue.len() + tracks.len());
    assert(queued.queue.subrange(0, queued.queue.len() as int) =~= queued.queue);
    assert(queued.queue.subrange(queued.queue.len() as int, queued.queue.len() as int)
        =~= Seq::<TrackView>::empty());
}

/// Destroying twice is destroying once: the first teardown of a session that
/// holds its connection asks for the channel to be left, the second asks for
/// nothing and changes nothing.
pub proof fn lemma_destroy_idempotent(s: SessionView)
    requires
        s.wf(),
    ensures
        s.holds_connection() ==> s.teardown_step().leave,
        s.destroyed().teardown_step() == (TeardownView { halted: None, leave: false }),
        s.destroyed().destroyed() == s.destroyed(),
        s.destroyed().state is Destroyed,
        s.destroyed().wf(),
{
}

/// A skip supersedes: an advance of a playing session asks for the playing
/// track to be halted, and the track that plays afterwards, if any, is the
/// one that the advance started, taken from the front of the queue.
pub proof fn lemma_skip_supersedes(s: SessionView)
    requires
        s.wf(),
        s.state is Playing,
    ensures
        s.advance_step().halted == s.now_playing,
        s.advance_step().halted is Some,
        s.advanced().now_playing == s.advance_step().started,
        s.queue.len() > 0 ==> s.advance_step().started == Some(s.queue.first()),
        s.advanced().wf(),
{
}

/// An advance on an empty queue starts nothing and leaves the session idle.
pub proof fn lemma_empty_queue_advance(s: SessionView)
    requires
        s.wf(),
        s.live(),
        s.queue.len() == 0,
    ensures
        s.advance_step().started is None,
        s.advanced().state is Idle,
        s.advanced().now_playing is None,
        s.advanced().queue == s.queue,
{
}

/// A queued track is never lost to an advance that runs beside it: in
/// whichever order the two take effect on a session that is idle or playing,
/// the track is afterwards either playing or still waiting. Where something
/// waited before, the order makes no difference at all.
pub proof fn lemma_append_is_never_lost(s: SessionView, track: TrackView)
    requires
        s.wf(),
        s.live(),
    ensures
        s.advanced().appended(track).queue.contains(track),
        s.appended(track).advanced().now_playing == Some(track) || s.appended(
            track,
        ).advanced().queue.contains(track),
        s.queue.len() > 0 ==> s.appended(track).advanced() == s.advanced().appended(track),
        s.queue.len() > 0 ==> s.appended(track).advance_step() == s.advance_step(),
{
    let first = s.advanced().appended(track);
    assert(first.queue.last() == track);
    let second = s.appended(track).advanced();
    if s.queue.len() > 0 {
        assert(second.queue =~= s.queue.drop_first().push(track));
        assert(second.queue.last() == track);
    }
}

/// Nothing plays once a session is destroyed: the teardown asks for the
/// playing track to be halted, and an advance or a stop that takes effect
/// after it starts nothing and changes nothing.
pub proof fn lemma_nothing_plays_after_destroy(s: SessionView)
    requires
        s.wf(),
    ensures
        s.holds_connection() ==> s.teardown_step().halted == s.now_playing,
        s.destroyed().now_playing is None,
        s.destroyed().advanced() == s.destroyed(),
        s.destroyed().advance_step().started is None,
        s.destroyed().stopped() == s.destroyed(),
        s.advanced().destroyed().now_playing is None,
{
}

/// No operation on a session changes the channel it is bound to, and every
/// one of them keeps the session well formed.
pub proof fn lemma_channel_is_fixed(s: SessionView, track: TrackView)
    requires
        s.wf(),
    ensures
        s.appended(track).channel == s.channel && s.appended(track).wf(),
        s.advanced().channel == s.channel && s.advanced().wf(),
        s.stopped().channel == s.channel && s.stopped().wf(),
        s.destroyed().channel == s.channel && s.destroyed().wf(),
{
}

/// At most one session for a group, and one join for it: the request that
/// finds a group free is told to join and reserves the group; until the join
/// is settled every further request, whatever channel it names, is told that
/// a join is under way and joins nothing; once the join has succeeded every
/// further request finds the session that was entered.
pub proof fn lemma_single_session(
    registry: RegistryView,
    guild: u64,
    channel: u64,
    author_channel: Option<u64>,
    again: Option<u64>,
    again_author: Option<u64>,
)
    requires
        registry.wf(),
        !registry.occupied(guild),
    ensures
        registry.admission(guild, Some(channel), author_channel) == Ok::<
            Admission,
            SessionErrorView,
        >(Admission::Join(channel)),
        registry.requested(guild, Some(channel), author_channel).wf(),
        registry.requested(guild, Some(channel), author_channel).admission(
            guild,
            again,
            again_author,
        ) == Ok::<Admission, SessionErrorView>(Admission::Joining(channel)),
        registry.requested(guild, Some(channel), author_channel).requested(
            guild,
            again,
            again_author,
        ) == registry.requested(guild, Some(channel), author_channel),
        registry.requested(guild, Some(channel), author_channel).created(
            guild,
            channel,
            true,
        ).admission(guild, again, again_author) == Ok::<Admission, SessionErrorView>(
            Admission::Existing,
        ),
        registry.requested(guild, Some(channel), author_channel).created(guild, channel, true).wf(),
        registry.requested(guild, Some(channel), author_channel).created(
            guild,
            channel,
            true,
        ).sessions == registry.sessions.insert(guild, SessionView::fresh(channel)),
{
    let reserved = registry.requested(guild, Some(channel), author_channel);
    assert(reserved.joining[guild] == channel);
}

/// One operation on the registry.
pub enum Step {
    /// A fetch-or-create request.
    Request { guild: u64, channel: Option<u64>, author_channel: Option<u64> },
    /// The lookup of a target channel came back; `found` says whether it
    /// gave a channel of a group.
    Bind { guild: u64, found: bool },
    /// A join was settled; `joined` says whether it succeeded.
    Create { guild: u64, channel: u64, joined: bool },
    /// The session of a group is destroyed.
    Destroy { guild: u64 },
    /// The session of a group goes through a transition of its own.
    Touch { guild: u64, step: spec_fn(SessionView) -> SessionView },
}

/// The registry after `step`.
pub open spec fn after(registry: RegistryView, step: Step) -> RegistryView {
    match step {
        Step::Request { guild, channel, author_channel } => registry.requested(
            guild,
            channel,
            author_channel,
        ),
        Step::Bind { guild, found } => registry.bound(guild, found),
        Step::Create { guild, channel, joined } => registry.created(guild, channel, joined),
        Step::Destroy { guild } => registry.destroyed(guild),
        Step::Touch { guild, step } => registry.touched(guild, step),
    }
}

/// The registry after `steps`, taken in their order.
pub open spec fn after_all(registry: RegistryView, steps: Seq<Step>) -> RegistryView
    decreases steps.len(),
{
    if steps.len() == 0 {
        registry
    } else {
        after_all(after(registry, steps.first()), steps.drop_first())
    }
}

/// Whether `step`, taken on `registry`, is a request for `guild` that is
/// told to join.
pub open spec fn asks_join(registry: RegistryView, step: Step, guild: u64) -> bool {
    step matches Step::Request { guild: g, channel, author_channel } && g == guild
        && registry.admission(g, channel, author_channel) matches Ok(Admission::Join(_))
}

/// Whether `step` may leave `guild` free again: a lookup that found no
/// channel, a join that failed, and the destruction of its session.
pub open spec fn releases(step: Step, guild: u64) -> bool {
    match step {
        Step::Bind { guild: g, found } => g == guild && !found,
        Step::Create { guild: g, joined, .. } => g == guild && !joined,
        Step::Destroy { guild: g } => g == guild,
        _ => false,
    }
}

/// How many requests for `guild` are told to join while `steps` are taken
/// on `registry` in their order.
pub open spec fn joins_asked(registry: RegistryView, steps: Seq<Step>, guild: u64) -> nat
    decreases steps.len(),
{
    if steps.len() == 0 {
        0
    } else {
        let rest = joins_asked(after(registry, steps.first()), steps.drop_first(), guild);
        if asks_join(registry, steps.first(), guild) {
            rest + 1
        } else {
            rest
        }
    }
}

/// How many of `steps` may leave `guild` free again.
pub open spec fn releases_counted(steps: Seq<Step>, guild: u64) -> nat
    decreases steps.len(),
{
    if steps.len() == 0 {
        0
    } else {
        let rest = releases_counted(steps.drop_first(), guild);
        if releases(steps.first(), guild) {
            rest + 1
        } else {
            rest
        }
    }
}

/// One for a group that is free, none for a group that is taken.
pub open spec fn vacancy(registry: RegistryView, guild: u64) -> nat {
    if registry.occupied(guild) {
        0
    } else {
        1
    }
}

/// In whatever order the operations on a registry take effect, a group is
/// joined for only when it is free: every request that is told to join takes
/// the group, and the group is free again only after a lookup that found no
/// channel, a join that failed, or the destruction of its session. So the
/// joins asked for a group, and its vacancy in the end, are no more than its
/// vacancy at the start and the steps that could free it.
pub proof fn lemma_joins_follow_vacancies(registry: RegistryView, steps: Seq<Step>, guild: u64)
    ensures
        joins_asked(registry, steps, guild) + vacancy(after_all(registry, steps), guild)
            <= vacancy(registry, guild) + releases_counted(steps, guild),
    decreases steps.len(),
{
    if steps.len() > 0 {
        lemma_joins_follow_vacancies(after(registry, steps.first()), steps.drop_first(), guild);
    }
}

/// Exactly one join: while nothing frees a group, of all the requests for it
/// that take effect, in whatever order and with whatever else between them,
/// at most one is told to join, and none if the group was taken from the
/// start. If the group was free and the first step is a request for it that
/// can name a channel, that request is the one.
pub proof fn lemma_exactly_one_join(registry: RegistryView, steps: Seq<Step>, guild: u64)
    requires
        releases_counted(steps, guild) == 0,
    ensures
        joins_asked(registry, steps, guild) <= 1,
        registry.occupied(guild) ==> joins_asked(registry, steps, guild) == 0,
        registry.occupied(guild) ==> after_all(registry, steps).occupied(guild),
        !registry.occupied(guild) && steps.len() > 0 && (steps.first() matches Step::Request {
            guild: g,
            channel,
            author_channel,
        } && g == guild && target_channel(channel, author_channel) is Some) ==> joins_asked(
            registry,
            steps,
            guild,
        ) == 1 && after_all(registry, steps).occupied(guild),
{
    lemma_joins_follow_vacancies(registry, steps, guild);
    if steps.len() > 0 {
        lemma_joins_follow_vacancies(after(registry, steps.first()), steps.drop_first(), guild);
    }
}

/// Groups are independent: whatever happens to the session of one group,
/// to its entry or to its reservation, the session and the reservation of
/// every other group stay as they are.
pub proof fn lemma_groups_are_independent(registry: RegistryView, step: Step, other: u64)
    requires
        match step {
            Step::Request { guild, .. } => guild != other,
            Step::Bind { guild, .. } => guild != other,
            Step::Create { guild, .. } => guild != other,
            Step::Destroy { guild } => guild != other,
            Step::Touch { guild, .. } => guild != other,
        },
    ensures
        after(registry, step).sessions.contains_key(other) == registry.sessions.contains_key(other),
        registry.sessions.contains_key(other) ==> after(registry, step).sessions[other]
            == registry.sessions[other],
        after(registry, step).joining.contains_key(other) == registry.joining.contains_key(other),
        registry.joining.contains_key(other) ==> after(registry, step).joining[other]
            == registry.joining[other],
{
}

/// A destroyed session cannot be reached again: once the entry of a group is
/// removed, a lookup finds nothing and a fetch-or-create request asks for a
/// new join, and the session that is entered then is fresh, whatever the old
/// one held.
pub proof fn lemma_unreachable_after_destroy(
    registry: RegistryView,
    guild: u64,
    channel: u64,
    author_channel: Option<u64>,
)
    requires
        registry.wf(),
        registry.sessions.contains_key(guild),
    ensures
        !registry.destroyed(guild).sessions.contains_key(guild),
        registry.destroyed(guild).wf(),
        registry.destroyed(guild).admission(guild, Some(channel), author_channel) == Ok::<
            Admission,
            SessionErrorView,
        >(Admission::Join(channel)),
        registry.destroyed(guild).requested(guild, Some(channel), author_channel).created(
            guild,
            channel,
            true,
        ).sessions[guild] == SessionView::fresh(channel),
{
}

} // verus!
