use vstd::prelude::*;
use crate::config::TlsHistory;
use crate::failure::{FailurePolicy, LoadFailure};
use crate::reloader::{Action, Event, Phase, ReloaderModel};

verus! {

impl<M> ReloaderModel<M> {
    /// The reloader after `events` were handed to it one by one, in order.
    pub open spec fn after(self, events: Seq<Event<M>>) -> Self
        decreases events.len(),
    {
        if events.len() == 0 {
            self
        } else {
            self.after(events.drop_last()).next(events.last())
        }
    }
}

/// The events of one tick after another in which every load succeeds: for each material
/// in turn, the timer runs out and the load gives that material.
pub open spec fn good_ticks<M>(materials: Seq<M>) -> Seq<Event<M>>
    decreases materials.len(),
{
    if materials.len() == 0 {
        Seq::empty()
    } else {
        good_ticks(materials.drop_last()).push(Event::TimerElapsed).push(
            Event::Loaded(materials.last()),
        )
    }
}

/// Handing over one more event is one more step.
pub proof fn lemma_after_push<M>(start: ReloaderModel<M>, events: Seq<Event<M>>, event: Event<M>)
    ensures
        start.after(events.push(event)) == start.after(events).next(event),
{
    assert(events.push(event).drop_last() =~= events);
}

/// A reader never sees a mixture: whatever events came, the active material is the
/// startup material or, whole, a material that some successful load handed over.
pub proof fn lemma_active_is_one_whole_material<M>(
    start: ReloaderModel<M>,
    events: Seq<Event<M>>,
)
    ensures
        start.after(events).active() == start.active() || exists|i: int|
            0 <= i < events.len() && events[i] == Event::Loaded(start.after(events).active()),
    decreases events.len(),
{
    if events.len() > 0 {
        let before = events.drop_last();
        let event = events.last();
        lemma_active_is_one_whole_material(start, before);
        let middle = start.after(before);
        let end = start.after(events);
        if middle.accepts(event) && event is Loaded {
            assert(events[events.len() - 1] == Event::Loaded(end.active()));
        } else {
            assert(end.config == middle.config);
            if middle.active() != start.active() {
                let i = choose|i: int|
                    0 <= i < before.len() && before[i] == Event::Loaded(middle.active());
                assert(events[i] == Event::Loaded(end.active()));
            }
        }
    }
}

/// The configuration is only ever appended to: what was installed stays in the history,
/// in its place, whatever events follow.
pub proof fn lemma_history_only_grows<M>(start: ReloaderModel<M>, events: Seq<Event<M>>)
    ensures
        start.after(events).config.initial == start.config.initial,
        start.config.reloaded.is_prefix_of(start.after(events).config.reloaded),
        start.after(events).interval == start.interval,
        start.after(events).policy == start.policy,
    decreases events.len(),
{
    if events.len() > 0 {
        lemma_history_only_grows(start, events.drop_last());
        let middle = start.after(events.drop_last());
        let end = start.after(events);
        assert(middle.config.reloaded.is_prefix_of(end.config.reloaded));
    }
}

/// Events among which no load succeeds leave the configuration as it is.
pub proof fn lemma_no_load_no_change<M>(start: ReloaderModel<M>, events: Seq<Event<M>>)
    requires
        forall|i: int| 0 <= i < events.len() ==> !(#[trigger] events[i] is Loaded),
    ensures
        start.after(events).config == start.config,
    decreases events.len(),
{
    if events.len() > 0 {
        let before = events.drop_last();
        assert forall|i: int| 0 <= i < before.len() implies !(#[trigger] before[i] is Loaded) by {
            assert(before[i] == events[i]);
        }
        lemma_no_load_no_change(start, before);
        assert(!(events[events.len() - 1] is Loaded));
    }
}

/// `count` ticks in a row that all succeed make exactly `count` replacements, in the
/// order of the ticks, and leave the reloader asleep again.
pub proof fn lemma_good_ticks_install_in_order<M>(start: ReloaderModel<M>, materials: Seq<M>)
    requires
        start.phase == Phase::Sleeping,
    ensures
        start.after(good_ticks(materials)) == (ReloaderModel {
            config: TlsHistory {
                initial: start.config.initial,
                reloaded: start.config.reloaded + materials,
            },
            ..start
        }),
        start.after(good_ticks(materials)).config.replacements() == start.config.replacements()
            + materials.len(),
        materials.len() > 0 ==> start.after(good_ticks(materials)).active() == materials.last(),
    decreases materials.len(),
{
    if materials.len() == 0 {
        assert(start.config.reloaded + materials =~= start.config.reloaded);
    } else {
        let before = materials.drop_last();
        lemma_good_ticks_install_in_order(start, before);
        let woken = good_ticks(before).push(Event::TimerElapsed);
        lemma_after_push(start, good_ticks(before), Event::TimerElapsed);
        lemma_after_push(start, woken, Event::Loaded(materials.last()));
        assert((start.config.reloaded + before).push(materials.last()) =~= start.config.reloaded
            + materials);
    }
}

/// Once a load has succeeded and its material is installed, no later read goes back
/// behind it: the material keeps its place in the history, the active material stands at
/// that place or after it, and it is that very material until another load succeeds.
pub proof fn lemma_reads_never_go_back<M>(
    loading: ReloaderModel<M>,
    material: M,
    later: Seq<Event<M>>,
)
    requires
        loading.phase == Phase::Loading,
    ensures
        ({
            let installed = loading.next(Event::Loaded(material));
            let place = installed.config.replacements() as int;
            let end = installed.after(later);
            &&& installed.active() == material
            &&& place == loading.config.replacements() + 1
            &&& end.config.replacements() >= place
            &&& end.config.at(place) == material
            &&& end.active() == end.config.at(end.config.replacements() as int)
            &&& (forall|i: int| 0 <= i < later.len() ==> !(#[trigger] later[i] is Loaded))
                ==> end.active() == material
        }),
{
    let installed = loading.next(Event::Loaded(material));
    let end = installed.after(later);
    lemma_history_only_grows(installed, later);
    let place = installed.config.replacements() as int;
    assert(installed.config.reloaded[place - 1] == material);
    assert(end.config.reloaded[place - 1] == installed.config.reloaded[place - 1]);
    if forall|i: int| 0 <= i < later.len() ==> !(#[trigger] later[i] is Loaded) {
        lemma_no_load_no_change(installed, later);
    }
}

/// Until the timer has run out for the first time nothing changes: the reloader is
/// still as it started, and every read observes the startup material.
pub proof fn lemma_startup_material_until_first_tick<M>(
    initial: M,
    interval: u64,
    policy: FailurePolicy,
    events: Seq<Event<M>>,
)
    requires
        forall|i: int| 0 <= i < events.len() ==> !(#[trigger] events[i] is TimerElapsed),
    ensures
        ReloaderModel::started(initial, interval, policy).after(events) == ReloaderModel::started(
            initial,
            interval,
            policy,
        ),
        ReloaderModel::started(initial, interval, policy).after(events).active() == initial,
        ReloaderModel::started(initial, interval, policy).pending() == (Action::Sleep {
            seconds: interval,
        }),
    decreases events.len(),
{
    if events.len() > 0 {
        let before = events.drop_last();
        assert forall|i: int| 0 <= i < before.len() implies !(#[trigger] before[i]
            is TimerElapsed) by {
            assert(before[i] == events[i]);
        }
        lemma_startup_material_until_first_tick(initial, interval, policy, before);
        assert(!(events[events.len() - 1] is TimerElapsed));
    }
}

/// A failed load never touches the configuration, under either policy: a reload
/// replaces the material wholly or not at all.
pub proof fn lemma_failed_load_keeps_material<M>(state: ReloaderModel<M>, failure: LoadFailure)
    ensures
        state.next(Event::LoadFailed(failure)).config == state.config,
        state.next(Event::LoadFailed(failure)).active() == state.active(),
{
}

/// Under [`FailurePolicy::Retain`] a tick whose load fails leaves the reloader exactly
/// as it was before the tick, and the next tick whose load succeeds installs its
/// material.
pub proof fn lemma_retain_recovers<M>(asleep: ReloaderModel<M>, failure: LoadFailure, material: M)
    requires
        asleep.phase == Phase::Sleeping,
        asleep.policy == FailurePolicy::Retain,
    ensures
        asleep.after(seq![Event::TimerElapsed, Event::LoadFailed(failure)]) == asleep,
        asleep.after(
            seq![
                Event::TimerElapsed,
                Event::LoadFailed(failure),
                Event::TimerElapsed,
                Event::Loaded(material),
            ],
        ) == (ReloaderModel { config: asleep.config.install(material), ..asleep }),
        asleep.config.install(material).active() == material,
{
    let none = Seq::<Event<M>>::empty();
    let failed = seq![Event::TimerElapsed, Event::LoadFailed(failure)];
    let recovered = seq![
        Event::TimerElapsed,
        Event::LoadFailed(failure),
        Event::TimerElapsed,
        Event::Loaded(material),
    ];
    lemma_after_push(asleep, none, Event::TimerElapsed);
    lemma_after_push(asleep, none.push(Event::TimerElapsed), Event::LoadFailed(failure));
    assert(none.push(Event::TimerElapsed).push(Event::LoadFailed(failure)) =~= failed);
    lemma_after_push(asleep, failed, Event::TimerElapsed);
    lemma_after_push(asleep, failed.push(Event::TimerElapsed), Event::Loaded(material));
    assert(failed.push(Event::TimerElapsed).push(Event::Loaded(material)) =~= recovered);
}

/// Under [`FailurePolicy::Retain`] the reloader never stops.
pub proof fn lemma_retain_never_stops<M>(start: ReloaderModel<M>, events: Seq<Event<M>>)
    requires
        start.policy == FailurePolicy::Retain,
        !(start.phase is Stopped),
    ensures
        !(start.after(events).phase is Stopped),
    decreases events.len(),
{
    if events.len() > 0 {
        lemma_retain_never_stops(start, events.drop_last());
        lemma_history_only_grows(start, events.drop_last());
    }
}

/// Under [`FailurePolicy::Abort`] a load that fails stops the reloader, which then asks
/// for the process to end and takes no further event.
pub proof fn lemma_abort_is_final<M>(
    loading: ReloaderModel<M>,
    failure: LoadFailure,
    later: Seq<Event<M>>,
)
    requires
        loading.phase == Phase::Loading,
        loading.policy == FailurePolicy::Abort,
    ensures
        loading.next(Event::LoadFailed(failure)).pending() == Action::Terminate(failure),
        loading.next(Event::LoadFailed(failure)).after(later) == (ReloaderModel {
            phase: Phase::Stopped(failure),
            ..loading
        }),
    decreases later.len(),
{
    if later.len() > 0 {
        lemma_abort_is_final(loading, failure, later.drop_last());
    }
}

/// Every sleep that the reloader asks for lasts the whole interval it was started with,
/// so two loads never begin less than one interval apart.
pub proof fn lemma_every_sleep_is_one_interval<M>(start: ReloaderModel<M>, events: Seq<Event<M>>)
    ensures
        start.after(events).pending() is Sleep ==> start.after(events).pending() == (Action::Sleep {
            seconds: start.interval,
        }),
{
    lemma_history_only_grows(start, events);
}

/// A load is only ever started from sleep, by the timer: while one is in flight no
/// event starts a second.
pub proof fn lemma_one_load_at_a_time<M>(state: ReloaderModel<M>, event: Event<M>)
    requires
        state.accepts(event),
        state.next(event).pending() == Action::Load,
    ensures
        state.phase == Phase::Sleeping,
        event is TimerElapsed,
{
}

} // verus!
