//! The reconciliation engine: one poll cycle over the freshly fetched
//! lights. Each light is classified as new, still-unreachable,
//! newly-reachable or unchanged-reachable; newly-reachable lights get a
//! restore command built from their remembered state, all others have their
//! fetched state recorded.

use crate::data::Light;
use crate::restore::build_restore_command;
use crate::restore::spec_restore_command;
use crate::restore::RestoreCommand;
use crate::store::is_newly_reachable;
use crate::store::State;
use vstd::prelude::*;

verus! {

/// One freshly fetched light: the reachability flag the bridge reported,
/// and the light value keyed by its durable identity.
pub struct Fetched {
    pub reachable: bool,
    pub light: Light,
}

/// The model of a cycle in progress: the two stored mappings, and what the
/// cycle has produced so far.
pub struct CycleModel {
    pub lights: Map<Seq<char>, Light>,
    pub reachable: Map<Seq<char>, bool>,
    pub restore_occurred: bool,
    pub commands: Seq<(usize, RestoreCommand)>,
    pub changed: Seq<String>,
}

/// Whether an observation of `r` for identity `id` is an
/// unreachable-to-reachable transition, given the stored reachability. A
/// light with no stored entry never transitions, whatever its flag.
pub open spec fn spec_transition(reachable: Map<Seq<char>, bool>, id: Seq<char>, r: bool) -> bool {
    reachable.contains_key(id) && reachable[id] == false && r
}

/// The cycle model at the start of a cycle over the given stored mappings.
pub open spec fn cycle_start(
    lights: Map<Seq<char>, Light>,
    reachable: Map<Seq<char>, bool>,
) -> CycleModel {
    CycleModel {
        lights,
        reachable,
        restore_occurred: false,
        commands: Seq::empty(),
        changed: Seq::empty(),
    }
}

/// One observation folded into the cycle model. On a transition the stored
/// light is deliberately left as it is — the freshly fetched state reflects
/// the fixture's unreliable post-reconnect default — and a restore command
/// built from the stored light is recorded. Otherwise the fetched light
/// replaces the stored one, with a change notice when the state differs.
pub open spec fn cycle_step(m: CycleModel, obs: Fetched) -> CycleModel {
    let id = obs.light.uniqueid@;
    let reach2 = m.reachable.insert(id, obs.reachable);
    if spec_transition(m.reachable, id, obs.reachable) {
        CycleModel {
            lights: m.lights,
            reachable: reach2,
            restore_occurred: true,
            commands: if m.lights.contains_key(id) {
                m.commands.push((m.lights[id].id, spec_restore_command(m.lights[id].state)))
            } else {
                m.commands
            },
            changed: m.changed,
        }
    } else {
        CycleModel {
            lights: m.lights.insert(id, obs.light),
            reachable: reach2,
            restore_occurred: m.restore_occurred,
            commands: m.commands,
            changed: if m.lights.contains_key(id) && m.lights[id].state != obs.light.state {
                m.changed.push(obs.light.name)
            } else {
                m.changed
            },
        }
    }
}

/// The cycle model after folding a sequence of observations, in order.
pub open spec fn cycle_fold(m: CycleModel, obs: Seq<Fetched>) -> CycleModel
    decreases obs.len(),
{
    if obs.len() == 0 {
        m
    } else {
        cycle_step(cycle_fold(m, obs.drop_last()), obs.last())
    }
}

/// What one reconciliation cycle produced: whether any restore happened, the
/// restore commands to issue (the stored short id of each light, with the
/// command built from its remembered state), and the display names of the
/// lights whose fetched state differs from the stored one — an informational
/// change notice with no behavioural effect.
pub struct CycleOutcome {
    pub restore_occurred: bool,
    pub commands: Vec<(usize, RestoreCommand)>,
    pub changed: Vec<String>,
}

/// Runs one reconciliation cycle over the freshly fetched lights: records
/// each light's reachability, collects a restore command for every light
/// that just became reachable again, stores the fetched state of all other
/// lights, and reports whether any restore occurred. Issuing the commands
/// and persisting the snapshot are the caller's responsibility.
pub fn run_cycle(state: &mut State, fetched: &Vec<Fetched>) -> (outcome: CycleOutcome)
    requires
        old(state).wf(),
    ensures
        final(state).wf(),
        ({
            let m = cycle_fold(cycle_start(old(state).lights@, old(state).reachable@), fetched@);
            &&& final(state).lights@ == m.lights
            &&& final(state).reachable@ == m.reachable
            &&& outcome.restore_occurred == m.restore_occurred
            &&& outcome.commands@ == m.commands
            &&& outcome.changed@ == m.changed
        }),
        final(state).last_persisted == old(state).last_persisted,
{
    let ghost m0 = cycle_start(old(state).lights@, old(state).reachable@);
    let mut commands: Vec<(usize, RestoreCommand)> = Vec::new();
    let mut changed: Vec<String> = Vec::new();
    let mut restore_occurred = false;
    let n = fetched.len();
    let mut i: usize = 0;
    proof {
        assert(fetched@.take(0) =~= Seq::<Fetched>::empty());
    }
    while i < n
        invariant
            state.wf(),
            i <= n,
            n == fetched@.len(),
            ({
                let m = cycle_fold(m0, fetched@.take(i as int));
                &&& state.lights@ == m.lights
                &&& state.reachable@ == m.reachable
                &&& restore_occurred == m.restore_occurred
                &&& commands@ == m.commands
                &&& changed@ == m.changed
            }),
            state.last_persisted == old(state).last_persisted,
        decreases n - i,
    {
        let obs = &fetched[i];
        proof {
            assert(fetched@.take(i as int + 1).drop_last() =~= fetched@.take(i as int));
            assert(fetched@.take(i as int + 1).last() == fetched@[i as int]);
        }
        let newly = is_newly_reachable(state, obs.light.uniqueid.as_str(), obs.reachable);
        if newly {
            match state.get_light(obs.light.uniqueid.as_str()) {
                Some(prev) => {
                    let cmd = build_restore_command(prev);
                    commands.push((prev.id, cmd));
                },
                None => {},
            }
            restore_occurred = true;
        } else {
            let prev_differs = match state.get_light(obs.light.uniqueid.as_str()) {
                Some(prev) => !(prev.state == obs.light.state),
                None => false,
            };
            if prev_differs {
                changed.push(obs.light.name.clone());
            }
            state.upsert_light(obs.light.clone());
        }
        i += 1;
    }
    proof {
        assert(fetched@.take(n as int) =~= fetched@);
    }
    CycleOutcome { restore_occurred, commands, changed }
}

/// An identity that no observation carries is untouched by a cycle: its
/// stored light and its stored reachability stay exactly as they were.
pub proof fn lemma_cycle_untouched(m: CycleModel, obs: Seq<Fetched>, id: Seq<char>)
    requires
        forall|i: int| 0 <= i < obs.len() ==> obs[i].light.uniqueid@ != id,
    ensures
        cycle_fold(m, obs).lights.contains_key(id) == m.lights.contains_key(id),
        m.lights.contains_key(id) ==> cycle_fold(m, obs).lights[id] == m.lights[id],
        cycle_fold(m, obs).reachable.contains_key(id) == m.reachable.contains_key(id),
        m.reachable.contains_key(id) ==> cycle_fold(m, obs).reachable[id] == m.reachable[id],
    decreases obs.len(),
{
    if obs.len() > 0 {
        assert(forall|i: int|
            0 <= i < obs.drop_last().len() ==> obs.drop_last()[i].light.uniqueid@ != id);
        lemma_cycle_untouched(m, obs.drop_last(), id);
        assert(obs.last().light.uniqueid@ != id);
    }
}

/// Whether the observations carry pairwise distinct identities, as a poll
/// response listing each light once does.
pub open spec fn distinct_identities(obs: Seq<Fetched>) -> bool {
    forall|i: int, j: int|
        0 <= i < j < obs.len() ==> obs[i].light.uniqueid@ != obs[j].light.uniqueid@
}

/// After a cycle in which a light transitioned back to reachable, the store's
/// entry for that light is exactly what it was before the cycle began — never
/// the freshly fetched state — and the cycle reports that a restore occurred.
pub proof fn lemma_restore_preserves_snapshot(
    lights: Map<Seq<char>, Light>,
    reachable: Map<Seq<char>, bool>,
    obs: Seq<Fetched>,
    i: int,
)
    requires
        distinct_identities(obs),
        0 <= i < obs.len(),
        spec_transition(reachable, obs[i].light.uniqueid@, obs[i].reachable),
    ensures
        ({
            let id = obs[i].light.uniqueid@;
            let m = cycle_fold(cycle_start(lights, reachable), obs);
            &&& m.restore_occurred
            &&& m.lights.contains_key(id) == lights.contains_key(id)
            &&& lights.contains_key(id) ==> m.lights[id] == lights[id]
        }),
    decreases obs.len(),
{
    let id = obs[i].light.uniqueid@;
    if i == obs.len() - 1 {
        assert(forall|j: int|
            0 <= j < obs.drop_last().len() ==> obs.drop_last()[j].light.uniqueid@ != id);
        lemma_cycle_untouched(cycle_start(lights, reachable), obs.drop_last(), id);
        let mp = cycle_fold(cycle_start(lights, reachable), obs.drop_last());
        assert(spec_transition(mp.reachable, id, obs.last().reachable));
    } else {
        assert(distinct_identities(obs.drop_last()));
        assert(obs.drop_last()[i] == obs[i]);
        lemma_restore_preserves_snapshot(lights, reachable, obs.drop_last(), i);
        assert(obs.last().light.uniqueid@ != id);
    }
}

/// The restore command recorded for a light that transitioned back to
/// reachable is built from its stored pre-transition state — its stored
/// short id and its remembered light state — never from the freshly fetched
/// state.
pub proof fn lemma_restore_uses_stored_state(
    lights: Map<Seq<char>, Light>,
    reachable: Map<Seq<char>, bool>,
    obs: Seq<Fetched>,
    i: int,
)
    requires
        distinct_identities(obs),
        0 <= i < obs.len(),
        spec_transition(reachable, obs[i].light.uniqueid@, obs[i].reachable),
        lights.contains_key(obs[i].light.uniqueid@),
    ensures
        ({
            let prev = lights[obs[i].light.uniqueid@];
            cycle_fold(cycle_start(lights, reachable), obs).commands.contains(
                (prev.id, spec_restore_command(prev.state)),
            )
        }),
    decreases obs.len(),
{
    let id = obs[i].light.uniqueid@;
    let start = cycle_start(lights, reachable);
    let prev = lights[id];
    if i == obs.len() - 1 {
        assert(forall|j: int|
            0 <= j < obs.drop_last().len() ==> obs.drop_last()[j].light.uniqueid@ != id);
        lemma_cycle_untouched(start, obs.drop_last(), id);
        let mp = cycle_fold(start, obs.drop_last());
        assert(spec_transition(mp.reachable, id, obs.last().reachable));
        assert(mp.lights[id] == prev);
        let t = cycle_fold(start, obs).commands;
        assert(t.last() == (prev.id, spec_restore_command(prev.state)));
        assert(t.contains((prev.id, spec_restore_command(prev.state))));
    } else {
        assert(distinct_identities(obs.drop_last()));
        assert(obs.drop_last()[i] == obs[i]);
        lemma_restore_uses_stored_state(lights, reachable, obs.drop_last(), i);
        let s = cycle_fold(start, obs.drop_last()).commands;
        let t = cycle_fold(start, obs).commands;
        let c = (prev.id, spec_restore_command(prev.state));
        let j = choose|j: int| 0 <= j < s.len() && s[j] == c;
        assert(t[j] == c);
    }
}

} // verus!
