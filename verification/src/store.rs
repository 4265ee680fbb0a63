//! The snapshot store: per light identity, the last observed full state and
//! the last observed reachability flag, plus the most recently persisted
//! snapshot encoding.

use crate::data::Light;
use crate::table::spec_upsert;
use crate::table::Table;
use vstd::prelude::*;

verus! {

/// The daemon's state. It is owned by the poll scheduler and borrowed by the
/// reconciliation engine for the duration of one cycle.
///
/// `reachable` lives for the whole run and is never reset, so that an
/// unreachable-to-reachable transition is detected even across a reconnect.
/// `lights` holds the last known good state per light identity; an entry is
/// never deleted, a light that disappears from a poll simply stops being
/// updated. `last_persisted` is only used for change detection and is never
/// read back into `lights`.
pub struct State {
    pub lights: Table<Light>,
    pub reachable: Table<bool>,
    pub last_persisted: Option<String>,
}

impl State {
    pub open spec fn wf(&self) -> bool {
        self.lights.wf() && self.reachable.wf()
    }

    pub fn new() -> (s: State)
        ensures
            s.wf(),
            s.lights@ == Map::<Seq<char>, Light>::empty(),
            s.reachable@ == Map::<Seq<char>, bool>::empty(),
            s.last_persisted is None,
    {
        State { lights: Table::new(), reachable: Table::new(), last_persisted: None }
    }

    /// The last known good state stored for the light with this identity.
    pub fn get_light(&self, id: &str) -> (r: Option<&Light>)
        requires
            self.wf(),
        ensures
            match r {
                Some(l) => self.lights@.contains_key(id@) && *l == self.lights@[id@],
                None => !self.lights@.contains_key(id@),
            },
    {
        let key: String = id.to_owned();
        self.lights.get(&key)
    }

    /// Unconditionally replaces the stored light for its identity.
    pub fn upsert_light(&mut self, light: Light)
        requires
            old(self).wf(),
        ensures
            final(self).wf(),
            final(self).lights@ == old(self).lights@.insert(light.uniqueid@, light),
            final(self).lights.entry_seq() == spec_upsert(
                old(self).lights.entry_seq(),
                light.uniqueid,
                light,
            ),
            final(self).reachable == old(self).reachable,
            final(self).last_persisted == old(self).last_persisted,
    {
        let key = light.uniqueid.clone();
        self.lights.insert(key, light);
    }
}

impl Default for State {
    fn default() -> (s: State)
        ensures
            s.wf(),
            s.lights@ == Map::<Seq<char>, Light>::empty(),
            s.reachable@ == Map::<Seq<char>, bool>::empty(),
            s.last_persisted is None,
    {
        State::new()
    }
}

/// Records the observed reachability of the light with identity `id`, and
/// reports whether the light just became reachable again.
///
/// The result is true exactly when a reachability value was already stored
/// for `id`, that value was false, and the new observation is true. A light
/// seen for the first time is never reported as newly reachable, whatever
/// its flag; the observed value is always stored afterwards.
pub fn is_newly_reachable(state: &mut State, id: &str, reachable: bool) -> (newly: bool)
    requires
        old(state).wf(),
    ensures
        final(state).wf(),
        newly == (old(state).reachable@.contains_key(id@) && old(state).reachable@[id@] == false
            && reachable),
        final(state).reachable@ == old(state).reachable@.insert(id@, reachable),
        final(state).lights == old(state).lights,
        final(state).last_persisted == old(state).last_persisted,
{
    let key: String = id.to_owned();
    let newly = match state.reachable.get(&key) {
        None => false,
        Some(was) => !*was && reachable,
    };
    state.reachable.insert(key, reachable);
    newly
}

} // verus!
