//! The persistence gate: decides, from the previously persisted encoding and
//! the current one, whether a snapshot write should happen, and suppresses
//! persistence on any cycle where a restore occurred — the store entry of the
//! restored light was deliberately not updated from the fetch, so persisting
//! then would capture transient data.

use crate::data::opt_str_view;
use crate::data::Light;
use crate::encode::encode_snapshot;
use crate::encode::spec_encode;
use crate::store::State;
use vstd::prelude::*;

verus! {

/// What is written out this cycle, given the previously persisted encoding,
/// whether a restore occurred this cycle, and the stored lights: nothing on
/// a restore cycle, nothing when the encoding is unchanged, otherwise the
/// fresh encoding.
pub open spec fn gate_decision(
    last: Option<Seq<char>>,
    restore_occurred: bool,
    entries: Seq<(String, Light)>,
) -> Option<Seq<char>> {
    if restore_occurred {
        None
    } else if last == Some(spec_encode(entries)) {
        None
    } else {
        Some(spec_encode(entries))
    }
}

/// Decides whether to persist the snapshot this cycle. Returns the encoding
/// to write, or nothing, and remembers a returned encoding as the last
/// persisted one. Performing the write — best-effort, its failure aborts
/// nothing — is the caller's responsibility.
pub fn gate_persistence(state: &mut State, restore_occurred: bool) -> (to_write: Option<String>)
    requires
        old(state).wf(),
    ensures
        final(state).wf(),
        restore_occurred ==> to_write is None && *final(state) == *old(state),
        final(state).lights == old(state).lights,
        final(state).reachable == old(state).reachable,
        ({
            let d = gate_decision(
                opt_str_view(&old(state).last_persisted),
                restore_occurred,
                old(state).lights.entry_seq(),
            );
            match to_write {
                Some(enc) => d == Some(enc@) && opt_str_view(&final(state).last_persisted)
                    == Some(enc@),
                None => d is None && final(state).last_persisted == old(state).last_persisted,
            }
        }),
{
    if restore_occurred {
        return None;
    }
    let enc = encode_snapshot(state.lights.entries());
    let unchanged = match &state.last_persisted {
        Some(p) => *p == enc,
        None => false,
    };
    if unchanged {
        None
    } else {
        state.last_persisted = Some(enc.clone());
        Some(enc)
    }
}

/// Persistence happens at most once per distinct encoding value: once the
/// gate has run over a set of stored lights, running it again over the same
/// stored lights writes nothing, whatever had been persisted before the
/// first run.
pub proof fn lemma_persist_once_per_encoding(
    last: Option<Seq<char>>,
    entries: Seq<(String, Light)>,
)
    ensures
        ({
            let after = match gate_decision(last, false, entries) {
                Some(e) => Some(e),
                None => last,
            };
            gate_decision(after, false, entries) is None
        }),
{
}

} // verus!
