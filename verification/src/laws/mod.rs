//! What holds of the core as a whole, proved from what its parts state.
pub mod connections;
pub mod events;
pub mod isolation;
pub mod operations;
pub mod outcomes;
pub mod pairing;
pub mod plugins;
pub mod progress;
pub mod runs;
pub mod settings;
pub mod welcome;

use std::sync::Arc;
use vstd::prelude::*;

use crate::plan::user;
use crate::plugin_set::PluginSet;
use crate::state;
use crate::state::CoreState;
use crate::task::{Op, Reply, Step};

verus! {

/// Where an operation that remains after a step comes from: it was to come already, or the step
/// put it there.
pub(crate) proof fn lemma_remaining_origin(
    s: CoreState,
    ops: Seq<Op>,
    reply: Reply,
    next: CoreState,
    remaining: Seq<Op>,
    step: Step,
    i: int,
)
    requires
        ops.len() > 0,
        crate::task::fits(ops[0].wants(), reply),
        state::steps(s, ops, reply, next, remaining, step),
        0 <= i < remaining.len(),
    ensures
        ({
            let put = state::put_before(s, ops[0], reply, state::was_accepted(step));
            ||| exists|j: int| 1 <= j < ops.len() && remaining[i] == #[trigger] ops[j]
            ||| exists|j: int| 0 <= j < put.len() && remaining[i] == #[trigger] put[j]
            ||| ops[0] matches Op::Toggle(id, _, _) && exists|set: Arc<PluginSet>, j: int|
                0 <= j < 3 && remaining[i] == #[trigger] user::apply_disabled(id, set)[j]
        }),
{
    let rest = ops.drop_first();
    let put = state::put_before(s, ops[0], reply, state::was_accepted(step));
    match (ops[0], reply) {
        (Op::Toggle(id, plugin, enabled), Reply::Disabled(stored)) => {
            let set = choose|set: Arc<PluginSet>|
                (*set)@ == user::toggled(stored@, plugin@, enabled) && remaining
                    == #[trigger] user::apply_disabled(id, set) + rest;
            let front = user::apply_disabled(id, set);
            if i < front.len() {
                assert(remaining[i] == front[i]);
            } else {
                assert(remaining[i] == rest[i - front.len()]);
                assert(remaining[i] == ops[i - front.len() + 1]);
            }
        },
        _ => {
            if i < put.len() {
                assert(remaining[i] == put[i]);
            } else {
                assert(remaining[i] == rest[i - put.len()]);
                assert(remaining[i] == ops[i - put.len() + 1]);
            }
        },
    }
}

} // verus!
