//! Real-time notification on collection writes: which events a write to a
//! collection should emit, per the configuration's socket channels. The
//! emitting itself, and the reads that build each payload, are the caller's
//! work.

use vstd::prelude::*;
use crate::manifest::{EmitConfig, SocketConfig};

verus! {

/// Decides which events fire when a collection is written.
pub struct SocketManager;

impl SocketManager {
    pub fn new() -> (r: Self) {
        SocketManager
    }

    /// The emissions due after a write to `connector_name`: the emit
    /// configuration of every socket channel watching that collection, in
    /// the channels' declared order.
    pub fn emissions_for_write(
        &self,
        sockets: &Vec<(String, SocketConfig)>,
        connector_name: &String,
    ) -> (r: Vec<EmitConfig>)
        ensures
            r@ == emissions_spec(sockets@, connector_name@),
    {
        let mut out: Vec<EmitConfig> = Vec::new();
        let mut idx: usize = 0;
        while idx < sockets.len()
            invariant
                0 <= idx <= sockets@.len(),
                out@ == emissions_spec(sockets@.take(idx as int), connector_name@),
            decreases sockets@.len() - idx,
        {
            let ghost before = sockets@.take(idx as int);
            if sockets[idx].1.watch == *connector_name {
                let e = EmitConfig {
                    event: sockets[idx].1.emit.event.clone(),
                    payload: sockets[idx].1.emit.payload.clone(),
                };
                out.push(e);
            }
            idx = idx + 1;
            proof {
                assert(sockets@.take(idx as int).drop_last() =~= before);
                assert(sockets@.take(idx as int).last() == sockets@[idx - 1]);
                lemma_emissions_take_step(sockets@, idx as int, connector_name@);
            }
        }
        proof {
            assert(sockets@.take(sockets@.len() as int) =~= sockets@);
        }
        out
    }
}

/// The emit configurations of the channels watching `name`, in order.
pub open spec fn emissions_spec(ss: Seq<(String, SocketConfig)>, name: Seq<char>) -> Seq<
    EmitConfig,
>
    decreases ss.len(),
{
    if ss.len() == 0 {
        Seq::empty()
    } else {
        let rest = emissions_spec(ss.drop_last(), name);
        if ss.last().1.watch@ == name {
            rest.push(
                EmitConfig {
                    event: ss.last().1.emit.event,
                    payload: ss.last().1.emit.payload,
                },
            )
        } else {
            rest
        }
    }
}

proof fn lemma_emissions_take_step(ss: Seq<(String, SocketConfig)>, i: int, name: Seq<char>)
    requires
        1 <= i <= ss.len(),
    ensures
        emissions_spec(ss.take(i), name) == if ss[i - 1].1.watch@ == name {
            emissions_spec(ss.take(i - 1), name).push(
                EmitConfig { event: ss[i - 1].1.emit.event, payload: ss[i - 1].1.emit.payload },
            )
        } else {
            emissions_spec(ss.take(i - 1), name)
        },
{
    assert(ss.take(i).drop_last() =~= ss.take(i - 1));
    assert(ss.take(i).last() == ss[i - 1]);
}

} // verus!
