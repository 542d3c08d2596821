//! The shape of the data provider's response: entities arrive grouped in
//! reservations, and the engine works on the flattened, ordered entity
//! list. Fetching itself is the provider's business; this module only
//! gathers its response.

use vstd::prelude::*;
use crate::entity::{Instance, InstanceV, views, clone_entities};

verus! {

/// One reservation of the provider's response; it may carry no entities.
pub struct Reservation {
    pub instances: Option<Vec<Instance>>,
}

/// The entities of one reservation, in order.
pub open spec fn reservation_instances(r: Reservation) -> Seq<InstanceV> {
    match r.instances {
        Some(v) => views(v@),
        None => Seq::<InstanceV>::empty(),
    }
}

/// The entities of all reservations from position `i` on, concatenated in
/// reservation order.
pub open spec fn gathered_from(rs: Seq<Reservation>, i: int) -> Seq<InstanceV>
    decreases rs.len() - i,
{
    if i < 0 || i >= rs.len() {
        Seq::<InstanceV>::empty()
    } else {
        reservation_instances(rs[i]) + gathered_from(rs, i + 1)
    }
}

/// Flattens a provider response into the ordered entity list: every entity
/// of every reservation, in response order.
pub fn gather_reservations(rs: &Vec<Reservation>) -> (r: Vec<Instance>)
    ensures
        views(r@) == gathered_from(rs@, 0),
{
    let mut out: Vec<Instance> = Vec::new();
    let mut i: usize = 0;
    while i < rs.len()
        invariant
            i <= rs.len(),
            views(out@) + gathered_from(rs@, i as int) == gathered_from(rs@, 0),
        decreases rs.len() - i,
    {
        let ghost before: Seq<InstanceV> = views(out@);
        match &rs[i].instances {
            Some(v) => {
                let mut copied = clone_entities(v);
                out.append(&mut copied);
                proof {
                    assert(views(out@) =~= before + reservation_instances(rs@[i as int]));
                }
            },
            None => {
                proof {
                    assert(views(out@) =~= before + reservation_instances(rs@[i as int]));
                }
            },
        }
        proof {
            assert((before + reservation_instances(rs@[i as int])) + gathered_from(
                rs@,
                i as int + 1,
            ) =~= before + (reservation_instances(rs@[i as int]) + gathered_from(
                rs@,
                i as int + 1,
            )));
        }
        i += 1;
    }
    proof {
        assert(views(out@) + gathered_from(rs@, rs@.len() as int) =~= views(out@));
    }
    out
}

} // verus!
