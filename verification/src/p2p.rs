//! Choice of the nodes that a transaction, a follow-up or a query is sent to.
use vstd::prelude::*;
use vstd::string::*;
use crate::error::BbsError;

verus! {

/// Number of active A nodes that is enough to send to.
pub const AT_LEAST_A_NODES_TO_SEND: usize = 3;

/// A mining CML as layer one lists it.
#[derive(Debug, Clone, PartialEq, Eq)]
pub struct MiningCml {
    pub cml_type: String,
    pub miner_status: String,
    pub tea_id: Vec<u8>,
}

/// Whether a CML is an active A node.
pub open spec fn is_active_a(c: MiningCml) -> bool {
    c.cml_type@ == "A"@ && c.miner_status@ == "Active"@
}

/// Tea ids of the active A nodes among `cmls`, in their order.
pub open spec fn active_a_ids(cmls: Seq<MiningCml>) -> Seq<Seq<u8>>
    decreases cmls.len(),
{
    if cmls.len() == 0 {
        Seq::empty()
    } else {
        let rest = active_a_ids(cmls.drop_last());
        if is_active_a(cmls.last()) {
            rest.push(cmls.last().tea_id@)
        } else {
            rest
        }
    }
}

/// Views of a sequence of byte vectors.
pub open spec fn byte_views(v: Seq<Vec<u8>>) -> Seq<Seq<u8>> {
    v.map_values(|x: Vec<u8>| x@)
}

/// Tea ids of the active A nodes among the listed CMLs, in list order.
pub fn get_all_active_a_nodes(cmls: &Vec<MiningCml>) -> (r: Vec<Vec<u8>>)
    ensures
        byte_views(r@) == active_a_ids(cmls@),
{
    let mut r: Vec<Vec<u8>> = Vec::new();
    let mut i: usize = 0;
    while i < cmls.len()
        invariant
            i <= cmls@.len(),
            byte_views(r@) == active_a_ids(cmls@.subrange(0, i as int)),
        decreases cmls@.len() - i,
    {
        proof {
            let t = cmls@.subrange(0, i + 1);
            assert(t.drop_last() =~= cmls@.subrange(0, i as int));
            assert(t.last() == cmls@[i as int]);
        }
        let c = &cmls[i];
        if c.cml_type == String::from_str("A") && c.miner_status == String::from_str("Active") {
            let id = c.tea_id.clone();
            proof {
                assert(id@ == c.tea_id@);
                assert(byte_views(r@.push(id)) =~= byte_views(r@).push(id@));
            }
            r.push(id);
        }
        i = i + 1;
    }
    assert(cmls@.subrange(0, cmls@.len() as int) =~= cmls@);
    r
}

/// How many of `n` active nodes a message is sent to: none is refused, one
/// or two are all used, from three on three are used.
pub open spec fn spec_send_count(n: nat) -> Option<nat> {
    if n < 1 {
        None
    } else if n >= AT_LEAST_A_NODES_TO_SEND {
        Some(AT_LEAST_A_NODES_TO_SEND as nat)
    } else {
        Some(n)
    }
}

/// The nodes a message is sent to: the first ones of the active A nodes, as
/// many as `spec_send_count` says; refused when there is none.
pub fn nodes_to_send(nodes: &Vec<Vec<u8>>) -> (r: Result<Vec<Vec<u8>>, BbsError>)
    ensures
        spec_send_count(nodes@.len()) is None ==> r == Err::<Vec<Vec<u8>>, BbsError>(BbsError::NoActiveNodes),
        spec_send_count(nodes@.len()) matches Some(k) ==> (r matches Ok(v)
            && byte_views(v@) == byte_views(nodes@).subrange(0, k as int)),
{
    let mut len: usize = nodes.len();
    if nodes.len() < 1 {
        return Err(BbsError::NoActiveNodes);
    } else if nodes.len() >= AT_LEAST_A_NODES_TO_SEND {
        len = AT_LEAST_A_NODES_TO_SEND;
    }
    let mut r: Vec<Vec<u8>> = Vec::new();
    let mut i: usize = 0;
    while i < len
        invariant
            len <= nodes@.len(),
            i <= len,
            byte_views(r@) == byte_views(nodes@).subrange(0, i as int),
        decreases len - i,
    {
        let id = nodes[i].clone();
        proof {
            assert(id@ == nodes@[i as int]@);
            assert(byte_views(nodes@)[i as int] == nodes@[i as int]@);
            assert(byte_views(r@.push(id)) =~= byte_views(r@).push(id@));
            assert(byte_views(r@.push(id)) =~= byte_views(nodes@).subrange(0, i + 1));
        }
        r.push(id);
        i = i + 1;
    }
    Ok(r)
}

} // verus!
