//! Canonical addresses are byte strings. A list of them, searched from the
//! front, is how the ledgers find the entry of an identity.
use vstd::prelude::*;

use crate::text::{bytes_eq, bytes_to_vec};

verus! {

/// The byte strings of a list of addresses.
pub open spec fn address_views(list: Seq<Vec<u8>>) -> Seq<Seq<u8>> {
    list.map_values(|a: Vec<u8>| a@)
}

/// The bytes of an address that may be absent.
pub open spec fn optional_address_view(a: Option<Vec<u8>>) -> Option<Seq<u8>> {
    match a {
        Some(a) => Some(a@),
        None => None,
    }
}

/// The byte strings of a list of addresses that may be absent.
pub open spec fn optional_address_views(list: Option<Vec<Vec<u8>>>) -> Option<Seq<Seq<u8>>> {
    match list {
        Some(list) => Some(address_views(list@)),
        None => None,
    }
}

/// The first position of `addr` in `list`, or -1 where it does not occur.
pub open spec fn address_position(list: Seq<Seq<u8>>, addr: Seq<u8>) -> int
    decreases list.len(),
{
    if list.len() == 0 {
        -1
    } else {
        let before = address_position(list.drop_last(), addr);
        if before >= 0 {
            before
        } else if list.last() == addr {
            list.len() - 1
        } else {
            -1
        }
    }
}

/// No address occurs twice.
pub open spec fn addresses_distinct(list: Seq<Seq<u8>>) -> bool {
    forall|i: int, j: int| 0 <= i < j < list.len() ==> list[i] != list[j]
}

/// What [`address_position`] finds: the first occurrence, or nothing where
/// there is none.
pub proof fn lemma_address_position(list: Seq<Seq<u8>>, addr: Seq<u8>)
    ensures
        -1 <= address_position(list, addr) < list.len(),
        address_position(list, addr) >= 0 ==> list[address_position(list, addr)] == addr,
        forall|j: int|
            0 <= j < list.len() && (address_position(list, addr) < 0 || j < address_position(
                list,
                addr,
            )) ==> list[j] != addr,
    decreases list.len(),
{
    if list.len() > 0 {
        lemma_address_position(list.drop_last(), addr);
        let before = address_position(list.drop_last(), addr);
        assert forall|j: int|
            0 <= j < list.len() && (address_position(list, addr) < 0 || j < address_position(
                list,
                addr,
            )) implies list[j] != addr by {
            if j < list.len() - 1 {
                assert(list.drop_last()[j] == list[j]);
            }
        }
        if before >= 0 {
            assert(list.drop_last()[before] == list[before]);
        }
    }
}

/// An address that is appended to a list is found where it was before, and
/// a new one at the end.
pub proof fn lemma_position_after_push(list: Seq<Seq<u8>>, added: Seq<u8>, addr: Seq<u8>)
    ensures
        address_position(list, addr) >= 0 ==> address_position(list.push(added), addr)
            == address_position(list, addr),
        address_position(list, addr) < 0 && added == addr ==> address_position(
            list.push(added),
            addr,
        ) == list.len(),
        address_position(list, addr) < 0 && added != addr ==> address_position(
            list.push(added),
            addr,
        ) < 0,
{
    assert(list.push(added).drop_last() =~= list);
}

/// The first position of `addr` in `list`.
pub fn find_address(list: &Vec<Vec<u8>>, addr: &[u8]) -> (r: Option<usize>)
    ensures
        match r {
            Some(i) => i == address_position(address_views(list@), addr@),
            None => address_position(address_views(list@), addr@) < 0,
        },
{
    let ghost views = address_views(list@);
    let mut i: usize = 0;
    while i < list.len()
        invariant
            i <= list@.len(),
            views == address_views(list@),
            forall|j: int| 0 <= j < i ==> views[j] != addr@,
        decreases list@.len() - i,
    {
        if bytes_eq(list[i].as_slice(), addr) {
            proof {
                lemma_address_position(views, addr@);
                assert(views[i as int] == addr@);
            }
            return Some(i);
        }
        i += 1;
    }
    proof {
        lemma_address_position(views, addr@);
    }
    None
}

/// A copy of an address that may be absent.
pub fn copy_optional_address(a: &Option<Vec<u8>>) -> (r: Option<Vec<u8>>)
    ensures
        optional_address_view(r) == optional_address_view(*a),
{
    match a {
        Some(a) => Some(bytes_to_vec(a.as_slice())),
        None => None,
    }
}

} // verus!
