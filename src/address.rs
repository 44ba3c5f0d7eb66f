use vstd::prelude::*;
use vstd::bytes::{spec_u32_to_le_bytes, u32_to_le_bytes};
use crate::state::ActorId;

verus! {

/// The address that the platform derives for a record from its seeds and the
/// owning program, with the bump byte that makes it valid; `None` when no bump
/// byte does.
pub uninterp spec fn program_address_of(seeds: Seq<Seq<u8>>, program_id: Seq<u8>) -> Option<(Seq<u8>, u8)>;

/// The seeds as byte strings.
pub open spec fn seeds_view(seeds: Seq<Vec<u8>>) -> Seq<Seq<u8>> {
    seeds.map_values(|s: Vec<u8>| s@)
}

/// Relies on `Pubkey::try_find_program_address`: the program-derived address
/// of `seeds` under `program_id`, and its bump byte, if one exists.
#[verifier::external_body]
fn find_program_address(seeds: &Vec<Vec<u8>>, program_id: &ActorId) -> (r: Option<(ActorId, u8)>)
    ensures
        match r {
            Some((a, bump)) => program_address_of(seeds_view(seeds@), program_id.bytes@) == Some(
                (a.bytes@, bump),
            ),
            None => program_address_of(seeds_view(seeds@), program_id.bytes@) is None,
        },
{
    let slices: Vec<&[u8]> = seeds.iter().map(|s| s.as_slice()).collect();
    let program = anchor_lang::prelude::Pubkey::new_from_array(program_id.bytes);
    anchor_lang::prelude::Pubkey::try_find_program_address(&slices, &program).map(
        |(a, bump)| (ActorId { bytes: a.to_bytes() }, bump),
    )
}

/// The tag that starts the seeds of the registry: ASCII `master`.
pub open spec fn master_tag() -> Seq<u8> {
    seq![109u8, 97, 115, 116, 101, 114]
}

/// The tag that starts the seeds of a lottery: ASCII `lottery`.
pub open spec fn lottery_tag() -> Seq<u8> {
    seq![108u8, 111, 116, 116, 101, 114, 121]
}

/// The tag that starts the seeds of a ticket: ASCII `ticket`.
pub open spec fn ticket_tag() -> Seq<u8> {
    seq![116u8, 105, 99, 107, 101, 116]
}

/// The seeds of the registry: its tag alone.
pub open spec fn master_seeds_spec() -> Seq<Seq<u8>> {
    seq![master_tag()]
}

/// The seeds of a lottery: its tag, then its id in little-endian order.
pub open spec fn lottery_seeds_spec(lottery_id: u32) -> Seq<Seq<u8>> {
    seq![lottery_tag(), spec_u32_to_le_bytes(lottery_id)]
}

/// The seeds of a ticket: its tag, the address of its lottery, then its id in
/// little-endian order.
pub open spec fn ticket_seeds_spec(lottery_address: Seq<u8>, ticket_id: u32) -> Seq<Seq<u8>> {
    seq![ticket_tag(), lottery_address, spec_u32_to_le_bytes(ticket_id)]
}

/// The seeds of the registry.
pub fn master_seeds() -> (r: Vec<Vec<u8>>)
    ensures
        seeds_view(r@) == master_seeds_spec(),
{
    let tag: Vec<u8> = vec![109u8, 97, 115, 116, 101, 114];
    let r: Vec<Vec<u8>> = vec![tag];
    assert(seeds_view(r@) =~= master_seeds_spec());
    r
}

/// The seeds of the lottery with id `lottery_id`.
pub fn lottery_seeds(lottery_id: u32) -> (r: Vec<Vec<u8>>)
    ensures
        seeds_view(r@) == lottery_seeds_spec(lottery_id),
{
    let tag: Vec<u8> = vec![108u8, 111, 116, 116, 101, 114, 121];
    let id = u32_to_le_bytes(lottery_id);
    let r: Vec<Vec<u8>> = vec![tag, id];
    assert(seeds_view(r@) =~= lottery_seeds_spec(lottery_id));
    r
}

/// The seeds of ticket `ticket_id` of the lottery stored at `lottery_address`.
pub fn ticket_seeds(lottery_address: &ActorId, ticket_id: u32) -> (r: Vec<Vec<u8>>)
    ensures
        seeds_view(r@) == ticket_seeds_spec(lottery_address.bytes@, ticket_id),
{
    let tag: Vec<u8> = vec![116u8, 105, 99, 107, 101, 116];
    let mut address: Vec<u8> = Vec::new();
    let mut i: usize = 0;
    while i < 32
        invariant
            i <= 32,
            lottery_address.bytes@.len() == 32,
            address@ =~= lottery_address.bytes@.take(i as int),
        decreases 32 - i,
    {
        address.push(lottery_address.bytes[i]);
        i = i + 1;
        assert(address@ =~= lottery_address.bytes@.take(i as int));
    }
    assert(address@ =~= lottery_address.bytes@);
    let id = u32_to_le_bytes(ticket_id);
    let r: Vec<Vec<u8>> = vec![tag, address, id];
    assert(seeds_view(r@) =~= ticket_seeds_spec(lottery_address.bytes@, ticket_id));
    r
}

/// Where the registry of `program_id` is stored, with its bump byte.
pub fn master_address(program_id: &ActorId) -> (r: Option<(ActorId, u8)>)
    ensures
        r matches Some((a, bump)) ==> program_address_of(master_seeds_spec(), program_id.bytes@)
            == Some((a.bytes@, bump)),
        r is None <==> program_address_of(master_seeds_spec(), program_id.bytes@) is None,
{
    find_program_address(&master_seeds(), program_id)
}

/// Where lottery `lottery_id` of `program_id` is stored, with its bump byte.
pub fn lottery_address(program_id: &ActorId, lottery_id: u32) -> (r: Option<(ActorId, u8)>)
    ensures
        r matches Some((a, bump)) ==> program_address_of(lottery_seeds_spec(lottery_id), program_id.bytes@)
            == Some((a.bytes@, bump)),
        r is None <==> program_address_of(lottery_seeds_spec(lottery_id), program_id.bytes@) is None,
{
    find_program_address(&lottery_seeds(lottery_id), program_id)
}

/// Where ticket `ticket_id` of the lottery stored at `lottery_address` is
/// stored, with its bump byte.
pub fn ticket_address(program_id: &ActorId, lottery_address: &ActorId, ticket_id: u32) -> (r: Option<
    (ActorId, u8),
>)
    ensures
        r matches Some((a, bump)) ==> program_address_of(
            ticket_seeds_spec(lottery_address.bytes@, ticket_id),
            program_id.bytes@,
        ) == Some((a.bytes@, bump)),
        r is None <==> program_address_of(
            ticket_seeds_spec(lottery_address.bytes@, ticket_id),
            program_id.bytes@,
        ) is None,
{
    find_program_address(&ticket_seeds(lottery_address, ticket_id), program_id)
}

} // verus!
