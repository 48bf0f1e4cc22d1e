//! Derived addresses. The storage address of every record, and the address
//! and authority of every vault, are computed from a fixed tag and the
//! identifiers they belong to, so that any observer can recompute them and no
//! private key for them exists.

use vstd::prelude::*;
use vstd::slice::slice_to_vec;
use vstd::string::StrSliceExecFns;
use crate::pubkey::Pubkey;

verus! {

/// The address that `seeds` derive under the program `program_id`, together
/// with the bump that completes the seeds; `None` where no address can be
/// derived from them.
pub uninterp spec fn program_address(seeds: Seq<Seq<u8>>, program_id: Seq<u8>) -> Option<
    (Seq<u8>, u8),
>;

/// The seeds held in a vector, as a sequence of byte sequences.
pub open spec fn seeds_view(seeds: Seq<Vec<u8>>) -> Seq<Seq<u8>> {
    Seq::new(seeds.len(), |i: int| seeds[i]@)
}

/// Calls `Pubkey::try_find_program_address` of `anchor_lang`. The search
/// hashes the seeds, a candidate bump and the program's identity, so its
/// outcome depends on the arguments alone; it is taken on trust under the name
/// `program_address`.
#[verifier::external_body]
fn try_find_program_address(seeds: &Vec<Vec<u8>>, program_id: &Pubkey) -> (found: Option<
    (Pubkey, u8),
>)
    ensures
        match found {
            Some((key, bump)) => program_address(seeds_view(seeds@), program_id@) == Some(
                (key@, bump),
            ),
            None => program_address(seeds_view(seeds@), program_id@) is None,
        },
{
    let parts: Vec<&[u8]> = seeds.iter().map(|seed| seed.as_slice()).collect();
    let program = anchor_lang::prelude::Pubkey::new_from_array(program_id.bytes);
    match anchor_lang::prelude::Pubkey::try_find_program_address(&parts, &program) {
        Some((key, bump)) => Some((Pubkey { bytes: key.to_bytes() }, bump)),
        None => None,
    }
}

/// The bytes of a text, as they enter a derivation.
pub open spec fn text_bytes(text: Seq<char>) -> Seq<u8> {
    vstd::utf8::encode_utf8(text)
}

/// Seeds of the storage address of the competition `id`.
pub open spec fn competition_seeds(id: Seq<char>) -> Seq<Seq<u8>> {
    seq![text_bytes("competition"@), text_bytes(id)]
}

/// Seeds of the vault of the competition `id`.
pub open spec fn vault_seeds(id: Seq<char>) -> Seq<Seq<u8>> {
    seq![text_bytes("vault"@), text_bytes(id)]
}

/// Seeds of the storage address of the prediction that `user` makes in the
/// competition stored at `competition`.
pub open spec fn prediction_seeds(competition: Pubkey, user: Pubkey) -> Seq<Seq<u8>> {
    seq![text_bytes("prediction"@), competition@, user@]
}

/// Seeds with which the vault of the competition `id` signs: those of its
/// address, completed by the bump.
pub open spec fn vault_signer_seeds(id: Seq<char>, bump: u8) -> Seq<Seq<u8>> {
    seq![text_bytes("vault"@), text_bytes(id), seq![bump]]
}

/// Whether `key` is the address that `seeds` derive under `program_id`.
pub open spec fn is_derived(seeds: Seq<Seq<u8>>, program_id: Pubkey, key: Pubkey) -> bool {
    program_address(seeds, program_id@) matches Some((address, _)) && address == key@
}

/// The bump found with the address that `seeds` derive under `program_id`.
pub open spec fn derived_bump(seeds: Seq<Seq<u8>>, program_id: Pubkey) -> u8
    recommends
        program_address(seeds, program_id@) is Some,
{
    match program_address(seeds, program_id@) {
        Some((_, bump)) => bump,
        None => 0,
    }
}

fn two_seeds(tag: &str, text: &str) -> (seeds: Vec<Vec<u8>>)
    ensures
        seeds@.len() == 2,
        seeds@[0]@ == text_bytes(tag@),
        seeds@[1]@ == text_bytes(text@),
        seeds_view(seeds@) == seq![text_bytes(tag@), text_bytes(text@)],
{
    let mut seeds: Vec<Vec<u8>> = Vec::new();
    seeds.push(tag.as_bytes_vec());
    seeds.push(text.as_bytes_vec());
    assert(seeds_view(seeds@) =~= seq![text_bytes(tag@), text_bytes(text@)]);
    seeds
}

/// Derives the storage address of the competition `competition_id`, with its
/// bump.
pub fn find_competition_address(program_id: &Pubkey, competition_id: &str) -> (found: Option<
    (Pubkey, u8),
>)
    ensures
        match found {
            Some((key, bump)) => program_address(competition_seeds(competition_id@), program_id@)
                == Some((key@, bump)),
            None => program_address(competition_seeds(competition_id@), program_id@) is None,
        },
{
    let seeds = two_seeds("competition", competition_id);
    try_find_program_address(&seeds, program_id)
}

/// Derives the address of the vault of the competition `competition_id`, with
/// the bump that completes its authority.
pub fn find_vault_address(program_id: &Pubkey, competition_id: &str) -> (found: Option<
    (Pubkey, u8),
>)
    ensures
        match found {
            Some((key, bump)) => program_address(vault_seeds(competition_id@), program_id@)
                == Some((key@, bump)),
            None => program_address(vault_seeds(competition_id@), program_id@) is None,
        },
{
    let seeds = two_seeds("vault", competition_id);
    try_find_program_address(&seeds, program_id)
}

/// Derives the storage address of the prediction of `user` in the competition
/// stored at `competition`, with its bump.
pub fn find_prediction_address(program_id: &Pubkey, competition: &Pubkey, user: &Pubkey) -> (found:
    Option<(Pubkey, u8)>)
    ensures
        match found {
            Some((key, bump)) => program_address(prediction_seeds(*competition, *user), program_id@)
                == Some((key@, bump)),
            None => program_address(prediction_seeds(*competition, *user), program_id@) is None,
        },
{
    let mut seeds: Vec<Vec<u8>> = Vec::new();
    seeds.push("prediction".as_bytes_vec());
    seeds.push(slice_to_vec(competition.bytes.as_slice()));
    seeds.push(slice_to_vec(user.bytes.as_slice()));
    assert(seeds_view(seeds@) =~= prediction_seeds(*competition, *user));
    try_find_program_address(&seeds, program_id)
}

/// The bump with which `key` is the address that `seeds` derive under
/// `program_id`; `None` where it is not that address.
pub open spec fn authority(seeds: Seq<Seq<u8>>, program_id: Pubkey, key: Pubkey) -> Option<u8> {
    if is_derived(seeds, program_id, key) {
        Some(derived_bump(seeds, program_id))
    } else {
        None
    }
}

/// Compares the outcome of a derivation with `key`: the bump where an address
/// was found and `key` is that address, `None` otherwise.
pub fn matching_bump(found: Option<(Pubkey, u8)>, key: &Pubkey) -> (bump: Option<u8>)
    ensures
        bump == match found {
            Some((address, bump)) => if address == *key {
                Some(bump)
            } else {
                None
            },
            None => None,
        },
{
    match found {
        Some((address, bump)) => if address == *key {
            Some(bump)
        } else {
            None
        },
        None => None,
    }
}

/// Recomputes the storage address of the competition `competition_id` and
/// compares it with `key`.
pub fn is_competition_address(program_id: &Pubkey, key: &Pubkey, competition_id: &str) -> (yes:
    bool)
    ensures
        yes == is_derived(competition_seeds(competition_id@), *program_id, *key),
{
    let found = find_competition_address(program_id, competition_id);
    proof {
        match found {
            Some((address, _)) => Pubkey::lemma_view_injective(address, *key),
            None => {},
        }
    }
    matching_bump(found, key).is_some()
}

/// Recomputes the storage address of the prediction of `user` in the
/// competition stored at `competition` and compares it with `key`.
pub fn is_prediction_address(
    program_id: &Pubkey,
    key: &Pubkey,
    competition: &Pubkey,
    user: &Pubkey,
) -> (yes: bool)
    ensures
        yes == is_derived(prediction_seeds(*competition, *user), *program_id, *key),
{
    let found = find_prediction_address(program_id, competition, user);
    proof {
        match found {
            Some((address, _)) => Pubkey::lemma_view_injective(address, *key),
            None => {},
        }
    }
    matching_bump(found, key).is_some()
}

/// Recomputes the address of the vault of `competition_id` and compares it
/// with `key`. Returns the vault's bump, the credential with which the vault
/// signs, where they agree.
pub fn vault_authority(program_id: &Pubkey, key: &Pubkey, competition_id: &str) -> (bump: Option<
    u8,
>)
    ensures
        bump == authority(vault_seeds(competition_id@), *program_id, *key),
{
    let found = find_vault_address(program_id, competition_id);
    proof {
        match found {
            Some((address, _)) => Pubkey::lemma_view_injective(address, *key),
            None => {},
        }
    }
    matching_bump(found, key)
}

/// The seeds with which the vault of `competition_id` signs a transfer.
pub fn vault_signer(competition_id: &str, bump: u8) -> (seeds: Vec<Vec<u8>>)
    ensures
        seeds_view(seeds@) == vault_signer_seeds(competition_id@, bump),
{
    let mut seeds = two_seeds("vault", competition_id);
    let mut last: Vec<u8> = Vec::new();
    last.push(bump);
    assert(last@ =~= seq![bump]);
    seeds.push(last);
    assert(seeds_view(seeds@) =~= vault_signer_seeds(competition_id@, bump));
    seeds
}

} // verus!
