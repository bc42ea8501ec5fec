use vstd::prelude::*;

verus! {

/// The seed prefix `b"escrow"` (its ASCII bytes).
pub open spec fn escrow_prefix() -> Seq<u8> {
    seq![0x65u8, 0x73, 0x63, 0x72, 0x6f, 0x77]
}

/// The bytes of the seed prefix `b"escrow"`.
pub fn escrow_prefix_bytes() -> (bytes: Vec<u8>)
    ensures
        bytes@ == escrow_prefix(),
{
    let bytes: Vec<u8> = vec![0x65u8, 0x73, 0x63, 0x72, 0x6f, 0x77];
    proof {
        assert(bytes@ =~= escrow_prefix());
    }
    bytes
}

/// The seed prefix `b"config"` (its ASCII bytes).
pub open spec fn config_prefix() -> Seq<u8> {
    seq![0x63u8, 0x6f, 0x6e, 0x66, 0x69, 0x67]
}

/// The bytes of the seed prefix `b"config"`.
pub fn config_prefix_bytes() -> (bytes: Vec<u8>)
    ensures
        bytes@ == config_prefix(),
{
    let bytes: Vec<u8> = vec![0x63u8, 0x6f, 0x6e, 0x66, 0x69, 0x67];
    proof {
        assert(bytes@ =~= config_prefix());
    }
    bytes
}

/// The seed prefix `b"stake"` (its ASCII bytes).
pub open spec fn stake_prefix() -> Seq<u8> {
    seq![0x73u8, 0x74, 0x61, 0x6b, 0x65]
}

/// The bytes of the seed prefix `b"stake"`.
pub fn stake_prefix_bytes() -> (bytes: Vec<u8>)
    ensures
        bytes@ == stake_prefix(),
{
    let bytes: Vec<u8> = vec![0x73u8, 0x74, 0x61, 0x6b, 0x65];
    proof {
        assert(bytes@ =~= stake_prefix());
    }
    bytes
}

/// The seed prefix `b"collection_info"` (its ASCII bytes).
pub open spec fn collection_info_prefix() -> Seq<u8> {
    seq![0x63u8, 0x6f, 0x6c, 0x6c, 0x65, 0x63, 0x74, 0x69, 0x6f, 0x6e, 0x5f, 0x69, 0x6e, 0x66, 0x6f]
}

/// The bytes of the seed prefix `b"collection_info"`.
pub fn collection_info_prefix_bytes() -> (bytes: Vec<u8>)
    ensures
        bytes@ == collection_info_prefix(),
{
    let bytes: Vec<u8> = vec![0x63u8, 0x6f, 0x6c, 0x6c, 0x65, 0x63, 0x74, 0x69, 0x6f, 0x6e, 0x5f, 0x69, 0x6e, 0x66, 0x6f];
    proof {
        assert(bytes@ =~= collection_info_prefix());
    }
    bytes
}

/// Appends the one-byte bump seed `[bump]` to the other seeds.
pub fn seed_list(parts: Vec<Vec<u8>>, bump: u8) -> (seeds: Vec<Vec<u8>>)
    ensures
        seeds.deep_view() == parts.deep_view().push(seq![bump]),
{
    let mut seeds = parts;
    let mut last: Vec<u8> = Vec::new();
    last.push(bump);
    proof {
        assert(last@ =~= seq![bump]);
    }
    let ghost before = seeds@;
    seeds.push(last);
    proof {
        assert(seeds@ == before.push(last));
        assert(seeds.deep_view().len() == parts.deep_view().len() + 1);
        assert forall|i: int| 0 <= i < seeds.deep_view().len() implies
            #[trigger] seeds.deep_view()[i] == parts.deep_view().push(seq![bump])[i] by {
            if i < before.len() {
                assert(seeds@[i] == before[i]);
            }
        }
        assert(seeds.deep_view() =~= parts.deep_view().push(seq![bump]));
    }
    seeds
}

} // verus!
