use anchor_lang::solana_program::hash::hash;
use anchor_lang::solana_program::pubkey::Pubkey;
use vstd::prelude::*;

verus! {

/// A 32-byte account address, as the ledger names accounts and programs.
pub type Address = [u8; 32];

/// What `Pubkey::try_find_program_address` returns for a list of seeds and a
/// program id: the first off-curve address found with its bump, or none.
pub uninterp spec fn program_address_of(seeds: Seq<Seq<u8>>, program: Seq<u8>) -> Option<([u8; 32], u8)>;

/// The SHA-256 digest of a byte string.
pub uninterp spec fn sha256_of(data: Seq<u8>) -> Seq<u8>;

/// Relies on `Pubkey::try_find_program_address`: searches bumps from 255 down
/// for an address off the curve; the answer depends on the seeds and the
/// program id alone, and it returns `None` rather than panicking.
#[verifier::external_body]
fn find_program_address(seeds: &Vec<Vec<u8>>, program: &Address) -> (r: Option<(Address, u8)>)
    ensures
        r == program_address_of(seeds.deep_view(), program@),
{
    let refs: Vec<&[u8]> = seeds.iter().map(|s| s.as_slice()).collect();
    Pubkey::try_find_program_address(&refs, &Pubkey::new_from_array(*program)).map(
        |(k, b)| (k.to_bytes(), b),
    )
}

/// Relies on `solana_program::hash::hash`: the SHA-256 digest of the bytes.
#[verifier::external_body]
fn sha256(data: &Vec<u8>) -> (r: Address)
    ensures
        r@ == sha256_of(data@),
{
    hash(data.as_slice()).to_bytes()
}

/// Compares two addresses byte by byte.
pub fn same_address(a: &Address, b: &Address) -> (r: bool)
    ensures
        r == (a@ == b@),
{
    let mut i: usize = 0;
    while i < 32
        invariant
            i <= 32,
            a@.len() == 32,
            b@.len() == 32,
            forall|j: int| 0 <= j < i ==> a@[j] == b@[j],
        decreases 32 - i,
    {
        if a[i] != b[i] {
            assert(a@[i as int] != b@[i as int]);
            return false;
        }
        i += 1;
    }
    assert(a@ =~= b@);
    true
}

/// Copies an address into a byte vector.
pub fn address_bytes(a: &Address) -> (r: Vec<u8>)
    ensures
        r@ == a@,
{
    let mut v: Vec<u8> = Vec::new();
    let mut i: usize = 0;
    while i < 32
        invariant
            i <= 32,
            a@.len() == 32,
            v@ == a@.subrange(0, i as int),
        decreases 32 - i,
    {
        v.push(a[i]);
        i += 1;
        assert(v@ =~= a@.subrange(0, i as int));
    }
    assert(a@.subrange(0, 32) =~= a@);
    v
}

/// The `k` low bytes of `n`, least significant first.
pub open spec fn le_bytes_from(n: nat, k: nat) -> Seq<u8>
    decreases k,
{
    if k == 0 {
        Seq::empty()
    } else {
        seq![(n % 256) as u8] + le_bytes_from(n / 256, (k - 1) as nat)
    }
}

/// The little-endian encoding of a 64-bit integer.
pub open spec fn le_bytes(n: u64) -> Seq<u8> {
    le_bytes_from(n as nat, 8)
}

/// Encodes `n` in eight little-endian bytes.
pub fn u64_le_bytes(n: u64) -> (r: Vec<u8>)
    ensures
        r@ == le_bytes(n),
{
    let mut v: Vec<u8> = Vec::new();
    let mut x: u64 = n;
    let mut k: usize = 0;
    while k < 8
        invariant
            k <= 8,
            v@ + le_bytes_from(x as nat, (8 - k) as nat) == le_bytes(n),
        decreases 8 - k,
    {
        let ghost before = v@;
        let b: u8 = (x % 256) as u8;
        assert(le_bytes_from(x as nat, (8 - k) as nat) == seq![b] + le_bytes_from(
            (x / 256) as nat,
            (8 - k - 1) as nat,
        ));
        v.push(b);
        x = x / 256;
        k += 1;
        assert(v@ == before + seq![b]);
        assert(v@ + le_bytes_from(x as nat, (8 - k) as nat) =~= before + (seq![b]
            + le_bytes_from(x as nat, (8 - k) as nat)));
    }
    assert(le_bytes_from(x as nat, 0) =~= Seq::<u8>::empty());
    assert(v@ =~= v@ + Seq::<u8>::empty());
    v
}

/// The domain tag of offer records.
pub open spec fn escrow_tag() -> Seq<u8> {
    seq![101u8, 115u8, 99u8, 114u8, 111u8, 119u8]
}

/// The domain tag of the scheduling authority.
pub open spec fn queue_authority_tag() -> Seq<u8> {
    seq![
        113u8, 117u8, 101u8, 117u8, 101u8, 95u8, 97u8, 117u8, 116u8, 104u8, 111u8, 114u8,
        105u8, 116u8, 121u8,
    ]
}

/// The seeds of the offer record of `(maker, seed)`.
pub open spec fn offer_seeds(maker: Seq<u8>, seed: u64) -> Seq<Seq<u8>> {
    seq![escrow_tag(), maker, le_bytes(seed)]
}

/// Where the offer record of `(maker, seed)` lives under `program`, with its bump.
pub open spec fn offer_address_spec(program: Seq<u8>, maker: Seq<u8>, seed: u64) -> Option<(Address, u8)> {
    program_address_of(offer_seeds(maker, seed), program)
}

/// The associated token account of `owner` for `mint`: the address that the
/// associated token program derives from the owner, the token program and the mint.
pub open spec fn token_address_spec(
    ata_program: Seq<u8>,
    token_program: Seq<u8>,
    owner: Seq<u8>,
    mint: Seq<u8>,
) -> Option<(Address, u8)> {
    program_address_of(seq![owner, token_program, mint], ata_program)
}

/// The scheduling authority of `program`.
pub open spec fn queue_authority_spec(program: Seq<u8>) -> Option<(Address, u8)> {
    program_address_of(seq![queue_authority_tag()], program)
}

/// The first eight bytes of the digest of `name`: the selector of an operation.
pub open spec fn selector_of(name: Seq<u8>) -> Seq<u8> {
    sha256_of(name).subrange(0, 8)
}

proof fn lemma_bytes_deep_view(v: Vec<u8>)
    ensures
        v.deep_view() == v@,
{
    assert(v.deep_view() =~= v@);
}

/// Derives the offer record address of `(maker, seed)`.
pub fn offer_address(program: &Address, maker: &Address, seed: u64) -> (r: Option<(Address, u8)>)
    ensures
        r == offer_address_spec(program@, maker@, seed),
{
    let seeds: Vec<Vec<u8>> = vec![
        vec![101u8, 115u8, 99u8, 114u8, 111u8, 119u8],
        address_bytes(maker),
        u64_le_bytes(seed),
    ];
    proof {
        lemma_bytes_deep_view(seeds@[0]);
        lemma_bytes_deep_view(seeds@[1]);
        lemma_bytes_deep_view(seeds@[2]);
    }
    assert(seeds.deep_view() =~= offer_seeds(maker@, seed));
    find_program_address(&seeds, program)
}

/// Derives the associated token account of `owner` for `mint`.
pub fn token_address(ata_program: &Address, token_program: &Address, owner: &Address, mint: &Address) -> (r: Option<(Address, u8)>)
    ensures
        r == token_address_spec(ata_program@, token_program@, owner@, mint@),
{
    let seeds: Vec<Vec<u8>> = vec![address_bytes(owner), address_bytes(token_program), address_bytes(mint)];
    proof {
        lemma_bytes_deep_view(seeds@[0]);
        lemma_bytes_deep_view(seeds@[1]);
        lemma_bytes_deep_view(seeds@[2]);
    }
    assert(seeds.deep_view() =~= seq![owner@, token_program@, mint@]);
    find_program_address(&seeds, ata_program)
}

/// Derives the scheduling authority of `program`.
pub fn queue_authority(program: &Address) -> (r: Option<(Address, u8)>)
    ensures
        r == queue_authority_spec(program@),
{
    let seeds: Vec<Vec<u8>> = vec![
        vec![
            113u8, 117u8, 101u8, 117u8, 101u8, 95u8, 97u8, 117u8, 116u8, 104u8, 111u8, 114u8,
            105u8, 116u8, 121u8,
        ],
    ];
    proof {
        lemma_bytes_deep_view(seeds@[0]);
    }
    assert(seeds.deep_view() =~= seq![queue_authority_tag()]);
    find_program_address(&seeds, program)
}

/// The eight-byte selector of the operation called `name`.
pub fn selector(name: &Vec<u8>) -> (r: Vec<u8>)
    ensures
        r@ == selector_of(name@),
        r@.len() == 8,
{
    let digest = sha256(name);
    let mut v: Vec<u8> = Vec::new();
    let mut i: usize = 0;
    while i < 8
        invariant
            i <= 8,
            digest@.len() == 32,
            v@ == digest@.subrange(0, i as int),
        decreases 8 - i,
    {
        v.push(digest[i]);
        i += 1;
        assert(v@ =~= digest@.subrange(0, i as int));
    }
    v
}

} // verus!
