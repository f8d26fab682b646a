//! Ledger identities and the addresses derived for a vault.

use solana_program::pubkey::Pubkey;
use vstd::prelude::*;

verus! {

/// The identity of the host ledger's own program, which owns native
/// accounts: `11111111111111111111111111111111` in the ledger's notation.
pub const SYSTEM_PROGRAM_ID: [u8; 32] = [
    0, 0, 0, 0, 0, 0, 0, 0, 0, 0, 0, 0, 0, 0, 0, 0,
    0, 0, 0, 0, 0, 0, 0, 0, 0, 0, 0, 0, 0, 0, 0, 0,
];

/// The identity of the token sub-ledger's program:
/// `TokenkegQfeZyiNwAJbNbGKPFXCWuBvf9Ss623VQ5DA` in the ledger's notation.
pub const TOKEN_PROGRAM_ID: [u8; 32] = [
    6, 221, 246, 225, 215, 101, 161, 147, 217, 203, 225, 70, 206, 235, 121, 172,
    28, 180, 133, 237, 95, 91, 55, 145, 58, 140, 245, 133, 126, 255, 0, 169,
];

/// The identity of the program that creates associated token accounts:
/// `ATokenGPvbdGVxr1b2hvZbsiqW5xWH25efTNsLJA8knL` in the ledger's notation.
pub const ASSOCIATED_TOKEN_PROGRAM_ID: [u8; 32] = [
    140, 151, 37, 143, 78, 36, 137, 241, 187, 61, 16, 41, 20, 142, 13, 131,
    11, 90, 19, 153, 218, 255, 16, 132, 4, 142, 123, 216, 219, 233, 248, 89,
];

/// A 32-byte identity on the ledger: the address of an account or of a program.
#[derive(Clone, Copy, Debug)]
pub struct Address {
    pub bytes: [u8; 32],
}

impl PartialEq for Address {
    fn eq(&self, other: &Self) -> (r: bool) {
        let mut i: usize = 0;
        while i < 32
            invariant
                i <= 32,
                forall|j: int| 0 <= j < i ==> self.bytes[j] == other.bytes[j],
            decreases 32 - i,
        {
            if self.bytes[i] != other.bytes[i] {
                return false;
            }
            i = i + 1;
        }
        assert(self.bytes =~= other.bytes);
        true
    }
}

impl Eq for Address {}

impl vstd::std_specs::cmp::PartialEqSpecImpl for Address {
    open spec fn obeys_eq_spec() -> bool {
        true
    }

    open spec fn eq_spec(&self, other: &Self) -> bool {
        *self == *other
    }
}

impl Address {
    /// The address whose bytes are the 32 elements of `s`.
    pub open spec fn from_seq(s: Seq<u8>) -> Address {
        Address {
            bytes: [
                s[0], s[1], s[2], s[3], s[4], s[5], s[6], s[7],
                s[8], s[9], s[10], s[11], s[12], s[13], s[14], s[15],
                s[16], s[17], s[18], s[19], s[20], s[21], s[22], s[23],
                s[24], s[25], s[26], s[27], s[28], s[29], s[30], s[31],
            ],
        }
    }

    /// The host ledger's own program.
    pub open spec fn system_program() -> Address {
        Address { bytes: SYSTEM_PROGRAM_ID }
    }

    /// The token sub-ledger's program.
    pub open spec fn token_program() -> Address {
        Address { bytes: TOKEN_PROGRAM_ID }
    }

    /// The program that creates associated token accounts.
    pub open spec fn associated_token_program() -> Address {
        Address { bytes: ASSOCIATED_TOKEN_PROGRAM_ID }
    }

    /// The address with the given bytes.
    pub fn new(bytes: [u8; 32]) -> (r: Address)
        ensures
            r.bytes == bytes,
    {
        Address { bytes }
    }

    /// Reads an address from exactly 32 bytes.
    pub(crate) fn from_slice(data: &[u8]) -> (r: Address)
        requires
            data@.len() == 32,
        ensures
            r.bytes@ == data@,
            r == Address::from_seq(data@),
    {
        let mut bytes: [u8; 32] = SYSTEM_PROGRAM_ID;
        let mut i: usize = 0;
        while i < 32
            invariant
                i <= 32,
                data@.len() == 32,
                forall|j: int| 0 <= j < i ==> bytes[j] == data@[j],
            decreases 32 - i,
        {
            bytes[i] = data[i];
            i = i + 1;
        }
        assert(bytes@ =~= data@);
        assert(bytes =~= Address::from_seq(data@).bytes);
        Address { bytes }
    }

    /// The 32 bytes of the address, in order.
    pub fn to_vec(&self) -> (r: Vec<u8>)
        ensures
            r@ == self.bytes@,
    {
        let mut out: Vec<u8> = Vec::new();
        let mut i: usize = 0;
        while i < 32
            invariant
                i <= 32,
                out@ == self.bytes@.subrange(0, i as int),
            decreases 32 - i,
        {
            out.push(self.bytes[i]);
            assert(out@ =~= self.bytes@.subrange(0, i + 1));
            i = i + 1;
        }
        assert(out@ =~= self.bytes@);
        out
    }
}

/// Reading an address back from its own bytes gives the address.
pub proof fn address_from_its_bytes(a: Address)
    ensures
        Address::from_seq(a.bytes@) == a,
{
    assert(Address::from_seq(a.bytes@).bytes =~= a.bytes);
}

/// The bytes of the address read from 32 bytes are those bytes.
pub proof fn address_bytes_from_seq(s: Seq<u8>)
    requires
        s.len() == 32,
    ensures
        Address::from_seq(s).bytes@ == s,
{
    assert(Address::from_seq(s).bytes@ =~= s);
}

/// The two kinds of address that the program derives for a vault.
#[derive(Clone, Copy, Debug, PartialEq, Eq, Structural)]
pub enum Namespace {
    /// The account that stores the vault's record, derived from the authority.
    State,
    /// The account that holds a native vault's balance, derived from the state address.
    Vault,
}

impl Namespace {
    /// The tag that starts the seeds: the ASCII bytes of `state` or of `vault`.
    pub open spec fn tag(self) -> Seq<u8> {
        match self {
            Namespace::State => seq![115u8, 116u8, 97u8, 116u8, 101u8],
            Namespace::Vault => seq![118u8, 97u8, 117u8, 108u8, 116u8],
        }
    }

    /// The tag as bytes.
    pub fn tag_bytes(&self) -> (r: Vec<u8>)
        ensures
            r@ == self.tag(),
    {
        let mut out: Vec<u8> = Vec::new();
        match self {
            Namespace::State => {
                out.push(115);
                out.push(116);
                out.push(97);
                out.push(116);
                out.push(101);
            },
            Namespace::Vault => {
                out.push(118);
                out.push(97);
                out.push(117);
                out.push(108);
                out.push(116);
            },
        }
        assert(out@ =~= self.tag());
        out
    }
}

/// The program-controlled address that `Pubkey::try_find_program_address`
/// finds for `seeds` under `program_id`, with its bump; `None` where no bump
/// yields one.
pub uninterp spec fn program_address(seeds: Seq<Seq<u8>>, program_id: Address) -> Option<
    (Address, u8),
>;

/// Calls `Pubkey::try_find_program_address`. The search hashes the seeds, a
/// bump and the program's identity, so its answer depends on these alone; the
/// contract gives that answer its name and claims nothing else of it.
#[verifier::external_body]
pub(crate) fn try_find_program_address(seeds: &Vec<Vec<u8>>, program_id: &Address) -> (r: Option<
    (Address, u8),
>)
    ensures
        r == program_address(seeds.deep_view(), *program_id),
{
    let parts: Vec<&[u8]> = seeds.iter().map(|s| s.as_slice()).collect();
    match Pubkey::try_find_program_address(&parts, &Pubkey::new_from_array(program_id.bytes)) {
        Some((key, bump)) => Some((Address { bytes: key.to_bytes() }, bump)),
        None => None,
    }
}

/// The address of `namespace` for `seed` under `program_id`, with its bump.
pub open spec fn derived(namespace: Namespace, seed: Address, program_id: Address) -> Option<
    (Address, u8),
> {
    program_address(seq![namespace.tag(), seed.bytes@], program_id)
}

/// The state address of the vault of `authority`.
pub open spec fn state_address(authority: Address, program_id: Address) -> Option<(Address, u8)> {
    derived(Namespace::State, authority, program_id)
}

/// The address that holds the balance of the native vault stored at `state`.
pub open spec fn vault_address(state: Address, program_id: Address) -> Option<(Address, u8)> {
    derived(Namespace::Vault, state, program_id)
}

/// The token account that the token sub-ledger associates with `wallet` for
/// the asset `mint`: derived under the associated-token program from the
/// wallet, the token program and the asset.
pub open spec fn associated_token_address(wallet: Address, mint: Address) -> Option<Address> {
    match program_address(
        seq![wallet.bytes@, Address::token_program().bytes@, mint.bytes@],
        Address::associated_token_program(),
    ) {
        Some((address, _)) => Some(address),
        None => None,
    }
}

/// Derives the address of `namespace` for `seed`, with the bump that was found.
pub fn derive_address(namespace: Namespace, seed: &Address, program_id: &Address) -> (r: Option<
    (Address, u8),
>)
    ensures
        r == derived(namespace, *seed, *program_id),
{
    let mut seeds: Vec<Vec<u8>> = Vec::new();
    seeds.push(namespace.tag_bytes());
    seeds.push(seed.to_vec());
    assert(seeds.deep_view() =~~= seq![namespace.tag(), seed.bytes@]);
    try_find_program_address(&seeds, program_id)
}

/// Derives the associated token account of `wallet` for the asset `mint`.
pub fn derive_associated_token_address(wallet: &Address, mint: &Address) -> (r: Option<Address>)
    ensures
        r == associated_token_address(*wallet, *mint),
{
    let token_program = Address { bytes: TOKEN_PROGRAM_ID };
    let program = Address { bytes: ASSOCIATED_TOKEN_PROGRAM_ID };
    let mut seeds: Vec<Vec<u8>> = Vec::new();
    seeds.push(wallet.to_vec());
    seeds.push(token_program.to_vec());
    seeds.push(mint.to_vec());
    assert(seeds.deep_view() =~~= seq![
        wallet.bytes@,
        Address::token_program().bytes@,
        mint.bytes@,
    ]);
    match try_find_program_address(&seeds, &program) {
        Some((address, _)) => Some(address),
        None => None,
    }
}

} // verus!
