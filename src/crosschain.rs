use vstd::prelude::*;
use crate::identity::AccountId;
use ink::scale::Encode;
use ink::xcm::prelude::{
    AccountId32, BuyExecution, DepositAsset, Junctions, Parachain, Unlimited, VersionedLocation,
    VersionedXcm, WithdrawAsset, Xcm,
};
use ink::xcm::v4::{Asset as XcmAsset, Location as XcmLocation};

verus! {

/// A consensus location: how many levels up, then optionally a parachain.
#[derive(Clone, Copy, Debug, PartialEq, Eq)]
pub struct Location {
    pub parents: u8,
    pub parachain: Option<u32>,
}

impl Location {
    /// The location of the chain that interprets the message.
    pub fn here() -> (r: Location)
        ensures
            r == (Location { parents: 0, parachain: None }),
    {
        Location { parents: 0, parachain: None }
    }

    /// The relay chain, seen from one of its parachains.
    pub fn parent() -> (r: Location)
        ensures
            r == (Location { parents: 1, parachain: None }),
    {
        Location { parents: 1, parachain: None }
    }

    /// A sibling parachain, seen from another parachain.
    pub fn sibling(para: u32) -> (r: Location)
        ensures
            r == (Location { parents: 1, parachain: Some(para) }),
    {
        Location { parents: 1, parachain: Some(para) }
    }
}

/// A fungible amount of the asset identified by `location`.
#[derive(Clone, Copy, Debug, PartialEq, Eq)]
pub struct Asset {
    pub location: Location,
    pub amount: u128,
}

/// One step of a cross-chain instruction program.
#[derive(Clone, Copy, Debug)]
pub enum Instruction {
    /// Take the asset out of the executing account into the holding register.
    WithdrawAsset(Asset),
    /// Pay for execution with the asset, without a weight limit.
    BuyExecution(Asset),
    /// Deposit what remains of the asset to an account of the destination.
    DepositAsset(Asset, AccountId),
}

/// The asset that an instruction moves.
pub open spec fn instruction_asset(i: Instruction) -> Asset {
    match i {
        Instruction::WithdrawAsset(a) => a,
        Instruction::BuyExecution(a) => a,
        Instruction::DepositAsset(a, _) => a,
    }
}

/// Every instruction of `program` moves a non-zero amount; a zero amount is
/// no fungible asset.
pub open spec fn amounts_nonzero(program: Seq<Instruction>) -> bool {
    forall|i: int| 0 <= i < program.len() ==> #[trigger] instruction_asset(program[i]).amount > 0
}

/// The program that moves `asset` to `beneficiary`: withdraw, pay for
/// execution, deposit; always these three, in this order.
pub open spec fn transfer_program(asset: Asset, beneficiary: AccountId) -> Seq<Instruction> {
    seq![
        Instruction::WithdrawAsset(asset),
        Instruction::BuyExecution(asset),
        Instruction::DepositAsset(asset, beneficiary),
    ]
}

/// The `k` low bytes of `v`, least significant first.
pub open spec fn le_bytes(v: nat, k: nat) -> Seq<u8>
    decreases k,
{
    if k == 0 {
        Seq::empty()
    } else {
        seq![(v % 256) as u8] + le_bytes(v / 256, (k - 1) as nat)
    }
}

/// The SCALE compact form of a 32-bit integer: the value shifted left by
/// two with a two-bit mode in the low bits, in 1, 2 or 4 bytes; above
/// 2^30 - 1 a mode byte and the four bytes of the value.
pub open spec fn compact_u32(n: u32) -> Seq<u8> {
    if n < 64 {
        le_bytes(n as nat * 4, 1)
    } else if n < 0x4000 {
        le_bytes(n as nat * 4 + 1, 2)
    } else if n < 0x4000_0000 {
        le_bytes(n as nat * 4 + 2, 4)
    } else {
        seq![3u8] + le_bytes(n as nat, 4)
    }
}

/// The bytes of a location as the destination of a cross-chain message:
/// the version tag 4, the number of parents, then the interior, which is
/// either the tag of `Here` or the tag of a one-junction path followed by
/// the `Parachain` junction's tag and its compact id.
pub open spec fn location_encoding(loc: Location) -> Seq<u8> {
    seq![4u8, loc.parents] + match loc.parachain {
        None => seq![0u8],
        Some(p) => seq![1u8, 0u8] + compact_u32(p),
    }
}

/// The bytes of an instruction program as a cross-chain message.
pub uninterp spec fn program_encoding(program: Seq<Instruction>) -> Seq<u8>;

/// Relies on staging-xcm's `VersionedLocation` (re-exported by ink) and its
/// derived SCALE `Encode`: the variant index of `V4` is 4, `Location` encodes
/// `parents` then `interior`, `Junctions::Here` and `X1` are variants 0 and 1,
/// `Junction::Parachain` is variant 0 with a compact id.
#[verifier::external_body]
fn encode_location(loc: Location) -> (r: Vec<u8>)
    ensures
        r@ == location_encoding(loc),
{
    let interior = loc.parachain.map_or(Junctions::Here, |p| Junctions::from([Parachain(p)]));
    VersionedLocation::V4(XcmLocation::new(loc.parents, interior)).encode()
}

/// Relies on staging-xcm's `VersionedXcm` (re-exported by ink) and its SCALE
/// `Encode`: the bytes depend on the instructions alone.
#[verifier::external_body]
fn encode_program(program: &Vec<Instruction>) -> (r: Vec<u8>)
    requires
        amounts_nonzero(program@),
    ensures
        r@ == program_encoding(program@),
{
    let loc = |l: Location| XcmLocation::new(l.parents, l.parachain.map_or(Junctions::Here, |p| Junctions::from([Parachain(p)])));
    let asset = |a: Asset| XcmAsset::from((loc(a.location), a.amount));
    let msg = program.iter().map(|i| match *i {
        Instruction::WithdrawAsset(a) => WithdrawAsset(asset(a).into()),
        Instruction::BuyExecution(a) => BuyExecution { fees: asset(a), weight_limit: Unlimited },
        Instruction::DepositAsset(a, b) => DepositAsset { assets: asset(a).into(), beneficiary: AccountId32 { network: None, id: b.bytes }.into() },
    }).collect();
    VersionedXcm::<()>::V4(Xcm(msg)).encode()
}

/// Builds the transfer program of `asset` to `beneficiary`.
pub fn transfer_instructions(asset: Asset, beneficiary: AccountId) -> (r: Vec<Instruction>)
    ensures
        r@ == transfer_program(asset, beneficiary),
{
    let mut program: Vec<Instruction> = Vec::new();
    program.push(Instruction::WithdrawAsset(asset));
    program.push(Instruction::BuyExecution(asset));
    program.push(Instruction::DepositAsset(asset, beneficiary));
    assert(program@ =~= transfer_program(asset, beneficiary));
    program
}

/// A remote action addressed to another chain: the encoded destination and
/// the encoded instruction program.
#[derive(Clone, Debug)]
pub struct ChainCall {
    dest: Vec<u8>,
    msg: Vec<u8>,
}

impl ChainCall {
    pub closed spec fn dest_bytes(&self) -> Seq<u8> {
        self.dest@
    }

    pub closed spec fn msg_bytes(&self) -> Seq<u8> {
        self.msg@
    }

    /// Whether this call sends `program` to `dest`.
    pub open spec fn sends(&self, dest: Location, program: Seq<Instruction>) -> bool {
        &&& self.dest_bytes() == location_encoding(dest)
        &&& self.msg_bytes() == program_encoding(program)
    }

    /// Encodes `program` for execution at `dest`.
    pub fn new(dest: Location, program: &Vec<Instruction>) -> (r: ChainCall)
        requires
            amounts_nonzero(program@),
        ensures
            r.sends(dest, program@),
    {
        ChainCall { dest: encode_location(dest), msg: encode_program(program) }
    }

    /// The call that moves `asset` to `beneficiary` at `dest`.
    pub fn transfer(dest: Location, asset: Asset, beneficiary: AccountId) -> (r: ChainCall)
        requires
            asset.amount > 0,
        ensures
            r.sends(dest, transfer_program(asset, beneficiary)),
    {
        let program = transfer_instructions(asset, beneficiary);
        assert(amounts_nonzero(program@));
        ChainCall::new(dest, &program)
    }

    pub fn get_encoded_dest(&self) -> (r: &Vec<u8>)
        ensures
            r@ == self.dest_bytes(),
    {
        &self.dest
    }

    pub fn get_encoded_msg(&self) -> (r: &Vec<u8>)
        ensures
            r@ == self.msg_bytes(),
    {
        &self.msg
    }
}

/// Building a transfer call is deterministic: the same destination, asset
/// and beneficiary give byte-identical destinations and programs.
pub proof fn lemma_transfer_deterministic(
    a: ChainCall,
    b: ChainCall,
    dest: Location,
    asset: Asset,
    beneficiary: AccountId,
)
    requires
        a.sends(dest, transfer_program(asset, beneficiary)),
        b.sends(dest, transfer_program(asset, beneficiary)),
    ensures
        a.dest_bytes() == b.dest_bytes(),
        a.msg_bytes() == b.msg_bytes(),
{
}

/// A call into a contract of the federation's own chain.
#[derive(Clone, Debug)]
pub struct ContractCall {
    pub callee: AccountId,
    pub selector: [u8; 4],
    pub input: Vec<u8>,
    pub transferred_value: u128,
}

/// What a federation proposal does if it is adopted.
#[derive(Clone, Debug)]
pub enum RemoteAction {
    Contract(ContractCall),
    Chain(ChainCall),
}

} // verus!
