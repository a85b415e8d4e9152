use ink::scale::Encode;
use ink::xcm::prelude::{AccountId32, Unlimited, VersionedLocation, VersionedXcm, Xcm};
use ink::xcm::v4::{Asset as XcmAsset, Location as XcmLocation};
use minidao::crosschain::{
    transfer_instructions, Asset, ChainCall, ContractCall, Instruction, Location, RemoteAction,
};
use minidao::dao::{Dao, FederationRequest};
use minidao::error::DaoError;
use minidao::identity::AccountId;

fn alice() -> AccountId {
    AccountId::from_bytes([1u8; 32])
}

fn expected_msg(amount: u128, beneficiary: [u8; 32]) -> Vec<u8> {
    let asset: XcmAsset = (XcmLocation::parent(), amount).into();
    let who = AccountId32 { network: None, id: beneficiary };
    let msg: Xcm<()> = Xcm::builder()
        .withdraw_asset(asset.clone().into())
        .buy_execution(asset.clone(), Unlimited)
        .deposit_asset(asset.into(), who.into())
        .build();
    VersionedXcm::V4(msg).encode()
}

#[test]
fn xcm_encoded_calls_helper() {
    let location = Location::here();
    let value: u128 = 10000000000;
    let asset = Asset { location: Location::parent(), amount: value };
    let chain_call = ChainCall::transfer(location, asset, alice());
    println!("dest: {:?}", chain_call.get_encoded_dest());
    println!("msg: {:?}", chain_call.get_encoded_msg());
    assert_eq!(chain_call.get_encoded_dest(), &VersionedLocation::V4(XcmLocation::here()).encode());
    assert_eq!(chain_call.get_encoded_msg(), &expected_msg(value, [1u8; 32]));
}

#[test]
fn transfer_program_has_three_steps() {
    let asset = Asset { location: Location::parent(), amount: 5 };
    let program = transfer_instructions(asset, alice());
    assert_eq!(program.len(), 3);
    assert!(matches!(program[0], Instruction::WithdrawAsset(a) if a == asset));
    assert!(matches!(program[1], Instruction::BuyExecution(a) if a == asset));
    assert!(matches!(program[2], Instruction::DepositAsset(a, b) if a == asset && b.bytes == [1u8; 32]));
}

#[test]
fn transfer_is_deterministic() {
    let asset = Asset { location: Location::parent(), amount: 77 };
    let a = ChainCall::transfer(Location::sibling(1000), asset, alice());
    let b = ChainCall::transfer(Location::sibling(1000), asset, alice());
    assert_eq!(a.get_encoded_dest(), b.get_encoded_dest());
    assert_eq!(a.get_encoded_msg(), b.get_encoded_msg());
    let c = ChainCall::transfer(Location::sibling(1000), asset, AccountId::from_bytes([9u8; 32]));
    assert_ne!(a.get_encoded_msg(), c.get_encoded_msg());
    assert_eq!(c.get_encoded_msg(), &expected_msg(77, [9u8; 32]));
}

#[test]
fn sibling_destination_encoding() {
    let call = ChainCall::transfer(Location::sibling(2000), Asset { location: Location::parent(), amount: 1 }, alice());
    let expected = VersionedLocation::V4(XcmLocation::new(1, [ink::xcm::prelude::Parachain(2000)])).encode();
    assert_eq!(call.get_encoded_dest(), &expected);
    assert_ne!(call.get_encoded_dest(), &VersionedLocation::V4(XcmLocation::here()).encode());
}

#[test]
fn proposals_to_the_federation() {
    let (mut dao, _) = Dao::federated("DAO1".to_string(), AccountId::from_bytes([3u8; 32]), true);
    let call = ContractCall { callee: alice(), selector: [1, 2, 3, 4], input: vec![7], transferred_value: 0 };
    assert!(matches!(
        dao.create_superdao_contract_call_proposal(alice(), call.clone()),
        Err(DaoError::VoterNotRegistered)
    ));
    assert!(dao.register_voter(alice()).is_ok());
    match dao.create_superdao_contract_call_proposal(alice(), call) {
        Ok(FederationRequest::CreateProposal(RemoteAction::Contract(c))) => {
            assert_eq!(c.selector, [1, 2, 3, 4]);
            assert_eq!(c.input, vec![7]);
        },
        _ => panic!("expected a contract call proposal"),
    }
    let chain = ChainCall::transfer(Location::here(), Asset { location: Location::parent(), amount: 3 }, alice());
    match dao.create_superdao_chain_call_proposal(alice(), chain.clone()) {
        Ok(FederationRequest::CreateProposal(RemoteAction::Chain(c))) => {
            assert_eq!(c.get_encoded_msg(), chain.get_encoded_msg());
        },
        _ => panic!("expected a chain call proposal"),
    }
    let local = Dao::new("DAO2".to_string());
    assert!(matches!(local.create_superdao_chain_call_proposal(alice(), chain), Err(DaoError::VoterNotRegistered)));
}

fn xcm_dest(parents: u8, para: Option<u32>) -> Vec<u8> {
    let loc = match para {
        Some(p) => XcmLocation::new(parents, [ink::xcm::prelude::Parachain(p)]),
        None => XcmLocation::new(parents, ink::xcm::prelude::Here),
    };
    VersionedLocation::V4(loc).encode()
}

fn dest_of(location: Location) -> Vec<u8> {
    let asset = Asset { location: Location::parent(), amount: 1 };
    ChainCall::transfer(location, asset, alice()).get_encoded_dest().clone()
}

#[test]
fn destination_bytes_for_each_compact_width() {
    let cases: [(Location, Vec<u8>); 7] = [
        (Location::here(), vec![4, 0, 0]),
        (Location::parent(), vec![4, 1, 0]),
        (Location::sibling(1), vec![4, 1, 1, 0, 4]),
        (Location::sibling(2000), vec![4, 1, 1, 0, 0x41, 0x1f]),
        (Location::sibling(1_000_000), vec![4, 1, 1, 0, 0x02, 0x09, 0x3d, 0x00]),
        (Location::sibling(u32::MAX), vec![4, 1, 1, 0, 3, 255, 255, 255, 255]),
        (Location { parents: 2, parachain: Some(63) }, vec![4, 2, 1, 0, 252]),
    ];
    for (location, bytes) in cases {
        assert_eq!(dest_of(location), bytes);
        assert_eq!(dest_of(location), xcm_dest(location.parents, location.parachain));
    }
}
