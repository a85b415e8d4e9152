use minidao::dao::{federation_outcome, Dao, FederationRequest, Vote};
use minidao::error::DaoError;
use minidao::identity::AccountId;
use minidao::proposals::BasicProposal;

fn alice() -> AccountId {
    AccountId::from_bytes([1u8; 32])
}

fn bob() -> AccountId {
    AccountId::from_bytes([2u8; 32])
}

fn charlie() -> AccountId {
    AccountId::from_bytes([3u8; 32])
}

#[test]
fn test_voter_registration() {
    let mut dao = Dao::new("DAO1".to_string());
    let result = dao.register_voter(alice());
    assert_eq!(result.is_ok(), true);
    assert_eq!(dao.has_voter(alice()), true);
}

#[test]
fn test_proposal_management() {
    let mut dao = Dao::new("DAO1".to_string());
    let result = dao.register_voter(alice());
    assert_eq!(result.is_ok(), true);
    assert_eq!(dao.has_voter(alice()), true);

    let result = dao.create_proposal(alice());
    assert_eq!(result.is_ok(), true);
    assert_eq!(dao.proposal_count(), 1);
}

#[test]
fn test_vote() {
    let mut dao = Dao::new("DAO1".to_string());
    let result = dao.register_voter(alice());
    assert_eq!(result.is_ok(), true);
    let result = dao.create_proposal(alice());
    assert_eq!(result.is_ok(), true);
    assert_eq!(dao.proposal_count(), 1);
    let result = dao.vote(alice(), 0);
    assert_eq!(result.is_ok(), true);
    assert_eq!(dao.vote_count(alice()), 1);
}

#[test]
fn name_is_kept() {
    let dao = Dao::new("DAO1".to_string());
    assert_eq!(dao.get_name(), "DAO1");
    assert_eq!(Dao::default().get_name(), "");
}

#[test]
fn registering_twice_is_refused() {
    let mut dao = Dao::new("DAO1".to_string());
    assert!(dao.register_voter(alice()).is_ok());
    assert!(dao.register_voter(bob()).is_ok());
    let again = dao.register_voter(alice());
    assert!(matches!(again, Err(DaoError::VoterAlreadyRegistered)));
    assert!(dao.has_voter(alice()));
    assert!(dao.has_voter(bob()));
    assert!(!dao.has_voter(charlie()));
}

#[test]
fn deregistering_a_stranger_is_refused() {
    let mut dao = Dao::new("DAO1".to_string());
    assert!(dao.register_voter(alice()).is_ok());
    let r = dao.deregister_voter(bob());
    assert!(matches!(r, Err(DaoError::VoterNotRegistered)));
    assert!(dao.has_voter(alice()));
}

#[test]
fn deregistering_one_keeps_the_others() {
    let mut dao = Dao::new("DAO1".to_string());
    assert!(dao.register_voter(alice()).is_ok());
    assert!(dao.register_voter(bob()).is_ok());
    assert!(dao.deregister_voter(alice()).is_ok());
    assert_eq!(dao.has_voter(alice()), false);
    assert_eq!(dao.has_voter(bob()), true);
    // a cleared slot does not stop the member from coming back
    assert!(dao.register_voter(alice()).is_ok());
    assert!(dao.has_voter(alice()));
}

#[test]
fn non_member_cannot_create_proposals() {
    let mut dao = Dao::new("DAO1".to_string());
    let r = dao.create_proposal(alice());
    assert!(matches!(r, Err(DaoError::VoterNotRegistered)));
    assert_eq!(dao.proposal_count(), 0);
    assert_eq!(dao.get_proposal(0), None);
}

#[test]
fn proposal_ids_count_up_from_zero() {
    let mut dao = Dao::new("DAO1".to_string());
    assert!(dao.register_voter(alice()).is_ok());
    assert_eq!(dao.create_proposal(alice()), Ok(0));
    assert_eq!(dao.create_proposal(alice()), Ok(1));
    assert_eq!(dao.create_proposal(alice()), Ok(2));
    assert_eq!(dao.proposal_count(), 3);
    assert_eq!(dao.get_proposal(2), Some(BasicProposal { vote_count: 0 }));
    assert_eq!(dao.get_proposal(3), None);
}

#[test]
fn removing_proposals() {
    let mut dao = Dao::new("DAO1".to_string());
    assert!(dao.register_voter(alice()).is_ok());
    assert_eq!(dao.create_proposal(alice()), Ok(0));
    assert_eq!(dao.create_proposal(alice()), Ok(1));
    assert_eq!(dao.remove_proposal(bob(), 0), Err(DaoError::VoterNotRegistered));
    assert_eq!(dao.remove_proposal(alice(), 7), Err(DaoError::ProposalDoesNotExist));
    assert_eq!(dao.proposal_count(), 2);
    assert_eq!(dao.remove_proposal(alice(), 0), Ok(()));
    assert_eq!(dao.get_proposal(0), None);
    assert_eq!(dao.proposal_count(), 1);
    assert_eq!(dao.remove_proposal(alice(), 0), Err(DaoError::ProposalDoesNotExist));
    // the counter went down, so the next id is one that is still in use
    assert_eq!(dao.vote(alice(), 1), Ok(()));
    assert_eq!(dao.create_proposal(alice()), Ok(1));
    assert_eq!(dao.get_proposal(1), Some(BasicProposal { vote_count: 0 }));
}

#[test]
fn vote_on_missing_proposal_changes_nothing() {
    let mut dao = Dao::new("DAO1".to_string());
    assert!(dao.register_voter(alice()).is_ok());
    assert_eq!(dao.create_proposal(alice()), Ok(0));
    assert_eq!(dao.vote(alice(), 0), Ok(()));
    assert_eq!(dao.vote(alice(), 9), Err(DaoError::ProposalDoesNotExist));
    assert_eq!(dao.vote_count(alice()), 1);
    assert_eq!(dao.get_proposal(0), Some(BasicProposal { vote_count: 1 }));
    assert_eq!(dao.vote(bob(), 0), Err(DaoError::VoterNotRegistered));
    assert_eq!(dao.vote_count(bob()), 0);
    assert_eq!(dao.get_proposal(0), Some(BasicProposal { vote_count: 1 }));
}

#[test]
fn votes_are_counted_across_proposals() {
    let mut dao = Dao::new("DAO1".to_string());
    assert!(dao.register_voter(alice()).is_ok());
    assert!(dao.register_voter(bob()).is_ok());
    assert_eq!(dao.create_proposal(alice()), Ok(0));
    assert_eq!(dao.create_proposal(bob()), Ok(1));
    for id in [0u32, 1, 1, 0, 1] {
        assert_eq!(dao.vote(alice(), id), Ok(()));
    }
    assert_eq!(dao.vote(bob(), 1), Ok(()));
    assert_eq!(dao.vote_count(alice()), 5);
    assert_eq!(dao.vote_count(bob()), 1);
    assert_eq!(dao.vote_count(charlie()), 0);
    assert_eq!(dao.get_proposal(0), Some(BasicProposal { vote_count: 2 }));
    assert_eq!(dao.get_proposal(1), Some(BasicProposal { vote_count: 4 }));
}

#[test]
fn repeated_votes_are_not_deduplicated() {
    let mut dao = Dao::new("DAO1".to_string());
    assert!(dao.register_voter(alice()).is_ok());
    assert_eq!(dao.create_proposal(alice()), Ok(0));
    assert_eq!(dao.vote(alice(), 0), Ok(()));
    assert_eq!(dao.get_proposal(0).map(|p| p.vote_count), Some(1));
    assert_eq!(dao.vote_count(alice()), 1);
    assert_eq!(dao.vote(alice(), 0), Ok(()));
    assert_eq!(dao.get_proposal(0).map(|p| p.vote_count), Some(2));
    assert_eq!(dao.vote_count(alice()), 2);
}

#[test]
fn federated_module_joins_once_when_asked() {
    let (mut dao, join) = Dao::federated("DAO1".to_string(), charlie(), true);
    assert!(matches!(join, Some(FederationRequest::RegisterMember)));
    assert_eq!(dao.superdao().map(|a| a.bytes), Some([3u8; 32]));
    assert!(matches!(dao.register_voter(alice()), Ok(None)));
    assert!(matches!(dao.deregister_voter(alice()), Ok(None)));
}

#[test]
fn federated_module_joins_with_each_voter() {
    let (mut dao, join) = Dao::federated("DAO1".to_string(), charlie(), false);
    assert!(join.is_none());
    assert!(matches!(dao.register_voter(alice()), Ok(Some(FederationRequest::RegisterMember))));
    assert!(matches!(dao.register_voter(alice()), Err(DaoError::VoterAlreadyRegistered)));
    assert!(matches!(dao.deregister_voter(alice()), Ok(Some(FederationRequest::DeregisterMember))));
    assert!(matches!(dao.deregister_voter(alice()), Err(DaoError::VoterNotRegistered)));
}

#[test]
fn local_module_forwards_nothing() {
    let mut dao = Dao::new("DAO1".to_string());
    assert!(matches!(dao.register_voter(alice()), Ok(None)));
    assert!(matches!(dao.vote_proposal(alice(), 0, true), Err(DaoError::NoFederation)));
    assert!(matches!(dao.vote_proposal(bob(), 0, true), Err(DaoError::VoterNotRegistered)));
}

#[test]
fn federation_votes_follow_the_flag() {
    let (mut dao, _) = Dao::federated("DAO1".to_string(), charlie(), true);
    assert!(dao.register_voter(alice()).is_ok());
    assert!(matches!(dao.vote_proposal(alice(), 4, true), Ok(FederationRequest::Vote(4, Vote::Aye))));
    assert!(matches!(dao.vote_proposal(alice(), 5, false), Ok(FederationRequest::Vote(5, Vote::Nay))));
    assert!(matches!(dao.vote_proposal(bob(), 4, true), Err(DaoError::VoterNotRegistered)));
}

#[test]
fn federation_errors_pass_through() {
    assert_eq!(federation_outcome(Ok(())), Ok(()));
    assert_eq!(federation_outcome(Err(42)), Err(DaoError::Federation(42)));
}
