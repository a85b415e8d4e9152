use vstd::prelude::*;
use crate::crosschain::{ChainCall, ContractCall, RemoteAction};
use crate::error::DaoError;
use crate::identity::AccountId;
use crate::ledger::VoteLedger;
use crate::proposals::{BasicProposal, ProposalStore};
use crate::registry::{cleared_of, MemberRegistry};

verus! {

/// A vote on a federation proposal.
#[derive(Clone, Copy, Debug, PartialEq, Eq, Structural)]
pub enum Vote {
    Aye,
    Nay,
}

/// A call that an operation asks to be made on the federation, within the
/// same atomic unit: if the federation rejects it, the whole operation,
/// local changes included, is to be discarded.
#[derive(Clone, Debug)]
pub enum FederationRequest {
    RegisterMember,
    DeregisterMember,
    CreateProposal(RemoteAction),
    Vote(u32, Vote),
}

/// A governance module: registered voters, local proposals with their
/// tallies, the votes each member has cast, and an optional federation.
#[derive(Clone)]
pub struct Dao {
    name: String,
    voters: MemberRegistry,
    proposals: ProposalStore,
    votes: VoteLedger,
    superdao: Option<AccountId>,
    auto_join: bool,
}

impl Dao {
    pub closed spec fn wf(&self) -> bool {
        self.proposals.wf() && self.votes.wf()
    }

    pub closed spec fn name_view(&self) -> Seq<char> {
        self.name@
    }

    /// The registered voters.
    pub closed spec fn members(&self) -> Set<Seq<u8>> {
        self.voters.members()
    }

    /// The registry's slots, in the order voters registered; a slot whose
    /// voter left is cleared, not removed.
    pub closed spec fn voter_slots(&self) -> Seq<Option<AccountId>> {
        self.voters.slots()
    }

    /// The local proposals by id.
    pub closed spec fn proposals(&self) -> Map<u32, BasicProposal> {
        self.proposals.proposals()
    }

    /// The id that the next local proposal gets.
    pub closed spec fn counter(&self) -> u32 {
        self.proposals.counter()
    }

    /// The votes cast by `who`, over all proposals.
    pub closed spec fn tally(&self, who: Seq<u8>) -> u32 {
        self.votes.tally(who)
    }

    /// The federation this module forwards to, if any.
    pub closed spec fn federation(&self) -> Option<AccountId> {
        self.superdao
    }

    /// Whether the module joins the federation once, when it is built,
    /// rather than with each voter that registers.
    pub closed spec fn joins_at_construction(&self) -> bool {
        self.auto_join
    }

    /// The request, if any, that a voter's registration forwards.
    pub open spec fn registration_request(&self) -> Option<FederationRequest> {
        if self.federation() is Some && !self.joins_at_construction() {
            Some(FederationRequest::RegisterMember)
        } else {
            None
        }
    }

    /// The request, if any, that a voter's deregistration forwards.
    pub open spec fn deregistration_request(&self) -> Option<FederationRequest> {
        if self.federation() is Some && !self.joins_at_construction() {
            Some(FederationRequest::DeregisterMember)
        } else {
            None
        }
    }

    /// `after` is `before` with a new proposal under `id`, as a creation makes it.
    pub open spec fn proposal_created(before: Dao, after: Dao, id: u32) -> bool {
        &&& id == before.counter()
        &&& after.counter() == before.counter() + 1
        &&& after.proposals() == before.proposals().insert(id, BasicProposal { vote_count: 0 })
        &&& after.members() == before.members()
        &&& forall|w: Seq<u8>| #[trigger] after.tally(w) == before.tally(w)
        &&& after.wf()
    }

    /// `after` is `before` with one vote by `who` on proposal `id`.
    pub open spec fn vote_cast(before: Dao, after: Dao, who: Seq<u8>, id: u32) -> bool {
        &&& before.proposals().contains_key(id)
        &&& after.proposals() == before.proposals().insert(
            id,
            BasicProposal { vote_count: (before.proposals()[id].vote_count + 1) as u32 },
        )
        &&& after.tally(who) == before.tally(who) + 1
        &&& forall|w: Seq<u8>| w != who ==> #[trigger] after.tally(w) == before.tally(w)
        &&& after.members() == before.members()
        &&& after.counter() == before.counter()
        &&& after.wf()
    }

    /// A module named `name`, with no federation.
    pub fn new(name: String) -> (r: Dao)
        ensures
            r.wf(),
            r.name_view() == name@,
            r.members() == Set::<Seq<u8>>::empty(),
            r.proposals() == Map::<u32, BasicProposal>::empty(),
            r.counter() == 0,
            forall|w: Seq<u8>| #[trigger] r.tally(w) == 0,
            r.federation() is None,
    {
        Dao {
            name,
            voters: MemberRegistry::new(),
            proposals: ProposalStore::new(),
            votes: VoteLedger::new(),
            superdao: None,
            auto_join: false,
        }
    }

    /// A module with an empty name and no federation.
    pub fn default() -> (r: Dao)
        ensures
            r.wf(),
            r.name_view() == Seq::<char>::empty(),
            r.members() == Set::<Seq<u8>>::empty(),
            r.proposals() == Map::<u32, BasicProposal>::empty(),
            r.counter() == 0,
            forall|w: Seq<u8>| #[trigger] r.tally(w) == 0,
            r.federation() is None,
    {
        Dao::new(String::new())
    }

    /// A module named `name` that belongs to the federation `superdao`.
    /// With `auto_join` it joins now, and the request to do so comes back;
    /// otherwise it joins and leaves with each voter.
    pub fn federated(name: String, superdao: AccountId, auto_join: bool) -> (r: (Dao, Option<FederationRequest>))
        ensures
            r.0.wf(),
            r.0.name_view() == name@,
            r.0.members() == Set::<Seq<u8>>::empty(),
            r.0.proposals() == Map::<u32, BasicProposal>::empty(),
            r.0.counter() == 0,
            forall|w: Seq<u8>| #[trigger] r.0.tally(w) == 0,
            r.0.federation() == Some(superdao),
            r.0.joins_at_construction() == auto_join,
            r.1 == (if auto_join { Some(FederationRequest::RegisterMember) } else { None }),
    {
        let dao = Dao {
            name,
            voters: MemberRegistry::new(),
            proposals: ProposalStore::new(),
            votes: VoteLedger::new(),
            superdao: Some(superdao),
            auto_join,
        };
        if auto_join {
            (dao, Some(FederationRequest::RegisterMember))
        } else {
            (dao, None)
        }
    }

    pub fn get_name(&self) -> (r: String)
        ensures
            r@ == self.name_view(),
    {
        self.name.clone()
    }

    /// The federation this module forwards to, if any.
    pub fn superdao(&self) -> (r: Option<AccountId>)
        ensures
            r == self.federation(),
    {
        self.superdao
    }

    /// Registers `caller` as a voter.
    pub fn register_voter(&mut self, caller: AccountId) -> (r: Result<Option<FederationRequest>, DaoError>)
        requires
            old(self).wf(),
        ensures
            old(self).members().contains(caller.id()) ==> r == Err::<Option<FederationRequest>, DaoError>(
                DaoError::VoterAlreadyRegistered,
            ) && *final(self) == *old(self),
            !old(self).members().contains(caller.id()) ==> r == Ok::<Option<FederationRequest>, DaoError>(
                old(self).registration_request(),
            ) && final(self).voter_slots() == old(self).voter_slots().push(Some(caller)),
            final(self).members() == old(self).members().insert(caller.id()),
            final(self).proposals() == old(self).proposals(),
            final(self).counter() == old(self).counter(),
            forall|w: Seq<u8>| #[trigger] final(self).tally(w) == old(self).tally(w),
            final(self).federation() == old(self).federation(),
            final(self).joins_at_construction() == old(self).joins_at_construction(),
            final(self).name_view() == old(self).name_view(),
            final(self).wf(),
    {
        match self.voters.register(caller) {
            Err(e) => {
                assert(old(self).members().insert(caller.id()) =~= old(self).members());
                Err(e)
            },
            Ok(()) => {
                if self.superdao.is_some() && !self.auto_join {
                    Ok(Some(FederationRequest::RegisterMember))
                } else {
                    Ok(None)
                }
            },
        }
    }

    /// Deregisters `caller`, and no other voter.
    pub fn deregister_voter(&mut self, caller: AccountId) -> (r: Result<Option<FederationRequest>, DaoError>)
        requires
            old(self).wf(),
        ensures
            !old(self).members().contains(caller.id()) ==> r == Err::<Option<FederationRequest>, DaoError>(
                DaoError::VoterNotRegistered,
            ) && *final(self) == *old(self),
            old(self).members().contains(caller.id()) ==> r == Ok::<Option<FederationRequest>, DaoError>(
                old(self).deregistration_request(),
            ) && final(self).voter_slots().len() == old(self).voter_slots().len()
                && forall|i: int| 0 <= i < old(self).voter_slots().len()
                    ==> #[trigger] final(self).voter_slots()[i] == cleared_of(old(self).voter_slots()[i], caller.id()),
            final(self).members() == old(self).members().remove(caller.id()),
            final(self).proposals() == old(self).proposals(),
            final(self).counter() == old(self).counter(),
            forall|w: Seq<u8>| #[trigger] final(self).tally(w) == old(self).tally(w),
            final(self).federation() == old(self).federation(),
            final(self).joins_at_construction() == old(self).joins_at_construction(),
            final(self).name_view() == old(self).name_view(),
            final(self).wf(),
    {
        match self.voters.deregister(&caller) {
            Err(e) => {
                assert(old(self).members().remove(caller.id()) =~= old(self).members());
                Err(e)
            },
            Ok(()) => {
                if self.superdao.is_some() && !self.auto_join {
                    Ok(Some(FederationRequest::DeregisterMember))
                } else {
                    Ok(None)
                }
            },
        }
    }

    /// Whether `voter` is registered.
    pub fn has_voter(&self, voter: AccountId) -> (r: bool)
        ensures
            r == self.members().contains(voter.id()),
    {
        self.voters.contains(&voter)
    }

    /// Creates a local proposal with no votes; its id is the counter.
    pub fn create_proposal(&mut self, caller: AccountId) -> (r: Result<u32, DaoError>)
        requires
            old(self).wf(),
            old(self).members().contains(caller.id()) ==> old(self).counter() < u32::MAX,
        ensures
            !old(self).members().contains(caller.id()) ==> r == Err::<u32, DaoError>(DaoError::VoterNotRegistered)
                && *final(self) == *old(self),
            old(self).members().contains(caller.id()) ==> (r matches Ok(id)
                && Dao::proposal_created(*old(self), *final(self), id)),
            final(self).federation() == old(self).federation(),
            final(self).joins_at_construction() == old(self).joins_at_construction(),
            final(self).name_view() == old(self).name_view(),
            final(self).wf(),
    {
        if !self.voters.contains(&caller) {
            return Err(DaoError::VoterNotRegistered);
        }
        let id = self.proposals.create();
        Ok(id)
    }

    /// Removes the local proposal `proposal_id` and decrements the counter.
    pub fn remove_proposal(&mut self, caller: AccountId, proposal_id: u32) -> (r: Result<(), DaoError>)
        requires
            old(self).wf(),
        ensures
            !old(self).members().contains(caller.id()) ==> r == Err::<(), DaoError>(DaoError::VoterNotRegistered),
            old(self).members().contains(caller.id()) && !old(self).proposals().contains_key(proposal_id)
                ==> r == Err::<(), DaoError>(DaoError::ProposalDoesNotExist),
            old(self).members().contains(caller.id()) && old(self).proposals().contains_key(proposal_id) ==> r is Ok,
            r is Err ==> *final(self) == *old(self),
            r is Ok ==> old(self).members().contains(caller.id()) && old(self).proposals().contains_key(proposal_id)
                && final(self).proposals() == old(self).proposals().remove(proposal_id)
                && final(self).counter() == old(self).counter() - 1
                && final(self).members() == old(self).members()
                && forall|w: Seq<u8>| #[trigger] final(self).tally(w) == old(self).tally(w),
            final(self).federation() == old(self).federation(),
            final(self).joins_at_construction() == old(self).joins_at_construction(),
            final(self).name_view() == old(self).name_view(),
            final(self).wf(),
    {
        if !self.voters.contains(&caller) {
            return Err(DaoError::VoterNotRegistered);
        }
        self.proposals.remove(proposal_id)
    }

    /// The local proposal `proposal_id`, if it exists.
    pub fn get_proposal(&self, proposal_id: u32) -> (r: Option<BasicProposal>)
        ensures
            r == (if self.proposals().contains_key(proposal_id) {
                Some(self.proposals()[proposal_id])
            } else {
                None::<BasicProposal>
            }),
    {
        self.proposals.get(proposal_id)
    }

    /// How many local proposals have been created, less those removed.
    pub fn proposal_count(&self) -> (r: u32)
        ensures
            r == self.counter(),
    {
        self.proposals.proposal_count()
    }

    /// Casts a vote of `caller` on the local proposal `proposal_id`. The
    /// proposal's tally and the caller's own tally each grow by one; a
    /// member may vote on the same proposal more than once.
    pub fn vote(&mut self, caller: AccountId, proposal_id: u32) -> (r: Result<(), DaoError>)
        requires
            old(self).wf(),
            old(self).members().contains(caller.id()) && old(self).proposals().contains_key(proposal_id) ==> {
                &&& old(self).proposals()[proposal_id].vote_count < u32::MAX
                &&& old(self).tally(caller.id()) < u32::MAX
            },
        ensures
            !old(self).members().contains(caller.id()) ==> r == Err::<(), DaoError>(DaoError::VoterNotRegistered),
            old(self).members().contains(caller.id()) && !old(self).proposals().contains_key(proposal_id)
                ==> r == Err::<(), DaoError>(DaoError::ProposalDoesNotExist),
            old(self).members().contains(caller.id()) && old(self).proposals().contains_key(proposal_id) ==> r is Ok,
            r is Err ==> *final(self) == *old(self),
            r is Ok ==> old(self).members().contains(caller.id())
                && Dao::vote_cast(*old(self), *final(self), caller.id(), proposal_id),
            final(self).federation() == old(self).federation(),
            final(self).joins_at_construction() == old(self).joins_at_construction(),
            final(self).name_view() == old(self).name_view(),
            final(self).wf(),
    {
        if !self.voters.contains(&caller) {
            return Err(DaoError::VoterNotRegistered);
        }
        match self.proposals.add_vote(proposal_id) {
            Err(e) => Err(e),
            Ok(()) => {
                self.votes.record(caller);
                Ok(())
            },
        }
    }

    /// The votes `voter` has cast, over all proposals.
    pub fn vote_count(&self, voter: AccountId) -> (r: u32)
        requires
            self.wf(),
        ensures
            r == self.tally(voter.id()),
    {
        self.votes.tally_of(&voter)
    }

    /// Asks the federation to adopt `action`, on behalf of the voter `caller`.
    pub fn create_superdao_proposal(&self, caller: AccountId, action: RemoteAction) -> (r: Result<FederationRequest, DaoError>)
        ensures
            !self.members().contains(caller.id()) ==> r == Err::<FederationRequest, DaoError>(DaoError::VoterNotRegistered),
            self.members().contains(caller.id()) && self.federation() is None
                ==> r == Err::<FederationRequest, DaoError>(DaoError::NoFederation),
            self.members().contains(caller.id()) && self.federation() is Some
                ==> r == Ok::<FederationRequest, DaoError>(FederationRequest::CreateProposal(action)),
    {
        if !self.voters.contains(&caller) {
            return Err(DaoError::VoterNotRegistered);
        }
        if self.superdao.is_none() {
            return Err(DaoError::NoFederation);
        }
        Ok(FederationRequest::CreateProposal(action))
    }

    /// Asks the federation to adopt a call into one of its chain's contracts.
    pub fn create_superdao_contract_call_proposal(&self, caller: AccountId, call: ContractCall) -> (r: Result<FederationRequest, DaoError>)
        ensures
            !self.members().contains(caller.id()) ==> r == Err::<FederationRequest, DaoError>(DaoError::VoterNotRegistered),
            self.members().contains(caller.id()) && self.federation() is None
                ==> r == Err::<FederationRequest, DaoError>(DaoError::NoFederation),
            self.members().contains(caller.id()) && self.federation() is Some
                ==> r == Ok::<FederationRequest, DaoError>(FederationRequest::CreateProposal(RemoteAction::Contract(call))),
    {
        self.create_superdao_proposal(caller, RemoteAction::Contract(call))
    }

    /// Asks the federation to adopt a cross-chain call.
    pub fn create_superdao_chain_call_proposal(&self, caller: AccountId, call: ChainCall) -> (r: Result<FederationRequest, DaoError>)
        ensures
            !self.members().contains(caller.id()) ==> r == Err::<FederationRequest, DaoError>(DaoError::VoterNotRegistered),
            self.members().contains(caller.id()) && self.federation() is None
                ==> r == Err::<FederationRequest, DaoError>(DaoError::NoFederation),
            self.members().contains(caller.id()) && self.federation() is Some
                ==> r == Ok::<FederationRequest, DaoError>(FederationRequest::CreateProposal(RemoteAction::Chain(call))),
    {
        self.create_superdao_proposal(caller, RemoteAction::Chain(call))
    }

    /// Votes on the federation's proposal `proposal_id`: for it when `vote`
    /// holds, against it otherwise.
    pub fn vote_proposal(&self, caller: AccountId, proposal_id: u32, vote: bool) -> (r: Result<FederationRequest, DaoError>)
        ensures
            !self.members().contains(caller.id()) ==> r == Err::<FederationRequest, DaoError>(DaoError::VoterNotRegistered),
            self.members().contains(caller.id()) && self.federation() is None
                ==> r == Err::<FederationRequest, DaoError>(DaoError::NoFederation),
            self.members().contains(caller.id()) && self.federation() is Some
                ==> r == Ok::<FederationRequest, DaoError>(
                    FederationRequest::Vote(proposal_id, if vote { Vote::Aye } else { Vote::Nay }),
                ),
    {
        if !self.voters.contains(&caller) {
            return Err(DaoError::VoterNotRegistered);
        }
        if self.superdao.is_none() {
            return Err(DaoError::NoFederation);
        }
        if vote {
            Ok(FederationRequest::Vote(proposal_id, Vote::Aye))
        } else {
            Ok(FederationRequest::Vote(proposal_id, Vote::Nay))
        }
    }
}

/// The result of an operation once the federation has answered the request
/// it forwarded: the federation's error, if any, is passed on unchanged.
pub fn federation_outcome(answer: Result<(), u32>) -> (r: Result<(), DaoError>)
    ensures
        answer is Ok ==> r is Ok,
        answer matches Err(code) ==> r == Err::<(), DaoError>(DaoError::Federation(code)),
{
    match answer {
        Ok(()) => Ok(()),
        Err(code) => Err(DaoError::Federation(code)),
    }
}

} // verus!
