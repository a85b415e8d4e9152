use vstd::prelude::*;

verus! {

/// The ways an operation of the governance module can fail.
#[derive(Clone, Copy, Debug, PartialEq, Eq, Structural)]
pub enum DaoError {
    /// The caller is already a registered voter.
    VoterAlreadyRegistered,
    /// The caller is not a registered voter.
    VoterNotRegistered,
    /// No proposal with the given id exists.
    ProposalDoesNotExist,
    /// The module was built without a federation to forward the call to.
    NoFederation,
    /// The federation rejected a forwarded call; its code is passed on as is.
    Federation(u32),
}

} // verus!
