//! Multisig wallet: proposals that run once enough signers approve them.
//!
//! Proposals are identified by the hash of their call (target, function,
//! arguments and salt); the host computes the hash, keeps the storage,
//! checks authorisation, performs calls and publishes events. The decisions
//! about signers, thresholds, approvals, execution and cancellation are made
//! here.
use vstd::prelude::*;
use crate::account::{AccountId, contains_account, first_index_of, has_account};
use crate::soroban_v21::str_eq;

verus! {

/// Why a multisig operation fails.
#[derive(Clone, Copy, Debug, PartialEq, Eq, Structural)]
pub enum Error {
    NotInitialized,
    AlreadyInitialized,
    InvalidThreshold,
    InsufficientSigners,
    Unauthorized,
    ProposalNotFound,
    AlreadyApproved,
    ThresholdNotMet,
    AlreadyExecuted,
    AlreadyCancelled,
    InvalidArguments,
}

/// What is stored for a proposal.
#[derive(Clone, Copy, Debug, PartialEq, Eq, Structural)]
pub struct ProposalInfo {
    pub approval_count: u32,
    pub executed: bool,
    pub cancelled: bool,
}

/// The wallet's configuration: its signers and how many approvals a
/// proposal needs.
pub struct MultisigWallet {
    pub signers: Vec<AccountId>,
    pub threshold: u32,
}

/// A threshold of at least one and at most the number of signers.
pub open spec fn valid_threshold(threshold: u32, signer_count: nat) -> bool {
    1 <= threshold <= signer_count
}

/// The plain values of the signers.
pub open spec fn signer_views(v: Seq<AccountId>) -> Seq<Seq<u8>> {
    v.map_values(|a: AccountId| a@)
}

impl MultisigWallet {
    /// The signers as plain values.
    pub open spec fn signers_view(&self) -> Seq<Seq<u8>> {
        signer_views(self.signers@)
    }

    /// Initialize the wallet with a list of signers and a threshold. Fails
    /// when the wallet already has a threshold (`existing` is the stored
    /// configuration, if any) or when the threshold is 0 or exceeds the
    /// number of signers.
    pub fn init(existing: Option<MultisigWallet>, signers: Vec<AccountId>, threshold: u32) -> (r: Result<
        MultisigWallet,
        Error,
    >)
        ensures
            existing is Some ==> r == Err::<MultisigWallet, Error>(Error::AlreadyInitialized),
            existing is None && !valid_threshold(threshold, signers@.len()) ==> r == Err::<
                MultisigWallet,
                Error,
            >(Error::InvalidThreshold),
            existing is None && valid_threshold(threshold, signers@.len()) ==> (r matches Ok(w) && w.signers@
                == signers@ && w.threshold == threshold),
    {
        if existing.is_some() {
            return Err(Error::AlreadyInitialized);
        }
        if threshold == 0 || threshold as usize > signers.len() {
            return Err(Error::InvalidThreshold);
        }
        Ok(MultisigWallet { signers, threshold })
    }

    /// Create a proposal. `existing` is what is stored under the proposal's
    /// hash, if anything: an existing proposal is left as it is (`None`, so
    /// nothing is stored and no event is published); otherwise the record
    /// to store is a fresh one, with no approvals.
    pub fn propose(existing: Option<ProposalInfo>) -> (r: Option<ProposalInfo>)
        ensures
            existing is Some ==> r is None,
            existing is None ==> r == Some(ProposalInfo { approval_count: 0, executed: false, cancelled: false }),
    {
        match existing {
            Some(_) => None,
            None => Some(ProposalInfo { approval_count: 0, executed: false, cancelled: false }),
        }
    }

    /// Approve a proposal. `info` is what is stored for the proposal and
    /// `already_approved` whether this signer approved it before. Returns
    /// the updated record.
    pub fn approve(&self, signer: &AccountId, info: Option<ProposalInfo>, already_approved: bool) -> (r:
        Result<ProposalInfo, Error>)
        requires
            info matches Some(i) ==> i.approval_count < u32::MAX,
        ensures
            r == approve_result(self.signers@, signer@, info, already_approved),
    {
        if !contains_account(&self.signers, signer) {
            return Err(Error::Unauthorized);
        }
        let info = match info {
            Some(i) => i,
            None => return Err(Error::ProposalNotFound),
        };
        if info.executed {
            return Err(Error::AlreadyExecuted);
        }
        if info.cancelled {
            return Err(Error::AlreadyCancelled);
        }
        if already_approved {
            return Err(Error::AlreadyApproved);
        }
        Ok(ProposalInfo { approval_count: info.approval_count + 1, ..info })
    }

    /// Execute a proposal when the threshold is met. `info` is what is
    /// stored for the proposal; `is_self_call` whether the target is the
    /// wallet itself and `function` the function to call. Returns the
    /// updated record and what to run: a call of the target, or one of the
    /// wallet's own administrative operations.
    pub fn execute(&self, info: Option<ProposalInfo>, is_self_call: bool, function: &str) -> (r: Result<
        (ProposalInfo, ExecuteAction),
        Error,
    >)
        ensures
            r == execute_result(self.threshold, info, is_self_call, function@),
    {
        let mut info = match info {
            Some(i) => i,
            None => return Err(Error::ProposalNotFound),
        };
        if info.approval_count < self.threshold {
            return Err(Error::ThresholdNotMet);
        }
        if info.executed {
            return Err(Error::AlreadyExecuted);
        }
        if info.cancelled {
            return Err(Error::AlreadyCancelled);
        }
        info.executed = true;
        if !is_self_call {
            return Ok((info, ExecuteAction::Invoke));
        }
        if str_eq(function, "add_signer") {
            Ok((info, ExecuteAction::AddSigner))
        } else if str_eq(function, "remove_signer") {
            Ok((info, ExecuteAction::RemoveSigner))
        } else if str_eq(function, "set_threshold") {
            Ok((info, ExecuteAction::SetThreshold))
        } else if str_eq(function, "cancel") {
            Ok((info, ExecuteAction::Cancel))
        } else {
            Err(Error::InvalidArguments)
        }
    }

    /// Cancel a proposal (the wallet itself must authorise it).
    pub fn cancel(info: Option<ProposalInfo>) -> (r: Result<ProposalInfo, Error>)
        ensures
            r == cancel_result(info),
    {
        Self::internal_cancel(info)
    }

    /// Add a signer (the wallet itself must authorise it).
    pub fn add_signer(&mut self, signer: AccountId)
        ensures
            final(self).threshold == old(self).threshold,
            final(self).signers_view() == add_signer_result(old(self).signers_view(), signer@),
    {
        self.internal_add_signer(signer)
    }

    /// Remove a signer (the wallet itself must authorise it).
    pub fn remove_signer(&mut self, signer: &AccountId) -> (r: Result<(), Error>)
        ensures
            final(self).threshold == old(self).threshold,
            match remove_signer_result(old(self).signers_view(), old(self).threshold, signer@) {
                Ok(v) => r is Ok && final(self).signers_view() == v,
                Err(e) => r == Err::<(), Error>(e) && final(self).signers_view()
                    == old(self).signers_view(),
            },
    {
        self.internal_remove_signer(signer)
    }

    /// Set the threshold (the wallet itself must authorise it).
    pub fn set_threshold(&mut self, threshold: u32) -> (r: Result<(), Error>)
        ensures
            final(self).signers@ == old(self).signers@,
            valid_threshold(threshold, old(self).signers@.len()) ==> r is Ok && final(self).threshold
                == threshold,
            !valid_threshold(threshold, old(self).signers@.len()) ==> r == Err::<(), Error>(
                Error::InvalidThreshold,
            ) && final(self).threshold == old(self).threshold,
    {
        self.internal_set_threshold(threshold)
    }

    fn internal_cancel(info: Option<ProposalInfo>) -> (r: Result<ProposalInfo, Error>)
        ensures
            r == cancel_result(info),
    {
        let mut info = match info {
            Some(i) => i,
            None => return Err(Error::ProposalNotFound),
        };
        if info.executed {
            return Err(Error::AlreadyExecuted);
        }
        info.cancelled = true;
        Ok(info)
    }

    fn internal_add_signer(&mut self, signer: AccountId)
        ensures
            final(self).threshold == old(self).threshold,
            final(self).signers_view() == add_signer_result(old(self).signers_view(), signer@),
    {
        let ghost before = self.signers@;
        if !contains_account(&self.signers, &signer) {
            self.signers.push(signer);
            assert(signer_views(self.signers@) =~= signer_views(before).push(signer@));
        } else {
            assert(signer_views(before).contains(signer@)) by {
                let j = choose|j: int| 0 <= j < before.len() && before[j]@ == signer@;
                assert(signer_views(before)[j] == signer@);
            }
        }
        proof {
            if !has_account(before, signer@) {
                assert(!signer_views(before).contains(signer@)) by {
                    if signer_views(before).contains(signer@) {
                        let j = choose|j: int| 0 <= j < signer_views(before).len() && signer_views(before)[j] == signer@;
                        assert(before[j]@ == signer@);
                    }
                }
            }
        }
    }

    fn internal_remove_signer(&mut self, signer: &AccountId) -> (r: Result<(), Error>)
        ensures
            final(self).threshold == old(self).threshold,
            match remove_signer_result(old(self).signers_view(), old(self).threshold, signer@) {
                Ok(v) => r is Ok && final(self).signers_view() == v,
                Err(e) => r == Err::<(), Error>(e) && final(self).signers_view()
                    == old(self).signers_view(),
            },
    {
        let ghost before = self.signers@;
        match first_index_of(&self.signers, signer) {
            Some(idx) => {
                proof {
                    assert(signer_views(before)[idx as int] == signer@);
                    assert forall|j: int| 0 <= j < idx implies signer_views(before)[j] != signer@ by {
                        assert(signer_views(before)[j] == before[j]@);
                    }
                    lemma_first_occurrence(signer_views(before), signer@, idx as int);
                }
                if self.signers.len() <= self.threshold as usize {
                    return Err(Error::InvalidThreshold);
                }
                self.signers.remove(idx);
                assert(signer_views(self.signers@) =~= signer_views(before).remove(idx as int));
                Ok(())
            },
            None => {
                proof {
                    assert(!signer_views(before).contains(signer@)) by {
                        if signer_views(before).contains(signer@) {
                            let j = choose|j: int| 0 <= j < signer_views(before).len() && signer_views(before)[j] == signer@;
                            assert(before[j]@ == signer@);
                        }
                    }
                }
                Ok(())
            },
        }
    }

    fn internal_set_threshold(&mut self, threshold: u32) -> (r: Result<(), Error>)
        ensures
            final(self).signers@ == old(self).signers@,
            valid_threshold(threshold, old(self).signers@.len()) ==> r is Ok && final(self).threshold
                == threshold,
            !valid_threshold(threshold, old(self).signers@.len()) ==> r == Err::<(), Error>(
                Error::InvalidThreshold,
            ) && final(self).threshold == old(self).threshold,
    {
        if threshold == 0 || threshold as usize > self.signers.len() {
            return Err(Error::InvalidThreshold);
        }
        self.threshold = threshold;
        Ok(())
    }
}

/// What executing a proposal runs.
#[derive(Clone, Copy, Debug, PartialEq, Eq, Structural)]
pub enum ExecuteAction {
    /// Call the target contract's function with the proposal's arguments.
    Invoke,
    /// Add the signer given as the first argument.
    AddSigner,
    /// Remove the signer given as the first argument.
    RemoveSigner,
    /// Set the threshold given as the first argument.
    SetThreshold,
    /// Cancel the proposal whose hash is the first argument.
    Cancel,
}

/// The record after an approval, or the error.
pub open spec fn approve_result(
    signers: Seq<AccountId>,
    signer: Seq<u8>,
    info: Option<ProposalInfo>,
    already_approved: bool,
) -> Result<ProposalInfo, Error> {
    if !has_account(signers, signer) {
        Err(Error::Unauthorized)
    } else {
        match info {
            None => Err(Error::ProposalNotFound),
            Some(i) => if i.executed {
                Err(Error::AlreadyExecuted)
            } else if i.cancelled {
                Err(Error::AlreadyCancelled)
            } else if already_approved {
                Err(Error::AlreadyApproved)
            } else {
                Ok(ProposalInfo { approval_count: (i.approval_count + 1) as u32, ..i })
            },
        }
    }
}

/// The record and action of an execution, or the error.
pub open spec fn execute_result(threshold: u32, info: Option<ProposalInfo>, is_self_call: bool, function: Seq<
    char,
>) -> Result<(ProposalInfo, ExecuteAction), Error> {
    match info {
        None => Err(Error::ProposalNotFound),
        Some(i) => if i.approval_count < threshold {
            Err(Error::ThresholdNotMet)
        } else if i.executed {
            Err(Error::AlreadyExecuted)
        } else if i.cancelled {
            Err(Error::AlreadyCancelled)
        } else {
            let done = ProposalInfo { executed: true, ..i };
            if !is_self_call {
                Ok((done, ExecuteAction::Invoke))
            } else if function == "add_signer"@ {
                Ok((done, ExecuteAction::AddSigner))
            } else if function == "remove_signer"@ {
                Ok((done, ExecuteAction::RemoveSigner))
            } else if function == "set_threshold"@ {
                Ok((done, ExecuteAction::SetThreshold))
            } else if function == "cancel"@ {
                Ok((done, ExecuteAction::Cancel))
            } else {
                Err(Error::InvalidArguments)
            }
        },
    }
}

/// The record after a cancellation, or the error.
pub open spec fn cancel_result(info: Option<ProposalInfo>) -> Result<ProposalInfo, Error> {
    match info {
        None => Err(Error::ProposalNotFound),
        Some(i) => if i.executed {
            Err(Error::AlreadyExecuted)
        } else {
            Ok(ProposalInfo { cancelled: true, ..i })
        },
    }
}

/// The signers after adding `signer`: unchanged when it is already one.
pub open spec fn add_signer_result(signers: Seq<Seq<u8>>, signer: Seq<u8>) -> Seq<Seq<u8>> {
    if signers.contains(signer) {
        signers
    } else {
        signers.push(signer)
    }
}

/// Index of the first occurrence of `x` in `s` (`s.len()` if none).
pub open spec fn first_occurrence(s: Seq<Seq<u8>>, x: Seq<u8>) -> int
    decreases s.len(),
{
    if s.len() == 0 {
        0
    } else if s[0] == x {
        0
    } else {
        1 + first_occurrence(s.drop_first(), x)
    }
}

proof fn lemma_first_occurrence(s: Seq<Seq<u8>>, x: Seq<u8>, k: int)
    requires
        0 <= k < s.len(),
        s[k] == x,
        forall|j: int| 0 <= j < k ==> s[j] != x,
    ensures
        first_occurrence(s, x) == k,
    decreases k,
{
    if k > 0 {
        lemma_first_occurrence(s.drop_first(), x, k - 1);
    }
}

/// The signers after removing `signer`, or the error: unchanged when it is
/// not one; refused when removing it would leave fewer signers than the
/// threshold.
pub open spec fn remove_signer_result(signers: Seq<Seq<u8>>, threshold: u32, signer: Seq<u8>) -> Result<
    Seq<Seq<u8>>,
    Error,
> {
    if !signers.contains(signer) {
        Ok(signers)
    } else if signers.len() <= threshold {
        Err(Error::InvalidThreshold)
    } else {
        Ok(signers.remove(first_occurrence(signers, signer)))
    }
}

/// The first occurrence of an element that `s` holds is within `s`, holds
/// the element, and comes before every other occurrence.
proof fn lemma_first_occurrence_found(s: Seq<Seq<u8>>, x: Seq<u8>)
    requires
        s.contains(x),
    ensures
        0 <= first_occurrence(s, x) < s.len(),
        s[first_occurrence(s, x)] == x,
        forall|j: int| 0 <= j < first_occurrence(s, x) ==> s[j] != x,
    decreases s.len(),
{
    if s[0] != x {
        let k = choose|k: int| 0 <= k < s.len() && s[k] == x;
        assert(s.drop_first()[k - 1] == x);
        lemma_first_occurrence_found(s.drop_first(), x);
        assert forall|j: int| 0 <= j < first_occurrence(s, x) implies s[j] != x by {
            if j > 0 {
                assert(s[j] == s.drop_first()[j - 1]);
            }
        }
    }
}

/// Removing a signer: a non-signer leaves the list as it is; removal is
/// refused while it would leave fewer signers than the threshold; otherwise
/// exactly the signer's first occurrence goes, the others keep their order,
/// and the threshold stays within the number of signers.
pub proof fn law_remove_signer_takes_first_occurrence(signers: Seq<Seq<u8>>, threshold: u32, signer: Seq<u8>)
    requires
        valid_threshold(threshold, signers.len()),
    ensures
        !signers.contains(signer) ==> remove_signer_result(signers, threshold, signer) == Ok::<
            Seq<Seq<u8>>,
            Error,
        >(signers),
        signers.contains(signer) && signers.len() <= threshold ==> remove_signer_result(
            signers,
            threshold,
            signer,
        ) == Err::<Seq<Seq<u8>>, Error>(Error::InvalidThreshold),
        signers.contains(signer) && signers.len() > threshold ==> {
            let k = first_occurrence(signers, signer);
            &&& 0 <= k < signers.len()
            &&& signers[k] == signer
            &&& forall|j: int| 0 <= j < k ==> signers[j] != signer
            &&& remove_signer_result(signers, threshold, signer) == Ok::<Seq<Seq<u8>>, Error>(
                signers.take(k) + signers.skip(k + 1),
            )
            &&& valid_threshold(threshold, (signers.len() - 1) as nat)
        },
{
    if signers.contains(signer) {
        lemma_first_occurrence_found(signers, signer);
        let k = first_occurrence(signers, signer);
        assert(signers.remove(k) =~= signers.take(k) + signers.skip(k + 1));
    }
}

/// Every change of signers or threshold keeps the threshold between 1 and
/// the number of signers.
pub proof fn law_threshold_stays_valid(signers: Seq<Seq<u8>>, threshold: u32, signer: Seq<u8>)
    requires
        valid_threshold(threshold, signers.len()),
    ensures
        valid_threshold(threshold, add_signer_result(signers, signer).len()),
        remove_signer_result(signers, threshold, signer) matches Ok(v) ==> valid_threshold(threshold, v.len()),
{
    if signers.contains(signer) && signers.len() > threshold {
        lemma_first_occurrence_in_bounds(signers, signer);
    }
}

proof fn lemma_first_occurrence_in_bounds(s: Seq<Seq<u8>>, x: Seq<u8>)
    requires
        s.contains(x),
    ensures
        0 <= first_occurrence(s, x) < s.len(),
        s[first_occurrence(s, x)] == x,
    decreases s.len(),
{
    if s[0] != x {
        let j = choose|j: int| 0 <= j < s.len() && s[j] == x;
        assert(s.drop_first()[j - 1] == x);
        lemma_first_occurrence_in_bounds(s.drop_first(), x);
    }
}

/// Adding and removing signers keeps every signer distinct.
pub proof fn law_signers_stay_distinct(signers: Seq<Seq<u8>>, threshold: u32, signer: Seq<u8>)
    requires
        signers.no_duplicates(),
    ensures
        add_signer_result(signers, signer).no_duplicates(),
        remove_signer_result(signers, threshold, signer) matches Ok(v) ==> v.no_duplicates(),
{
    if !signers.contains(signer) {
        let t = signers.push(signer);
        assert forall|i: int, j: int| 0 <= i < t.len() && 0 <= j < t.len() && i != j implies t[i] != t[j] by {
            if i == signers.len() as int {
                assert(signers[j] == t[j]);
            } else if j == signers.len() as int {
                assert(signers[i] == t[i]);
            }
        }
    } else if signers.len() > threshold {
        lemma_first_occurrence_in_bounds(signers, signer);
        let k = first_occurrence(signers, signer);
        let t = signers.remove(k);
        assert forall|i: int, j: int| 0 <= i < t.len() && 0 <= j < t.len() && i != j implies t[i] != t[j] by {
            let a = if i < k { i } else { i + 1 };
            let b = if j < k { j } else { j + 1 };
            assert(t[i] == signers[a]);
            assert(t[j] == signers[b]);
        }
    }
}

/// An approval from a signer who has not approved before adds exactly one
/// approval; a repeated approval is refused.
pub proof fn law_each_signer_approves_once(signers: Seq<AccountId>, signer: Seq<u8>, info: ProposalInfo)
    requires
        info.approval_count < u32::MAX,
        has_account(signers, signer),
        !info.executed,
        !info.cancelled,
    ensures
        approve_result(signers, signer, Some(info), false) == Ok::<ProposalInfo, Error>(
            ProposalInfo { approval_count: (info.approval_count + 1) as u32, ..info },
        ),
        approve_result(signers, signer, Some(info), true) == Err::<ProposalInfo, Error>(
            Error::AlreadyApproved,
        ),
{
}

/// A proposal runs only with at least `threshold` approvals, and only once:
/// once executed it can be neither executed, approved nor cancelled again.
pub proof fn law_proposals_execute_once(
    signers: Seq<AccountId>,
    signer: Seq<u8>,
    threshold: u32,
    info: ProposalInfo,
    is_self_call: bool,
    function: Seq<char>,
    again_self: bool,
    again_function: Seq<char>,
    approved_before: bool,
)
    requires
        has_account(signers, signer),
    ensures
        execute_result(threshold, Some(info), is_self_call, function) matches Ok((done, _)) ==> {
            &&& info.approval_count >= threshold
            &&& done.executed
            &&& done.approval_count == info.approval_count
            &&& execute_result(threshold, Some(done), again_self, again_function) == Err::<
                (ProposalInfo, ExecuteAction),
                Error,
            >(Error::AlreadyExecuted)
            &&& approve_result(signers, signer, Some(done), approved_before) == Err::<ProposalInfo, Error>(
                Error::AlreadyExecuted,
            )
            &&& cancel_result(Some(done)) == Err::<ProposalInfo, Error>(Error::AlreadyExecuted)
        },
        info.approval_count < threshold ==> execute_result(threshold, Some(info), is_self_call, function)
            == Err::<(ProposalInfo, ExecuteAction), Error>(Error::ThresholdNotMet),
{
}

/// A cancelled proposal can no longer be approved, and no longer executed
/// once it has enough approvals.
pub proof fn law_cancelled_proposals_stay_inert(
    signers: Seq<AccountId>,
    signer: Seq<u8>,
    threshold: u32,
    info: ProposalInfo,
    is_self_call: bool,
    function: Seq<char>,
    approved_before: bool,
)
    requires
        has_account(signers, signer),
    ensures
        cancel_result(Some(info)) matches Ok(c) ==> {
            &&& c.cancelled
            &&& approve_result(signers, signer, Some(c), approved_before) == Err::<ProposalInfo, Error>(
                Error::AlreadyCancelled,
            )
            &&& c.approval_count >= threshold ==> execute_result(threshold, Some(c), is_self_call, function)
                == Err::<(ProposalInfo, ExecuteAction), Error>(Error::AlreadyCancelled)
        },
{
}

} // verus!
