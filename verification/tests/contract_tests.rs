use sanctifier::account::AccountId;
use sanctifier::flashloan_token::{FlashloanError, FlashloanToken, MAX_FEE_BPS};
use sanctifier::governance::{
    Error as GovError, GovernanceConfig, GovernorContract, Proposal, ProposalState,
};
use sanctifier::multisig::{Error as MsError, ExecuteAction, MultisigWallet, ProposalInfo};
use sanctifier::proxy::{ProxyError, UupsProxy};
use sanctifier::shadowing_example::ShadowingExample;

fn acct(b: u8) -> AccountId {
    AccountId { bytes: vec![b; 4] }
}

// ── Shadowing example ─────────────────────────────────────────────────────

#[test]
fn test_shadowing_bug_demonstration() {
    let mut storage = ShadowingExample::empty();
    // The buggy version returns the OLD balance (0), not the new one (100)
    let result = storage.update_balance_buggy(100);
    assert_eq!(result, 0);
    // The correct version returns the new balance
    let result = storage.update_balance_correct(100);
    assert_eq!(result, 100);
}

#[test]
fn test_transaction_shadowing_bug() {
    let mut storage = ShadowingExample::empty();
    // Buggy version returns amount, not amount + fee
    let result = storage.process_transaction_buggy(100, 10);
    assert_eq!(result, 100);
    assert_eq!(storage.last_tx, Some(110));
    // Correct version returns the right total
    let result = storage.process_transaction_correct(100, 10);
    assert_eq!(result, 110);
}

#[test]
fn shadowing_other_examples() {
    let mut storage = ShadowingExample::empty();
    assert_eq!(storage.calculate_sum_buggy(5), 10);
    assert_eq!(storage.last_i, Some(100));
    assert_eq!(storage.calculate_sum_buggy(0), 0);
    assert_eq!(storage.handle_option_buggy(Some(7)), 7);
    assert_eq!(storage.opt_val, Some(7));
    assert_eq!(storage.handle_option_buggy(None), 42);
    assert_eq!(storage.opt_val, Some(7));
    assert_eq!(storage.process_transaction_correct(100, 0), 100);
    assert_eq!(storage.update_balance_buggy(5), 0);
    assert_eq!(storage.update_balance_buggy(9), 5);
    assert_eq!(storage.get_balance(), 9);
}

// ── Flashloan token ───────────────────────────────────────────────────────

#[test]
fn flashloan_lifecycle() {
    let mut t = FlashloanToken::empty();
    assert_eq!(t.fee_bps(), 9);
    assert_eq!(t.set_fee(10), Err(FlashloanError::NotInitialised));
    assert_eq!(t.initialize(acct(1), 101), Err(FlashloanError::FeeTooHigh));
    assert_eq!(t.initialize(acct(1), 30), Ok(()));
    assert_eq!(t.fee_bps(), 30);
    assert_eq!(t.stats(), (0, 0));
    // fee = 10_000 * 30 / 10_000 = 30
    let fee = t.flashloan(10_000).unwrap();
    assert_eq!(fee, 30);
    // re-entrancy is refused while the loan is open
    assert_eq!(t.flashloan(5), Err(FlashloanError::Locked));
    // repaying less than the fee fails
    assert_eq!(t.settle_flashloan(fee, 1_000, 1_029), Err(FlashloanError::InsufficientRepayment));
    assert_eq!(t.settle_flashloan(fee, 1_000, 1_031), Ok(31));
    assert_eq!(t.stats(), (31, 1));
    assert!(t.flashloan(1).is_ok());
}

#[test]
fn flashloan_refusals() {
    let mut t = FlashloanToken::empty();
    t.initialize(acct(2), MAX_FEE_BPS).unwrap();
    assert_eq!(t.set_fee(MAX_FEE_BPS + 1), Err(FlashloanError::FeeTooHigh));
    assert_eq!(t.flashloan(0), Err(FlashloanError::ZeroAmount));
    assert_eq!(t.flashloan(-5), Err(FlashloanError::ZeroAmount));
    t.set_paused(true).unwrap();
    assert!(t.is_paused());
    assert_eq!(t.flashloan(100), Err(FlashloanError::Paused));
    t.set_paused(false).unwrap();
    // a small loan rounds the fee down to zero
    assert_eq!(t.flashloan(99), Ok(0));
    assert_eq!(t.require_admin().unwrap().bytes, vec![2; 4]);
}

#[test]
fn flashloan_fees_saturate() {
    let mut t = FlashloanToken::empty();
    t.initialize(acct(3), 1).unwrap();
    t.total_fees = Some(i128::MAX - 1);
    t.total_loans = Some(u32::MAX);
    let fee = t.flashloan(10_000).unwrap();
    assert_eq!(fee, 1);
    assert_eq!(t.settle_flashloan(fee, 0, 10), Ok(10));
    assert_eq!(t.stats(), (i128::MAX, u32::MAX));
}

// ── UUPS proxy ────────────────────────────────────────────────────────────

#[test]
fn proxy_upgrade_and_admin_transfer() {
    let mut p = UupsProxy::empty();
    assert_eq!(p.version(), 0);
    assert!(p.admin().is_err());
    assert_eq!(p.upgrade(vec![9; 32]).err(), Some(ProxyError::NotInitialised));
    p.initialize(acct(1), vec![1; 32]).unwrap();
    assert_eq!(p.initialize(acct(2), vec![2; 32]), Err(ProxyError::AlreadyInitialised));
    assert_eq!(p.version(), 1);
    assert_eq!(p.upgrade(vec![7; 32]), Ok(2));
    assert_eq!(p.upgrade(vec![8; 32]), Ok(3));
    assert_eq!(p.version(), 3);
    assert_eq!(p.impl_hash().unwrap(), vec![8; 32]);
    assert_eq!(p.accept_admin().err(), Some(ProxyError::NoPendingTransfer));
    p.transfer_admin(acct(5)).unwrap();
    assert_eq!(p.pending_admin().unwrap().bytes, vec![5; 4]);
    assert_eq!(p.admin().unwrap().bytes, vec![1; 4]);
    assert_eq!(p.accept_admin().unwrap().bytes, vec![5; 4]);
    assert_eq!(p.admin().unwrap().bytes, vec![5; 4]);
    assert!(p.pending_admin().is_none());
}

// ── Multisig ──────────────────────────────────────────────────────────────

#[test]
fn multisig_threshold_rules() {
    assert_eq!(MultisigWallet::init(None, vec![acct(1), acct(2)], 0).err(), Some(MsError::InvalidThreshold));
    assert_eq!(MultisigWallet::init(None, vec![acct(1), acct(2)], 3).err(), Some(MsError::InvalidThreshold));
    let existing = MultisigWallet::init(None, vec![acct(1)], 1).unwrap();
    assert_eq!(
        MultisigWallet::init(Some(existing), vec![acct(1)], 1).err(),
        Some(MsError::AlreadyInitialized)
    );
    let mut w = MultisigWallet::init(None, vec![acct(1), acct(2)], 2).unwrap();
    assert_eq!(w.remove_signer(&acct(1)), Err(MsError::InvalidThreshold));
    assert_eq!(w.remove_signer(&acct(9)), Ok(()));
    w.add_signer(acct(3));
    w.add_signer(acct(3));
    assert_eq!(w.signers.len(), 3);
    assert_eq!(w.remove_signer(&acct(1)), Ok(()));
    assert_eq!(w.signers.len(), 2);
    assert_eq!(w.signers[0].bytes, vec![2; 4]);
    assert_eq!(w.set_threshold(3), Err(MsError::InvalidThreshold));
    assert_eq!(w.set_threshold(1), Ok(()));
    assert_eq!(w.threshold, 1);
}

#[test]
fn multisig_approve_and_execute() {
    let w = MultisigWallet::init(None, vec![acct(1), acct(2), acct(3)], 2).unwrap();
    let fresh = ProposalInfo { approval_count: 0, executed: false, cancelled: false };
    assert_eq!(MultisigWallet::propose(None), Some(fresh));
    let approved = ProposalInfo { approval_count: 1, executed: false, cancelled: false };
    assert_eq!(MultisigWallet::propose(Some(approved)), None);
    assert_eq!(w.approve(&acct(9), Some(fresh), false), Err(MsError::Unauthorized));
    assert_eq!(w.approve(&acct(1), None, false), Err(MsError::ProposalNotFound));
    let one = w.approve(&acct(1), Some(fresh), false).unwrap();
    assert_eq!(one.approval_count, 1);
    assert_eq!(w.approve(&acct(1), Some(one), true), Err(MsError::AlreadyApproved));
    assert_eq!(w.execute(Some(one), false, "transfer").err(), Some(MsError::ThresholdNotMet));
    let two = w.approve(&acct(2), Some(one), false).unwrap();
    let (done, action) = w.execute(Some(two), false, "transfer").unwrap();
    assert!(done.executed);
    assert_eq!(action, ExecuteAction::Invoke);
    assert_eq!(w.execute(Some(done), false, "transfer").err(), Some(MsError::AlreadyExecuted));
    assert_eq!(w.approve(&acct(3), Some(done), false), Err(MsError::AlreadyExecuted));
    assert_eq!(MultisigWallet::cancel(Some(done)), Err(MsError::AlreadyExecuted));
    assert_eq!(w.execute(Some(two), true, "add_signer").unwrap().1, ExecuteAction::AddSigner);
    assert_eq!(w.execute(Some(two), true, "remove_signer").unwrap().1, ExecuteAction::RemoveSigner);
    assert_eq!(w.execute(Some(two), true, "set_threshold").unwrap().1, ExecuteAction::SetThreshold);
    assert_eq!(w.execute(Some(two), true, "cancel").unwrap().1, ExecuteAction::Cancel);
    assert_eq!(w.execute(Some(two), true, "upgrade").err(), Some(MsError::InvalidArguments));
    let cancelled = MultisigWallet::cancel(Some(two)).unwrap();
    assert!(cancelled.cancelled);
    assert_eq!(w.execute(Some(cancelled), false, "transfer").err(), Some(MsError::AlreadyCancelled));
    assert_eq!(w.approve(&acct(3), Some(cancelled), false), Err(MsError::AlreadyCancelled));
}

// ── Governance ────────────────────────────────────────────────────────────

fn config() -> GovernanceConfig {
    GovernorContract::init(false, acct(10), acct(11), 400, 5001, 100, 10, 50).unwrap()
}

#[test]
fn governance_propose_and_vote() {
    assert_eq!(
        GovernorContract::init(true, acct(10), acct(11), 400, 5001, 100, 10, 50).err(),
        Some(GovError::AlreadyInitialized)
    );
    let c = config();
    assert_eq!(
        GovernorContract::propose(&c, acct(1), 49, None, 1000).err(),
        Some(GovError::ProposalThresholdNotMet)
    );
    let p = GovernorContract::propose(&c, acct(1), 50, Some(4), 1000).unwrap();
    assert_eq!(p.id, 5);
    assert_eq!(p.start_time, 1010);
    assert_eq!(p.end_time, 1110);
    assert_eq!(GovernorContract::state(Some(&p), 1000), Ok(Some(ProposalState::Pending)));
    assert_eq!(GovernorContract::state(Some(&p), 1010), Ok(Some(ProposalState::Active)));
    assert_eq!(GovernorContract::state(Some(&p), 1111), Ok(None));
    assert_eq!(GovernorContract::state(None, 1111), Err(GovError::ProposalNotFound));
    assert_eq!(GovernorContract::cast_vote(Some(clone(&p)), 1005, false, 10, 1).err(), Some(GovError::InvalidState));
    assert_eq!(GovernorContract::cast_vote(Some(clone(&p)), 1020, true, 10, 1).err(), Some(GovError::AlreadyVoted));
    assert_eq!(GovernorContract::cast_vote(Some(clone(&p)), 1020, false, 0, 1).err(), Some(GovError::Unauthorized));
    assert_eq!(GovernorContract::cast_vote(Some(clone(&p)), 1020, false, 5, 3).err(), Some(GovError::InvalidVote));
    let p = GovernorContract::cast_vote(Some(p), 1020, false, 60, 1).unwrap();
    let p = GovernorContract::cast_vote(Some(p), 1020, false, 40, 0).unwrap();
    let p = GovernorContract::cast_vote(Some(p), 1020, false, 7, 2).unwrap();
    assert_eq!((p.for_votes, p.against_votes, p.abstain_votes), (60, 40, 7));
}

fn clone(p: &Proposal) -> Proposal {
    Proposal {
        id: p.id,
        proposer: AccountId { bytes: p.proposer.bytes.clone() },
        start_time: p.start_time,
        end_time: p.end_time,
        for_votes: p.for_votes,
        against_votes: p.against_votes,
        abstain_votes: p.abstain_votes,
        executed: p.executed,
        canceled: p.canceled,
        queued: p.queued,
    }
}

#[test]
fn governance_tally_queue_execute() {
    let c = config();
    let mut p = GovernorContract::propose(&c, acct(1), 50, None, 0).unwrap();
    p.for_votes = 60;
    p.against_votes = 40;
    // 100 votes of a supply of 2_000 is 500 bps >= 400: quorum met; 60 % for
    assert_eq!(GovernorContract::tally(&p, &c, 2_000), ProposalState::Succeeded);
    // of a supply of 3_000 it is 333 bps: defeated
    assert_eq!(GovernorContract::tally(&p, &c, 3_000), ProposalState::Defeated);
    let mut split = clone(&p);
    split.for_votes = 50;
    split.against_votes = 50;
    assert_eq!(GovernorContract::tally(&split, &c, 100), ProposalState::Defeated);
    let mut abstain_only = clone(&p);
    abstain_only.for_votes = 0;
    abstain_only.against_votes = 0;
    abstain_only.abstain_votes = 500;
    assert_eq!(GovernorContract::tally(&abstain_only, &c, 1_000), ProposalState::Defeated);

    assert_eq!(GovernorContract::queue(Some(clone(&p)), ProposalState::Active).err(), Some(GovError::InvalidState));
    assert_eq!(GovernorContract::queue(None, ProposalState::Succeeded).err(), Some(GovError::ProposalNotFound));
    let q = GovernorContract::queue(Some(p), ProposalState::Succeeded).unwrap();
    assert!(q.queued);
    assert_eq!(GovernorContract::tally(&q, &c, 2_000), ProposalState::Queued);
    assert_eq!(GovernorContract::execute(Some(clone(&q)), ProposalState::Succeeded).err(), Some(GovError::InvalidState));
    let e = GovernorContract::execute(Some(q), ProposalState::Queued).unwrap();
    assert!(e.executed);
    assert_eq!(GovernorContract::state(Some(&e), 5_000), Ok(Some(ProposalState::Executed)));
    assert_eq!(GovernorContract::execute(Some(clone(&e)), ProposalState::Queued).err(), Some(GovError::InvalidState));
    let mut cancelled = clone(&e);
    cancelled.canceled = true;
    assert_eq!(GovernorContract::state(Some(&cancelled), 5_000), Ok(Some(ProposalState::Canceled)));
}

#[test]
fn governance_tally_rounds_toward_zero() {
    let c = GovernorContract::init(false, acct(10), acct(11), 1, 1, 100, 10, 50).unwrap();
    let mut p = GovernorContract::propose(&c, acct(1), 50, None, 0).unwrap();
    // negative weights can only come from a misbehaving token; the shares
    // then round toward zero as Rust's division does
    p.for_votes = -3;
    p.against_votes = 1;
    assert_eq!(GovernorContract::tally(&p, &c, 20_000), ProposalState::Defeated);
}
