//! UUPS upgradeability: the contract that owns its storage also holds the
//! logic that replaces its own code.
//!
//! Security invariants:
//! 1. Only the designated admin can upgrade or nominate a new admin.
//! 2. An upgrade emits an event so watchers can detect the code replacement.
//! 3. A two-step admin transfer (nominate, then accept) prevents accidental
//!    ownership loss.
//! 4. The version counter increases with every upgrade, preventing
//!    rollbacks.
//!
//! The contract's storage is `UupsProxy`; replacing the code, authorisation
//! and events are the host's work around each transition.
use vstd::prelude::*;
use crate::account::AccountId;

verus! {

/// Why a proxy operation fails.
#[derive(Clone, Copy, Debug, PartialEq, Eq, Structural)]
pub enum ProxyError {
    /// Contract has not been initialised.
    NotInitialised,
    /// Caller is not the admin.
    Unauthorized,
    /// No pending admin transfer is in flight.
    NoPendingTransfer,
    /// Attempted to downgrade (new version <= current version).
    Downgrade,
    /// Contract is already initialised.
    AlreadyInitialised,
}

/// The contract's storage entries (absent ones are `None`).
pub struct UupsProxy {
    /// Set once the contract is initialised.
    pub initialised: Option<bool>,
    /// Contract administrator.
    pub admin: Option<AccountId>,
    /// Nominated admin of a two-step transfer.
    pub pending_admin: Option<AccountId>,
    /// Upgrade counter.
    pub version: Option<u32>,
    /// SHA-256 hash of the code in force (32 bytes).
    pub impl_hash: Option<Vec<u8>>,
}

/// The storage as plain values.
pub struct ProxyState {
    pub initialised: Option<bool>,
    pub admin: Option<Seq<u8>>,
    pub pending_admin: Option<Seq<u8>>,
    pub version: Option<u32>,
    pub impl_hash: Option<Seq<u8>>,
}

/// The plain value of an optional address.
pub open spec fn opt_account(a: Option<AccountId>) -> Option<Seq<u8>> {
    match a {
        Some(x) => Some(x@),
        None => None,
    }
}

impl View for UupsProxy {
    type V = ProxyState;

    open spec fn view(&self) -> ProxyState {
        ProxyState {
            initialised: self.initialised,
            admin: opt_account(self.admin),
            pending_admin: opt_account(self.pending_admin),
            version: self.version,
            impl_hash: match self.impl_hash {
                Some(h) => Some(h@),
                None => None,
            },
        }
    }
}

/// The version counter as `upgrade` reads it (1 when none is stored).
pub open spec fn upgrade_base_version(s: ProxyState) -> u32 {
    match s.version {
        Some(v) => v,
        None => 1,
    }
}

/// The version counter as `version` reports it (0 when none is stored).
pub open spec fn reported_version(s: ProxyState) -> u32 {
    match s.version {
        Some(v) => v,
        None => 0,
    }
}

/// The state after `initialize`, or the error.
pub open spec fn initialize_result(s: ProxyState, admin: Seq<u8>, impl_hash: Seq<u8>) -> Result<
    ProxyState,
    ProxyError,
> {
    if s.initialised is Some {
        Err(ProxyError::AlreadyInitialised)
    } else {
        Ok(
            ProxyState {
                initialised: Some(true),
                admin: Some(admin),
                version: Some(1),
                impl_hash: Some(impl_hash),
                ..s
            },
        )
    }
}

/// The state after `upgrade` to the code with hash `new_wasm`, or the
/// error.
pub open spec fn upgrade_result(s: ProxyState, new_wasm: Seq<u8>) -> Result<ProxyState, ProxyError> {
    if s.admin is None {
        Err(ProxyError::NotInitialised)
    } else {
        Ok(
            ProxyState {
                version: Some((upgrade_base_version(s) + 1) as u32),
                impl_hash: Some(new_wasm),
                ..s
            },
        )
    }
}

/// The state after `transfer_admin` nominates `new_admin`, or the error.
pub open spec fn transfer_admin_result(s: ProxyState, new_admin: Seq<u8>) -> Result<ProxyState, ProxyError> {
    if s.admin is None {
        Err(ProxyError::NotInitialised)
    } else {
        Ok(ProxyState { pending_admin: Some(new_admin), ..s })
    }
}

/// The state after the nominee accepts, or the error.
pub open spec fn accept_admin_result(s: ProxyState) -> Result<ProxyState, ProxyError> {
    match s.pending_admin {
        Some(p) => Ok(ProxyState { admin: Some(p), pending_admin: None, ..s }),
        None => Err(ProxyError::NoPendingTransfer),
    }
}

impl UupsProxy {
    /// Storage of a contract that was never initialised.
    pub fn empty() -> (r: Self)
        ensures
            r@ == (ProxyState {
                initialised: None,
                admin: None,
                pending_admin: None,
                version: None,
                impl_hash: None,
            }),
    {
        UupsProxy { initialised: None, admin: None, pending_admin: None, version: None, impl_hash: None }
    }

    /// Initialise the proxy with its admin and the hash of the initial code.
    /// Can only be called once.
    pub fn initialize(&mut self, admin: AccountId, impl_hash: Vec<u8>) -> (r: Result<(), ProxyError>)
        ensures
            match initialize_result(old(self)@, admin@, impl_hash@) {
                Ok(s) => r is Ok && final(self)@ == s,
                Err(e) => r == Err::<(), ProxyError>(e) && final(self)@ == old(self)@,
            },
    {
        if self.initialised.is_some() {
            return Err(ProxyError::AlreadyInitialised);
        }
        self.initialised = Some(true);
        self.admin = Some(admin);
        self.version = Some(1);
        self.impl_hash = Some(impl_hash);
        Ok(())
    }

    /// The admin who must authorise an admin operation.
    pub fn require_admin(&self) -> (r: Result<AccountId, ProxyError>)
        ensures
            match self.admin {
                Some(a) => r matches Ok(x) && x@ == a@,
                None => r == Err::<AccountId, ProxyError>(ProxyError::NotInitialised),
            },
    {
        match &self.admin {
            Some(a) => Ok(a.duplicate()),
            None => Err(ProxyError::NotInitialised),
        }
    }

    /// Record an upgrade to the code whose hash is `new_wasm`: the version
    /// goes up by one. Only the admin may call it; the caller replaces the
    /// code. (The caller aborts with "version overflow" when the counter is
    /// at its maximum.)
    pub fn upgrade(&mut self, new_wasm: Vec<u8>) -> (r: Result<u32, ProxyError>)
        requires
            old(self).admin is Some ==> upgrade_base_version(old(self)@) < u32::MAX,
        ensures
            match upgrade_result(old(self)@, new_wasm@) {
                Ok(s) => r == Ok::<u32, ProxyError>(s.version->0) && final(self)@ == s,
                Err(e) => r == Err::<u32, ProxyError>(e) && final(self)@ == old(self)@,
            },
    {
        let _admin = self.require_admin()?;
        let current_version: u32 = match self.version {
            Some(v) => v,
            None => 1,
        };
        let next_version = current_version + 1;
        self.version = Some(next_version);
        self.impl_hash = Some(new_wasm);
        Ok(next_version)
    }

    /// Step 1: the current admin nominates `new_admin`.
    pub fn transfer_admin(&mut self, new_admin: AccountId) -> (r: Result<(), ProxyError>)
        ensures
            match transfer_admin_result(old(self)@, new_admin@) {
                Ok(s) => r is Ok && final(self)@ == s,
                Err(e) => r == Err::<(), ProxyError>(e) && final(self)@ == old(self)@,
            },
    {
        let _admin = self.require_admin()?;
        self.pending_admin = Some(new_admin);
        Ok(())
    }

    /// Step 2: the nominee accepts; it becomes the admin and the nomination
    /// is cleared. Returns the new admin, who must authorise the call.
    pub fn accept_admin(&mut self) -> (r: Result<AccountId, ProxyError>)
        ensures
            match accept_admin_result(old(self)@) {
                Ok(s) => r matches Ok(a) && Some(a@) == s.admin && final(self)@ == s,
                Err(e) => r == Err::<AccountId, ProxyError>(e) && final(self)@ == old(self)@,
            },
    {
        let pending = match self.pending_admin.take() {
            Some(p) => p,
            None => return Err(ProxyError::NoPendingTransfer),
        };
        let result = pending.duplicate();
        self.admin = Some(pending);
        Ok(result)
    }

    /// Returns the current admin address.
    pub fn admin(&self) -> (r: Result<AccountId, ProxyError>)
        ensures
            match self.admin {
                Some(a) => r matches Ok(x) && x@ == a@,
                None => r == Err::<AccountId, ProxyError>(ProxyError::NotInitialised),
            },
    {
        self.require_admin()
    }

    /// Returns the pending admin address, if any.
    pub fn pending_admin(&self) -> (r: Option<AccountId>)
        ensures
            opt_account(r) == self@.pending_admin,
    {
        match &self.pending_admin {
            Some(p) => Some(p.duplicate()),
            None => None,
        }
    }

    /// Returns the current upgrade version counter.
    pub fn version(&self) -> (r: u32)
        ensures
            r == reported_version(self@),
    {
        match self.version {
            Some(v) => v,
            None => 0,
        }
    }

    /// Returns the hash of the code in force.
    pub fn impl_hash(&self) -> (r: Result<Vec<u8>, ProxyError>)
        ensures
            match self.impl_hash {
                Some(h) => r matches Ok(x) && x@ == h@,
                None => r == Err::<Vec<u8>, ProxyError>(ProxyError::NotInitialised),
            },
    {
        match &self.impl_hash {
            Some(h) => Ok(h.clone()),
            None => Err(ProxyError::NotInitialised),
        }
    }
}

/// Property: the version counter is monotonically increasing across
/// upgrades; an upgrade from below the maximum yields a larger version.
pub proof fn verify_version_increases(before: u32)
    requires
        before < u32::MAX,
    ensures
        before + 1 > before,
        (before + 1) as u32 > before,
{
}

/// Every upgrade raises the version reported by `version` (an upgrade of a
/// contract with no stored counter yields version 2, above the reported 0),
/// and records the new code's hash.
pub proof fn law_upgrades_increase_the_version(s: ProxyState, new_wasm: Seq<u8>)
    requires
        upgrade_base_version(s) < u32::MAX,
    ensures
        upgrade_result(s, new_wasm) matches Ok(t) ==> {
            &&& reported_version(t) > reported_version(s)
            &&& reported_version(t) == upgrade_base_version(s) + 1
            &&& t.impl_hash == Some(new_wasm)
            &&& t.admin == s.admin
        },
{
}

/// Two-step transfer: after the admin nominates `new_admin` and the nominee
/// accepts, `new_admin` is the admin and no nomination is pending; without a
/// nomination, acceptance fails and changes nothing.
pub proof fn law_two_step_admin_transfer(s: ProxyState, new_admin: Seq<u8>)
    ensures
        transfer_admin_result(s, new_admin) matches Ok(t) ==> {
            &&& t.admin == s.admin
            &&& accept_admin_result(t) matches Ok(u) && u.admin == Some(new_admin) && u.pending_admin
                is None
        },
        s.pending_admin is None ==> accept_admin_result(s) == Err::<ProxyState, ProxyError>(
            ProxyError::NoPendingTransfer,
        ),
{
}

/// An operation on the proxy, as the transitions above apply it.
pub enum ProxyOp {
    Initialize { admin: Seq<u8>, impl_hash: Seq<u8> },
    Upgrade { new_wasm: Seq<u8> },
    TransferAdmin { new_admin: Seq<u8> },
    AcceptAdmin,
}

/// The state after `op`; a refused operation changes nothing.
pub open spec fn apply_op(s: ProxyState, op: ProxyOp) -> ProxyState {
    let r = match op {
        ProxyOp::Initialize { admin, impl_hash } => initialize_result(s, admin, impl_hash),
        ProxyOp::Upgrade { new_wasm } => upgrade_result(s, new_wasm),
        ProxyOp::TransferAdmin { new_admin } => transfer_admin_result(s, new_admin),
        ProxyOp::AcceptAdmin => accept_admin_result(s),
    };
    match r {
        Ok(t) => t,
        Err(_) => s,
    }
}

/// The state after the operations, in order.
pub open spec fn run_ops(s: ProxyState, ops: Seq<ProxyOp>) -> ProxyState
    decreases ops.len(),
{
    if ops.len() == 0 {
        s
    } else {
        run_ops(apply_op(s, ops[0]), ops.drop_first())
    }
}

/// Two-step transfer under any interleaving: once the admin of an
/// initialised contract nominates `new_admin`, whatever initialisations
/// and upgrades follow, the admin stays the same and the nomination stays
/// pending; acceptance then makes `new_admin` the admin and clears the
/// nomination.
pub proof fn law_nomination_persists_until_accepted(s: ProxyState, new_admin: Seq<u8>, ops: Seq<ProxyOp>)
    requires
        s.initialised is Some,
        transfer_admin_result(s, new_admin) is Ok,
        forall|i: int| 0 <= i < ops.len() ==> (#[trigger] ops[i] is Initialize || ops[i] is Upgrade),
    ensures
        ({
            let t = run_ops(transfer_admin_result(s, new_admin)->Ok_0, ops);
            &&& t.admin == s.admin
            &&& t.pending_admin == Some(new_admin)
            &&& t.initialised is Some
            &&& accept_admin_result(t) matches Ok(u) && u.admin == Some(new_admin) && u.pending_admin is None
        }),
    decreases ops.len(),
{
    lemma_other_ops_keep_admin(transfer_admin_result(s, new_admin)->Ok_0, ops);
}

/// Initialisations and upgrades of an initialised contract keep its admin
/// and its pending nomination.
proof fn lemma_other_ops_keep_admin(s: ProxyState, ops: Seq<ProxyOp>)
    requires
        s.initialised is Some,
        s.admin is Some,
        forall|i: int| 0 <= i < ops.len() ==> (#[trigger] ops[i] is Initialize || ops[i] is Upgrade),
    ensures
        run_ops(s, ops).admin == s.admin,
        run_ops(s, ops).pending_admin == s.pending_admin,
        run_ops(s, ops).initialised is Some,
    decreases ops.len(),
{
    if ops.len() > 0 {
        let t = apply_op(s, ops[0]);
        assert(ops[0] is Initialize || ops[0] is Upgrade);
        assert forall|i: int| 0 <= i < ops.drop_first().len() implies (#[trigger] ops.drop_first()[i] is Initialize
            || ops.drop_first()[i] is Upgrade) by {
            assert(ops.drop_first()[i] == ops[i + 1]);
        }
        lemma_other_ops_keep_admin(t, ops.drop_first());
    }
}

/// The contract can be initialised once only.
pub proof fn law_initialise_once(s: ProxyState, admin: Seq<u8>, hash: Seq<u8>, admin2: Seq<u8>, hash2: Seq<u8>)
    ensures
        initialize_result(s, admin, hash) matches Ok(t) ==> initialize_result(t, admin2, hash2)
            == Err::<ProxyState, ProxyError>(ProxyError::AlreadyInitialised),
        initialize_result(s, admin, hash) matches Ok(t) ==> reported_version(t) == 1,
{
}

} // verus!
