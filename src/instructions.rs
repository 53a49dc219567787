use crate::directory::{escrow_address, escrow_address_of, opt_view};
use crate::identity::Identity;
use crate::store::{records_wf, Escrow, EscrowStore, FUNDED, REFUNDED, RELEASED, UNINITIALIZED};
use vstd::prelude::*;

verus! {

/// Why a transition was rejected. A rejected transition changes nothing.
#[derive(Clone, Copy, Debug, PartialEq, Eq, Structural)]
pub enum EscrowError {
    /// The provider already has a record.
    AlreadyExists,
    /// The provider has no record.
    RecordNotFound,
    /// The named record address is not the one derived for the provider.
    AddressMismatch,
    /// The caller does not hold the role the transition asks for.
    Unauthorized,
    /// The record is not in the state the transition starts from.
    InvalidState,
}

/// A request to open a record for `provider`, who signs it.
#[derive(Clone, Copy, Debug)]
pub struct Initialize {
    pub provider: Identity,
}

/// A request by `renter`, who signs it, to fund the record of `provider`
/// found at address `escrow`.
#[derive(Clone, Copy, Debug)]
pub struct Fund {
    pub renter: Identity,
    pub provider: Identity,
    pub escrow: Identity,
}

/// A request by `renter`, who signs it, to release the record of `provider`
/// found at address `escrow`.
#[derive(Clone, Copy, Debug)]
pub struct Release {
    pub renter: Identity,
    pub provider: Identity,
    pub escrow: Identity,
}

/// A request by `signer` to refund the record of `provider` found at address
/// `escrow`. Any signer may ask.
#[derive(Clone, Copy, Debug)]
pub struct Refund {
    pub signer: Identity,
    pub provider: Identity,
    pub escrow: Identity,
}

/// One transition request, with what it carries besides its accounts.
#[derive(Clone, Copy, Debug)]
pub enum Action {
    /// Open a record created at the given time.
    Initialize(Initialize, i64),
    /// Fund a record with the given amount.
    Fund(Fund, u64),
    Release(Release),
    Refund(Refund),
}

/// The outcome of a transition and the records after it.
pub type Step = (Result<(), EscrowError>, Map<Seq<u8>, Escrow>);

/// Opening a record: refused where the provider has one, else a fresh
/// record whose renter is the provider itself.
pub open spec fn initialize_step(m: Map<Seq<u8>, Escrow>, a: Initialize, timestamp: i64) -> Step {
    if m.contains_key(a.provider@) {
        (Err(EscrowError::AlreadyExists), m)
    } else {
        (
            Ok(()),
            m.insert(
                a.provider@,
                Escrow {
                    provider: a.provider,
                    renter: a.provider,
                    amount: 0,
                    state: UNINITIALIZED,
                    timestamp,
                },
            ),
        )
    }
}

/// The checks that every transition on an existing record makes first: the
/// named address is the derived one, and the record exists.
pub open spec fn locate_error(
    m: Map<Seq<u8>, Escrow>,
    provider: Identity,
    escrow: Identity,
    derived: Option<Seq<u8>>,
) -> Option<EscrowError> {
    if derived != Some(escrow@) {
        Some(EscrowError::AddressMismatch)
    } else if !m.contains_key(provider@) {
        Some(EscrowError::RecordNotFound)
    } else {
        None
    }
}

/// Funding: from an uninitialized record, binds the renter and the amount.
/// `derived` is the address derived for the provider.
pub open spec fn fund_step(m: Map<Seq<u8>, Escrow>, a: Fund, derived: Option<Seq<u8>>, amount: u64) -> Step {
    match locate_error(m, a.provider, a.escrow, derived) {
        Some(e) => (Err(e), m),
        None => if m[a.provider@].state != UNINITIALIZED {
            (Err(EscrowError::InvalidState), m)
        } else {
            (Ok(()), m.insert(a.provider@, Escrow { renter: a.renter, amount, state: FUNDED, ..m[a.provider@] }))
        },
    }
}

/// Releasing: only the bound renter, only from a funded record.
pub open spec fn release_step(m: Map<Seq<u8>, Escrow>, a: Release, derived: Option<Seq<u8>>) -> Step {
    match locate_error(m, a.provider, a.escrow, derived) {
        Some(e) => (Err(e), m),
        None => if a.renter@ != m[a.provider@].renter@ {
            (Err(EscrowError::Unauthorized), m)
        } else if m[a.provider@].state != FUNDED {
            (Err(EscrowError::InvalidState), m)
        } else {
            (Ok(()), m.insert(a.provider@, Escrow { state: RELEASED, ..m[a.provider@] }))
        },
    }
}

/// Refunding: any signer, only from a funded record.
pub open spec fn refund_step(m: Map<Seq<u8>, Escrow>, a: Refund, derived: Option<Seq<u8>>) -> Step {
    match locate_error(m, a.provider, a.escrow, derived) {
        Some(e) => (Err(e), m),
        None => if m[a.provider@].state != FUNDED {
            (Err(EscrowError::InvalidState), m)
        } else {
            (Ok(()), m.insert(a.provider@, Escrow { state: REFUNDED, ..m[a.provider@] }))
        },
    }
}

/// What `action` does to the records `m` of a store whose addresses are
/// derived under `program`.
pub open spec fn action_step(program: Seq<u8>, m: Map<Seq<u8>, Escrow>, action: Action) -> Step {
    match action {
        Action::Initialize(a, timestamp) => initialize_step(m, a, timestamp),
        Action::Fund(a, amount) => fund_step(m, a, escrow_address_of(program, a.provider@), amount),
        Action::Release(a) => release_step(m, a, escrow_address_of(program, a.provider@)),
        Action::Refund(a) => refund_step(m, a, escrow_address_of(program, a.provider@)),
    }
}

/// The records after `actions` are applied in order, rejected ones included.
pub open spec fn run(program: Seq<u8>, m: Map<Seq<u8>, Escrow>, actions: Seq<Action>) -> Map<Seq<u8>, Escrow>
    decreases actions.len(),
{
    if actions.len() == 0 {
        m
    } else {
        run(program, action_step(program, m, actions[0]).1, actions.drop_first())
    }
}

/// Opens the record of `accounts.provider`, created at `timestamp`.
pub fn initialize(store: &mut EscrowStore, accounts: &Initialize, timestamp: i64) -> (r: Result<(), EscrowError>)
    requires
        old(store).wf(),
    ensures
        final(store).wf(),
        final(store).program() == old(store).program(),
        (r, final(store)@) == initialize_step(old(store)@, *accounts, timestamp),
{
    if store.get(&accounts.provider).is_some() {
        return Err(EscrowError::AlreadyExists);
    }
    let record = Escrow {
        provider: accounts.provider,
        renter: accounts.provider,
        amount: 0,
        state: UNINITIALIZED,
        timestamp,
    };
    store.insert(record);
    Ok(())
}

/// Finds the record a transition works on, after checking its address
/// against `derived`.
fn locate(store: &EscrowStore, provider: &Identity, escrow: &Identity, derived: &Option<Identity>) -> (r: Result<Escrow, EscrowError>)
    requires
        store.wf(),
    ensures
        match locate_error(store@, *provider, *escrow, opt_view(*derived)) {
            Some(e) => r == Err::<Escrow, EscrowError>(e),
            None => r == Ok::<Escrow, EscrowError>(store@[provider@]),
        },
        records_wf(store@),
{
    proof { store.lemma_records_wf(); }
    let matches = match derived {
        Some(d) => d.same_as(escrow),
        None => false,
    };
    if !matches {
        return Err(EscrowError::AddressMismatch);
    }
    match store.get(provider) {
        Some(record) => Ok(record),
        None => Err(EscrowError::RecordNotFound),
    }
}

/// Funds the record of `accounts.provider` with `amount`, given the address
/// `derived` for that provider.
pub fn fund_at(store: &mut EscrowStore, accounts: &Fund, derived: &Option<Identity>, amount: u64) -> (r: Result<(), EscrowError>)
    requires
        old(store).wf(),
    ensures
        final(store).wf(),
        final(store).program() == old(store).program(),
        (r, final(store)@) == fund_step(old(store)@, *accounts, opt_view(*derived), amount),
{
    let record = match locate(store, &accounts.provider, &accounts.escrow, derived) {
        Ok(record) => record,
        Err(e) => { return Err(e); },
    };
    if record.state != UNINITIALIZED {
        return Err(EscrowError::InvalidState);
    }
    store.update(Escrow { renter: accounts.renter, amount, state: FUNDED, ..record });
    Ok(())
}

/// Funds the record of `accounts.provider` with `amount`.
pub fn fund(store: &mut EscrowStore, accounts: &Fund, amount: u64) -> (r: Result<(), EscrowError>)
    requires
        old(store).wf(),
    ensures
        final(store).wf(),
        final(store).program() == old(store).program(),
        (r, final(store)@) == fund_step(
            old(store)@,
            *accounts,
            escrow_address_of(old(store).program()@, accounts.provider@),
            amount,
        ),
{
    let derived = escrow_address(&store.program_id(), &accounts.provider);
    fund_at(store, accounts, &derived, amount)
}

/// Releases the record of `accounts.provider`, given the address `derived`
/// for that provider.
pub fn release_at(store: &mut EscrowStore, accounts: &Release, derived: &Option<Identity>) -> (r: Result<(), EscrowError>)
    requires
        old(store).wf(),
    ensures
        final(store).wf(),
        final(store).program() == old(store).program(),
        (r, final(store)@) == release_step(old(store)@, *accounts, opt_view(*derived)),
{
    let record = match locate(store, &accounts.provider, &accounts.escrow, derived) {
        Ok(record) => record,
        Err(e) => { return Err(e); },
    };
    if !accounts.renter.same_as(&record.renter) {
        return Err(EscrowError::Unauthorized);
    }
    if record.state != FUNDED {
        return Err(EscrowError::InvalidState);
    }
    store.update(Escrow { state: RELEASED, ..record });
    Ok(())
}

/// Releases the record of `accounts.provider`.
pub fn release(store: &mut EscrowStore, accounts: &Release) -> (r: Result<(), EscrowError>)
    requires
        old(store).wf(),
    ensures
        final(store).wf(),
        final(store).program() == old(store).program(),
        (r, final(store)@) == release_step(
            old(store)@,
            *accounts,
            escrow_address_of(old(store).program()@, accounts.provider@),
        ),
{
    let derived = escrow_address(&store.program_id(), &accounts.provider);
    release_at(store, accounts, &derived)
}

/// Refunds the record of `accounts.provider`, given the address `derived`
/// for that provider.
pub fn refund_at(store: &mut EscrowStore, accounts: &Refund, derived: &Option<Identity>) -> (r: Result<(), EscrowError>)
    requires
        old(store).wf(),
    ensures
        final(store).wf(),
        final(store).program() == old(store).program(),
        (r, final(store)@) == refund_step(old(store)@, *accounts, opt_view(*derived)),
{
    let record = match locate(store, &accounts.provider, &accounts.escrow, derived) {
        Ok(record) => record,
        Err(e) => { return Err(e); },
    };
    if record.state != FUNDED {
        return Err(EscrowError::InvalidState);
    }
    store.update(Escrow { state: REFUNDED, ..record });
    Ok(())
}

/// Refunds the record of `accounts.provider`.
pub fn refund(store: &mut EscrowStore, accounts: &Refund) -> (r: Result<(), EscrowError>)
    requires
        old(store).wf(),
    ensures
        final(store).wf(),
        final(store).program() == old(store).program(),
        (r, final(store)@) == refund_step(
            old(store)@,
            *accounts,
            escrow_address_of(old(store).program()@, accounts.provider@),
        ),
{
    let derived = escrow_address(&store.program_id(), &accounts.provider);
    refund_at(store, accounts, &derived)
}

} // verus!

verus! {

/// Carries out one transition request.
pub fn execute(store: &mut EscrowStore, action: &Action) -> (r: Result<(), EscrowError>)
    requires
        old(store).wf(),
    ensures
        final(store).wf(),
        final(store).program() == old(store).program(),
        (r, final(store)@) == action_step(old(store).program()@, old(store)@, *action),
{
    match action {
        Action::Initialize(a, timestamp) => initialize(store, a, *timestamp),
        Action::Fund(a, amount) => fund(store, a, *amount),
        Action::Release(a) => release(store, a),
        Action::Refund(a) => refund(store, a),
    }
}

} // verus!
