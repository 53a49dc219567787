use escrow::{
    escrow_address, execute, fund, fund_at, initialize, refund, refund_at, release, release_at,
    Action, EscrowError, EscrowStore, Fund, Identity, Initialize, Refund, Release, FUNDED,
    REFUNDED, RELEASED, UNINITIALIZED,
};

fn program() -> Identity {
    Identity::new([7u8; 32])
}

fn provider() -> Identity {
    Identity::new([1u8; 32])
}

fn renter() -> Identity {
    Identity::new([2u8; 32])
}

fn stranger() -> Identity {
    Identity::new([3u8; 32])
}

fn address_of(p: &Identity) -> Identity {
    escrow_address(&program(), p).expect("an address exists")
}

fn fund_req(r: Identity, p: Identity) -> Fund {
    Fund { renter: r, provider: p, escrow: address_of(&p) }
}

fn release_req(r: Identity, p: Identity) -> Release {
    Release { renter: r, provider: p, escrow: address_of(&p) }
}

fn refund_req(s: Identity, p: Identity) -> Refund {
    Refund { signer: s, provider: p, escrow: address_of(&p) }
}

fn opened() -> EscrowStore {
    let mut store = EscrowStore::new(program());
    assert_eq!(initialize(&mut store, &Initialize { provider: provider() }, 1_700_000_000), Ok(()));
    store
}

#[test]
fn scenario_fund_then_release() {
    let mut store = EscrowStore::new(program());
    assert_eq!(initialize(&mut store, &Initialize { provider: provider() }, 42), Ok(()));
    let rec = store.get(&provider()).unwrap();
    assert_eq!(rec.provider, provider());
    assert_eq!(rec.renter, provider());
    assert_eq!(rec.amount, 0);
    assert_eq!(rec.state, 0);
    assert_eq!(rec.timestamp, 42);

    assert_eq!(fund(&mut store, &fund_req(renter(), provider()), 500), Ok(()));
    let rec = store.get(&provider()).unwrap();
    assert_eq!(rec.provider, provider());
    assert_eq!(rec.renter, renter());
    assert_eq!(rec.amount, 500);
    assert_eq!(rec.state, 1);

    assert_eq!(release(&mut store, &release_req(renter(), provider())), Ok(()));
    assert_eq!(store.get(&provider()).unwrap().state, 2);

    assert_eq!(
        release(&mut store, &release_req(renter(), provider())),
        Err(EscrowError::InvalidState)
    );
    assert_eq!(store.get(&provider()).unwrap().state, 2);
}

#[test]
fn scenario_fund_then_refund() {
    let mut store = opened();
    assert_eq!(fund(&mut store, &fund_req(renter(), provider()), 500), Ok(()));
    assert_eq!(refund(&mut store, &refund_req(provider(), provider())), Ok(()));
    let rec = store.get(&provider()).unwrap();
    assert_eq!(rec.state, 3);
    assert_eq!(rec.amount, 500);
    assert_eq!(rec.renter, renter());
}

#[test]
fn initialize_twice_is_refused() {
    let mut store = opened();
    let before = store.get(&provider()).unwrap();
    assert_eq!(
        initialize(&mut store, &Initialize { provider: provider() }, 99),
        Err(EscrowError::AlreadyExists)
    );
    assert_eq!(store.get(&provider()).unwrap(), before);
    assert_eq!(store.len(), 1);
}

#[test]
fn one_record_per_provider() {
    let mut store = opened();
    assert_eq!(initialize(&mut store, &Initialize { provider: renter() }, 5), Ok(()));
    assert_eq!(store.len(), 2);
    assert_eq!(store.get(&renter()).unwrap().provider, renter());
    assert_eq!(store.get(&provider()).unwrap().timestamp, 1_700_000_000);
    assert!(store.get(&stranger()).is_none());
}

#[test]
fn fund_without_record_is_not_found() {
    let mut store = EscrowStore::new(program());
    assert_eq!(
        fund(&mut store, &fund_req(renter(), provider()), 500),
        Err(EscrowError::RecordNotFound)
    );
    assert_eq!(store.len(), 0);
}

#[test]
fn fund_at_wrong_address_is_mismatch() {
    let mut store = opened();
    let req = Fund { renter: renter(), provider: provider(), escrow: stranger() };
    assert_eq!(fund(&mut store, &req, 500), Err(EscrowError::AddressMismatch));
    let other = Fund { renter: renter(), provider: provider(), escrow: address_of(&renter()) };
    assert_eq!(fund(&mut store, &other, 500), Err(EscrowError::AddressMismatch));
    assert_eq!(store.get(&provider()).unwrap().state, UNINITIALIZED);
}

#[test]
fn fund_at_takes_the_derived_address() {
    let mut store = opened();
    let req = Fund { renter: renter(), provider: provider(), escrow: stranger() };
    assert_eq!(fund_at(&mut store, &req, &None, 5), Err(EscrowError::AddressMismatch));
    assert_eq!(fund_at(&mut store, &req, &Some(stranger()), 5), Ok(()));
    assert_eq!(store.get(&provider()).unwrap().amount, 5);
}

#[test]
fn fund_twice_is_invalid_state() {
    let mut store = opened();
    assert_eq!(fund(&mut store, &fund_req(renter(), provider()), 500), Ok(()));
    assert_eq!(
        fund(&mut store, &fund_req(stranger(), provider()), 900),
        Err(EscrowError::InvalidState)
    );
    let rec = store.get(&provider()).unwrap();
    assert_eq!(rec.renter, renter());
    assert_eq!(rec.amount, 500);
}

#[test]
fn fund_with_zero_amount() {
    let mut store = opened();
    assert_eq!(fund(&mut store, &fund_req(renter(), provider()), 0), Ok(()));
    assert_eq!(store.get(&provider()).unwrap().state, FUNDED);
    assert_eq!(store.get(&provider()).unwrap().amount, 0);
}

#[test]
fn fund_with_largest_amount() {
    let mut store = opened();
    assert_eq!(fund(&mut store, &fund_req(renter(), provider()), u64::MAX), Ok(()));
    assert_eq!(store.get(&provider()).unwrap().amount, u64::MAX);
}

#[test]
fn release_by_stranger_is_unauthorized() {
    let mut store = opened();
    assert_eq!(fund(&mut store, &fund_req(renter(), provider()), 500), Ok(()));
    assert_eq!(
        release(&mut store, &release_req(stranger(), provider())),
        Err(EscrowError::Unauthorized)
    );
    assert_eq!(store.get(&provider()).unwrap().state, FUNDED);
}

#[test]
fn release_before_funding_is_invalid_state() {
    let mut store = opened();
    // Before funding the renter is the provider itself.
    assert_eq!(
        release(&mut store, &release_req(provider(), provider())),
        Err(EscrowError::InvalidState)
    );
    assert_eq!(
        release(&mut store, &release_req(renter(), provider())),
        Err(EscrowError::Unauthorized)
    );
    assert_eq!(store.get(&provider()).unwrap().state, UNINITIALIZED);
}

#[test]
fn release_without_record_is_not_found() {
    let mut store = EscrowStore::new(program());
    assert_eq!(
        release(&mut store, &release_req(renter(), provider())),
        Err(EscrowError::RecordNotFound)
    );
}

#[test]
fn release_at_wrong_address_is_mismatch() {
    let mut store = opened();
    assert_eq!(fund(&mut store, &fund_req(renter(), provider()), 500), Ok(()));
    let req = Release { renter: renter(), provider: provider(), escrow: stranger() };
    assert_eq!(release(&mut store, &req), Err(EscrowError::AddressMismatch));
    assert_eq!(release_at(&mut store, &req, &Some(stranger())), Ok(()));
    assert_eq!(store.get(&provider()).unwrap().state, RELEASED);
}

#[test]
fn refund_twice_is_invalid_state() {
    let mut store = opened();
    assert_eq!(fund(&mut store, &fund_req(renter(), provider()), 500), Ok(()));
    assert_eq!(refund(&mut store, &refund_req(provider(), provider())), Ok(()));
    assert_eq!(
        refund(&mut store, &refund_req(provider(), provider())),
        Err(EscrowError::InvalidState)
    );
    assert_eq!(store.get(&provider()).unwrap().state, REFUNDED);
}

#[test]
fn refund_by_any_signer() {
    let mut store = opened();
    assert_eq!(fund(&mut store, &fund_req(renter(), provider()), 500), Ok(()));
    assert_eq!(refund(&mut store, &refund_req(stranger(), provider())), Ok(()));
    assert_eq!(store.get(&provider()).unwrap().state, REFUNDED);
}

#[test]
fn refund_before_funding_is_invalid_state() {
    let mut store = opened();
    assert_eq!(
        refund(&mut store, &refund_req(provider(), provider())),
        Err(EscrowError::InvalidState)
    );
}

#[test]
fn refund_without_record_and_at_wrong_address() {
    let mut store = EscrowStore::new(program());
    assert_eq!(
        refund(&mut store, &refund_req(provider(), provider())),
        Err(EscrowError::RecordNotFound)
    );
    let req = Refund { signer: provider(), provider: provider(), escrow: stranger() };
    assert_eq!(refund(&mut store, &req), Err(EscrowError::AddressMismatch));
    assert_eq!(refund_at(&mut store, &req, &Some(stranger())), Err(EscrowError::RecordNotFound));
}

#[test]
fn terminal_states_accept_nothing() {
    let mut store = opened();
    assert_eq!(fund(&mut store, &fund_req(renter(), provider()), 500), Ok(()));
    assert_eq!(release(&mut store, &release_req(renter(), provider())), Ok(()));
    assert_eq!(
        refund(&mut store, &refund_req(provider(), provider())),
        Err(EscrowError::InvalidState)
    );
    assert_eq!(
        fund(&mut store, &fund_req(renter(), provider()), 1),
        Err(EscrowError::InvalidState)
    );
    let rec = store.get(&provider()).unwrap();
    assert_eq!(rec.state, RELEASED);
    assert_eq!(rec.amount, 500);
}

#[test]
fn states_only_increase_along_a_sequence() {
    let mut store = EscrowStore::new(program());
    let actions = vec![
        Action::Initialize(Initialize { provider: provider() }, 10),
        Action::Release(release_req(provider(), provider())),
        Action::Fund(fund_req(renter(), provider()), 500),
        Action::Fund(fund_req(renter(), provider()), 600),
        Action::Refund(refund_req(provider(), provider())),
        Action::Release(release_req(renter(), provider())),
        Action::Initialize(Initialize { provider: provider() }, 20),
    ];
    let mut last: u8 = 0;
    for a in actions.iter() {
        let _ = execute(&mut store, a);
        let state = store.get(&provider()).unwrap().state;
        assert!(state >= last);
        assert!(state <= 3);
        last = state;
    }
    assert_eq!(last, REFUNDED);
    assert_eq!(store.get(&provider()).unwrap().amount, 500);
}

#[test]
fn derived_address_is_stable_and_distinct() {
    let a = escrow_address(&program(), &provider()).unwrap();
    let b = escrow_address(&program(), &provider()).unwrap();
    assert_eq!(a, b);
    assert_ne!(a, provider());
    assert_ne!(a, program());
    let c = escrow_address(&program(), &renter()).unwrap();
    assert_ne!(a, c);
    let d = escrow_address(&Identity::new([8u8; 32]), &provider()).unwrap();
    assert_ne!(a, d);
}

#[test]
fn identity_comparison() {
    assert!(provider().same_as(&Identity::new([1u8; 32])));
    let mut bytes = [1u8; 32];
    bytes[31] = 0;
    assert!(!provider().same_as(&Identity::new(bytes)));
    assert_eq!(program().bytes, [7u8; 32]);
    assert_eq!(EscrowStore::new(program()).program_id(), program());
}
