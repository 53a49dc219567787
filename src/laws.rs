use crate::instructions::{
    action_step, fund_step, initialize_step, refund_step, release_step, run, Action,
    EscrowError, Fund, Initialize, Refund, Release,
};
use crate::store::{records_wf, Escrow, FUNDED, RELEASED, UNINITIALIZED};
use vstd::prelude::*;

verus! {

/// `m2` is a later state of the records `m1`: no record disappears, and a
/// record that changes has a strictly greater state.
pub open spec fn advances(m1: Map<Seq<u8>, Escrow>, m2: Map<Seq<u8>, Escrow>) -> bool {
    forall|k: Seq<u8>| #[trigger] m1.contains_key(k) ==> {
        &&& m2.contains_key(k)
        &&& m2[k] == m1[k] || m1[k].state < m2[k].state
    }
}

/// Opening a provider's record a second time is refused with
/// `AlreadyExists` and leaves the records as the first call left them.
pub proof fn lemma_initialize_twice(m: Map<Seq<u8>, Escrow>, a: Initialize, t1: i64, t2: i64)
    ensures
        initialize_step(initialize_step(m, a, t1).1, a, t2) == (
            Err::<(), EscrowError>(EscrowError::AlreadyExists),
            initialize_step(m, a, t1).1,
        ),
{
}

/// Every transition keeps each state within the four known ones, and moves
/// the records forward: a rejected transition changes nothing, and an
/// accepted one either adds an uninitialized record or raises the state of
/// the record it works on.
pub proof fn lemma_action_advances(program: Seq<u8>, m: Map<Seq<u8>, Escrow>, action: Action)
    requires
        records_wf(m),
    ensures
        records_wf(action_step(program, m, action).1),
        advances(m, action_step(program, m, action).1),
        forall|k: Seq<u8>| #[trigger] action_step(program, m, action).1.contains_key(k)
            && !m.contains_key(k) ==> action_step(program, m, action).1[k].state == UNINITIALIZED,
        action_step(program, m, action).0 is Err ==> action_step(program, m, action).1 == m,
{
    let m2 = action_step(program, m, action).1;
    match action {
        Action::Initialize(a, _) => {
            assert forall|k: Seq<u8>| #[trigger] m2.contains_key(k) implies m2[k].provider@ == k
                && m2[k].state <= 3 by {
                if k != a.provider@ {
                    assert(m.contains_key(k));
                }
            }
        },
        Action::Fund(..) => {
            assert forall|k: Seq<u8>| #[trigger] m2.contains_key(k) implies m2[k].provider@ == k
                && m2[k].state <= 3 by {
                assert(m.contains_key(k));
            }
        },
        Action::Release(..) => {
            assert forall|k: Seq<u8>| #[trigger] m2.contains_key(k) implies m2[k].provider@ == k
                && m2[k].state <= 3 by {
                assert(m.contains_key(k));
            }
        },
        Action::Refund(..) => {
            assert forall|k: Seq<u8>| #[trigger] m2.contains_key(k) implies m2[k].provider@ == k
                && m2[k].state <= 3 by {
                assert(m.contains_key(k));
            }
        },
    }
}

/// Moving forward is transitive.
pub proof fn lemma_advances_transitive(
    m1: Map<Seq<u8>, Escrow>,
    m2: Map<Seq<u8>, Escrow>,
    m3: Map<Seq<u8>, Escrow>,
)
    requires
        advances(m1, m2),
        advances(m2, m3),
    ensures
        advances(m1, m3),
{
    assert forall|k: Seq<u8>| #[trigger] m1.contains_key(k) implies m3.contains_key(k) && (m3[k]
        == m1[k] || m1[k].state < m3[k].state) by {
        assert(m2.contains_key(k));
    }
}

/// Along any sequence of transitions the states stay within the four known
/// ones and every record only moves forward.
pub proof fn lemma_run_advances(program: Seq<u8>, m: Map<Seq<u8>, Escrow>, actions: Seq<Action>)
    requires
        records_wf(m),
    ensures
        records_wf(run(program, m, actions)),
        advances(m, run(program, m, actions)),
    decreases actions.len(),
{
    if actions.len() == 0 {
        assert(advances(m, m));
    } else {
        let m2 = action_step(program, m, actions[0]).1;
        lemma_action_advances(program, m, actions[0]);
        lemma_run_advances(program, m2, actions.drop_first());
        lemma_advances_transitive(m, m2, run(program, m2, actions.drop_first()));
    }
}

/// Funding is refused with `AddressMismatch` where the named address is not
/// the derived one, and with `RecordNotFound` where the address matches but
/// the provider has no record; either way nothing changes.
pub proof fn lemma_fund_unknown_or_misaddressed(
    m: Map<Seq<u8>, Escrow>,
    a: Fund,
    derived: Option<Seq<u8>>,
    amount: u64,
)
    ensures
        derived != Some(a.escrow@) ==> fund_step(m, a, derived, amount) == (
            Err::<(), EscrowError>(EscrowError::AddressMismatch),
            m,
        ),
        derived == Some(a.escrow@) && !m.contains_key(a.provider@) ==> fund_step(
            m,
            a,
            derived,
            amount,
        ) == (Err::<(), EscrowError>(EscrowError::RecordNotFound), m),
{
}

/// A release asked for by anyone but the record's renter is refused with
/// `Unauthorized`, whatever the record's state, and changes nothing.
pub proof fn lemma_release_by_stranger(m: Map<Seq<u8>, Escrow>, a: Release, derived: Option<Seq<u8>>)
    requires
        derived == Some(a.escrow@),
        m.contains_key(a.provider@),
        a.renter@ != m[a.provider@].renter@,
    ensures
        release_step(m, a, derived) == (Err::<(), EscrowError>(EscrowError::Unauthorized), m),
{
}

/// Once released, a record cannot be released again: the second call is
/// refused with `InvalidState` and changes nothing.
pub proof fn lemma_release_twice(m: Map<Seq<u8>, Escrow>, a: Release, derived: Option<Seq<u8>>)
    requires
        release_step(m, a, derived).0 is Ok,
    ensures
        release_step(release_step(m, a, derived).1, a, derived) == (
            Err::<(), EscrowError>(EscrowError::InvalidState),
            release_step(m, a, derived).1,
        ),
{
}

/// Once refunded, a record cannot be refunded again: the second call is
/// refused with `InvalidState` and changes nothing.
pub proof fn lemma_refund_twice(m: Map<Seq<u8>, Escrow>, a: Refund, derived: Option<Seq<u8>>)
    requires
        refund_step(m, a, derived).0 is Ok,
    ensures
        refund_step(refund_step(m, a, derived).1, a, derived) == (
            Err::<(), EscrowError>(EscrowError::InvalidState),
            refund_step(m, a, derived).1,
        ),
{
}

/// A released or refunded record is final: no funding, release or refund
/// is accepted on it.
pub proof fn lemma_terminal(
    program: Seq<u8>,
    m: Map<Seq<u8>, Escrow>,
    action: Action,
    provider: Seq<u8>,
)
    requires
        m.contains_key(provider),
        m[provider].state >= RELEASED,
        match action {
            Action::Initialize(..) => false,
            Action::Fund(a, _) => a.provider@ == provider,
            Action::Release(a) => a.provider@ == provider,
            Action::Refund(a) => a.provider@ == provider,
        },
    ensures
        action_step(program, m, action).0 is Err,
        action_step(program, m, action).1 == m,
{
    assert(m[provider].state != FUNDED);
}

} // verus!
