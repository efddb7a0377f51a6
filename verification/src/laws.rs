//! What holds of every run of the engine, proved over the state machine that
//! the engine's contracts are written in.

use vstd::prelude::*;
use crate::account::Account;
use crate::model::EngineState;
use crate::transaction::Rejection;
use crate::transaction::Transaction;

verus! {

/// A fresh engine is well formed.
pub proof fn lemma_fresh_wf()
    ensures
        EngineState::fresh().wf(),
{
}

/// Judging and applying a record keeps the state well formed.
pub proof fn lemma_applied_preserves_wf(s: EngineState, tr: Transaction)
    requires
        s.wf(),
    ensures
        s.applied(tr).wf(),
{
}

/// Processing a record keeps the state well formed: every account is still
/// balanced, the history still holds accepted deposits and withdrawals under
/// their own identifiers, and only recorded deposits are disputed.
pub proof fn lemma_step_preserves_wf(s: EngineState, tr: Transaction)
    requires
        s.wf(),
    ensures
        s.step(tr).wf(),
{
    lemma_applied_preserves_wf(s, tr);
}

/// Processing a stream of records keeps the state well formed.
pub proof fn lemma_run_preserves_wf(s: EngineState, trs: Seq<Transaction>)
    requires
        s.wf(),
    ensures
        s.run(trs).wf(),
    decreases trs.len(),
{
    if trs.len() > 0 {
        lemma_run_preserves_wf(s, trs.drop_last());
        lemma_step_preserves_wf(s.run(trs.drop_last()), trs.last());
    }
}

/// After any stream of records, fed to a fresh engine, the total of every
/// account is exactly what is available plus what is held.
pub proof fn lemma_accounts_stay_balanced(trs: Seq<Transaction>, client: u16)
    requires
        EngineState::fresh().run(trs).accounts.contains_key(client),
    ensures
        EngineState::fresh().run(trs).accounts[client].balanced(),
{
    lemma_fresh_wf();
    lemma_run_preserves_wf(EngineState::fresh(), trs);
}

/// A record for a locked account is rejected and changes nothing at all.
pub proof fn lemma_locked_account_rejects(s: EngineState, tr: Transaction)
    requires
        s.is_locked(tr.client),
    ensures
        s.verdict(tr) == (if s.is_duplicate(tr) {
            Err::<(), Rejection>(Rejection::DuplicateTransaction)
        } else {
            Err::<(), Rejection>(Rejection::AccountLocked)
        }),
        s.step(tr) == s,
{
}

/// Once an account is locked, no record, whatever its kind and its client,
/// changes that account: it stays locked, with the same balances.
pub proof fn lemma_locked_account_is_frozen(s: EngineState, tr: Transaction, client: u16)
    requires
        s.is_locked(client),
    ensures
        s.step(tr).accounts.contains_key(client),
        s.step(tr).accounts[client] == s.accounts[client],
        s.step(tr).is_locked(client),
{
}

/// Once an account is locked, it is the same after any stream of records.
pub proof fn lemma_locked_account_stays_frozen(
    s: EngineState,
    trs: Seq<Transaction>,
    client: u16,
)
    requires
        s.is_locked(client),
    ensures
        s.run(trs).accounts.contains_key(client),
        s.run(trs).accounts[client] == s.accounts[client],
        s.run(trs).is_locked(client),
    decreases trs.len(),
{
    if trs.len() > 0 {
        lemma_locked_account_stays_frozen(s, trs.drop_last(), client);
        lemma_locked_account_is_frozen(s.run(trs.drop_last()), trs.last(), client);
    }
}

/// What a stream of records makes of the engine depends on nothing but the
/// accounts, the history and the disputed set it starts from: two states
/// that agree on these, fed the same stream, end in the same state.
pub proof fn lemma_replay_is_deterministic(a: EngineState, b: EngineState, trs: Seq<Transaction>)
    requires
        a.accounts =~= b.accounts,
        a.history =~= b.history,
        a.disputed =~= b.disputed,
    ensures
        a.run(trs) == b.run(trs),
{
}

/// Two listings of the accounts of one state hold the same entries, whatever
/// their order.
pub proof fn lemma_listings_agree(
    s: EngineState,
    first: Seq<(u16, Account)>,
    second: Seq<(u16, Account)>,
)
    requires
        s.lists(first),
        s.lists(second),
    ensures
        first.len() == second.len(),
        first.to_set() == second.to_set(),
{
    assert forall|entry: (u16, Account)| first.to_set().contains(entry) implies second.to_set().contains(
        entry,
    ) by {
        let i = choose|i: int| 0 <= i < first.len() && first[i] == entry;
        assert(s.accounts.contains_key(first[i].0));
    }
    assert forall|entry: (u16, Account)| second.to_set().contains(entry) implies first.to_set().contains(
        entry,
    ) by {
        let i = choose|i: int| 0 <= i < second.len() && second[i] == entry;
        assert(s.accounts.contains_key(second[i].0));
    }
    assert(first.to_set() =~= second.to_set());
}

/// A deposit or withdrawal under an identifier that the history already
/// holds is rejected as a duplicate and changes nothing.
pub proof fn lemma_duplicate_is_noop(s: EngineState, tr: Transaction)
    requires
        s.is_duplicate(tr),
    ensures
        s.verdict(tr) == Err::<(), Rejection>(Rejection::DuplicateTransaction),
        s.step(tr) == s,
{
}

/// Once a deposit or withdrawal has been accepted, any later deposit or
/// withdrawal under the same identifier is a duplicate, whatever else it
/// holds.
pub proof fn lemma_accepted_then_duplicate(s: EngineState, first: Transaction, second: Transaction)
    requires
        first.moves_funds(),
        s.verdict(first) is Ok,
        second.moves_funds(),
        second.tx == first.tx,
    ensures
        s.step(first).is_duplicate(second),
        s.step(first).step(second) == s.step(first),
{
}

/// Releasing a hold undoes placing it: a resolve for the amount of a dispute
/// that took effect gives the account back as it was.
pub proof fn lemma_resolve_undoes_dispute(account: Account, amount: i64)
    requires
        account.after_dispute(amount) is Some,
    ensures
        account.after_dispute(amount)->Some_0.after_resolve(amount) == Some(account),
{
}

/// The history only grows, and what it holds is never rewritten: after a
/// record, it holds what it held before, and besides that the record itself
/// if and only if it is a deposit or withdrawal that was accepted.
pub proof fn lemma_history_is_append_only(s: EngineState, tr: Transaction, tx: u32)
    ensures
        s.history.contains_key(tx) ==> s.step(tr).history.contains_key(tx) && s.step(
            tr,
        ).history[tx] == s.history[tx],
        !s.history.contains_key(tx) ==> (s.step(tr).history.contains_key(tx) <==> tx == tr.tx
            && tr.moves_funds() && s.verdict(tr) is Ok),
        !s.history.contains_key(tx) && s.step(tr).history.contains_key(tx) ==> s.step(
            tr,
        ).history[tx] == tr,
{
}

/// No account is ever closed, and a record touches no account but that of
/// its own client.
pub proof fn lemma_other_accounts_are_untouched(s: EngineState, tr: Transaction, client: u16)
    requires
        s.accounts.contains_key(client),
    ensures
        s.step(tr).accounts.contains_key(client),
        client != tr.client ==> s.step(tr).accounts[client] == s.accounts[client],
{
}

/// A rejected record moves no funds: every account that existed is as it
/// was, and an account that the record opened is empty.
pub proof fn lemma_rejection_moves_no_funds(s: EngineState, tr: Transaction, client: u16)
    requires
        s.verdict(tr) is Err,
        s.step(tr).accounts.contains_key(client),
    ensures
        s.step(tr).accounts[client] == s.account(client),
        s.step(tr).history == s.history,
{
}

} // verus!
