use vstd::prelude::*;
use crate::block::{AccountKey, Block, BlockView, Transaction, TransactionView};
use crate::error::TpsError;
use crate::vote_program::{vote_program_id, vote_program_key};

verus! {

/// The program that instruction `i` of `tx` invokes is among the account keys.
pub open spec fn resolves(tx: TransactionView, i: int) -> bool {
    0 <= tx.program_indices[i] < tx.account_keys.len()
}

/// Instruction `i` of `tx` invokes the vote program.
pub open spec fn targets_vote(tx: TransactionView, i: int) -> bool {
    resolves(tx, i) && tx.account_keys[tx.program_indices[i]] == vote_program_key()
}

/// Every instruction of `tx` names a program among the account keys.
pub open spec fn well_formed(tx: TransactionView) -> bool {
    forall|i: int| 0 <= i < tx.program_indices.len() ==> #[trigger] resolves(tx, i)
}

/// Every instruction of `tx` invokes the vote program. A transaction without
/// instructions is vote-only.
pub open spec fn vote_only(tx: TransactionView) -> bool {
    forall|i: int| 0 <= i < tx.program_indices.len() ==> #[trigger] targets_vote(tx, i)
}

/// Every transaction of `txs` is well formed.
pub open spec fn all_well_formed(txs: Seq<TransactionView>) -> bool {
    forall|j: int| 0 <= j < txs.len() ==> well_formed(#[trigger] txs[j])
}

/// How many transactions of `txs` are user transactions: not vote-only.
pub open spec fn user_count(txs: Seq<TransactionView>) -> nat
    decreases txs.len(),
{
    if txs.len() == 0 {
        0
    } else if vote_only(txs.last()) {
        user_count(txs.drop_last())
    } else {
        user_count(txs.drop_last()) + 1
    }
}

/// How many transactions of `txs` are vote-only.
pub open spec fn vote_count(txs: Seq<TransactionView>) -> nat
    decreases txs.len(),
{
    if txs.len() == 0 {
        0
    } else if vote_only(txs.last()) {
        vote_count(txs.drop_last()) + 1
    } else {
        vote_count(txs.drop_last())
    }
}

/// The models of a list of transactions, in order.
pub open spec fn transactions_view(transactions: Seq<Transaction>) -> Seq<TransactionView> {
    Seq::new(transactions.len(), |i: int| transactions[i]@)
}

/// The classification of a list of transactions: its number of user
/// transactions, or a decode failure where one of them is not well formed.
pub open spec fn classify_all(txs: Seq<TransactionView>) -> Result<nat, TpsError> {
    if all_well_formed(txs) {
        Ok(user_count(txs))
    } else {
        Err(TpsError::Decode)
    }
}

/// The classification of a block: that of its transactions.
pub open spec fn classify(block: BlockView) -> Result<nat, TpsError> {
    classify_all(block.transactions)
}

/// Every transaction is either a user transaction or vote-only, never both.
pub proof fn user_and_vote_partition(txs: Seq<TransactionView>)
    ensures
        user_count(txs) + vote_count(txs) == txs.len(),
    decreases txs.len(),
{
    if txs.len() > 0 {
        user_and_vote_partition(txs.drop_last());
    }
}

/// Where every instruction of every transaction invokes the vote program,
/// no transaction is a user transaction.
pub proof fn all_votes_count_zero(txs: Seq<TransactionView>)
    requires
        forall|j: int| 0 <= j < txs.len() ==> vote_only(#[trigger] txs[j]),
    ensures
        all_well_formed(txs),
        user_count(txs) == 0,
        classify_all(txs) == Ok::<nat, TpsError>(0),
    decreases txs.len(),
{
    if txs.len() > 0 {
        let rest = txs.drop_last();
        assert forall|j: int| 0 <= j < rest.len() implies vote_only(#[trigger] rest[j]) by {
            assert(rest[j] == txs[j]);
        }
        all_votes_count_zero(rest);
        assert(vote_only(txs[txs.len() - 1]));
    }
    assert forall|j: int| 0 <= j < txs.len() implies well_formed(#[trigger] txs[j]) by {
        let tx = txs[j];
        assert(vote_only(tx));
        assert forall|i: int| 0 <= i < tx.program_indices.len() implies #[trigger] resolves(
            tx,
            i,
        ) by {
            assert(targets_vote(tx, i));
        }
    }
}

/// A transaction with an instruction that does not invoke the vote program
/// adds exactly one to the user count, however many such instructions it has.
pub proof fn user_transaction_counts_once(txs: Seq<TransactionView>, tx: TransactionView, i: int)
    requires
        0 <= i < tx.program_indices.len(),
        !targets_vote(tx, i),
    ensures
        !vote_only(tx),
        user_count(txs.push(tx)) == user_count(txs) + 1,
{
    assert(txs.push(tx).drop_last() =~= txs);
    assert(txs.push(tx).last() == tx);
}

/// A vote-only transaction adds nothing to the user count.
pub proof fn vote_transaction_counts_zero(txs: Seq<TransactionView>, tx: TransactionView)
    requires
        vote_only(tx),
    ensures
        user_count(txs.push(tx)) == user_count(txs),
{
    assert(txs.push(tx).drop_last() =~= txs);
    assert(txs.push(tx).last() == tx);
}

/// Whether two account keys hold the same bytes.
pub fn same_key(a: &AccountKey, b: &AccountKey) -> (r: bool)
    ensures
        r == (a@ == b@),
{
    let mut i: usize = 0;
    while i < 32
        invariant
            i <= 32,
            forall|k: int| 0 <= k < i ==> a.bytes@[k] == b.bytes@[k],
        decreases 32 - i,
    {
        if a.bytes[i] != b.bytes[i] {
            return false;
        }
        i = i + 1;
    }
    assert(a@ =~= b@);
    true
}

/// Whether every instruction of `tx` invokes the program with key `vote`.
fn votes_only(tx: &Transaction, vote: &AccountKey) -> (r: Result<bool, TpsError>)
    requires
        vote@ == vote_program_key(),
    ensures
        well_formed(tx@) ==> r == Ok::<bool, TpsError>(vote_only(tx@)),
        !well_formed(tx@) ==> r == Err::<bool, TpsError>(TpsError::Decode),
{
    let mut all_votes = true;
    let mut j: usize = 0;
    while j < tx.instructions.len()
        invariant
            j <= tx.instructions.len(),
            vote@ == vote_program_key(),
            forall|k: int| 0 <= k < j ==> #[trigger] resolves(tx@, k),
            all_votes == (forall|k: int| 0 <= k < j ==> #[trigger] targets_vote(tx@, k)),
        decreases tx.instructions.len() - j,
    {
        let index = tx.instructions[j].program_id_index as usize;
        if index >= tx.account_keys.len() {
            assert(!resolves(tx@, j as int));
            return Err(TpsError::Decode);
        }
        let is_vote = same_key(&tx.account_keys[index], vote);
        assert(is_vote == targets_vote(tx@, j as int));
        assert(resolves(tx@, j as int));
        if !is_vote {
            all_votes = false;
        }
        j = j + 1;
    }
    Ok(all_votes)
}

/// Whether `tx` is vote-only: every one of its instructions invokes the vote
/// program. Fails where an instruction names no program among the account
/// keys.
pub fn is_vote_transaction(tx: &Transaction) -> (r: Result<bool, TpsError>)
    ensures
        well_formed(tx@) ==> r == Ok::<bool, TpsError>(vote_only(tx@)),
        !well_formed(tx@) ==> r == Err::<bool, TpsError>(TpsError::Decode),
{
    let vote = vote_program_id();
    votes_only(tx, &vote)
}

/// The number of user transactions among `transactions`.
pub fn count_user(transactions: &Vec<Transaction>) -> (r: Result<u64, TpsError>)
    ensures
        match classify_all(transactions_view(transactions@)) {
            Ok(n) => r == Ok::<u64, TpsError>(n as u64) && n <= u64::MAX,
            Err(e) => r == Err::<u64, TpsError>(e),
        },
{
    let vote = vote_program_id();
    let ghost txs = transactions_view(transactions@);
    let mut count: u64 = 0;
    let mut i: usize = 0;
    while i < transactions.len()
        invariant
            i <= transactions.len(),
            txs == transactions_view(transactions@),
            vote@ == vote_program_key(),
            all_well_formed(txs.take(i as int)),
            count == user_count(txs.take(i as int)),
            count <= i,
        decreases transactions.len() - i,
    {
        let ghost before = txs.take(i as int);
        let ghost after = txs.take(i + 1);
        proof {
            assert(after.drop_last() =~= before);
            assert(after.last() == txs[i as int]);
            assert(txs[i as int] == transactions@[i as int]@);
        }
        match votes_only(&transactions[i], &vote) {
            Err(_) => {
                assert(!all_well_formed(txs));
                return Err(TpsError::Decode);
            },
            Ok(vote_only) => {
                if !vote_only {
                    count = count + 1;
                }
            },
        }
        proof {
            assert forall|j: int| 0 <= j < after.len() implies well_formed(#[trigger] after[j]) by {
                if j < i {
                    assert(after[j] == before[j]);
                }
            }
        }
        i = i + 1;
    }
    assert(txs.take(i as int) =~= txs);
    Ok(count)
}

/// The number of user transactions in `block`: those with at least one
/// instruction that does not invoke the vote program. Fails, without a
/// partial count, where a transaction is not well formed.
pub fn count_user_transactions(block: &Block) -> (r: Result<u64, TpsError>)
    ensures
        match classify(block@) {
            Ok(n) => r == Ok::<u64, TpsError>(n as u64) && n <= u64::MAX,
            Err(e) => r == Err::<u64, TpsError>(e),
        },
{
    proof {
        assert(block@.transactions =~= transactions_view(block.transactions@));
    }
    count_user(&block.transactions)
}

} // verus!
