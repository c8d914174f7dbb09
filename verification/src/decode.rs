use vstd::prelude::*;
use crate::block::{AccountKey, Block, BlockView, Instruction, Transaction, TransactionView};
use crate::classify::transactions_view;
use crate::error::TpsError;
use solana_transaction_status_client_types::{EncodedTransaction, TransactionBinaryEncoding};

verus! {

/// A block as the source sends it: each transaction is the base-64 text of
/// its binary form.
#[derive(Debug)]
pub struct EncodedBlock {
    /// The slot of the block that precedes this one.
    pub parent_slot: u64,
    /// The number of blocks below this one; the first block has height 0.
    pub height: u64,
    /// Wall-clock time of the block, in Unix seconds.
    pub timestamp: i64,
    pub transactions: Vec<String>,
}

/// The mathematical model of an [`EncodedBlock`].
pub ghost struct EncodedBlockView {
    pub parent_slot: u64,
    pub height: u64,
    pub timestamp: i64,
    pub transactions: Seq<Seq<char>>,
}

impl View for EncodedBlock {
    type V = EncodedBlockView;

    open spec fn view(&self) -> EncodedBlockView {
        EncodedBlockView {
            parent_slot: self.parent_slot,
            height: self.height,
            timestamp: self.timestamp,
            transactions: texts(self.transactions@),
        }
    }
}

/// The texts of a list of strings, in order.
pub open spec fn texts(blobs: Seq<String>) -> Seq<Seq<char>> {
    Seq::new(blobs.len(), |i: int| blobs[i]@)
}

/// What the base-64 text `blob` decodes to: the account keys and the program
/// indices of the transaction it holds, or nothing where it holds none.
pub uninterp spec fn decoded_transaction(blob: Seq<char>) -> Option<TransactionView>;

/// Decodes one transaction. Calls `EncodedTransaction::decode` on the text
/// taken as base-64 binary, and copies the static account keys and each
/// instruction's program index out of the result. The contract claims only
/// that the outcome is a function of the text: it names it
/// [`decoded_transaction`].
#[allow(deprecated)]
#[verifier::external_body]
pub(crate) fn decode_base64(blob: &String) -> (r: Option<Transaction>)
    ensures
        r is Some ==> decoded_transaction(blob@) == Some(r->Some_0@),
        r is None ==> decoded_transaction(blob@) is None,
{
    let encoded = EncodedTransaction::Binary(blob.clone(), TransactionBinaryEncoding::Base64);
    encoded.decode().map(
        |tx| Transaction {
            account_keys: tx.message.static_account_keys().iter().map(
                |key| AccountKey { bytes: key.to_bytes() },
            ).collect(),
            instructions: tx.message.instructions().iter().map(
                |ix| Instruction { program_id_index: ix.program_id_index },
            ).collect(),
        },
    )
}

/// Every text of `blobs` decodes to a transaction.
pub open spec fn all_decode(blobs: Seq<Seq<char>>) -> bool {
    forall|i: int| 0 <= i < blobs.len() ==> (#[trigger] decoded_transaction(blobs[i])) is Some
}

/// The transactions that the texts of `blobs` decode to, in order.
pub open spec fn decoded_all(blobs: Seq<Seq<char>>) -> Seq<TransactionView> {
    Seq::new(blobs.len(), |i: int| decoded_transaction(blobs[i])->Some_0)
}

/// The block that `encoded` decodes to, where all its transactions decode.
pub open spec fn decoded_block(encoded: EncodedBlockView) -> Option<BlockView> {
    if all_decode(encoded.transactions) {
        Some(
            BlockView {
                parent_slot: encoded.parent_slot,
                height: encoded.height,
                timestamp: encoded.timestamp,
                transactions: decoded_all(encoded.transactions),
            },
        )
    } else {
        None
    }
}

/// Decodes every transaction of `blobs`, in order. One that does not decode
/// fails the whole list.
pub fn decode_transactions(blobs: &Vec<String>) -> (r: Result<Vec<Transaction>, TpsError>)
    ensures
        all_decode(texts(blobs@)) ==> r is Ok && transactions_view(r->Ok_0@) == decoded_all(
            texts(blobs@),
        ),
        !all_decode(texts(blobs@)) ==> r == Err::<Vec<Transaction>, TpsError>(TpsError::Decode),
{
    let ghost all = texts(blobs@);
    let mut out: Vec<Transaction> = Vec::new();
    let mut i: usize = 0;
    while i < blobs.len()
        invariant
            i <= blobs.len(),
            all == texts(blobs@),
            out@.len() == i,
            forall|k: int| 0 <= k < i ==> (#[trigger] decoded_transaction(all[k])) == Some(out@[k]@),
        decreases blobs.len() - i,
    {
        assert(all[i as int] == blobs@[i as int]@);
        match decode_base64(&blobs[i]) {
            Some(tx) => {
                out.push(tx);
            },
            None => {
                assert(decoded_transaction(all[i as int]) is None);
                return Err(TpsError::Decode);
            },
        }
        i = i + 1;
    }
    assert(all_decode(all));
    assert(transactions_view(out@) =~= decoded_all(all));
    Ok(out)
}

/// Decodes the transactions of `encoded` and keeps the rest of the block as
/// it is.
pub fn decode_block(encoded: &EncodedBlock) -> (r: Result<Block, TpsError>)
    ensures
        match decoded_block(encoded@) {
            Some(block) => r is Ok && r->Ok_0@ == block,
            None => r == Err::<Block, TpsError>(TpsError::Decode),
        },
{
    match decode_transactions(&encoded.transactions) {
        Ok(transactions) => {
            let block = Block {
                parent_slot: encoded.parent_slot,
                height: encoded.height,
                timestamp: encoded.timestamp,
                transactions,
            };
            assert(block@.transactions =~= transactions_view(block.transactions@));
            Ok(block)
        },
        Err(e) => Err(e),
    }
}

} // verus!
