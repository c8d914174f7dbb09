use vstd::prelude::*;

verus! {

/// A 32-byte account address.
#[derive(Clone, Copy, Debug)]
pub struct AccountKey {
    pub bytes: [u8; 32],
}

impl View for AccountKey {
    type V = Seq<u8>;

    open spec fn view(&self) -> Seq<u8> {
        self.bytes@
    }
}

/// One instruction of a transaction: the program it invokes, given as an
/// index into the transaction's account keys.
#[derive(Clone, Copy, Debug)]
pub struct Instruction {
    pub program_id_index: u8,
}

/// A transaction as far as classification reads it.
#[derive(Debug)]
pub struct Transaction {
    pub account_keys: Vec<AccountKey>,
    pub instructions: Vec<Instruction>,
}

/// The mathematical model of a [`Transaction`].
pub ghost struct TransactionView {
    pub account_keys: Seq<Seq<u8>>,
    pub program_indices: Seq<int>,
}

impl View for Transaction {
    type V = TransactionView;

    open spec fn view(&self) -> TransactionView {
        TransactionView {
            account_keys: Seq::new(self.account_keys@.len(), |i: int| self.account_keys@[i]@),
            program_indices: Seq::new(
                self.instructions@.len(),
                |i: int| self.instructions@[i].program_id_index as int,
            ),
        }
    }
}

/// A block as handed out by the block source.
#[derive(Debug)]
pub struct Block {
    /// The slot of the block that precedes this one.
    pub parent_slot: u64,
    /// The number of blocks below this one; the first block has height 0.
    pub height: u64,
    /// Wall-clock time of the block, in Unix seconds.
    pub timestamp: i64,
    pub transactions: Vec<Transaction>,
}

/// The mathematical model of a [`Block`].
pub ghost struct BlockView {
    pub parent_slot: u64,
    pub height: u64,
    pub timestamp: i64,
    pub transactions: Seq<TransactionView>,
}

impl View for Block {
    type V = BlockView;

    open spec fn view(&self) -> BlockView {
        BlockView {
            parent_slot: self.parent_slot,
            height: self.height,
            timestamp: self.timestamp,
            transactions: Seq::new(self.transactions@.len(), |i: int| self.transactions@[i]@),
        }
    }
}

/// The models of a chain of blocks, in the order of the chain.
pub open spec fn chain_view(chain: Seq<Block>) -> Seq<BlockView> {
    Seq::new(chain.len(), |i: int| chain[i]@)
}

} // verus!
