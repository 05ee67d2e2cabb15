//! Flashblocks and their receipts, and the extraction of events from them.
//!
//! A receipt is asked through its bloom before its logs are decoded: where
//! the bloom rules a kind of event out, the receipt is passed over for that
//! kind. A receipt without a bloom is never passed over.

use crate::aave::{
    AaveUserUpdates,
    ParsedBorrow,
    ParsedLiquidation,
    ParsedRepay,
    ParsedSupply,
    ParsedWithdraw,
};
use crate::bloom::Bloom;
use crate::chainlink::ParsedAnswerUpdated;
use crate::log::{decode_all, extract_events, LogEvent, ReceiptLog};
use crate::morpho::{
    MorphoUpdates,
    ParsedMorphoBorrow,
    ParsedMorphoCreateMarket,
    ParsedMorphoLiquidation,
    ParsedMorphoRepay,
    ParsedMorphoSupply,
    ParsedMorphoSupplyCollateral,
    ParsedMorphoWithdraw,
    ParsedMorphoWithdrawCollateral,
};
use crate::signature::EventKind;
use crate::univ3::ParsedSwap;
use vstd::prelude::*;

verus! {

/// What a receipt holds, whatever the type of its transaction.
#[derive(Clone, Debug)]
pub struct ReceiptInner {
    /// The logs that the transaction emitted, in order.
    pub logs: Vec<ReceiptLog>,
    /// The bloom over the addresses and topics of `logs`, where the receipt has one.
    pub logs_bloom: Option<Bloom>,
    /// The status of the transaction, as the upstream spells it.
    pub status: Option<String>,
    /// The gas used in the block up to this transaction, as the upstream spells it.
    pub cumulative_gas_used: Option<String>,
}

impl Default for ReceiptInner {
    /// The receipt without any log and without a bloom.
    fn default() -> (r: ReceiptInner)
        ensures
            r.logs@ == Seq::<ReceiptLog>::empty(),
            r.logs_bloom is None,
            r.status is None,
            r.cumulative_gas_used is None,
    {
        ReceiptInner { logs: Vec::new(), logs_bloom: None, status: None, cumulative_gas_used: None }
    }
}

/// A receipt, under the type of its transaction.
#[derive(Clone, Debug)]
pub enum FlashblockReceipt {
    Legacy(ReceiptInner),
    Eip2930(ReceiptInner),
    Eip1559(ReceiptInner),
    Eip4844(ReceiptInner),
    Eip7702(ReceiptInner),
    /// An OP Stack deposit transaction.
    Deposit(ReceiptInner),
}

impl FlashblockReceipt {
    /// What the receipt holds, whatever the type of its transaction.
    pub open spec fn content(self) -> ReceiptInner {
        match self {
            FlashblockReceipt::Legacy(inner) => inner,
            FlashblockReceipt::Eip2930(inner) => inner,
            FlashblockReceipt::Eip1559(inner) => inner,
            FlashblockReceipt::Eip4844(inner) => inner,
            FlashblockReceipt::Eip7702(inner) => inner,
            FlashblockReceipt::Deposit(inner) => inner,
        }
    }

    /// Whether the receipt may hold an event of `kind`: what its bloom says,
    /// and `true` where it has no bloom.
    pub open spec fn may_hold(self, kind: EventKind) -> bool {
        match self.content().logs_bloom {
            Some(bloom) => bloom.may_contain(kind.hash()),
            None => true,
        }
    }

    /// The events of kind `E` that the receipt yields: those of its logs,
    /// unless its bloom rules the kind out.
    pub open spec fn events<E: LogEvent>(self) -> Seq<E> {
        if self.may_hold(E::kind()) {
            decode_all::<E>(self.content().logs@)
        } else {
            Seq::empty()
        }
    }

    /// What the receipt holds, whatever the type of its transaction.
    pub fn inner(&self) -> (r: &ReceiptInner)
        ensures
            *r == self.content(),
    {
        match self {
            FlashblockReceipt::Legacy(inner) => inner,
            FlashblockReceipt::Eip2930(inner) => inner,
            FlashblockReceipt::Eip1559(inner) => inner,
            FlashblockReceipt::Eip4844(inner) => inner,
            FlashblockReceipt::Eip7702(inner) => inner,
            FlashblockReceipt::Deposit(inner) => inner,
        }
    }

    /// The logs of the receipt.
    pub fn logs(&self) -> (r: &[ReceiptLog])
        ensures
            r@ == self.content().logs@,
    {
        self.inner().logs.as_slice()
    }

    /// Tells whether the receipt may hold an event of `kind`. `false` means
    /// that its bloom rules the kind out.
    pub fn may_have(&self, kind: EventKind) -> (r: bool)
        ensures
            r == self.may_hold(kind),
    {
        match &self.inner().logs_bloom {
            Some(bloom) => bloom.contains_hash(&kind.signature_hash()),
            None => true,
        }
    }

    /// Tells whether the receipt may hold a Uniswap V3 `Swap`.
    pub fn may_have_swap(&self) -> (r: bool)
        ensures
            r == self.may_hold(EventKind::UniV3Swap),
    {
        self.may_have(EventKind::UniV3Swap)
    }

    /// Tells whether the receipt may hold a Chainlink `AnswerUpdated`.
    pub fn may_have_answer_updated(&self) -> (r: bool)
        ensures
            r == self.may_hold(EventKind::ChainlinkAnswerUpdated),
    {
        self.may_have(EventKind::ChainlinkAnswerUpdated)
    }

    /// Decodes the events of kind `E` that the receipt yields.
    pub fn extract<E: LogEvent>(&self) -> (r: Vec<E>)
        ensures
            r@ == self.events::<E>(),
    {
        if self.may_have(E::event_kind()) {
            extract_events::<E>(self.logs())
        } else {
            Vec::new()
        }
    }
}

/// A receipt together with the hash of its transaction.
#[derive(Clone, Debug)]
pub struct TransactionReceipt {
    /// The transaction hash, as the upstream spells it.
    pub tx_hash: String,
    pub receipt: FlashblockReceipt,
}

/// The balance of an account after a flashblock, both as the upstream spells them.
#[derive(Clone, Debug)]
pub struct AccountBalance {
    pub account: String,
    pub balance: String,
}

/// The events of kind `E` that a list of receipts yields: those of each
/// receipt, in the order of the list.
pub open spec fn events_of<E: LogEvent>(receipts: Seq<TransactionReceipt>) -> Seq<E>
    decreases receipts.len(),
{
    if receipts.len() == 0 {
        Seq::empty()
    } else {
        events_of::<E>(receipts.drop_last()) + receipts.last().receipt.events::<E>()
    }
}

/// Decodes the events of kind `E` that `receipts` yield.
pub fn collect_events<E: LogEvent>(receipts: &[TransactionReceipt]) -> (r: Vec<E>)
    ensures
        r@ == events_of::<E>(receipts@),
{
    let mut found: Vec<E> = Vec::new();
    let mut i: usize = 0;
    while i < receipts.len()
        invariant
            i <= receipts.len(),
            found@ == events_of::<E>(receipts@.take(i as int)),
        decreases receipts.len() - i,
    {
        proof {
            let next = receipts@.take(i + 1);
            assert(next.drop_last() =~= receipts@.take(i as int));
            assert(next.last() == receipts@[i as int]);
        }
        let mut more = receipts[i].receipt.extract::<E>();
        found.append(&mut more);
        i = i + 1;
    }
    proof {
        assert(receipts@.take(receipts.len() as int) =~= receipts@);
    }
    found
}

/// What a flashblock carries besides its payload: the receipts of its
/// transactions and the balances that they changed.
#[derive(Clone, Debug)]
pub struct FlashblockMetadata {
    /// The receipts, each under the hash of its transaction.
    pub receipts: Vec<TransactionReceipt>,
    /// The balances of the accounts that the flashblock touched.
    pub new_account_balances: Vec<AccountBalance>,
    /// The number of the block that the flashblock belongs to.
    pub block_number: u64,
}

impl Default for FlashblockMetadata {
    /// The metadata of block 0, without receipts.
    fn default() -> (r: FlashblockMetadata)
        ensures
            r.receipts@ == Seq::<TransactionReceipt>::empty(),
            r.new_account_balances@ == Seq::<AccountBalance>::empty(),
            r.block_number == 0,
    {
        FlashblockMetadata { receipts: Vec::new(), new_account_balances: Vec::new(), block_number: 0 }
    }
}

/// Whether no two of the receipts are under the same transaction hash.
pub open spec fn distinct_hashes(receipts: Seq<TransactionReceipt>) -> bool {
    forall|i: int, j: int|
        0 <= i < j < receipts.len() ==> receipts[i].tx_hash@ != receipts[j].tx_hash@
}

/// The position of the first receipt under the given transaction hash.
pub open spec fn position_of(receipts: Seq<TransactionReceipt>, tx_hash: Seq<char>) -> Option<int>
    decreases receipts.len(),
{
    if receipts.len() == 0 {
        None
    } else {
        match position_of(receipts.drop_last(), tx_hash) {
            Some(i) => Some(i),
            None => if receipts.last().tx_hash@ == tx_hash {
                Some(receipts.len() - 1)
            } else {
                None
            },
        }
    }
}

/// The position that is found holds the hash and no earlier one does; where
/// none is found, no receipt is under the hash.
pub proof fn lemma_position_of(receipts: Seq<TransactionReceipt>, tx_hash: Seq<char>)
    ensures
        match position_of(receipts, tx_hash) {
            Some(i) => 0 <= i < receipts.len() && receipts[i].tx_hash@ == tx_hash && forall|k: int|
                0 <= k < i ==> (#[trigger] receipts[k]).tx_hash@ != tx_hash,
            None => forall|k: int|
                0 <= k < receipts.len() ==> (#[trigger] receipts[k]).tx_hash@ != tx_hash,
        },
    decreases receipts.len(),
{
    if receipts.len() > 0 {
        lemma_position_of(receipts.drop_last(), tx_hash);
        assert forall|k: int| 0 <= k < receipts.len() - 1 implies receipts.drop_last()[k]
            == receipts[k] by {}
        match position_of(receipts.drop_last(), tx_hash) {
            Some(i) => {
                assert(receipts.drop_last()[i] == receipts[i]);
                assert forall|k: int| 0 <= k < i implies (#[trigger] receipts[k]).tx_hash@
                    != tx_hash by {
                    assert(receipts.drop_last()[k] == receipts[k]);
                }
            },
            None => {
                assert forall|k: int| 0 <= k < receipts.len() - 1 implies (
                #[trigger] receipts[k]).tx_hash@ != tx_hash by {
                    assert(receipts.drop_last()[k] == receipts[k]);
                }
            },
        }
    }
}

/// A position that was found among the first receipts is the position among all.
pub proof fn lemma_position_of_prefix(
    receipts: Seq<TransactionReceipt>,
    tx_hash: Seq<char>,
    n: int,
)
    requires
        0 <= n <= receipts.len(),
        position_of(receipts.take(n), tx_hash) is Some,
    ensures
        position_of(receipts, tx_hash) == position_of(receipts.take(n), tx_hash),
    decreases receipts.len() - n,
{
    if n < receipts.len() {
        assert(receipts.take(n + 1).drop_last() =~= receipts.take(n));
        lemma_position_of_prefix(receipts, tx_hash, n + 1);
    } else {
        assert(receipts.take(n) =~= receipts);
    }
}

impl FlashblockMetadata {
    /// Whether the receipts are a mapping: each transaction hash has at
    /// most one receipt.
    pub open spec fn well_formed(self) -> bool {
        distinct_hashes(self.receipts@)
    }

    /// The receipts after one was put under `tx_hash`: it takes the place of
    /// the first that is under that hash, or the place after the last.
    pub open spec fn with_receipt(self, entry: TransactionReceipt) -> Seq<TransactionReceipt> {
        match position_of(self.receipts@, entry.tx_hash@) {
            Some(i) => self.receipts@.update(i, entry),
            None => self.receipts@.push(entry),
        }
    }

    /// The metadata of the given block, without receipts.
    pub fn new(block_number: u64) -> (r: FlashblockMetadata)
        ensures
            r.receipts@ == Seq::<TransactionReceipt>::empty(),
            r.new_account_balances@ == Seq::<AccountBalance>::empty(),
            r.block_number == block_number,
            r.well_formed(),
    {
        FlashblockMetadata { receipts: Vec::new(), new_account_balances: Vec::new(), block_number }
    }

    /// The position of the first receipt under the given transaction hash.
    pub fn find_receipt(&self, tx_hash: &str) -> (r: Option<usize>)
        ensures
            match r {
                Some(i) => position_of(self.receipts@, tx_hash@) == Some(i as int),
                None => position_of(self.receipts@, tx_hash@) is None,
            },
    {
        let wanted = tx_hash.to_owned();
        let mut i: usize = 0;
        while i < self.receipts.len()
            invariant
                i <= self.receipts.len(),
                wanted@ == tx_hash@,
                position_of(self.receipts@.take(i as int), tx_hash@) is None,
            decreases self.receipts.len() - i,
        {
            proof {
                assert(self.receipts@.take(i + 1).drop_last() =~= self.receipts@.take(i as int));
            }
            if self.receipts[i].tx_hash.eq(&wanted) {
                proof {
                    lemma_position_of_prefix(self.receipts@, tx_hash@, i + 1);
                }
                return Some(i);
            }
            i = i + 1;
        }
        proof {
            assert(self.receipts@.take(self.receipts.len() as int) =~= self.receipts@);
        }
        None
    }

    /// Puts a receipt under its transaction hash. A receipt that is already
    /// under that hash is replaced, in its place; a new one goes to the end.
    /// Tells whether a receipt was replaced.
    pub fn insert_receipt(&mut self, tx_hash: String, receipt: FlashblockReceipt) -> (replaced:
        bool)
        ensures
            replaced == position_of(old(self).receipts@, tx_hash@) is Some,
            final(self).receipts@ == old(self).with_receipt(
                TransactionReceipt { tx_hash, receipt },
            ),
            final(self).new_account_balances == old(self).new_account_balances,
            final(self).block_number == old(self).block_number,
            old(self).well_formed() ==> final(self).well_formed(),
    {
        let entry = TransactionReceipt { tx_hash, receipt };
        let ghost before = self.receipts@;
        proof {
            lemma_position_of(before, entry.tx_hash@);
        }
        match self.find_receipt(entry.tx_hash.as_str()) {
            Some(i) => {
                self.receipts.set(i, entry);
                proof {
                    if distinct_hashes(before) {
                        assert forall|a: int, b: int|
                            0 <= a < b < self.receipts@.len() implies self.receipts@[a].tx_hash@
                            != self.receipts@[b].tx_hash@ by {
                            assert(self.receipts@[a].tx_hash@ == before[a].tx_hash@);
                            assert(self.receipts@[b].tx_hash@ == before[b].tx_hash@);
                        }
                    }
                }
                true
            },
            None => {
                self.receipts.push(entry);
                proof {
                    if distinct_hashes(before) {
                        assert forall|a: int, b: int|
                            0 <= a < b < self.receipts@.len() implies self.receipts@[a].tx_hash@
                            != self.receipts@[b].tx_hash@ by {
                            assert(self.receipts@[a] == before[a]);
                            if b < before.len() {
                                assert(self.receipts@[b] == before[b]);
                            }
                        }
                    }
                }
                false
            },
        }
    }

    /// Whether `updates` holds exactly the Aave events that the receipts yield.
    pub open spec fn aave_updates_are(self, updates: AaveUserUpdates) -> bool {
        &&& updates.supplies@ == events_of::<ParsedSupply>(self.receipts@)
        &&& updates.withdraws@ == events_of::<ParsedWithdraw>(self.receipts@)
        &&& updates.borrows@ == events_of::<ParsedBorrow>(self.receipts@)
        &&& updates.repays@ == events_of::<ParsedRepay>(self.receipts@)
        &&& updates.liquidations@ == events_of::<ParsedLiquidation>(self.receipts@)
    }

    /// Whether `updates` holds exactly the Morpho events that the receipts yield.
    pub open spec fn morpho_updates_are(self, updates: MorphoUpdates) -> bool {
        &&& updates.supplies@ == events_of::<ParsedMorphoSupply>(self.receipts@)
        &&& updates.withdraws@ == events_of::<ParsedMorphoWithdraw>(self.receipts@)
        &&& updates.borrows@ == events_of::<ParsedMorphoBorrow>(self.receipts@)
        &&& updates.repays@ == events_of::<ParsedMorphoRepay>(self.receipts@)
        &&& updates.supply_collaterals@ == events_of::<ParsedMorphoSupplyCollateral>(
            self.receipts@,
        )
        &&& updates.withdraw_collaterals@ == events_of::<ParsedMorphoWithdrawCollateral>(
            self.receipts@,
        )
        &&& updates.liquidations@ == events_of::<ParsedMorphoLiquidation>(self.receipts@)
        &&& updates.create_markets@ == events_of::<ParsedMorphoCreateMarket>(self.receipts@)
    }

    /// Decodes the swaps of the receipts whose bloom admits a swap.
    pub fn extract_swaps(&self) -> (r: Vec<ParsedSwap>)
        ensures
            r@ == events_of::<ParsedSwap>(self.receipts@),
    {
        collect_events::<ParsedSwap>(self.receipts.as_slice())
    }

    /// Decodes the answer updates of the receipts whose bloom admits one.
    pub fn extract_answer_updates(&self) -> (r: Vec<ParsedAnswerUpdated>)
        ensures
            r@ == events_of::<ParsedAnswerUpdated>(self.receipts@),
    {
        collect_events::<ParsedAnswerUpdated>(self.receipts.as_slice())
    }

    /// Decodes the Aave events of the receipts, each kind from the receipts
    /// whose bloom admits that kind.
    pub fn extract_aave_updates(&self) -> (r: AaveUserUpdates)
        ensures
            self.aave_updates_are(r),
    {
        let receipts = self.receipts.as_slice();
        AaveUserUpdates {
            supplies: collect_events::<ParsedSupply>(receipts),
            withdraws: collect_events::<ParsedWithdraw>(receipts),
            borrows: collect_events::<ParsedBorrow>(receipts),
            repays: collect_events::<ParsedRepay>(receipts),
            liquidations: collect_events::<ParsedLiquidation>(receipts),
        }
    }

    /// Decodes the Morpho events of the receipts, each kind from the
    /// receipts whose bloom admits that kind.
    pub fn extract_morpho_updates(&self) -> (r: MorphoUpdates)
        ensures
            self.morpho_updates_are(r),
    {
        let receipts = self.receipts.as_slice();
        MorphoUpdates {
            supplies: collect_events::<ParsedMorphoSupply>(receipts),
            withdraws: collect_events::<ParsedMorphoWithdraw>(receipts),
            borrows: collect_events::<ParsedMorphoBorrow>(receipts),
            repays: collect_events::<ParsedMorphoRepay>(receipts),
            supply_collaterals: collect_events::<ParsedMorphoSupplyCollateral>(receipts),
            withdraw_collaterals: collect_events::<ParsedMorphoWithdrawCollateral>(receipts),
            liquidations: collect_events::<ParsedMorphoLiquidation>(receipts),
            create_markets: collect_events::<ParsedMorphoCreateMarket>(receipts),
        }
    }
}

/// One partial-block update of the sequencer.
#[derive(Clone, Debug)]
pub struct Flashblock {
    /// The payload that the flashblock belongs to.
    pub payload_id: String,
    /// The position of the flashblock within its payload.
    pub index: u64,
    /// The receipts and balances, where the flashblock carries them.
    pub metadata: Option<FlashblockMetadata>,
}

impl Flashblock {
    /// The receipts of the flashblock; none where it has no metadata.
    pub open spec fn receipts(self) -> Seq<TransactionReceipt> {
        match self.metadata {
            Some(metadata) => metadata.receipts@,
            None => Seq::empty(),
        }
    }

    /// The number of the block that the flashblock belongs to, where its
    /// metadata tells.
    pub fn block_number(&self) -> (r: Option<u64>)
        ensures
            r == match self.metadata {
                Some(metadata) => Some(metadata.block_number),
                None => None,
            },
    {
        match &self.metadata {
            Some(metadata) => Some(metadata.block_number),
            None => None,
        }
    }

    /// Decodes the swaps of the flashblock; none where it has no metadata.
    pub fn extract_swaps(&self) -> (r: Vec<ParsedSwap>)
        ensures
            r@ == events_of::<ParsedSwap>(self.receipts()),
    {
        match &self.metadata {
            Some(metadata) => metadata.extract_swaps(),
            None => Vec::new(),
        }
    }

    /// Decodes the answer updates of the flashblock; none where it has no metadata.
    pub fn extract_answer_updates(&self) -> (r: Vec<ParsedAnswerUpdated>)
        ensures
            r@ == events_of::<ParsedAnswerUpdated>(self.receipts()),
    {
        match &self.metadata {
            Some(metadata) => metadata.extract_answer_updates(),
            None => Vec::new(),
        }
    }

    /// Decodes the Aave events of the flashblock; none where it has no metadata.
    pub fn extract_aave_updates(&self) -> (r: AaveUserUpdates)
        ensures
            r.supplies@ == events_of::<ParsedSupply>(self.receipts()),
            r.withdraws@ == events_of::<ParsedWithdraw>(self.receipts()),
            r.borrows@ == events_of::<ParsedBorrow>(self.receipts()),
            r.repays@ == events_of::<ParsedRepay>(self.receipts()),
            r.liquidations@ == events_of::<ParsedLiquidation>(self.receipts()),
    {
        match &self.metadata {
            Some(metadata) => metadata.extract_aave_updates(),
            None => AaveUserUpdates::new(),
        }
    }

    /// Decodes the Morpho events of the flashblock; none where it has no metadata.
    pub fn extract_morpho_updates(&self) -> (r: MorphoUpdates)
        ensures
            r.supplies@ == events_of::<ParsedMorphoSupply>(self.receipts()),
            r.withdraws@ == events_of::<ParsedMorphoWithdraw>(self.receipts()),
            r.borrows@ == events_of::<ParsedMorphoBorrow>(self.receipts()),
            r.repays@ == events_of::<ParsedMorphoRepay>(self.receipts()),
            r.supply_collaterals@ == events_of::<ParsedMorphoSupplyCollateral>(self.receipts()),
            r.withdraw_collaterals@ == events_of::<ParsedMorphoWithdrawCollateral>(
                self.receipts(),
            ),
            r.liquidations@ == events_of::<ParsedMorphoLiquidation>(self.receipts()),
            r.create_markets@ == events_of::<ParsedMorphoCreateMarket>(self.receipts()),
    {
        match &self.metadata {
            Some(metadata) => metadata.extract_morpho_updates(),
            None => MorphoUpdates::new(),
        }
    }
}

/// Receipts whose blooms all rule a kind out yield no event of that kind,
/// whatever their logs hold.
pub proof fn lemma_ruled_out_yields_nothing<E: LogEvent>(receipts: Seq<TransactionReceipt>)
    requires
        forall|i: int| 0 <= i < receipts.len() ==> !(#[trigger] receipts[i]).receipt.may_hold(
            E::kind(),
        ),
    ensures
        events_of::<E>(receipts) == Seq::<E>::empty(),
    decreases receipts.len(),
{
    if receipts.len() > 0 {
        lemma_ruled_out_yields_nothing::<E>(receipts.drop_last());
    }
}

/// A receipt without a bloom is never passed over: it yields what its logs decode to.
pub proof fn lemma_no_bloom_fails_open<E: LogEvent>(receipt: FlashblockReceipt)
    requires
        receipt.content().logs_bloom is None,
    ensures
        receipt.events::<E>() == decode_all::<E>(receipt.content().logs@),
{
}

} // verus!
