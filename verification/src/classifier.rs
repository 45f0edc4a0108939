//! The classifier of Aave V2 calls: a call is told by the first four bytes
//! of its call data, and becomes a liquidation or a flash loan.

use crate::parser::Protocol;
use crate::primitives::{Address, U256};
use vstd::prelude::*;

verus! {

/// The signature of Aave V2's liquidation call.
pub open spec fn liquidation_call_signature() -> Seq<char> {
    "liquidationCall(address,address,address,uint256,bool)"@
}

/// The signature of Aave V2's flash loan.
pub open spec fn flash_loan_signature() -> Seq<char> {
    "flashLoan(address,address[],uint256[],uint256[],address,bytes,uint16)"@
}

/// The selector of a function: the first four bytes, read as one
/// big-endian number, of the Keccak-256 hash of its signature.
pub uninterp spec fn selector_of(signature: Seq<char>) -> u32;

/// `keccak256` of `alloy_primitives` on the bytes of the signature; the
/// selector is made of the first four bytes of the hash.
#[verifier::external_body]
fn function_selector(signature: &str) -> (selector: u32)
    ensures
        selector == selector_of(signature@),
{
    let hash = alloy_primitives::keccak256(signature.as_bytes());
    u32::from_be_bytes([hash[0], hash[1], hash[2], hash[3]])
}

/// The decoded call data of a liquidation call.
#[derive(Clone, Copy, Debug, PartialEq, Eq, Structural)]
pub struct LiquidationCall {
    pub collateral_asset: Address,
    pub debt_asset: Address,
    pub user: Address,
    pub debt_to_cover: U256,
    pub receive_a_token: bool,
}

/// The decoded call data of a flash loan.
pub struct FlashLoanCall {
    pub receiver_address: Address,
    pub assets: Vec<Address>,
    pub amounts: Vec<U256>,
    pub modes: Vec<U256>,
    pub on_behalf_of: Address,
}

/// The decoded call data of a call to Aave V2.
pub enum AaveV2Call {
    LiquidationCall(LiquidationCall),
    FlashLoan(FlashLoanCall),
}

/// A liquidation.
#[derive(Clone, Copy, Debug, PartialEq, Eq, Structural)]
pub struct NormalizedLiquidation {
    pub trace_index: u64,
    pub pool: Address,
    pub liquidator: Address,
    pub debtor: Address,
    pub collateral_asset: Address,
    pub debt_asset: Address,
    pub covered_debt: U256,
    /// Filled in once the whole transaction is classified.
    pub liquidated_collateral: U256,
}

/// A flash loan. What happened between borrowing and repaying is filled in
/// once the whole transaction is classified.
pub struct NormalizedFlashLoan {
    pub trace_index: u64,
    pub from: Address,
    pub pool: Address,
    pub receiver_contract: Address,
    pub assets: Vec<Address>,
    pub amounts: Vec<U256>,
    pub aave_mode: Option<(Vec<U256>, Address)>,
    /// The trace indices of the actions within the loan.
    pub child_actions: Vec<u64>,
    /// The trace indices of the transfers that repay the loan.
    pub repayments: Vec<u64>,
    pub fees_paid: Vec<U256>,
}

/// A normalized action. Each carries the index of the trace that it was
/// made from.
pub enum Actions {
    Liquidation(NormalizedLiquidation),
    FlashLoan(NormalizedFlashLoan),
    Revert { trace_index: u64 },
    Unclassified { trace_index: u64 },
}

impl Actions {
    /// The index of the trace that the action was made from.
    pub open spec fn trace_index_spec(self) -> u64 {
        match self {
            Actions::Liquidation(l) => l.trace_index,
            Actions::FlashLoan(f) => f.trace_index,
            Actions::Revert { trace_index } => trace_index,
            Actions::Unclassified { trace_index } => trace_index,
        }
    }

    /// The index of the trace that the action was made from.
    pub fn trace_index(&self) -> (index: u64)
        ensures
            index == self.trace_index_spec(),
    {
        match self {
            Actions::Liquidation(l) => l.trace_index,
            Actions::FlashLoan(f) => f.trace_index,
            Actions::Revert { trace_index } => *trace_index,
            Actions::Unclassified { trace_index } => *trace_index,
        }
    }
}

/// The liquidation that a liquidation call makes.
pub open spec fn liquidation_of(
    trace_index: u64,
    from_address: Address,
    target_address: Address,
    call_data: LiquidationCall,
) -> NormalizedLiquidation {
    NormalizedLiquidation {
        trace_index,
        pool: target_address,
        liquidator: from_address,
        debtor: call_data.user,
        collateral_asset: call_data.collateral_asset,
        debt_asset: call_data.debt_asset,
        covered_debt: call_data.debt_to_cover,
        liquidated_collateral: U256::zero_spec(),
    }
}

/// Whether `loan` is the flash loan that a flash-loan call makes.
pub open spec fn is_flash_loan_of(
    loan: NormalizedFlashLoan,
    trace_index: u64,
    from_address: Address,
    target_address: Address,
    call_data: FlashLoanCall,
) -> bool {
    &&& loan.trace_index == trace_index
    &&& loan.from == from_address
    &&& loan.pool == target_address
    &&& loan.receiver_contract == call_data.receiver_address
    &&& loan.assets == call_data.assets
    &&& loan.amounts == call_data.amounts
    &&& loan.aave_mode == Some((call_data.modes, call_data.on_behalf_of))
    &&& loan.child_actions@ == Seq::<u64>::empty()
    &&& loan.repayments@ == Seq::<u64>::empty()
    &&& loan.fees_paid@ == Seq::<U256>::empty()
}

/// The liquidation that a liquidation call makes. The collateral that was
/// seized is not yet known and is zero.
pub fn classify_liquidation_call(
    trace_index: u64,
    from_address: Address,
    target_address: Address,
    call_data: LiquidationCall,
) -> (action: NormalizedLiquidation)
    ensures
        action == liquidation_of(trace_index, from_address, target_address, call_data),
{
    NormalizedLiquidation {
        trace_index,
        pool: target_address,
        liquidator: from_address,
        debtor: call_data.user,
        collateral_asset: call_data.collateral_asset,
        debt_asset: call_data.debt_asset,
        covered_debt: call_data.debt_to_cover,
        liquidated_collateral: U256::zero(),
    }
}

/// The flash loan that a flash-loan call makes; `None` where the store
/// knows no tokens for the pool.
pub fn classify_flash_loan(
    trace_index: u64,
    from_address: Address,
    target_address: Address,
    call_data: FlashLoanCall,
    tokens: Option<(Address, Address)>,
) -> (action: Option<NormalizedFlashLoan>)
    ensures
        action is Some <==> tokens is Some,
        action matches Some(loan) ==> is_flash_loan_of(
            loan,
            trace_index,
            from_address,
            target_address,
            call_data,
        ),
{
    if tokens.is_none() {
        return None;
    }
    Some(
        NormalizedFlashLoan {
            trace_index,
            from: from_address,
            pool: target_address,
            receiver_contract: call_data.receiver_address,
            assets: call_data.assets,
            amounts: call_data.amounts,
            aave_mode: Some((call_data.modes, call_data.on_behalf_of)),
            child_actions: Vec::new(),
            repayments: Vec::new(),
            fees_paid: Vec::new(),
        },
    )
}

/// One call of a transaction's trace, with what the store and the decoder
/// know of it.
pub struct TraceEntry {
    pub trace_index: u64,
    pub from: Address,
    pub to: Address,
    /// The protocol of the contract that was called, if the store knows it.
    pub protocol: Option<Protocol>,
    /// The first four bytes of the call data.
    pub selector: u32,
    /// The decoded call data, if the call could be decoded.
    pub call_data: Option<AaveV2Call>,
    /// The tokens of the pool that was called, if the store knows them.
    pub tokens: Option<(Address, Address)>,
    pub reverted: bool,
}

/// The classifier of calls to Aave V2, with the selectors that it knows.
pub struct AaveV2Classifier {
    pub liquidation_call: u32,
    pub flash_loan: u32,
}

/// Whether `action` is what the classifier makes of a call to Aave V2:
/// a liquidation call with its decoded data makes a liquidation, a flash
/// loan with its decoded data on a pool whose tokens are known makes a
/// flash loan, and nothing else is recognised.
pub open spec fn is_dispatch_of(
    classifier: AaveV2Classifier,
    action: Option<Actions>,
    selector: u32,
    trace_index: u64,
    from_address: Address,
    target_address: Address,
    call_data: Option<AaveV2Call>,
    tokens: Option<(Address, Address)>,
) -> bool {
    match call_data {
        Some(AaveV2Call::LiquidationCall(call)) => if selector == classifier.liquidation_call {
            action matches Some(Actions::Liquidation(l)) && l == liquidation_of(
                trace_index,
                from_address,
                target_address,
                call,
            )
        } else {
            action is None
        },
        Some(AaveV2Call::FlashLoan(call)) => if selector != classifier.liquidation_call
            && selector == classifier.flash_loan && tokens is Some {
            action matches Some(Actions::FlashLoan(loan)) && is_flash_loan_of(
                loan,
                trace_index,
                from_address,
                target_address,
                call,
            )
        } else {
            action is None
        },
        None => action is None,
    }
}

/// Whether `action` is what the classifier makes of a trace entry: a
/// reverted call is a revert, a call to Aave V2 that the classifier
/// recognises is what it dispatches to, and any other call is unclassified.
pub open spec fn is_classification_of(
    classifier: AaveV2Classifier,
    action: Actions,
    entry: TraceEntry,
) -> bool {
    if entry.reverted {
        action == (Actions::Revert { trace_index: entry.trace_index })
    } else if entry.protocol != Some(Protocol::AaveV2) {
        action == (Actions::Unclassified { trace_index: entry.trace_index })
    } else {
        ||| is_dispatch_of(
            classifier,
            Some(action),
            entry.selector,
            entry.trace_index,
            entry.from,
            entry.to,
            entry.call_data,
            entry.tokens,
        )
        ||| is_dispatch_of(
            classifier,
            None,
            entry.selector,
            entry.trace_index,
            entry.from,
            entry.to,
            entry.call_data,
            entry.tokens,
        ) && action == (Actions::Unclassified { trace_index: entry.trace_index })
    }
}

/// Whether two actions are the same in everything they hold.
pub open spec fn same_action(a: Actions, b: Actions) -> bool {
    match (a, b) {
        (Actions::Liquidation(x), Actions::Liquidation(y)) => x == y,
        (Actions::FlashLoan(x), Actions::FlashLoan(y)) => {
            &&& x.trace_index == y.trace_index
            &&& x.from == y.from
            &&& x.pool == y.pool
            &&& x.receiver_contract == y.receiver_contract
            &&& x.assets@ == y.assets@
            &&& x.amounts@ == y.amounts@
            &&& x.aave_mode == y.aave_mode
            &&& x.child_actions@ == y.child_actions@
            &&& x.repayments@ == y.repayments@
            &&& x.fees_paid@ == y.fees_paid@
        },
        (Actions::Revert { trace_index: x }, Actions::Revert { trace_index: y }) => x == y,
        (Actions::Unclassified { trace_index: x }, Actions::Unclassified { trace_index: y }) => x
            == y,
        _ => false,
    }
}

/// Classification is deterministic: whatever the classifier makes of an
/// entry, it makes the same of it again.
pub proof fn classification_is_deterministic(
    classifier: AaveV2Classifier,
    first: Actions,
    second: Actions,
    entry: TraceEntry,
)
    requires
        is_classification_of(classifier, first, entry),
        is_classification_of(classifier, second, entry),
    ensures
        same_action(first, second),
{
}

impl AaveV2Classifier {
    /// The classifier with the selectors of the liquidation call and of
    /// the flash loan.
    pub fn new() -> (classifier: AaveV2Classifier)
        ensures
            classifier.liquidation_call == selector_of(liquidation_call_signature()),
            classifier.flash_loan == selector_of(flash_loan_signature()),
    {
        AaveV2Classifier {
            liquidation_call: function_selector(
                "liquidationCall(address,address,address,uint256,bool)",
            ),
            flash_loan: function_selector(
                "flashLoan(address,address[],uint256[],uint256[],address,bytes,uint16)",
            ),
        }
    }

    /// What the classifier makes of a call to Aave V2, if it recognises
    /// the call.
    pub fn dispatch(
        &self,
        selector: u32,
        trace_index: u64,
        from_address: Address,
        target_address: Address,
        call_data: Option<AaveV2Call>,
        tokens: Option<(Address, Address)>,
    ) -> (action: Option<Actions>)
        ensures
            is_dispatch_of(
                *self,
                action,
                selector,
                trace_index,
                from_address,
                target_address,
                call_data,
                tokens,
            ),
    {
        if selector == self.liquidation_call {
            match call_data {
                Some(AaveV2Call::LiquidationCall(call)) => Some(
                    Actions::Liquidation(
                        classify_liquidation_call(trace_index, from_address, target_address, call),
                    ),
                ),
                _ => None,
            }
        } else if selector == self.flash_loan {
            match call_data {
                Some(AaveV2Call::FlashLoan(call)) => {
                    match classify_flash_loan(
                        trace_index,
                        from_address,
                        target_address,
                        call,
                        tokens,
                    ) {
                        Some(loan) => Some(Actions::FlashLoan(loan)),
                        None => None,
                    }
                },
                _ => None,
            }
        } else {
            None
        }
    }

    /// What the classifier makes of one trace entry.
    pub fn classify_node(&self, entry: TraceEntry) -> (action: Actions)
        ensures
            is_classification_of(*self, action, entry),
            action.trace_index_spec() == entry.trace_index,
    {
        let trace_index = entry.trace_index;
        if entry.reverted {
            return Actions::Revert { trace_index };
        }
        let is_aave = match entry.protocol {
            Some(Protocol::AaveV2) => true,
            _ => false,
        };
        if !is_aave {
            return Actions::Unclassified { trace_index };
        }
        match self.dispatch(
            entry.selector,
            trace_index,
            entry.from,
            entry.to,
            entry.call_data,
            entry.tokens,
        ) {
            Some(action) => action,
            None => Actions::Unclassified { trace_index },
        }
    }

    /// What the classifier makes of the entries of a transaction's trace:
    /// one action for each entry, in order.
    pub fn classify_transaction(&self, entries: Vec<TraceEntry>) -> (actions: Vec<Actions>)
        ensures
            actions.len() == entries.len(),
            forall|i: int|
                0 <= i < entries.len() ==> is_classification_of(
                    *self,
                    #[trigger] actions[i],
                    entries[i],
                ) && actions[i].trace_index_spec() == entries[i].trace_index,
    {
        let ghost all = entries@;
        let mut rest = crate::util::reversed(entries);
        let mut actions: Vec<Actions> = Vec::new();
        while rest.len() > 0
            invariant
                rest.len() <= all.len(),
                rest@ == all.reverse().take(rest.len() as int),
                actions.len() == all.len() - rest.len(),
                forall|i: int|
                    0 <= i < actions.len() ==> is_classification_of(
                        *self,
                        #[trigger] actions[i],
                        all[i],
                    ) && actions[i].trace_index_spec() == all[i].trace_index,
            decreases rest.len(),
        {
            let entry = rest.pop().unwrap();
            let action = self.classify_node(entry);
            actions.push(action);
        }
        actions
    }
}

} // verus!
