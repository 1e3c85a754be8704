//! What came of an execution: orders that were not placed, commitments, receipts and their
//! reconciliation.
use crate::artifact::{refs_all_cite, refs_all_have_kind, ArtifactKind, ArtifactRef};
use crate::decision::HardBlocker;
use crate::error::{
    budget, demand, empty, empty_field, first, invalid_budget, outcome, DomainError, ErrorView,
    Verdict,
};
use crate::foundation::{Asset, ContentHash, MoneyMicros};
use crate::ids::{PaperCommitmentId, PaperRepriceId, ReconciliationId};
use crate::json::{json_text, JsonTree, ToJson};
use crate::ordered::OrderedMap;
use crate::text::{blank, is_blank, joined, same_text};
use crate::time::UtcTime;
use crate::DOMAIN_SCHEMA_VERSION;
use vstd::prelude::*;

verus! {

/// Why no order was placed.
#[derive(Debug, Clone, PartialEq, Eq)]
pub struct NoOrder {
    pub execution_context: ArtifactRef,
    pub blockers: Vec<HardBlocker>,
    pub created_at: UtcTime,
}

impl NoOrder {
    pub open spec fn verdict(&self) -> Verdict {
        demand(
            self.execution_context.kind is ExecutionContext && self.blockers@.len() > 0,
            empty("no_order"@),
        )
    }

    pub fn validate(&self) -> (r: Result<(), DomainError>)
        ensures
            outcome(r) == self.verdict(),
    {
        if self.execution_context.kind != ArtifactKind::ExecutionContext || self.blockers.len()
            == 0 {
            return Err(empty_field("no_order"));
        }
        Ok(())
    }
}

/// Whether a plan may be executed.
#[derive(Debug, Clone, PartialEq, Eq)]
pub enum ExecutionVerdict {
    Accepted { execution_context: ArtifactRef },
    NoOrder { no_order: NoOrder },
}

impl ExecutionVerdict {
    pub open spec fn verdict(&self) -> Verdict {
        match self {
            ExecutionVerdict::Accepted { execution_context } => demand(
                execution_context.kind is ExecutionContext,
                empty("execution_verdict.execution_context"@),
            ),
            ExecutionVerdict::NoOrder { no_order } => no_order.verdict(),
        }
    }

    pub fn validate(&self) -> (r: Result<(), DomainError>)
        ensures
            outcome(r) == self.verdict(),
    {
        match self {
            ExecutionVerdict::Accepted { execution_context } => {
                if execution_context.kind != ArtifactKind::ExecutionContext {
                    return Err(empty_field("execution_verdict.execution_context"));
                }
                Ok(())
            },
            ExecutionVerdict::NoOrder { no_order } => no_order.validate(),
        }
    }
}

/// Whether execution is frozen, from an instant on. The latest record holds.
#[derive(Debug, Clone, PartialEq, Eq)]
pub struct FreezeState {
    pub schema_version: u32,
    pub frozen: bool,
    pub reason: String,
    pub changed_at: UtcTime,
}

impl FreezeState {
    pub open spec fn verdict(&self) -> Verdict {
        demand(
            self.schema_version == DOMAIN_SCHEMA_VERSION && !blank(self.reason@),
            empty("freeze_state"@),
        )
    }

    pub fn validate(&self) -> (r: Result<(), DomainError>)
        ensures
            outcome(r) == self.verdict(),
    {
        if self.schema_version != DOMAIN_SCHEMA_VERSION || is_blank(&self.reason) {
            return Err(empty_field("freeze_state"));
        }
        Ok(())
    }
}

/// The commitment to place the orders of a plan.
#[derive(Debug, Clone, PartialEq, Eq)]
pub struct PaperCommitment {
    pub commitment_id: PaperCommitmentId,
    pub execution_context: ArtifactRef,
    pub plan_hash: ContentHash,
    pub broker_session: String,
    pub client_order_ids: OrderedMap<Asset, String>,
    pub created_at: UtcTime,
}

impl PaperCommitment {
    pub open spec fn is_sound(&self) -> bool {
        &&& !blank(self.commitment_id@)
        &&& !blank(self.broker_session@)
        &&& self.client_order_ids.keys().len() > 0
        &&& self.execution_context.kind is ExecutionContext
        &&& forall|i: int|
            0 <= i < self.client_order_ids.keys().len() ==> !blank(
                (#[trigger] self.client_order_ids.values()[i])@,
            )
    }

    pub open spec fn verdict(&self) -> Verdict {
        demand(self.is_sound(), empty("paper_commitment"@))
    }

    fn has_named_orders(&self) -> (r: bool)
        ensures
            r == forall|i: int|
                0 <= i < self.client_order_ids.keys().len() ==> !blank(
                    (#[trigger] self.client_order_ids.values()[i])@,
                ),
    {
        let n: usize = self.client_order_ids.len();
        let mut i: usize = 0;
        while i < n
            invariant
                i <= n,
                n == self.client_order_ids.keys().len(),
                forall|j: int|
                    0 <= j < i ==> !blank((#[trigger] self.client_order_ids.values()[j])@),
            decreases n - i,
        {
            if is_blank(self.client_order_ids.value_at(i)) {
                return false;
            }
            i += 1;
        }
        true
    }

    pub fn validate(&self) -> (r: Result<(), DomainError>)
        ensures
            outcome(r) == self.verdict(),
    {
        if is_blank(&self.commitment_id.0) || is_blank(&self.broker_session)
            || self.client_order_ids.is_empty() || self.execution_context.kind
            != ArtifactKind::ExecutionContext || !self.has_named_orders() {
            return Err(empty_field("paper_commitment"));
        }
        Ok(())
    }
}

/// The state of an order at the broker.
#[derive(Clone, Copy, Debug, PartialEq, Eq, PartialOrd, Ord, Hash, Structural)]
pub enum OrderReceiptState {
    Accepted,
    PartiallyFilled,
    Filled,
    Canceled,
    Rejected,
    Failed,
}

impl OrderReceiptState {
    /// The name of the variant in JSON.
    pub open spec fn wire(self) -> Seq<char> {
        match self {
            OrderReceiptState::Accepted => "accepted"@,
            OrderReceiptState::PartiallyFilled => "partially_filled"@,
            OrderReceiptState::Filled => "filled"@,
            OrderReceiptState::Canceled => "canceled"@,
            OrderReceiptState::Rejected => "rejected"@,
            OrderReceiptState::Failed => "failed"@,
        }
    }

    /// The name of the variant in JSON.
    pub fn wire_name(self) -> (r: &'static str)
        ensures
            r@ == self.wire(),
    {
        match self {
            OrderReceiptState::Accepted => "accepted",
            OrderReceiptState::PartiallyFilled => "partially_filled",
            OrderReceiptState::Filled => "filled",
            OrderReceiptState::Canceled => "canceled",
            OrderReceiptState::Rejected => "rejected",
            OrderReceiptState::Failed => "failed",
        }
    }
}

impl ToJson for OrderReceiptState {
    open spec fn json(&self) -> JsonTree {
        JsonTree::Text(self.wire())
    }

    fn to_json(&self) -> (r: serde_json::Value) {
        json_text(self.wire_name())
    }
}

/// What the broker says of an order.
#[derive(Debug, Clone, PartialEq, Eq)]
pub struct OrderReceipt {
    pub plan_hash: ContentHash,
    pub asset: Asset,
    pub client_order_id: String,
    pub broker_order_id: String,
    pub state: OrderReceiptState,
    pub requested_quantity_micros: i64,
    pub filled_quantity_micros: i64,
    pub remaining_quantity_micros: i64,
    pub average_fill_price: Option<MoneyMicros>,
    pub broker_updated_at: UtcTime,
    pub reason: Option<String>,
    pub observed_at: UtcTime,
}

impl OrderReceipt {
    pub open spec fn is_named(&self) -> bool {
        &&& !blank(self.client_order_id@)
        &&& !blank(self.broker_order_id@)
        &&& self.reason matches Some(reason) ==> !blank(reason@)
    }

    /// What was asked for is filled or remains.
    pub open spec fn quantity_is_conserved(&self) -> bool {
        &&& self.requested_quantity_micros > 0
        &&& self.filled_quantity_micros >= 0
        &&& self.remaining_quantity_micros >= 0
        &&& self.filled_quantity_micros + self.remaining_quantity_micros
            == self.requested_quantity_micros
        &&& self.average_fill_price matches Some(price) ==> price.0 > 0
    }

    /// The state fits what is filled, and there is a price where something is.
    pub open spec fn state_fits(&self) -> bool {
        match self.state {
            OrderReceiptState::Accepted => self.filled_quantity_micros == 0
                && self.remaining_quantity_micros == self.requested_quantity_micros
                && self.average_fill_price is None,
            OrderReceiptState::PartiallyFilled => self.filled_quantity_micros > 0
                && self.remaining_quantity_micros > 0 && self.average_fill_price is Some,
            OrderReceiptState::Filled => self.filled_quantity_micros
                == self.requested_quantity_micros && self.remaining_quantity_micros == 0
                && self.average_fill_price is Some,
            _ => self.average_fill_price is Some <==> self.filled_quantity_micros > 0,
        }
    }

    pub open spec fn verdict(&self) -> Verdict {
        first(
            demand(self.is_named(), empty("order_receipt.identity"@)),
            first(
                demand(self.quantity_is_conserved(), budget("order_receipt.quantity"@)),
                demand(self.state_fits(), budget("order_receipt.state"@)),
            ),
        )
    }

    fn has_fitting_state(&self) -> (r: bool)
        ensures
            r == self.state_fits(),
    {
        match self.state {
            OrderReceiptState::Accepted => self.filled_quantity_micros == 0
                && self.remaining_quantity_micros == self.requested_quantity_micros
                && self.average_fill_price.is_none(),
            OrderReceiptState::PartiallyFilled => self.filled_quantity_micros > 0
                && self.remaining_quantity_micros > 0 && self.average_fill_price.is_some(),
            OrderReceiptState::Filled => self.filled_quantity_micros
                == self.requested_quantity_micros && self.remaining_quantity_micros == 0
                && self.average_fill_price.is_some(),
            OrderReceiptState::Canceled | OrderReceiptState::Rejected
            | OrderReceiptState::Failed => self.average_fill_price.is_some() == (
            self.filled_quantity_micros > 0),
        }
    }

    pub fn validate(&self) -> (r: Result<(), DomainError>)
        ensures
            outcome(r) == self.verdict(),
    {
        let no_reason = match &self.reason {
            Some(reason) => is_blank(reason),
            None => false,
        };
        if is_blank(&self.client_order_id) || is_blank(&self.broker_order_id) || no_reason {
            return Err(empty_field("order_receipt.identity"));
        }
        let conserved = match self.filled_quantity_micros.checked_add(
            self.remaining_quantity_micros,
        ) {
            Some(sum) => sum == self.requested_quantity_micros,
            None => false,
        };
        let no_price = match self.average_fill_price {
            Some(price) => price.0 <= 0,
            None => false,
        };
        if self.requested_quantity_micros <= 0 || self.filled_quantity_micros < 0
            || self.remaining_quantity_micros < 0 || !conserved || no_price {
            return Err(invalid_budget("order_receipt.quantity"));
        }
        if !self.has_fitting_state() {
            return Err(invalid_budget("order_receipt.state"));
        }
        Ok(())
    }
}

/// In a valid receipt something is filled exactly where there is a price, and nothing remains
/// exactly where all is filled.
pub proof fn valid_receipt_has_a_price_for_what_is_filled(receipt: OrderReceipt)
    requires
        receipt.verdict() is Ok,
    ensures
        receipt.average_fill_price is Some <==> receipt.filled_quantity_micros > 0,
        receipt.remaining_quantity_micros == 0 <==> receipt.filled_quantity_micros
            == receipt.requested_quantity_micros,
        receipt.state is Filled ==> receipt.remaining_quantity_micros == 0,
{
}

/// The one time that an order is canceled and placed again at another price.
#[derive(Debug, Clone, PartialEq, Eq)]
pub struct PaperReprice {
    pub schema_version: u32,
    pub reprice_id: PaperRepriceId,
    pub commitment: ArtifactRef,
    pub prior_receipt: ArtifactRef,
    pub asset: Asset,
    pub prior_client_order_id: String,
    pub replacement_client_order_id: String,
    pub prior_broker_order_id: String,
    pub replacement_limit_price: MoneyMicros,
    pub created_at: UtcTime,
}

/// The second name is the first with the ending of a second try in place of that of a first.
pub open spec fn is_second_try(prior: Seq<char>, replacement: Seq<char>) -> bool {
    &&& prior.len() > 3
    &&& prior.skip(prior.len() - 3) == "-r0"@
    &&& replacement == prior.take(prior.len() - 3) + "-r1"@
}

fn names_second_try(prior: &str, replacement: &str) -> (r: bool)
    ensures
        r == is_second_try(prior@, replacement@),
{
    let n: usize = prior.unicode_len();
    if n <= 3 {
        return false;
    }
    let base = prior.substring_char(0, n - 3);
    let ending = prior.substring_char(n - 3, n);
    proof {
        assert(prior@.subrange(0, n - 3) =~= prior@.take(n - 3));
        assert(prior@.subrange(n - 3, n as int) =~= prior@.skip(n - 3));
    }
    let wanted = joined(base, "-r1");
    same_text(ending, "-r0") && same_text(replacement, &wanted)
}

impl PaperReprice {
    pub open spec fn is_sound(&self) -> bool {
        &&& self.schema_version == DOMAIN_SCHEMA_VERSION
        &&& !blank(self.reprice_id@)
        &&& self.commitment.kind is ExecutionCommitment
        &&& self.prior_receipt.kind is OrderReceipt
        &&& !blank(self.prior_broker_order_id@)
        &&& self.replacement_limit_price.0 > 0
    }

    pub open spec fn verdict(&self) -> Verdict {
        first(
            demand(self.is_sound(), empty("paper_reprice"@)),
            demand(
                is_second_try(self.prior_client_order_id@, self.replacement_client_order_id@),
                ErrorView::InvalidRepriceLineage,
            ),
        )
    }

    pub fn validate(&self) -> (r: Result<(), DomainError>)
        ensures
            outcome(r) == self.verdict(),
    {
        if self.schema_version != DOMAIN_SCHEMA_VERSION || is_blank(&self.reprice_id.0)
            || self.commitment.kind != ArtifactKind::ExecutionCommitment || self.prior_receipt.kind
            != ArtifactKind::OrderReceipt || is_blank(&self.prior_broker_order_id)
            || self.replacement_limit_price.0 <= 0 {
            return Err(empty_field("paper_reprice"));
        }
        if !names_second_try(&self.prior_client_order_id, &self.replacement_client_order_id) {
            return Err(DomainError::InvalidRepriceLineage);
        }
        Ok(())
    }
}

/// An order is placed again once: a second try has no second try.
pub proof fn second_try_is_the_last(prior: Seq<char>, replacement: Seq<char>, next: Seq<char>)
    requires
        is_second_try(prior, replacement),
    ensures
        !is_second_try(replacement, next),
{
    reveal_strlit("-r0");
    reveal_strlit("-r1");
    let n = replacement.len() as int;
    assert(replacement[n - 1] == '1');
    assert(replacement.skip(n - 3)[2] == replacement[n - 1]);
    assert("-r0"@[2] == '0');
}

/// How far an execution is reconciled.
#[derive(Clone, Copy, Debug, PartialEq, Eq, PartialOrd, Ord, Hash, Structural)]
pub enum ReconciliationState {
    Pending,
    Partial,
    Complete,
    Failed,
}

impl ReconciliationState {
    /// The name of the variant in JSON.
    pub open spec fn wire(self) -> Seq<char> {
        match self {
            ReconciliationState::Pending => "pending"@,
            ReconciliationState::Partial => "partial"@,
            ReconciliationState::Complete => "complete"@,
            ReconciliationState::Failed => "failed"@,
        }
    }

    /// The name of the variant in JSON.
    pub fn wire_name(self) -> (r: &'static str)
        ensures
            r@ == self.wire(),
    {
        match self {
            ReconciliationState::Pending => "pending",
            ReconciliationState::Partial => "partial",
            ReconciliationState::Complete => "complete",
            ReconciliationState::Failed => "failed",
        }
    }
}

impl ToJson for ReconciliationState {
    open spec fn json(&self) -> JsonTree {
        JsonTree::Text(self.wire())
    }

    fn to_json(&self) -> (r: serde_json::Value) {
        json_text(self.wire_name())
    }
}

/// What the broker's receipts make of a commitment.
#[derive(Debug, Clone, PartialEq, Eq)]
pub struct Reconciliation {
    pub reconciliation_id: ReconciliationId,
    pub commitment: ArtifactRef,
    pub state: ReconciliationState,
    pub broker_receipts: Vec<ArtifactRef>,
    pub reconciled_at: UtcTime,
}

impl Reconciliation {
    /// A complete reconciliation rests on receipts.
    pub open spec fn verdict(&self) -> Verdict {
        first(
            demand(
                !blank(self.reconciliation_id@) && self.commitment.kind is ExecutionCommitment
                    && refs_all_cite(self.broker_receipts@, ArtifactKind::OrderReceipt),
                empty("reconciliation"@),
            ),
            demand(
                self.state is Complete ==> self.broker_receipts@.len() > 0,
                empty("reconciliation.receipts"@),
            ),
        )
    }

    pub fn validate(&self) -> (r: Result<(), DomainError>)
        ensures
            outcome(r) == self.verdict(),
    {
        if is_blank(&self.reconciliation_id.0) || self.commitment.kind
            != ArtifactKind::ExecutionCommitment || !refs_all_have_kind(
            &self.broker_receipts,
            ArtifactKind::OrderReceipt,
        ) {
            return Err(empty_field("reconciliation"));
        }
        if self.state == ReconciliationState::Complete && self.broker_receipts.len() == 0 {
            return Err(empty_field("reconciliation.receipts"));
        }
        Ok(())
    }
}

/// What a no order is refused with: the first fault that it has.
pub proof fn refusal_of_no_order_names_its_fault(this: NoOrder)
    ensures
        !(this.execution_context.kind is ExecutionContext && this.blockers@.len() > 0)
            ==> this.verdict() == Verdict::Err(empty("no_order"@)),
{
}

/// What a freeze state is refused with: the first fault that it has.
pub proof fn refusal_of_freeze_state_names_its_fault(this: FreezeState)
    ensures
        !(this.schema_version == DOMAIN_SCHEMA_VERSION && !blank(this.reason@))
            ==> this.verdict() == Verdict::Err(empty("freeze_state"@)),
{
}

/// What a paper commitment is refused with: the first fault that it has.
pub proof fn refusal_of_paper_commitment_names_its_fault(this: PaperCommitment)
    ensures
        !(this.is_sound()) ==> this.verdict() == Verdict::Err(empty("paper_commitment"@)),
{
}

/// What an order receipt is refused with: the first fault that it has.
pub proof fn refusal_of_order_receipt_names_its_fault(this: OrderReceipt)
    ensures
        !(this.is_named()) ==> this.verdict() == Verdict::Err(empty("order_receipt.identity"@)),
        (this.is_named()) && !(this.quantity_is_conserved())
            ==> this.verdict() == Verdict::Err(budget("order_receipt.quantity"@)),
        (this.is_named()) && (this.quantity_is_conserved()) && !(this.state_fits())
            ==> this.verdict() == Verdict::Err(budget("order_receipt.state"@)),
{
}

/// What a paper reprice is refused with: the first fault that it has.
pub proof fn refusal_of_paper_reprice_names_its_fault(this: PaperReprice)
    ensures
        !(this.is_sound()) ==> this.verdict() == Verdict::Err(empty("paper_reprice"@)),
        (this.is_sound())
            && !(is_second_try(this.prior_client_order_id@, this.replacement_client_order_id@))
            ==> this.verdict() == Verdict::Err(ErrorView::InvalidRepriceLineage),
{
}

/// What a reconciliation is refused with: the first fault that it has.
pub proof fn refusal_of_reconciliation_names_its_fault(this: Reconciliation)
    ensures
        !(!blank(this.reconciliation_id@) && this.commitment.kind is ExecutionCommitment
            && refs_all_cite(this.broker_receipts@, ArtifactKind::OrderReceipt))
            ==> this.verdict() == Verdict::Err(empty("reconciliation"@)),
        (!blank(this.reconciliation_id@) && this.commitment.kind is ExecutionCommitment
            && refs_all_cite(this.broker_receipts@, ArtifactKind::OrderReceipt))
            && !(this.state is Complete ==> this.broker_receipts@.len() > 0)
            ==> this.verdict() == Verdict::Err(empty("reconciliation.receipts"@)),
{
}

} // verus!
