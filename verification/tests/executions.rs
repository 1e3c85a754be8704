//! Plans, their contexts and receipts.
use akzio_domain::artifact::{ArtifactId, ArtifactKind, ArtifactRef};
use akzio_domain::error::DomainError;
use akzio_domain::execution::effects::{NoOrder, OrderReceipt, OrderReceiptState};
use akzio_domain::execution::plan::{ExecutionContext, ExecutionPlan, OrderIntent, OrderSide};
use akzio_domain::execution::snapshots::FactorExposure;
use akzio_domain::foundation::{
    Asset, ContentHash, MoneyMicros, RunId, TargetPortfolio, WeightPpm,
};
use akzio_domain::time::UtcTime;
use akzio_domain::DOMAIN_SCHEMA_VERSION;

fn now() -> UtcTime {
    let now = chrono::Utc::now();
    UtcTime::from_timestamp(now.timestamp(), now.timestamp_subsec_nanos()).unwrap()
}

fn reference(kind: ArtifactKind, name: &[u8]) -> ArtifactRef {
    ArtifactRef {
        artifact_id: ArtifactId(ContentHash::of_bytes(name)),
        kind,
    }
}

fn plan() -> ExecutionPlan {
    let mut target = TargetPortfolio::zeroed();
    target.weights.insert(Asset::Tqqq, WeightPpm(100_000));
    let mut plan = ExecutionPlan {
        schema_version: DOMAIN_SCHEMA_VERSION,
        decision_context: reference(ArtifactKind::DecisionContext, b"decision"),
        account_snapshot: reference(ArtifactKind::NormalizedEvidence, b"account"),
        quote_snapshot: reference(ArtifactKind::NormalizedEvidence, b"quotes"),
        market_clock_snapshot: reference(ArtifactKind::NormalizedEvidence, b"clock"),
        policy_hash: ContentHash::of_bytes(b"policy"),
        maximum_total_notional: MoneyMicros::from_usd_cents(100_000),
        target: target.clone(),
        orders: vec![OrderIntent {
            extended_hours: false,
            asset: Asset::Tqqq,
            side: OrderSide::Buy,
            notional: MoneyMicros::from_usd_cents(10_000),
            limit_price: MoneyMicros::from_usd_cents(5_000),
        }],
        gross_exposure_ppm: 100_000,
        net_exposure_ppm: 100_000,
        factor_exposure: FactorExposure::from_target(&target).unwrap(),
        turnover_ppm: 100_000,
        broker_session: "2026-08-10".to_owned(),
        created_at: now(),
        plan_hash: ContentHash::of_bytes(b"pending"),
    };
    plan.refresh_hash().unwrap();
    plan
}

#[test]
fn execution_plan_hash_covers_every_payload_field() {
    let mut plan = plan();
    assert!(plan.validate().is_ok());
    plan.orders[0].notional = MoneyMicros::from_usd_cents(20_000);
    assert_eq!(plan.validate(), Err(DomainError::ExecutionPlanHashMismatch));
}

#[test]
fn refreshed_hash_follows_the_plan() {
    let mut plan = plan();
    let before = plan.plan_hash.clone();
    plan.broker_session = "2026-08-11".to_owned();
    assert_eq!(plan.validate(), Err(DomainError::ExecutionPlanHashMismatch));
    plan.refresh_hash().unwrap();
    assert_eq!(plan.validate(), Ok(()));
    assert_ne!(plan.plan_hash, before);
    assert_eq!(plan.expected_hash().unwrap(), plan.plan_hash);
}

#[test]
fn leveraged_target_counts_its_factor() {
    let mut target = TargetPortfolio::zeroed();
    target.weights.insert(Asset::Tqqq, WeightPpm(100_000));
    let exposure = FactorExposure::from_target(&target).unwrap();
    assert_eq!(exposure.leveraged_equity_ppm, 300_000);
    assert_eq!(exposure.nasdaq_ppm, 300_000);
    assert_eq!(exposure.semiconductor_ppm, 0);
}

#[test]
fn accepted_context_requires_complete_plan_closure() {
    let context = ExecutionContext {
        schema_version: DOMAIN_SCHEMA_VERSION,
        run_id: RunId::new(),
        decision_context: reference(ArtifactKind::DecisionContext, b"decision"),
        account_snapshot: None,
        quote_snapshot: None,
        market_clock_snapshot: None,
        execution_plan: None,
        factor_exposure: None,
        turnover_ppm: None,
        plan_hash: None,
        broker_session: None,
        mandate_assessment: None,
        pretrade_safety: None,
        final_process_quality: None,
        frozen: false,
        created_at: now(),
    };
    assert!(context.validate().is_ok());
    assert!(context.validate_complete_plan_closure().is_err());
}

#[test]
fn order_receipt_requires_quantity_conservation() {
    let now = now();
    let mut receipt = OrderReceipt {
        plan_hash: ContentHash::of_bytes(b"plan"),
        asset: Asset::Qqq,
        client_order_id: "client-order".to_owned(),
        broker_order_id: "broker-order".to_owned(),
        state: OrderReceiptState::PartiallyFilled,
        requested_quantity_micros: 10,
        filled_quantity_micros: 4,
        remaining_quantity_micros: 6,
        average_fill_price: Some(MoneyMicros::from_usd_cents(10_000)),
        broker_updated_at: now,
        reason: None,
        observed_at: now,
    };
    assert!(receipt.validate().is_ok());
    receipt.remaining_quantity_micros = 5;
    assert!(receipt.validate().is_err());

    receipt.remaining_quantity_micros = 6;
    receipt.state = OrderReceiptState::Filled;
    assert_eq!(
        receipt.validate(),
        Err(DomainError::InvalidBudget {
            field: "order_receipt.state",
        })
    );
}

#[test]
fn no_order_requires_a_typed_blocker() {
    let no_order = NoOrder {
        execution_context: reference(ArtifactKind::ExecutionContext, b"context"),
        blockers: vec![],
        created_at: now(),
    };
    assert!(no_order.validate().is_err());
}

#[test]
fn selling_uses_no_budget() {
    let mut plan = plan();
    plan.orders.push(OrderIntent {
        extended_hours: false,
        asset: Asset::Qqq,
        side: OrderSide::Sell,
        notional: MoneyMicros::from_usd_cents(1_000_000),
        limit_price: MoneyMicros::from_usd_cents(5_000),
    });
    plan.refresh_hash().unwrap();
    assert_eq!(plan.validate(), Ok(()));
    plan.orders[1].side = OrderSide::Buy;
    plan.refresh_hash().unwrap();
    assert_eq!(
        plan.validate(),
        Err(DomainError::InvalidBudget {
            field: "execution_plan.maximum_total_notional"
        })
    );
}
