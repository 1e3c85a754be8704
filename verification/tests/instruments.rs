//! Evidence of instruments, risk assessments and broker snapshots.
use akzio_domain::artifact::{ArtifactId, ArtifactKind, ArtifactRef};
use akzio_domain::error::DomainError;
use akzio_domain::evaluation::outcome::OutcomeHorizon;
use akzio_domain::evaluation::risk_ground_truth::{
    RiskAssessmentAuthority, RiskGroundTruthAssessment,
};
use akzio_domain::execution::effects::{PaperReprice, Reconciliation, ReconciliationState};
use akzio_domain::execution::session::{next_beginning, session_at, DayMoments, TradingSession};
use akzio_domain::execution::snapshots::{AccountSnapshot, DecisionClock, Position};
use akzio_domain::foundation::{Asset, ContentHash, MoneyMicros};
use akzio_domain::ids::{PaperRepriceId, ReconciliationId};
use akzio_domain::instrument_evidence::{
    instrument_evidence_blockers_for_session, instrument_evidence_keys_for_resource,
    instrument_evidence_needs_for_session, instrument_evidence_registry,
    instrument_evidence_registry_hash, instrument_evidence_required_keys_for_asset,
    instrument_evidence_requirements_for_session,
};
use akzio_domain::ordered::{OrderedMap, OrderedSet};
use akzio_domain::time::{CalendarDay, UtcTime};
use akzio_domain::DOMAIN_SCHEMA_VERSION;

fn at(secs: i64) -> UtcTime {
    UtcTime::from_timestamp(secs, 0).unwrap()
}

fn reference(kind: ArtifactKind, name: &str) -> ArtifactRef {
    ArtifactRef {
        artifact_id: ArtifactId(ContentHash::of_bytes(name.as_bytes())),
        kind,
    }
}

#[test]
fn required_resources_count_as_their_own_evidence() {
    let requirements = instrument_evidence_requirements_for_session("2026-09-04");
    assert_eq!(requirements.len(), 27);
    for requirement in &requirements {
        let keys = instrument_evidence_keys_for_resource(&requirement.need.resource);
        assert!(
            keys.contains(&requirement.key),
            "{}",
            requirement.need.resource
        );
        let count = if requirement.need.resource == "paper.quotes" {
            4
        } else {
            1
        };
        assert_eq!(keys.len(), count, "{}", requirement.need.resource);
    }
    let resources: Vec<String> = requirements
        .iter()
        .map(|r| r.need.resource.clone())
        .collect();
    assert!(resources.contains(&"corporate_actions:QQQ:2025-09-03:2026-09-04".to_owned()));
    assert!(resources.contains(&"option_chain:SOXL:2026-09-04:2027-01-02".to_owned()));
    assert!(resources
        .contains(&"release_calendar:2026-09-04:2026-10-19:2026-09-03".to_owned()));
    assert!(instrument_evidence_blockers_for_session("2026-09-04", &resources).is_empty());
}

#[test]
fn what_is_missing_blocks() {
    let blockers = instrument_evidence_blockers_for_session("2026-09-04", &vec![]);
    assert_eq!(blockers.len(), 27);
    let needs = instrument_evidence_needs_for_session("2026-09-04");
    assert_eq!(needs.len(), 24);
    assert!(needs.windows(2).all(|pair| pair[0] < pair[1]));
}

#[test]
fn required_keys_are_those_of_the_requirements() {
    for session in ["2026-09-04", "any: text"] {
        let requirements = instrument_evidence_requirements_for_session(session);
        for (asset, count) in [
            (Asset::Tqqq, 8),
            (Asset::Qqq, 7),
            (Asset::Soxx, 7),
            (Asset::Soxl, 8),
        ] {
            let keys = requirements
                .iter()
                .map(|requirement| requirement.key)
                .filter(|key| key.asset.is_none() || key.asset == Some(asset))
                .collect();
            let required = instrument_evidence_required_keys_for_asset(asset);
            assert_eq!(required.len(), count);
            assert!(required.same(&OrderedSet::from_vec(keys)));
        }
    }
}

#[test]
fn leveraged_funds_need_their_terms() {
    assert_eq!(
        instrument_evidence_required_keys_for_asset(Asset::Tqqq).len(),
        instrument_evidence_required_keys_for_asset(Asset::Qqq).len() + 1
    );
    let registry = instrument_evidence_registry();
    let tqqq = registry.iter().find(|p| p.asset == Asset::Tqqq).unwrap();
    assert_eq!(tqqq.daily_leverage_multiplier, 3);
    assert!(tqqq.daily_reset());
    assert_eq!(
        instrument_evidence_registry_hash(),
        instrument_evidence_registry_hash()
    );
    assert!(instrument_evidence_keys_for_resource("unheard of").is_empty());
}

fn assessment() -> RiskGroundTruthAssessment {
    let authority = |identity: &str| RiskAssessmentAuthority {
        identity: identity.to_owned(),
        version: "v1".to_owned(),
    };
    RiskGroundTruthAssessment {
        schema_version: DOMAIN_SCHEMA_VERSION,
        schedule: reference(ArtifactKind::OutcomeSchedule, "schedule"),
        decision: reference(ArtifactKind::Decision, "decision"),
        horizon: OutcomeHorizon::T1,
        observed_trading_day: CalendarDay::parse("2026-09-04").unwrap(),
        expected_risk_ids: OrderedSet::from_vec(vec!["gap".to_owned(), "rates".to_owned()]),
        detected_risk_ids: OrderedSet::from_vec(vec!["gap".to_owned()]),
        basis_refs: vec![reference(ArtifactKind::NormalizedEvidence, "basis")],
        decision_producer_identity: "producer".to_owned(),
        reviewer: authority("first"),
        verifier: authority("second"),
        assessed_at: at(1_790_000_000),
        valid_until: at(1_790_000_100),
        sealed_at: Some(at(1_790_000_050)),
    }
}

#[test]
fn judges_of_a_risk_are_three() {
    let assessment = assessment();
    assert_eq!(assessment.validate(), Ok(()));
    assert_eq!(assessment.expected_count(), 2);
    assert_eq!(assessment.detected_count(), 1);
    let mut same = assessment.clone();
    same.verifier.identity = " FIRST ".to_owned();
    assert_eq!(
        same.validate(),
        Err(DomainError::EmptyField {
            field: "risk_ground_truth.independence"
        })
    );
    let mut surprising = assessment.clone();
    surprising.detected_risk_ids.insert("flood".to_owned());
    assert_eq!(
        surprising.validate(),
        Err(DomainError::InvalidBudget {
            field: "risk_ground_truth.risk_ids"
        })
    );
    assert_eq!(assessment.validate_sealed_at(at(1_790_000_060)), Ok(()));
    assert!(assessment.validate_sealed_at(at(1_790_000_040)).is_err());
}

#[test]
fn second_try_is_named_after_the_first() {
    let mut reprice = PaperReprice {
        schema_version: DOMAIN_SCHEMA_VERSION,
        reprice_id: PaperRepriceId("reprice".to_owned()),
        commitment: reference(ArtifactKind::ExecutionCommitment, "commitment"),
        prior_receipt: reference(ArtifactKind::OrderReceipt, "receipt"),
        asset: Asset::Qqq,
        prior_client_order_id: "order-r0".to_owned(),
        replacement_client_order_id: "order-r1".to_owned(),
        prior_broker_order_id: "broker".to_owned(),
        replacement_limit_price: MoneyMicros(1),
        created_at: at(0),
    };
    let first = reprice.validate();
    reprice.replacement_client_order_id = "order-r2".to_owned();
    assert_eq!(
        reprice.validate(),
        Err(DomainError::InvalidRepriceLineage)
    );
    assert_eq!(first, Ok(()));
}

#[test]
fn complete_reconciliation_has_receipts() {
    let mut reconciliation = Reconciliation {
        reconciliation_id: ReconciliationId("reconciliation".to_owned()),
        commitment: reference(ArtifactKind::ExecutionCommitment, "commitment"),
        state: ReconciliationState::Complete,
        broker_receipts: vec![],
        reconciled_at: at(0),
    };
    assert_eq!(
        reconciliation.validate(),
        Err(DomainError::EmptyField {
            field: "reconciliation.receipts"
        })
    );
    reconciliation.state = ReconciliationState::Pending;
    assert_eq!(reconciliation.validate(), Ok(()));
}

#[test]
fn account_holds_no_short_position() {
    let mut account = AccountSnapshot {
        schema_version: DOMAIN_SCHEMA_VERSION,
        broker_session: "2026-09-04".to_owned(),
        observed_at: at(0),
        equity: MoneyMicros(1),
        buying_power: MoneyMicros(0),
        day_turnover: MoneyMicros(0),
        active: true,
        trading_blocked: false,
        positions: OrderedMap::from_entries(vec![(
            Asset::Qqq,
            Position {
                quantity_micros: 1,
                market_value: MoneyMicros(1),
            },
        )]),
        external_positions: OrderedSet::new(),
        open_order_ids: OrderedSet::new(),
    };
    assert_eq!(account.validate(), Ok(()));
    account.positions.insert(
        Asset::Qqq,
        Position {
            quantity_micros: -1,
            market_value: MoneyMicros(1),
        },
    );
    assert_eq!(
        account.validate(),
        Err(DomainError::InvalidBudget {
            field: "account_snapshot.positions"
        })
    );
}

#[test]
fn bar_is_complete_the_day_after() {
    let clock = DecisionClock {
        decision_cutoff: at(10 * 86_400 + 5),
    };
    assert!(clock.contains(at(10 * 86_400 + 5)));
    assert!(!clock.contains(at(10 * 86_400 + 6)));
    assert!(clock.contains_vintage(at(10 * 86_400).date()));
    assert!(!clock.contains_vintage(at(11 * 86_400).date()));
    assert!(clock.contains_completed_daily_bar(at(10 * 86_400 - 1)));
    assert!(!clock.contains_completed_daily_bar(at(10 * 86_400)));
}

#[test]
fn sessions_of_a_day_follow_each_other() {
    let moments = DayMoments {
        overnight: at(0),
        pre: at(10),
        open: at(20),
        close: at(30),
        end: at(40),
    };
    assert_eq!(
        session_at(&moments, &at(0), false),
        Some((TradingSession::Overnight, at(10)))
    );
    assert_eq!(
        session_at(&moments, &at(19), false),
        Some((TradingSession::PreMarket, at(20)))
    );
    assert_eq!(session_at(&moments, &at(20), false), None);
    assert_eq!(
        session_at(&moments, &at(20), true),
        Some((TradingSession::Regular, at(30)))
    );
    assert_eq!(
        session_at(&moments, &at(30), true),
        Some((TradingSession::AfterHours, at(40)))
    );
    assert_eq!(session_at(&moments, &at(40), true), None);
    assert_eq!(next_beginning(None, &moments, &at(-1)), Some(at(0)));
    assert_eq!(next_beginning(Some(at(-1)), &moments, &at(-2)), Some(at(-1)));
    assert_eq!(next_beginning(Some(at(5)), &moments, &at(-2)), Some(at(0)));
    assert_eq!(next_beginning(None, &moments, &at(0)), None);
}
