//! Allocations and forecasts, and the claims that carry them.
use akzio_domain::artifact::{ArtifactId, ArtifactKind, ArtifactRef};
use akzio_domain::decision::{
    claim_slot_eligible, research_coverage_is_complete, validate_forecasts,
    validate_structured_allocation_eligibility, validate_verified_forecast_slots, DecisionDraft,
    DecisionHorizon, Forecast, ForecastThesis, ResearchAllocationPlan, ResearchAssetAllocation,
};
use akzio_domain::error::DomainError;
use akzio_domain::foundation::{Asset, ContentHash, WeightPpm};
use akzio_domain::ordered::OrderedSet;
use akzio_domain::research::{
    ClaimStance, ClaimVerificationEvidence, ClaimVerificationStatus, CritiqueSeverity, EvidenceGap,
    EvidenceGapImpact, EvidenceGround, EvidenceGroundRole, ResearchClaim, ResearchCritique,
    ResearchShard, SourceAuthority, TemporalValidity,
};
use akzio_domain::time::UtcTime;
use akzio_domain::DOMAIN_SCHEMA_VERSION;

fn evidence(bytes: &[u8]) -> ArtifactRef {
    ArtifactRef {
        artifact_id: ArtifactId(ContentHash::of_bytes(bytes)),
        kind: ArtifactKind::NormalizedEvidence,
    }
}

fn zero(asset: Asset) -> ResearchAssetAllocation {
    ResearchAssetAllocation {
        asset,
        target_weight_ppm: WeightPpm(0),
        supporting_horizons: Vec::new(),
        evidence_refs: Vec::new(),
        rationale: format!("No qualified research basis for {asset:?}."),
        abstention_reason: Some("explicit research abstention".to_owned()),
    }
}

#[test]
fn research_allocation_requires_explicit_cash_and_zero_reason() {
    let plan = ResearchAllocationPlan {
        cash_weight_ppm: WeightPpm(900_000),
        allocations: vec![
            ResearchAssetAllocation {
                asset: Asset::Tqqq,
                target_weight_ppm: WeightPpm(100_000),
                supporting_horizons: vec![DecisionHorizon::T1],
                evidence_refs: vec![evidence(b"research-allocation-evidence")],
                rationale: "Price and macro support a bounded T1 research target.".to_owned(),
                abstention_reason: None,
            },
            zero(Asset::Qqq),
            zero(Asset::Soxx),
            zero(Asset::Soxl),
        ],
    };
    assert!(plan.validate().is_ok());

    let mut no_reason = plan.clone();
    no_reason.allocations[1].abstention_reason = None;
    assert!(no_reason.validate().is_err());

    let mut wrong_cash = plan;
    wrong_cash.cash_weight_ppm = WeightPpm(899_999);
    assert!(wrong_cash.validate().is_err());
}

fn directional_ground(label: &str, asset: Asset, domain: ResearchShard) -> EvidenceGround {
    EvidenceGround {
        evidence: evidence(label.as_bytes()),
        support: format!("authoritative support for {asset:?} {domain:?}"),
        role: EvidenceGroundRole::Directional,
        assets: OrderedSet::from_vec(vec![asset]),
        domain: Some(domain),
    }
}

fn in_a_day() -> UtcTime {
    UtcTime::from_timestamp(chrono::Utc::now().timestamp() + 86_400, 0).unwrap()
}

fn scoped_fixture() -> (DecisionDraft, ResearchClaim, ResearchCritique) {
    let claim_ref = ArtifactRef {
        artifact_id: ArtifactId(ContentHash::of_bytes(b"claim")),
        kind: ArtifactKind::Claim,
    };
    let mut grounds = Vec::new();
    for asset in [Asset::Tqqq, Asset::Qqq] {
        grounds.push(directional_ground(
            &format!("{asset:?}-price"),
            asset,
            ResearchShard::PriceMarketStructure,
        ));
        grounds.push(directional_ground(
            &format!("{asset:?}-macro"),
            asset,
            ResearchShard::Macro,
        ));
        grounds.push(directional_ground(
            &format!("{asset:?}-news"),
            asset,
            ResearchShard::NewsEvent,
        ));
    }
    let claim = ResearchClaim {
        schema_version: DOMAIN_SCHEMA_VERSION,
        topic: "T1 multi-asset claim".to_owned(),
        statement: "Both assets have independently grounded T1 evidence".to_owned(),
        horizon: DecisionHorizon::T1,
        stance: ClaimStance::Bullish,
        materiality_ppm: 600_000,
        confidence_ppm: 800_000,
        grounds: grounds.clone(),
        evidence_gaps: vec![EvidenceGap {
            supplemental_requests: Vec::new(),
            topic: "TQQQ news unavailable".to_owned(),
            rationale: "Only TQQQ lacks its T1 news domain".to_owned(),
            impact: EvidenceGapImpact::BlocksDirectionalForecast,
            assets: OrderedSet::from_vec(vec![Asset::Tqqq]),
            horizons: OrderedSet::from_vec(vec![DecisionHorizon::T1]),
            supplemental_needs: Vec::new(),
            retriable: false,
        }],
    };
    let critique = ResearchCritique {
        schema_version: DOMAIN_SCHEMA_VERSION,
        target: claim_ref.clone(),
        topic: "T1 multi-asset review".to_owned(),
        severity: CritiqueSeverity::Low,
        blocker: true,
        rationale: "The blocker is scoped to TQQQ only".to_owned(),
        grounds: grounds.clone(),
        evidence_gaps: claim.evidence_gaps.clone(),
        verification_status: ClaimVerificationStatus::Supported,
        supporting_refs: grounds
            .iter()
            .map(|ground| ClaimVerificationEvidence {
                evidence: ground.evidence.clone(),
                authority: SourceAuthority::Official,
                temporal_validity: TemporalValidity::ValidAtDecisionCutoff,
            })
            .collect(),
        conflicting_refs: Vec::new(),
    };
    let forecast = Forecast {
        asset: Asset::Qqq,
        horizon: DecisionHorizon::T1,
        positive_return_probability_ppm: 700_000,
        expected_return_ppm: 10_000,
        thesis: Some(ForecastThesis {
            thesis_valid_until: in_a_day(),
            expected_holding_period_days: DecisionHorizon::T1.trading_days(),
            exit_condition: "test exit".to_owned(),
            invalidation_conditions: vec!["test invalidation".to_owned()],
        }),
    };
    let draft = DecisionDraft {
        numeric_basis: Vec::new(),
        summary: "scoped blocker regression".to_owned(),
        confidence_ppm: 800_000,
        forecasts: vec![forecast],
        research_allocation: None,
        claims: vec![claim_ref],
        critiques: vec![ArtifactRef {
            artifact_id: ArtifactId(ContentHash::of_bytes(b"critique")),
            kind: ArtifactKind::Critique,
        }],
        evidence: grounds.into_iter().map(|ground| ground.evidence).collect(),
        material_conflicts: Vec::new(),
        hard_blockers: Vec::new(),
        soft_warnings: Vec::new(),
        applied_learning_refs: Vec::new(),
        rejected_learning_refs: Vec::new(),
    };
    (draft, claim, critique)
}

#[test]
fn nonzero_allocation_must_cite_its_eligible_asset_claim() {
    let (mut draft, claim, critique) = scoped_fixture();
    draft.research_allocation = Some(ResearchAllocationPlan {
        allocations: Asset::EXECUTABLE
            .into_iter()
            .map(|asset| ResearchAssetAllocation {
                asset,
                target_weight_ppm: WeightPpm(if asset == Asset::Qqq { 100_000 } else { 0 }),
                supporting_horizons: if asset == Asset::Qqq {
                    vec![DecisionHorizon::T1]
                } else {
                    vec![]
                },
                evidence_refs: if asset == Asset::Qqq {
                    vec![draft.claims[0].clone()]
                } else {
                    vec![]
                },
                rationale: "scoped allocation regression".into(),
                abstention_reason: if asset == Asset::Qqq {
                    None
                } else {
                    Some("no allocation".into())
                },
            })
            .collect(),
        cash_weight_ppm: WeightPpm(900_000),
    });
    let claims = vec![(draft.claims[0].clone(), claim.clone())];
    let critiques = vec![critique];
    assert!(validate_structured_allocation_eligibility(&draft, &claims, &critiques).is_ok());
    let unrelated = claim
        .grounds
        .iter()
        .find(|g| g.assets.contains(&Asset::Tqqq))
        .unwrap()
        .evidence
        .clone();
    draft
        .research_allocation
        .as_mut()
        .unwrap()
        .allocations
        .iter_mut()
        .find(|a| a.asset == Asset::Qqq)
        .unwrap()
        .evidence_refs = vec![unrelated];
    assert!(validate_structured_allocation_eligibility(&draft, &claims, &critiques).is_err());
}

#[test]
fn unrelated_claim_gap_cannot_poison_a_verified_slot() {
    let (draft, claim, critique) = scoped_fixture();
    let mut unrelated = claim.clone();
    unrelated
        .grounds
        .retain(|g| g.assets.contains(&Asset::Tqqq));
    unrelated.evidence_gaps[0].assets = OrderedSet::new();
    let unrelated_ref = ArtifactRef {
        artifact_id: ArtifactId(ContentHash::of_bytes(b"unrelated")),
        kind: ArtifactKind::Claim,
    };
    assert!(validate_verified_forecast_slots(
        &draft,
        &vec![(draft.claims[0].clone(), claim), (unrelated_ref, unrelated)],
        &vec![critique]
    )
    .is_ok());
}

#[test]
fn unavailable_news_warning_preserves_verified_price_and_macro_direction() {
    let (draft, mut claim, mut critique) = scoped_fixture();
    claim
        .grounds
        .retain(|g| g.domain != Some(ResearchShard::NewsEvent));
    claim.evidence_gaps[0].impact = EvidenceGapImpact::Warning;
    claim.evidence_gaps[0].assets = OrderedSet::from_vec(Asset::EXECUTABLE.to_vec());
    critique.grounds = claim.grounds.clone();
    critique.evidence_gaps = claim.evidence_gaps.clone();
    critique.blocker = false;
    critique
        .supporting_refs
        .retain(|r| claim.grounds.iter().any(|g| g.evidence == r.evidence));
    let critiques = vec![critique];
    assert!(claim_slot_eligible(
        &draft.claims[0],
        &claim,
        &critiques,
        Asset::Qqq,
        DecisionHorizon::T1
    ));
    validate_verified_forecast_slots(
        &draft,
        &vec![(draft.claims[0].clone(), claim)],
        &critiques,
    )
    .unwrap();
}

#[test]
fn eligibility_uses_formal_grounds_and_matching_verified_scope_only() {
    let (draft, mut claim, mut critique) = scoped_fixture();
    let reference = &draft.claims[0];
    assert!(claim_slot_eligible(
        reference,
        &claim,
        &vec![critique.clone()],
        Asset::Qqq,
        DecisionHorizon::T1
    ));
    assert!(!claim_slot_eligible(
        reference,
        &claim,
        &vec![critique.clone()],
        Asset::Qqq,
        DecisionHorizon::T3
    ));
    assert!(!claim_slot_eligible(
        reference,
        &claim,
        &vec![critique.clone()],
        Asset::Soxl,
        DecisionHorizon::T1
    ));
    claim
        .grounds
        .retain(|g| g.domain != Some(ResearchShard::Macro));
    assert!(
        !claim_slot_eligible(
            reference,
            &claim,
            &vec![critique.clone()],
            Asset::Qqq,
            DecisionHorizon::T1
        ),
        "Critic macro cannot repair missing formal Claim macro"
    );
    let (_, claim, _) = scoped_fixture();
    critique.supporting_refs.retain(|r| {
        !claim
            .grounds
            .iter()
            .any(|g| g.evidence == r.evidence && g.domain == Some(ResearchShard::Macro))
    });
    assert!(
        !claim_slot_eligible(
            reference,
            &claim,
            &vec![critique],
            Asset::Qqq,
            DecisionHorizon::T1
        ),
        "price verification alone cannot verify macro"
    );
    let mut neutral = draft.clone();
    neutral.forecasts[0].expected_return_ppm = 0;
    neutral.forecasts[0].positive_return_probability_ppm = 500_000;
    assert!(validate_verified_forecast_slots(&neutral, &vec![], &vec![]).is_ok());
}

fn forecast_grid(template: &Forecast) -> Vec<Forecast> {
    let mut forecasts = Vec::new();
    for asset in Asset::EXECUTABLE {
        for horizon in [DecisionHorizon::T1, DecisionHorizon::T3, DecisionHorizon::T5] {
            let mut forecast = template.clone();
            forecast.asset = asset;
            forecast.horizon = horizon;
            forecast
                .thesis
                .as_mut()
                .unwrap()
                .expected_holding_period_days = horizon.trading_days();
            forecasts.push(forecast);
        }
    }
    forecasts
}

#[test]
fn forecast_grid_rejects_duplicates_even_when_length_is_twelve() {
    let (draft, _, _) = scoped_fixture();
    let forecasts = forecast_grid(&draft.forecasts[0]);
    assert!(validate_forecasts(&forecasts).is_ok());
    let mut duplicate = forecasts.clone();
    duplicate[11] = forecasts[0].clone();
    assert!(validate_forecasts(&duplicate).is_err());
    assert!(validate_forecasts(&forecasts[..11].to_vec()).is_err());
}

#[test]
fn forecast_must_not_join_price_and_macro_from_different_claims() {
    let (draft, mut price, mut critique) = scoped_fixture();
    price.evidence_gaps.clear();
    price
        .grounds
        .retain(|g| g.domain == Some(ResearchShard::PriceMarketStructure));
    critique.blocker = false;
    critique.evidence_gaps.clear();
    let mut macro_claim = price.clone();
    macro_claim.grounds = vec![directional_ground(
        "macro-only",
        Asset::Qqq,
        ResearchShard::Macro,
    )];
    let macro_ref = ArtifactRef {
        artifact_id: ArtifactId(ContentHash::of_bytes(b"macro-claim")),
        kind: ArtifactKind::Claim,
    };
    let mut macro_critique = critique.clone();
    macro_critique.target = macro_ref.clone();
    assert!(
        validate_verified_forecast_slots(
            &draft,
            &vec![(draft.claims[0].clone(), price), (macro_ref, macro_claim)],
            &vec![critique, macro_critique],
        )
        .is_err(),
        "a forecast must have price and macro in the same verified Claim"
    );
}

#[test]
fn scoped_critique_blocker_does_not_block_another_asset_slot() {
    let (draft, claim, critique) = scoped_fixture();
    assert!(critique.blocks_slot(Asset::Tqqq, DecisionHorizon::T1, DecisionHorizon::T1));
    assert!(!critique.blocks_slot(Asset::Qqq, DecisionHorizon::T1, DecisionHorizon::T1));
    let mut global_critique = critique.clone();
    global_critique.evidence_gaps.clear();
    assert!(global_critique.blocks_slot(Asset::Qqq, DecisionHorizon::T1, DecisionHorizon::T1));

    let result = validate_verified_forecast_slots(
        &draft,
        &vec![(draft.claims[0].clone(), claim)],
        &vec![critique],
    );

    assert!(
        result.is_ok(),
        "a blocker scoped to TQQQ must not reject the fully grounded QQQ slot: {result:?}"
    );
}

#[test]
fn verified_forecast_rejects_opposite_or_neutral_claim_stance() {
    let (draft, mut claim, critique) = scoped_fixture();
    let critiques = vec![critique];
    for stance in [ClaimStance::Bearish, ClaimStance::Neutral] {
        claim.stance = stance;
        assert!(
            validate_verified_forecast_slots(
                &draft,
                &vec![(draft.claims[0].clone(), claim.clone())],
                &critiques,
            )
            .is_err(),
            "a {stance:?} claim cannot support the positive QQQ:T1 forecast"
        );
    }
    let mut bearish_draft = draft.clone();
    bearish_draft.forecasts[0].expected_return_ppm = -10_000;
    bearish_draft.forecasts[0].positive_return_probability_ppm = 300_000;
    claim.stance = ClaimStance::Bearish;
    assert!(
        validate_verified_forecast_slots(
            &bearish_draft,
            &vec![(draft.claims[0].clone(), claim.clone())],
            &critiques,
        )
        .is_ok(),
        "matching bearish research remains expressible"
    );
    claim.stance = ClaimStance::Bullish;
    assert!(validate_verified_forecast_slots(
        &bearish_draft,
        &vec![(draft.claims[0].clone(), claim)],
        &critiques,
    )
    .is_err());
}

#[test]
fn coverage_needs_every_asset_and_horizon() {
    let (draft, claim, critique) = scoped_fixture();
    assert!(!research_coverage_is_complete(
        &vec![(draft.claims[0].clone(), claim.clone())],
        &vec![critique.clone()]
    ));
    let mut claims = Vec::new();
    let mut critiques = Vec::new();
    for horizon in [DecisionHorizon::T1, DecisionHorizon::T3, DecisionHorizon::T5] {
        let mut grounds = Vec::new();
        for asset in Asset::EXECUTABLE {
            for domain in [
                ResearchShard::PriceMarketStructure,
                ResearchShard::Macro,
                ResearchShard::NewsEvent,
            ] {
                grounds.push(directional_ground(
                    &format!("{asset:?}-{domain:?}-{horizon:?}"),
                    asset,
                    domain,
                ));
            }
        }
        let reference = ArtifactRef {
            artifact_id: ArtifactId(ContentHash::of_bytes(format!("{horizon:?}").as_bytes())),
            kind: ArtifactKind::Claim,
        };
        let mut covering = claim.clone();
        covering.horizon = horizon;
        covering.evidence_gaps.clear();
        covering.grounds = grounds.clone();
        let mut supporting = critique.clone();
        supporting.target = reference.clone();
        supporting.blocker = false;
        supporting.evidence_gaps.clear();
        supporting.supporting_refs = grounds
            .iter()
            .map(|ground| ClaimVerificationEvidence {
                evidence: ground.evidence.clone(),
                authority: SourceAuthority::Official,
                temporal_validity: TemporalValidity::ValidAtDecisionCutoff,
            })
            .collect();
        supporting.grounds = grounds;
        claims.push((reference, covering));
        critiques.push(supporting);
    }
    assert!(research_coverage_is_complete(&claims, &critiques));
    claims[2].1.evidence_gaps = claim.evidence_gaps.clone();
    claims[2].1.evidence_gaps[0].assets = OrderedSet::from_vec(vec![Asset::Soxl]);
    claims[2].1.evidence_gaps[0].horizons = OrderedSet::new();
    assert!(!research_coverage_is_complete(&claims, &critiques));
}

#[test]
fn forecast_faults_have_their_own_errors() {
    let (draft, _, _) = scoped_fixture();
    let mut forecasts = forecast_grid(&draft.forecasts[0]);
    forecasts[3].positive_return_probability_ppm = 1_000_001;
    assert_eq!(
        validate_forecasts(&forecasts),
        Err(DomainError::InvalidDecisionForecastProbability)
    );
    let short = forecast_grid(&draft.forecasts[0])[..4].to_vec();
    assert_eq!(
        validate_forecasts(&short),
        Err(DomainError::InvalidDecisionForecastHorizons)
    );
}
