//! The index of the invariants of the whole system: who keeps each, from when on, and how it is
//! tested.
use crate::ordered::{rank_numbers, Key, Rank};
use vstd::prelude::*;

verus! {

/// The phases in which the invariants came into force.
#[derive(Clone, Copy, Debug, PartialEq, Eq, PartialOrd, Ord, Hash, Structural)]
pub enum RefactorPhase {
    R0,
    R1,
    R2,
    R3,
    R4,
    R5,
    R6,
    R7,
    R8,
    R9,
    R10,
}

impl View for RefactorPhase {
    type V = RefactorPhase;

    open spec fn view(&self) -> RefactorPhase {
        *self
    }
}

impl RefactorPhase {
    /// Where the variant stands in the order.
    pub open spec fn place(self) -> u32 {
        match self {
            RefactorPhase::R0 => 0,
            RefactorPhase::R1 => 1,
            RefactorPhase::R2 => 2,
            RefactorPhase::R3 => 3,
            RefactorPhase::R4 => 4,
            RefactorPhase::R5 => 5,
            RefactorPhase::R6 => 6,
            RefactorPhase::R7 => 7,
            RefactorPhase::R8 => 8,
            RefactorPhase::R9 => 9,
            RefactorPhase::R10 => 10,
        }
    }

    pub(crate) fn place_number(self) -> (r: u32)
        ensures
            r == self.place(),
    {
        match self {
            RefactorPhase::R0 => 0,
            RefactorPhase::R1 => 1,
            RefactorPhase::R2 => 2,
            RefactorPhase::R3 => 3,
            RefactorPhase::R4 => 4,
            RefactorPhase::R5 => 5,
            RefactorPhase::R6 => 6,
            RefactorPhase::R7 => 7,
            RefactorPhase::R8 => 8,
            RefactorPhase::R9 => 9,
            RefactorPhase::R10 => 10,
        }
    }
}

impl Key for RefactorPhase {
    open spec fn code(key: RefactorPhase) -> Seq<int> {
        seq![key.place() as int]
    }

    proof fn code_is_injective(a: RefactorPhase, b: RefactorPhase) {
        assert(Self::code(a)[0] == a.place() as int && Self::code(b)[0] == b.place() as int);
    }

    fn rank(&self, other: &Self) -> (r: Rank) {
        rank_numbers((*self).place_number(), (*other).place_number())
    }

    fn duplicate(&self) -> (r: Self) {
        *self
    }
}

impl RefactorPhase {
    pub open spec fn name(self) -> Seq<char> {
        match self {
            RefactorPhase::R0 => "R0"@,
            RefactorPhase::R1 => "R1"@,
            RefactorPhase::R2 => "R2"@,
            RefactorPhase::R3 => "R3"@,
            RefactorPhase::R4 => "R4"@,
            RefactorPhase::R5 => "R5"@,
            RefactorPhase::R6 => "R6"@,
            RefactorPhase::R7 => "R7"@,
            RefactorPhase::R8 => "R8"@,
            RefactorPhase::R9 => "R9"@,
            RefactorPhase::R10 => "R10"@,
        }
    }

    pub fn as_str(self) -> (r: &'static str)
        ensures
            r@ == self.name(),
    {
        match self {
            RefactorPhase::R0 => "R0",
            RefactorPhase::R1 => "R1",
            RefactorPhase::R2 => "R2",
            RefactorPhase::R3 => "R3",
            RefactorPhase::R4 => "R4",
            RefactorPhase::R5 => "R5",
            RefactorPhase::R6 => "R6",
            RefactorPhase::R7 => "R7",
            RefactorPhase::R8 => "R8",
            RefactorPhase::R9 => "R9",
            RefactorPhase::R10 => "R10",
        }
    }
}

/// The invariants of the system.
#[derive(Clone, Copy, Debug, PartialEq, Eq, PartialOrd, Ord, Hash, Structural)]
pub enum V2Invariant {
    AssetUniverse,
    PaperOnlyEndpoint,
    RustAuthority,
    StoreAuthority,
    PermitAtomicity,
    DurableEvents,
    ContextGrants,
    EvidenceProvenance,
    ContractAuthority,
    WorkflowGates,
    CanonicalLearning,
    SchedulerFencing,
    FreezeControl,
    HttpControlPlane,
}

impl View for V2Invariant {
    type V = V2Invariant;

    open spec fn view(&self) -> V2Invariant {
        *self
    }
}

impl V2Invariant {
    /// Where the variant stands in the order.
    pub open spec fn place(self) -> u32 {
        match self {
            V2Invariant::AssetUniverse => 0,
            V2Invariant::PaperOnlyEndpoint => 1,
            V2Invariant::RustAuthority => 2,
            V2Invariant::StoreAuthority => 3,
            V2Invariant::PermitAtomicity => 4,
            V2Invariant::DurableEvents => 5,
            V2Invariant::ContextGrants => 6,
            V2Invariant::EvidenceProvenance => 7,
            V2Invariant::ContractAuthority => 8,
            V2Invariant::WorkflowGates => 9,
            V2Invariant::CanonicalLearning => 10,
            V2Invariant::SchedulerFencing => 11,
            V2Invariant::FreezeControl => 12,
            V2Invariant::HttpControlPlane => 13,
        }
    }

    pub(crate) fn place_number(self) -> (r: u32)
        ensures
            r == self.place(),
    {
        match self {
            V2Invariant::AssetUniverse => 0,
            V2Invariant::PaperOnlyEndpoint => 1,
            V2Invariant::RustAuthority => 2,
            V2Invariant::StoreAuthority => 3,
            V2Invariant::PermitAtomicity => 4,
            V2Invariant::DurableEvents => 5,
            V2Invariant::ContextGrants => 6,
            V2Invariant::EvidenceProvenance => 7,
            V2Invariant::ContractAuthority => 8,
            V2Invariant::WorkflowGates => 9,
            V2Invariant::CanonicalLearning => 10,
            V2Invariant::SchedulerFencing => 11,
            V2Invariant::FreezeControl => 12,
            V2Invariant::HttpControlPlane => 13,
        }
    }
}

impl Key for V2Invariant {
    open spec fn code(key: V2Invariant) -> Seq<int> {
        seq![key.place() as int]
    }

    proof fn code_is_injective(a: V2Invariant, b: V2Invariant) {
        assert(Self::code(a)[0] == a.place() as int && Self::code(b)[0] == b.place() as int);
    }

    fn rank(&self, other: &Self) -> (r: Rank) {
        rank_numbers((*self).place_number(), (*other).place_number())
    }

    fn duplicate(&self) -> (r: Self) {
        *self
    }
}

impl V2Invariant {
    pub const ALL: [V2Invariant; 14] = [
        V2Invariant::AssetUniverse,
        V2Invariant::PaperOnlyEndpoint,
        V2Invariant::RustAuthority,
        V2Invariant::StoreAuthority,
        V2Invariant::PermitAtomicity,
        V2Invariant::DurableEvents,
        V2Invariant::ContextGrants,
        V2Invariant::EvidenceProvenance,
        V2Invariant::ContractAuthority,
        V2Invariant::WorkflowGates,
        V2Invariant::CanonicalLearning,
        V2Invariant::SchedulerFencing,
        V2Invariant::FreezeControl,
        V2Invariant::HttpControlPlane,
    ];

    /// Which parts of the system keep the invariant.
    pub open spec fn keeper(self) -> Seq<char> {
        match self {
            V2Invariant::AssetUniverse => "akzio-domain"@,
            V2Invariant::PaperOnlyEndpoint => "akzio-execution"@,
            V2Invariant::RustAuthority => "akzio-domain"@,
            V2Invariant::StoreAuthority => "akzio-store"@,
            V2Invariant::PermitAtomicity => "akzio-store"@,
            V2Invariant::DurableEvents => "akzio-store"@,
            V2Invariant::ContextGrants => "akzio-context"@,
            V2Invariant::EvidenceProvenance => "akzio-store + akzio-context"@,
            V2Invariant::ContractAuthority => "akzio-research"@,
            V2Invariant::WorkflowGates => "akzio-runtime"@,
            V2Invariant::CanonicalLearning => "akzio-learning"@,
            V2Invariant::SchedulerFencing => "akzio-store + akzio-daemon"@,
            V2Invariant::FreezeControl => "akzio-daemon"@,
            V2Invariant::HttpControlPlane => "akzio-daemon + akzio-cli"@,
        }
    }

    pub fn owner(self) -> (r: &'static str)
        ensures
            r@ == self.keeper(),
    {
        match self {
            V2Invariant::AssetUniverse => "akzio-domain",
            V2Invariant::PaperOnlyEndpoint => "akzio-execution",
            V2Invariant::RustAuthority => "akzio-domain",
            V2Invariant::StoreAuthority => "akzio-store",
            V2Invariant::PermitAtomicity => "akzio-store",
            V2Invariant::DurableEvents => "akzio-store",
            V2Invariant::ContextGrants => "akzio-context",
            V2Invariant::EvidenceProvenance => "akzio-store + akzio-context",
            V2Invariant::ContractAuthority => "akzio-research",
            V2Invariant::WorkflowGates => "akzio-runtime",
            V2Invariant::CanonicalLearning => "akzio-learning",
            V2Invariant::SchedulerFencing => "akzio-store + akzio-daemon",
            V2Invariant::FreezeControl => "akzio-daemon",
            V2Invariant::HttpControlPlane => "akzio-daemon + akzio-cli",
        }
    }

    /// The phase from which on it is kept.
    pub open spec fn in_force_from(self) -> RefactorPhase {
        match self {
            V2Invariant::AssetUniverse => RefactorPhase::R1,
            V2Invariant::PaperOnlyEndpoint => RefactorPhase::R7,
            V2Invariant::RustAuthority => RefactorPhase::R1,
            V2Invariant::StoreAuthority => RefactorPhase::R2,
            V2Invariant::PermitAtomicity => RefactorPhase::R2,
            V2Invariant::DurableEvents => RefactorPhase::R2,
            V2Invariant::ContextGrants => RefactorPhase::R3,
            V2Invariant::EvidenceProvenance => RefactorPhase::R3,
            V2Invariant::ContractAuthority => RefactorPhase::R4,
            V2Invariant::WorkflowGates => RefactorPhase::R5,
            V2Invariant::CanonicalLearning => RefactorPhase::R6,
            V2Invariant::SchedulerFencing => RefactorPhase::R8,
            V2Invariant::FreezeControl => RefactorPhase::R8,
            V2Invariant::HttpControlPlane => RefactorPhase::R9,
        }
    }

    pub fn first_enforced_in(self) -> (r: RefactorPhase)
        ensures
            r == self.in_force_from(),
    {
        match self {
            V2Invariant::AssetUniverse => RefactorPhase::R1,
            V2Invariant::PaperOnlyEndpoint => RefactorPhase::R7,
            V2Invariant::RustAuthority => RefactorPhase::R1,
            V2Invariant::StoreAuthority => RefactorPhase::R2,
            V2Invariant::PermitAtomicity => RefactorPhase::R2,
            V2Invariant::DurableEvents => RefactorPhase::R2,
            V2Invariant::ContextGrants => RefactorPhase::R3,
            V2Invariant::EvidenceProvenance => RefactorPhase::R3,
            V2Invariant::ContractAuthority => RefactorPhase::R4,
            V2Invariant::WorkflowGates => RefactorPhase::R5,
            V2Invariant::CanonicalLearning => RefactorPhase::R6,
            V2Invariant::SchedulerFencing => RefactorPhase::R8,
            V2Invariant::FreezeControl => RefactorPhase::R8,
            V2Invariant::HttpControlPlane => RefactorPhase::R9,
        }
    }

    /// How it is tested.
    pub open spec fn tested_by(self) -> Seq<char> {
        match self {
            V2Invariant::AssetUniverse => "schema/config/execution"@,
            V2Invariant::PaperOnlyEndpoint => "adapter URL"@,
            V2Invariant::RustAuthority => "authority negative"@,
            V2Invariant::StoreAuthority => "transaction/failure injection"@,
            V2Invariant::PermitAtomicity => "transaction/failure injection"@,
            V2Invariant::DurableEvents => "event closure/replay"@,
            V2Invariant::ContextGrants => "grant scope/expiry"@,
            V2Invariant::EvidenceProvenance => "reference integrity/Doctor"@,
            V2Invariant::ContractAuthority => "authority negative"@,
            V2Invariant::WorkflowGates => "graph lowering/gate bypass"@,
            V2Invariant::CanonicalLearning => "canonicality/promotion"@,
            V2Invariant::SchedulerFencing => "singleton/epoch/recovery"@,
            V2Invariant::FreezeControl => "daemon transport/control"@,
            V2Invariant::HttpControlPlane => "daemon transport/control"@,
        }
    }

    pub fn test_category(self) -> (r: &'static str)
        ensures
            r@ == self.tested_by(),
    {
        match self {
            V2Invariant::AssetUniverse => "schema/config/execution",
            V2Invariant::PaperOnlyEndpoint => "adapter URL",
            V2Invariant::RustAuthority => "authority negative",
            V2Invariant::StoreAuthority => "transaction/failure injection",
            V2Invariant::PermitAtomicity => "transaction/failure injection",
            V2Invariant::DurableEvents => "event closure/replay",
            V2Invariant::ContextGrants => "grant scope/expiry",
            V2Invariant::EvidenceProvenance => "reference integrity/Doctor",
            V2Invariant::ContractAuthority => "authority negative",
            V2Invariant::WorkflowGates => "graph lowering/gate bypass",
            V2Invariant::CanonicalLearning => "canonicality/promotion",
            V2Invariant::SchedulerFencing => "singleton/epoch/recovery",
            V2Invariant::FreezeControl => "daemon transport/control",
            V2Invariant::HttpControlPlane => "daemon transport/control",
        }
    }
}

/// The list holds every invariant once.
pub proof fn every_invariant_is_listed_once(rule: V2Invariant)
    ensures
        V2Invariant::ALL@.len() == 14,
        V2Invariant::ALL@[rule.place() as int] == rule,
        forall|i: int|
            0 <= i < 14 ==> (#[trigger] V2Invariant::ALL@[i]).place() as int == i,
{
}

} // verus!
