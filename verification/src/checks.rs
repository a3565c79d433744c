//! The check catalog and its applicability rules.
//!
//! A check is one named, possibly parameterized condition to evaluate
//! against the host. The catalog is a closed set of variants; matching over
//! it is exhaustive everywhere, so adding a variant forces a decision both
//! in the applicability filter and in the probe dispatcher.
//!
//! Applicability policy: the read-only-rootfs check applies to every
//! deployment mode except a traditional install; the bootc status
//! cross-check applies only under an image-based deployment; every other
//! check is specific to the DPU target class.

use crate::config::{System, Target};
use crate::errors::{GreenlightError, GreenlightErrorView};
use crate::network::{Interface, InterfaceView};
use crate::unit::ActiveState;
use vstd::prelude::*;

verus! {

/// The kinds of check a configuration can name, without their parameters.
#[derive(Debug, Clone, Copy, PartialEq, Eq, Hash, Structural)]
pub enum CheckKind {
    RootFsReadonly,
    BootcStatusMatchesOsRelease,
    MicroShiftInstalled,
    ExpectedInterfacePresent,
    SwapDisabled,
    SshdRunning,
}

/// The applicability table over check kinds: which kinds are meaningful for
/// a host with the given deployment mode and target class.
pub open spec fn kind_applies_spec(kind: CheckKind, deployment: System, target: Target) -> bool {
    match kind {
        CheckKind::RootFsReadonly => !(deployment is Traditional),
        CheckKind::BootcStatusMatchesOsRelease => deployment is Bootc,
        CheckKind::MicroShiftInstalled => target is DPU,
        CheckKind::ExpectedInterfacePresent => target is DPU,
        CheckKind::SwapDisabled => target is DPU,
        CheckKind::SshdRunning => target is DPU,
    }
}

impl CheckKind {
    /// Decides whether a check of this kind is meaningful for the host:
    /// a pure, total reproduction of the applicability table.
    pub fn applies_to(&self, deployment: &System, target: &Target) -> (r: bool)
        ensures
            r == kind_applies_spec(*self, *deployment, *target),
    {
        match self {
            CheckKind::RootFsReadonly => !(matches!(deployment, System::Traditional { .. })),
            CheckKind::BootcStatusMatchesOsRelease => matches!(deployment, System::Bootc { .. }),
            CheckKind::MicroShiftInstalled => matches!(target, Target::DPU),
            CheckKind::ExpectedInterfacePresent => matches!(target, Target::DPU),
            CheckKind::SwapDisabled => matches!(target, Target::DPU),
            CheckKind::SshdRunning => matches!(target, Target::DPU),
        }
    }
}

/// Mathematical model of a [`Check`].
pub enum CheckView {
    RootfsReadonly,
    BootcStatusMatchesOsRelease,
    MicroshiftInstalled,
    Interfaces { interfaces: Seq<InterfaceView> },
    SwapDisabled,
    UnitState { unit: Seq<char>, expected: ActiveState, timeout: Option<u64> },
}

/// One condition to evaluate against the host, carrying exactly the
/// parameters its probe needs. Two identical checks (same variant, same
/// parameters) collapse into one evaluation; two checks of the same variant
/// with different parameters are distinct entries.
#[derive(Debug, PartialEq, Eq, Hash)]
pub enum Check {
    RootfsReadonly,
    BootcStatusMatchesOsRelease,
    MicroshiftInstalled,
    Interfaces { interfaces: Vec<Interface> },
    SwapDisabled,
    UnitState { unit: String, expected: ActiveState, timeout: Option<u64> },
}

impl View for Check {
    type V = CheckView;

    open spec fn view(&self) -> CheckView {
        match self {
            Check::RootfsReadonly => CheckView::RootfsReadonly,
            Check::BootcStatusMatchesOsRelease => CheckView::BootcStatusMatchesOsRelease,
            Check::MicroshiftInstalled => CheckView::MicroshiftInstalled,
            Check::Interfaces { interfaces } => CheckView::Interfaces {
                interfaces: interfaces@.map_values(|x: Interface| x@),
            },
            Check::SwapDisabled => CheckView::SwapDisabled,
            Check::UnitState { unit, expected, timeout } => CheckView::UnitState {
                unit: unit@,
                expected: *expected,
                timeout: *timeout,
            },
        }
    }
}

fn clone_interfaces(v: &Vec<Interface>) -> (r: Vec<Interface>)
    ensures
        r@.map_values(|x: Interface| x@) == v@.map_values(|x: Interface| x@),
{
    let mut r: Vec<Interface> = Vec::new();
    let mut i: usize = 0;
    while i < v.len()
        invariant
            0 <= i <= v@.len(),
            r@.len() == i,
            forall|j: int| 0 <= j < i ==> #[trigger] r@[j]@ == v@[j]@,
        decreases v@.len() - i,
    {
        r.push(v[i].clone());
        i = i + 1;
    }
    proof {
        assert(r@.map_values(|x: Interface| x@) =~= v@.map_values(|x: Interface| x@));
    }
    r
}

impl Clone for Check {
    fn clone(&self) -> (r: Self)
        ensures
            r@ == self@,
    {
        match self {
            Check::RootfsReadonly => Check::RootfsReadonly,
            Check::BootcStatusMatchesOsRelease => Check::BootcStatusMatchesOsRelease,
            Check::MicroshiftInstalled => Check::MicroshiftInstalled,
            Check::Interfaces { interfaces } => Check::Interfaces {
                interfaces: clone_interfaces(interfaces),
            },
            Check::SwapDisabled => Check::SwapDisabled,
            Check::UnitState { unit, expected, timeout } => Check::UnitState {
                unit: unit.clone(),
                expected: *expected,
                timeout: *timeout,
            },
        }
    }
}

fn interface_eq(a: &Interface, b: &Interface) -> (r: bool)
    ensures
        r == (a@ == b@),
{
    let names_eq = a.name == b.name;
    let states_eq = match (a.state, b.state) {
        (Option::None, Option::None) => true,
        (Option::Some(x), Option::Some(y)) => x == y,
        _ => false,
    };
    let mtus_eq = match (a.mtu, b.mtu) {
        (Option::None, Option::None) => true,
        (Option::Some(x), Option::Some(y)) => x == y,
        _ => false,
    };
    let promiscs_eq = match (a.promisc, b.promisc) {
        (Option::None, Option::None) => true,
        (Option::Some(x), Option::Some(y)) => x == y,
        _ => false,
    };
    names_eq && states_eq && mtus_eq && promiscs_eq
}

fn interfaces_eq(a: &Vec<Interface>, b: &Vec<Interface>) -> (r: bool)
    ensures
        r == (a@.map_values(|x: Interface| x@) == b@.map_values(|x: Interface| x@)),
{
    if a.len() != b.len() {
        assert(a@.map_values(|x: Interface| x@).len() != b@.map_values(|x: Interface| x@).len());
        return false;
    }
    let mut i: usize = 0;
    while i < a.len()
        invariant
            a@.len() == b@.len(),
            0 <= i <= a@.len(),
            forall|j: int| 0 <= j < i ==> #[trigger] a@[j]@ == b@[j]@,
        decreases a@.len() - i,
    {
        if !interface_eq(&a[i], &b[i]) {
            assert(a@.map_values(|x: Interface| x@)[i as int] != b@.map_values(
                |x: Interface| x@,
            )[i as int]);
            return false;
        }
        i = i + 1;
    }
    proof {
        assert(a@.map_values(|x: Interface| x@) =~= b@.map_values(|x: Interface| x@));
    }
    true
}

/// Decides whether two checks are the same entry: same variant and same
/// parameters. This is the identity under which the check buckets are
/// deduplicated and merged.
pub fn check_eq(a: &Check, b: &Check) -> (r: bool)
    ensures
        r == (a@ == b@),
{
    match (a, b) {
        (Check::RootfsReadonly, Check::RootfsReadonly) => true,
        (Check::BootcStatusMatchesOsRelease, Check::BootcStatusMatchesOsRelease) => true,
        (Check::MicroshiftInstalled, Check::MicroshiftInstalled) => true,
        (Check::Interfaces { interfaces: i1 }, Check::Interfaces { interfaces: i2 }) => {
            interfaces_eq(i1, i2)
        },
        (Check::SwapDisabled, Check::SwapDisabled) => true,
        (
            Check::UnitState { unit: u1, expected: e1, timeout: t1 },
            Check::UnitState { unit: u2, expected: e2, timeout: t2 },
        ) => {
            let units_eq = *u1 == *u2;
            let expected_eq = *e1 == *e2;
            let timeouts_eq = match (t1, t2) {
                (Option::None, Option::None) => true,
                (Option::Some(x), Option::Some(y)) => *x == *y,
                _ => false,
            };
            units_eq && expected_eq && timeouts_eq
        },
        _ => false,
    }
}

/// The applicability table over the check catalog, by variant.
pub open spec fn applies_spec(c: CheckView, deployment: System, target: Target) -> bool {
    match c {
        CheckView::RootfsReadonly => !(deployment is Traditional),
        CheckView::BootcStatusMatchesOsRelease => deployment is Bootc,
        CheckView::MicroshiftInstalled => target is DPU,
        CheckView::Interfaces { .. } => target is DPU,
        CheckView::SwapDisabled => target is DPU,
        CheckView::UnitState { .. } => target is DPU,
    }
}

impl Check {
    /// Decides whether this check is meaningful for the host: a pure, total
    /// reproduction of the applicability table over the catalog.
    pub fn applies_to(&self, deployment: &System, target: &Target) -> (r: bool)
        ensures
            r == applies_spec(self@, *deployment, *target),
    {
        match self {
            Check::RootfsReadonly => !(matches!(deployment, System::Traditional { .. })),
            Check::BootcStatusMatchesOsRelease => matches!(deployment, System::Bootc { .. }),
            Check::MicroshiftInstalled => matches!(target, Target::DPU),
            Check::Interfaces { .. } => matches!(target, Target::DPU),
            Check::SwapDisabled => matches!(target, Target::DPU),
            Check::UnitState { .. } => matches!(target, Target::DPU),
        }
    }
}

/// Mathematical model of a [`ProbeRequest`].
pub enum ProbeRequestView {
    RootfsFlags,
    SwapTable,
    UnitWait { unit: Seq<char>, expected: ActiveState, timeout: Option<u64> },
    Unsupported,
}

/// The probe a check needs, as an instruction to the run's driver: query the
/// root filesystem flags, read the swap table, wait for a unit state, or —
/// for a catalog variant with no probe behind it — report the distinct
/// unsupported-check error, never a silent pass.
#[derive(Debug)]
pub enum ProbeRequest {
    RootfsFlags,
    SwapTable,
    UnitWait { unit: String, expected: ActiveState, timeout: Option<u64> },
    Unsupported,
}

impl View for ProbeRequest {
    type V = ProbeRequestView;

    open spec fn view(&self) -> ProbeRequestView {
        match self {
            ProbeRequest::RootfsFlags => ProbeRequestView::RootfsFlags,
            ProbeRequest::SwapTable => ProbeRequestView::SwapTable,
            ProbeRequest::UnitWait { unit, expected, timeout } => ProbeRequestView::UnitWait {
                unit: unit@,
                expected: *expected,
                timeout: *timeout,
            },
            ProbeRequest::Unsupported => ProbeRequestView::Unsupported,
        }
    }
}

/// Which probe each catalog variant is backed by. The read-only-rootfs,
/// swap and unit-state checks have probes; the remaining variants do not
/// (yet) and must surface as unsupported.
pub open spec fn probe_request_spec(c: CheckView) -> ProbeRequestView {
    match c {
        CheckView::RootfsReadonly => ProbeRequestView::RootfsFlags,
        CheckView::SwapDisabled => ProbeRequestView::SwapTable,
        CheckView::UnitState { unit, expected, timeout } => ProbeRequestView::UnitWait {
            unit,
            expected,
            timeout,
        },
        CheckView::BootcStatusMatchesOsRelease => ProbeRequestView::Unsupported,
        CheckView::MicroshiftInstalled => ProbeRequestView::Unsupported,
        CheckView::Interfaces { .. } => ProbeRequestView::Unsupported,
    }
}

impl Check {
    /// Maps this check to the probe that evaluates it.
    pub fn probe_request(&self) -> (r: ProbeRequest)
        ensures
            r@ == probe_request_spec(self@),
    {
        match self {
            Check::RootfsReadonly => ProbeRequest::RootfsFlags,
            Check::SwapDisabled => ProbeRequest::SwapTable,
            Check::UnitState { unit, expected, timeout } => ProbeRequest::UnitWait {
                unit: unit.clone(),
                expected: *expected,
                timeout: *timeout,
            },
            Check::BootcStatusMatchesOsRelease => ProbeRequest::Unsupported,
            Check::MicroshiftInstalled => ProbeRequest::Unsupported,
            Check::Interfaces { .. } => ProbeRequest::Unsupported,
        }
    }
}

/// Mathematical model of a [`CheckOutcome`].
pub enum CheckOutcomeView {
    Pass,
    Fail,
    Error(GreenlightErrorView),
}

/// The tri-state outcome of one evaluated check: the condition held, the
/// condition was evaluated and found false, or it could not be determined.
#[derive(Debug)]
pub enum CheckOutcome {
    Pass,
    Fail,
    Error(GreenlightError),
}

impl View for CheckOutcome {
    type V = CheckOutcomeView;

    open spec fn view(&self) -> CheckOutcomeView {
        match self {
            CheckOutcome::Pass => CheckOutcomeView::Pass,
            CheckOutcome::Fail => CheckOutcomeView::Fail,
            CheckOutcome::Error(e) => CheckOutcomeView::Error(e@),
        }
    }
}

impl CheckOutcome {
    /// Classifies what a probe returned: a condition found true is a pass, a
    /// condition found false is a failure, and a probe that could not decide
    /// is an error — never a silent pass or failure.
    pub fn from_probe(result: Result<bool, GreenlightError>) -> (r: CheckOutcome)
        ensures
            r@ == (match result {
                Result::Ok(true) => CheckOutcomeView::Pass,
                Result::Ok(false) => CheckOutcomeView::Fail,
                Result::Err(e) => CheckOutcomeView::Error(e@),
            }),
    {
        match result {
            Result::Ok(true) => CheckOutcome::Pass,
            Result::Ok(false) => CheckOutcome::Fail,
            Result::Err(e) => CheckOutcome::Error(e),
        }
    }
}

/// Whether a swap table lists no swap entries: nothing follows its header
/// line, i.e. no newline byte stands anywhere but at the very end.
pub open spec fn swap_table_empty_spec(content: Seq<u8>) -> bool {
    forall|i: int| 0 <= i < content.len() - 1 ==> content[i] != 10u8
}

/// Decides whether the swap table's text lists no swap entries, i.e. swap is
/// off: at most its header line remains once the content is split at
/// newline bytes.
pub fn swap_table_is_empty(content: &[u8]) -> (r: bool)
    ensures
        r == swap_table_empty_spec(content@),
{
    if content.len() == 0 {
        return true;
    }
    let mut i: usize = 0;
    while i < content.len() - 1
        invariant
            content@.len() >= 1,
            0 <= i <= content@.len() - 1,
            forall|j: int| 0 <= j < i ==> content@[j] != 10u8,
        decreases content@.len() - i,
    {
        if content[i] == 10u8 {
            return false;
        }
        i = i + 1;
    }
    true
}

} // verus!
