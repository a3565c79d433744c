//! Network interface expectations.
//!
//! An [`Interface`] states what the host's link table should show for one
//! named link: whether it is up, down or absent, and optionally its MTU and
//! promiscuous-mode flag. The link table itself is read over a netlink
//! socket outside the library; the snapshot of one link arrives here as an
//! optional list of [`LinkAttr`] values (`None` when no link of that name
//! exists), and the whole decision is made in [`Interface::validate`].
//!
//! Policy for `state: Absent`: a link that exists never satisfies an
//! expectation of `Absent`, whatever its attributes show and whatever other
//! fields the expectation carries.

use vstd::prelude::*;

verus! {

/// The expected state of a network link.
#[derive(Debug, Clone, Copy, PartialEq, Eq, Hash, Structural)]
pub enum InterfaceState {
    Up,
    Down,
    Absent,
}

/// The operational state a link reports, as the link table classifies it.
#[derive(Debug, Clone, Copy, PartialEq, Eq, Structural)]
pub enum OperState {
    Unknown,
    NotPresent,
    Down,
    LowerLayerDown,
    Testing,
    Dormant,
    Up,
    Other(u8),
}

/// One attribute of a link, holding the fields the engine reads; every
/// attribute of another kind is carried as `Other`.
#[derive(Debug, Clone, Copy, PartialEq, Eq, Structural)]
pub enum LinkAttr {
    OperState(OperState),
    Mtu(u32),
    Promiscuity(u32),
    Other,
}

/// Mathematical model of an [`Interface`] expectation.
pub struct InterfaceView {
    pub name: Seq<char>,
    pub state: Option<InterfaceState>,
    pub mtu: Option<u32>,
    pub promisc: Option<bool>,
}

/// An expectation on one named network link. Only `name` is required; each
/// optional field, when present, is asserted against the link's snapshot.
#[derive(Debug, PartialEq, Eq, Hash)]
pub struct Interface {
    pub name: String,
    pub state: Option<InterfaceState>,
    pub mtu: Option<u32>,
    pub promisc: Option<bool>,
}

impl View for Interface {
    type V = InterfaceView;

    open spec fn view(&self) -> InterfaceView {
        InterfaceView {
            name: self.name@,
            state: self.state,
            mtu: self.mtu,
            promisc: self.promisc,
        }
    }
}

impl Clone for Interface {
    fn clone(&self) -> (r: Self)
        ensures
            r@ == self@,
    {
        Interface {
            name: self.name.clone(),
            state: self.state,
            mtu: self.mtu,
            promisc: self.promisc,
        }
    }
}

/// The first operational-state attribute in a link snapshot, if any.
pub open spec fn first_oper_state(attrs: Seq<LinkAttr>) -> Option<OperState>
    decreases attrs.len(),
{
    if attrs.len() == 0 {
        None
    } else if attrs[0] is OperState {
        Some(attrs[0]->OperState_0)
    } else {
        first_oper_state(attrs.drop_first())
    }
}

/// The first MTU attribute in a link snapshot, if any.
pub open spec fn first_mtu(attrs: Seq<LinkAttr>) -> Option<u32>
    decreases attrs.len(),
{
    if attrs.len() == 0 {
        None
    } else if attrs[0] is Mtu {
        Some(attrs[0]->Mtu_0)
    } else {
        first_mtu(attrs.drop_first())
    }
}

/// The first promiscuity attribute in a link snapshot, if any.
pub open spec fn first_promiscuity(attrs: Seq<LinkAttr>) -> Option<u32>
    decreases attrs.len(),
{
    if attrs.len() == 0 {
        None
    } else if attrs[0] is Promiscuity {
        Some(attrs[0]->Promiscuity_0)
    } else {
        first_promiscuity(attrs.drop_first())
    }
}

/// Whether a link's reported operational state satisfies an expected state.
/// `Down` accepts the dormant and lower-layer-down classifications as well;
/// `Absent` is never satisfied by a link that exists.
pub open spec fn oper_state_matches(expected: InterfaceState, attrs: Seq<LinkAttr>) -> bool {
    match (expected, first_oper_state(attrs)) {
        (InterfaceState::Up, Some(OperState::Up)) => true,
        (InterfaceState::Down, Some(OperState::Down)) => true,
        (InterfaceState::Down, Some(OperState::Dormant)) => true,
        (InterfaceState::Down, Some(OperState::LowerLayerDown)) => true,
        (InterfaceState::Absent, _) => false,
        _ => false,
    }
}

/// Whether one interface expectation holds of one link snapshot.
/// `link` is `None` when no link of the expected name exists.
pub open spec fn validate_spec(iface: InterfaceView, link: Option<Seq<LinkAttr>>) -> bool {
    match link {
        Option::None => iface.state == Some(InterfaceState::Absent),
        Option::Some(attrs) => {
            if iface.state matches Some(st) && !oper_state_matches(st, attrs) {
                false
            } else if iface.mtu matches Some(m) && first_mtu(attrs) != Some(m) {
                false
            } else if iface.promisc matches Some(p) && !promiscuity_reports(
                first_promiscuity(attrs),
                p,
            ) {
                false
            } else {
                true
            }
        },
    }
}

/// Whether a promiscuity attribute value reports the expected flag: the
/// attribute must be present and be positive exactly when the flag is set.
pub open spec fn promiscuity_reports(attr: Option<u32>, expected: bool) -> bool {
    match attr {
        Option::Some(v) => (v > 0) == expected,
        Option::None => false,
    }
}

/// Model of an optional link snapshot held in a vector.
pub open spec fn link_model(link: Option<Vec<LinkAttr>>) -> Option<Seq<LinkAttr>> {
    match link {
        Option::Some(attrs) => Some(attrs@),
        Option::None => None,
    }
}

fn find_oper_state(attrs: &[LinkAttr]) -> (r: Option<OperState>)
    ensures
        r == first_oper_state(attrs@),
{
    let mut i: usize = 0;
    assert(attrs@.skip(0) =~= attrs@);
    while i < attrs.len()
        invariant
            0 <= i <= attrs@.len(),
            first_oper_state(attrs@) == first_oper_state(attrs@.skip(i as int)),
        decreases attrs@.len() - i,
    {
        assert(attrs@.skip(i as int)[0] == attrs@[i as int]);
        match attrs[i] {
            LinkAttr::OperState(s) => {
                return Some(s);
            },
            _ => {},
        }
        assert(attrs@.skip(i as int).drop_first() =~= attrs@.skip(i + 1));
        i = i + 1;
    }
    assert(attrs@.skip(i as int) =~= Seq::<LinkAttr>::empty());
    None
}

fn find_mtu(attrs: &[LinkAttr]) -> (r: Option<u32>)
    ensures
        r == first_mtu(attrs@),
{
    let mut i: usize = 0;
    assert(attrs@.skip(0) =~= attrs@);
    while i < attrs.len()
        invariant
            0 <= i <= attrs@.len(),
            first_mtu(attrs@) == first_mtu(attrs@.skip(i as int)),
        decreases attrs@.len() - i,
    {
        assert(attrs@.skip(i as int)[0] == attrs@[i as int]);
        match attrs[i] {
            LinkAttr::Mtu(v) => {
                return Some(v);
            },
            _ => {},
        }
        assert(attrs@.skip(i as int).drop_first() =~= attrs@.skip(i + 1));
        i = i + 1;
    }
    assert(attrs@.skip(i as int) =~= Seq::<LinkAttr>::empty());
    None
}

fn find_promiscuity(attrs: &[LinkAttr]) -> (r: Option<u32>)
    ensures
        r == first_promiscuity(attrs@),
{
    let mut i: usize = 0;
    assert(attrs@.skip(0) =~= attrs@);
    while i < attrs.len()
        invariant
            0 <= i <= attrs@.len(),
            first_promiscuity(attrs@) == first_promiscuity(attrs@.skip(i as int)),
        decreases attrs@.len() - i,
    {
        assert(attrs@.skip(i as int)[0] == attrs@[i as int]);
        match attrs[i] {
            LinkAttr::Promiscuity(v) => {
                return Some(v);
            },
            _ => {},
        }
        assert(attrs@.skip(i as int).drop_first() =~= attrs@.skip(i + 1));
        i = i + 1;
    }
    assert(attrs@.skip(i as int) =~= Seq::<LinkAttr>::empty());
    None
}

impl Interface {
    /// Decides whether this expectation holds of the snapshot of the link
    /// that carries its name, `None` meaning no such link exists.
    pub fn validate(&self, link: &Option<Vec<LinkAttr>>) -> (r: bool)
        ensures
            r == validate_spec(self@, link_model(*link)),
    {
        match link {
            Option::Some(attrs) => {
                if let Some(st) = self.state {
                    if !self.match_oper_state(&st, attrs.as_slice()) {
                        return false;
                    }
                }
                if let Some(expected_mtu) = self.mtu {
                    match find_mtu(attrs.as_slice()) {
                        Some(actual_mtu) => {
                            if actual_mtu != expected_mtu {
                                return false;
                            }
                        },
                        None => {
                            return false;
                        },
                    }
                }
                if let Some(expected_promisc) = self.promisc {
                    match find_promiscuity(attrs.as_slice()) {
                        Some(v) => {
                            if (v > 0) != expected_promisc {
                                return false;
                            }
                        },
                        None => {
                            return false;
                        },
                    }
                }
                true
            },
            Option::None => {
                match self.state {
                    Some(InterfaceState::Absent) => true,
                    _ => false,
                }
            },
        }
    }

    fn match_oper_state(&self, expected: &InterfaceState, attrs: &[LinkAttr]) -> (r: bool)
        ensures
            r == oper_state_matches(*expected, attrs@),
    {
        let actual = find_oper_state(attrs);
        match (expected, actual) {
            (InterfaceState::Up, Some(OperState::Up)) => true,
            (InterfaceState::Down, Some(OperState::Down)) => true,
            (InterfaceState::Down, Some(OperState::Dormant)) => true,
            (InterfaceState::Down, Some(OperState::LowerLayerDown)) => true,
            (InterfaceState::Absent, _) => false,
            _ => false,
        }
    }
}

/// An expectation of `state: Absent` passes exactly when no link of the name
/// exists: it holds of a missing link, and fails of any existing link,
/// whatever its attributes and whatever other fields the expectation carries.
pub proof fn lemma_absent_expectation(iface: InterfaceView, attrs: Seq<LinkAttr>)
    requires
        iface.state == Some(InterfaceState::Absent),
    ensures
        validate_spec(iface, None),
        !validate_spec(iface, Some(attrs)),
{
}

} // verus!
