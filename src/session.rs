use vstd::prelude::*;
use crate::address::{PlatPrefix, discover_plat_prefix, first_prefix, prefix_of};
use crate::config::Config;
use crate::header::{PROTOCOL_ICMP, ipv4_header_len, ipv4_total_len};
use crate::packet::{
    Translation, Verdict, lemma_truncated_header_malformed, lemma_untranslatable_icmp_dropped,
    translate_packet, translate_spec, well_formed_ipv4,
};

verus! {

/// Seconds to wait before asking again for a prefix that was not available.
pub const PREFIX_RETRY_SECS: u64 = 600;

/// Where the translation loop stands.
#[derive(Clone, Copy, Debug, PartialEq, Eq)]
pub enum SessionState {
    /// No prefix is known yet: the provider is to be asked.
    AwaitingPrefix,
    /// Packets are translated under this prefix.
    Active(PlatPrefix),
}

impl SessionState {
    pub open spec fn wf(&self) -> bool {
        self matches SessionState::Active(p) ==> p.wf()
    }
}

/// What happened outside since the last decision.
#[derive(Clone, Debug, PartialEq, Eq)]
pub enum Event {
    /// The provider answered with these synthesised IPv6 addresses (none
    /// where the name could not be resolved).
    PrefixQueried(Vec<[u8; 16]>),
    /// One packet was read from the interface.
    PacketRead(Vec<u8>),
    /// Reading from or writing to the interface failed.
    InterfaceFailed,
}

/// What the loop does next.
#[derive(Clone, Debug, PartialEq, Eq)]
pub enum Action {
    /// Ask the provider for a prefix.
    QueryPrefix,
    /// Wait this many seconds, then ask the provider again.
    Sleep(u64),
    /// Open and set up the interface, then read a packet.
    OpenInterface,
    /// Write these octets to the interface, then read the next packet.
    Write(Vec<u8>),
    /// Write nothing; read the next packet.
    ReadNext,
}

pub enum EventView {
    PrefixQueried(Seq<[u8; 16]>),
    PacketRead(Seq<u8>),
    InterfaceFailed,
}

pub enum ActionView {
    QueryPrefix,
    Sleep(u64),
    OpenInterface,
    Write(Seq<u8>),
    ReadNext,
}

impl View for Event {
    type V = EventView;

    open spec fn view(&self) -> EventView {
        match self {
            Event::PrefixQueried(a) => EventView::PrefixQueried(a@),
            Event::PacketRead(b) => EventView::PacketRead(b@),
            Event::InterfaceFailed => EventView::InterfaceFailed,
        }
    }
}

impl View for Action {
    type V = ActionView;

    open spec fn view(&self) -> ActionView {
        match self {
            Action::QueryPrefix => ActionView::QueryPrefix,
            Action::Sleep(s) => ActionView::Sleep(*s),
            Action::OpenInterface => ActionView::OpenInterface,
            Action::Write(b) => ActionView::Write(b@),
            Action::ReadNext => ActionView::ReadNext,
        }
    }
}

/// The state a discovered prefix leads to.
pub open spec fn state_of_prefix(found: Option<(Seq<u8>, int)>, s: SessionState) -> bool {
    match found {
        Some((a, l)) => s matches SessionState::Active(p) && p.address@ == a && p.length == l,
        None => s == SessionState::AwaitingPrefix,
    }
}

/// Whether `(next, action)` is the loop's decision in `state` on `event`.
pub open spec fn step_spec(config: Config, state: SessionState, event: EventView, next: SessionState, action: ActionView) -> bool {
    match (state, event) {
        (SessionState::AwaitingPrefix, EventView::PrefixQueried(addrs)) => {
            let found = first_prefix(addrs, 0);
            &&& state_of_prefix(found, next)
            &&& action == (if found is Some { ActionView::OpenInterface } else { ActionView::Sleep(PREFIX_RETRY_SECS) })
        },
        (SessionState::Active(p), EventView::PacketRead(b)) => {
            &&& next == state
            &&& action == (match translate_spec(config, p, b) {
                Verdict::Forward(o) => ActionView::Write(o),
                _ => ActionView::ReadNext,
            })
        },
        (SessionState::Active(_), EventView::InterfaceFailed) => {
            next == SessionState::AwaitingPrefix && action == ActionView::QueryPrefix
        },
        (SessionState::AwaitingPrefix, _) => {
            next == state && action == ActionView::QueryPrefix
        },
        (SessionState::Active(_), EventView::PrefixQueried(_)) => {
            next == state && action == ActionView::ReadNext
        },
    }
}

/// Decides what the loop does on `event`: take a discovered prefix and open
/// the interface, or wait and ask again; translate a packet and write it, or
/// drop it and read on; go back to asking for a prefix when the interface
/// fails.
pub fn step(config: &Config, state: &SessionState, event: &Event) -> (r: (SessionState, Action))
    requires
        state.wf(),
    ensures
        r.0.wf(),
        step_spec(*config, *state, event@, r.0, r.1@),
{
    match (state, event) {
        (SessionState::AwaitingPrefix, Event::PrefixQueried(addrs)) => {
            match discover_plat_prefix(addrs) {
                Some(p) => (SessionState::Active(p), Action::OpenInterface),
                None => (SessionState::AwaitingPrefix, Action::Sleep(PREFIX_RETRY_SECS)),
            }
        },
        (SessionState::Active(p), Event::PacketRead(b)) => {
            match translate_packet(config, p, b.as_slice()) {
                Translation::Translated(o) => (*state, Action::Write(o)),
                _ => (*state, Action::ReadNext),
            }
        },
        (SessionState::Active(_), Event::InterfaceFailed) => (SessionState::AwaitingPrefix, Action::QueryPrefix),
        (SessionState::AwaitingPrefix, _) => (*state, Action::QueryPrefix),
        (SessionState::Active(_), Event::PrefixQueried(_)) => (*state, Action::ReadNext),
    }
}

/// No address from index `i` on reveals a prefix, so none is found.
proof fn lemma_first_prefix_none(s: Seq<[u8; 16]>, i: int)
    requires
        forall|j: int| 0 <= j < s.len() ==> prefix_of(#[trigger] s[j]@) is None,
    ensures
        first_prefix(s, i) is None,
    decreases s.len() - i,
{
    if 0 <= i < s.len() {
        lemma_first_prefix_none(s, i + 1);
    }
}

/// Addresses whose marker stands at an invalid prefix length (or that hold
/// none) lead to the same decision as an answer with no address at all.
pub proof fn lemma_invalid_prefix_is_none(
    config: Config,
    addrs: Seq<[u8; 16]>,
    next: SessionState,
    action: ActionView,
)
    requires
        forall|j: int| 0 <= j < addrs.len() ==> prefix_of(#[trigger] addrs[j]@) is None,
    ensures
        step_spec(config, SessionState::AwaitingPrefix, EventView::PrefixQueried(addrs), next, action)
            <==> step_spec(config, SessionState::AwaitingPrefix, EventView::PrefixQueried(Seq::empty()), next, action),
        step_spec(config, SessionState::AwaitingPrefix, EventView::PrefixQueried(addrs), next, action)
            ==> next == SessionState::AwaitingPrefix && action == ActionView::Sleep(PREFIX_RETRY_SECS),
{
    lemma_first_prefix_none(addrs, 0);
    assert(first_prefix(Seq::<[u8; 16]>::empty(), 0) is None);
}

/// A packet whose header length exceeds the buffer writes nothing and leaves
/// the state as it was, so the packet after it is handled as if it had not
/// come.
pub proof fn lemma_malformed_packet_skipped(
    config: Config,
    p: PlatPrefix,
    b: Seq<u8>,
    next: SessionState,
    action: ActionView,
    later: EventView,
    next2: SessionState,
    action2: ActionView,
)
    requires
        p.wf(),
        b.len() > 0,
        b[0] / 16 == 4,
        ipv4_header_len(b) > b.len(),
        step_spec(config, SessionState::Active(p), EventView::PacketRead(b), next, action),
    ensures
        action == ActionView::ReadNext,
        next == SessionState::Active(p),
        step_spec(config, next, later, next2, action2)
            <==> step_spec(config, SessionState::Active(p), later, next2, action2),
{
    lemma_truncated_header_malformed(config, p, b);
}

/// A packet that carries an ICMPv4 Redirect, or a Parameter Problem with code
/// Missing Required Option, leads to no write.
pub proof fn lemma_untranslatable_icmp_not_written(
    config: Config,
    p: PlatPrefix,
    b: Seq<u8>,
    next: SessionState,
    action: ActionView,
)
    requires
        p.wf(),
        well_formed_ipv4(b),
        b[9] == PROTOCOL_ICMP,
        ipv4_total_len(b) - ipv4_header_len(b) >= 8,
        ({
            let m = b.subrange(ipv4_header_len(b), ipv4_total_len(b));
            m[0] == 5 || (m[0] == 12 && m[1] == 1)
        }),
        step_spec(config, SessionState::Active(p), EventView::PacketRead(b), next, action),
    ensures
        action == ActionView::ReadNext,
        next == SessionState::Active(p),
{
    lemma_untranslatable_icmp_dropped(config, p, b);
}

} // verus!
