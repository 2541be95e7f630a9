//! The transport: one TCP session at a time, over either interface.
//!
//! Each interface has an active socket, which listens and then serves, and a
//! spare one, which listens while the active one serves so that a newer
//! client can displace the one that is served. An interface climbs through
//! its scopes as the link, the IP configuration and a client come, and falls
//! back as they go. Serving needs the traffic guard, which one interface
//! holds at a time.

use crate::api::{MAX_READ_PACKET_SIZE, MAX_WRITE_PACKET_SIZE};
use crate::radio::WifiInterface;
use vstd::prelude::*;

verus! {

/// TCP port of the control server.
pub const PORT: u16 = 8080;

/// Size of an Ethernet frame's payload.
pub const WIFI_MTU: usize = 1500;

/// Number of largest packets that a socket buffer should hold.
pub const NETWORK_BUFFER_FACTOR: usize = 4;

/// Size of a socket's receive buffer.
pub const RX_BUF_SIZE: usize = 1500;

/// Size of a socket's transmit buffer.
pub const TX_BUF_SIZE: usize = 1500;

/// Seconds to wait after a failed accept.
pub const ACCEPT_RETRY_TIMEOUT_SECS: u64 = 10;

/// The larger of two sizes.
pub open spec fn max_usize_spec(a: usize, b: usize) -> usize {
    if a > b {
        a
    } else {
        b
    }
}

/// The larger of two sizes.
pub fn max_usize(a: usize, b: usize) -> (larger: usize)
    ensures
        larger == max_usize_spec(a, b),
{
    if a > b {
        a
    } else {
        b
    }
}

/// A socket buffer holds one Ethernet frame or four of the largest packets,
/// whichever is more.
pub proof fn lemma_buffer_sizes()
    ensures
        RX_BUF_SIZE == max_usize_spec(WIFI_MTU, (MAX_READ_PACKET_SIZE * NETWORK_BUFFER_FACTOR) as usize),
        TX_BUF_SIZE == max_usize_spec(WIFI_MTU, (MAX_WRITE_PACKET_SIZE * NETWORK_BUFFER_FACTOR) as usize),
{
}

/// Size of a socket's receive buffer.
pub fn rx_buf_size() -> (size: usize)
    ensures
        size == RX_BUF_SIZE,
{
    max_usize(WIFI_MTU, MAX_READ_PACKET_SIZE * NETWORK_BUFFER_FACTOR)
}

/// Size of a socket's transmit buffer.
pub fn tx_buf_size() -> (size: usize)
    ensures
        size == TX_BUF_SIZE,
{
    max_usize(WIFI_MTU, MAX_WRITE_PACKET_SIZE * NETWORK_BUFFER_FACTOR)
}

/// How the DHCP server of the access point is set up. Addresses are the four
/// bytes of an IPv4 address, first byte first.
#[derive(Clone, Copy, Debug, PartialEq, Eq)]
pub struct DhcpSettings {
    pub server: [u8; 4],
    pub subnet_mask: [u8; 4],
    pub gateway: [u8; 4],
    pub dns: [u8; 4],
    pub pool_start: [u8; 4],
    pub pool_end: [u8; 4],
}

/// The settings of the DHCP server: the device at 192.168.4.1 in a /24
/// network is server and gateway, names are resolved by 8.8.8.8, and leases
/// run from 192.168.4.2 to 192.168.4.10.
pub fn dhcp_settings() -> (settings: DhcpSettings)
    ensures
        settings.server@ == seq![192u8, 168, 4, 1],
        settings.subnet_mask@ == seq![255u8, 255, 255, 0],
        settings.gateway@ == seq![192u8, 168, 4, 1],
        settings.dns@ == seq![8u8, 8, 8, 8],
        settings.pool_start@ == seq![192u8, 168, 4, 2],
        settings.pool_end@ == seq![192u8, 168, 4, 10],
{
    let settings = DhcpSettings {
        server: [192, 168, 4, 1],
        subnet_mask: [255, 255, 255, 0],
        gateway: [192, 168, 4, 1],
        dns: [8, 8, 8, 8],
        pool_start: [192, 168, 4, 2],
        pool_end: [192, 168, 4, 10],
    };
    proof {
        assert(settings.server@ =~= seq![192u8, 168, 4, 1]);
        assert(settings.subnet_mask@ =~= seq![255u8, 255, 255, 0]);
        assert(settings.gateway@ =~= seq![192u8, 168, 4, 1]);
        assert(settings.dns@ =~= seq![8u8, 8, 8, 8]);
        assert(settings.pool_start@ =~= seq![192u8, 168, 4, 2]);
        assert(settings.pool_end@ =~= seq![192u8, 168, 4, 10]);
    }
    settings
}

/// Where the transport of one interface stands.
#[derive(Clone, Copy, Debug, PartialEq, Eq, Structural)]
pub enum Scope {
    /// Waiting for the link to come up.
    Link,
    /// The link is up: waiting for the IP configuration.
    Config,
    /// The IP configuration is up: the active socket listens.
    Tcp,
    /// An accept failed and the active socket is aborted: waiting
    /// [`ACCEPT_RETRY_TIMEOUT_SECS`] before it listens again.
    Backoff,
    /// A client is accepted: waiting for the traffic guard.
    Locking,
    /// Serving the client, with the traffic guard held. The spare socket
    /// listens.
    Api,
}

/// What happens to the transport of one interface.
#[derive(Clone, Copy, Debug, PartialEq, Eq, Structural)]
pub enum TransportEvent {
    /// The link came up.
    LinkUp,
    /// The link went down.
    LinkDown,
    /// The IP configuration came up.
    ConfigUp,
    /// The IP configuration went down.
    ConfigDown,
    /// The active socket accepted a client.
    Accepted,
    /// The accept on the active socket failed.
    AcceptFailed,
    /// The wait after a failed accept is over.
    BackoffElapsed,
    /// The spare socket took a connection while a client is served, or
    /// failed to.
    SpareAccepted,
    /// The send handler or the receive handler ended.
    HandlerDone,
}

impl Scope {
    /// Whether the IP configuration is up in this scope, so that the DHCP
    /// server of an access point runs.
    pub open spec fn configured(self) -> bool {
        self == Scope::Tcp || self == Scope::Backoff || self == Scope::Locking || self
            == Scope::Api
    }

    /// Where `event` takes the transport of one interface from here, not
    /// looking at the traffic guard. An event that the scope does not wait
    /// for changes nothing.
    pub open spec fn next(self, event: TransportEvent) -> Scope {
        match (self, event) {
            (Scope::Link, TransportEvent::LinkUp) => Scope::Config,
            (Scope::Link, _) => Scope::Link,
            (_, TransportEvent::LinkDown) => Scope::Link,
            (Scope::Config, TransportEvent::ConfigUp) => Scope::Tcp,
            (Scope::Config, _) => Scope::Config,
            (_, TransportEvent::ConfigDown) => Scope::Config,
            (Scope::Tcp, TransportEvent::Accepted) => Scope::Locking,
            (Scope::Tcp, TransportEvent::AcceptFailed) => Scope::Backoff,
            (Scope::Backoff, TransportEvent::BackoffElapsed) => Scope::Tcp,
            (Scope::Api, TransportEvent::HandlerDone) => Scope::Tcp,
            (scope, _) => scope,
        }
    }
}

/// What the caller does to the sockets and buffers of the interface that an
/// event came for, in the order of the fields.
#[derive(Clone, Copy, Debug, PartialEq, Eq, Structural)]
pub struct SocketActions {
    /// Exchange the active and the spare socket.
    pub swap: bool,
    /// Abort the active socket.
    pub abort_active: bool,
    /// Abort the spare socket.
    pub abort_spare: bool,
    /// Clear the position queue, the command queue and both acknowledgement
    /// channels.
    pub clear: bool,
}

impl SocketActions {
    /// What `event` asks for in `scope`.
    ///
    /// A displacing client takes the place of the served one, which is
    /// aborted, and the buffers are cleared of what the old session left.
    /// The end of a session, and the loss of link or configuration, abort
    /// both sockets; where a session was served the buffers are cleared.
    /// A failed accept aborts the active socket before the wait.
    pub open spec fn of(scope: Scope, event: TransportEvent) -> SocketActions {
        let next = scope.next(event);
        let displaced = scope == Scope::Api && event == TransportEvent::SpareAccepted;
        let fell = next != scope && (next == Scope::Link || next == Scope::Config) && scope
            != Scope::Link;
        let ended = scope == Scope::Api && next != Scope::Api;
        let failed = scope == Scope::Tcp && next == Scope::Backoff;
        SocketActions {
            swap: displaced,
            abort_active: fell || ended || failed,
            abort_spare: displaced || fell || ended,
            clear: displaced || ended,
        }
    }
}

/// Where both interfaces stand.
pub struct TransportView {
    pub ap: Scope,
    pub sta: Scope,
}

impl TransportView {
    /// The scope of `interface`.
    pub open spec fn scope(self, interface: WifiInterface) -> Scope {
        match interface {
            WifiInterface::AccessPoint => self.ap,
            WifiInterface::Station => self.sta,
            WifiInterface::NoClient => Scope::Link,
        }
    }

    /// The interface that holds the traffic guard, `NoClient` where none
    /// does.
    pub open spec fn holder(self) -> WifiInterface {
        if self.ap == Scope::Api {
            WifiInterface::AccessPoint
        } else if self.sta == Scope::Api {
            WifiInterface::Station
        } else {
            WifiInterface::NoClient
        }
    }

    /// At most one interface serves.
    pub open spec fn exclusive(self) -> bool {
        !(self.ap == Scope::Api && self.sta == Scope::Api)
    }

    /// No interface waits for the traffic guard while it is free.
    pub open spec fn settled(self) -> bool {
        self.holder() == WifiInterface::NoClient ==> self.ap != Scope::Locking && self.sta
            != Scope::Locking
    }

    /// Hands the traffic guard to an interface that waits for it, where no
    /// interface holds it. `first` is asked first.
    pub open spec fn grant(self, first: WifiInterface) -> TransportView {
        if self.holder() != WifiInterface::NoClient {
            self
        } else if first == WifiInterface::AccessPoint && self.ap == Scope::Locking {
            TransportView { ap: Scope::Api, sta: self.sta }
        } else if self.sta == Scope::Locking {
            TransportView { ap: self.ap, sta: Scope::Api }
        } else if self.ap == Scope::Locking {
            TransportView { ap: Scope::Api, sta: self.sta }
        } else {
            self
        }
    }

    /// Where `event` on `interface` takes both interfaces: the interface
    /// moves by [`Scope::next`], and then the traffic guard, where it is or
    /// became free, goes to an interface that waits for it.
    pub open spec fn next(self, interface: WifiInterface, event: TransportEvent) -> TransportView {
        let moved = match interface {
            WifiInterface::AccessPoint => TransportView { ap: self.ap.next(event), sta: self.sta },
            WifiInterface::Station => TransportView { ap: self.ap, sta: self.sta.next(event) },
            WifiInterface::NoClient => self,
        };
        moved.grant(interface)
    }
}

impl TransportView {
    /// The interface that gets the traffic guard by `event` on `interface`
    /// without being that interface: the one that waited for the guard.
    pub open spec fn granted_by(self, interface: WifiInterface, event: TransportEvent) -> Option<
        WifiInterface,
    > {
        let holder = self.next(interface, event).holder();
        if holder != self.holder() && holder != WifiInterface::NoClient && holder != interface {
            Some(holder)
        } else {
            None
        }
    }
}

/// The traffic guard stays with one interface at most, whatever happens.
pub proof fn lemma_exclusive_kept(view: TransportView, interface: WifiInterface, event: TransportEvent)
    requires
        view.exclusive(),
    ensures
        view.next(interface, event).exclusive(),
{
}

/// After every event the traffic guard is held wherever an interface waits
/// for it: an accepted client is kept waiting only by another session.
pub proof fn lemma_guard_never_idle(view: TransportView, interface: WifiInterface, event: TransportEvent)
    ensures
        view.next(interface, event).settled(),
{
}

/// No event makes an interface serve but the grant of the traffic guard,
/// and the guard is granted only while no interface holds it: an interface
/// that serves after an event either served before, or no other served
/// before or serves after.
pub proof fn lemma_guard_taken_when_free(
    view: TransportView,
    interface: WifiInterface,
    event: TransportEvent,
    server: WifiInterface,
)
    requires
        view.exclusive(),
        server != WifiInterface::NoClient,
        view.next(interface, event).scope(server) == Scope::Api,
        view.scope(server) != Scope::Api,
    ensures
        view.scope(server) == Scope::Locking || (server == interface && view.scope(server)
            == Scope::Tcp && event == TransportEvent::Accepted),
        view.next(interface, event).holder() == server,
        view.holder() == WifiInterface::NoClient || view.holder() == interface,
{
}

/// Nothing of a session outlives it: whenever the interface that serves
/// gives the traffic guard up, or its client is displaced, the buffers are
/// cleared; and no event clears them but one of the interface that serves.
pub proof fn lemma_sessions_leave_nothing(
    view: TransportView,
    interface: WifiInterface,
    event: TransportEvent,
)
    requires
        view.exclusive(),
        interface != WifiInterface::NoClient,
    ensures
        view.holder() == interface && view.next(interface, event).holder() != interface
            ==> SocketActions::of(view.scope(interface), event).clear,
        view.holder() == interface && event == TransportEvent::SpareAccepted ==> SocketActions::of(
            view.scope(interface),
            event,
        ).clear,
        SocketActions::of(view.scope(interface), event).clear ==> view.holder() == interface,
        view.holder() != interface ==> view.next(interface, event).scope(view.holder())
            == view.scope(view.holder()),
{
}

/// What one turn of the transport leaves to do.
#[derive(Clone, Copy, Debug, PartialEq, Eq, Structural)]
pub struct TransportTurn {
    /// What to do to the sockets and buffers of the interface that the event
    /// came for.
    pub actions: SocketActions,
    /// The interface to publish as the active one, where the holder of the
    /// traffic guard changed.
    pub signal: Option<WifiInterface>,
    /// The interface that waited for the traffic guard and got it by this
    /// event of the other interface: its wait is over.
    pub granted: Option<WifiInterface>,
}

/// The transport over both interfaces.
pub struct MultiLinkTransport {
    ap: Scope,
    sta: Scope,
}

impl View for MultiLinkTransport {
    type V = TransportView;

    closed spec fn view(&self) -> TransportView {
        TransportView { ap: self.ap, sta: self.sta }
    }
}

impl MultiLinkTransport {
    #[verifier::type_invariant]
    spec fn one_session(self) -> bool {
        !(self.ap == Scope::Api && self.sta == Scope::Api)
    }

    /// A transport whose interfaces both wait for their link.
    pub fn make() -> (transport: Self)
        ensures
            transport@ == (TransportView { ap: Scope::Link, sta: Scope::Link }),
    {
        MultiLinkTransport { ap: Scope::Link, sta: Scope::Link }
    }

    /// Where `interface` stands.
    pub fn scope(&self, interface: WifiInterface) -> (scope: Scope)
        ensures
            scope == self@.scope(interface),
    {
        match interface {
            WifiInterface::AccessPoint => self.ap,
            WifiInterface::Station => self.sta,
            WifiInterface::NoClient => Scope::Link,
        }
    }

    /// The interface that serves a client, `NoClient` where none does. At
    /// most one does.
    pub fn active_interface(&self) -> (holder: WifiInterface)
        ensures
            holder == self@.holder(),
            self@.exclusive(),
            holder == WifiInterface::NoClient <==> self@.ap != Scope::Api && self@.sta
                != Scope::Api,
    {
        proof {
            use_type_invariant(self);
        }
        if self.ap == Scope::Api {
            WifiInterface::AccessPoint
        } else if self.sta == Scope::Api {
            WifiInterface::Station
        } else {
            WifiInterface::NoClient
        }
    }

    /// Whether the DHCP server runs: it does while the IP configuration of
    /// the access point is up.
    pub fn serves_dhcp(&self) -> (serves: bool)
        ensures
            serves == self@.ap.configured(),
    {
        match self.ap {
            Scope::Tcp | Scope::Backoff | Scope::Locking | Scope::Api => true,
            _ => false,
        }
    }

    /// One turn of the transport: takes `event` for `interface`, moves the
    /// scopes, and says what to do to the sockets and buffers of that
    /// interface and which interface to publish as the active one.
    pub fn run(&mut self, interface: WifiInterface, event: TransportEvent) -> (turn: TransportTurn)
        ensures
            final(self)@ == old(self)@.next(interface, event),
            final(self)@.exclusive(),
            turn.actions == if interface == WifiInterface::NoClient {
                SocketActions { swap: false, abort_active: false, abort_spare: false, clear: false }
            } else {
                SocketActions::of(old(self)@.scope(interface), event)
            },
            turn.signal == if final(self)@.holder() == old(self)@.holder() {
                None
            } else {
                Some(final(self)@.holder())
            },
            turn.granted == old(self)@.granted_by(interface, event),
    {
        proof {
            use_type_invariant(&*self);
        }
        let before = self.active_interface();
        let scope = self.scope(interface);
        let next = step_scope(scope, event);
        let actions = match interface {
            WifiInterface::NoClient => SocketActions {
                swap: false,
                abort_active: false,
                abort_spare: false,
                clear: false,
            },
            _ => socket_actions(scope, event),
        };
        let (ap, sta) = match interface {
            WifiInterface::AccessPoint => (next, self.sta),
            WifiInterface::Station => (self.ap, next),
            WifiInterface::NoClient => (self.ap, self.sta),
        };
        let held = ap == Scope::Api || sta == Scope::Api;
        let ap_first = interface == WifiInterface::AccessPoint;
        let (ap, sta) = if held {
            (ap, sta)
        } else if ap_first && ap == Scope::Locking {
            (Scope::Api, sta)
        } else if sta == Scope::Locking {
            (ap, Scope::Api)
        } else if ap == Scope::Locking {
            (Scope::Api, sta)
        } else {
            (ap, sta)
        };
        *self = MultiLinkTransport { ap, sta };
        let after = self.active_interface();
        let signal = if after == before {
            None
        } else {
            Some(after)
        };
        let granted = if after != before && after != WifiInterface::NoClient && after
            != interface {
            Some(after)
        } else {
            None
        };
        TransportTurn { actions, signal, granted }
    }
}

/// Where `event` takes the transport of one interface from `scope`.
fn step_scope(scope: Scope, event: TransportEvent) -> (next: Scope)
    ensures
        next == scope.next(event),
{
    match (scope, event) {
        (Scope::Link, TransportEvent::LinkUp) => Scope::Config,
        (Scope::Link, _) => Scope::Link,
        (_, TransportEvent::LinkDown) => Scope::Link,
        (Scope::Config, TransportEvent::ConfigUp) => Scope::Tcp,
        (Scope::Config, _) => Scope::Config,
        (_, TransportEvent::ConfigDown) => Scope::Config,
        (Scope::Tcp, TransportEvent::Accepted) => Scope::Locking,
        (Scope::Tcp, TransportEvent::AcceptFailed) => Scope::Backoff,
        (Scope::Backoff, TransportEvent::BackoffElapsed) => Scope::Tcp,
        (Scope::Api, TransportEvent::HandlerDone) => Scope::Tcp,
        (scope, _) => scope,
    }
}

/// What `event` asks for in `scope`.
fn socket_actions(scope: Scope, event: TransportEvent) -> (actions: SocketActions)
    ensures
        actions == SocketActions::of(scope, event),
{
    let next = step_scope(scope, event);
    let displaced = scope == Scope::Api && event == TransportEvent::SpareAccepted;
    let fell = next != scope && (next == Scope::Link || next == Scope::Config) && scope
        != Scope::Link;
    let ended = scope == Scope::Api && next != Scope::Api;
    let failed = scope == Scope::Tcp && next == Scope::Backoff;
    SocketActions {
        swap: displaced,
        abort_active: fell || ended || failed,
        abort_spare: displaced || fell || ended,
        clear: displaced || ended,
    }
}

} // verus!
