//! The Wi-Fi configuration that the operator selects and the flash keeps.

use crate::text::String;
use vstd::prelude::*;
use vstd::utf8::is_ascii_chars_encode_utf8;

verus! {

/// Capacity of an SSID, in bytes.
pub const MAX_SSID_LEN: usize = 32;

/// Capacity of a password, in bytes.
pub const MAX_PASS_LEN: usize = 64;

/// Supported Wi-Fi authentication methods.
#[derive(Copy, Clone, Debug, PartialEq, Eq, Structural, PartialOrd)]
pub enum AuthMethod {
    /// Open network, no password.
    Open,
    /// The legacy WEP protocol.
    Wep,
    /// WPA.
    Wpa,
    /// WPA2 Personal.
    Wpa2Personal,
    /// Mixed WPA/WPA2 Personal.
    WpaWpa2Personal,
    /// WPA2 Enterprise.
    Wpa2Enterprise,
    /// WPA3 Personal.
    Wpa3Personal,
    /// Mixed WPA2/WPA3 Personal.
    Wpa2Wpa3Personal,
    /// WAPI.
    WapiPersonal,
}

impl Default for AuthMethod {
    fn default() -> (method: Self)
        ensures
            method == AuthMethod::Wpa2Personal,
    {
        AuthMethod::Wpa2Personal
    }
}

/// Supported Wi-Fi protocols.
#[derive(Copy, Clone, Debug, PartialEq, Eq, Structural, PartialOrd)]
pub enum Protocol {
    /// 802.11b.
    P802D11B,
    /// 802.11b/g.
    P802D11BG,
    /// 802.11b/g/n.
    P802D11BGN,
    /// 802.11b/g/n with long range.
    P802D11BGNLR,
    /// 802.11 long range.
    P802D11LR,
    /// 802.11b/g/n/ax.
    P802D11BGNAX,
}

impl Default for Protocol {
    fn default() -> (protocol: Self)
        ensures
            protocol == Protocol::P802D11BGN,
    {
        Protocol::P802D11BGN
    }
}

impl Protocol {
    /// Position of the protocol in the order of declaration: the number of
    /// its bit in a [`ProtocolsSet`].
    pub open spec fn index_spec(self) -> u8 {
        match self {
            Protocol::P802D11B => 0,
            Protocol::P802D11BG => 1,
            Protocol::P802D11BGN => 2,
            Protocol::P802D11BGNLR => 3,
            Protocol::P802D11LR => 4,
            Protocol::P802D11BGNAX => 5,
        }
    }

    /// Position of the protocol in the order of declaration.
    pub fn index(self) -> (i: u8)
        ensures
            i == self.index_spec(),
            i < 6,
    {
        match self {
            Protocol::P802D11B => 0,
            Protocol::P802D11BG => 1,
            Protocol::P802D11BGN => 2,
            Protocol::P802D11BGNLR => 3,
            Protocol::P802D11LR => 4,
            Protocol::P802D11BGNAX => 5,
        }
    }

    /// The protocol at position `i`, where there is one.
    pub fn from_index(i: u8) -> (protocol: Option<Self>)
        ensures
            i < 6 <==> protocol is Some,
            protocol matches Some(p) ==> p.index_spec() == i,
    {
        match i {
            0 => Some(Protocol::P802D11B),
            1 => Some(Protocol::P802D11BG),
            2 => Some(Protocol::P802D11BGN),
            3 => Some(Protocol::P802D11BGNLR),
            4 => Some(Protocol::P802D11LR),
            5 => Some(Protocol::P802D11BGNAX),
            _ => None,
        }
    }
}

/// Whether bit `i` of `bits` is set.
pub open spec fn has_bit(bits: u8, i: u8) -> bool {
    (bits >> i) & 1 == 1
}

proof fn lemma_single_bit(i: u8, j: u8)
    by (bit_vector)
    requires
        i < 6,
        j < 6,
    ensures
        has_bit(1u8 << i, j) == (i == j),
        (1u8 << i) < 64,
{
}

proof fn lemma_joined_bits(a: u8, b: u8, j: u8)
    by (bit_vector)
    requires
        a < 64,
        b < 64,
        j < 6,
    ensures
        has_bit(a | b, j) == (has_bit(a, j) || has_bit(b, j)),
        (a | b) < 64,
{
}

proof fn lemma_no_bits(j: u8)
    by (bit_vector)
    requires
        j < 6,
    ensures
        !has_bit(0u8, j),
{
}

proof fn lemma_low_bits(bits: u8, j: u8)
    by (bit_vector)
    requires
        j < 6,
    ensures
        has_bit(bits & 0x3f, j) == has_bit(bits, j),
        (bits & 0x3f) < 64,
{
}

proof fn lemma_same_bits(a: u8, b: u8)
    by (bit_vector)
    requires
        a < 64,
        b < 64,
        has_bit(a, 0) == has_bit(b, 0),
        has_bit(a, 1) == has_bit(b, 1),
        has_bit(a, 2) == has_bit(b, 2),
        has_bit(a, 3) == has_bit(b, 3),
        has_bit(a, 4) == has_bit(b, 4),
        has_bit(a, 5) == has_bit(b, 5),
    ensures
        a == b,
{
}

/// A set of protocols, packed into one byte: bit `i` stands for the protocol
/// at position `i`.
#[derive(Copy, Clone, Debug, PartialEq, Eq, Structural)]
pub struct ProtocolsSet {
    bits: u8,
}

impl View for ProtocolsSet {
    type V = Set<Protocol>;

    closed spec fn view(&self) -> Set<Protocol> {
        Set::new(|p: Protocol| has_bit(self.bits, p.index_spec()))
    }
}

impl ProtocolsSet {
    #[verifier::type_invariant]
    spec fn known_bits_only(self) -> bool {
        self.bits < 64
    }

    /// The byte that holds the set.
    pub closed spec fn bits_spec(self) -> u8 {
        self.bits
    }

    /// The set without members.
    pub fn empty() -> (set: Self)
        ensures
            set@ == Set::<Protocol>::empty(),
            set.bits_spec() == 0,
    {
        let set = ProtocolsSet { bits: 0 };
        proof {
            assert forall|p: Protocol| !set@.contains(p) by {
                lemma_no_bits(p.index_spec());
            }
            assert(set@ =~= Set::<Protocol>::empty());
        }
        set
    }

    /// The set whose one member is `protocol`.
    pub fn only(protocol: Protocol) -> (set: Self)
        ensures
            set@ == set![protocol],
    {
        let i: u8 = protocol.index();
        proof {
            lemma_single_bit(i, i);
        }
        let set = ProtocolsSet { bits: 1u8 << i };
        proof {
            assert forall|p: Protocol| set@.contains(p) == (p == protocol) by {
                lemma_single_bit(i, p.index_spec());
            }
            assert(set@ =~= set![protocol]);
        }
        set
    }

    /// The set that holds the bits of `bits` that stand for a protocol.
    pub fn from_bits_truncated(bits: u8) -> (set: Self)
        ensures
            forall|p: Protocol| set@.contains(p) == has_bit(bits, p.index_spec()),
            bits < 64 ==> set.bits_spec() == bits,
    {
        proof {
            lemma_low_bits(bits, 0);
            assert(bits < 64 ==> bits & 0x3f == bits) by (bit_vector);
        }
        let set = ProtocolsSet { bits: bits & 0x3f };
        proof {
            assert forall|p: Protocol| set@.contains(p) == has_bit(bits, p.index_spec()) by {
                lemma_low_bits(bits, p.index_spec());
            }
        }
        set
    }

    /// The byte that holds the set.
    pub fn bits(&self) -> (bits: u8)
        ensures
            bits == self.bits_spec(),
            bits < 64,
            forall|p: Protocol| self@.contains(p) == has_bit(bits, p.index_spec()),
    {
        proof {
            use_type_invariant(self);
        }
        self.bits
    }

    /// Whether `protocol` is a member.
    pub fn contains(&self, protocol: Protocol) -> (found: bool)
        ensures
            found == self@.contains(protocol),
    {
        let i: u8 = protocol.index();
        (self.bits >> i) & 1 == 1
    }

    /// Adds `protocol`; says whether it was absent before.
    pub fn insert(&mut self, protocol: Protocol) -> (added: bool)
        ensures
            final(self)@ == old(self)@.insert(protocol),
            added == !old(self)@.contains(protocol),
    {
        let added = !self.contains(protocol);
        *self = self.union(ProtocolsSet::only(protocol));
        proof {
            assert(old(self)@.union(set![protocol]) =~= old(self)@.insert(protocol));
        }
        added
    }

    /// The members of both sets.
    pub fn union(self, other: Self) -> (joined: Self)
        ensures
            joined@ == self@.union(other@),
    {
        proof {
            use_type_invariant(self);
            use_type_invariant(other);
            lemma_joined_bits(self.bits, other.bits, 0);
        }
        let joined = ProtocolsSet { bits: self.bits | other.bits };
        proof {
            assert forall|p: Protocol|
                joined@.contains(p) == (self@.contains(p) || other@.contains(p)) by {
                lemma_joined_bits(self.bits, other.bits, p.index_spec());
            }
            assert(joined@ =~= self@.union(other@));
        }
        joined
    }

    /// The members, in the order of their positions.
    pub fn to_vec(&self) -> (members: Vec<Protocol>)
        ensures
            members@.to_set() == self@,
            members@.no_duplicates(),
            forall|a: int, b: int|
                0 <= a < b < members.len() ==> members[a].index_spec() < members[b].index_spec(),
    {
        let mut members: Vec<Protocol> = Vec::new();
        let mut i: u8 = 0;
        while i < 6
            invariant
                i <= 6,
                forall|k: int| 0 <= k < members.len() ==> members[k].index_spec() < i,
                forall|k: int| 0 <= k < members.len() ==> self@.contains(members[k]),
                forall|p: Protocol|
                    p.index_spec() < i && self@.contains(p) ==> members@.contains(p),
                forall|a: int, b: int|
                    0 <= a < b < members.len() ==> members[a].index_spec() < members[b].index_spec(),
            decreases 6 - i,
        {
            match Protocol::from_index(i) {
                Some(p) => {
                    if self.contains(p) {
                        let ghost before = members@;
                        members.push(p);
                        proof {
                            assert(members@[before.len() as int] == p);
                            assert forall|q: Protocol|
                                q.index_spec() < i + 1 && self@.contains(q) implies members@.contains(
                                q,
                            ) by {
                                if q.index_spec() < i {
                                    let k = choose|k: int| 0 <= k < before.len() && before[k] == q;
                                    assert(members@[k] == q);
                                } else {
                                    assert(q == p);
                                }
                            }
                        }
                    } else {
                        proof {
                            assert forall|q: Protocol|
                                q.index_spec() < i + 1 && self@.contains(q) implies members@.contains(
                                q,
                            ) by {
                                if q.index_spec() == i {
                                    assert(q == p);
                                }
                            }
                        }
                    }
                },
                None => {},
            }
            i = i + 1;
        }
        proof {
            assert(members@.to_set() =~= self@);
        }
        members
    }
}

/// Two sets with the same members are held by the same byte.
pub proof fn lemma_protocols_set_by_members(a: ProtocolsSet, b: ProtocolsSet)
    requires
        a.bits_spec() < 64,
        b.bits_spec() < 64,
        a@ == b@,
    ensures
        a == b,
{
    assert forall|p: Protocol| has_bit(a.bits_spec(), p.index_spec()) == has_bit(
        b.bits_spec(),
        p.index_spec(),
    ) by {
        assert(a@.contains(p) == has_bit(a.bits, p.index_spec()));
        assert(b@.contains(p) == has_bit(b.bits, p.index_spec()));
    }
    assert(Protocol::P802D11B.index_spec() == 0);
    assert(Protocol::P802D11BG.index_spec() == 1);
    assert(Protocol::P802D11BGN.index_spec() == 2);
    assert(Protocol::P802D11BGNLR.index_spec() == 3);
    assert(Protocol::P802D11LR.index_spec() == 4);
    assert(Protocol::P802D11BGNAX.index_spec() == 5);
    lemma_same_bits(a.bits_spec(), b.bits_spec());
}

impl Default for ProtocolsSet {
    fn default() -> (set: Self)
        ensures
            set@ == set![Protocol::P802D11BGN],
    {
        ProtocolsSet::only(Protocol::P802D11BGN)
    }
}

/// Settings for joining an outside access point as a station.
#[derive(Debug, PartialEq)]
pub struct ClientConfig {
    /// Name of the network.
    pub ssid: String<MAX_SSID_LEN>,
    /// Address of one access point, where only that one may be joined.
    pub bssid: Option<[u8; 6]>,
    /// How the network authenticates.
    pub auth_method: AuthMethod,
    /// Password of the network.
    pub password: String<MAX_PASS_LEN>,
    /// Channel of the network, where it is known.
    pub channel: Option<u8>,
    /// Protocols to use.
    pub protocols: ProtocolsSet,
}

/// What a [`ClientConfig`] holds.
pub struct ClientConfigView {
    pub ssid: Seq<char>,
    pub bssid: Option<Seq<u8>>,
    pub auth_method: AuthMethod,
    pub password: Seq<char>,
    pub channel: Option<u8>,
    pub protocols: Set<Protocol>,
}

/// The bytes of an address, where there is one.
pub open spec fn bssid_view(bssid: Option<[u8; 6]>) -> Option<Seq<u8>> {
    match bssid {
        Some(address) => Some(address@),
        None => None,
    }
}

impl View for ClientConfig {
    type V = ClientConfigView;

    open spec fn view(&self) -> ClientConfigView {
        ClientConfigView {
            ssid: self.ssid@,
            bssid: bssid_view(self.bssid),
            auth_method: self.auth_method,
            password: self.password@,
            channel: self.channel,
            protocols: self.protocols@,
        }
    }
}

impl Clone for ClientConfig {
    fn clone(&self) -> (copy: Self)
        ensures
            copy == *self,
    {
        ClientConfig {
            ssid: self.ssid.clone(),
            bssid: self.bssid,
            auth_method: self.auth_method,
            password: self.password.clone(),
            channel: self.channel,
            protocols: self.protocols,
        }
    }
}

/// Settings of the access point that the device itself opens.
#[derive(PartialEq)]
pub struct AccessPointConfig {
    /// Name of the network.
    pub ssid: String<MAX_SSID_LEN>,
    /// Whether the name is kept out of the beacons.
    pub ssid_hidden: bool,
    /// Radio channel.
    pub channel: u8,
    /// Protocols that the access point offers.
    pub protocols: ProtocolsSet,
    /// How stations authenticate.
    pub auth_method: AuthMethod,
    /// Password of the network.
    pub password: String<MAX_PASS_LEN>,
}

/// What an [`AccessPointConfig`] holds.
pub struct AccessPointConfigView {
    pub ssid: Seq<char>,
    pub ssid_hidden: bool,
    pub channel: u8,
    pub protocols: Set<Protocol>,
    pub auth_method: AuthMethod,
    pub password: Seq<char>,
}

impl AccessPointConfigView {
    /// The access point that the device opens where nothing else is
    /// configured: the open network `robo-arm` on channel 1 with the
    /// protocols b, b/g and b/g/n.
    pub open spec fn default_view() -> AccessPointConfigView {
        AccessPointConfigView {
            ssid: "robo-arm"@,
            ssid_hidden: false,
            channel: 1,
            protocols: set![Protocol::P802D11B, Protocol::P802D11BG, Protocol::P802D11BGN],
            auth_method: AuthMethod::Open,
            password: Seq::<char>::empty(),
        }
    }
}

impl View for AccessPointConfig {
    type V = AccessPointConfigView;

    open spec fn view(&self) -> AccessPointConfigView {
        AccessPointConfigView {
            ssid: self.ssid@,
            ssid_hidden: self.ssid_hidden,
            channel: self.channel,
            protocols: self.protocols@,
            auth_method: self.auth_method,
            password: self.password@,
        }
    }
}

impl Clone for AccessPointConfig {
    fn clone(&self) -> (copy: Self)
        ensures
            copy == *self,
    {
        AccessPointConfig {
            ssid: self.ssid.clone(),
            ssid_hidden: self.ssid_hidden,
            channel: self.channel,
            protocols: self.protocols,
            auth_method: self.auth_method,
            password: self.password.clone(),
        }
    }
}

impl Default for AccessPointConfig {
    fn default() -> (config: Self)
        ensures
            config@ == AccessPointConfigView::default_view(),
    {
        proof {
            reveal_strlit("robo-arm");
            is_ascii_chars_encode_utf8("robo-arm"@);
        }
        let ssid = match String::try_from("robo-arm") {
            Ok(ssid) => ssid,
            Err(_) => String::new(),
        };
        let protocols = ProtocolsSet::only(Protocol::P802D11B).union(
            ProtocolsSet::only(Protocol::P802D11BG),
        ).union(ProtocolsSet::only(Protocol::P802D11BGN));
        proof {
            assert(protocols@ =~= set![
                Protocol::P802D11B,
                Protocol::P802D11BG,
                Protocol::P802D11BGN,
            ]);
        }
        AccessPointConfig {
            ssid,
            ssid_hidden: false,
            channel: 1,
            protocols,
            auth_method: AuthMethod::Open,
            password: String::new(),
        }
    }
}

/// What the operator wants of the radio: a network to join, an access point
/// to open, or both.
#[derive(PartialEq)]
pub struct WifiConfig {
    /// The network to join as a station.
    pub client: Option<ClientConfig>,
    /// The access point to open.
    pub access_point: Option<AccessPointConfig>,
}

/// What a [`WifiConfig`] holds.
pub struct WifiConfigView {
    pub client: Option<ClientConfigView>,
    pub access_point: Option<AccessPointConfigView>,
}

impl WifiConfigView {
    /// The configuration of a device that was never configured: no network to
    /// join, and the default access point.
    pub open spec fn default_view() -> WifiConfigView {
        WifiConfigView {
            client: None,
            access_point: Some(AccessPointConfigView::default_view()),
        }
    }
}

impl View for WifiConfig {
    type V = WifiConfigView;

    open spec fn view(&self) -> WifiConfigView {
        WifiConfigView {
            client: match self.client {
                Some(client) => Some(client@),
                None => None,
            },
            access_point: match self.access_point {
                Some(access_point) => Some(access_point@),
                None => None,
            },
        }
    }
}

impl Clone for WifiConfig {
    fn clone(&self) -> (copy: Self)
        ensures
            copy == *self,
    {
        WifiConfig {
            client: match &self.client {
                Some(client) => Some(client.clone()),
                None => None,
            },
            access_point: match &self.access_point {
                Some(access_point) => Some(access_point.clone()),
                None => None,
            },
        }
    }
}

impl Default for WifiConfig {
    fn default() -> (config: Self)
        ensures
            config@ == WifiConfigView::default_view(),
    {
        WifiConfig { client: None, access_point: Some(AccessPointConfig::default()) }
    }
}

} // verus!
