//! The multicast discovery participant: who is on the LAN, seen once each.
//!
//! The UDP socket, the JSON codec and the timers live with the transport;
//! this module decides what every datagram means: drop a self-echo, hand a
//! new peer to the subscriber, answer an announcement. The peer set keeps
//! one entry per device.

use vstd::prelude::*;

use crate::crypto::generate_fingerprint;
use crate::error::LocalSendError;
use crate::protocol::{
    AnnouncementMessage, DeviceInfo, DeviceType, Protocol, PROTOCOL_VERSION,
};

verus! {

/// Whether some peer in the list carries this fingerprint.
pub open spec fn spec_contains_fp(s: Seq<DeviceInfo>, fp: Seq<char>) -> bool {
    exists|i: int| 0 <= i < s.len() && s[i].fingerprint@ == fp
}

/// Whether some peer in the list was observed at this address and port.
pub open spec fn spec_contains_endpoint(s: Seq<DeviceInfo>, ip: Seq<char>, port: u16) -> bool {
    exists|i: int|
        0 <= i < s.len() && s[i].port == port && match s[i].ip {
            Some(x) => x@ == ip,
            None => false,
        }
}

/// A newly observed peer joins the list exactly when no earlier peer has
/// the same fingerprint, nor — the fallback for peers that rotate their
/// fingerprint — the same observed address and port.
pub open spec fn spec_accepts(s: Seq<DeviceInfo>, d: DeviceInfo) -> bool {
    !spec_contains_fp(s, d.fingerprint@) && match d.ip {
        Some(ip) => !spec_contains_endpoint(s, ip@, d.port),
        None => true,
    }
}

/// What the peer list becomes when `d` is observed.
pub open spec fn spec_insert(s: Seq<DeviceInfo>, d: DeviceInfo) -> Seq<DeviceInfo> {
    if spec_accepts(s, d) {
        s.push(d)
    } else {
        s
    }
}

/// Observing the same announcement again changes nothing: however often a
/// peer repeats itself, the list keeps a single entry for it.
pub proof fn lemma_duplicate_announcement(s: Seq<DeviceInfo>, d: DeviceInfo)
    ensures
        spec_insert(spec_insert(s, d), d) == spec_insert(s, d),
{
    if spec_accepts(s, d) {
        let s1 = s.push(d);
        assert(s1[s1.len() - 1].fingerprint@ == d.fingerprint@);
        assert(spec_contains_fp(s1, d.fingerprint@));
    }
}

/// A peer whose fingerprint is already listed is never listed twice.
pub proof fn lemma_fingerprint_dedup(s: Seq<DeviceInfo>, d: DeviceInfo)
    requires
        spec_contains_fp(s, d.fingerprint@),
    ensures
        spec_insert(s, d) == s,
{
}

/// The set of known peers, keyed by fingerprint.
#[derive(Clone, Debug)]
pub struct PeerSet {
    pub peers: Vec<DeviceInfo>,
}

impl PeerSet {
    /// No two listed peers share a fingerprint.
    pub open spec fn wf(&self) -> bool {
        forall|i: int, j: int|
            0 <= i < j < self.peers@.len() ==> self.peers@[i].fingerprint@
                != self.peers@[j].fingerprint@
    }

    /// An empty set.
    pub fn new() -> (r: Self)
        ensures
            r.wf(),
            r.peers@.len() == 0,
    {
        PeerSet { peers: Vec::new() }
    }

    /// How many distinct peers are known.
    pub fn len(&self) -> (r: usize)
        ensures
            r == self.peers@.len(),
    {
        self.peers.len()
    }

    /// Whether a peer with this fingerprint is known.
    pub fn contains_fingerprint(&self, fp: &str) -> (r: bool)
        ensures
            r == spec_contains_fp(self.peers@, fp@),
    {
        let n = self.peers.len();
        for i in 0..n
            invariant
                n == self.peers@.len(),
                forall|k: int| 0 <= k < i ==> self.peers@[k].fingerprint@ != fp@,
        {
            if crate::text::str_eq(self.peers[i].fingerprint.as_str(), fp) {
                return true;
            }
        }
        false
    }

    /// Whether a peer was already observed at this address and port.
    fn contains_endpoint(&self, ip: &str, port: u16) -> (r: bool)
        ensures
            r == spec_contains_endpoint(self.peers@, ip@, port),
    {
        let n = self.peers.len();
        for i in 0..n
            invariant
                n == self.peers@.len(),
                forall|k: int|
                    0 <= k < i ==> !(self.peers@[k].port == port && match self.peers@[k].ip {
                        Some(x) => x@ == ip@,
                        None => false,
                    }),
        {
            if self.peers[i].port == port {
                match &self.peers[i].ip {
                    Some(x) => {
                        if crate::text::str_eq(x.as_str(), ip) {
                            return true;
                        }
                    },
                    None => {},
                }
            }
        }
        false
    }

    /// Take one observation: the peer joins the list exactly when it is new.
    pub fn insert(&mut self, device: DeviceInfo) -> (added: bool)
        requires
            old(self).wf(),
        ensures
            final(self).wf(),
            final(self).peers@ == spec_insert(old(self).peers@, device),
            added == spec_accepts(old(self).peers@, device),
    {
        if self.contains_fingerprint(device.fingerprint.as_str()) {
            return false;
        }
        let endpoint_known = match &device.ip {
            Some(ip) => self.contains_endpoint(ip.as_str(), device.port),
            None => false,
        };
        if endpoint_known {
            return false;
        }
        self.peers.push(device);
        true
    }

    /// The first known peer that answers to the given alias or address.
    pub fn find(&self, query: &str) -> (r: Option<&DeviceInfo>)
        ensures
            match r {
                Some(d) => exists|i: int|
                    0 <= i < self.peers@.len() && self.peers@[i] == *d && (d.alias@ == query@ || (
                    d.ip matches Some(ip) && ip@ == query@)),
                None => forall|i: int|
                    0 <= i < self.peers@.len() ==> !((#[trigger] self.peers@[i]).alias@ == query@
                        || (self.peers@[i].ip matches Some(ip) && ip@ == query@)),
            },
    {
        let n = self.peers.len();
        for i in 0..n
            invariant
                n == self.peers@.len(),
                forall|k: int|
                    0 <= k < i ==> !((#[trigger] self.peers@[k]).alias@ == query@ || (
                    self.peers@[k].ip matches Some(ip) && ip@ == query@)),
        {
            if crate::client::matches_target(&self.peers[i], query) {
                return Some(&self.peers[i]);
            }
        }
        None
    }
}

/// What one discovery datagram calls for.
#[derive(Clone, Debug)]
pub enum PacketAction {
    /// A self-echo: ignore it.
    Ignore,
    /// A peer: hand `device` to subscribers; if `respond` is set the packet
    /// was an announcement, so send our identity back.
    Deliver { device: DeviceInfo, respond: bool },
}

/// The state of the multicast discovery participant: its own identity, the
/// running flag the receive loop polls, and the deduplicated peers.
#[derive(Clone, Debug)]
pub struct MulticastDiscovery {
    pub local_device: DeviceInfo,
    pub running: bool,
    pub peers: PeerSet,
}

impl MulticastDiscovery {
    /// Peers are distinct and this node never lists itself.
    pub open spec fn wf(&self) -> bool {
        &&& self.peers.wf()
        &&& !spec_contains_fp(self.peers.peers@, self.local_device.fingerprint@)
    }

    /// A participant announcing the given identity; not yet running.
    pub fn new_with_device(device: DeviceInfo) -> (r: Self)
        ensures
            r.wf(),
            r.local_device == device,
            !r.running,
            r.peers.peers@.len() == 0,
    {
        MulticastDiscovery { local_device: device, running: false, peers: PeerSet::new() }
    }

    /// A participant with a fresh random fingerprint for its identity.
    pub fn new(alias: String, port: u16, protocol: Protocol) -> (r: Result<Self, LocalSendError>)
        ensures
            r matches Ok(d) && d.wf() && d.local_device.alias == alias && d.local_device.port
                == port && d.local_device.protocol == protocol && d.local_device.fingerprint@.len()
                == 36 && d.local_device.version@ == PROTOCOL_VERSION@ && !d.running,
    {
        let device = DeviceInfo {
            alias,
            version: String::from_str(PROTOCOL_VERSION),
            device_model: None,
            device_type: Some(DeviceType::Desktop),
            fingerprint: generate_fingerprint(),
            port,
            protocol,
            download: false,
            ip: None,
        };
        Ok(Self::new_with_device(device))
    }

    /// Mark the participant started; it refuses to start twice.
    pub fn start(&mut self) -> (r: Result<(), LocalSendError>)
        requires
            old(self).wf(),
        ensures
            final(self).wf(),
            old(self).running ==> (r matches Err(e) && e is Network) && *final(self) == *old(self),
            !old(self).running ==> r is Ok && *final(self) == (MulticastDiscovery {
                running: true,
                ..*old(self)
            }),
    {
        if self.running {
            return Err(LocalSendError::network(String::from_str("Discovery already running")));
        }
        self.running = true;
        Ok(())
    }

    /// Flip the running flag off; the receive loop exits at its next tick.
    pub fn stop(&mut self)
        requires
            old(self).wf(),
        ensures
            final(self).wf(),
            *final(self) == (MulticastDiscovery { running: false, ..*old(self) }),
    {
        self.running = false;
    }

    /// The packet this node announces itself with; both flags carry the
    /// same value for peer compatibility.
    pub fn announcement(&self, announce: bool) -> (r: AnnouncementMessage)
        ensures
            r.fingerprint == self.local_device.fingerprint,
            r.alias == self.local_device.alias,
            r.port == self.local_device.port,
            r.protocol == self.local_device.protocol,
            r.announce == announce,
            r.announcement == Some(announce),
            r.spec_is_announcement() == announce,
    {
        AnnouncementMessage::for_device(&self.local_device, announce)
    }

    /// The delays, in milliseconds, between the repeated sends of one
    /// announcement; three sends tolerate lost datagrams.
    pub fn announce_delays_ms() -> (r: Vec<u64>)
        ensures
            r@ == seq![100u64, 500u64, 2000u64],
    {
        let mut v: Vec<u64> = Vec::new();
        v.push(100);
        v.push(500);
        v.push(2000);
        proof {
            assert(v@ =~= seq![100u64, 500u64, 2000u64]);
        }
        v
    }

    /// Take one decoded datagram: a packet carrying this node's own
    /// fingerprint is ignored and never joins the peer set; any other
    /// becomes a peer annotated with the datagram's source address, joins
    /// the set if new, and is answered exactly when it was an announcement.
    pub fn observe(&mut self, msg: AnnouncementMessage, source_ip: Option<String>) -> (r:
        PacketAction)
        requires
            old(self).wf(),
        ensures
            final(self).wf(),
            final(self).local_device == old(self).local_device,
            final(self).running == old(self).running,
            msg.fingerprint@ == old(self).local_device.fingerprint@ ==> r is Ignore && *final(self)
                == *old(self),
            msg.fingerprint@ != old(self).local_device.fingerprint@ ==> match r {
                PacketAction::Deliver { device, respond } => {
                    &&& device.alias == msg.alias
                    &&& device.version == msg.version
                    &&& device.device_model == msg.device_model
                    &&& device.device_type == msg.device_type
                    &&& device.fingerprint == msg.fingerprint
                    &&& device.port == msg.port
                    &&& device.protocol == msg.protocol
                    &&& device.download == msg.download
                    &&& device.ip == source_ip
                    &&& respond == msg.spec_is_announcement()
                    &&& final(self).peers.peers@ == spec_insert(old(self).peers.peers@, device)
                },
                PacketAction::Ignore => false,
            },
            !spec_contains_fp(final(self).peers.peers@, old(self).local_device.fingerprint@),
    {
        if crate::text::str_eq(msg.fingerprint.as_str(), self.local_device.fingerprint.as_str()) {
            return PacketAction::Ignore;
        }
        let respond = msg.is_announcement();
        let device = DeviceInfo::from_announcement(msg, source_ip);
        let ghost pre = self.peers.peers@;
        self.peers.insert(device.clone());
        proof {
            if spec_accepts(pre, device) {
                assert forall|i: int|
                    0 <= i < self.peers.peers@.len() implies self.peers.peers@[i].fingerprint@
                    != self.local_device.fingerprint@ by {
                    if i < pre.len() {
                        assert(!spec_contains_fp(pre, self.local_device.fingerprint@));
                    }
                }
            }
        }
        PacketAction::Deliver { device, respond }
    }
}

} // verus!
