//! The two-message key-exchange handshake.
//!
//! The manager keeps, per peer, the ephemeral keypair of a handshake under
//! way and the session of a handshake that completed. Completing a
//! handshake moves the peer from the first map to the second in one step.

use crate::crypto::primitives::{spec_public_key, x25519_spec};
use crate::crypto::session::{spec_session_of, Keypair, Session};
use crate::crypto::CryptoError;
use crate::registry::Registry;
use vstd::prelude::*;

verus! {

/// Secure hello: the sender's identity and ephemeral public key.
#[derive(Debug, Clone)]
pub struct HelloSecure {
    pub device_id: String,
    pub display_name: String,
    pub platform: String,
    pub app_version: String,
    pub public_key: [u8; 32],
}

/// Answer to a secure hello: the responder's identity and ephemeral public
/// key, and whether it accepts the session.
#[derive(Debug, Clone)]
pub struct HelloResponse {
    pub device_id: String,
    pub display_name: String,
    pub platform: String,
    pub app_version: String,
    pub public_key: [u8; 32],
    pub accepted: bool,
}

/// Where a handshake with one peer stands.
#[derive(Debug, Clone, PartialEq)]
pub enum HandshakeState {
    /// No handshake initiated.
    Idle,
    /// The hello is out, the response is awaited.
    WaitingForResponse,
    /// The session is established.
    Established,
    /// The handshake failed, for the reason given.
    Failed(String),
}

/// Pending keypairs and established sessions, both keyed by the peer's
/// device id.
pub struct HandshakeManager {
    pending_keypairs: Registry<Keypair>,
    sessions: Registry<Session>,
}

impl HandshakeManager {
    /// The keypairs of the handshakes under way.
    pub closed spec fn pending(&self) -> Map<Seq<char>, Keypair> {
        self.pending_keypairs@
    }

    /// The established sessions.
    pub closed spec fn sessions(&self) -> Map<Seq<char>, Session> {
        self.sessions@
    }

    /// Whether both maps are well formed, and every keypair and session in
    /// them is.
    pub closed spec fn wf(&self) -> bool {
        &&& self.pending_keypairs.wf()
        &&& self.sessions.wf()
        &&& forall|k: Seq<char>| #[trigger]
            self.pending_keypairs@.contains_key(k) ==> self.pending_keypairs@[k].wf()
        &&& forall|k: Seq<char>| #[trigger]
            self.sessions@.contains_key(k) ==> self.sessions@[k].wf()
    }

    /// In a well-formed manager every pending keypair and every session is
    /// well formed.
    pub proof fn lemma_wf_entries(&self, k: Seq<char>)
        requires
            self.wf(),
        ensures
            self.pending().contains_key(k) ==> self.pending()[k].wf(),
            self.sessions().contains_key(k) ==> self.sessions()[k].wf(),
    {
    }

    /// A manager with no handshake under way and no session.
    pub fn new() -> (m: HandshakeManager)
        ensures
            m.wf(),
            m.pending() == Map::<Seq<char>, Keypair>::empty(),
            m.sessions() == Map::<Seq<char>, Session>::empty(),
    {
        HandshakeManager { pending_keypairs: Registry::new(), sessions: Registry::new() }
    }

    /// Starts a handshake with `peer_device_id` as the client: draws a
    /// keypair, keeps it as the peer's pending keypair in place of any
    /// earlier one, and returns the hello that carries our identity and the
    /// public key.
    pub fn initiate_handshake(
        &mut self,
        our_device_id: &str,
        display_name: &str,
        platform: &str,
        app_version: &str,
        peer_device_id: &str,
    ) -> (r: Result<HelloSecure, CryptoError>)
        requires
            old(self).wf(),
        ensures
            final(self).wf(),
            final(self).sessions() == old(self).sessions(),
            final(self).pending().contains_key(peer_device_id@),
            final(self).pending().remove(peer_device_id@) == old(self).pending().remove(
                peer_device_id@,
            ),
            r matches Ok(hello) && {
                &&& hello.device_id@ == our_device_id@
                &&& hello.display_name@ == display_name@
                &&& hello.platform@ == platform@
                &&& hello.app_version@ == app_version@
                &&& hello.public_key == final(self).pending()[peer_device_id@].public
            },
    {
        let keypair = Keypair::generate();
        let public_key = keypair.public_bytes();
        self.pending_keypairs.insert(peer_device_id, keypair);
        assert(self.pending_keypairs@.remove(peer_device_id@) =~= old(self).pending_keypairs@.remove(peer_device_id@));
        Ok(
            HelloSecure {
                device_id: our_device_id.to_owned(),
                display_name: display_name.to_owned(),
                platform: platform.to_owned(),
                app_version: app_version.to_owned(),
                public_key,
            },
        )
    }

    /// Answers a secure hello as the server: draws a keypair, keeps it as
    /// the pending keypair of the hello's sender, and returns the response
    /// that carries our identity and public key. Every hello is accepted.
    pub fn handle_hello_secure(
        &mut self,
        hello: HelloSecure,
        our_device_id: &str,
        display_name: &str,
        platform: &str,
        app_version: &str,
    ) -> (r: Result<HelloResponse, CryptoError>)
        requires
            old(self).wf(),
        ensures
            final(self).wf(),
            final(self).sessions() == old(self).sessions(),
            final(self).pending().contains_key(hello.device_id@),
            final(self).pending().remove(hello.device_id@) == old(self).pending().remove(
                hello.device_id@,
            ),
            r matches Ok(response) && {
                &&& response.device_id@ == our_device_id@
                &&& response.display_name@ == display_name@
                &&& response.platform@ == platform@
                &&& response.app_version@ == app_version@
                &&& response.accepted
                &&& response.public_key == final(self).pending()[hello.device_id@].public
            },
    {
        let keypair = Keypair::generate();
        let public_key = keypair.public_bytes();
        self.pending_keypairs.insert(hello.device_id.as_str(), keypair);
        assert(self.pending_keypairs@.remove(hello.device_id@) =~= old(self).pending_keypairs@.remove(hello.device_id@));
        Ok(
            HelloResponse {
                device_id: our_device_id.to_owned(),
                display_name: display_name.to_owned(),
                platform: platform.to_owned(),
                app_version: app_version.to_owned(),
                public_key,
                accepted: true,
            },
        )
    }

    /// Completes the handshake with a peer from its public key: takes the
    /// peer's pending keypair out, derives the session from its secret, and
    /// installs the session under the peer's id.
    fn establish(&mut self, peer_device_id: &str, peer_public_key: &[u8; 32]) -> (r: Result<
        Session,
        CryptoError,
    >)
        requires
            old(self).wf(),
        ensures
            final(self).wf(),
            spec_establish(*old(self), peer_device_id@, peer_public_key@, r, *final(self)),
    {
        let keypair = match self.pending_keypairs.remove(peer_device_id) {
            Some(kp) => kp,
            None => {
                assert(self.pending_keypairs@ =~= old(self).pending_keypairs@);
                return Err(CryptoError::NoPendingHandshake);
            },
        };
        match Session::from_ecdh(keypair.secret, peer_public_key) {
            Ok(session) => {
                self.sessions.insert(peer_device_id, session);
                Ok(session)
            },
            Err(e) => Err(e),
        }
    }

    /// Completes the handshake as the client, on the peer's response. On
    /// success the peer has no pending keypair any more and has a session.
    /// Fails with `NoPendingHandshake`, changing nothing, where no handshake
    /// with the responder is under way.
    pub fn complete_handshake(&mut self, response: HelloResponse) -> (r: Result<
        Session,
        CryptoError,
    >)
        requires
            old(self).wf(),
        ensures
            final(self).wf(),
            spec_establish(
                *old(self),
                response.device_id@,
                response.public_key@,
                r,
                *final(self),
            ),
            r is Ok ==> !final(self).pending().contains_key(response.device_id@) && final(self).sessions().contains_key(response.device_id@),
    {
        self.establish(response.device_id.as_str(), &response.public_key)
    }

    /// Completes the handshake as the server, once the response is sent.
    /// On success the peer has no pending keypair any more and has a
    /// session. Fails with `NoPendingHandshake`, changing nothing, where no
    /// handshake with the peer is under way.
    pub fn finalize_handshake(&mut self, peer_device_id: &str, peer_public_key: &[u8; 32]) -> (r:
        Result<Session, CryptoError>)
        requires
            old(self).wf(),
        ensures
            final(self).wf(),
            spec_establish(*old(self), peer_device_id@, peer_public_key@, r, *final(self)),
            r is Ok ==> !final(self).pending().contains_key(peer_device_id@) && final(self).sessions().contains_key(peer_device_id@),
    {
        self.establish(peer_device_id, peer_public_key)
    }

    /// The session established with a peer, if any.
    pub fn get_session(&self, peer_device_id: &str) -> (r: Option<Session>)
        requires
            self.wf(),
        ensures
            match r {
                Some(s) => self.sessions().contains_key(peer_device_id@) && self.sessions()[peer_device_id@]
                    == s && s.wf(),
                None => !self.sessions().contains_key(peer_device_id@),
            },
    {
        match self.sessions.get(peer_device_id) {
            Some(s) => Some(*s),
            None => None,
        }
    }

    /// Whether a session is established with a peer.
    pub fn has_session(&self, peer_device_id: &str) -> (r: bool)
        requires
            self.wf(),
        ensures
            r == self.sessions().contains_key(peer_device_id@),
    {
        self.sessions.contains_key(peer_device_id)
    }

    /// Forgets a peer: its session and its pending keypair.
    pub fn remove_session(&mut self, peer_device_id: &str)
        requires
            old(self).wf(),
        ensures
            final(self).wf(),
            final(self).sessions() == old(self).sessions().remove(peer_device_id@),
            final(self).pending() == old(self).pending().remove(peer_device_id@),
    {
        let _ = self.sessions.remove(peer_device_id);
        let _ = self.pending_keypairs.remove(peer_device_id);
    }

    /// Forgets every session and every pending handshake.
    pub fn clear_all(&mut self)
        ensures
            final(self).wf(),
            final(self).sessions() == Map::<Seq<char>, Session>::empty(),
            final(self).pending() == Map::<Seq<char>, Keypair>::empty(),
    {
        self.sessions.clear();
        self.pending_keypairs.clear();
    }

    /// The number of established sessions.
    pub fn session_count(&self) -> (r: usize)
        requires
            self.wf(),
        ensures
            r == self.sessions().dom().len(),
    {
        self.sessions.len()
    }

    /// The number of handshakes under way.
    pub fn pending_count(&self) -> (r: usize)
        requires
            self.wf(),
        ensures
            r == self.pending().dom().len(),
    {
        self.pending_keypairs.len()
    }
}

/// How completing a handshake relates the manager before and after it to
/// the result. Without a pending keypair nothing changes and the result is
/// `NoPendingHandshake`. Otherwise the keypair leaves the pending map; the
/// result is the session derived from its secret and the peer's public key,
/// installed under the peer's id, or `KeyDerivationFailed`, with the
/// sessions unchanged, where the derived keys coincide.
pub open spec fn spec_establish(
    before: HandshakeManager,
    peer: Seq<char>,
    peer_public: Seq<u8>,
    r: Result<Session, CryptoError>,
    after: HandshakeManager,
) -> bool {
    if !before.pending().contains_key(peer) {
        &&& r == Err::<Session, CryptoError>(CryptoError::NoPendingHandshake)
        &&& after.pending() == before.pending()
        &&& after.sessions() == before.sessions()
    } else {
        let derived = spec_session_of(x25519_spec(before.pending()[peer].secret@, peer_public));
        &&& after.pending() == before.pending().remove(peer)
        &&& match r {
            Ok(s) => {
                &&& s@ == derived
                &&& s.wf()
                &&& after.sessions() == before.sessions().insert(peer, s)
                &&& forall|b: Seq<u8>|
                    b.len() == 32 && peer_public == #[trigger] spec_public_key(b) ==> s@
                        == spec_session_of(
                        x25519_spec(b, spec_public_key(before.pending()[peer].secret@)),
                    )
            },
            Err(e) => {
                &&& e == CryptoError::KeyDerivationFailed
                &&& derived.message_key == derived.file_key
                &&& after.sessions() == before.sessions()
            },
        }
    }
}

/// A handshake that completes moves the peer from the pending keypairs to
/// the sessions in one step: afterwards the peer has no pending keypair
/// and has the session that was returned, and no other peer is touched.
pub proof fn lemma_handshake_atomic(
    before: HandshakeManager,
    peer: Seq<char>,
    peer_public: Seq<u8>,
    r: Result<Session, CryptoError>,
    after: HandshakeManager,
)
    requires
        spec_establish(before, peer, peer_public, r, after),
        r is Ok,
    ensures
        before.pending().contains_key(peer),
        !after.pending().contains_key(peer),
        after.sessions().contains_key(peer),
        after.sessions()[peer] == r->Ok_0,
        forall|other: Seq<char>|
            other != peer ==> after.pending().contains_key(other) == before.pending().contains_key(
                other,
            ) && after.sessions().contains_key(other) == before.sessions().contains_key(other),
{
}

impl Default for HandshakeManager {
    fn default() -> (m: HandshakeManager)
        ensures
            m.wf(),
            m.pending() == Map::<Seq<char>, Keypair>::empty(),
            m.sessions() == Map::<Seq<char>, Session>::empty(),
    {
        HandshakeManager::new()
    }
}

} // verus!
