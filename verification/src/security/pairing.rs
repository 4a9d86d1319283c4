//! PIN pairing: each pending request holds the PIN shown to the user, the peer's
//! certificate fingerprint and the time it was made; a PIN is accepted for two minutes.
use dashmap::DashMap;
use rand::Rng;
use std::time::Instant;
use vstd::prelude::*;

use crate::clock::{elapsed_secs, instant_now};
use crate::text::push_char;

verus! {

/// How long, in seconds, a pairing PIN stays valid.
pub const PIN_LIFETIME_SECS: u64 = 120;

/// A pending pairing request.
pub struct PairState {
    pub pin: String,
    pub peer_fingerprint: String,
    pub timestamp: Instant,
}

impl Clone for PairState {
    fn clone(&self) -> (res: Self)
        ensures
            res == *self,
    {
        PairState {
            pin: self.pin.clone(),
            peer_fingerprint: self.peer_fingerprint.clone(),
            timestamp: self.timestamp,
        }
    }
}

/// The table of pending pairing requests, by peer id.
pub type PairTable = DashMap<u128, PairState>;

/// The table with no request.
pub open spec fn no_requests() -> Map<u128, PairState> {
    Map::empty()
}

/// The requests a pairing table holds, by peer id.
pub uninterp spec fn pair_requests(m: PairTable) -> Map<u128, PairState>;

/// `DashMap::new`: an empty table.
#[verifier::external_body]
fn requests_new() -> (table: PairTable)
    ensures
        pair_requests(table) == no_requests(),
{
    DashMap::new()
}

/// `DashMap::insert`: puts `v` under `k`, replacing what was there.
#[verifier::external_body]
fn requests_insert(m: &mut PairTable, k: u128, v: PairState)
    ensures
        pair_requests(*final(m)) == pair_requests(*old(m)).insert(k, v),
{
    m.insert(k, v);
}

/// `DashMap::get`, cloning the entry out of the guard it hands back.
#[verifier::external_body]
fn requests_get(m: &PairTable, k: u128) -> (r: Option<PairState>)
    ensures
        r == (if pair_requests(*m).contains_key(k) {
            Some(pair_requests(*m)[k])
        } else {
            None
        }),
{
    m.get(&k).map(|e| e.value().clone())
}

/// `DashMap::remove`: takes the entry under `k` out of the table.
#[verifier::external_body]
fn requests_remove(m: &mut PairTable, k: u128) -> (r: Option<PairState>)
    ensures
        pair_requests(*final(m)) == pair_requests(*old(m)).remove(k),
        r == (if pair_requests(*old(m)).contains_key(k) {
            Some(pair_requests(*old(m))[k])
        } else {
            None
        }),
{
    m.remove(&k).map(|(_, v)| v)
}

/// `rand::thread_rng().gen_range(0..bound)`: a random number below `bound` (the range
/// must not be empty).
#[verifier::external_body]
fn random_below(bound: u32) -> (n: u32)
    requires
        bound > 0,
    ensures
        n < bound,
{
    rand::thread_rng().gen_range(0..bound)
}

/// The decimal digit character of a value below 10.
pub open spec fn digit_char(d: int) -> char {
    ((d + 48) as u8) as char
}

/// The six-digit, zero-padded decimal text of a number below one million.
pub open spec fn pin_text(n: int) -> Seq<char> {
    seq![
        digit_char((n / 100000) % 10),
        digit_char((n / 10000) % 10),
        digit_char((n / 1000) % 10),
        digit_char((n / 100) % 10),
        digit_char((n / 10) % 10),
        digit_char(n % 10),
    ]
}

/// A PIN is six ASCII decimal digits.
pub open spec fn is_pin(s: Seq<char>) -> bool {
    s.len() == 6 && forall|i: int| 0 <= i < 6 ==> '0' <= #[trigger] s[i] <= '9'
}

/// The six-digit, zero-padded decimal text of `n`.
pub fn format_pin(n: u32) -> (s: String)
    requires
        n < 1_000_000,
    ensures
        s@ == pin_text(n as int),
        is_pin(s@),
{
    let mut s = String::new();
    push_char(&mut s, ((n / 100000 % 10) as u8 + 48) as char);
    push_char(&mut s, ((n / 10000 % 10) as u8 + 48) as char);
    push_char(&mut s, ((n / 1000 % 10) as u8 + 48) as char);
    push_char(&mut s, ((n / 100 % 10) as u8 + 48) as char);
    push_char(&mut s, ((n / 10 % 10) as u8 + 48) as char);
    push_char(&mut s, ((n % 10) as u8 + 48) as char);
    assert(s@ =~= pin_text(n as int));
    s
}

/// Whether a pending request accepts `pin` after `elapsed` seconds: the PIN must be
/// the one issued and the request younger than `PIN_LIFETIME_SECS`.
pub open spec fn pin_accepted(state: PairState, pin: Seq<char>, elapsed: u64) -> bool {
    state.pin@ == pin && elapsed < PIN_LIFETIME_SECS
}

/// Issues PINs for pairing requests and checks the PINs entered against them.
pub struct PairingManager {
    active_requests: PairTable,
}

impl PairingManager {
    /// The pending requests, by peer id.
    pub closed spec fn requests(&self) -> Map<u128, PairState> {
        pair_requests(self.active_requests)
    }

    /// A manager with no pending request.
    pub fn new() -> (m: PairingManager)
        ensures
            m.requests() == no_requests(),
    {
        PairingManager { active_requests: requests_new() }
    }

    /// A random six-digit PIN.
    pub fn generate_pin() -> (pin: String)
        ensures
            is_pin(pin@),
            exists|n: int| 0 <= n < 1_000_000 && pin@ == pin_text(n),
    {
        let n = random_below(1_000_000);
        format_pin(n)
    }

    /// Opens a request for `peer_id` with a fresh PIN, which it returns; an earlier
    /// request of the same peer is replaced.
    pub fn create_request(&mut self, peer_id: u128, peer_fingerprint: String) -> (pin: String)
        ensures
            is_pin(pin@),
            final(self).requests().dom() == old(self).requests().dom().insert(peer_id),
            final(self).requests()[peer_id].pin == pin,
            final(self).requests()[peer_id].peer_fingerprint == peer_fingerprint,
            forall|k: u128|
                k != peer_id && #[trigger] old(self).requests().contains_key(k)
                    ==> final(self).requests()[k] == old(self).requests()[k],
    {
        let pin = Self::generate_pin();
        let state = PairState {
            pin: pin.clone(),
            peer_fingerprint,
            timestamp: instant_now(),
        };
        requests_insert(&mut self.active_requests, peer_id, state);
        pin
    }

    /// Whether a request accepts `pin` after `elapsed` seconds.
    pub fn pin_accepted(state: &PairState, pin: &str, elapsed: u64) -> (ok: bool)
        ensures
            ok == pin_accepted(*state, pin@, elapsed),
    {
        crate::text::str_eq(state.pin.as_str(), pin) && elapsed < PIN_LIFETIME_SECS
    }

    /// Whether `peer_id` has a pending request whose PIN is `pin` and which was
    /// made less than `PIN_LIFETIME_SECS` seconds ago.
    pub fn verify_pin(&self, peer_id: u128, pin: &str) -> (ok: bool)
        ensures
            ok ==> self.requests().contains_key(peer_id) && self.requests()[peer_id].pin@ == pin@,
            !self.requests().contains_key(peer_id) ==> !ok,
            self.requests().contains_key(peer_id) && self.requests()[peer_id].pin@ != pin@ ==> !ok,
    {
        match requests_get(&self.active_requests, peer_id) {
            Some(state) => {
                let elapsed = elapsed_secs(&state.timestamp);
                Self::pin_accepted(&state, pin, elapsed)
            },
            None => false,
        }
    }

    /// Closes the request of `peer_id` and hands it back, if there was one.
    pub fn complete_pairing(&mut self, peer_id: u128) -> (r: Option<PairState>)
        ensures
            final(self).requests() == old(self).requests().remove(peer_id),
            r == (if old(self).requests().contains_key(peer_id) {
                Some(old(self).requests()[peer_id])
            } else {
                None
            }),
    {
        requests_remove(&mut self.active_requests, peer_id)
    }

    /// Drops the request of `peer_id`, if there is one.
    pub fn cancel_request(&mut self, peer_id: u128)
        ensures
            final(self).requests() == old(self).requests().remove(peer_id),
    {
        let _ = requests_remove(&mut self.active_requests, peer_id);
    }
}

impl Default for PairingManager {
    fn default() -> (m: Self)
        ensures
            m.requests() == no_requests(),
    {
        Self::new()
    }
}

/// A PIN issued for a request is accepted exactly while the request is younger than
/// the PIN lifetime, and a request accepts no other PIN.
pub proof fn lemma_issued_pin_accepted(state: PairState, entered: Seq<char>, elapsed: u64)
    ensures
        entered == state.pin@ ==> (pin_accepted(state, entered, elapsed) <==> elapsed < PIN_LIFETIME_SECS),
        entered != state.pin@ ==> !pin_accepted(state, entered, elapsed),
{
}

} // verus!
