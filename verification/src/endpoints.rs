//! Endpoint orchestration: the verification state threaded through every
//! fetch, the set of configured endpoints with their health, and the
//! decisions of the boot and steady-state fetch protocols.
//!
//! The network calls themselves (phase-1 and phase-2 boot fetches, round
//! fetches) are performed by a transport collaborator; the functions here
//! decide which endpoints to ask, validate what came back, and commit the
//! results.

use crate::model::{dec_of, u128_to_dec, Config, Error, Info, InfoView, Random, RandomView,
    MAX_CONNS};
use vstd::prelude::*;

verus! {

/// Health threshold, in milliseconds: an endpoint whose elapsed time since
/// its last completed request reaches this bound is excluded from selection
/// until a future probe succeeds.
pub const MAX_ELAPSED_MS: u64 = 60_000;

/// Verification state of a client: the trust anchor, the optional
/// checkpoint, the two policy flags and the connection cap. Threaded through
/// every fetch as a snapshot and replaced whole on success, never mutated
/// field by field.
#[derive(Clone)]
pub struct State {
    /// The anchored chain metadata; default until boot completes.
    pub info: Info,
    /// An a-priori trusted round; `None` means it is derived from round 1 or
    /// from network consensus, depending on policy.
    pub check_point: Option<Random>,
    /// Require unbroken chain validation from the checkpoint onward.
    pub determinism: bool,
    /// Require every new round to validate against the running checkpoint.
    pub secure: bool,
    /// Upper bound on concurrent in-flight requests per remote endpoint.
    pub max_conns: usize,
}

/// Ghost image of a `State`.
pub struct StateView {
    pub info: InfoView,
    pub check_point: Option<RandomView>,
    pub determinism: bool,
    pub secure: bool,
    pub max_conns: usize,
}

impl View for State {
    type V = StateView;

    open spec fn view(&self) -> StateView {
        StateView {
            info: self.info@,
            check_point: match self.check_point {
                Some(r) => Some(r@),
                None => None,
            },
            determinism: self.determinism,
            secure: self.secure,
            max_conns: self.max_conns,
        }
    }
}

impl StateView {
    /// A stored checkpoint, if any, must be a valid round.
    pub open spec fn wf(self) -> bool {
        self.check_point matches Some(r) ==> r.wf()
    }

    /// The state of a client that has not booted and carries no policy.
    pub open spec fn initial() -> StateView {
        StateView {
            info: InfoView::initial(),
            check_point: None,
            determinism: false,
            secure: false,
            max_conns: MAX_CONNS as usize,
        }
    }
}

impl Default for State {
    /// The state of a client that has not booted and carries no policy.
    fn default() -> (s: State)
        ensures
            s@ == StateView::initial(),
            s@.wf(),
    {
        let s = State {
            info: Info::default(),
            check_point: None,
            determinism: false,
            secure: false,
            max_conns: MAX_CONNS,
        };
        proof {
            assert(s@ =~= StateView::initial());
        }
        s
    }
}

impl State {
    /// The initial verification state a fresh client derives from its
    /// configuration: the policy fields are taken over, the trust anchor
    /// starts out default until boot fills it.
    pub fn from_config(cfg: Config) -> (s: State)
        ensures
            s@.info == InfoView::initial(),
            s@.check_point == cfg@.check_point,
            s@.determinism == cfg@.determinism,
            s@.secure == cfg@.secure,
            s@.max_conns == cfg@.max_conns,
            cfg@.wf() ==> s@.wf(),
    {
        State {
            info: Info::default(),
            check_point: cfg.check_point,
            determinism: cfg.determinism,
            secure: cfg.secure,
            max_conns: cfg.max_conns,
        }
    }

    /// A deep copy, field for field.
    pub fn duplicate(&self) -> (s: State)
        ensures
            s@ == self@,
    {
        let check_point = match &self.check_point {
            Some(r) => Some(r.duplicate()),
            None => None,
        };
        State {
            info: self.info.duplicate(),
            check_point,
            determinism: self.determinism,
            secure: self.secure,
            max_conns: self.max_conns,
        }
    }
}

/// Compare two byte strings for byte-exact equality.
pub fn bytes_eq(a: &Vec<u8>, b: &Vec<u8>) -> (r: bool)
    ensures
        r == (a@ == b@),
{
    if a.len() != b.len() {
        return false;
    }
    let mut i: usize = 0;
    while i < a.len()
        invariant
            a@.len() == b@.len(),
            i <= a@.len(),
            forall|k: int| 0 <= k < i ==> a@[k] == b@[k],
        decreases a@.len() - i,
    {
        if a[i] != b[i] {
            return false;
        }
        i += 1;
    }
    proof {
        assert(a@ =~= b@);
    }
    true
}

/// The sixteen lowercase hexadecimal digits, in order of value.
pub open spec fn hex_digits() -> Seq<char> {
    seq!['0', '1', '2', '3', '4', '5', '6', '7', '8', '9', 'a', 'b', 'c', 'd', 'e', 'f']
}

/// Lowercase hexadecimal rendering of a byte string: two digits per byte,
/// high nibble first.
pub open spec fn hex_of(s: Seq<u8>) -> Seq<char> {
    Seq::new(
        s.len() * 2,
        |i: int|
            if i % 2 == 0 {
                hex_digits()[s[i / 2] as int / 16]
            } else {
                hex_digits()[s[i / 2] as int % 16]
            },
    )
}

/// Relies on `hex::encode`: each byte becomes two lowercase hexadecimal
/// digits, high nibble first, in input order.
#[verifier::external_body]
fn to_hex(b: &Vec<u8>) -> (r: String)
    ensures
        r@ == hex_of(b@),
{
    hex::encode(b.as_slice())
}

/// The known transport backends a client can be given. All HTTP variants
/// today; new backends add a variant here.
#[derive(Clone, Copy, PartialEq, Eq, Debug)]
pub enum Endpoint {
    HttpDrandApi,
    HttpDrandApi2,
    HttpDrandApi3,
    HttpCloudflare,
}

/// One configured endpoint: the transport variant together with its health
/// signal, the time elapsed since its last completed request. The transport
/// collaborator reports the elapsed time after every call, success or
/// failure.
#[derive(Clone)]
pub enum Inner {
    Http { name: String, elapsed_ms: u64 },
}

/// Ghost image of an `Inner`.
pub struct InnerView {
    pub name: Seq<char>,
    pub elapsed_ms: u64,
}

impl View for Inner {
    type V = InnerView;

    open spec fn view(&self) -> InnerView {
        match self {
            Inner::Http { name, elapsed_ms } => InnerView {
                name: name@,
                elapsed_ms: *elapsed_ms,
            },
        }
    }
}

impl Inner {
    /// The health signal: milliseconds since this endpoint last completed a
    /// request.
    pub fn to_elapsed(&self) -> (r: u64)
        ensures
            r == self@.elapsed_ms,
    {
        match self {
            Inner::Http { elapsed_ms, .. } => *elapsed_ms,
        }
    }
}

/// An endpoint is healthy while its elapsed time is below the threshold.
pub open spec fn healthy_at(s: Seq<InnerView>, i: int) -> bool {
    0 <= i < s.len() && s[i].elapsed_ms < MAX_ELAPSED_MS
}

/// The named set of configured endpoints together with the client's current
/// verification state. Owns the boot and steady-state fetch decisions.
pub struct Endpoints {
    pub name: String,
    pub state: State,
    pub endpoints: Vec<Inner>,
}

/// Ghost image of an `Endpoints`.
pub struct EndpointsView {
    pub name: Seq<char>,
    pub state: StateView,
    pub endpoints: Seq<InnerView>,
}

impl View for Endpoints {
    type V = EndpointsView;

    open spec fn view(&self) -> EndpointsView {
        EndpointsView {
            name: self.name@,
            state: self.state@,
            endpoints: Seq::new(self.endpoints@.len(), |i: int| self.endpoints@[i]@),
        }
    }
}

impl EndpointsView {
    /// The stored verification state must be well formed.
    pub open spec fn wf(self) -> bool {
        self.state.wf()
    }
}

impl Endpoints {
    /// A fresh client: named, configured, with no endpoint yet.
    pub fn from_config(name: &str, config: Config) -> (e: Endpoints)
        ensures
            e@.name == name@,
            e@.state.info == InfoView::initial(),
            e@.state.check_point == config@.check_point,
            e@.state.determinism == config@.determinism,
            e@.state.secure == config@.secure,
            e@.state.max_conns == config@.max_conns,
            e@.endpoints.len() == 0,
            config@.wf() ==> e@.wf(),
    {
        let e = Endpoints {
            name: String::from_str(name),
            state: State::from_config(config),
            endpoints: Vec::new(),
        };
        proof {
            assert(e@.endpoints =~= Seq::<InnerView>::empty());
        }
        e
    }

    /// Append a backend of the given variant. Every variant is served by the
    /// HTTP transport today; the new endpoint starts out healthy.
    pub fn add_endpoint(&mut self, endp: Endpoint) -> (ret: &mut Self)
        ensures
            ret@.endpoints == old(self)@.endpoints.push(
                (InnerView { name: old(self)@.name, elapsed_ms: 0 }),
            ),
            ret@.name == old(self)@.name,
            ret@.state == old(self)@.state,
            *final(self) == *final(ret),
    {
        let name = String::from_str(self.name.as_str());
        let inner = match endp {
            Endpoint::HttpDrandApi => Inner::Http { name, elapsed_ms: 0 },
            Endpoint::HttpDrandApi2 => Inner::Http { name, elapsed_ms: 0 },
            Endpoint::HttpDrandApi3 => Inner::Http { name, elapsed_ms: 0 },
            Endpoint::HttpCloudflare => Inner::Http { name, elapsed_ms: 0 },
        };
        self.endpoints.push(inner);
        proof {
            assert(self@.endpoints =~= old(self)@.endpoints.push(
                (InnerView { name: old(self)@.name, elapsed_ms: 0 }),
            ));
        }
        self
    }

    /// A copy of the anchored chain metadata.
    pub fn to_info(&self) -> (r: Info)
        ensures
            r@ == self@.state.info,
    {
        self.state.info.duplicate()
    }

    /// A snapshot of the current verification state, handed to each
    /// concurrent fetch so that no branch shares mutable state.
    pub fn to_state(&self) -> (s: State)
        ensures
            s@ == self@.state,
    {
        self.state.duplicate()
    }

    /// The user-agent string this client presents to every endpoint.
    pub fn user_agent(&self) -> (r: String)
        ensures
            r@ == "drand-rs-"@ + self@.name,
    {
        String::from_str("drand-rs-").concat(self.name.as_str())
    }

    /// Record the health signal the transport reported for endpoint `i`
    /// after a completed call.
    pub fn record_elapsed(&mut self, i: usize, elapsed_ms: u64)
        requires
            i < old(self)@.endpoints.len(),
        ensures
            final(self)@.endpoints == old(self)@.endpoints.update(
                i as int,
                (InnerView { name: old(self)@.endpoints[i as int].name, elapsed_ms }),
            ),
            final(self)@.name == old(self)@.name,
            final(self)@.state == old(self)@.state,
    {
        let name = match &self.endpoints[i] {
            Inner::Http { name, .. } => String::from_str(name.as_str()),
        };
        self.endpoints.set(i, Inner::Http { name, elapsed_ms });
        proof {
            assert(self@.endpoints =~= old(self)@.endpoints.update(
                i as int,
                (InnerView { name: old(self)@.endpoints[i as int].name, elapsed_ms }),
            ));
        }
    }
}

/// Agreement of two copies of the same round: all four fields byte-identical.
pub open spec fn rounds_agree(a: RandomView, b: RandomView) -> bool {
    &&& a.round == b.round
    &&& a.randomness == b.randomness
    &&& a.signature == b.signature
    &&& a.previous_signature == b.previous_signature
}

/// Agreement of two chain identities: public key and chain hash byte-identical.
pub open spec fn infos_agree(a: InfoView, b: InfoView) -> bool {
    a.public_key == b.public_key && a.hash == b.hash
}

impl Endpoints {
    /// The boot protocol's first decision: at least one endpoint must be
    /// configured, otherwise boot fails with `Invalid` before any network
    /// call.
    pub fn boot_begin(&self) -> (r: Result<(), Error>)
        ensures
            r is Ok <==> self@.endpoints.len() > 0,
            r matches Err(e) ==> (e matches Error::Invalid(p, m) && m@ == "initialize endpoint"@),
    {
        if self.endpoints.len() == 0 {
            Err(
                Error::Invalid(
                    String::from_str("endpoints.boot"),
                    String::from_str("initialize endpoint"),
                ),
            )
        } else {
            Ok(())
        }
    }

    /// The throwaway state a peer endpoint is queried with during boot
    /// cross-validation: no checkpoint and `secure` off, so that no chaining
    /// assumption is made before an anchor exists.
    pub fn boot_peer_state(&self) -> (s: State)
        ensures
            s@ == StateView::initial(),
            s@.check_point is None,
            !s@.secure,
    {
        State::default()
    }

    /// Cross-validate a peer endpoint's chain identity against the
    /// authoritative one: the public key and the chain hash must match
    /// byte for byte, anything else is a hard trust failure.
    pub fn boot_validate_info(this: Info, other: Info) -> (r: Result<(), Error>)
        ensures
            r is Ok <==> infos_agree(this@, other@),
            r matches Err(e) ==> e matches Error::NotSecure(p, m),
            this@.public_key != other@.public_key ==> (r matches Err(e) && e matches Error::NotSecure(
                p,
                m,
            ) && m@ == "public-key "@ + hex_of(this@.public_key) + " ! "@ + hex_of(
                other@.public_key,
            )),
            this@.public_key == other@.public_key && this@.hash != other@.hash ==> (r matches Err(e)
                && e matches Error::NotSecure(p, m) && m@ == "hash "@ + hex_of(this@.hash) + " != "@
                + hex_of(other@.hash)),
    {
        if !bytes_eq(&this.public_key, &other.public_key) {
            let x = to_hex(&this.public_key);
            let y = to_hex(&other.public_key);
            let m = String::from_str("public-key ").concat(x.as_str()).concat(" ! ").concat(
                y.as_str(),
            );
            Err(Error::NotSecure(String::from_str("endpoints.boot"), m))
        } else if !bytes_eq(&this.hash, &other.hash) {
            let x = to_hex(&this.hash);
            let y = to_hex(&other.hash);
            let m = String::from_str("hash ").concat(x.as_str()).concat(" != ").concat(y.as_str());
            Err(Error::NotSecure(String::from_str("endpoints.boot"), m))
        } else {
            Ok(())
        }
    }

    /// Cross-validate a peer endpoint's copy of the latest round against the
    /// authoritative one: round index, randomness, signature and previous
    /// signature must all be byte-identical, anything else is a hard trust
    /// failure.
    pub fn boot_validate_latest(this: Random, other: Random) -> (r: Result<(), Error>)
        ensures
            r is Ok <==> rounds_agree(this@, other@),
            r matches Err(e) ==> e matches Error::NotSecure(p, m),
            this@.round != other@.round ==> (r matches Err(e) && e matches Error::NotSecure(p, m)
                && m@ == "round "@ + dec_of(this@.round) + " != "@ + dec_of(other@.round)),
    {
        if this.round != other.round {
            let x = u128_to_dec(this.round);
            let y = u128_to_dec(other.round);
            let m = String::from_str("round ").concat(x.as_str()).concat(" != ").concat(y.as_str());
            Err(Error::NotSecure(String::from_str("endpoints.boot"), m))
        } else if !bytes_eq(&this.randomness, &other.randomness) {
            let x = to_hex(&this.randomness);
            let y = to_hex(&other.randomness);
            let m = String::from_str("randomness ").concat(x.as_str()).concat(" != ").concat(
                y.as_str(),
            ).concat(" ");
            Err(Error::NotSecure(String::from_str("endpoints.boot"), m))
        } else if !bytes_eq(&this.signature, &other.signature) {
            let x = to_hex(&this.signature);
            let y = to_hex(&other.signature);
            let m = String::from_str("signature ").concat(x.as_str()).concat(" != ").concat(
                y.as_str(),
            );
            Err(Error::NotSecure(String::from_str("endpoints.boot"), m))
        } else if !bytes_eq(&this.previous_signature, &other.previous_signature) {
            let x = to_hex(&this.previous_signature);
            let y = to_hex(&other.previous_signature);
            let m = String::from_str("previous_signature ").concat(x.as_str()).concat(
                " != ",
            ).concat(y.as_str());
            Err(Error::NotSecure(String::from_str("endpoints.boot"), m))
        } else {
            Ok(())
        }
    }

    /// Adopt the authoritative chain identity from the first endpoint's
    /// phase-1 result; every other part of the client is untouched.
    pub fn boot_adopt_info(&mut self, info: Info)
        ensures
            final(self)@.state.info == info@,
            final(self)@.state.check_point == old(self)@.state.check_point,
            final(self)@.state.determinism == old(self)@.state.determinism,
            final(self)@.state.secure == old(self)@.state.secure,
            final(self)@.state.max_conns == old(self)@.state.max_conns,
            final(self)@.name == old(self)@.name,
            final(self)@.endpoints == old(self)@.endpoints,
    {
        self.state.info = info;
        proof {
            assert(self@.endpoints =~= old(self)@.endpoints);
        }
    }

    /// Replace the client's verification state whole with the state a
    /// successful boot phase 2 or fetch returned.
    pub fn commit_state(&mut self, state: State)
        requires
            state@.wf(),
        ensures
            final(self)@.state == state@,
            final(self)@.name == old(self)@.name,
            final(self)@.endpoints == old(self)@.endpoints,
            final(self)@.wf(),
    {
        self.state = state;
        proof {
            assert(self@.endpoints =~= old(self)@.endpoints);
        }
    }
}

/// `i` is the endpoint a fetch should try first: healthy, with the least
/// elapsed time, the earliest such index on a tie.
pub open spec fn first_pick(s: Seq<InnerView>, i: int) -> bool {
    &&& healthy_at(s, i)
    &&& forall|j: int| healthy_at(s, j) ==> s[i].elapsed_ms <= s[j].elapsed_ms
    &&& forall|j: int| healthy_at(s, j) && s[j].elapsed_ms == s[i].elapsed_ms ==> i <= j
}

/// `k` is the endpoint raced against the first pick `i`: healthy, distinct
/// from `i`, with the least elapsed time among the rest, the earliest such
/// index on a tie.
pub open spec fn second_pick(s: Seq<InnerView>, i: int, k: int) -> bool {
    &&& healthy_at(s, k)
    &&& k != i
    &&& forall|j: int| healthy_at(s, j) && j != i ==> s[k].elapsed_ms <= s[j].elapsed_ms
    &&& forall|j: int| healthy_at(s, j) && j != i && s[j].elapsed_ms == s[k].elapsed_ms ==> k <= j
}

impl Endpoints {
    /// Select the two healthiest endpoints for a raced fetch: the indices of
    /// the healthy endpoints with the least elapsed time, freshest first, or
    /// fewer if fewer are healthy.
    pub fn get_endpoint_pair(&self) -> (r: (Option<usize>, Option<usize>))
        ensures
            r.0 is None ==> forall|i: int| !healthy_at(self@.endpoints, i),
            r.0 is None ==> r.1 is None,
            (exists|i: int| healthy_at(self@.endpoints, i)) ==> r.0 is Some,
            r.0 matches Some(i) ==> first_pick(self@.endpoints, i as int),
            r.1 matches Some(k) ==> (r.0 matches Some(i) && second_pick(
                self@.endpoints,
                i as int,
                k as int,
            )),
            r.0 matches Some(i) && (exists|j: int|
                healthy_at(self@.endpoints, j) && j != i as int) ==> r.1 is Some,
    {
        let ghost sv = self@.endpoints;
        let n = self.endpoints.len();
        let mut first: Option<usize> = None;
        let mut best: u64 = 0;
        let mut i: usize = 0;
        while i < n
            invariant
                n == sv.len(),
                sv == self@.endpoints,
                i <= n,
                first is None ==> forall|k: int| 0 <= k < i ==> !healthy_at(sv, k),
                first matches Some(f) ==> {
                    &&& (f as int) < i
                    &&& healthy_at(sv, f as int)
                    &&& best == sv[f as int].elapsed_ms
                    &&& forall|k: int| healthy_at(sv, k) && k < i ==> best <= sv[k].elapsed_ms
                    &&& forall|k: int|
                        healthy_at(sv, k) && k < i && sv[k].elapsed_ms == best ==> f as int <= k
                },
            decreases n - i,
        {
            let e = self.endpoints[i].to_elapsed();
            if e < MAX_ELAPSED_MS {
                match first {
                    None => {
                        first = Some(i);
                        best = e;
                    },
                    Some(_) => {
                        if e < best {
                            first = Some(i);
                            best = e;
                        }
                    },
                }
            }
            i += 1;
        }
        let f = match first {
            None => {
                return (None, None);
            },
            Some(f) => f,
        };
        let mut second: Option<usize> = None;
        let mut best2: u64 = 0;
        let mut i: usize = 0;
        while i < n
            invariant
                n == sv.len(),
                sv == self@.endpoints,
                i <= n,
                (f as int) < n,
                second is None ==> forall|k: int|
                    0 <= k < i && k != f as int ==> !healthy_at(sv, k),
                second matches Some(g) ==> {
                    &&& (g as int) < i
                    &&& g != f
                    &&& healthy_at(sv, g as int)
                    &&& best2 == sv[g as int].elapsed_ms
                    &&& forall|k: int|
                        healthy_at(sv, k) && k < i && k != f as int ==> best2 <= sv[k].elapsed_ms
                    &&& forall|k: int|
                        healthy_at(sv, k) && k < i && k != f as int && sv[k].elapsed_ms == best2
                            ==> g as int <= k
                },
            decreases n - i,
        {
            if i != f {
                let e = self.endpoints[i].to_elapsed();
                if e < MAX_ELAPSED_MS {
                    match second {
                        None => {
                            second = Some(i);
                            best2 = e;
                        },
                        Some(_) => {
                            if e < best2 {
                                second = Some(i);
                                best2 = e;
                            }
                        },
                    }
                }
            }
            i += 1;
        }
        (Some(f), second)
    }

    /// Resolve a two-way race: on a double success keep the result with the
    /// larger round, on a single success keep it, on a double failure keep
    /// nothing so that selection runs again.
    pub fn resolve_race(
        res1: Result<(State, Random), Error>,
        res2: Result<(State, Random), Error>,
    ) -> (r: Option<(State, Random)>)
        ensures
            res1 is Ok && res2 is Ok && res1->Ok_0.1@.round > res2->Ok_0.1@.round ==> r == Some(
                res1->Ok_0,
            ),
            res1 is Ok && res2 is Ok && res1->Ok_0.1@.round <= res2->Ok_0.1@.round ==> r == Some(
                res2->Ok_0,
            ),
            res1 is Ok && res2 is Err ==> r == Some(res1->Ok_0),
            res1 is Err && res2 is Ok ==> r == Some(res2->Ok_0),
            res1 is Err && res2 is Err ==> r is None,
    {
        match (res1, res2) {
            (Ok(a), Ok(b)) => if a.1.round > b.1.round {
                Some(a)
            } else {
                Some(b)
            },
            (Ok(a), Err(_)) => Some(a),
            (Err(_), Ok(b)) => Some(b),
            (Err(_), Err(_)) => None,
        }
    }

    /// The failure a fetch returns when no healthy endpoint is available:
    /// `IOError`, immediately, with no blocking retry.
    pub fn exhausted_error(&self) -> (e: Error)
        ensures
            e matches Error::IOError(p, m) && m@ == "missing/exhausted endpoint"@,
    {
        Error::IOError(
            String::from_str("endpoints.get"),
            String::from_str("missing/exhausted endpoint"),
        )
    }
}

/// Reading the anchored chain metadata is idempotent: two reads with no
/// intervening boot or fetch return identical values.
pub proof fn lemma_info_idempotent(e: EndpointsView, r1: InfoView, r2: InfoView)
    requires
        r1 == e.state.info,
        r2 == e.state.info,
    ensures
        r1 == r2,
{
}

/// Two copies of a round that agree byte for byte have the same canonical
/// digest, so either may be adopted when a race ties.
pub proof fn lemma_agreement_digest(a: RandomView, b: RandomView)
    requires
        rounds_agree(a, b),
    ensures
        a.digest() == b.digest(),
{
    crate::model::lemma_digest_pure(a, b);
}

} // verus!
