//! Data model: configuration, the error taxonomy, chain metadata (`Info`) and
//! a single beacon round (`Random`), together with the canonical round digest.

use vstd::prelude::*;

verus! {

/// Default upper bound on concurrent connections per remote endpoint.
pub const MAX_CONNS: usize = 4;

/// Configuration parameters for a beacon client.
#[derive(Clone, Debug)]
pub struct Config {
    /// A previously fetched round serving as a verification checkpoint.
    ///
    /// * if `determinism` is true and `check_point` is `None`, round 1 acts
    ///   as the checkpoint round.
    /// * if `determinism` is false, the latest round is assumed verified and
    ///   treated as the checkpoint.
    /// * if `secure` is false, every beacon round is assumed verified.
    /// * if `secure` is true, every new round is verified against the
    ///   checkpoint round.
    pub check_point: Option<Random>,
    /// Ensure all rounds from the checkpoint to the latest round are valid.
    pub determinism: bool,
    /// Ensure all future rounds from the latest round are verified.
    pub secure: bool,
    /// Maximum number of concurrent connections allowed per remote.
    pub max_conns: usize,
}

/// Ghost image of a `Config`.
pub struct ConfigView {
    pub check_point: Option<RandomView>,
    pub determinism: bool,
    pub secure: bool,
    pub max_conns: usize,
}

impl View for Config {
    type V = ConfigView;

    open spec fn view(&self) -> ConfigView {
        ConfigView {
            check_point: match self.check_point {
                Some(r) => Some(r@),
                None => None,
            },
            determinism: self.determinism,
            secure: self.secure,
            max_conns: self.max_conns,
        }
    }
}

impl ConfigView {
    /// A stored checkpoint, if any, must be a valid round.
    pub open spec fn wf(self) -> bool {
        self.check_point matches Some(r) ==> r.wf()
    }
}

impl Default for Config {
    /// No checkpoint, both policies off, `MAX_CONNS` connections per remote.
    fn default() -> (c: Config)
        ensures
            c@.check_point is None,
            !c@.determinism,
            !c@.secure,
            c@.max_conns == MAX_CONNS,
    {
        Config { check_point: None, determinism: false, secure: false, max_conns: MAX_CONNS }
    }
}

impl Config {
    /// Replace the verification checkpoint.
    pub fn set_check_point(&mut self, check_point: Option<Random>) -> (ret: &mut Self)
        requires
            check_point matches Some(r) ==> r@.wf(),
        ensures
            ret@.check_point == (match check_point {
                Some(r) => Some::<RandomView>(r@),
                None => None::<RandomView>,
            }),
            ret@.determinism == old(self)@.determinism,
            ret@.secure == old(self)@.secure,
            ret@.max_conns == old(self)@.max_conns,
            *final(self) == *final(ret),
    {
        self.check_point = check_point;
        self
    }

    /// Switch the determinism policy.
    pub fn set_determinism(&mut self, determinism: bool) -> (ret: &mut Self)
        ensures
            ret@.determinism == determinism,
            ret@.check_point == old(self)@.check_point,
            ret@.secure == old(self)@.secure,
            ret@.max_conns == old(self)@.max_conns,
            *final(self) == *final(ret),
    {
        self.determinism = determinism;
        self
    }

    /// Switch the ongoing-security policy.
    pub fn set_secure(&mut self, secure: bool) -> (ret: &mut Self)
        ensures
            ret@.secure == secure,
            ret@.check_point == old(self)@.check_point,
            ret@.determinism == old(self)@.determinism,
            ret@.max_conns == old(self)@.max_conns,
            *final(self) == *final(ret),
    {
        self.secure = secure;
        self
    }

    /// Replace the per-remote connection cap.
    pub fn set_max_conns(&mut self, max_conns: usize) -> (ret: &mut Self)
        ensures
            ret@.max_conns == max_conns,
            ret@.check_point == old(self)@.check_point,
            ret@.determinism == old(self)@.determinism,
            ret@.secure == old(self)@.secure,
            *final(self) == *final(ret),
    {
        self.max_conns = max_conns;
        self
    }
}

/// Error variants returned by this crate's API.
///
/// Each variant carries a provenance label, typically identifying the error
/// location, and a message.
pub enum Error {
    /// Unexpected internal invariant violation.
    Fatal(String, String),
    /// Shared-state access failed due to a prior panic elsewhere; retained
    /// for defensive completeness, unreachable under this design.
    PoisonedLock(String, String),
    /// Cross-validation or chain-continuity check failed.
    NotSecure(String, String),
    /// Misuse of the API, e.g. no endpoint configured.
    Invalid(String, String),
    /// Transport failure or exhausted endpoint set.
    IOError(String, String),
    /// Malformed JSON from a collaborator.
    JsonParse(String, String),
    /// Malformed text from a collaborator.
    StringParse(String, String),
    /// Malformed hexadecimal from a collaborator.
    HexParse(String, String),
}

impl Error {
    /// The rendered form of this error: provenance label, variant name, message.
    pub open spec fn text_spec(self) -> Seq<char> {
        match self {
            Error::Fatal(p, m) => p@ + " Fatal: "@ + m@,
            Error::PoisonedLock(p, m) => p@ + " PoisonedLock: "@ + m@,
            Error::NotSecure(p, m) => p@ + " NotSecure: "@ + m@,
            Error::Invalid(p, m) => p@ + " Invalid: "@ + m@,
            Error::IOError(p, m) => p@ + " IOError: "@ + m@,
            Error::JsonParse(p, m) => p@ + " JsonParse: "@ + m@,
            Error::StringParse(p, m) => p@ + " StringParse: "@ + m@,
            Error::HexParse(p, m) => p@ + " HexParse: "@ + m@,
        }
    }

    /// Render the error as `"<label> <Variant>: <message>"`.
    pub fn to_text(&self) -> (r: String)
        ensures
            r@ == self.text_spec(),
    {
        match self {
            Error::Fatal(p, m) => p.clone().concat(" Fatal: ").concat(m.as_str()),
            Error::PoisonedLock(p, m) => p.clone().concat(" PoisonedLock: ").concat(m.as_str()),
            Error::NotSecure(p, m) => p.clone().concat(" NotSecure: ").concat(m.as_str()),
            Error::Invalid(p, m) => p.clone().concat(" Invalid: ").concat(m.as_str()),
            Error::IOError(p, m) => p.clone().concat(" IOError: ").concat(m.as_str()),
            Error::JsonParse(p, m) => p.clone().concat(" JsonParse: ").concat(m.as_str()),
            Error::StringParse(p, m) => p.clone().concat(" StringParse: ").concat(m.as_str()),
            Error::HexParse(p, m) => p.clone().concat(" HexParse: ").concat(m.as_str()),
        }
    }
}

/// One beacon round of randomness, as published by the chain.
#[derive(Clone, Eq, PartialEq, Debug)]
pub struct Random {
    /// Sequentially increasing round index, strictly positive.
    pub round: u128,
    /// SHA-256 hash of `signature`, computed by the publisher.
    pub randomness: Vec<u8>,
    /// The group's signature over this round's canonical message.
    pub signature: Vec<u8>,
    /// Signature of the previous round (the group hash for round 1).
    pub previous_signature: Vec<u8>,
}

/// Ghost image of a `Random`.
pub struct RandomView {
    pub round: u128,
    pub randomness: Seq<u8>,
    pub signature: Seq<u8>,
    pub previous_signature: Seq<u8>,
}

impl View for Random {
    type V = RandomView;

    open spec fn view(&self) -> RandomView {
        RandomView {
            round: self.round,
            randomness: self.randomness@,
            signature: self.signature@,
            previous_signature: self.previous_signature@,
        }
    }
}

impl RandomView {
    /// Round indices start at 1; a zero round is rejected upstream and is
    /// never held by this engine.
    pub open spec fn wf(self) -> bool {
        self.round >= 1
    }
}

/// The group's chain metadata: the chain's identity, set once at boot and
/// immutable thereafter.
#[derive(Clone, Eq, PartialEq, Debug)]
pub struct Info {
    /// Distributed public key of the beacon group.
    pub public_key: Vec<u8>,
    /// Seconds between randomness beacon rounds.
    pub period: u64,
    /// Seconds since the Unix epoch at which the group began generating
    /// randomness.
    pub genesis_time: u64,
    /// Chain hash, which uniquely identifies the chain. It is used as a
    /// root of trust for validation of the first round of randomness.
    pub hash: Vec<u8>,
    /// Used as the previous signature when validating round 1.
    pub group_hash: Vec<u8>,
}

/// Ghost image of an `Info`.
pub struct InfoView {
    pub public_key: Seq<u8>,
    pub period: u64,
    pub genesis_time: u64,
    pub hash: Seq<u8>,
    pub group_hash: Seq<u8>,
}

impl View for Info {
    type V = InfoView;

    open spec fn view(&self) -> InfoView {
        InfoView {
            public_key: self.public_key@,
            period: self.period,
            genesis_time: self.genesis_time,
            hash: self.hash@,
            group_hash: self.group_hash@,
        }
    }
}

impl InfoView {
    /// The metadata of a client that has not booted: empty byte strings and
    /// the Unix epoch.
    pub open spec fn initial() -> InfoView {
        InfoView {
            public_key: Seq::empty(),
            period: 0,
            genesis_time: 0,
            hash: Seq::empty(),
            group_hash: Seq::empty(),
        }
    }
}

impl Default for Info {
    /// The metadata of a client that has not booted.
    fn default() -> (r: Info)
        ensures
            r@ == InfoView::initial(),
    {
        let r = Info {
            public_key: Vec::new(),
            period: 0,
            genesis_time: 0,
            hash: Vec::new(),
            group_hash: Vec::new(),
        };
        proof {
            assert(r@ =~= InfoView::initial());
        }
        r
    }
}

/// Copy a byte string.
pub fn clone_bytes(v: &Vec<u8>) -> (r: Vec<u8>)
    ensures
        r@ == v@,
{
    let mut r: Vec<u8> = Vec::new();
    let mut i: usize = 0;
    while i < v.len()
        invariant
            i <= v.len(),
            r@ == v@.subrange(0, i as int),
        decreases v.len() - i,
    {
        r.push(v[i]);
        proof {
            assert(v@.subrange(0, i + 1 as int) =~= v@.subrange(0, i as int).push(v@[i as int]));
        }
        i += 1;
    }
    proof {
        assert(v@.subrange(0, v@.len() as int) =~= v@);
    }
    r
}

impl Info {
    /// A deep copy, field for field.
    pub fn duplicate(&self) -> (r: Info)
        ensures
            r@ == self@,
    {
        Info {
            public_key: clone_bytes(&self.public_key),
            period: self.period,
            genesis_time: self.genesis_time,
            hash: clone_bytes(&self.hash),
            group_hash: clone_bytes(&self.group_hash),
        }
    }
}

/// SHA-256 of a byte string, as the `sha2` crate computes it: a function of
/// the input bytes alone.
pub uninterp spec fn sha256_of(data: Seq<u8>) -> Seq<u8>;

/// Relies on `sha2::Sha256` through the `Digest` trait's one-shot `digest`:
/// the SHA-256 of the input bytes, which depends on those bytes alone and is
/// always 32 bytes long.
#[verifier::external_body]
fn sha256(data: &Vec<u8>) -> (r: Vec<u8>)
    ensures
        r@ == sha256_of(data@),
        r@.len() == 32,
{
    <sha2::Sha256 as sha2::Digest>::digest(data.as_slice()).to_vec()
}

/// The round index as 16 big-endian bytes.
pub open spec fn round_be_bytes(round: u128) -> Seq<u8> {
    Seq::new(16, |i: int| vstd::bytes::spec_u128_to_le_bytes(round)[15 - i])
}

/// Encode the round index as 16 big-endian bytes.
pub fn u128_to_be_bytes(round: u128) -> (r: Vec<u8>)
    ensures
        r@ == round_be_bytes(round),
{
    proof {
        vstd::bytes::lemma_auto_spec_u128_to_from_le_bytes();
    }
    let le = vstd::bytes::u128_to_le_bytes(round);
    let mut r: Vec<u8> = Vec::new();
    let mut i: usize = 0;
    while i < 16
        invariant
            i <= 16,
            le@ == vstd::bytes::spec_u128_to_le_bytes(round),
            le@.len() == 16,
            r@.len() == i,
            forall|k: int| 0 <= k < i ==> r@[k] == round_be_bytes(round)[k],
        decreases 16 - i,
    {
        r.push(le[15 - i]);
        i += 1;
    }
    proof {
        assert(r@ =~= round_be_bytes(round));
    }
    r
}

/// The ten decimal digits, one-character strings, in order of value.
pub open spec fn dec_digit(d: int) -> Seq<char> {
    if d == 0 {
        "0"@
    } else if d == 1 {
        "1"@
    } else if d == 2 {
        "2"@
    } else if d == 3 {
        "3"@
    } else if d == 4 {
        "4"@
    } else if d == 5 {
        "5"@
    } else if d == 6 {
        "6"@
    } else if d == 7 {
        "7"@
    } else if d == 8 {
        "8"@
    } else {
        "9"@
    }
}

/// Decimal rendering of a round index, most significant digit first, no
/// leading zeroes.
pub open spec fn dec_of(n: u128) -> Seq<char>
    decreases n,
{
    if n < 10 {
        dec_digit(n as int)
    } else {
        dec_of((n / 10) as u128) + dec_digit((n % 10) as int)
    }
}

/// The one-character string for a single decimal digit.
fn dec_digit_str(d: u128) -> (r: &'static str)
    requires
        d < 10,
    ensures
        r@ == dec_digit(d as int),
{
    if d == 0 {
        "0"
    } else if d == 1 {
        "1"
    } else if d == 2 {
        "2"
    } else if d == 3 {
        "3"
    } else if d == 4 {
        "4"
    } else if d == 5 {
        "5"
    } else if d == 6 {
        "6"
    } else if d == 7 {
        "7"
    } else if d == 8 {
        "8"
    } else {
        "9"
    }
}

/// Render a round index in decimal.
pub fn u128_to_dec(n: u128) -> (r: String)
    ensures
        r@ == dec_of(n),
    decreases n,
{
    if n < 10 {
        String::from_str(dec_digit_str(n))
    } else {
        proof {
            assert(n / 10 < n) by (nonlinear_arith)
                requires
                    n >= 10,
            ;
        }
        u128_to_dec(n / 10).concat(dec_digit_str(n % 10))
    }
}

impl RandomView {
    /// The canonical message a signature verifier checks for this round:
    /// the previous round's signature followed by the big-endian round index.
    pub open spec fn digest_input(self) -> Seq<u8> {
        self.previous_signature + round_be_bytes(self.round)
    }

    /// The canonical digest of this round.
    pub open spec fn digest(self) -> Seq<u8> {
        sha256_of(self.digest_input())
    }
}

impl Random {
    /// A deep copy, field for field.
    pub fn duplicate(&self) -> (r: Random)
        ensures
            r@ == self@,
    {
        Random {
            round: self.round,
            randomness: clone_bytes(&self.randomness),
            signature: clone_bytes(&self.signature),
            previous_signature: clone_bytes(&self.previous_signature),
        }
    }

    /// Render the round for display, as `"Random<round>"`.
    pub fn to_text(&self) -> (r: String)
        ensures
            r@ == "Random<"@ + dec_of(self@.round) + ">"@,
    {
        String::from_str("Random<").concat(u128_to_dec(self.round).as_str()).concat(">")
    }

    /// The canonical message digest for this round:
    /// `SHA-256(previous_signature || round as 16 big-endian bytes)`.
    ///
    /// This is the message a chain-signature verifier checks; the engine
    /// computes it but does not verify signatures itself.
    pub fn to_digest(&self) -> (r: Result<Vec<u8>, Error>)
        ensures
            r is Ok,
            r matches Ok(d) ==> d@ == self@.digest() && d@.len() == 32,
    {
        let mut msg = clone_bytes(&self.previous_signature);
        let mut be = u128_to_be_bytes(self.round);
        msg.append(&mut be);
        let d = sha256(&msg);
        Ok(d)
    }
}

/// The canonical digest is a pure function of the round index and the
/// previous signature: two rounds that agree on those two fields have the
/// same digest, whatever their other fields hold.
pub proof fn lemma_digest_pure(a: RandomView, b: RandomView)
    requires
        a.round == b.round,
        a.previous_signature == b.previous_signature,
    ensures
        a.digest() == b.digest(),
{
}

} // verus!
