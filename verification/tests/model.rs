use drand_rs::model::u128_to_dec;
use drand_rs::{Config, Error, Info, Random, MAX_CONNS};
use sha2::Digest;

fn sample_round(round: u128, previous_signature: Vec<u8>) -> Random {
    Random {
        round,
        randomness: vec![0xaa, 0xbb],
        signature: vec![0x11, 0x22, 0x33],
        previous_signature,
    }
}

#[test]
fn default_config_fields() {
    let c = Config::default();
    assert!(c.check_point.is_none());
    assert!(!c.determinism);
    assert!(!c.secure);
    assert_eq!(c.max_conns, 4);
    assert_eq!(c.max_conns, MAX_CONNS);
}

#[test]
fn config_setters_chain() {
    let mut c = Config::default();
    c.set_determinism(true).set_secure(true).set_max_conns(9);
    assert!(c.determinism);
    assert!(c.secure);
    assert_eq!(c.max_conns, 9);
    assert!(c.check_point.is_none());

    c.set_check_point(Some(sample_round(1, vec![0x01])));
    assert_eq!(c.check_point.as_ref().map(|r| r.round), Some(1));

    c.set_check_point(None);
    assert!(c.check_point.is_none());
}

#[test]
fn info_default_is_empty() {
    let i = Info::default();
    assert!(i.public_key.is_empty());
    assert_eq!(i.period, 0);
    assert_eq!(i.genesis_time, 0);
    assert!(i.hash.is_empty());
    assert!(i.group_hash.is_empty());
}

#[test]
fn digest_known_value() {
    // Round 5 whose previous signature is the single byte 0x01: the digest is
    // SHA-256(0x01 || 00 00 00 00 00 00 00 00 00 00 00 00 00 00 00 05).
    let r = sample_round(5, vec![0x01]);
    let d = match r.to_digest() {
        Ok(d) => d,
        Err(_) => panic!("digest computation failed"),
    };
    assert_eq!(
        hex::encode(&d),
        "42a069347903431af16b57f77ada6f17acbc1a36b9a55173aba60c4f08a146f2"
    );
}

#[test]
fn digest_matches_direct_sha256() {
    let r = sample_round(77_000_000_000, vec![9, 8, 7, 6]);
    let d = match r.to_digest() {
        Ok(d) => d,
        Err(_) => panic!("digest computation failed"),
    };
    let mut hasher = sha2::Sha256::new();
    hasher.update(&r.previous_signature);
    hasher.update(r.round.to_be_bytes());
    assert_eq!(d, hasher.finalize().to_vec());
}

#[test]
fn digest_depends_only_on_round_and_previous_signature() {
    let mut a = sample_round(42, vec![1, 2, 3]);
    let mut b = sample_round(42, vec![1, 2, 3]);
    b.randomness = vec![0xff];
    b.signature = vec![0xee];
    let da = match a.to_digest() {
        Ok(d) => d,
        Err(_) => panic!("digest computation failed"),
    };
    let db = match b.to_digest() {
        Ok(d) => d,
        Err(_) => panic!("digest computation failed"),
    };
    assert_eq!(da, db);

    // And twice on the same value, byte-identical results.
    a.round = 43;
    let d1 = a.to_digest().ok();
    let d2 = a.to_digest().ok();
    assert_eq!(d1, d2);

    // A different round gives a different digest.
    assert_ne!(d1, Some(da));
}

#[test]
fn round_decimal_rendering() {
    assert_eq!(u128_to_dec(0), "0");
    assert_eq!(u128_to_dec(7), "7");
    assert_eq!(u128_to_dec(10), "10");
    assert_eq!(u128_to_dec(90_210), "90210");
    assert_eq!(
        u128_to_dec(340282366920938463463374607431768211455),
        "340282366920938463463374607431768211455"
    );
}

#[test]
fn random_to_text() {
    let r = sample_round(12, vec![]);
    assert_eq!(r.to_text(), "Random<12>");
}

#[test]
fn error_to_text_variants() {
    let e = Error::Fatal("here".to_string(), "boom".to_string());
    assert_eq!(e.to_text(), "here Fatal: boom");
    let e = Error::IOError("net".to_string(), "down".to_string());
    assert_eq!(e.to_text(), "net IOError: down");
    let e = Error::NotSecure("boot".to_string(), "mismatch".to_string());
    assert_eq!(e.to_text(), "boot NotSecure: mismatch");
    let e = Error::Invalid("api".to_string(), "misuse".to_string());
    assert_eq!(e.to_text(), "api Invalid: misuse");
    let e = Error::PoisonedLock("lock".to_string(), "p".to_string());
    assert_eq!(e.to_text(), "lock PoisonedLock: p");
    let e = Error::JsonParse("wire".to_string(), "j".to_string());
    assert_eq!(e.to_text(), "wire JsonParse: j");
    let e = Error::StringParse("wire".to_string(), "s".to_string());
    assert_eq!(e.to_text(), "wire StringParse: s");
    let e = Error::HexParse("wire".to_string(), "h".to_string());
    assert_eq!(e.to_text(), "wire HexParse: h");
}

#[test]
fn duplicates_are_deep_and_equal() {
    let r = sample_round(3, vec![4, 5]);
    let c = r.duplicate();
    assert_eq!(r, c);

    let i = Info {
        public_key: vec![1, 2],
        period: 30,
        genesis_time: 1_595_431_050,
        hash: vec![3, 4],
        group_hash: vec![5, 6],
    };
    let j = i.duplicate();
    assert_eq!(i, j);
}
