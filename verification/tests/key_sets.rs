//! Key sets: what loads, what verifies, and how each refusal is said.
use authenticate_oidc::jwks::Listed;
use authenticate_oidc::{Algorithm, Jwks};
use base64::engine::general_purpose::URL_SAFE_NO_PAD;
use base64::Engine;
use p256::ecdsa::signature::Signer;
use rsa::signature::SignatureEncoding;

/// The base point of P-256, as base64url coordinates.
const GENERATOR_X: &str = "axfR8uEsQkf4vOblY6RA8ncDfYEt6zOg9KE5RdiYwpY";
const GENERATOR_Y: &str = "T-NC4v4af5uO5-tKfA-eFivOM1drMV7Oy7ZAaDe_UfU";

/// An RSA modulus of 1024 bits, its factors and the private exponent that
/// goes with 65537.
const MODULUS: &str = "aa1acc16996f2acaf106f7a4e4a56d4ccb8e7ffe730c2c4bb42ed9b3bc0e8fb3b76593673d9da46f1a51697811427a53425dda218e982ac2775af531034813fdd309f6597ae69def02064f6618168f846449da96e1af42b1ab81fcf7be0dc1853a7d0117fde00635ff8aeeb416711854d51e73082ab30f4fd44c9ae7eddc7c67";
const PRIVATE_EXPONENT: &str = "6368339a856214d4f2540b06dee3d9e3061629b06e554fd191e3cb2fa117b55ce631431a1344fbe23db413f9a9c47aae0b5bc36cd6e31022031431b3c9e22663bbac6657eb5bb196d325c7c1a9c85d6f869934e4a6559f115edbf17fa8ad592e457e23395cb04b68cc0eb6780789ff9d03823d2f223513d1cf187d947803bd91";
const FIRST_PRIME: &str = "df27b474402615f619baa4a49f0ac0170928ca2ceca468e9ce6ba18b8ad12fc9a0d4f2e345ffb65d9f9bc6d3adae2c57eafd6a994409a2329ef50006a43e3769";
const SECOND_PRIME: &str = "c32432886bb4127246699464dbe63772bad97069fd356ef093eecdd538cc3f84e44f625809d585da734ef52360ef18d51da125316aac9f018e6343b605eceb4f";

fn hex(digits: &str) -> rsa::BigUint {
    rsa::BigUint::parse_bytes(digits.as_bytes(), 16).expect("hex")
}

fn rsa_private() -> rsa::RsaPrivateKey {
    rsa::RsaPrivateKey::from_components(
        hex(MODULUS),
        hex("10001"),
        hex(PRIVATE_EXPONENT),
        vec![hex(FIRST_PRIME), hex(SECOND_PRIME)],
    )
    .expect("a key")
}

fn rsa_jwk(id: &str) -> String {
    format!(
        r#"{{"kty":"RSA","kid":"{id}","n":"{}","e":"AQAB"}}"#,
        URL_SAFE_NO_PAD.encode(hex(MODULUS).to_bytes_be())
    )
}

/// A P-256 key as a JWK, as an issuer would publish it.
fn p256_jwk(id: &str, key: &p256::ecdsa::SigningKey) -> String {
    let point = key.verifying_key().to_encoded_point(false);
    format!(
        r#"{{"kty":"EC","crv":"P-256","use":"sig","kid":"{id}","x":"{}","y":"{}"}}"#,
        URL_SAFE_NO_PAD.encode(point.x().expect("x")),
        URL_SAFE_NO_PAD.encode(point.y().expect("y"))
    )
}

fn signing_key() -> p256::ecdsa::SigningKey {
    p256::ecdsa::SigningKey::random(&mut rand::rngs::OsRng)
}

fn set_of(keys: &[String]) -> String {
    format!(r#"{{"keys":[{}]}}"#, keys.join(","))
}

fn why(document: &str) -> String {
    Jwks::parse(document).err().expect("refused").message
}

#[test]
fn a_published_p256_key_verifies_what_its_private_half_signed() {
    let key = signing_key();
    let set = Jwks::parse(&format!(r#"{{"keys":[{}]}}"#, p256_jwk("e1", &key))).expect("set");
    let signature: p256::ecdsa::Signature = key.sign(b"input");

    assert_eq!(set.len(), 1);
    assert!(set
        .verify(Algorithm::Es256, Some("e1"), b"input", &signature.to_vec())
        .is_ok());
    let failure = set
        .verify(Algorithm::Es256, Some("e1"), b"other", &signature.to_vec())
        .expect_err("refused");
    assert!(failure.message.contains("does not verify"));
}

#[test]
fn a_key_the_set_does_not_hold_is_refused_as_a_possible_rotation() {
    let key = signing_key();
    let set = Jwks::parse(&format!(r#"{{"keys":[{}]}}"#, p256_jwk("e1", &key))).expect("set");

    let failure = set
        .verify(Algorithm::Es256, Some("e2"), b"input", b"sig")
        .expect_err("refused");

    assert!(failure.message.contains("no key 'e2'"));
    assert!(failure.message.contains("rotated"));
}

#[test]
fn a_key_asked_to_serve_another_algorithm_is_refused_by_both_names() {
    let key = signing_key();
    let set = Jwks::parse(&format!(r#"{{"keys":[{}]}}"#, p256_jwk("e1", &key))).expect("set");

    let failure = set
        .verify(Algorithm::Rs256, Some("e1"), b"input", b"sig")
        .expect_err("refused");

    assert!(failure.message.contains("serves ES256"));
    assert_eq!(
        failure.message,
        "the key 'e1' serves ES256 and the token is signed RS256"
    );
}

#[test]
fn a_set_with_only_encryption_or_unknown_keys_does_not_load() {
    let document = r#"{"keys":[{"kty":"oct","k":"AA"},{"kty":"RSA","use":"enc"}]}"#;

    let failure = Jwks::parse(document).err().expect("refused");

    assert!(failure.message.contains("no RSA or P-256 signing key"));
}

#[test]
fn a_document_that_is_not_a_key_set_is_refused_by_what_it_lacks() {
    let failure = Jwks::parse(r#"{"issuer":"x"}"#).err().expect("refused");

    assert!(failure.message.contains("`keys`"));
}

#[test]
fn the_two_algorithms_have_their_names_and_no_other_is_known() {
    assert_eq!(Algorithm::named("RS256"), Some(Algorithm::Rs256));
    assert_eq!(Algorithm::named("ES256"), Some(Algorithm::Es256));
    assert_eq!(Algorithm::Rs256.name(), "RS256");
    assert_eq!(Algorithm::Es256.name(), "ES256");
    for other in ["", "none", "HS256", "rs256", "RS384", "RS256 "] {
        assert_eq!(Algorithm::named(other), None, "{other}");
    }
}

#[test]
fn what_is_not_json_is_refused_with_where_the_reader_stopped() {
    assert_eq!(
        why("{"),
        "the JWKS is not JSON: EOF while parsing an object at line 1 column 1"
    );
}

#[test]
fn keys_that_are_no_array_are_no_keys() {
    for document in ["[]", "7", "{}", r#"{"keys":{}}"#, r#"{"keys":"x"}"#] {
        assert_eq!(why(document), "the JWKS has no `keys` array", "{document}");
    }
    assert_eq!(
        why(r#"{"keys":[]}"#),
        "the JWKS holds no RSA or P-256 signing key"
    );
}

#[test]
fn a_member_that_is_missing_or_no_text_or_not_base64url_is_named() {
    assert_eq!(
        why(r#"{"keys":[{"kty":"RSA","e":"AQAB"}]}"#),
        "a key in the JWKS has no `n`"
    );
    assert_eq!(
        why(r#"{"keys":[{"kty":"RSA","n":"AQAB","e":3}]}"#),
        "a key in the JWKS has no `e`"
    );
    assert_eq!(
        why(r#"{"keys":[{"kty":"RSA","n":"AQ==","e":"!"}]}"#),
        "a key's `n` in the JWKS is not base64url"
    );
    assert_eq!(
        why(r#"{"keys":[{"kty":"EC","crv":"P-256","y":"AA"}]}"#),
        "a key in the JWKS has no `x`"
    );
    assert_eq!(
        why(r#"{"keys":[{"kty":"EC","crv":"P-256","x":"AA","y":"a+b/"}]}"#),
        "a key's `y` in the JWKS is not base64url"
    );
}

#[test]
fn an_rsa_key_is_usable_within_its_bounds_only() {
    let with = |n: &[u8], e: &[u8]| {
        format!(
            r#"{{"keys":[{{"kty":"RSA","n":"{}","e":"{}"}}]}}"#,
            URL_SAFE_NO_PAD.encode(n),
            URL_SAFE_NO_PAD.encode(e)
        )
    };
    let unusable = "an RSA key in the JWKS is not a usable key";
    let mut widest = vec![0xff; 512];
    assert!(Jwks::parse(&with(&widest, &[1, 0, 1])).is_ok());
    widest.insert(0, 1);
    assert_eq!(why(&with(&widest, &[1, 0, 1])), unusable);

    assert!(Jwks::parse(&with(&[0, 0, 5], &[3])).is_ok());
    assert_eq!(why(&with(&[3], &[3])), unusable);
    assert_eq!(why(&with(&[4], &[3])), unusable);
    assert_eq!(why(&with(&[5], &[1])), unusable);
    assert_eq!(why(&with(&[5], &[2])), unusable);
    assert_eq!(why(&with(&[], &[])), unusable);

    let large = vec![0xff; 64];
    assert!(Jwks::parse(&with(&large, &[1, 0xff, 0xff, 0xff, 0xff])).is_ok());
    assert_eq!(why(&with(&large, &[2, 0, 0, 0, 1])), unusable);
    assert_eq!(
        why(&with(&large, &[1, 0, 0, 0, 0, 0, 0, 0, 1])),
        unusable
    );
}

#[test]
fn a_p256_key_is_thirty_two_bytes_each_way_and_on_the_curve() {
    let with = |x: &str, y: &str| {
        format!(r#"{{"keys":[{{"kty":"EC","crv":"P-256","x":"{x}","y":"{y}"}}]}}"#)
    };
    assert_eq!(
        Jwks::parse(&with(GENERATOR_X, GENERATOR_Y))
            .expect("a set")
            .len(),
        1
    );
    assert_eq!(
        why(&with(GENERATOR_X, "AQAB")),
        "a P-256 coordinate in the JWKS is not thirty-two bytes"
    );
    assert_eq!(
        why(&with(GENERATOR_X, GENERATOR_X)),
        "a P-256 key in the JWKS is not on the curve"
    );
}

#[test]
fn a_coordinate_beyond_the_field_is_not_on_the_curve() {
    // The prime of the field stands for zero, and y with x zero is a root of
    // the curve's constant; neither may be spelled with the prime itself.
    let prime = URL_SAFE_NO_PAD.encode(
        hex("ffffffff00000001000000000000000000000000ffffffffffffffffffffffff").to_bytes_be(),
    );
    let root = URL_SAFE_NO_PAD.encode(
        hex("66485c780e2f83d72433bd5d84a06bb6541c2af31dae871728bf856a174f93f4").to_bytes_be(),
    );
    let zero = URL_SAFE_NO_PAD.encode([0; 32]);
    let with = |x: &str, y: &str| {
        format!(r#"{{"keys":[{{"kty":"EC","crv":"P-256","x":"{x}","y":"{y}"}}]}}"#)
    };
    assert!(Jwks::parse(&with(&zero, &root)).is_ok());
    assert_eq!(
        why(&with(&prime, &root)),
        "a P-256 key in the JWKS is not on the curve"
    );
}

#[test]
fn keys_that_are_passed_over_do_not_keep_the_others_from_loading() {
    let key = signing_key();
    let enc = r#"{"kty":"RSA","use":"enc","n":"!","e":"!"}"#.to_string();
    let oct = r#"{"kty":"oct","k":"AA"}"#.to_string();
    let other_curve = r#"{"kty":"EC","crv":"P-384","x":"!","y":"!"}"#.to_string();
    let no_object = "7".to_string();

    let set = Jwks::parse(&set_of(&[
        enc,
        oct,
        p256_jwk("e1", &key),
        other_curve,
        no_object,
        rsa_jwk("r1"),
    ]))
    .expect("a set");

    assert_eq!(set.len(), 2);
    assert!(!set.is_empty());
}

#[test]
fn one_malformed_key_keeps_the_set_from_loading_and_the_first_is_named() {
    let key = signing_key();
    let first = r#"{"kty":"RSA","e":"AQAB"}"#.to_string();
    let second = r#"{"kty":"EC","crv":"P-256"}"#.to_string();

    assert_eq!(
        why(&set_of(&[p256_jwk("e1", &key), first, second])),
        "a key in the JWKS has no `n`"
    );
}

#[test]
fn where_the_token_names_no_key_any_key_of_the_algorithm_will_do() {
    let (one, two, three) = (signing_key(), signing_key(), signing_key());
    let set = Jwks::parse(&set_of(&[
        rsa_jwk("r1"),
        p256_jwk("e1", &one),
        p256_jwk("e2", &two),
    ]))
    .expect("a set");
    let signed = |key: &p256::ecdsa::SigningKey| {
        let signature: p256::ecdsa::Signature = key.sign(b"input");
        signature.to_vec()
    };

    for key in [&one, &two] {
        assert!(set
            .verify(Algorithm::Es256, None, b"input", &signed(key))
            .is_ok());
    }
    assert_eq!(
        set.verify(Algorithm::Es256, None, b"input", &signed(&three))
            .expect_err("refused")
            .message,
        "the ES256 signature does not verify with the issuer's published key"
    );
    assert_eq!(
        set.verify(Algorithm::Es256, Some("e1"), b"input", &signed(&two))
            .expect_err("refused")
            .message,
        "the ES256 signature does not verify with the issuer's published key"
    );
}

#[test]
fn a_set_without_a_key_of_the_algorithm_says_so() {
    let set = Jwks::parse(&set_of(&[rsa_jwk("r1")])).expect("a set");

    assert_eq!(
        set.verify(Algorithm::Es256, None, b"input", &[0; 64])
            .expect_err("refused")
            .message,
        "the issuer's key set holds no ES256 key and the token names none"
    );
}

#[test]
fn of_two_keys_of_one_id_the_first_is_meant() {
    let (one, two) = (signing_key(), signing_key());
    let set =
        Jwks::parse(&set_of(&[p256_jwk("e1", &one), p256_jwk("e1", &two)])).expect("a set");
    let by_one: p256::ecdsa::Signature = one.sign(b"input");
    let by_two: p256::ecdsa::Signature = two.sign(b"input");

    assert!(set
        .verify(Algorithm::Es256, Some("e1"), b"input", &by_one.to_vec())
        .is_ok());
    assert!(set
        .verify(Algorithm::Es256, Some("e1"), b"input", &by_two.to_vec())
        .is_err());
}

#[test]
fn an_rsa_key_verifies_its_own_signatures_and_no_others() {
    let set = Jwks::parse(&set_of(&[rsa_jwk("r1")])).expect("a set");
    let signer = rsa::pkcs1v15::SigningKey::<rsa::sha2::Sha256>::new(rsa_private());
    let signature = signer.sign(b"input").to_vec();

    assert!(set
        .verify(Algorithm::Rs256, Some("r1"), b"input", &signature)
        .is_ok());
    assert_eq!(
        set.verify(Algorithm::Rs256, Some("r1"), b"inpus", &signature)
            .expect_err("refused")
            .message,
        "the RS256 signature does not verify with the issuer's published key"
    );
    let mut bent = signature.clone();
    bent[17] ^= 1;
    assert!(set
        .verify(Algorithm::Rs256, Some("r1"), b"input", &bent)
        .is_err());
    for short in [&signature[1..], &[][..]] {
        assert!(set
            .verify(Algorithm::Rs256, Some("r1"), b"input", short)
            .is_err());
    }
    assert_eq!(
        set.verify(Algorithm::Es256, Some("r1"), b"input", &signature)
            .expect_err("refused")
            .message,
        "the key 'r1' serves RS256 and the token is signed ES256"
    );
}

#[test]
fn a_copy_of_a_set_verifies_what_the_set_does() {
    let key = signing_key();
    let set = Jwks::parse(&set_of(&[p256_jwk("e1", &key), rsa_jwk("r1")])).expect("a set");
    let copy = set.clone();
    let signature: p256::ecdsa::Signature = key.sign(b"input");

    assert_eq!(copy.len(), 2);
    assert!(copy
        .verify(Algorithm::Es256, Some("e1"), b"input", &signature.to_vec())
        .is_ok());
}

#[test]
fn a_list_of_keys_loads_as_the_document_that_lists_them() {
    let text = |text: &str| Some(text.to_string());
    let point = || Listed {
        usage: None,
        kty: text("EC"),
        crv: text("P-256"),
        kid: text("e1"),
        n: None,
        e: None,
        x: text(GENERATOR_X),
        y: text(GENERATOR_Y),
    };
    let enc = Listed {
        usage: text("enc"),
        ..point()
    };

    assert_eq!(
        Jwks::from_listed(&vec![enc, point(), point()])
            .expect("a set")
            .len(),
        2
    );
    assert_eq!(
        Jwks::from_listed(&Vec::new()).err().expect("refused").message,
        "the JWKS holds no RSA or P-256 signing key"
    );
}

#[test]
fn base64url_text_decodes_to_the_bytes_it_was_made_of() {
    let bytes: Vec<u8> = (0..=255).collect();
    for from in 0..8 {
        let part = &bytes[from..];
        let text = URL_SAFE_NO_PAD.encode(part);
        assert_eq!(
            authenticate_oidc::base64url::decode(&text).as_deref(),
            Some(part)
        );
    }
    assert_eq!(
        authenticate_oidc::base64url::decode("AQAB"),
        Some(vec![1, 0, 1])
    );
    assert_eq!(authenticate_oidc::base64url::decode("-_8"), Some(vec![0xfb, 0xff]));
    assert_eq!(authenticate_oidc::base64url::decode(""), Some(Vec::new()));
}

#[test]
fn what_is_not_base64url_does_not_decode() {
    for text in ["A", "AAAAA", "AQ==", "A+A/", "AQ AB", "AR", "AAB", "\u{e9}\u{e9}"] {
        assert_eq!(authenticate_oidc::base64url::decode(text), None, "{text}");
    }
}
