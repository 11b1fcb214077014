//! ID tokens, minted by an issuer and presented to a verifier.
use authenticate_oidc::clock::{signed_seconds, Clock};
use authenticate_oidc::{
    now, Account, AuthenticateError, Claims, Compact, Jwks, Presented, Verified, Verifier, TOKEN,
};
use base64::engine::general_purpose::URL_SAFE_NO_PAD;
use base64::Engine;
use rsa::signature::{SignatureEncoding, Signer};
use rsa::traits::PublicKeyParts;

const NOW: i64 = 1_800_000_000;
const ISSUER: &str = "https://issuer.example";

/// An RSA key of 2048 bits: the modulus, the private exponent that goes with
/// 65537, and the two factors.
const MODULUS: &str = "bf2cb0cf13512e1c83495dac588582a6c549504a1444ce19a65a2734ca8974f63d6504a901b9495a5a5d554d010f30b215416b1e8575282c2177682c14c042783fca98a21b8ed40a4bb371e3b0e97d517c101d5655a3d18faa702a5385e095f327f98d083ce1f9fe10a4e360f5f0491de27f5a4d3f21d95dcbfbf01054fcb92f053a2efe947f77d0fe1ad49b9cedb74f51bca46575deb019ba1873621d66ec242c3bc043dbbeb38cd5882f7d7a87c10169996f9336a4075cf42f07818a72bcd612796ce3db190e4b6bbfbd9763f21576cb34d2834aa04d1c4b1c312191b2be71599be891eaccc2f3041f841b359d41c3eb0337bd5aa8f59575bee4b5e48edf2f";
const PRIVATE_EXPONENT: &str = "66731bb98d3f96f77ebfe56c43f0208920f6de0924fd8e799e7577c749b70a301fccb007a63dd67a8e2cb056d8f77c002375f062e5e0580bf64f584b2f3fad1f66083b6dbc58f9771f0466473ffa90c70736579279c895b868fd3d218f8040bb9333a009c71eceeb019e6b9ffd8cac92505c31576e3ac493088ad626da74a90405a319ab136a4d4cd5511c8cf26974d91f05f57acb483e972df0f42186dd309f1b0dbf2173d1c547c774874bbff4f5ef4738bb71ba39d24dc87b7fb75396fd513339571f1884a56e67612457e4b3f9deecc72c6573c15d72bc2df473834ae303d649cceea0c957a8176a5bf3a43697ea16b9c284f50bec076a7f17fc43182e51";
const FIRST_PRIME: &str = "e0f8d7362d865eda1c76c6b40839b36c7d843edc50fc519f4490e8f3f117bfd921166b24d6c7f189dcf6751302b67138f3b623b99fbfee2791ca409a1fc815ee2b0c3cd6cbd8935b11c026f93e4b16a4b32c0f86f1217e5aa9f4e6458d52332fa0a8293eb15eb20401c69fbc7f058b314bea2e8b13d4c4b753a7c46c6c2be2b9";
const SECOND_PRIME: &str = "d98a8d60d1012ee57100c3e22e1007dc9728b6d1706085aeea2eda997a42c54f8ecf46b58dd09b264443a0a004e488a4ba6f32ba7986cd3546cd6aeabedc4c726a21668a81e3a3b6b23e4e405f65bd436b7c7b5f89d2c4e69a3b2a47f68a1e61b46bc491f2eff9eef348e1ef774cbe763bacfecc0392c730256912e4f4037d27";

const UNSENT: &str = "the ID token's nonce is not one this node has outstanding: \
                      never sent, or already spent";

fn mint(header: &str, claims: &str, sign: impl Fn(&[u8]) -> Vec<u8>) -> String {
    let input = format!(
        "{}.{}",
        URL_SAFE_NO_PAD.encode(header),
        URL_SAFE_NO_PAD.encode(claims)
    );
    let signature = sign(input.as_bytes());
    format!("{input}.{}", URL_SAFE_NO_PAD.encode(signature))
}

fn claims(extra: &str, expiry: i64) -> String {
    format!(r#"{{"iss":"{ISSUER}","sub":"partner-x","aud":["xmip-node"],"exp":{expiry}{extra}}}"#)
}

/// A user principal name in either spelling, as user and domain.
fn principal(text: &str) -> Option<(String, String)> {
    let (user, domain) = match text.split_once('\\') {
        Some((domain, user)) => (user, domain),
        None => text.split_once('@')?,
    };
    Some((user.to_lowercase(), domain.to_lowercase()))
}

/// What is read of a token, by a node that may expect an account.
fn read_expecting(token: &str, expected: &str) -> Result<Compact, String> {
    let parts: Vec<&str> = token.split('.').collect();
    let [header, payload, signature] = parts[..] else {
        return Err("the token is not three parts".to_string());
    };
    let bytes = |part: &str| {
        URL_SAFE_NO_PAD
            .decode(part)
            .map_err(|_| "a part of the token is not base64url".to_string())
    };
    let object = |part: &str| {
        serde_json::from_slice::<serde_json::Value>(&bytes(part)?)
            .map_err(|_| "a part of the token is not JSON".to_string())
    };
    let (head, body) = (object(header)?, object(payload)?);
    let text = |value: &serde_json::Value, name: &str| {
        value
            .get(name)
            .and_then(|member| member.as_str())
            .map(|member| member.to_string())
    };
    let account = |name: &str| {
        let named = principal(&text(&body, name)?)?;
        Some(Account {
            name: format!("{}@{}", named.0, named.1),
            is_expected: Some(named) == principal(expected),
        })
    };
    let aud = match body.get("aud") {
        Some(serde_json::Value::String(one)) => vec![one.clone()],
        Some(serde_json::Value::Array(several)) => several
            .iter()
            .filter_map(|one| one.as_str())
            .map(|one| one.to_string())
            .collect(),
        _ => Vec::new(),
    };
    Ok(Compact {
        algorithm: text(&head, "alg"),
        key_id: text(&head, "kid"),
        signing_input: format!("{header}.{payload}"),
        signature: bytes(signature)?,
        claims: Claims {
            iss: text(&body, "iss"),
            aud,
            azp: text(&body, "azp"),
            exp: body.get("exp").and_then(|exp| exp.as_i64()),
            nbf: body.get("nbf").and_then(|nbf| nbf.as_i64()),
            sub: text(&body, "sub"),
            nonce: text(&body, "nonce"),
            upn: account("upn"),
            preferred_username: account("preferred_username"),
        },
    })
}

fn read(token: &str) -> Result<Compact, String> {
    read_expecting(token, "")
}

struct Issuer {
    key: p256::ecdsa::SigningKey,
}

impl Issuer {
    fn new() -> Self {
        Self {
            key: p256::ecdsa::SigningKey::random(&mut rand::rngs::OsRng),
        }
    }

    fn jwks(&self) -> Jwks {
        let point = self.key.verifying_key().to_encoded_point(false);
        let jwk = format!(
            r#"{{"kty":"EC","crv":"P-256","use":"sig","kid":"e1","x":"{}","y":"{}"}}"#,
            URL_SAFE_NO_PAD.encode(point.x().expect("x")),
            URL_SAFE_NO_PAD.encode(point.y().expect("y"))
        );
        Jwks::parse(&format!(r#"{{"keys":[{jwk}]}}"#)).expect("a set")
    }

    fn token(&self, claims: &str) -> String {
        mint(r#"{"alg":"ES256","kid":"e1"}"#, claims, |input| {
            let signature: p256::ecdsa::Signature = self.key.sign(input);
            signature.to_vec()
        })
    }

    fn gate(&self) -> Verifier<impl Fn() -> i64> {
        Verifier::new(self.jwks(), ISSUER, "xmip-node").with_clock(|| NOW)
    }
}

fn presented(token: &str) -> Presented {
    Presented {
        mechanism: "oidc".to_string(),
        value: "partner-x".to_string(),
        token: Some(token.to_string()),
    }
}

/// Present a token, having read it.
fn verify<C: Clock>(gate: &mut Verifier<C>, token: &str) -> Result<Verified, AuthenticateError> {
    gate.verify(&presented(token), read(token))
}

fn why<C: Clock>(gate: &mut Verifier<C>, token: &str) -> String {
    verify(gate, token).expect_err("refused").message
}

#[test]
fn a_token_from_the_issuer_with_the_nonce_the_node_sent_is_proven_once() {
    let issuer = Issuer::new();
    let mut gate = issuer.gate();
    gate.issued("n-0S6_WzA2Mj");
    let token = issuer.token(&claims(r#","nonce":"n-0S6_WzA2Mj""#, NOW + 300));

    let verified = verify(&mut gate, &token).expect("proven");
    let replayed = verify(&mut gate, &token).expect_err("spent");

    assert_eq!(verified, Verified::Proven);
    assert!(replayed.message.contains("already spent"));
}

#[test]
fn a_token_naming_the_expected_account_in_either_claim_and_spelling_is_proven() {
    let issuer = Issuer::new();
    let expected = "PARTNERX\\jane";
    let mut gate = issuer
        .gate()
        .without_nonce()
        .expecting_principal(expected);
    let by_upn = claims(
        r#","upn":"Jane@PartnerX","preferred_username":"x@y""#,
        NOW + 300,
    );
    let by_username = claims(r#","preferred_username":"jane@partnerx""#, NOW + 300);

    for claims in [by_upn, by_username] {
        let token = issuer.token(&claims);
        let verified = gate.verify(&presented(&token), read_expecting(&token, expected));
        assert_eq!(verified.expect("proven"), Verified::Proven, "{claims}");
    }
}

#[test]
fn a_token_naming_another_account_is_refused_naming_both_and_one_naming_none_says_so() {
    let issuer = Issuer::new();
    let expected = "jane@partnerx";
    let mut gate = issuer
        .gate()
        .without_nonce()
        .expecting_principal(expected);
    let other = issuer.token(&claims(r#","upn":"mallory@partnerx""#, NOW + 300));
    let bare = issuer.token(&claims(r#","preferred_username":"jane""#, NOW + 300));

    let refused = gate
        .verify(&presented(&other), read_expecting(&other, expected))
        .expect_err("refused");
    let unnamed = gate
        .verify(&presented(&bare), read_expecting(&bare, expected))
        .expect_err("refused");

    assert_eq!(
        refused.message,
        "the ID token names 'mallory@partnerx' and this node expects 'jane@partnerx'"
    );
    assert!(unnamed.message.contains("carries no user principal name"));
    assert_eq!(
        unnamed.message,
        "the ID token carries no user principal name in `upn` or \
         `preferred_username` and this node expects 'jane@partnerx'"
    );
}

#[test]
fn a_token_without_the_nonce_is_refused_unless_the_node_expects_none() {
    let issuer = Issuer::new();
    let token = issuer.token(&claims("", NOW + 300));

    let failure = verify(&mut issuer.gate(), &token).expect_err("refused");
    let unasked = verify(&mut issuer.gate().without_nonce(), &token);

    assert!(failure.message.contains("carries no nonce"));
    assert_eq!(unasked.expect("proven"), Verified::Proven);
}

#[test]
fn a_token_signed_by_a_key_the_issuer_did_not_publish_is_refused() {
    let issuer = Issuer::new();
    let token = Issuer::new().token(&claims("", NOW + 300));

    let failure = verify(&mut issuer.gate().without_nonce(), &token).expect_err("refused");

    assert!(failure.message.contains("signature does not verify"));
}

#[test]
fn an_expired_token_and_one_without_an_expiry_are_each_refused() {
    let issuer = Issuer::new();
    let mut gate = issuer.gate().without_nonce();
    let expired = issuer.token(&claims("", NOW - 300));
    let endless = issuer.token(&format!(
        r#"{{"iss":"{ISSUER}","sub":"partner-x","aud":"xmip-node"}}"#
    ));

    let past = verify(&mut gate, &expired).expect_err("refused");
    let none = verify(&mut gate, &endless).expect_err("refused");

    assert!(past.message.contains("expired"));
    assert_eq!(
        past.message,
        "the ID token expired at 1799999700 and it is 1800000000"
    );
    assert!(none.message.contains("no `exp`"));
}

#[test]
fn another_issuer_audience_or_authorized_party_is_refused_by_name() {
    let issuer = Issuer::new();
    let mut gate = issuer.gate().without_nonce();
    let exp = NOW + 300;
    let foreign = issuer.token(&format!(
        r#"{{"iss":"https://other.example","sub":"partner-x","aud":"xmip-node","exp":{exp}}}"#
    ));
    let elsewhere = issuer.token(&format!(
        r#"{{"iss":"{ISSUER}","sub":"partner-x","aud":"another-client","exp":{exp}}}"#
    ));
    let lent = issuer.token(&claims(r#","azp":"another-client""#, exp));

    let failures =
        [foreign, elsewhere, lent].map(|token| verify(&mut gate, &token).expect_err("refused"));

    assert!(failures[0].message.contains("issuer is not"));
    assert!(failures[1].message.contains("audience"));
    assert!(failures[2].message.contains("azp"));
    assert_eq!(
        failures[0].message,
        "the ID token's issuer is not 'https://issuer.example'"
    );
    assert_eq!(
        failures[1].message,
        "the ID token's audience does not name this node's client id 'xmip-node'"
    );
    assert_eq!(
        failures[2].message,
        "the ID token was issued to 'another-client' (azp) and not to 'xmip-node'"
    );
}

#[test]
fn a_subject_that_is_not_the_claim_and_an_hmac_token_are_refused() {
    let issuer = Issuer::new();
    let mut gate = issuer.gate().without_nonce();
    let token = issuer.token(&claims("", NOW + 300));
    let claim = Presented {
        value: "someone-else".to_string(),
        ..presented(&token)
    };
    let hmac = mint(r#"{"alg":"HS256"}"#, &claims("", NOW + 300), |_| {
        vec![0; 32]
    });

    let subject = gate.verify(&claim, read(&token)).expect_err("refused");
    let algorithm = verify(&mut gate, &hmac).expect_err("refused");

    assert!(subject.message.contains("subject"));
    assert!(algorithm.message.contains("'HS256'"));
}

#[test]
fn another_mechanism_and_a_missing_proof_are_each_refused_by_name() {
    let mut gate = Issuer::new().gate();
    let other = Presented {
        mechanism: "jwt".to_string(),
        ..presented("x.y.z")
    };
    let bare = Presented {
        token: None,
        ..presented("")
    };

    assert!(gate
        .verify(&other, read("x.y.z"))
        .expect_err("refused")
        .message
        .contains("'jwt' was presented"));
    assert!(gate
        .verify(&bare, read(""))
        .expect_err("refused")
        .message
        .contains("oidc.token"));
    assert_eq!(
        gate.token(&bare).expect_err("refused").message,
        "no oidc.token proof was presented"
    );
    assert_eq!(gate.token(&presented("x.y.z")).expect("a token"), "x.y.z");
    assert_eq!(gate.mechanism(), "oidc");
    assert_eq!(TOKEN, "oidc.token");
}

#[test]
fn an_rs256_token_verifies_with_the_rsa_key_the_set_publishes() {
    let hex = |digits: &str| rsa::BigUint::parse_bytes(digits.as_bytes(), 16).expect("hex");
    let private = rsa::RsaPrivateKey::from_components(
        hex(MODULUS),
        hex("10001"),
        hex(PRIVATE_EXPONENT),
        vec![hex(FIRST_PRIME), hex(SECOND_PRIME)],
    )
    .expect("a key");
    assert_eq!(private.size() * 8, 2048);
    let document = format!(
        r#"{{"keys":[{{"kty":"RSA","alg":"RS256","n":"{}","e":"{}"}}]}}"#,
        URL_SAFE_NO_PAD.encode(private.n().to_bytes_be()),
        URL_SAFE_NO_PAD.encode(private.e().to_bytes_be())
    );
    let signer = rsa::pkcs1v15::SigningKey::<rsa::sha2::Sha256>::new(private);
    let token = mint(r#"{"alg":"RS256"}"#, &claims("", NOW + 300), |input| {
        signer.sign(input).to_vec()
    });
    let mut gate = Verifier::new(Jwks::parse(&document).expect("a set"), ISSUER, "xmip-node")
        .without_nonce()
        .with_clock(|| NOW);

    assert_eq!(
        verify(&mut gate, &token).expect("proven"),
        Verified::Proven
    );
}

#[test]
fn a_token_that_could_not_be_read_is_refused_as_its_reader_says() {
    let mut gate = Issuer::new().gate();

    assert_eq!(why(&mut gate, "x.y"), "the token is not three parts");
}

#[test]
fn a_token_whose_header_names_no_algorithm_is_refused() {
    let issuer = Issuer::new();
    let mut gate = issuer.gate().without_nonce();
    let token = mint(r#"{"kid":"e1"}"#, &claims("", NOW + 300), |_| vec![0; 64]);

    assert_eq!(
        why(&mut gate, &token),
        "the ID token's algorithm '' is not one this node verifies: RS256 and ES256 are"
    );
}

#[test]
fn a_token_that_names_no_key_is_verified_by_any_of_the_algorithm() {
    let issuer = Issuer::new();
    let mut gate = issuer.gate().without_nonce();
    let token = mint(r#"{"alg":"ES256"}"#, &claims("", NOW + 300), |input| {
        let signature: p256::ecdsa::Signature = issuer.key.sign(input);
        signature.to_vec()
    });

    assert_eq!(verify(&mut gate, &token).expect("proven"), Verified::Proven);
}

#[test]
fn claims_that_were_not_signed_are_refused() {
    let issuer = Issuer::new();
    let mut gate = issuer.gate().without_nonce();
    let token = issuer.token(&claims("", NOW + 300));
    let parts: Vec<&str> = token.split('.').collect();
    let forged = format!(
        "{}.{}.{}",
        parts[0],
        URL_SAFE_NO_PAD.encode(claims("", NOW + 900)),
        parts[2]
    );

    assert_eq!(
        why(&mut gate, &forged),
        "the ES256 signature does not verify with the issuer's published key"
    );
}

#[test]
fn the_leeway_is_sixty_seconds_unless_another_is_given() {
    let issuer = Issuer::new();
    let token = issuer.token(&claims("", NOW));
    let at = |now: i64| {
        Verifier::new(issuer.jwks(), ISSUER, "xmip-node")
            .without_nonce()
            .with_clock(move || now)
    };

    assert!(verify(&mut at(NOW + 60), &token).is_ok());
    assert_eq!(
        why(&mut at(NOW + 61), &token),
        "the ID token expired at 1800000000 and it is 1800000061"
    );
    assert!(verify(&mut at(NOW + 61).with_leeway(61), &token).is_ok());
    assert!(verify(&mut at(NOW).with_leeway(0), &token).is_ok());
    assert!(verify(&mut at(NOW + 1).with_leeway(0), &token).is_err());
    assert!(verify(&mut at(NOW).with_leeway(-1), &token).is_err());
}

#[test]
fn a_token_is_not_valid_before_its_start() {
    let issuer = Issuer::new();
    let token = issuer.token(&claims(&format!(r#","nbf":{}"#, NOW + 61), NOW + 300));
    let mut gate = issuer.gate().without_nonce();

    assert_eq!(
        why(&mut gate, &token),
        "the ID token is not valid before 1800000061 and it is 1800000000"
    );
    assert!(verify(&mut gate.with_leeway(61), &token).is_ok());
}

#[test]
fn times_at_the_ends_of_their_range_are_held_to_it() {
    let issuer = Issuer::new();
    let at = |now: i64, leeway: i64| {
        Verifier::new(issuer.jwks(), ISSUER, "xmip-node")
            .without_nonce()
            .with_clock(move || now)
            .with_leeway(leeway)
    };
    let forever = issuer.token(&claims("", i64::MAX));
    let never = issuer.token(&claims("", i64::MIN));
    let last = issuer.token(&claims(&format!(r#","nbf":{}"#, i64::MAX), i64::MAX));

    assert!(verify(&mut at(i64::MAX, 60), &forever).is_ok());
    assert!(verify(&mut at(i64::MAX, i64::MAX), &last).is_ok());
    assert!(verify(&mut at(i64::MIN, i64::MIN), &never).is_ok());
    assert_eq!(
        why(&mut at(-7, -1), &never),
        "the ID token expired at -9223372036854775808 and it is -7"
    );
}

#[test]
fn the_audience_may_be_among_several_and_the_authorized_party_the_client() {
    let issuer = Issuer::new();
    let mut gate = issuer.gate().without_nonce();
    let exp = NOW + 300;
    let several = issuer.token(&format!(
        r#"{{"iss":"{ISSUER}","sub":"partner-x","aud":["a","xmip-node"],"azp":"xmip-node","exp":{exp}}}"#
    ));
    let nobody = issuer.token(&format!(
        r#"{{"iss":"{ISSUER}","sub":"partner-x","aud":[],"exp":{exp}}}"#
    ));

    assert!(verify(&mut gate, &several).is_ok());
    assert!(why(&mut gate, &nobody).contains("audience"));
}

#[test]
fn the_first_claim_that_fails_is_the_one_that_is_said() {
    let issuer = Issuer::new();
    let mut gate = issuer.gate();
    let all_wrong = issuer.token(r#"{"iss":"x","aud":"x","azp":"x","sub":"x","exp":1}"#);

    assert_eq!(
        why(&mut gate, &all_wrong),
        "the ID token's issuer is not 'https://issuer.example'"
    );
}

#[test]
fn a_name_that_reads_as_none_gives_way_to_the_other_claim() {
    let issuer = Issuer::new();
    let expected = "jane@partnerx";
    let mut gate = issuer
        .gate()
        .without_nonce()
        .expecting_principal(expected);
    let fallen_back = issuer.token(&claims(
        r#","upn":"jane","preferred_username":"jane@partnerx""#,
        NOW + 300,
    ));
    let preferred = issuer.token(&claims(
        r#","upn":"mallory@partnerx","preferred_username":"jane@partnerx""#,
        NOW + 300,
    ));

    assert!(gate
        .verify(
            &presented(&fallen_back),
            read_expecting(&fallen_back, expected)
        )
        .is_ok());
    assert!(gate
        .verify(&presented(&preferred), read_expecting(&preferred, expected))
        .is_err());
}

#[test]
fn without_an_expected_account_any_name_will_do() {
    let issuer = Issuer::new();
    let mut gate = issuer.gate().without_nonce();

    for extra in ["", r#","upn":"mallory@partnerx""#] {
        assert!(verify(&mut gate, &issuer.token(&claims(extra, NOW + 300))).is_ok());
    }
}

#[test]
fn a_refused_token_does_not_cost_the_login_its_nonce() {
    let issuer = Issuer::new();
    let mut gate = issuer.gate();
    gate.issued("n1");
    let expired = issuer.token(&claims(r#","nonce":"n1""#, NOW - 300));
    let valid = issuer.token(&claims(r#","nonce":"n1""#, NOW + 300));

    assert!(verify(&mut gate, &expired).is_err());
    assert!(verify(&mut gate, &valid).is_ok());
    assert_eq!(why(&mut gate, &valid), UNSENT);
}

#[test]
fn a_nonce_proves_one_token_and_another_nonce_another() {
    let issuer = Issuer::new();
    let mut gate = issuer.gate();
    gate.issued("n1");
    gate.issued("n2");
    let one = issuer.token(&claims(r#","nonce":"n1""#, NOW + 300));
    let like_it = issuer.token(&claims(r#","nonce":"n1""#, NOW + 301));
    let two = issuer.token(&claims(r#","nonce":"n2""#, NOW + 300));
    let unsent = issuer.token(&claims(r#","nonce":"n3""#, NOW + 300));

    assert!(verify(&mut gate, &one).is_ok());
    assert_eq!(why(&mut gate, &like_it), UNSENT);
    assert_eq!(why(&mut gate, &unsent), UNSENT);
    assert!(verify(&mut gate, &two).is_ok());
    gate.issued("n1");
    assert!(verify(&mut gate, &like_it).is_ok());
}

#[test]
fn a_nonce_sent_twice_proves_two_tokens() {
    let issuer = Issuer::new();
    let mut gate = issuer.gate();
    gate.issued("n1");
    gate.issued("n1");
    let token = issuer.token(&claims(r#","nonce":"n1""#, NOW + 300));

    assert!(verify(&mut gate, &token).is_ok());
    assert!(verify(&mut gate, &token).is_ok());
    assert_eq!(why(&mut gate, &token), UNSENT);
}

#[test]
fn the_oldest_nonce_is_forgotten_where_there_is_no_more_room() {
    let issuer = Issuer::new();
    let mut gate = issuer.gate();
    for i in 0..=4096 {
        gate.issued(&format!("n{i}"));
    }
    let with = |nonce: &str| issuer.token(&claims(&format!(r#","nonce":"{nonce}""#), NOW + 300));

    assert_eq!(why(&mut gate, &with("n0")), UNSENT);
    for nonce in ["n1", "n4096"] {
        assert!(verify(&mut gate, &with(nonce)).is_ok(), "{nonce}");
    }
}

#[test]
fn a_node_that_expects_no_nonce_records_none_and_takes_a_token_again() {
    let issuer = Issuer::new();
    let mut gate = issuer.gate().without_nonce();
    gate.issued("n1");
    let token = issuer.token(&claims(r#","nonce":"n2""#, NOW + 300));

    assert!(verify(&mut gate, &token).is_ok());
    assert!(verify(&mut gate, &token).is_ok());
}

#[test]
fn without_a_clock_of_its_own_a_verifier_goes_by_the_machine_s() {
    let issuer = Issuer::new();
    let mut gate = Verifier::new(issuer.jwks(), ISSUER, "xmip-node").without_nonce();

    assert!(verify(&mut gate, &issuer.token(&claims("", now() + 300))).is_ok());
    assert!(why(&mut gate, &issuer.token(&claims("", now() - 300))).contains("expired"));
}

#[test]
fn seconds_since_the_epoch_are_held_to_what_a_signed_number_can_be() {
    assert!(now() > 1_600_000_000);
    assert_eq!(signed_seconds(None), 0);
    assert_eq!(signed_seconds(Some(7)), 7);
    assert_eq!(signed_seconds(Some(i64::MAX as u64)), i64::MAX);
    assert_eq!(signed_seconds(Some(u64::MAX)), i64::MAX);
}

#[test]
fn claims_are_proved_at_the_time_that_is_given() {
    let issuer = Issuer::new();
    let mut gate = issuer.gate().without_nonce();
    let token = issuer.token(&claims("", NOW));
    let compact = gate
        .authentic(&presented(&token), read(&token))
        .expect("authentic");

    assert_eq!(
        gate.prove(&compact.claims, "partner-x", NOW + 60)
            .expect("proven"),
        Verified::Proven
    );
    assert!(gate.prove(&compact.claims, "partner-x", NOW + 61).is_err());
    assert_eq!(
        gate.prove(&compact.claims, "someone-else", NOW)
            .expect_err("refused")
            .message,
        "the ID token's subject is not the claimed value"
    );
}

#[test]
fn claims_besides_the_six_do_not_change_the_answer_on_them() {
    let issuer = Issuer::new();
    let mut gate = issuer.gate().without_nonce();
    let extra = r#","at_hash":"x","c_hash":"y","acr":"0","auth_time":1,"nonce":"n","upn":"a@b""#;

    for expiry in [NOW + 300, NOW - 300] {
        let bare = issuer.token(&claims("", expiry));
        let laden = issuer.token(&claims(extra, expiry));
        assert_eq!(
            verify(&mut gate, &bare).map_err(|error| error.message),
            verify(&mut gate, &laden).map_err(|error| error.message)
        );
    }
}

#[test]
fn no_more_tokens_are_proven_with_a_nonce_than_it_was_sent() {
    let issuer = Issuer::new();
    let mut gate = issuer.gate();
    let token = issuer.token(&claims(r#","nonce":"n1""#, NOW + 300));
    let mut proven = 0;

    for sent in 0..4 {
        for _ in 0..3 {
            if verify(&mut gate, &token).is_ok() {
                proven += 1;
            }
        }
        assert_eq!(proven, sent);
        gate.issued("n1");
    }
}
