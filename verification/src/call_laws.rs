//! What each operation does, said of its arguments and its result.
use crate::authenticator::{presentation_refusal, Verifier, VerifierView};
use crate::base64url::{decode, decoded};
use crate::clock::{is_reading, now, signed_seconds, Clock, SystemClock};
use crate::error::{refusal, AuthenticateError};
use crate::json::read;
use crate::jwks::{
    key_set, key_set_of, signature_refusal, Algorithm, Jwks, KeyView, Listed, ListedView,
    MaterialView,
};
use crate::key_laws::law_a_signature_holds_as_its_scheme_decides;
use crate::nonces::Nonces;
use crate::signature::{p256_sha256_holds, rsa_sha256_holds};
use crate::token::{reading, Claims, Compact, Presented, Verified};
use crate::token_laws::{
    law_a_token_is_signed_by_a_key_of_its_algorithm, law_the_first_failing_claim_is_said,
    law_what_a_presented_token_changes, law_what_it_takes_to_be_proven, law_what_proving_changes,
};
use vstd::prelude::*;
use vstd::utf8::encode_utf8;

verus! {

/// A new verifier expects a nonce and none is outstanding, expects no account,
/// grants sixty seconds and goes by the machine's clock.
pub proof fn law_a_new_verifier(
    keys: Jwks,
    issuer: &str,
    client: &str,
    gate: Verifier<SystemClock>,
)
    ensures
        call_requires(Verifier::<SystemClock>::new, (keys, issuer, client)),
        call_ensures(Verifier::<SystemClock>::new, (keys, issuer, client), gate) ==> {
            &&& gate@.keys == keys@
            &&& gate@.issuer == issuer@
            &&& gate@.client == client@
            &&& gate@.nonces == Some(Seq::<Seq<char>>::empty())
            &&& gate@.principal is None
            &&& gate@.leeway == 60
            &&& gate.clock() == SystemClock
        },
{
}

/// Each setting of a verifier is just what was asked for, and leaves the other
/// settings as they were.
pub proof fn law_settings_are_what_was_asked_for<C>(
    gate: Verifier<C>,
    next: Verifier<C>,
    principal: &str,
    seconds: i64,
)
    ensures
        call_requires(Verifier::<C>::without_nonce, (gate,)),
        call_ensures(Verifier::<C>::without_nonce, (gate,), next) ==> {
            &&& next@ == (VerifierView { nonces: None, ..gate@ })
            &&& next.clock() == gate.clock()
        },
        call_requires(Verifier::<C>::expecting_principal, (gate, principal)),
        call_ensures(Verifier::<C>::expecting_principal, (gate, principal), next) ==> {
            &&& next@ == (VerifierView { principal: Some(principal@), ..gate@ })
            &&& next.clock() == gate.clock()
        },
        call_requires(Verifier::<C>::with_leeway, (gate, seconds)),
        call_ensures(Verifier::<C>::with_leeway, (gate, seconds), next) ==> {
            &&& next@ == (VerifierView { leeway: seconds, ..gate@ })
            &&& next.clock() == gate.clock()
        },
{
}

/// A verifier that is given a clock reads just what that clock gives, and is
/// otherwise as it was.
pub proof fn law_the_clock_is_the_one_given<C, F: Fn() -> i64>(
    gate: Verifier<C>,
    clock: F,
    next: Verifier<F>,
    seconds: i64,
)
    ensures
        call_requires(Verifier::<C>::with_clock::<F>, (gate, clock)),
        call_ensures(Verifier::<C>::with_clock::<F>, (gate, clock), next) ==> {
            &&& next@ == gate@
            &&& next.clock() == clock
            &&& next.clock().is_readable() <==> call_requires(clock, ())
            &&& next.clock().may_read(seconds) <==> call_ensures(clock, (), seconds)
        },
{
}

/// A nonce that is spent was outstanding, and one that is outstanding can be
/// spent: the oldest like it is then gone, and the others stay in their order.
/// Where it is not outstanding nothing changes.
pub proof fn law_a_nonce_is_spent_where_it_is_outstanding(
    nonces: &mut Nonces,
    nonce: &str,
    spent: bool,
)
    ensures
        call_requires(Nonces::spend, (nonces, nonce)),
        call_ensures(Nonces::spend, (nonces, nonce), spent) ==> {
            &&& spent <==> exists|at: int|
                0 <= at < old(nonces)@.len() && #[trigger] old(nonces)@[at] == nonce@
            &&& spent ==> exists|at: int|
                {
                    &&& 0 <= at < old(nonces)@.len()
                    &&& #[trigger] old(nonces)@[at] == nonce@
                    &&& forall|j: int| 0 <= j < at ==> #[trigger] old(nonces)@[j] != nonce@
                    &&& final(nonces)@ == old(nonces)@.subrange(0, at) + old(nonces)@.subrange(
                        at + 1,
                        old(nonces)@.len() as int,
                    )
                }
            &&& !spent ==> final(nonces)@ == old(nonces)@
        },
{
    let held = old(nonces)@;
    held.index_of_first_ensures(nonce@);
    if held.contains(nonce@) {
        let at = held.index_of_first(nonce@).unwrap();
        assert(held[at] == nonce@);
        assert(held.remove_value(nonce@) =~= held.subrange(0, at) + held.subrange(
            at + 1,
            held.len() as int,
        ));
    }
}

/// None is outstanding at first. A nonce that is issued becomes the newest; the
/// oldest is forgotten where there are 4096 already, and no other ever is.
pub proof fn law_an_issued_nonce_is_the_newest(nonces: &mut Nonces, nonce: &str, first: Nonces)
    ensures
        call_requires(Nonces::new, ()),
        call_ensures(Nonces::new, (), first) ==> first@.len() == 0,
        call_requires(Nonces::issue, (nonces, nonce)),
        call_ensures(Nonces::issue, (nonces, nonce), ()) ==> {
            let (before, after) = (old(nonces)@, final(nonces)@);
            &&& after.len() > 0 && after.last() == nonce@
            &&& before.len() < 4096 ==> after.len() == before.len() + 1 && (forall|i: int|
                0 <= i < before.len() ==> after[i] == #[trigger] before[i])
            &&& before.len() >= 4096 ==> after.len() == before.len() && (forall|i: int|
                1 <= i < before.len() ==> after[i - 1] == #[trigger] before[i])
            &&& after.len() <= 4096
        },
{
}

/// A verifier that expects nonces records each that was sent, and changes in
/// nothing else.
pub proof fn law_a_sent_nonce_is_recorded<C>(gate: &mut Verifier<C>, nonce: &str)
    ensures
        call_requires(Verifier::<C>::issued, (gate, nonce)),
        call_ensures(Verifier::<C>::issued, (gate, nonce), ()) ==> {
            &&& old(gate)@.nonces is None ==> final(gate)@ == old(gate)@
            &&& old(gate)@.nonces matches Some(before) ==> {
                let after = final(gate)@.nonces.unwrap();
                &&& final(gate)@ == (VerifierView { nonces: Some(after), ..old(gate)@ })
                &&& after.len() > 0 && after.last() == nonce@
                &&& before.len() < 4096 ==> after.len() == before.len() + 1 && (forall|i: int|
                    0 <= i < before.len() ==> after[i] == #[trigger] before[i])
                &&& before.len() >= 4096 ==> after.len() == before.len() && (forall|i: int|
                    1 <= i < before.len() ==> after[i - 1] == #[trigger] before[i])
                &&& after.len() <= 4096
            }
            &&& final(gate).clock() == old(gate).clock()
        },
{
}

/// The name of an algorithm is the one that it is known by.
pub proof fn law_algorithms_and_their_names(
    name: &str,
    named: Option<Algorithm>,
    algorithm: Algorithm,
    told: &'static str,
)
    ensures
        call_requires(Algorithm::named, (name,)),
        call_ensures(Algorithm::named, (name,), named) ==> {
            &&& named == Some(Algorithm::Rs256) <==> name@ == "RS256"@
            &&& named == Some(Algorithm::Es256) <==> name@ == "ES256"@
        },
        call_requires(Algorithm::name, (algorithm,)),
        call_ensures(Algorithm::name, (algorithm,), told) ==> {
            &&& algorithm == Algorithm::Rs256 ==> told@ == "RS256"@
            &&& algorithm == Algorithm::Es256 ==> told@ == "ES256"@
        },
{
    reveal_strlit("RS256");
    reveal_strlit("ES256");
    assert("RS256"@[0] != "ES256"@[0]);
}

/// A list of keys loads as the set that it lists, or is refused with the reason;
/// a document does so with what it is read as.
pub proof fn law_a_set_is_what_was_listed(
    listed: &Vec<Listed>,
    document: &str,
    set: Result<Jwks, AuthenticateError>,
)
    ensures
        call_requires(Jwks::from_listed, (listed,)),
        call_ensures(Jwks::from_listed, (listed,), set) ==> {
            let members = Seq::<ListedView>::new(listed@.len(), |i: int| listed@[i]@);
            &&& set matches Ok(set) ==> key_set(members) == Ok::<Seq<KeyView>, Seq<char>>(set@)
            &&& set matches Err(error) ==> key_set(members) == Err::<Seq<KeyView>, Seq<char>>(
                error.message@,
            )
        },
        call_requires(Jwks::parse, (document,)),
        call_ensures(Jwks::parse, (document,), set) ==> {
            &&& set matches Ok(set) ==> key_set_of(read(document@)) == Ok::<
                Seq<KeyView>,
                Seq<char>,
            >(set@)
            &&& set matches Err(error) ==> key_set_of(read(document@)) == Err::<
                Seq<KeyView>,
                Seq<char>,
            >(error.message@)
        },
{
    assert(listed@.map_values(|key: Listed| key@) =~= Seq::<ListedView>::new(
        listed@.len(),
        |i: int| listed@[i]@,
    ));
}

/// A set tells how many keys it holds, and a copy of it holds the same keys.
pub proof fn law_a_set_holds_its_keys(set: &Jwks, len: usize, empty: bool, copy: Jwks)
    ensures
        call_requires(Jwks::len, (set,)),
        call_ensures(Jwks::len, (set,), len) ==> len == set@.len() && len > 0,
        call_requires(Jwks::is_empty, (set,)),
        call_ensures(Jwks::is_empty, (set,), empty) ==> !empty && set@.len() > 0,
        call_ensures(Jwks::clone, (set,), copy) ==> copy@ == set@,
{
}

/// A set accepts a signature just where one of its keys of the algorithm
/// verifies it, by the scheme of that key's kind: the first of the id that is
/// named, where one is.
pub proof fn law_a_set_accepts_what_its_keys_verify(
    set: &Jwks,
    algorithm: Algorithm,
    key_id: Option<&str>,
    input: &[u8],
    signature: &[u8],
    result: Result<(), AuthenticateError>,
)
    ensures
        call_requires(Jwks::verify, (set, algorithm, key_id, input, signature)),
        call_ensures(Jwks::verify, (set, algorithm, key_id, input, signature), result) ==> {
            &&& result is Ok <==> exists|i: int|
                {
                    &&& 0 <= i < set@.len()
                    &&& match (#[trigger] set@[i]).material {
                        MaterialView::Rsa { n, e } => algorithm == Algorithm::Rs256
                            && rsa_sha256_holds(n, e, input@, signature@),
                        MaterialView::P256 { x, y } => algorithm == Algorithm::Es256
                            && p256_sha256_holds(x, y, input@, signature@),
                    }
                    &&& key_id matches Some(id) ==> {
                        &&& set@[i].id == Some(id@)
                        &&& forall|j: int| 0 <= j < i ==> (#[trigger] set@[j]).id != Some(id@)
                    }
                }
            &&& result matches Err(error) ==> {
                &&& key_id is None ==> signature_refusal(
                    set@,
                    algorithm,
                    None,
                    input@,
                    signature@,
                ) == Some(error.message@)
                &&& key_id matches Some(id) ==> signature_refusal(
                    set@,
                    algorithm,
                    Some(id@),
                    input@,
                    signature@,
                ) == Some(error.message@)
            }
        },
{
    let named = match key_id {
        Some(id) => Some(id@),
        None => None,
    };
    law_a_signature_holds_as_its_scheme_decides(set@, algorithm, named, input@, signature@);
}

/// Text is decoded just where it is base64url, to the bytes that it carries; and
/// a refusal says just what it was given to say.
pub proof fn law_decoding_and_refusing(
    text: &str,
    bytes: Option<Vec<u8>>,
    message: String,
    error: AuthenticateError,
)
    ensures
        call_requires(decode, (text,)),
        call_ensures(decode, (text,), bytes) ==> {
            &&& bytes is Some <==> decoded(text@) is Some
            &&& bytes matches Some(bytes) ==> decoded(text@).unwrap() == bytes@
        },
        call_requires(AuthenticateError::new, (message,)),
        call_ensures(AuthenticateError::new, (message,), error) ==> error.message@ == message@,
{
}

/// Seconds since the Unix epoch are told as they are where they fit in a signed
/// number, as the largest there is where they do not, and as zero where there
/// are none; and now is a reading of the machine's clock.
pub proof fn law_the_time_is_told_as_it_is(since: Option<u64>, seconds: i64)
    ensures
        call_requires(signed_seconds, (since,)),
        call_ensures(signed_seconds, (since,), seconds) ==> {
            &&& since is None ==> seconds == 0
            &&& since matches Some(whole) ==> (whole <= i64::MAX ==> seconds == whole)
            &&& since matches Some(whole) ==> (whole > i64::MAX ==> seconds == i64::MAX)
        },
        call_requires(now, ()),
        call_ensures(now, (), seconds) ==> seconds >= 0 && is_reading(seconds),
        call_ensures(SystemClock::seconds, (&SystemClock,), seconds) ==> seconds >= 0
            && is_reading(seconds),
{
}

/// The mechanism is oidc, and the token that is looked into is the one that was
/// presented: any that was, where it was presented as oidc.
pub proof fn law_the_presented_token_is_looked_into<C>(
    gate: &Verifier<C>,
    presented: &Presented,
    name: &'static str,
    token: Result<&str, AuthenticateError>,
)
    ensures
        call_requires(Verifier::<C>::mechanism, (gate,)),
        call_ensures(Verifier::<C>::mechanism, (gate,), name) ==> name@ == "oidc"@,
        call_requires(Verifier::<C>::token, (gate, presented)),
        call_ensures(Verifier::<C>::token, (gate, presented), token) ==> {
            &&& token is Ok <==> presented.mechanism@ == "oidc"@ && presented.token is Some
            &&& token matches Ok(text) ==> presented.token.unwrap()@ == text@
            &&& token matches Err(error) ==> error.message@
                == if presented.mechanism@ != "oidc"@ {
                "'"@ + presented.mechanism@
                    + "' was presented and this authenticator verifies oidc"@
            } else {
                "no "@ + "oidc.token"@ + " proof was presented"@
            }
        },
{
}

/// A token is authentic just where it was presented as oidc, was read, and a
/// key of the set verifies its signature under the algorithm that its header
/// names: the first of the id that the header names, where it names one. What
/// comes back is the token that was read.
pub proof fn law_what_makes_a_token_authentic<C>(
    gate: &Verifier<C>,
    presented: &Presented,
    read: Result<Compact, String>,
    token: Result<Compact, AuthenticateError>,
)
    ensures
        call_requires(Verifier::<C>::authentic, (gate, presented, read)),
        call_ensures(Verifier::<C>::authentic, (gate, presented, read), token) ==> {
            &&& token is Ok <==> {
                &&& presented.mechanism@ == "oidc"@
                &&& presented.token is Some
                &&& read is Ok
                &&& exists|i: int|
                    {
                        let compact = read->Ok_0;
                        &&& 0 <= i < gate@.keys.len()
                        &&& compact.algorithm is Some
                        &&& match (#[trigger] gate@.keys[i]).material {
                            MaterialView::Rsa { n, e } => compact.algorithm.unwrap()@ == "RS256"@
                                && rsa_sha256_holds(
                                n,
                                e,
                                encode_utf8(compact.signing_input@),
                                compact.signature@,
                            ),
                            MaterialView::P256 { x, y } => compact.algorithm.unwrap()@ == "ES256"@
                                && p256_sha256_holds(
                                x,
                                y,
                                encode_utf8(compact.signing_input@),
                                compact.signature@,
                            ),
                        }
                        &&& compact.key_id matches Some(id) ==> {
                            &&& gate@.keys[i].id == Some(id@)
                            &&& forall|j: int|
                                0 <= j < i ==> (#[trigger] gate@.keys[j]).id != Some(id@)
                        }
                    }
            }
            &&& token matches Ok(compact) ==> compact@ == read->Ok_0@
            &&& token matches Err(error) ==> {
                &&& presentation_refusal(presented@) is Some ==> presentation_refusal(presented@)
                    == Some(error.message@)
                &&& presentation_refusal(presented@) is None ==> (read matches Err(failure)
                    ==> error.message@ == failure@)
                &&& presentation_refusal(presented@) is None ==> (read matches Ok(compact)
                    ==> gate@.signed_refusal(compact@) == Some(error.message@))
            }
        },
{
    if let Ok(compact) = read {
        law_a_token_is_signed_by_a_key_of_its_algorithm(gate@, compact@);
    }
}

/// The claims of a signed token prove a value just where the issuer is the one
/// trusted, the audience names the client id and an authorized party is that
/// client id, there is an expiry that the time is not beyond by more than the
/// leeway, a start is not beyond the time by more than the leeway, the subject
/// is the value, the account is the one expected where one is, and the nonce is
/// outstanding where nonces are expected.
pub proof fn law_what_claims_prove<C>(
    gate: &mut Verifier<C>,
    claims: &Claims,
    subject: &str,
    now: i64,
    verified: Result<Verified, AuthenticateError>,
)
    ensures
        call_requires(Verifier::<C>::prove, (gate, claims, subject, now)),
        call_ensures(Verifier::<C>::prove, (gate, claims, subject, now), verified) ==> {
            let gate_then = old(gate)@;
            &&& verified is Ok <==> {
                &&& claims.iss is Some && claims.iss.unwrap()@ == gate_then.issuer
                &&& exists|i: int|
                    0 <= i < claims.aud@.len() && (#[trigger] claims.aud@[i])@ == gate_then.client
                &&& claims.azp matches Some(party) ==> party@ == gate_then.client
                &&& claims.exp is Some && (now <= claims.exp.unwrap() + gate_then.leeway || now
                    == i64::MIN)
                &&& claims.nbf matches Some(start) ==> start <= now + gate_then.leeway || start
                    == i64::MIN
                &&& claims.sub is Some && claims.sub.unwrap()@ == subject@
                &&& gate_then.principal is Some ==> {
                    &&& claims.upn matches Some(named) ==> named.is_expected
                    &&& claims.upn is None ==> claims.preferred_username is Some
                        && claims.preferred_username.unwrap().is_expected
                }
                &&& gate_then.nonces matches Some(held) ==> claims.nonce is Some && held.contains(
                    claims.nonce.unwrap()@,
                )
            }
            &&& verified matches Err(error) ==> {
                &&& gate_then.proof_refusal(claims@, subject@, now) == Some(error.message@)
                &&& final(gate)@ == gate_then
            }
            &&& gate_then.nonces is None ==> final(gate)@ == gate_then
            &&& verified is Ok ==> (gate_then.nonces matches Some(held) ==> exists|at: int|
                {
                    &&& 0 <= at < held.len()
                    &&& #[trigger] held[at] == claims.nonce.unwrap()@
                    &&& forall|j: int|
                        0 <= j < at ==> #[trigger] held[j] != claims.nonce.unwrap()@
                    &&& final(gate)@ == (VerifierView {
                        nonces: Some(
                            held.subrange(0, at) + held.subrange(at + 1, held.len() as int),
                        ),
                        ..gate_then
                    })
                })
            &&& final(gate).clock() == old(gate).clock()
        },
{
    law_the_first_failing_claim_is_said(old(gate)@, claims@, subject@, now);
    law_what_proving_changes(old(gate)@, claims@, subject@, now);
    let client = old(gate)@.client;
    assert forall|i: int| 0 <= i < claims.aud@.len() implies (#[trigger] claims.aud@[i])@
        == claims@.aud[i] by {}
    assert((exists|i: int| 0 <= i < claims@.aud.len() && #[trigger] claims@.aud[i] == client)
        <==> exists|i: int|
        0 <= i < claims.aud@.len() && (#[trigger] claims.aud@[i])@ == client) by {
        if exists|i: int| 0 <= i < claims@.aud.len() && #[trigger] claims@.aud[i] == client {
            let i = choose|i: int|
                0 <= i < claims@.aud.len() && #[trigger] claims@.aud[i] == client;
            assert(claims.aud@[i]@ == client);
        }
    }
}

/// A presented token proves its claim just where it is authentic and its claims
/// prove the claimed value at a time that the clock reads. The verifier then
/// loses the token's nonce where nonces are expected. Where the token is refused
/// the verifier is as it was.
pub proof fn law_what_verifying_does<C: Clock>(
    gate: &mut Verifier<C>,
    presented: &Presented,
    read: Result<Compact, String>,
    verified: Result<Verified, AuthenticateError>,
)
    ensures
        old(gate).clock().is_readable() ==> call_requires(
            Verifier::<C>::verify,
            (gate, presented, read),
        ),
        call_ensures(Verifier::<C>::verify, (gate, presented, read), verified) ==> {
            let gate_then = old(gate)@;
            let signed = exists|i: int|
                {
                    let compact = read->Ok_0;
                    &&& 0 <= i < gate_then.keys.len()
                    &&& compact.algorithm is Some
                    &&& match (#[trigger] old(gate)@.keys[i]).material {
                        MaterialView::Rsa { n, e } => compact.algorithm.unwrap()@ == "RS256"@
                            && rsa_sha256_holds(
                            n,
                            e,
                            encode_utf8(compact.signing_input@),
                            compact.signature@,
                        ),
                        MaterialView::P256 { x, y } => compact.algorithm.unwrap()@ == "ES256"@
                            && p256_sha256_holds(
                            x,
                            y,
                            encode_utf8(compact.signing_input@),
                            compact.signature@,
                        ),
                    }
                    &&& compact.key_id matches Some(id) ==> {
                        &&& old(gate)@.keys[i].id == Some(id@)
                        &&& forall|j: int|
                            0 <= j < i ==> (#[trigger] old(gate)@.keys[j]).id != Some(id@)
                    }
                };
            let authentic = presented.mechanism@ == "oidc"@ && presented.token is Some && read is Ok
                && signed;
            let claims = read->Ok_0.claims;
            &&& !authentic ==> verified is Err
            &&& verified is Err ==> final(gate)@ == gate_then
            &&& authentic ==> exists|now: i64|
                {
                    &&& #[trigger] old(gate).clock().may_read(now)
                    &&& verified matches Err(error) ==> gate_then.proof_refusal(
                        claims@,
                        presented.value@,
                        now,
                    ) == Some(error.message@)
                    &&& verified is Ok <==> {
                        &&& claims.iss is Some && claims.iss.unwrap()@ == gate_then.issuer
                        &&& claims@.aud.contains(gate_then.client)
                        &&& claims.azp matches Some(party) ==> party@ == gate_then.client
                        &&& claims.exp is Some && (now <= claims.exp.unwrap() + gate_then.leeway
                            || now == i64::MIN)
                        &&& claims.nbf matches Some(start) ==> start <= now + gate_then.leeway
                            || start == i64::MIN
                        &&& claims.sub is Some && claims.sub.unwrap()@ == presented.value@
                        &&& gate_then.principal is Some ==> {
                            &&& claims.upn matches Some(named) ==> named.is_expected
                            &&& claims.upn is None ==> claims.preferred_username is Some
                                && claims.preferred_username.unwrap().is_expected
                        }
                        &&& gate_then.nonces matches Some(held) ==> claims.nonce is Some
                            && held.contains(claims.nonce.unwrap()@)
                    }
                }
            &&& gate_then.nonces is None ==> final(gate)@ == gate_then
            &&& verified is Ok ==> (gate_then.nonces matches Some(held) ==> exists|at: int|
                {
                    &&& 0 <= at < held.len()
                    &&& #[trigger] held[at] == claims.nonce.unwrap()@
                    &&& forall|j: int|
                        0 <= j < at ==> #[trigger] held[j] != claims.nonce.unwrap()@
                    &&& final(gate)@ == (VerifierView {
                        nonces: Some(
                            held.subrange(0, at) + held.subrange(at + 1, held.len() as int),
                        ),
                        ..gate_then
                    })
                })
            &&& final(gate).clock() == old(gate).clock()
        },
{
    if let Ok(compact) = read {
        law_a_token_is_signed_by_a_key_of_its_algorithm(old(gate)@, compact@);
        if call_ensures(Verifier::<C>::verify, (gate, presented, read), verified)
            && old(gate)@.authentic_refusal(presented@, reading(read)) is None {
            let now = choose|now: i64|
                {
                    &&& #[trigger] old(gate).clock().may_read(now)
                    &&& refusal(verified) == old(gate)@.refusal_at(presented@, reading(read), now)
                    &&& final(gate)@ == old(gate)@.after(presented@, reading(read), now)
                };
            law_what_it_takes_to_be_proven(old(gate)@, presented@, compact@, now);
            law_what_a_presented_token_changes(old(gate)@, presented@, compact@, now);
        }
    }
}

} // verus!
