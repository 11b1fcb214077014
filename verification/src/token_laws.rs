//! What a verifier's answer means, in terms of the token, the time and the
//! nonces alone.
use crate::authenticator::{is_early, is_expired, presentation_refusal, VerifierView};
use crate::jwks::{signature_refusal, Algorithm, MaterialView};
use crate::key_laws::law_a_signature_holds_as_its_scheme_decides;
use crate::nonces::with_issued;
use crate::signature::{p256_sha256_holds, rsa_sha256_holds};
use crate::text::decimal;
use crate::token::{
    account, reading, Account, Claims, ClaimsView, Compact, CompactView, Presented, PresentedView,
};
use vstd::prelude::*;
use vstd::utf8::encode_utf8;

verus! {

/// Each claim counts as it was read, and nothing else does.
pub proof fn law_claims_count_as_they_were_read(claims: Claims, text: Seq<char>, i: int)
    ensures
        claims@.iss == Some(text) <==> claims.iss is Some && claims.iss.unwrap()@ == text,
        claims@.azp == Some(text) <==> claims.azp is Some && claims.azp.unwrap()@ == text,
        claims@.sub == Some(text) <==> claims.sub is Some && claims.sub.unwrap()@ == text,
        claims@.nonce == Some(text) <==> claims.nonce is Some && claims.nonce.unwrap()@ == text,
        claims@.exp == claims.exp,
        claims@.nbf == claims.nbf,
        claims@.aud.len() == claims.aud@.len(),
        0 <= i < claims.aud@.len() ==> claims@.aud[i] == claims.aud@[i]@,
        claims@.upn is Some <==> claims.upn is Some,
        claims.upn matches Some(named) ==> {
            &&& claims@.upn.unwrap().name == named.name@
            &&& claims@.upn.unwrap().is_expected == named.is_expected
        },
        claims@.preferred_username is Some <==> claims.preferred_username is Some,
        claims.preferred_username matches Some(named) ==> {
            &&& claims@.preferred_username.unwrap().name == named.name@
            &&& claims@.preferred_username.unwrap().is_expected == named.is_expected
        },
{
}

/// A token counts as it was read: its header, what was signed, the signature
/// and the claims; and where it could not be read, the reason does.
pub proof fn law_a_token_counts_as_it_was_read(
    compact: Compact,
    text: Seq<char>,
    failure: String,
    named: Option<Account>,
)
    ensures
        compact@.algorithm == Some(text) <==> compact.algorithm is Some
            && compact.algorithm.unwrap()@ == text,
        compact@.key_id == Some(text) <==> compact.key_id is Some && compact.key_id.unwrap()@
            == text,
        compact@.signing_input == compact.signing_input@,
        compact@.signature == compact.signature@,
        compact@.claims == compact.claims@,
        reading(Ok(compact)) == Ok::<CompactView, Seq<char>>(compact@),
        reading(Err(failure)) == Err::<CompactView, Seq<char>>(failure@),
        account(named) is Some <==> named is Some,
        named matches Some(named) ==> account(Some(named)).unwrap().name == named.name@,
        named matches Some(named) ==> account(Some(named)).unwrap().is_expected
            == named.is_expected,
{
}

/// A claim is presented by its mechanism, with its value and its token.
pub proof fn law_a_claim_counts_as_it_was_presented(presented: Presented, text: Seq<char>)
    ensures
        presented@.mechanism == presented.mechanism@,
        presented@.value == presented.value@,
        presented@.token == Some(text) <==> presented.token is Some && presented.token.unwrap()@
            == text,
{
}

/// What is presented is looked into just where it is presented as oidc with a
/// token, whatever its value and whatever the token.
pub proof fn law_oidc_with_a_token_is_looked_into(presented: PresentedView)
    ensures
        presentation_refusal(presented) is None <==> presented.mechanism == "oidc"@
            && presented.token is Some,
        presented.mechanism != "oidc"@ ==> presentation_refusal(presented) == Some(
            "'"@ + presented.mechanism + "' was presented and this authenticator verifies oidc"@,
        ),
        presented.mechanism == "oidc"@ && presented.token is None ==> presentation_refusal(
            presented,
        ) == Some("no "@ + "oidc.token"@ + " proof was presented"@),
{
}

/// An expiry has passed just where the time is beyond it by more than the
/// leeway, and a start is yet to come just where it is beyond the time by more
/// than the leeway. The first time that there is has never passed and has
/// always come.
pub proof fn law_times_are_compared_as_integers(bound: i64, leeway: i64, now: i64)
    ensures
        is_expired(bound, leeway, now) <==> now > bound + leeway && now > i64::MIN,
        is_early(bound, leeway, now) <==> bound > now + leeway && bound > i64::MIN,
        i64::MIN <= bound + leeway <= i64::MAX ==> (is_expired(bound, leeway, now) <==> now > bound
            + leeway),
        i64::MIN <= now + leeway <= i64::MAX ==> (is_early(bound, leeway, now) <==> now + leeway
            < bound),
        bound + leeway > i64::MAX ==> !is_expired(bound, leeway, now),
        bound + leeway < i64::MIN ==> (is_expired(bound, leeway, now) <==> now > i64::MIN),
        now + leeway > i64::MAX ==> !is_early(bound, leeway, now),
        now + leeway < i64::MIN ==> (is_early(bound, leeway, now) <==> bound > i64::MIN),
{
}

/// The algorithm that a signature is checked under is the one that the header's
/// `alg` names, whatever else the header says, and the input is the text that
/// was signed, as UTF-8.
pub proof fn law_the_header_s_algorithm_decides(gate: VerifierView, compact: CompactView)
    ensures
        compact.algorithm == Some("RS256"@) ==> gate.signed_refusal(compact) == signature_refusal(
            gate.keys,
            Algorithm::Rs256,
            compact.key_id,
            encode_utf8(compact.signing_input),
            compact.signature,
        ),
        compact.algorithm == Some("ES256"@) ==> gate.signed_refusal(compact) == signature_refusal(
            gate.keys,
            Algorithm::Es256,
            compact.key_id,
            encode_utf8(compact.signing_input),
            compact.signature,
        ),
        compact.algorithm matches Some(name) ==> (name != "RS256"@ && name != "ES256"@
            ==> gate.signed_refusal(compact) == Some(
            "the ID token's algorithm '"@ + name
                + "' is not one this node verifies: RS256 and ES256 are"@,
        )),
        compact.algorithm is None ==> gate.signed_refusal(compact) == Some(
            "the ID token's algorithm '"@ + Seq::<char>::empty()
                + "' is not one this node verifies: RS256 and ES256 are"@,
        ),
{
    reveal_strlit("RS256");
    reveal_strlit("ES256");
    assert("RS256"@[0] != "ES256"@[0]);
}

/// A token's signature is accepted just where its header names RS256 and an RSA
/// key of the set verifies it, or names ES256 and a P-256 key does: the first
/// key of the id that the header names, where it names one.
pub proof fn law_a_token_is_signed_by_a_key_of_its_algorithm(
    gate: VerifierView,
    compact: CompactView,
)
    ensures
        gate.signed_refusal(compact) is None <==> exists|i: int|
            {
                &&& 0 <= i < gate.keys.len()
                &&& match (#[trigger] gate.keys[i]).material {
                    MaterialView::Rsa { n, e } => compact.algorithm == Some("RS256"@)
                        && rsa_sha256_holds(
                        n,
                        e,
                        encode_utf8(compact.signing_input),
                        compact.signature,
                    ),
                    MaterialView::P256 { x, y } => compact.algorithm == Some("ES256"@)
                        && p256_sha256_holds(
                        x,
                        y,
                        encode_utf8(compact.signing_input),
                        compact.signature,
                    ),
                }
                &&& compact.key_id is Some ==> {
                    &&& gate.keys[i].id == compact.key_id
                    &&& forall|j: int|
                        0 <= j < i ==> (#[trigger] gate.keys[j]).id != compact.key_id
                }
            },
{
    law_the_header_s_algorithm_decides(gate, compact);
    reveal_strlit("RS256");
    reveal_strlit("ES256");
    assert("RS256"@[0] != "ES256"@[0]);
    let input = encode_utf8(compact.signing_input);
    law_a_signature_holds_as_its_scheme_decides(
        gate.keys,
        Algorithm::Rs256,
        compact.key_id,
        input,
        compact.signature,
    );
    law_a_signature_holds_as_its_scheme_decides(
        gate.keys,
        Algorithm::Es256,
        compact.key_id,
        input,
        compact.signature,
    );
}

/// The first of a token's claims that fails is the one that is said, in the
/// order issuer, audience, authorized party, expiry, start, subject; and where
/// none fails there is nothing to say.
pub proof fn law_the_first_failing_claim_is_said(
    gate: VerifierView,
    claims: ClaimsView,
    subject: Seq<char>,
    now: i64,
)
    ensures
        ({
            let said = gate.claims_refusal(claims, subject, now);
            let issuer = claims.iss is Some && claims.iss.unwrap() == gate.issuer;
            let audience = exists|i: int|
                0 <= i < claims.aud.len() && #[trigger] claims.aud[i] == gate.client;
            let party = claims.azp is None || claims.azp.unwrap() == gate.client;
            let unexpired = claims.exp is Some && (now <= claims.exp.unwrap() + gate.leeway || now
                == i64::MIN);
            let begun = claims.nbf is None || claims.nbf.unwrap() <= now + gate.leeway
                || claims.nbf.unwrap() == i64::MIN;
            let meant = claims.sub is Some && claims.sub.unwrap() == subject;
            &&& said is None <==> issuer && audience && party && unexpired && begun && meant
            &&& !issuer ==> said == Some("the ID token's issuer is not '"@ + gate.issuer + "'"@)
            &&& issuer && !audience ==> said == Some(
                "the ID token's audience does not name this node's client id '"@ + gate.client
                    + "'"@,
            )
            &&& issuer && audience && !party ==> said == Some(
                "the ID token was issued to '"@ + claims.azp.unwrap() + "' (azp) and not to '"@
                    + gate.client + "'"@,
            )
            &&& issuer && audience && party && claims.exp is None ==> said == Some(
                "the ID token carries no `exp` and OIDC requires one"@,
            )
            &&& issuer && audience && party && claims.exp is Some && !unexpired ==> said == Some(
                "the ID token expired at "@ + decimal(claims.exp.unwrap() as int)
                    + " and it is "@ + decimal(now as int),
            )
            &&& issuer && audience && party && unexpired && !begun ==> said == Some(
                "the ID token is not valid before "@ + decimal(claims.nbf.unwrap() as int)
                    + " and it is "@ + decimal(now as int),
            )
            &&& issuer && audience && party && unexpired && begun && !meant ==> said == Some(
                "the ID token's subject is not the claimed value"@,
            )
        }),
{
    if claims.exp is Some {
        law_times_are_compared_as_integers(claims.exp.unwrap(), gate.leeway, now);
    }
    if claims.nbf is Some {
        law_times_are_compared_as_integers(claims.nbf.unwrap(), gate.leeway, now);
    }
}

/// Where an account is expected, the token's `upn` must be it where that reads
/// as a name, and its `preferred_username` must be it where it does not; where
/// none is expected, nothing is asked.
pub proof fn law_the_account_is_the_one_expected(gate: VerifierView, claims: ClaimsView)
    ensures
        gate.principal is None ==> gate.principal_refusal(claims) is None,
        gate.principal matches Some(expected) ==> {
            &&& claims.upn matches Some(named) ==> gate.principal_refusal(claims)
                == if named.is_expected {
                None
            } else {
                Some(
                    "the ID token names '"@ + named.name + "' and this node expects '"@ + expected
                        + "'"@,
                )
            }
            &&& claims.upn is None ==> (claims.preferred_username matches Some(named)
                ==> gate.principal_refusal(claims) == if named.is_expected {
                None
            } else {
                Some(
                    "the ID token names '"@ + named.name + "' and this node expects '"@ + expected
                        + "'"@,
                )
            })
            &&& claims.upn is None && claims.preferred_username is None ==> gate.principal_refusal(
                claims,
            ) == Some(
                "the ID token carries no user principal name in `upn` or `preferred_username` and this node expects '"@
                    + expected + "'"@,
            )
        },
{
}

/// Where nonces are expected, the token must carry one that is outstanding,
/// wherever among them it stands; where none is, nothing is asked.
pub proof fn law_the_nonce_is_outstanding(gate: VerifierView, claims: ClaimsView)
    ensures
        gate.nonces is None ==> gate.nonce_refusal(claims) is None,
        gate.nonces is Some && claims.nonce is None ==> gate.nonce_refusal(claims) == Some(
            "the ID token carries no nonce and this node expects the one it sent"@,
        ),
        gate.nonces is Some && claims.nonce is Some ==> {
            let outstanding = exists|i: int|
                0 <= i < gate.nonces.unwrap().len() && #[trigger] gate.nonces.unwrap()[i]
                    == claims.nonce.unwrap();
            &&& outstanding ==> gate.nonce_refusal(claims) is None
            &&& !outstanding ==> gate.nonce_refusal(claims) == Some(
                "the ID token's nonce is not one this node has outstanding: never sent, or already spent"@,
            )
        },
{
}

/// What is said first is what was presented, then the reading of the token, its
/// signature, its claims, the account it names and its nonce; later ones do not
/// count where an earlier one fails.
pub proof fn law_the_order_of_what_is_said(
    gate: VerifierView,
    presented: PresentedView,
    compact: CompactView,
    failure: Seq<char>,
    now: i64,
)
    ensures
        presentation_refusal(presented) is Some ==> {
            &&& gate.authentic_refusal(presented, Ok(compact)) == presentation_refusal(presented)
            &&& gate.authentic_refusal(presented, Err(failure)) == presentation_refusal(presented)
            &&& gate.refusal_at(presented, Ok(compact), now) == presentation_refusal(presented)
            &&& gate.refusal_at(presented, Err(failure), now) == presentation_refusal(presented)
        },
        presentation_refusal(presented) is None ==> {
            &&& gate.authentic_refusal(presented, Err(failure)) == Some(failure)
            &&& gate.refusal_at(presented, Err(failure), now) == Some(failure)
            &&& gate.authentic_refusal(presented, Ok(compact)) == gate.signed_refusal(compact)
            &&& gate.signed_refusal(compact) is Some ==> gate.refusal_at(
                presented,
                Ok(compact),
                now,
            ) == gate.signed_refusal(compact)
            &&& gate.signed_refusal(compact) is None ==> gate.refusal_at(
                presented,
                Ok(compact),
                now,
            ) == gate.proof_refusal(compact.claims, presented.value, now)
        },
        ({
            let claims = compact.claims;
            let said = gate.proof_refusal(claims, presented.value, now);
            let first = gate.claims_refusal(claims, presented.value, now);
            let second = gate.principal_refusal(claims);
            &&& first is Some ==> said == first
            &&& first is None && second is Some ==> said == second
            &&& first is None && second is None ==> said == gate.nonce_refusal(claims)
        }),
{
}

/// A token is proven just where all of this holds, and nothing else is asked:
/// it is presented as oidc and was read; its header names RS256
/// and an RSA key of the set verifies its signature, or ES256 and a P-256 key
/// does, the first of the id that the header names where it names one; its
/// issuer is the one trusted; its audience names the client id and an authorized
/// party is that client id; it has an expiry, the time is not beyond it by more
/// than the leeway, and a start is not beyond the time by more than the leeway;
/// its subject is the claimed value; it names the account where one is expected;
/// and it carries an outstanding nonce where nonces are.
pub proof fn law_what_it_takes_to_be_proven(
    gate: VerifierView,
    presented: PresentedView,
    compact: CompactView,
    now: i64,
)
    ensures
        gate.refusal_at(presented, Ok(compact), now) is None <==> {
            &&& presented.mechanism == "oidc"@
            &&& presented.token is Some
            &&& exists|i: int|
                {
                    &&& 0 <= i < gate.keys.len()
                    &&& match (#[trigger] gate.keys[i]).material {
                        MaterialView::Rsa { n, e } => compact.algorithm == Some("RS256"@)
                            && rsa_sha256_holds(
                            n,
                            e,
                            encode_utf8(compact.signing_input),
                            compact.signature,
                        ),
                        MaterialView::P256 { x, y } => compact.algorithm == Some("ES256"@)
                            && p256_sha256_holds(
                            x,
                            y,
                            encode_utf8(compact.signing_input),
                            compact.signature,
                        ),
                    }
                    &&& compact.key_id is Some ==> {
                        &&& gate.keys[i].id == compact.key_id
                        &&& forall|j: int|
                            0 <= j < i ==> (#[trigger] gate.keys[j]).id != compact.key_id
                    }
                }
            &&& compact.claims.iss == Some(gate.issuer)
            &&& compact.claims.aud.contains(gate.client)
            &&& compact.claims.azp is Some ==> compact.claims.azp.unwrap() == gate.client
            &&& compact.claims.exp is Some
            &&& now <= compact.claims.exp.unwrap() + gate.leeway || now == i64::MIN
            &&& compact.claims.nbf is Some ==> compact.claims.nbf.unwrap() <= now + gate.leeway
                || compact.claims.nbf.unwrap() == i64::MIN
            &&& compact.claims.sub == Some(presented.value)
            &&& gate.principal is Some && compact.claims.upn is Some
                ==> compact.claims.upn.unwrap().is_expected
            &&& gate.principal is Some && compact.claims.upn is None
                ==> compact.claims.preferred_username is Some
                && compact.claims.preferred_username.unwrap().is_expected
            &&& gate.nonces is Some ==> compact.claims.nonce is Some
                && gate.nonces.unwrap().contains(compact.claims.nonce.unwrap())
        },
{
    law_a_token_is_signed_by_a_key_of_its_algorithm(gate, compact);
    law_the_first_failing_claim_is_said(gate, compact.claims, presented.value, now);
    law_the_account_is_the_one_expected(gate, compact.claims);
    law_the_nonce_is_outstanding(gate, compact.claims);
}

/// A token that could not be read is never proven.
pub proof fn law_an_unread_token_is_refused(
    gate: VerifierView,
    presented: PresentedView,
    failure: Seq<char>,
    now: i64,
)
    ensures
        gate.refusal_at(presented, Err(failure), now) is Some,
        gate.after(presented, Err(failure), now) == gate,
{
}

/// A proven token takes the oldest of the nonces like its own from among the
/// outstanding ones, and leaves the others in their order and all else as it
/// was. A refused token, and one proven where no nonce is expected, changes
/// nothing.
pub proof fn law_what_a_presented_token_changes(
    gate: VerifierView,
    presented: PresentedView,
    compact: CompactView,
    now: i64,
)
    ensures
        gate.refusal_at(presented, Ok(compact), now) is Some ==> gate.after(
            presented,
            Ok(compact),
            now,
        ) == gate,
        gate.nonces is None ==> gate.after(presented, Ok(compact), now) == gate,
        gate.refusal_at(presented, Ok(compact), now) is None && gate.nonces is Some ==> {
            let held = gate.nonces.unwrap();
            exists|at: int|
                {
                    &&& 0 <= at < held.len()
                    &&& #[trigger] held[at] == compact.claims.nonce.unwrap()
                    &&& forall|j: int|
                        0 <= j < at ==> #[trigger] held[j] != compact.claims.nonce.unwrap()
                    &&& gate.after(presented, Ok(compact), now) == (VerifierView {
                        nonces: Some(
                            held.subrange(0, at) + held.subrange(at + 1, held.len() as int),
                        ),
                        ..gate
                    })
                }
        },
{
    if gate.refusal_at(presented, Ok(compact), now) is None && gate.nonces is Some {
        let held = gate.nonces.unwrap();
        let nonce = compact.claims.nonce.unwrap();
        held.index_of_first_ensures(nonce);
        let at = held.index_of_first(nonce).unwrap();
        assert(held[at] == nonce);
        assert(gate.after(presented, Ok(compact), now) == (VerifierView {
            nonces: Some(held.subrange(0, at) + held.subrange(at + 1, held.len() as int)),
            ..gate
        }));
    }
}

/// Proving the claims of a signed token answers, and changes, just what
/// presenting the token does.
pub proof fn law_proving_is_what_is_left_of_presenting(
    gate: VerifierView,
    presented: PresentedView,
    compact: CompactView,
    now: i64,
)
    requires
        gate.authentic_refusal(presented, Ok(compact)) is None,
    ensures
        gate.proof_refusal(compact.claims, presented.value, now) == gate.refusal_at(
            presented,
            Ok(compact),
            now,
        ),
        gate.after_proof(compact.claims, presented.value, now) == gate.after(
            presented,
            Ok(compact),
            now,
        ),
{
}

/// What proving the claims of a token changes is the nonces alone, and those
/// only where the claims are proven: the oldest of the nonces like the token's
/// own is taken, and the others stay in their order.
pub proof fn law_what_proving_changes(
    gate: VerifierView,
    claims: ClaimsView,
    subject: Seq<char>,
    now: i64,
)
    ensures
        gate.proof_refusal(claims, subject, now) is Some ==> gate.after_proof(claims, subject, now)
            == gate,
        gate.nonces is None ==> gate.after_proof(claims, subject, now) == gate,
        gate.proof_refusal(claims, subject, now) is None && gate.nonces is Some ==> {
            let held = gate.nonces.unwrap();
            exists|at: int|
                {
                    &&& 0 <= at < held.len()
                    &&& #[trigger] held[at] == claims.nonce.unwrap()
                    &&& forall|j: int| 0 <= j < at ==> #[trigger] held[j] != claims.nonce.unwrap()
                    &&& gate.after_proof(claims, subject, now) == (VerifierView {
                        nonces: Some(
                            held.subrange(0, at) + held.subrange(at + 1, held.len() as int),
                        ),
                        ..gate
                    })
                }
        },
{
    if gate.proof_refusal(claims, subject, now) is None && gate.nonces is Some {
        let held = gate.nonces.unwrap();
        let nonce = claims.nonce.unwrap();
        held.index_of_first_ensures(nonce);
        let at = held.index_of_first(nonce).unwrap();
        assert(held[at] == nonce);
        assert(gate.after_proof(claims, subject, now) == (VerifierView {
            nonces: Some(held.subrange(0, at) + held.subrange(at + 1, held.len() as int)),
            ..gate
        }));
    }
}

/// A nonce that is sent becomes the newest, whatever it is. The others stay, in
/// their order, unless there are 4096 of them: then the oldest is forgotten, and
/// no other. Where nonces are not expected none is recorded.
pub proof fn law_a_sent_nonce_becomes_the_newest(gate: VerifierView, nonce: Seq<char>)
    ensures
        gate.nonces is None ==> gate.with_nonce(nonce) == gate,
        gate.nonces matches Some(held) ==> {
            let next = gate.with_nonce(nonce).nonces.unwrap();
            &&& gate.with_nonce(nonce) == (VerifierView { nonces: Some(next), ..gate })
            &&& next == with_issued(held, nonce)
            &&& next.len() > 0 && next.last() == nonce
            &&& held.len() < 4096 ==> next.len() == held.len() + 1 && (forall|i: int|
                0 <= i < held.len() ==> next[i] == #[trigger] held[i])
            &&& held.len() >= 4096 ==> next.len() == held.len() && (forall|i: int|
                1 <= i < held.len() ==> next[i - 1] == #[trigger] held[i])
        },
{
}

} // verus!
