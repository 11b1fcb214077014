//! The oidc authenticator.
use crate::clock::{Clock, SystemClock};
use crate::error::{refusal, AuthenticateError};
use crate::jwks::{signature_refusal, Algorithm, Jwks, KeyView};
use crate::nonces::{with_issued, Nonces, OUTSTANDING};
use crate::text::{append_decimal, chars, decimal, is_text, same};
use crate::token::{
    reading, Claims, ClaimsView, Compact, CompactView, Presented, PresentedView, Verified,
    MECHANISM, TOKEN,
};
use vstd::prelude::*;
use vstd::string::StringExecFns;
use vstd::utf8::encode_utf8;

verus! {

/// What a verifier goes by: the issuer's keys, the issuer, the client id the
/// node is known to it by, the outstanding nonces where nonces are expected,
/// the account where one is expected, and the leeway in seconds.
pub struct VerifierView {
    pub keys: Seq<KeyView>,
    pub issuer: Seq<char>,
    pub client: Seq<char>,
    pub nonces: Option<Seq<Seq<char>>>,
    pub principal: Option<Seq<char>>,
    pub leeway: i64,
}

/// A number, held to the nearest that a signed time can be.
pub open spec fn saturated(n: int) -> int {
    if n > i64::MAX {
        i64::MAX as int
    } else if n < i64::MIN {
        i64::MIN as int
    } else {
        n
    }
}

/// Whether an expiry has passed, the leeway granted.
pub open spec fn is_expired(exp: i64, leeway: i64, now: i64) -> bool {
    now > saturated(exp + leeway)
}

/// Whether a time has yet to come, the leeway granted.
pub open spec fn is_early(nbf: i64, leeway: i64, now: i64) -> bool {
    saturated(now + leeway) < nbf
}

/// Why what was presented is not looked into: it is another mechanism's, or
/// it carries no token.
pub open spec fn presentation_refusal(presented: PresentedView) -> Option<Seq<char>> {
    if presented.mechanism != MECHANISM@ {
        Some(
            "'"@ + presented.mechanism
                + "' was presented and this authenticator verifies oidc"@,
        )
    } else if presented.token is None {
        Some("no "@ + TOKEN@ + " proof was presented"@)
    } else {
        None
    }
}

/// The name that a token's header gives its algorithm, empty where it gives
/// none.
pub open spec fn algorithm_name(compact: CompactView) -> Seq<char> {
    match compact.algorithm {
        Some(name) => name,
        None => Seq::empty(),
    }
}

impl VerifierView {
    /// Why a token's signature is refused: the algorithm is not one of the
    /// two, or the issuer's keys do not verify it.
    pub open spec fn signed_refusal(self, compact: CompactView) -> Option<Seq<char>> {
        match Algorithm::spec_named(algorithm_name(compact)) {
            None => Some(
                "the ID token's algorithm '"@ + algorithm_name(compact)
                    + "' is not one this node verifies: RS256 and ES256 are"@,
            ),
            Some(algorithm) => signature_refusal(
                self.keys,
                algorithm,
                compact.key_id,
                encode_utf8(compact.signing_input),
                compact.signature,
            ),
        }
    }

    /// Why a presented token is refused before the time is asked for.
    pub open spec fn authentic_refusal(
        self,
        presented: PresentedView,
        read: Result<CompactView, Seq<char>>,
    ) -> Option<Seq<char>> {
        match presentation_refusal(presented) {
            Some(message) => Some(message),
            None => match read {
                Err(failure) => Some(failure),
                Ok(compact) => self.signed_refusal(compact),
            },
        }
    }

    /// Why a token's claims are refused: the first of these that does not
    /// hold. The issuer is the one trusted, the audience names the client id,
    /// an authorized party is that client id, there is an expiry and it has
    /// not passed, a start has come, and the subject is the claimed value.
    pub open spec fn claims_refusal(
        self,
        claims: ClaimsView,
        subject: Seq<char>,
        now: i64,
    ) -> Option<Seq<char>> {
        if claims.iss != Some(self.issuer) {
            Some("the ID token's issuer is not '"@ + self.issuer + "'"@)
        } else if !claims.aud.contains(self.client) {
            Some(
                "the ID token's audience does not name this node's client id '"@ + self.client
                    + "'"@,
            )
        } else if claims.azp is Some && claims.azp != Some(self.client) {
            Some(
                "the ID token was issued to '"@ + claims.azp.unwrap() + "' (azp) and not to '"@
                    + self.client + "'"@,
            )
        } else if claims.exp is None {
            Some("the ID token carries no `exp` and OIDC requires one"@)
        } else if is_expired(claims.exp.unwrap(), self.leeway, now) {
            Some(
                "the ID token expired at "@ + decimal(claims.exp.unwrap() as int)
                    + " and it is "@ + decimal(now as int),
            )
        } else if claims.nbf is Some && is_early(claims.nbf.unwrap(), self.leeway, now) {
            Some(
                "the ID token is not valid before "@ + decimal(claims.nbf.unwrap() as int)
                    + " and it is "@ + decimal(now as int),
            )
        } else if claims.sub != Some(subject) {
            Some("the ID token's subject is not the claimed value"@)
        } else {
            None
        }
    }

    /// Why the account that a token names is refused: one is expected, and
    /// the token's `upn`, else its `preferred_username`, does not name it.
    pub open spec fn principal_refusal(self, claims: ClaimsView) -> Option<Seq<char>> {
        match self.principal {
            None => None,
            Some(expected) => {
                let named = if claims.upn is Some {
                    claims.upn
                } else {
                    claims.preferred_username
                };
                match named {
                    Some(named) => if named.is_expected {
                        None
                    } else {
                        Some(
                            "the ID token names '"@ + named.name + "' and this node expects '"@
                                + expected + "'"@,
                        )
                    },
                    None => Some(
                        "the ID token carries no user principal name in `upn` or `preferred_username` and this node expects '"@
                            + expected + "'"@,
                    ),
                }
            },
        }
    }

    /// Why a token's nonce is refused: nonces are expected, and the token
    /// carries none that is outstanding.
    pub open spec fn nonce_refusal(self, claims: ClaimsView) -> Option<Seq<char>> {
        match (self.nonces, claims.nonce) {
            (None, _) => None,
            (Some(_), None) => Some(
                "the ID token carries no nonce and this node expects the one it sent"@,
            ),
            (Some(outstanding), Some(nonce)) => if outstanding.contains(nonce) {
                None
            } else {
                Some(
                    "the ID token's nonce is not one this node has outstanding: never sent, or already spent"@,
                )
            },
        }
    }

    /// The verifier once a token's nonce is spent: its oldest like it is no
    /// longer outstanding.
    pub open spec fn with_spent(self, claims: ClaimsView) -> VerifierView {
        match (self.nonces, claims.nonce) {
            (Some(outstanding), Some(nonce)) => VerifierView {
                nonces: Some(outstanding.remove_value(nonce)),
                ..self
            },
            _ => self,
        }
    }

    /// Why a signed token is refused: its claims, then the account it names,
    /// then its nonce.
    pub open spec fn proof_refusal(
        self,
        claims: ClaimsView,
        subject: Seq<char>,
        now: i64,
    ) -> Option<Seq<char>> {
        match self.claims_refusal(claims, subject, now) {
            Some(message) => Some(message),
            None => match self.principal_refusal(claims) {
                Some(message) => Some(message),
                None => self.nonce_refusal(claims),
            },
        }
    }

    /// The verifier once a signed token was looked at: a nonce is spent where the
    /// token is proven, and nothing changes where it is refused.
    pub open spec fn after_proof(self, claims: ClaimsView, subject: Seq<char>, now: i64) -> VerifierView {
        if self.proof_refusal(claims, subject, now) is None {
            self.with_spent(claims)
        } else {
            self
        }
    }

    /// Why a presented token is refused at a given time.
    pub open spec fn refusal_at(
        self,
        presented: PresentedView,
        read: Result<CompactView, Seq<char>>,
        now: i64,
    ) -> Option<Seq<char>> {
        match self.authentic_refusal(presented, read) {
            Some(message) => Some(message),
            None => self.proof_refusal(read->Ok_0.claims, presented.value, now),
        }
    }

    /// The verifier once a presented token was looked at, at a given time.
    pub open spec fn after(
        self,
        presented: PresentedView,
        read: Result<CompactView, Seq<char>>,
        now: i64,
    ) -> VerifierView {
        if self.authentic_refusal(presented, read) is None {
            self.after_proof(read->Ok_0.claims, presented.value, now)
        } else {
            self
        }
    }

    /// The verifier once the node has sent another nonce.
    pub open spec fn with_nonce(self, nonce: Seq<char>) -> VerifierView {
        match self.nonces {
            Some(outstanding) => VerifierView { nonces: Some(with_issued(outstanding, nonce)), ..self },
            None => self,
        }
    }
}

/// The oidc authenticator: one issuer, its keys as the node holds them, and
/// the client id the node is known to that issuer by.
pub struct Verifier<C> {
    keys: Jwks,
    issuer: String,
    client: String,
    nonces: Option<Nonces>,
    principal: Option<String>,
    leeway: i64,
    clock: C,
}

impl<C> View for Verifier<C> {
    type V = VerifierView;

    closed spec fn view(&self) -> VerifierView {
        VerifierView {
            keys: self.keys@,
            issuer: self.issuer@,
            client: self.client@,
            nonces: match self.nonces {
                Some(nonces) => Some(nonces@),
                None => None,
            },
            principal: chars(self.principal),
            leeway: self.leeway,
        }
    }
}

/// The sum of two times, held to what a signed time can be.
fn saturating_sum(a: i64, b: i64) -> (sum: i64)
    ensures
        sum as int == saturated(a + b),
{
    let sum: i128 = a as i128 + b as i128;
    if sum > i64::MAX as i128 {
        i64::MAX
    } else if sum < i64::MIN as i128 {
        i64::MIN
    } else {
        sum as i64
    }
}

/// Whether a list of texts holds a text.
fn lists(texts: &Vec<String>, text: &str) -> (found: bool)
    ensures
        found == crate::text::each_chars(texts@).contains(text@),
{
    let mut i: usize = 0;
    while i < texts.len()
        invariant
            i <= texts@.len(),
            forall|j: int| 0 <= j < i ==> (#[trigger] texts@[j])@ != text@,
        decreases texts.len() - i,
    {
        if same(texts[i].as_str(), text) {
            assert(crate::text::each_chars(texts@)[i as int] == text@);
            return true;
        }
        i += 1;
    }
    assert forall|j: int| 0 <= j < texts@.len() implies crate::text::each_chars(texts@)[j]
        != text@ by {
        assert(texts@[j]@ != text@);
    }
    false
}

impl Verifier<SystemClock> {
    /// Verifies tokens from `issuer` for the client id `client` against
    /// `keys`, requiring an outstanding nonce, with sixty seconds of leeway.
    #[must_use]
    pub fn new(keys: Jwks, issuer: &str, client: &str) -> (gate: Self)
        ensures
            gate@ == (VerifierView {
                keys: keys@,
                issuer: issuer@,
                client: client@,
                nonces: Some(Seq::empty()),
                principal: None,
                leeway: 60,
            }),
            gate.clock() == SystemClock,
    {
        Verifier {
            keys,
            issuer: issuer.to_string(),
            client: client.to_string(),
            nonces: Some(Nonces::new()),
            principal: None,
            leeway: 60,
            clock: SystemClock,
        }
    }
}

impl<C> Verifier<C> {
    /// The clock that the verifier goes by.
    pub closed spec fn clock(&self) -> C {
        self.clock
    }

    /// Take tokens the node never asked for: no nonce is expected, and a
    /// token may be presented again until it expires.
    #[must_use]
    pub fn without_nonce(self) -> (gate: Self)
        ensures
            gate@ == (VerifierView { nonces: None, ..self@ }),
            gate.clock() == self.clock(),
    {
        Verifier { nonces: None, ..self }
    }

    /// Expect the token to name an account in its `upn`, else in its
    /// `preferred_username`. The account is given as it is displayed; which
    /// names are spellings of it comes with the token.
    #[must_use]
    pub fn expecting_principal(self, principal: &str) -> (gate: Self)
        ensures
            gate@ == (VerifierView { principal: Some(principal@), ..self@ }),
            gate.clock() == self.clock(),
    {
        Verifier { principal: Some(principal.to_string()), ..self }
    }

    /// How far a clock may be off before `exp` and `nbf` bite.
    #[must_use]
    pub fn with_leeway(self, seconds: i64) -> (gate: Self)
        ensures
            gate@ == (VerifierView { leeway: seconds, ..self@ }),
            gate.clock() == self.clock(),
    {
        Verifier { leeway: seconds, ..self }
    }

    /// Where the time comes from.
    #[must_use]
    pub fn with_clock<F: Fn() -> i64>(self, clock: F) -> (gate: Verifier<F>)
        ensures
            gate@ == self@,
            gate.clock() == clock,
            gate.clock().is_readable() == call_requires(clock, ()),
            forall|seconds: i64| #[trigger]
                gate.clock().may_read(seconds) == call_ensures(clock, (), seconds),
    {
        Verifier {
            keys: self.keys,
            issuer: self.issuer,
            client: self.client,
            nonces: self.nonces,
            principal: self.principal,
            leeway: self.leeway,
            clock,
        }
    }

    /// Record a nonce the node sent in an authentication request. It proves
    /// one token and is then spent. Nothing is recorded where the verifier
    /// was built [`without_nonce`](Self::without_nonce).
    pub fn issued(&mut self, nonce: &str)
        ensures
            final(self)@ == old(self)@.with_nonce(nonce@),
            final(self)@.nonces matches Some(outstanding) ==> outstanding.len() <= OUTSTANDING,
            final(self).clock() == old(self).clock(),
    {
        if let Some(nonces) = &mut self.nonces {
            nonces.issue(nonce);
        }
    }

    /// The name of the mechanism that this authenticator verifies.
    pub fn mechanism(&self) -> (name: &'static str)
        ensures
            name@ == MECHANISM@,
    {
        MECHANISM
    }

    /// The token that was presented.
    ///
    /// # Errors
    ///
    /// Where another mechanism was presented, or no token.
    pub fn token<'a>(&self, presented: &'a Presented) -> (token: Result<&'a str, AuthenticateError>)
        ensures
            refusal(token) == presentation_refusal(presented@),
            token matches Ok(text) ==> presented@.token == Some(text@),
    {
        if !same(presented.mechanism.as_str(), self.mechanism()) {
            return Err(
                AuthenticateError::new(
                    "'".to_string().concat(presented.mechanism.as_str()).concat(
                        "' was presented and this authenticator verifies oidc",
                    ),
                ),
            );
        }
        match &presented.token {
            Some(token) => Ok(token.as_str()),
            None => Err(
                AuthenticateError::new(
                    "no ".to_string().concat(TOKEN).concat(" proof was presented"),
                ),
            ),
        }
    }

    /// Check the token's signature against the issuer's keys.
    fn check_signature(&self, compact: &Compact) -> (result: Result<(), AuthenticateError>)
        ensures
            refusal(result) == self@.signed_refusal(compact@),
    {
        let named = match &compact.algorithm {
            Some(name) => name.as_str(),
            None => {
                proof {
                    reveal_strlit("");
                    assert(""@ =~= Seq::<char>::empty());
                }
                ""
            },
        };
        let algorithm = match Algorithm::named(named) {
            Some(algorithm) => algorithm,
            None => {
                return Err(
                    AuthenticateError::new(
                        "the ID token's algorithm '".to_string().concat(named).concat(
                            "' is not one this node verifies: RS256 and ES256 are",
                        ),
                    ),
                );
            },
        };
        let key_id = match &compact.key_id {
            Some(id) => Some(id.as_str()),
            None => None,
        };
        self.keys.verify(
            algorithm,
            key_id,
            compact.signing_input.as_str().as_bytes(),
            compact.signature.as_slice(),
        )
    }

    fn check_claims(&self, claims: &Claims, subject: &str, now: i64) -> (result: Result<
        (),
        AuthenticateError,
    >)
        ensures
            refusal(result) == self@.claims_refusal(claims@, subject@, now),
    {
        if !is_text(&claims.iss, self.issuer.as_str()) {
            return Err(
                AuthenticateError::new(
                    "the ID token's issuer is not '".to_string().concat(
                        self.issuer.as_str(),
                    ).concat("'"),
                ),
            );
        }
        if !lists(&claims.aud, self.client.as_str()) {
            return Err(
                AuthenticateError::new(
                    "the ID token's audience does not name this node's client id '".to_string().concat(
                    self.client.as_str()).concat("'"),
                ),
            );
        }
        if let Some(party) = &claims.azp {
            if !same(party.as_str(), self.client.as_str()) {
                return Err(
                    AuthenticateError::new(
                        "the ID token was issued to '".to_string().concat(party.as_str()).concat(
                            "' (azp) and not to '",
                        ).concat(self.client.as_str()).concat("'"),
                    ),
                );
            }
        }
        let expiry: i64 = match claims.exp {
            Some(expiry) => expiry,
            None => {
                return Err(
                    AuthenticateError::fixed("the ID token carries no `exp` and OIDC requires one"),
                );
            },
        };
        if now > saturating_sum(expiry, self.leeway) {
            let mut message = "the ID token expired at ".to_string();
            append_decimal(&mut message, expiry);
            message.append(" and it is ");
            append_decimal(&mut message, now);
            return Err(AuthenticateError::new(message));
        }
        if let Some(not_before) = claims.nbf {
            if saturating_sum(now, self.leeway) < not_before {
                let mut message = "the ID token is not valid before ".to_string();
                append_decimal(&mut message, not_before);
                message.append(" and it is ");
                append_decimal(&mut message, now);
                return Err(AuthenticateError::new(message));
            }
        }
        if !is_text(&claims.sub, subject) {
            return Err(
                AuthenticateError::fixed("the ID token's subject is not the claimed value"),
            );
        }
        Ok(())
    }

    /// Where an account is expected, the token names it.
    fn check_principal(&self, claims: &Claims) -> (result: Result<(), AuthenticateError>)
        ensures
            refusal(result) == self@.principal_refusal(claims@),
    {
        let expected = match &self.principal {
            Some(expected) => expected,
            None => return Ok(()),
        };
        let named = match &claims.upn {
            Some(named) => Some(named),
            None => match &claims.preferred_username {
                Some(named) => Some(named),
                None => None,
            },
        };
        match named {
            Some(named) => if named.is_expected {
                Ok(())
            } else {
                Err(
                    AuthenticateError::new(
                        "the ID token names '".to_string().concat(named.name.as_str()).concat(
                            "' and this node expects '",
                        ).concat(expected.as_str()).concat("'"),
                    ),
                )
            },
            None => Err(
                AuthenticateError::new(
                    "the ID token carries no user principal name in `upn` or `preferred_username` and this node expects '".to_string().concat(
                    expected.as_str()).concat("'"),
                ),
            ),
        }
    }

    /// Spend the token's nonce. Last, so a token that fails another check
    /// does not cost the login its nonce.
    fn spend_nonce(&mut self, claims: &Claims) -> (result: Result<(), AuthenticateError>)
        ensures
            refusal(result) == old(self)@.nonce_refusal(claims@),
            final(self)@ == if result is Ok {
                old(self)@.with_spent(claims@)
            } else {
                old(self)@
            },
            final(self).clock() == old(self).clock(),
    {
        match &mut self.nonces {
            None => Ok(()),
            Some(nonces) => match &claims.nonce {
                None => Err(
                    AuthenticateError::fixed(
                        "the ID token carries no nonce and this node expects the one it sent",
                    ),
                ),
                Some(nonce) => {
                    proof {
                        nonces@.index_of_first_ensures(nonce@);
                    }
                    if nonces.spend(nonce.as_str()) {
                        Ok(())
                    } else {
                        Err(
                            AuthenticateError::fixed(
                                "the ID token's nonce is not one this node has outstanding: never sent, or already spent",
                            ),
                        )
                    }
                },
            },
        }
    }

    /// Check that a token was presented, was read, and was signed by the
    /// issuer.
    ///
    /// # Errors
    ///
    /// Where what was presented carries no token of this mechanism, the token
    /// could not be read, or its signature does not verify.
    pub fn authentic(&self, presented: &Presented, read: Result<Compact, String>) -> (token: Result<
        Compact,
        AuthenticateError,
    >)
        ensures
            refusal(token) == self@.authentic_refusal(presented@, reading(read)),
            token matches Ok(compact) ==> reading(read) == Ok::<CompactView, Seq<char>>(compact@),
    {
        match self.token(presented) {
            Err(error) => return Err(error),
            Ok(_) => {},
        }
        let compact = match read {
            Ok(compact) => compact,
            Err(failure) => return Err(AuthenticateError::new(failure)),
        };
        match self.check_signature(&compact) {
            Ok(()) => Ok(compact),
            Err(error) => Err(error),
        }
    }

    /// Prove a claimed value by the claims of a signed token, at a given time.
    ///
    /// # Errors
    ///
    /// Where the claims are not for this node and now, name another account
    /// than the one expected, or carry no outstanding nonce.
    pub fn prove(&mut self, claims: &Claims, subject: &str, now: i64) -> (verified: Result<
        Verified,
        AuthenticateError,
    >)
        ensures
            refusal(verified) == old(self)@.proof_refusal(claims@, subject@, now),
            final(self)@ == old(self)@.after_proof(claims@, subject@, now),
            final(self).clock() == old(self).clock(),
    {
        match self.check_claims(claims, subject, now) {
            Err(error) => return Err(error),
            Ok(()) => {},
        }
        match self.check_principal(claims) {
            Err(error) => return Err(error),
            Ok(()) => {},
        }
        match self.spend_nonce(claims) {
            Err(error) => return Err(error),
            Ok(()) => {},
        }
        Ok(Verified::Proven)
    }
}

impl<C: Clock> Verifier<C> {
    /// Verify a presented claim by its token, with what came of reading that
    /// token. The clock is read once, where the token is the issuer's.
    ///
    /// # Errors
    ///
    /// Where the token could not be read, is not the issuer's, or does not
    /// prove the claim.
    pub fn verify(&mut self, presented: &Presented, read: Result<Compact, String>) -> (verified:
        Result<Verified, AuthenticateError>)
        requires
            old(self).clock().is_readable(),
        ensures
            old(self)@.authentic_refusal(presented@, reading(read)) is Some ==> {
                &&& refusal(verified) == old(self)@.authentic_refusal(presented@, reading(read))
                &&& final(self)@ == old(self)@
            },
            old(self)@.authentic_refusal(presented@, reading(read)) is None ==> exists|now: i64|
                {
                    &&& #[trigger] old(self).clock().may_read(now)
                    &&& refusal(verified) == old(self)@.refusal_at(presented@, reading(read), now)
                    &&& final(self)@ == old(self)@.after(presented@, reading(read), now)
                },
            final(self).clock() == old(self).clock(),
    {
        let compact = match self.authentic(presented, read) {
            Ok(compact) => compact,
            Err(error) => return Err(error),
        };
        let now: i64 = self.clock.seconds();
        self.prove(&compact.claims, presented.value.as_str(), now)
    }
}

} // verus!
