//! What is presented to a verifier, and what was read of an ID token.
use crate::text::{chars, each_chars};
use vstd::prelude::*;

verus! {

/// The proof the identify sibling attaches the compact ID token under.
pub const TOKEN: &'static str = "oidc.token";

/// The name of the mechanism that is verified.
pub const MECHANISM: &'static str = "oidc";

/// A claim as it was presented.
pub struct Presented {
    /// The name of the mechanism it was presented by.
    pub mechanism: String,
    /// The claimed value.
    pub value: String,
    /// The proof attached under [`TOKEN`], where there is one.
    pub token: Option<String>,
}

/// A presented claim, as its characters.
pub struct PresentedView {
    pub mechanism: Seq<char>,
    pub value: Seq<char>,
    pub token: Option<Seq<char>>,
}

impl View for Presented {
    type V = PresentedView;

    open spec fn view(&self) -> PresentedView {
        PresentedView {
            mechanism: self.mechanism@,
            value: self.value@,
            token: chars(self.token),
        }
    }
}

/// An account that a claim names, where the claim reads as a user principal
/// name.
pub struct Account {
    /// How the name is displayed.
    pub name: String,
    /// Whether it is the account the node expects, whichever way either was
    /// spelled.
    pub is_expected: bool,
}

/// An account that a claim names, its name as characters.
pub struct AccountView {
    pub name: Seq<char>,
    pub is_expected: bool,
}

impl View for Account {
    type V = AccountView;

    open spec fn view(&self) -> AccountView {
        AccountView { name: self.name@, is_expected: self.is_expected }
    }
}

/// The view of an optional account.
pub open spec fn account(named: Option<Account>) -> Option<AccountView> {
    match named {
        Some(named) => Some(named@),
        None => None,
    }
}

/// The claims of an ID token that this verifier looks at.
pub struct Claims {
    pub iss: Option<String>,
    /// The audiences: the claim's texts, whether it is one or a list.
    pub aud: Vec<String>,
    pub azp: Option<String>,
    pub exp: Option<i64>,
    pub nbf: Option<i64>,
    pub sub: Option<String>,
    pub nonce: Option<String>,
    pub upn: Option<Account>,
    pub preferred_username: Option<Account>,
}

/// The claims of an ID token, texts as their characters.
pub struct ClaimsView {
    pub iss: Option<Seq<char>>,
    pub aud: Seq<Seq<char>>,
    pub azp: Option<Seq<char>>,
    pub exp: Option<i64>,
    pub nbf: Option<i64>,
    pub sub: Option<Seq<char>>,
    pub nonce: Option<Seq<char>>,
    pub upn: Option<AccountView>,
    pub preferred_username: Option<AccountView>,
}

impl View for Claims {
    type V = ClaimsView;

    open spec fn view(&self) -> ClaimsView {
        ClaimsView {
            iss: chars(self.iss),
            aud: each_chars(self.aud@),
            azp: chars(self.azp),
            exp: self.exp,
            nbf: self.nbf,
            sub: chars(self.sub),
            nonce: chars(self.nonce),
            upn: account(self.upn),
            preferred_username: account(self.preferred_username),
        }
    }
}

/// An ID token as it was read: its header, what was signed, the signature,
/// and its claims.
pub struct Compact {
    /// The `alg` of the header.
    pub algorithm: Option<String>,
    /// The `kid` of the header.
    pub key_id: Option<String>,
    /// The text that the signature is over.
    pub signing_input: String,
    pub signature: Vec<u8>,
    pub claims: Claims,
}

/// An ID token as it was read, texts as their characters.
pub struct CompactView {
    pub algorithm: Option<Seq<char>>,
    pub key_id: Option<Seq<char>>,
    pub signing_input: Seq<char>,
    pub signature: Seq<u8>,
    pub claims: ClaimsView,
}

impl View for Compact {
    type V = CompactView;

    open spec fn view(&self) -> CompactView {
        CompactView {
            algorithm: chars(self.algorithm),
            key_id: chars(self.key_id),
            signing_input: self.signing_input@,
            signature: self.signature@,
            claims: self.claims@,
        }
    }
}

/// What came of reading a token: the token, or why it could not be read.
pub open spec fn reading(read: Result<Compact, String>) -> Result<CompactView, Seq<char>> {
    match read {
        Ok(compact) => Ok(compact@),
        Err(failure) => Err(failure@),
    }
}

/// How far a presented claim is verified.
#[derive(Clone, Copy, Debug, PartialEq, Eq, Structural)]
pub enum Verified {
    /// The claim was proven.
    Proven,
}

} // verus!
