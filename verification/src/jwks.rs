//! The issuer's published keys: a JSON Web Key Set, held and never fetched.
//!
//! RFC 7517 publishes keys as `{"keys":[...]}`, each a JSON object naming its
//! type, and `OpenID Connect` Discovery points at the document through
//! `jwks_uri`. This node is offline by default (ADR-0045), so the document is
//! configuration: whoever installs the issuer's trust copies the set in, and
//! rotates it the same way. Of what a set may carry, this reads RSA keys
//! (`kty` `RSA`, `n` and `e`) for RS256 and P-256 keys (`kty` `EC`, `crv`
//! `P-256`, `x` and `y`) for ES256. A key marked `"use":"enc"` is not a
//! signing key and is passed over, as is a key of any other type; a set with
//! no key this verifier can use is refused when it is loaded, not at the first
//! token.
use crate::base64url::{decode, decoded};
use crate::error::{outcome, refusal, AuthenticateError};
use crate::json::{as_array, from_str, get, held, read, text_member, Json};
use crate::signature::{
    is_p256_point, is_rsa_key, p256_point_is_on_curve, p256_sha256_holds, p256_verify,
    rsa_key_is_usable, rsa_sha256_holds, rsa_verify,
};
use crate::text::{chars, copied, is_text, same};
use vstd::prelude::*;
use vstd::string::StringExecFns;

verus! {

/// One of the two signature algorithms that are verified.
#[derive(Clone, Copy, Debug, PartialEq, Eq, Structural)]
pub enum Algorithm {
    /// RSASSA-PKCS1-v1_5 over SHA-256, which OIDC Core makes the default.
    Rs256,
    /// ECDSA on P-256 over SHA-256.
    Es256,
}

impl Algorithm {
    /// The `alg` name, as its characters.
    pub open spec fn spec_name(self) -> Seq<char> {
        match self {
            Algorithm::Rs256 => "RS256"@,
            Algorithm::Es256 => "ES256"@,
        }
    }

    /// The algorithm of a given name, where it is one of the two.
    pub open spec fn spec_named(name: Seq<char>) -> Option<Algorithm> {
        if name == "RS256"@ {
            Some(Algorithm::Rs256)
        } else if name == "ES256"@ {
            Some(Algorithm::Es256)
        } else {
            None
        }
    }

    /// The algorithm an `alg` header names, where it is one of the two.
    #[must_use]
    pub fn named(name: &str) -> (algorithm: Option<Self>)
        ensures
            algorithm == Algorithm::spec_named(name@),
    {
        if same(name, "RS256") {
            Some(Algorithm::Rs256)
        } else if same(name, "ES256") {
            Some(Algorithm::Es256)
        } else {
            None
        }
    }

    /// The `alg` name.
    #[must_use]
    pub fn name(self) -> (name: &'static str)
        ensures
            name@ == self.spec_name(),
    {
        match self {
            Algorithm::Rs256 => "RS256",
            Algorithm::Es256 => "ES256",
        }
    }
}

/// The numbers that a published key is made of, as bytes.
enum Material {
    Rsa { n: Vec<u8>, e: Vec<u8> },
    P256 { x: Vec<u8>, y: Vec<u8> },
}

struct Key {
    id: Option<String>,
    material: Material,
}

/// The numbers that a published key is made of: an RSA modulus and exponent,
/// or the coordinates of a P-256 point.
pub enum MaterialView {
    Rsa { n: Seq<u8>, e: Seq<u8> },
    P256 { x: Seq<u8>, y: Seq<u8> },
}

/// A published key: the id that tokens name it by, where it has one, and what
/// it is made of.
pub struct KeyView {
    pub id: Option<Seq<char>>,
    pub material: MaterialView,
}

impl KeyView {
    /// The algorithm that the key serves.
    pub open spec fn algorithm(self) -> Algorithm {
        match self.material {
            MaterialView::Rsa { .. } => Algorithm::Rs256,
            MaterialView::P256 { .. } => Algorithm::Es256,
        }
    }

    /// Whether a signature over an input holds under the key.
    pub open spec fn holds(self, input: Seq<u8>, signature: Seq<u8>) -> bool {
        match self.material {
            MaterialView::Rsa { n, e } => rsa_sha256_holds(n, e, input, signature),
            MaterialView::P256 { x, y } => p256_sha256_holds(x, y, input, signature),
        }
    }

    /// Whether the key's numbers make a key at all.
    pub open spec fn is_usable(self) -> bool {
        match self.material {
            MaterialView::Rsa { n, e } => is_rsa_key(n, e),
            MaterialView::P256 { x, y } => x.len() == 32 && y.len() == 32 && is_p256_point(x, y),
        }
    }
}

impl View for Material {
    type V = MaterialView;

    closed spec fn view(&self) -> MaterialView {
        match *self {
            Material::Rsa { n, e } => MaterialView::Rsa { n: n@, e: e@ },
            Material::P256 { x, y } => MaterialView::P256 { x: x@, y: y@ },
        }
    }
}

impl View for Key {
    type V = KeyView;

    closed spec fn view(&self) -> KeyView {
        KeyView { id: chars(self.id), material: self.material@ }
    }
}

impl Clone for Material {
    fn clone(&self) -> (copy: Self)
        ensures
            copy@ == self@,
    {
        match self {
            Material::Rsa { n, e } => Material::Rsa { n: n.clone(), e: e.clone() },
            Material::P256 { x, y } => Material::P256 { x: x.clone(), y: y.clone() },
        }
    }
}

impl Clone for Key {
    fn clone(&self) -> (copy: Self)
        ensures
            copy@ == self@,
    {
        Key { id: copied(&self.id), material: self.material.clone() }
    }
}

impl Key {
    fn algorithm(&self) -> (algorithm: Algorithm)
        ensures
            algorithm == self@.algorithm(),
    {
        match &self.material {
            Material::Rsa { .. } => Algorithm::Rs256,
            Material::P256 { .. } => Algorithm::Es256,
        }
    }

    fn holds(&self, input: &[u8], signature: &[u8]) -> (holds: bool)
        requires
            self@.is_usable(),
        ensures
            holds == self@.holds(input@, signature@),
    {
        match &self.material {
            Material::Rsa { n, e } => rsa_verify(n.as_slice(), e.as_slice(), input, signature),
            Material::P256 { x, y } => p256_verify(x.as_slice(), y.as_slice(), input, signature),
        }
    }
}

/// What this verifier reads of a key in a set: the members that are texts.
pub struct Listed {
    /// The `use` member.
    pub usage: Option<String>,
    pub kty: Option<String>,
    pub crv: Option<String>,
    pub kid: Option<String>,
    pub n: Option<String>,
    pub e: Option<String>,
    pub x: Option<String>,
    pub y: Option<String>,
}

/// The members of a listed key, as their characters.
pub struct ListedView {
    pub usage: Option<Seq<char>>,
    pub kty: Option<Seq<char>>,
    pub crv: Option<Seq<char>>,
    pub kid: Option<Seq<char>>,
    pub n: Option<Seq<char>>,
    pub e: Option<Seq<char>>,
    pub x: Option<Seq<char>>,
    pub y: Option<Seq<char>>,
}

impl View for Listed {
    type V = ListedView;

    open spec fn view(&self) -> ListedView {
        ListedView {
            usage: chars(self.usage),
            kty: chars(self.kty),
            crv: chars(self.crv),
            kid: chars(self.kid),
            n: chars(self.n),
            e: chars(self.e),
            x: chars(self.x),
            y: chars(self.y),
        }
    }
}

/// The members of a key in a set that this verifier reads.
pub open spec fn listed_of(entry: Json) -> ListedView {
    ListedView {
        usage: entry.text_member("use"@),
        kty: entry.text_member("kty"@),
        crv: entry.text_member("crv"@),
        kid: entry.text_member("kid"@),
        n: entry.text_member("n"@),
        e: entry.text_member("e"@),
        x: entry.text_member("x"@),
        y: entry.text_member("y"@),
    }
}

/// The keys that a document lists, where it has a `keys` array.
pub open spec fn listed_in(document: Json) -> Option<Seq<ListedView>> {
    match document.list_member("keys"@) {
        Some(items) => Some(items.map_values(|item: Json| listed_of(item))),
        None => None,
    }
}

/// One base64url member of a key: its bytes, or why there are none.
pub open spec fn member_bytes(text: Option<Seq<char>>, name: Seq<char>) -> Result<
    Seq<u8>,
    Seq<char>,
> {
    match text {
        None => Err("a key in the JWKS has no `"@ + name + "`"@),
        Some(text) => match decoded(text) {
            None => Err("a key's `"@ + name + "` in the JWKS is not base64url"@),
            Some(bytes) => Ok(bytes),
        },
    }
}

/// An RSA key as listed: its numbers, or why it is refused. The modulus is
/// read first.
pub open spec fn rsa_material(listed: ListedView) -> Result<MaterialView, Seq<char>> {
    match (member_bytes(listed.n, "n"@), member_bytes(listed.e, "e"@)) {
        (Err(message), _) => Err(message),
        (_, Err(message)) => Err(message),
        (Ok(n), Ok(e)) => if is_rsa_key(n, e) {
            Ok(MaterialView::Rsa { n, e })
        } else {
            Err("an RSA key in the JWKS is not a usable key"@)
        },
    }
}

/// A P-256 key as listed: its point, or why it is refused. The `x` coordinate
/// is read first.
pub open spec fn p256_material(listed: ListedView) -> Result<MaterialView, Seq<char>> {
    match (member_bytes(listed.x, "x"@), member_bytes(listed.y, "y"@)) {
        (Err(message), _) => Err(message),
        (_, Err(message)) => Err(message),
        (Ok(x), Ok(y)) => if x.len() != 32 || y.len() != 32 {
            Err("a P-256 coordinate in the JWKS is not thirty-two bytes"@)
        } else if !is_p256_point(x, y) {
            Err("a P-256 key in the JWKS is not on the curve"@)
        } else {
            Ok(MaterialView::P256 { x, y })
        },
    }
}

/// A key of a type that this verifier reads, not marked for encryption: what it
/// is made of, or why it is refused. Nothing for a key that is passed over.
pub open spec fn material_of(listed: ListedView) -> Option<Result<MaterialView, Seq<char>>> {
    if listed.usage == Some("enc"@) {
        None
    } else if listed.kty == Some("RSA"@) {
        Some(rsa_material(listed))
    } else if listed.kty == Some("EC"@) && listed.crv == Some("P-256"@) {
        Some(p256_material(listed))
    } else {
        None
    }
}

/// The signing keys of a list in their order, or why the first that is
/// refused is refused.
pub open spec fn signing_keys(listed: Seq<ListedView>) -> Result<Seq<KeyView>, Seq<char>>
    decreases listed.len(),
{
    if listed.len() == 0 {
        Ok(Seq::empty())
    } else {
        match (signing_keys(listed.drop_last()), material_of(listed.last())) {
            (Err(message), _) => Err(message),
            (Ok(keys), None) => Ok(keys),
            (Ok(_), Some(Err(message))) => Err(message),
            (Ok(keys), Some(Ok(material))) => Ok(
                keys.push(KeyView { id: listed.last().kid, material }),
            ),
        }
    }
}

/// The set that a list of keys loads as, or why it does not load.
pub open spec fn key_set(listed: Seq<ListedView>) -> Result<Seq<KeyView>, Seq<char>> {
    match signing_keys(listed) {
        Err(message) => Err(message),
        Ok(keys) => if keys.len() == 0 {
            Err("the JWKS holds no RSA or P-256 signing key"@)
        } else {
            Ok(keys)
        },
    }
}

/// The set that a document loads as, or why it does not load.
pub open spec fn key_set_of(document: Result<Json, Seq<char>>) -> Result<Seq<KeyView>, Seq<char>> {
    match document {
        Err(failure) => Err("the JWKS is not JSON: "@ + failure),
        Ok(value) => match listed_in(value) {
            None => Err("the JWKS has no `keys` array"@),
            Some(listed) => key_set(listed),
        },
    }
}

/// The first key of a given id.
pub open spec fn first_named(keys: Seq<KeyView>, id: Seq<char>) -> Option<KeyView>
    decreases keys.len(),
{
    if keys.len() == 0 {
        None
    } else if keys.first().id == Some(id) {
        Some(keys.first())
    } else {
        first_named(keys.drop_first(), id)
    }
}

/// Whether any key serves an algorithm.
pub open spec fn serves(keys: Seq<KeyView>, algorithm: Algorithm) -> bool {
    exists|i: int| 0 <= i < keys.len() && (#[trigger] keys[i]).algorithm() == algorithm
}

/// Whether a signature over an input holds under any key of an algorithm.
pub open spec fn any_holds(
    keys: Seq<KeyView>,
    algorithm: Algorithm,
    input: Seq<u8>,
    signature: Seq<u8>,
) -> bool {
    exists|i: int|
        0 <= i < keys.len() && (#[trigger] keys[i]).algorithm() == algorithm && keys[i].holds(
            input,
            signature,
        )
}

/// That no key of the set verifies a signature.
pub open spec fn unverified(algorithm: Algorithm) -> Seq<char> {
    "the "@ + algorithm.spec_name()
        + " signature does not verify with the issuer's published key"@
}

/// Why a signature is refused; nothing where the key that the token names,
/// or where it names none any key of the algorithm, verifies it.
pub open spec fn signature_refusal(
    keys: Seq<KeyView>,
    algorithm: Algorithm,
    key_id: Option<Seq<char>>,
    input: Seq<u8>,
    signature: Seq<u8>,
) -> Option<Seq<char>> {
    match key_id {
        Some(id) => match first_named(keys, id) {
            None => Some(
                "the issuer's key set as the node holds it has no key '"@ + id
                    + "': the issuer may have rotated its keys"@,
            ),
            Some(key) => if key.algorithm() != algorithm {
                Some(
                    "the key '"@ + id + "' serves "@ + key.algorithm().spec_name()
                        + " and the token is signed "@ + algorithm.spec_name(),
                )
            } else if key.holds(input, signature) {
                None
            } else {
                Some(unverified(algorithm))
            },
        },
        None => if !serves(keys, algorithm) {
            Some(
                "the issuer's key set holds no "@ + algorithm.spec_name()
                    + " key and the token names none"@,
            )
        } else if any_holds(keys, algorithm, input, signature) {
            None
        } else {
            Some(unverified(algorithm))
        },
    }
}

/// The signing keys an issuer published, as the node holds them.
pub struct Jwks {
    keys: Vec<Key>,
}

impl View for Jwks {
    type V = Seq<KeyView>;

    closed spec fn view(&self) -> Seq<KeyView> {
        self.keys@.map_values(|key: Key| key@)
    }
}

impl Jwks {
    /// A set holds a key, and each key's numbers make a key.
    #[verifier::type_invariant]
    spec fn loaded(self) -> bool {
        &&& self@.len() > 0
        &&& forall|i: int| 0 <= i < self@.len() ==> (#[trigger] self@[i]).is_usable()
    }
}

impl Clone for Jwks {
    fn clone(&self) -> (copy: Self)
        ensures
            copy@ == self@,
    {
        proof {
            use_type_invariant(self);
        }
        let mut keys: Vec<Key> = Vec::new();
        let mut i: usize = 0;
        while i < self.keys.len()
            invariant
                i <= self.keys@.len(),
                keys@.len() == i,
                forall|j: int| 0 <= j < i ==> (#[trigger] keys@[j])@ == self.keys@[j]@,
            decreases self.keys.len() - i,
        {
            keys.push(self.keys[i].clone());
            i += 1;
        }
        assert(keys@.map_values(|key: Key| key@) =~= self@);
        Jwks { keys }
    }
}

impl Listed {
    /// What this verifier reads of a key in a set.
    fn read(entry: &serde_json::Value) -> (listed: Self)
        ensures
            listed@ == listed_of(held(*entry)),
    {
        Listed {
            usage: text_member(entry, "use"),
            kty: text_member(entry, "kty"),
            crv: text_member(entry, "crv"),
            kid: text_member(entry, "kid"),
            n: text_member(entry, "n"),
            e: text_member(entry, "e"),
            x: text_member(entry, "x"),
            y: text_member(entry, "y"),
        }
    }

    /// What this verifier reads of each key in a document's `keys` array.
    fn read_all(document: &serde_json::Value) -> (listed: Option<Vec<Listed>>)
        ensures
            match listed {
                Some(listed) => listed_in(held(*document)) == Some(
                    listed@.map_values(|key: Listed| key@),
                ),
                None => listed_in(held(*document)) is None,
            },
    {
        let items = match get(document, "keys") {
            Some(member) => match as_array(member) {
                Some(items) => items,
                None => return None,
            },
            None => return None,
        };
        let mut listed: Vec<Listed> = Vec::new();
        let mut i: usize = 0;
        while i < items.len()
            invariant
                i <= items@.len(),
                listed@.len() == i,
                forall|j: int|
                    0 <= j < i ==> (#[trigger] listed@[j])@ == listed_of(held(items@[j])),
            decreases items.len() - i,
        {
            listed.push(Listed::read(&items[i]));
            i += 1;
        }
        assert(listed@.map_values(|key: Listed| key@) =~= items@.map_values(
            |item: serde_json::Value| held(item),
        ).map_values(|item: Json| listed_of(item)));
        Some(listed)
    }
}

/// One base64url member of a key, decoded.
fn member(text: &Option<String>, name: &str) -> (bytes: Result<Vec<u8>, AuthenticateError>)
    ensures
        outcome(bytes) == member_bytes(chars(*text), name@),
{
    match text {
        None => Err(
            AuthenticateError::new(
                "a key in the JWKS has no `".to_string().concat(name).concat("`"),
            ),
        ),
        Some(text) => match decode(text.as_str()) {
            None => Err(
                AuthenticateError::new(
                    "a key's `".to_string().concat(name).concat("` in the JWKS is not base64url"),
                ),
            ),
            Some(bytes) => Ok(bytes),
        },
    }
}

fn rsa_key(listed: &Listed) -> (material: Result<Material, AuthenticateError>)
    ensures
        outcome(material) == rsa_material(listed@),
{
    let n = match member(&listed.n, "n") {
        Ok(n) => n,
        Err(error) => return Err(error),
    };
    let e = match member(&listed.e, "e") {
        Ok(e) => e,
        Err(error) => return Err(error),
    };
    if rsa_key_is_usable(n.as_slice(), e.as_slice()) {
        Ok(Material::Rsa { n, e })
    } else {
        Err(AuthenticateError::fixed("an RSA key in the JWKS is not a usable key"))
    }
}

fn p256_key(listed: &Listed) -> (material: Result<Material, AuthenticateError>)
    ensures
        outcome(material) == p256_material(listed@),
{
    let x = match member(&listed.x, "x") {
        Ok(x) => x,
        Err(error) => return Err(error),
    };
    let y = match member(&listed.y, "y") {
        Ok(y) => y,
        Err(error) => return Err(error),
    };
    if x.len() != 32 || y.len() != 32 {
        return Err(
            AuthenticateError::fixed("a P-256 coordinate in the JWKS is not thirty-two bytes"),
        );
    }
    if p256_point_is_on_curve(x.as_slice(), y.as_slice()) {
        Ok(Material::P256 { x, y })
    } else {
        Err(AuthenticateError::fixed("a P-256 key in the JWKS is not on the curve"))
    }
}

/// Each key that a list yields has numbers that make a key.
pub(crate) proof fn lemma_signing_keys_are_usable(listed: Seq<ListedView>)
    ensures
        signing_keys(listed) matches Ok(keys) ==> forall|i: int|
            0 <= i < keys.len() ==> (#[trigger] keys[i]).is_usable(),
    decreases listed.len(),
{
    if listed.len() > 0 {
        lemma_signing_keys_are_usable(listed.drop_last());
    }
}

/// A refusal among the first keys of a list is a refusal of the list.
pub(crate) proof fn lemma_refused_prefix(listed: Seq<ListedView>, n: int)
    requires
        0 <= n <= listed.len(),
        signing_keys(listed.take(n)) is Err,
    ensures
        signing_keys(listed) == signing_keys(listed.take(n)),
    decreases listed.len() - n,
{
    if n == listed.len() {
        assert(listed.take(n) =~= listed);
    } else {
        assert(listed.take(n + 1).drop_last() =~= listed.take(n));
        lemma_refused_prefix(listed, n + 1);
    }
}

impl Jwks {
    /// The signing keys of a list.
    ///
    /// # Errors
    ///
    /// Where a key of a type this verifier reads is malformed, or no key in the
    /// list is one it can use.
    pub fn from_listed(listed: &Vec<Listed>) -> (set: Result<Self, AuthenticateError>)
        ensures
            outcome(set) == key_set(listed@.map_values(|key: Listed| key@)),
    {
        let ghost all = listed@.map_values(|key: Listed| key@);
        let mut keys: Vec<Key> = Vec::new();
        assert(keys@.map_values(|key: Key| key@) =~= Seq::empty());
        let mut i: usize = 0;
        while i < listed.len()
            invariant
                i <= listed@.len(),
                all == listed@.map_values(|key: Listed| key@),
                signing_keys(all.take(i as int)) == Ok::<Seq<KeyView>, Seq<char>>(
                    keys@.map_values(|key: Key| key@),
                ),
            decreases listed.len() - i,
        {
            let entry = &listed[i];
            let ghost before = keys@.map_values(|key: Key| key@);
            proof {
                assert(all.take(i + 1).drop_last() =~= all.take(i as int));
                assert(all.take(i + 1).last() == entry@);
            }
            let read = if is_text(&entry.usage, "enc") {
                None
            } else if is_text(&entry.kty, "RSA") {
                Some(rsa_key(entry))
            } else if is_text(&entry.kty, "EC") && is_text(&entry.crv, "P-256") {
                Some(p256_key(entry))
            } else {
                None
            };
            match read {
                Some(Ok(material)) => {
                    keys.push(Key { id: copied(&entry.kid), material });
                    assert(keys@.map_values(|key: Key| key@) =~= before.push(
                        KeyView { id: entry@.kid, material: material@ },
                    ));
                },
                Some(Err(error)) => {
                    proof {
                        lemma_refused_prefix(all, i + 1);
                    }
                    return Err(error);
                },
                None => {},
            }
            i += 1;
        }
        proof {
            assert(all.take(i as int) =~= all);
            lemma_signing_keys_are_usable(all);
        }
        if keys.is_empty() {
            return Err(AuthenticateError::fixed("the JWKS holds no RSA or P-256 signing key"));
        }
        Ok(Jwks { keys })
    }

    /// Read a key set document.
    ///
    /// # Errors
    ///
    /// Where the text is not JSON with a `keys` array, a key of a type this
    /// verifier reads is malformed, or no key in the set is one it can use.
    pub fn parse(document: &str) -> (set: Result<Self, AuthenticateError>)
        ensures
            outcome(set) == key_set_of(read(document@)),
    {
        let value = match from_str(document) {
            Ok(value) => value,
            Err(failure) => {
                return Err(
                    AuthenticateError::new(
                        "the JWKS is not JSON: ".to_string().concat(failure.as_str()),
                    ),
                );
            },
        };
        match Listed::read_all(&value) {
            Some(listed) => Jwks::from_listed(&listed),
            None => Err(AuthenticateError::fixed("the JWKS has no `keys` array")),
        }
    }

    /// How many signing keys the set holds.
    #[must_use]
    pub fn len(&self) -> (len: usize)
        ensures
            len == self@.len(),
            len > 0,
    {
        proof {
            use_type_invariant(self);
        }
        self.keys.len()
    }

    /// Never: a set with no usable key does not load.
    #[must_use]
    pub fn is_empty(&self) -> (empty: bool)
        ensures
            empty == (self@.len() == 0),
            !empty,
    {
        proof {
            use_type_invariant(self);
        }
        self.keys.is_empty()
    }

    /// Check `signature` over `input`, with the key the token names or,
    /// where it names none, with any key of the algorithm.
    ///
    /// # Errors
    ///
    /// Where the set holds no such key, the named key serves another
    /// algorithm, or the signature does not verify.
    pub fn verify(
        &self,
        algorithm: Algorithm,
        key_id: Option<&str>,
        input: &[u8],
        signature: &[u8],
    ) -> (result: Result<(), AuthenticateError>)
        ensures
            refusal(result) == signature_refusal(
                self@,
                algorithm,
                match key_id {
                    Some(id) => Some(id@),
                    None => None,
                },
                input@,
                signature@,
            ),
    {
        proof {
            use_type_invariant(self);
        }
        match key_id {
            Some(id) => {
                let key = match self.find(id) {
                    Some(key) => key,
                    None => {
                        return Err(
                            AuthenticateError::new(
                                "the issuer's key set as the node holds it has no key '".to_string().concat(
                                id).concat("': the issuer may have rotated its keys"),
                            ),
                        );
                    },
                };
                if key.algorithm() != algorithm {
                    return Err(
                        AuthenticateError::new(
                            "the key '".to_string().concat(id).concat("' serves ").concat(
                                key.algorithm().name(),
                            ).concat(" and the token is signed ").concat(algorithm.name()),
                        ),
                    );
                }
                if key.holds(input, signature) {
                    return Ok(());
                }
            },
            None => {
                let mut served = false;
                let mut i: usize = 0;
                while i < self.keys.len()
                    invariant
                        key_id is None,
                        i <= self.keys@.len(),
                        forall|j: int|
                            0 <= j < self@.len() ==> (#[trigger] self@[j]).is_usable(),
                        served == exists|j: int|
                            0 <= j < i && (#[trigger] self@[j]).algorithm() == algorithm,
                        forall|j: int|
                            0 <= j < i && (#[trigger] self@[j]).algorithm() == algorithm
                                ==> !self@[j].holds(input@, signature@),
                    decreases self.keys.len() - i,
                {
                    let key = &self.keys[i];
                    assert(self@[i as int] == key@);
                    if key.algorithm() == algorithm {
                        served = true;
                        if key.holds(input, signature) {
                            return Ok(());
                        }
                    }
                    i += 1;
                }
                if !served {
                    return Err(
                        AuthenticateError::new(
                            "the issuer's key set holds no ".to_string().concat(
                                algorithm.name(),
                            ).concat(" key and the token names none"),
                        ),
                    );
                }
            },
        }
        Err(
            AuthenticateError::new(
                "the ".to_string().concat(algorithm.name()).concat(
                    " signature does not verify with the issuer's published key",
                ),
            ),
        )
    }

    /// The first key of a given id.
    fn find(&self, id: &str) -> (key: Option<&Key>)
        ensures
            match key {
                Some(key) => first_named(self@, id@) == Some(key@) && self@.contains(key@),
                None => first_named(self@, id@) is None,
            },
    {
        let mut i: usize = 0;
        assert(self@.skip(0) =~= self@);
        while i < self.keys.len()
            invariant
                i <= self.keys@.len(),
                first_named(self@, id@) == first_named(self@.skip(i as int), id@),
            decreases self.keys.len() - i,
        {
            assert(self@.skip(i as int).first() == self.keys@[i as int]@);
            assert(self@.skip(i as int).drop_first() =~= self@.skip(i + 1));
            if is_text(&self.keys[i].id, id) {
                assert(self@[i as int] == self.keys@[i as int]@);
                return Some(&self.keys[i]);
            }
            i += 1;
        }
        None
    }
}

} // verus!
