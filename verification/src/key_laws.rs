//! What a key set means: which entries of a document become keys, and which
//! signatures they verify.
use crate::base64url::decoded;
use crate::json::Json;
use crate::jwks::{
    first_named, key_set, key_set_of, listed_in, listed_of, material_of, signature_refusal,
    signing_keys, Algorithm, KeyView, Listed, ListedView, MaterialView,
};
use crate::laws::law_a_signature_needs_a_published_key;
use crate::signature::{
    is_p256_point, is_rsa_key, number, p256_sha256_holds, rsa_sha256_holds,
};
use vstd::arithmetic::power2::{lemma2_to64, lemma2_to64_rest, lemma_pow2_adds, pow2};
use vstd::prelude::*;

verus! {

/// An algorithm is known just by its own name, letter for letter.
pub proof fn law_the_algorithms_are_rs256_and_es256(name: Seq<char>)
    ensures
        Algorithm::spec_named(name) == Some(Algorithm::Rs256) <==> name == "RS256"@,
        Algorithm::spec_named(name) == Some(Algorithm::Es256) <==> name == "ES256"@,
        Algorithm::Rs256.spec_name() == "RS256"@,
        Algorithm::Es256.spec_name() == "ES256"@,
{
    reveal_strlit("RS256");
    reveal_strlit("ES256");
    assert("RS256"@[0] != "ES256"@[0]);
}

/// Bytes stand for a number with the most significant byte first: another byte
/// behind them makes it two hundred and fifty-six times as large and adds the
/// byte.
pub proof fn law_bytes_stand_for_a_number(bytes: Seq<u8>, byte: u8)
    ensures
        number(Seq::empty()) == 0,
        number(bytes.push(byte)) == 256 * number(bytes) + byte,
{
    assert(bytes.push(byte).drop_last() =~= bytes);
}

/// An RSA key is any odd modulus of at most 4096 bits with any odd exponent
/// below it of at least three and at most thirty-three bits.
pub proof fn law_what_makes_an_rsa_key(n: Seq<u8>, e: Seq<u8>)
    ensures
        is_rsa_key(n, e) <==> {
            &&& number(n) % 2 != 0
            &&& number(e) % 2 != 0
            &&& 3 <= number(e) <= 0x1_ffff_ffff
            &&& number(e) < number(n) < pow2(4096)
        },
{
    assert(pow2(33) == 0x2_0000_0000) by {
        lemma2_to64();
        lemma_pow2_adds(32, 1);
    }
}

/// A point of P-256 is any two field elements that meet the curve's equation
/// modulo the prime 2^256 - 2^224 + 2^192 + 2^96 - 1.
pub proof fn law_what_makes_a_p256_point(x: Seq<u8>, y: Seq<u8>)
    ensures
        ({
            let prime = pow2(256) - pow2(224) + pow2(192) + pow2(96) - 1;
            let (a, b) = (number(x) as int, number(y) as int);
            is_p256_point(x, y) <==> {
                &&& a < prime
                &&& b < prime
                &&& (b * b) % prime == (a * a * a - 3 * a
                    + 0x5ac635d8aa3a93e7b3ebbd55769886bc651d06b0cc53b0f63bce3c3e27d2604bint) % prime
            }
        }),
{
    lemma_prime();
}

proof fn lemma_prime()
    ensures
        pow2(256) - pow2(224) + pow2(192) + pow2(96) - 1
            == 0xffffffff00000001000000000000000000000000ffffffffffffffffffffffffint,
{
    lemma2_to64();
    lemma2_to64_rest();
    lemma_pow2_adds(64, 32);
    lemma_pow2_adds(96, 96);
    lemma_pow2_adds(192, 32);
    lemma_pow2_adds(224, 32);
    let p96 = pow2(96);
    assert(p96 == 0x1_0000_0000_0000_0000_0000_0000int);
    assert(p96 * p96 == 0x1_0000_0000_0000_0000_0000_0000_0000_0000_0000_0000_0000_0000int)
        by (nonlinear_arith)
        requires
            p96 == 0x1_0000_0000_0000_0000_0000_0000int,
    ;
}

/// What is read of a listed key is each of its members, as its characters.
pub proof fn law_a_listed_key_is_its_members(listed: Listed, text: Seq<char>)
    ensures
        listed@.usage == Some(text) <==> listed.usage is Some && listed.usage.unwrap()@ == text,
        listed@.kty == Some(text) <==> listed.kty is Some && listed.kty.unwrap()@ == text,
        listed@.crv == Some(text) <==> listed.crv is Some && listed.crv.unwrap()@ == text,
        listed@.kid == Some(text) <==> listed.kid is Some && listed.kid.unwrap()@ == text,
        listed@.n == Some(text) <==> listed.n is Some && listed.n.unwrap()@ == text,
        listed@.e == Some(text) <==> listed.e is Some && listed.e.unwrap()@ == text,
        listed@.x == Some(text) <==> listed.x is Some && listed.x.unwrap()@ == text,
        listed@.y == Some(text) <==> listed.y is Some && listed.y.unwrap()@ == text,
{
}

/// Each member of a listed key is the string that the document holds under the
/// member's name, and an entry that is no object lists nothing.
pub proof fn law_an_entry_is_read_by_its_names(
    entry: Json,
    members: Map<Seq<char>, Json>,
    text: Seq<char>,
)
    ensures
        listed_of(Json::Object(members)).usage == Some(text) <==> members.dom().contains("use"@)
            && members["use"@] == Json::Text(text),
        listed_of(Json::Object(members)).kty == Some(text) <==> members.dom().contains("kty"@)
            && members["kty"@] == Json::Text(text),
        listed_of(Json::Object(members)).crv == Some(text) <==> members.dom().contains("crv"@)
            && members["crv"@] == Json::Text(text),
        listed_of(Json::Object(members)).kid == Some(text) <==> members.dom().contains("kid"@)
            && members["kid"@] == Json::Text(text),
        listed_of(Json::Object(members)).n == Some(text) <==> members.dom().contains("n"@)
            && members["n"@] == Json::Text(text),
        listed_of(Json::Object(members)).e == Some(text) <==> members.dom().contains("e"@)
            && members["e"@] == Json::Text(text),
        listed_of(Json::Object(members)).x == Some(text) <==> members.dom().contains("x"@)
            && members["x"@] == Json::Text(text),
        listed_of(Json::Object(members)).y == Some(text) <==> members.dom().contains("y"@)
            && members["y"@] == Json::Text(text),
        !(entry is Object) ==> listed_of(entry) == (ListedView {
            usage: None,
            kty: None,
            crv: None,
            kid: None,
            n: None,
            e: None,
            x: None,
            y: None,
        }),
{
}

/// A document lists keys just where it is an object whose `keys` is an array,
/// and then each item of the array in its place.
pub proof fn law_a_document_lists_its_keys_array(document: Json, members: Map<Seq<char>, Json>)
    ensures
        listed_in(Json::Object(members)) is Some <==> members.dom().contains("keys"@)
            && members["keys"@] is List,
        members.dom().contains("keys"@) ==> (members["keys"@] matches Json::List(items) ==> {
            &&& listed_in(Json::Object(members)).unwrap().len() == items.len()
            &&& forall|i: int|
                0 <= i < items.len() ==> listed_in(Json::Object(members)).unwrap()[i] == listed_of(
                    #[trigger] items[i],
                )
        }),
        !(document is Object) ==> listed_in(document) is None,
{
}

/// A document that is not JSON, and one that lists no keys, does not load and
/// says so; any other loads as what it lists.
pub proof fn law_a_document_loads_as_what_it_lists(failure: Seq<char>, value: Json)
    ensures
        key_set_of(Err(failure)) == Err::<Seq<KeyView>, Seq<char>>(
            "the JWKS is not JSON: "@ + failure,
        ),
        listed_in(value) is None ==> key_set_of(Ok(value)) == Err::<Seq<KeyView>, Seq<char>>(
            "the JWKS has no `keys` array"@,
        ),
        listed_in(value) matches Some(listed) ==> key_set_of(Ok(value)) == key_set(listed),
{
}

/// An RSA entry that is not marked for encryption is never passed over, however
/// else it is marked. It is the key of just the bytes that its `n` and `e`
/// decode to, where they make an RSA key, and is refused for what it lacks
/// where they do not.
pub proof fn law_an_rsa_entry_is_its_modulus_and_exponent(entry: ListedView)
    requires
        entry.usage != Some("enc"@),
        entry.kty == Some("RSA"@),
    ensures
        entry.n is None ==> material_of(entry) == Some(
            Err::<MaterialView, Seq<char>>("a key in the JWKS has no `"@ + "n"@ + "`"@),
        ),
        entry.n matches Some(n) ==> (decoded(n) is None ==> material_of(entry) == Some(
            Err::<MaterialView, Seq<char>>(
                "a key's `"@ + "n"@ + "` in the JWKS is not base64url"@,
            ),
        )),
        entry.n is Some && decoded(entry.n.unwrap()) is Some ==> {
            &&& entry.e is None ==> material_of(entry) == Some(
                Err::<MaterialView, Seq<char>>("a key in the JWKS has no `"@ + "e"@ + "`"@),
            )
            &&& entry.e is Some && decoded(entry.e.unwrap()) is None ==> material_of(entry)
                == Some(
                Err::<MaterialView, Seq<char>>(
                    "a key's `"@ + "e"@ + "` in the JWKS is not base64url"@,
                ),
            )
        },
        forall|n: Seq<u8>, e: Seq<u8>|
            entry.n is Some && entry.e is Some && decoded(entry.n.unwrap()) == Some(n) && decoded(
                entry.e.unwrap(),
            ) == Some(e) ==> {
                &&& #[trigger] is_rsa_key(n, e) ==> material_of(entry) == Some(
                    Ok::<MaterialView, Seq<char>>(MaterialView::Rsa { n, e }),
                )
                &&& !is_rsa_key(n, e) ==> material_of(entry) == Some(
                    Err::<MaterialView, Seq<char>>("an RSA key in the JWKS is not a usable key"@),
                )
            },
{
}

/// A P-256 entry that is not marked for encryption is never passed over, however
/// else it is marked. It is the key of just the thirty-two bytes each that its
/// `x` and `y` decode to, where they are a point of the curve, and is refused
/// for what it lacks where they are not.
pub proof fn law_a_p256_entry_is_its_point(entry: ListedView)
    requires
        entry.usage != Some("enc"@),
        entry.kty == Some("EC"@),
        entry.crv == Some("P-256"@),
    ensures
        entry.x is None ==> material_of(entry) == Some(
            Err::<MaterialView, Seq<char>>("a key in the JWKS has no `"@ + "x"@ + "`"@),
        ),
        entry.x matches Some(x) ==> (decoded(x) is None ==> material_of(entry) == Some(
            Err::<MaterialView, Seq<char>>(
                "a key's `"@ + "x"@ + "` in the JWKS is not base64url"@,
            ),
        )),
        entry.x is Some && decoded(entry.x.unwrap()) is Some ==> {
            &&& entry.y is None ==> material_of(entry) == Some(
                Err::<MaterialView, Seq<char>>("a key in the JWKS has no `"@ + "y"@ + "`"@),
            )
            &&& entry.y is Some && decoded(entry.y.unwrap()) is None ==> material_of(entry)
                == Some(
                Err::<MaterialView, Seq<char>>(
                    "a key's `"@ + "y"@ + "` in the JWKS is not base64url"@,
                ),
            )
        },
        forall|x: Seq<u8>, y: Seq<u8>|
            entry.x is Some && entry.y is Some && decoded(entry.x.unwrap()) == Some(x) && decoded(
                entry.y.unwrap(),
            ) == Some(y) ==> {
                &&& x.len() == 32 && y.len() == 32 && #[trigger] is_p256_point(x, y)
                    ==> material_of(entry) == Some(
                    Ok::<MaterialView, Seq<char>>(MaterialView::P256 { x, y }),
                )
                &&& x.len() == 32 && y.len() == 32 && !is_p256_point(x, y) ==> material_of(entry)
                    == Some(
                    Err::<MaterialView, Seq<char>>("a P-256 key in the JWKS is not on the curve"@),
                )
                &&& x.len() != 32 || y.len() != 32 ==> material_of(entry) == Some(
                    Err::<MaterialView, Seq<char>>(
                        "a P-256 coordinate in the JWKS is not thirty-two bytes"@,
                    ),
                )
            },
{
    reveal_strlit("RSA");
    reveal_strlit("EC");
    assert("RSA"@.len() != "EC"@.len());
}

/// An entry marked for encryption, and one of any other type or curve, is
/// passed over.
pub proof fn law_no_other_entry_is_read(entry: ListedView)
    ensures
        material_of(entry) is None <==> {
            ||| entry.usage == Some("enc"@)
            ||| entry.kty != Some("RSA"@) && entry.kty != Some("EC"@)
            ||| entry.kty == Some("EC"@) && entry.crv != Some("P-256"@)
        },
{
    reveal_strlit("RSA");
    reveal_strlit("EC");
    assert("RSA"@.len() != "EC"@.len());
}

/// Whatever else a set lists, an RSA entry not marked for encryption is among
/// its keys once it is loaded, under the entry's own id and with just the bytes
/// that its members decode to.
pub proof fn law_an_rsa_entry_is_loaded(
    listed: Seq<ListedView>,
    keys: Seq<KeyView>,
    at: int,
)
    requires
        key_set(listed) == Ok::<Seq<KeyView>, Seq<char>>(keys),
        0 <= at < listed.len(),
        listed[at].usage != Some("enc"@),
        listed[at].kty == Some("RSA"@),
    ensures
        listed[at].n is Some && decoded(listed[at].n.unwrap()) is Some,
        listed[at].e is Some && decoded(listed[at].e.unwrap()) is Some,
        keys.contains(
            KeyView {
                id: listed[at].kid,
                material: MaterialView::Rsa {
                    n: decoded(listed[at].n.unwrap()).unwrap(),
                    e: decoded(listed[at].e.unwrap()).unwrap(),
                },
            },
        ),
{
    lemma_the_entry_of_each_key(listed, keys);
    lemma_read_entries_are_sound(listed, at);
    let from = choose|from: Seq<int>| entries_of(listed, keys, from);
    let k = from.index_of(at);
    assert(keys[k].material == material_of(listed[from[k]]).unwrap()->Ok_0);
}

/// Whatever else a set lists, a P-256 entry not marked for encryption is among
/// its keys once it is loaded, under the entry's own id and with just the bytes
/// that its members decode to.
pub proof fn law_a_p256_entry_is_loaded(listed: Seq<ListedView>, keys: Seq<KeyView>, at: int)
    requires
        key_set(listed) == Ok::<Seq<KeyView>, Seq<char>>(keys),
        0 <= at < listed.len(),
        listed[at].usage != Some("enc"@),
        listed[at].kty == Some("EC"@),
        listed[at].crv == Some("P-256"@),
    ensures
        listed[at].x is Some && decoded(listed[at].x.unwrap()) is Some,
        listed[at].y is Some && decoded(listed[at].y.unwrap()) is Some,
        keys.contains(
            KeyView {
                id: listed[at].kid,
                material: MaterialView::P256 {
                    x: decoded(listed[at].x.unwrap()).unwrap(),
                    y: decoded(listed[at].y.unwrap()).unwrap(),
                },
            },
        ),
{
    law_a_p256_entry_is_its_point(listed[at]);
    law_no_other_entry_is_read(listed[at]);
    lemma_the_entry_of_each_key(listed, keys);
    lemma_read_entries_are_sound(listed, at);
    let from = choose|from: Seq<int>| entries_of(listed, keys, from);
    assert(from.contains(at));
    let k = from.index_of(at);
    let (x, y) = (
        decoded(listed[at].x.unwrap()).unwrap(),
        decoded(listed[at].y.unwrap()).unwrap(),
    );
    assert(is_p256_point(x, y));
    assert(keys[k] == KeyView { id: listed[at].kid, material: MaterialView::P256 { x, y } });
}

/// A list loads just where every RSA and P-256 entry not marked for encryption
/// is sound, and there is one.
pub proof fn law_when_a_list_loads(listed: Seq<ListedView>)
    ensures
        key_set(listed) is Ok <==> {
            &&& forall|i: int|
                0 <= i < listed.len() && (#[trigger] listed[i]).usage != Some("enc"@)
                    && listed[i].kty == Some("RSA"@) ==> {
                    &&& listed[i].n is Some && decoded(listed[i].n.unwrap()) is Some
                    &&& listed[i].e is Some && decoded(listed[i].e.unwrap()) is Some
                    &&& is_rsa_key(
                        decoded(listed[i].n.unwrap()).unwrap(),
                        decoded(listed[i].e.unwrap()).unwrap(),
                    )
                }
            &&& forall|i: int|
                0 <= i < listed.len() && (#[trigger] listed[i]).usage != Some("enc"@)
                    && listed[i].kty == Some("EC"@) && listed[i].crv == Some("P-256"@) ==> {
                    &&& listed[i].x is Some && decoded(listed[i].x.unwrap()) is Some
                    &&& listed[i].y is Some && decoded(listed[i].y.unwrap()) is Some
                    &&& decoded(listed[i].x.unwrap()).unwrap().len() == 32
                    &&& decoded(listed[i].y.unwrap()).unwrap().len() == 32
                    &&& is_p256_point(
                        decoded(listed[i].x.unwrap()).unwrap(),
                        decoded(listed[i].y.unwrap()).unwrap(),
                    )
                }
            &&& exists|i: int|
                0 <= i < listed.len() && (#[trigger] listed[i]).usage != Some("enc"@) && (
                listed[i].kty == Some("RSA"@) || listed[i].kty == Some("EC"@) && listed[i].crv
                    == Some("P-256"@))
        },
        (forall|i: int|
            0 <= i < listed.len() ==> (#[trigger] listed[i]).usage == Some("enc"@) || (
            listed[i].kty != Some("RSA"@) && (listed[i].kty != Some("EC"@) || listed[i].crv != Some(
                "P-256"@,
            )))) ==> key_set(listed) == Err::<Seq<KeyView>, Seq<char>>(
            "the JWKS holds no RSA or P-256 signing key"@,
        ),
{
    reveal_strlit("RSA");
    reveal_strlit("EC");
    assert("RSA"@.len() != "EC"@.len());
    lemma_when_sound(listed);
    if signing_keys(listed) is Ok {
        let keys = signing_keys(listed)->Ok_0;
        lemma_the_entry_of_each_key(listed, keys);
        let from = choose|from: Seq<int>| entries_of(listed, keys, from);
        if keys.len() > 0 {
            assert(material_of(listed[from[0]]) is Some);
        }
        assert forall|i: int| 0 <= i < listed.len() && material_of(#[trigger] listed[i]) is Some
            implies keys.len() > 0 by {
            assert(from.contains(i));
        }
        assert forall|i: int| 0 <= i < listed.len() implies !(material_of(
            #[trigger] listed[i],
        ) matches Some(Err(_))) by {
            lemma_read_entries_are_sound(listed, i);
        }
    } else {
        let i = choose|i: int|
            0 <= i < listed.len() && (material_of(#[trigger] listed[i]) matches Some(Err(_)));
        assert(material_of(listed[i]) is Some);
    }
}

/// The keys that a list loads as stand in the order of their entries. Each comes
/// from one entry, an RSA or P-256 one not marked for encryption, has its id and
/// the bytes that its members decode to, and no such entry is left out.
pub proof fn law_keys_stand_in_the_order_listed(listed: Seq<ListedView>, keys: Seq<KeyView>)
    requires
        key_set(listed) == Ok::<Seq<KeyView>, Seq<char>>(keys),
    ensures
        exists|from: Seq<int>|
            {
                &&& #[trigger] from.len() == keys.len()
                &&& forall|j: int, k: int| 0 <= j < k < from.len() ==> from[j] < from[k]
                &&& forall|k: int|
                    0 <= k < keys.len() ==> {
                        let entry = listed[#[trigger] from[k]];
                        &&& 0 <= from[k] < listed.len()
                        &&& entry.usage != Some("enc"@)
                        &&& keys[k].id == entry.kid
                        &&& keys[k].material matches MaterialView::Rsa { n, e } ==> {
                            &&& entry.kty == Some("RSA"@)
                            &&& entry.n is Some && decoded(entry.n.unwrap()) == Some(n)
                            &&& entry.e is Some && decoded(entry.e.unwrap()) == Some(e)
                        }
                        &&& keys[k].material matches MaterialView::P256 { x, y } ==> {
                            &&& entry.kty == Some("EC"@) && entry.crv == Some("P-256"@)
                            &&& entry.x is Some && decoded(entry.x.unwrap()) == Some(x)
                            &&& entry.y is Some && decoded(entry.y.unwrap()) == Some(y)
                        }
                    }
                &&& forall|i: int|
                    0 <= i < listed.len() && (#[trigger] listed[i]).usage != Some("enc"@) && (
                    listed[i].kty == Some("RSA"@) || listed[i].kty == Some("EC"@) && listed[i].crv
                        == Some("P-256"@)) ==> from.contains(i)
            },
{
    lemma_the_entry_of_each_key(listed, keys);
    let from = choose|from: Seq<int>| entries_of(listed, keys, from);
    assert(from.len() == keys.len());
}

/// Whether a list of places gives, in order, the entry of each key and every
/// entry that is read.
spec fn entries_of(listed: Seq<ListedView>, keys: Seq<KeyView>, from: Seq<int>) -> bool {
    &&& from.len() == keys.len()
    &&& forall|j: int, k: int| 0 <= j < k < from.len() ==> from[j] < from[k]
    &&& forall|k: int|
        0 <= k < keys.len() ==> {
            &&& 0 <= #[trigger] from[k] < listed.len()
            &&& material_of(listed[from[k]]) == Some(
                Ok::<MaterialView, Seq<char>>(keys[k].material),
            )
            &&& listed[from[k]].kid == keys[k].id
        }
    &&& forall|i: int|
        0 <= i < listed.len() && material_of(#[trigger] listed[i]) is Some ==> from.contains(i)
}

proof fn lemma_the_entry_of_each_key(listed: Seq<ListedView>, keys: Seq<KeyView>)
    requires
        signing_keys(listed) == Ok::<Seq<KeyView>, Seq<char>>(keys),
    ensures
        exists|from: Seq<int>| entries_of(listed, keys, from),
    decreases listed.len(),
{
    if listed.len() == 0 {
        assert(entries_of(listed, keys, Seq::empty()));
    } else {
        let shorter = listed.drop_last();
        let kept = signing_keys(shorter)->Ok_0;
        let last = listed.len() - 1;
        lemma_the_entry_of_each_key(shorter, kept);
        let before = choose|from: Seq<int>| entries_of(shorter, kept, from);
        let from = if material_of(listed.last()) is None {
            before
        } else {
            before.push(last)
        };
        assert forall|i: int| 0 <= i < listed.len() && material_of(#[trigger] listed[i]) is Some
            implies from.contains(i) by {
            if i < last {
                assert(shorter[i] == listed[i]);
                let k = choose|k: int| 0 <= k < before.len() && before[k] == i;
                assert(from[k] == i);
            } else {
                assert(from[from.len() - 1] == i);
            }
        }
        assert forall|k: int| 0 <= k < keys.len() implies {
            &&& 0 <= #[trigger] from[k] < listed.len()
            &&& material_of(listed[from[k]]) == Some(
                Ok::<MaterialView, Seq<char>>(keys[k].material),
            )
            &&& listed[from[k]].kid == keys[k].id
        } by {
            if k < kept.len() {
                assert(from[k] == before[k]);
                assert(shorter[before[k]] == listed[before[k]]);
            }
        }
        assert(entries_of(listed, keys, from));
    }
}

proof fn lemma_read_entries_are_sound(listed: Seq<ListedView>, at: int)
    requires
        signing_keys(listed) is Ok,
        0 <= at < listed.len(),
    ensures
        !(material_of(listed[at]) matches Some(Err(_))),
    decreases listed.len(),
{
    if at < listed.len() - 1 {
        lemma_read_entries_are_sound(listed.drop_last(), at);
    }
}

proof fn lemma_when_sound(listed: Seq<ListedView>)
    ensures
        signing_keys(listed) is Err ==> exists|i: int|
            0 <= i < listed.len() && (material_of(#[trigger] listed[i]) matches Some(Err(_))),
    decreases listed.len(),
{
    if listed.len() > 0 {
        let shorter = listed.drop_last();
        lemma_when_sound(shorter);
        if signing_keys(shorter) is Err {
            let i = choose|i: int|
                0 <= i < shorter.len() && (material_of(#[trigger] shorter[i]) matches Some(Err(_)));
            assert(listed[i] == shorter[i]);
        } else if signing_keys(listed) is Err {
            assert(listed[listed.len() - 1] == listed.last());
        }
    }
}

/// A signature is accepted just where it holds under a key of the set, as the
/// scheme of that key's kind decides it: under an RSA key for RS256, under a
/// P-256 key for ES256, and where the token names a key under the first of that
/// id and no other.
pub proof fn law_a_signature_holds_as_its_scheme_decides(
    keys: Seq<KeyView>,
    algorithm: Algorithm,
    key_id: Option<Seq<char>>,
    input: Seq<u8>,
    signature: Seq<u8>,
)
    ensures
        signature_refusal(keys, algorithm, key_id, input, signature) is None <==> exists|i: int|
            {
                &&& 0 <= i < keys.len()
                &&& match (#[trigger] keys[i]).material {
                    MaterialView::Rsa { n, e } => algorithm == Algorithm::Rs256
                        && rsa_sha256_holds(n, e, input, signature),
                    MaterialView::P256 { x, y } => algorithm == Algorithm::Es256
                        && p256_sha256_holds(x, y, input, signature),
                }
                &&& key_id is Some ==> {
                    &&& keys[i].id == key_id
                    &&& forall|j: int| 0 <= j < i ==> (#[trigger] keys[j]).id != key_id
                }
            },
{
    law_a_signature_needs_a_published_key(keys, algorithm, key_id, input, signature);
}

/// Which algorithm a key serves, and which signatures hold under it, rests on
/// what it is made of: an RSA key serves RS256 and a P-256 key ES256, and each
/// takes just the signatures that its scheme does, over an input of any length.
pub proof fn law_a_key_serves_its_kind(key: KeyView, input: Seq<u8>, signature: Seq<u8>)
    ensures
        key.material matches MaterialView::Rsa { n, e } ==> {
            &&& key.algorithm() == Algorithm::Rs256
            &&& key.holds(input, signature) == rsa_sha256_holds(n, e, input, signature)
            &&& key.is_usable() == is_rsa_key(n, e)
        },
        key.material matches MaterialView::P256 { x, y } ==> {
            &&& key.algorithm() == Algorithm::Es256
            &&& key.holds(input, signature) == p256_sha256_holds(x, y, input, signature)
            &&& key.is_usable() == (x.len() == 32 && y.len() == 32 && is_p256_point(x, y))
        },
{
}

/// Where the token names a key that the set does not hold, the refusal names
/// the key.
pub proof fn law_an_unknown_key_is_named(
    keys: Seq<KeyView>,
    algorithm: Algorithm,
    id: Seq<char>,
    input: Seq<u8>,
    signature: Seq<u8>,
)
    requires
        forall|i: int| 0 <= i < keys.len() ==> (#[trigger] keys[i]).id != Some(id),
    ensures
        signature_refusal(keys, algorithm, Some(id), input, signature) == Some(
            "the issuer's key set as the node holds it has no key '"@ + id
                + "': the issuer may have rotated its keys"@,
        ),
{
    lemma_first_named_is_first(keys, id);
}

/// Where the key that the token names is of the other kind, the refusal names
/// the key, the algorithm it serves and the one the token is signed with; where
/// it is of the kind and the signature does not hold, it names the algorithm.
pub proof fn law_a_named_key_answers_alone(
    keys: Seq<KeyView>,
    at: int,
    id: Seq<char>,
    input: Seq<u8>,
    signature: Seq<u8>,
)
    requires
        0 <= at < keys.len(),
        keys[at].id == Some(id),
        forall|j: int| 0 <= j < at ==> (#[trigger] keys[j]).id != Some(id),
    ensures
        keys[at].material matches MaterialView::Rsa { n, e } ==> {
            &&& signature_refusal(keys, Algorithm::Es256, Some(id), input, signature) == Some(
                "the key '"@ + id + "' serves "@ + "RS256"@ + " and the token is signed "@
                    + "ES256"@,
            )
            &&& signature_refusal(keys, Algorithm::Rs256, Some(id), input, signature)
                == if rsa_sha256_holds(n, e, input, signature) {
                None
            } else {
                Some(
                    "the "@ + "RS256"@
                        + " signature does not verify with the issuer's published key"@,
                )
            }
        },
        keys[at].material matches MaterialView::P256 { x, y } ==> {
            &&& signature_refusal(keys, Algorithm::Rs256, Some(id), input, signature) == Some(
                "the key '"@ + id + "' serves "@ + "ES256"@ + " and the token is signed "@
                    + "RS256"@,
            )
            &&& signature_refusal(keys, Algorithm::Es256, Some(id), input, signature)
                == if p256_sha256_holds(x, y, input, signature) {
                None
            } else {
                Some(
                    "the "@ + "ES256"@
                        + " signature does not verify with the issuer's published key"@,
                )
            }
        },
{
    lemma_first_named_is_first(keys, id);
}

/// Where the token names no key, the refusal says whether the set has no key of
/// the algorithm or none that verifies the signature.
pub proof fn law_without_a_named_key_any_of_the_kind_answers(
    keys: Seq<KeyView>,
    input: Seq<u8>,
    signature: Seq<u8>,
)
    ensures
        (forall|i: int| 0 <= i < keys.len() ==> (#[trigger] keys[i]).material is P256)
            ==> signature_refusal(keys, Algorithm::Rs256, None, input, signature) == Some(
            "the issuer's key set holds no "@ + "RS256"@ + " key and the token names none"@,
        ),
        (forall|i: int| 0 <= i < keys.len() ==> (#[trigger] keys[i]).material is Rsa)
            ==> signature_refusal(keys, Algorithm::Es256, None, input, signature) == Some(
            "the issuer's key set holds no "@ + "ES256"@ + " key and the token names none"@,
        ),
        forall|i: int|
            0 <= i < keys.len() && (#[trigger] keys[i]).material is Rsa && signature_refusal(
                keys,
                Algorithm::Rs256,
                None,
                input,
                signature,
            ) is Some ==> signature_refusal(keys, Algorithm::Rs256, None, input, signature)
                == Some(
                "the "@ + "RS256"@ + " signature does not verify with the issuer's published key"@,
            ),
        forall|i: int|
            0 <= i < keys.len() && (#[trigger] keys[i]).material is P256 && signature_refusal(
                keys,
                Algorithm::Es256,
                None,
                input,
                signature,
            ) is Some ==> signature_refusal(keys, Algorithm::Es256, None, input, signature)
                == Some(
                "the "@ + "ES256"@ + " signature does not verify with the issuer's published key"@,
            ),
{
    assert(forall|i: int|
        0 <= i < keys.len() ==> ((#[trigger] keys[i]).material is P256 <==> keys[i].algorithm()
            == Algorithm::Es256));
}

proof fn lemma_first_named_is_first(keys: Seq<KeyView>, id: Seq<char>)
    ensures
        (forall|i: int| 0 <= i < keys.len() ==> (#[trigger] keys[i]).id != Some(id)) ==> first_named(
            keys,
            id,
        ) is None,
        forall|at: int|
            0 <= at < keys.len() && (#[trigger] keys[at]).id == Some(id) && (forall|j: int|
                0 <= j < at ==> (#[trigger] keys[j]).id != Some(id)) ==> first_named(keys, id)
                == Some(keys[at]),
    decreases keys.len(),
{
    if keys.len() > 0 {
        let rest = keys.drop_first();
        lemma_first_named_is_first(rest, id);
        assert(keys.first() == keys[0]);
        assert forall|j: int| 0 <= j < rest.len() implies #[trigger] rest[j] == keys[j + 1] by {}
        assert forall|at: int|
            0 <= at < keys.len() && (#[trigger] keys[at]).id == Some(id) && (forall|j: int|
                0 <= j < at ==> (#[trigger] keys[j]).id != Some(id)) implies first_named(keys, id)
            == Some(keys[at]) by {
            if at > 0 {
                assert(keys[0].id != Some(id));
                assert(rest[at - 1] == keys[at]);
                assert forall|j: int| 0 <= j < at - 1 implies (#[trigger] rest[j]).id != Some(
                    id,
                ) by {
                    assert(keys[j + 1].id != Some(id));
                }
            }
        }
    }
}

} // verus!
