//! What holds of the verifier as a whole, whatever is presented to it and
//! however often.
use crate::authenticator::{algorithm_name, is_early, is_expired, saturated, VerifierView};
use crate::jwks::{
    first_named, key_set, key_set_of, lemma_refused_prefix, lemma_signing_keys_are_usable,
    listed_in, material_of, signature_refusal, signing_keys, Algorithm, KeyView, ListedView,
    MaterialView,
};
use crate::json::Json;
use crate::nonces::{with_issued, OUTSTANDING};
use crate::token::{AccountView, ClaimsView, CompactView, PresentedView, MECHANISM};
use vstd::prelude::*;
use vstd::utf8::encode_utf8;

verus! {

/// The two algorithms are known by their names, and by no other.
pub proof fn law_algorithm_names(algorithm: Algorithm, name: Seq<char>)
    ensures
        Algorithm::spec_named(algorithm.spec_name()) == Some(algorithm),
        Algorithm::spec_named(name) == Some(algorithm) ==> name == algorithm.spec_name(),
        Algorithm::spec_named("none"@) is None,
        Algorithm::spec_named("HS256"@) is None,
        Algorithm::spec_named("HS384"@) is None,
        Algorithm::spec_named("HS512"@) is None,
{
    reveal_strlit("RS256");
    reveal_strlit("ES256");
    reveal_strlit("none");
    reveal_strlit("HS256");
    reveal_strlit("HS384");
    reveal_strlit("HS512");
    assert("RS256"@[0] == 'R');
    assert("ES256"@[0] == 'E');
    assert("none"@[0] == 'n');
    assert("HS256"@[0] == 'H');
    assert("HS384"@[0] == 'H');
    assert("HS512"@[0] == 'H');
}

/// A token of any algorithm but the two is refused by the algorithm's name,
/// whatever keys the verifier holds and whatever else the token says.
pub proof fn law_other_algorithms_are_refused(gate: VerifierView, compact: CompactView)
    requires
        algorithm_name(compact) != Algorithm::Rs256.spec_name(),
        algorithm_name(compact) != Algorithm::Es256.spec_name(),
    ensures
        gate.signed_refusal(compact) == Some(
            "the ID token's algorithm '"@ + algorithm_name(compact)
                + "' is not one this node verifies: RS256 and ES256 are"@,
        ),
{
}

/// A document that loads holds at least one key, and every key that it holds
/// is made of numbers that make a key.
pub proof fn law_loaded_keys_are_usable(document: Result<Json, Seq<char>>)
    ensures
        key_set_of(document) matches Ok(keys) ==> {
            &&& keys.len() > 0
            &&& forall|i: int| 0 <= i < keys.len() ==> (#[trigger] keys[i]).is_usable()
        },
{
    if let Ok(value) = document {
        if let Some(listed) = listed_in(value) {
            lemma_signing_keys_are_usable(listed);
        }
    }
}

/// A key marked for encryption, and a key of a type that the verifier does not
/// read, is passed over: the list loads as it does without the key, wherever
/// in it the key stands.
pub proof fn law_other_keys_are_passed_over(
    before: Seq<ListedView>,
    key: ListedView,
    after: Seq<ListedView>,
)
    requires
        key.usage == Some("enc"@) || (key.kty != Some("RSA"@) && !(key.kty == Some("EC"@)
            && key.crv == Some("P-256"@))),
    ensures
        key_set(before.push(key) + after) == key_set(before + after),
{
    lemma_passed_over(before, key, after);
}

proof fn lemma_passed_over(before: Seq<ListedView>, key: ListedView, after: Seq<ListedView>)
    requires
        material_of(key) is None,
    ensures
        signing_keys(before.push(key) + after) == signing_keys(before + after),
    decreases after.len(),
{
    if after.len() == 0 {
        assert(before.push(key) + after =~= before.push(key));
        assert(before.push(key).drop_last() =~= before);
        assert(before + after =~= before);
    } else {
        lemma_passed_over(before, key, after.drop_last());
        assert((before.push(key) + after).drop_last() =~= before.push(key) + after.drop_last());
        assert((before + after).drop_last() =~= before + after.drop_last());
    }
}

/// A list with a malformed key of a type that the verifier reads does not load,
/// and says why the first such key is malformed.
pub proof fn law_a_malformed_key_is_refused(listed: Seq<ListedView>, at: int, message: Seq<char>)
    requires
        0 <= at < listed.len(),
        material_of(listed[at]) == Some(Err::<MaterialView, Seq<char>>(message)),
        forall|i: int|
            0 <= i < at ==> !(material_of(#[trigger] listed[i]) matches Some(Err(_))),
    ensures
        key_set(listed) == Err::<Seq<KeyView>, Seq<char>>(message),
{
    lemma_sound_prefix(listed, at);
    assert(listed.take(at + 1).drop_last() =~= listed.take(at));
    lemma_refused_prefix(listed, at + 1);
}

proof fn lemma_sound_prefix(listed: Seq<ListedView>, n: int)
    requires
        0 <= n <= listed.len(),
        forall|i: int|
            0 <= i < n ==> !(material_of(#[trigger] listed[i]) matches Some(Err(_))),
    ensures
        signing_keys(listed.take(n)) is Ok,
    decreases n,
{
    if n > 0 {
        lemma_sound_prefix(listed, n - 1);
        assert(listed.take(n).drop_last() =~= listed.take(n - 1));
        assert(listed.take(n).last() == listed[n - 1]);
    }
}

/// Whether the entry at an index of a list makes a given key: it is not passed
/// over, and the key is what it is made of under its own id.
pub open spec fn lists_key(listed: Seq<ListedView>, key: KeyView, i: int) -> bool {
    &&& 0 <= i < listed.len()
    &&& material_of(listed[i]) == Some(Ok::<MaterialView, Seq<char>>(key.material))
    &&& listed[i].kid == key.id
}

/// The keys that a list loads as are those of its entries that are not
/// passed over, each under the entry's own id.
pub proof fn law_keys_are_the_listed_ones(listed: Seq<ListedView>, keys: Seq<KeyView>, key: KeyView)
    requires
        key_set(listed) == Ok::<Seq<KeyView>, Seq<char>>(keys),
    ensures
        keys.contains(key) <==> exists|i: int| lists_key(listed, key, i),
{
    lemma_keys_are_the_listed_ones(listed, keys, key);
}

proof fn lemma_keys_are_the_listed_ones(
    listed: Seq<ListedView>,
    keys: Seq<KeyView>,
    key: KeyView,
)
    requires
        signing_keys(listed) == Ok::<Seq<KeyView>, Seq<char>>(keys),
    ensures
        keys.contains(key) <==> exists|i: int| lists_key(listed, key, i),
    decreases listed.len(),
{
    if listed.len() > 0 {
        let shorter = listed.drop_last();
        let last = listed.len() - 1;
        let kept = signing_keys(shorter)->Ok_0;
        lemma_keys_are_the_listed_ones(shorter, kept, key);
        if keys.contains(key) {
            let k = choose|k: int| 0 <= k < keys.len() && keys[k] == key;
            if k < kept.len() {
                assert(kept[k] == key);
                let i = choose|i: int| lists_key(shorter, key, i);
                assert(lists_key(listed, key, i));
            } else {
                assert(lists_key(listed, key, last));
            }
        }
        if exists|i: int| lists_key(listed, key, i) {
            let i = choose|i: int| lists_key(listed, key, i);
            if i < last {
                assert(lists_key(shorter, key, i));
                let k = choose|k: int| 0 <= k < kept.len() && kept[k] == key;
                assert(keys[k] == key);
            } else {
                assert(keys[kept.len() as int] == key);
            }
        }
    }
}

/// A signature that is not refused holds under a key of the set that serves
/// the algorithm and, where the token names a key, is the first of that id.
pub proof fn law_a_signature_needs_a_published_key(
    keys: Seq<KeyView>,
    algorithm: Algorithm,
    key_id: Option<Seq<char>>,
    input: Seq<u8>,
    signature: Seq<u8>,
)
    ensures
        signature_refusal(keys, algorithm, key_id, input, signature) is None <==> exists|i: int|
            {
                &&& 0 <= i < keys.len()
                &&& (#[trigger] keys[i]).algorithm() == algorithm
                &&& keys[i].holds(input, signature)
                &&& key_id is Some ==> {
                    &&& keys[i].id == key_id
                    &&& forall|j: int| 0 <= j < i ==> (#[trigger] keys[j]).id != key_id
                }
            },
{
    if let Some(id) = key_id {
        lemma_first_named(keys, id);
    }
}

proof fn lemma_first_named(keys: Seq<KeyView>, id: Seq<char>)
    ensures
        match first_named(keys, id) {
            Some(key) => exists|i: int|
                {
                    &&& 0 <= i < keys.len()
                    &&& #[trigger] keys[i] == key
                    &&& key.id == Some(id)
                    &&& forall|j: int| 0 <= j < i ==> (#[trigger] keys[j]).id != Some(id)
                },
            None => forall|i: int| 0 <= i < keys.len() ==> (#[trigger] keys[i]).id != Some(id),
        },
    decreases keys.len(),
{
    if keys.len() > 0 && keys.first().id != Some(id) {
        let rest = keys.drop_first();
        lemma_first_named(rest, id);
        if let Some(key) = first_named(rest, id) {
            let i = choose|i: int|
                {
                    &&& 0 <= i < rest.len()
                    &&& #[trigger] rest[i] == key
                    &&& key.id == Some(id)
                    &&& forall|j: int| 0 <= j < i ==> (#[trigger] rest[j]).id != Some(id)
                };
            assert(keys[i + 1] == key);
            assert forall|j: int| 0 <= j < i + 1 implies (#[trigger] keys[j]).id != Some(id) by {
                if j > 0 {
                    assert(rest[j - 1] == keys[j]);
                }
            }
        } else {
            assert forall|j: int| 0 <= j < keys.len() implies (#[trigger] keys[j]).id != Some(
                id,
            ) by {
                if j > 0 {
                    assert(rest[j - 1] == keys[j]);
                }
            }
        }
    } else if keys.len() > 0 {
        assert(keys[0] == keys.first());
    }
}

/// What it takes for a token to be proven, all of it at once: the mechanism is
/// this verifier's, a token was presented and read, its algorithm is one of the
/// two and a published key verifies its signature, its issuer is the one
/// trusted, its audience names the client id and an authorized party is that
/// client id, it has an expiry that has not passed and no start that has yet
/// to come, its subject is the claimed value, it names the account where one
/// is expected, and it carries an outstanding nonce where nonces are.
pub open spec fn is_proof(
    gate: VerifierView,
    presented: PresentedView,
    read: Result<CompactView, Seq<char>>,
    now: i64,
) -> bool {
    &&& presented.mechanism == MECHANISM@
    &&& presented.token is Some
    &&& read matches Ok(compact)
    &&& Algorithm::spec_named(algorithm_name(compact)) matches Some(algorithm)
    &&& signature_refusal(
        gate.keys,
        algorithm,
        compact.key_id,
        encode_utf8(compact.signing_input),
        compact.signature,
    ) is None
    &&& compact.claims.iss == Some(gate.issuer)
    &&& compact.claims.aud.contains(gate.client)
    &&& compact.claims.azp is Some ==> compact.claims.azp == Some(gate.client)
    &&& compact.claims.exp matches Some(exp)
    &&& now <= saturated(exp + gate.leeway)
    &&& compact.claims.nbf matches Some(nbf) ==> nbf <= saturated(now + gate.leeway)
    &&& compact.claims.sub == Some(presented.value)
    &&& gate.principal is Some ==> names_the_account(compact.claims)
    &&& gate.nonces matches Some(outstanding) ==> {
        &&& compact.claims.nonce matches Some(nonce)
        &&& outstanding.contains(nonce)
    }
}

/// Whether a token names the expected account: in its `upn` where that reads
/// as a name, else in its `preferred_username`.
pub open spec fn names_the_account(claims: ClaimsView) -> bool {
    match claims.upn {
        Some(named) => named.is_expected,
        None => claims.preferred_username matches Some(named) && named.is_expected,
    }
}

/// A token is proven just where all that it takes holds.
pub proof fn law_proven_just_where_all_holds(
    gate: VerifierView,
    presented: PresentedView,
    read: Result<CompactView, Seq<char>>,
    now: i64,
)
    ensures
        gate.refusal_at(presented, read, now) is None <==> is_proof(gate, presented, read, now),
{
}

/// A refused token changes nothing: it does not cost the login its nonce.
pub proof fn law_a_refused_token_costs_nothing(
    gate: VerifierView,
    presented: PresentedView,
    read: Result<CompactView, Seq<char>>,
    now: i64,
)
    ensures
        gate.refusal_at(presented, read, now) is Some ==> gate.after(presented, read, now) == gate,
{
}

/// Whatever is presented, the verifier goes by the same keys, issuer, client id,
/// account and leeway afterwards, and expects nonces just where it did.
pub proof fn law_only_nonces_change(
    gate: VerifierView,
    presented: PresentedView,
    read: Result<CompactView, Seq<char>>,
    now: i64,
)
    ensures
        gate.after(presented, read, now) == (VerifierView {
            nonces: gate.after(presented, read, now).nonces,
            ..gate
        }),
        gate.after(presented, read, now).nonces is Some <==> gate.nonces is Some,
{
}

/// A proven token spends one nonce, the one that it carries, and no other.
pub proof fn law_a_proof_spends_one_nonce(
    gate: VerifierView,
    presented: PresentedView,
    read: Result<CompactView, Seq<char>>,
    now: i64,
)
    requires
        gate.nonces is Some,
        gate.refusal_at(presented, read, now) is None,
    ensures
        read->Ok_0.claims.nonce is Some,
        gate.nonces.unwrap().contains(read->Ok_0.claims.nonce.unwrap()),
        gate.after(presented, read, now).nonces.unwrap().to_multiset()
            == gate.nonces.unwrap().to_multiset().remove(read->Ok_0.claims.nonce.unwrap()),
{
    lemma_remove_value(gate.nonces.unwrap(), read->Ok_0.claims.nonce.unwrap());
}

proof fn lemma_remove_value(nonces: Seq<Seq<char>>, nonce: Seq<char>)
    requires
        nonces.contains(nonce),
    ensures
        nonces.remove_value(nonce).to_multiset() == nonces.to_multiset().remove(nonce),
{
    nonces.index_of_first_ensures(nonce);
    let at = nonces.index_of_first(nonce).unwrap();
    assert(nonces.remove_value(nonce) == nonces.remove(at));
    vstd::seq_lib::to_multiset_remove(nonces, at);
}

/// What can happen to a verifier: the node sends a nonce, or a claim is presented
/// with what came of reading its token, at some time.
pub enum Event {
    Issued(Seq<char>),
    Presented { presented: PresentedView, read: Result<CompactView, Seq<char>>, now: i64 },
}

/// Whether an event at a verifier is that a token carrying a given nonce is
/// proven.
pub open spec fn proves_with(gate: VerifierView, event: Event, nonce: Seq<char>) -> bool {
    match event {
        Event::Presented { presented, read: Ok(compact), now } => {
            &&& compact.claims.nonce == Some(nonce)
            &&& gate.refusal_at(presented, Ok(compact), now) is None
        },
        _ => false,
    }
}

/// The verifier after an event.
pub open spec fn step(gate: VerifierView, event: Event) -> VerifierView {
    match event {
        Event::Issued(nonce) => gate.with_nonce(nonce),
        Event::Presented { presented, read, now } => gate.after(presented, read, now),
    }
}

/// The verifier after events in their order.
pub open spec fn run(gate: VerifierView, events: Seq<Event>) -> VerifierView
    decreases events.len(),
{
    if events.len() == 0 {
        gate
    } else {
        step(run(gate, events.drop_last()), events.last())
    }
}

/// How many nonces are sent in a sequence of events.
pub open spec fn issues(events: Seq<Event>) -> nat
    decreases events.len(),
{
    if events.len() == 0 {
        0
    } else {
        issues(events.drop_last()) + if events.last() is Issued {
            1nat
        } else {
            0nat
        }
    }
}

/// How many times a nonce is sent in a sequence of events.
pub open spec fn sent(events: Seq<Event>, nonce: Seq<char>) -> nat
    decreases events.len(),
{
    if events.len() == 0 {
        0
    } else {
        sent(events.drop_last(), nonce) + if events.last() == Event::Issued(nonce) {
            1nat
        } else {
            0nat
        }
    }
}

/// How many tokens that carry a nonce are proven in a sequence of events.
pub open spec fn proofs_with(gate: VerifierView, events: Seq<Event>, nonce: Seq<char>) -> nat
    decreases events.len(),
{
    if events.len() == 0 {
        0
    } else {
        proofs_with(gate, events.drop_last(), nonce) + if proves_with(
            run(gate, events.drop_last()),
            events.last(),
            nonce,
        ) {
            1nat
        } else {
            0nat
        }
    }
}

/// A nonce that is sent proves one token and no more: whatever happens, the
/// tokens proven with a nonce are no more than the times it was outstanding at
/// the start and the times it was sent since. None is proven with a nonce that
/// was neither.
pub proof fn law_each_nonce_proves_one_token(
    gate: VerifierView,
    events: Seq<Event>,
    nonce: Seq<char>,
)
    requires
        gate.nonces is Some,
    ensures
        proofs_with(gate, events, nonce) <= gate.nonces.unwrap().to_multiset().count(nonce) + sent(
            events,
            nonce,
        ),
{
    lemma_nonces_are_accounted_for(gate, events, nonce);
}

proof fn lemma_nonces_are_accounted_for(
    gate: VerifierView,
    events: Seq<Event>,
    nonce: Seq<char>,
)
    requires
        gate.nonces is Some,
    ensures
        run(gate, events).nonces is Some,
        proofs_with(gate, events, nonce) + run(gate, events).nonces.unwrap().to_multiset().count(
            nonce,
        ) <= gate.nonces.unwrap().to_multiset().count(nonce) + sent(events, nonce),
    decreases events.len(),
{
    if events.len() > 0 {
        let before = run(gate, events.drop_last());
        lemma_nonces_are_accounted_for(gate, events.drop_last(), nonce);
        match events.last() {
            Event::Issued(other) => {
                lemma_issued_count(before.nonces.unwrap(), other, nonce);
            },
            Event::Presented { presented, read, now } => {
                if before.refusal_at(presented, read, now) is None {
                    law_a_proof_spends_one_nonce(before, presented, read, now);
                    lemma_spent_count(
                        before.nonces.unwrap(),
                        read->Ok_0.claims.nonce.unwrap(),
                        nonce,
                    );
                } else {
                    law_a_refused_token_costs_nothing(before, presented, read, now);
                }
            },
        }
    }
}

proof fn lemma_issued_count(held: Seq<Seq<char>>, other: Seq<char>, nonce: Seq<char>)
    ensures
        with_issued(held, other).to_multiset().count(nonce) <= held.to_multiset().count(nonce)
            + if other == nonce {
            1nat
        } else {
            0nat
        },
{
    broadcast use vstd::seq_lib::group_to_multiset_ensures;

    if held.len() >= OUTSTANDING {
        assert(held.drop_first() =~= held.remove(0));
    }
}

proof fn lemma_spent_count(held: Seq<Seq<char>>, other: Seq<char>, nonce: Seq<char>)
    requires
        held.contains(other),
    ensures
        held.to_multiset().remove(other).count(nonce) + if other == nonce {
            1nat
        } else {
            0nat
        } == held.to_multiset().count(nonce),
{
    broadcast use vstd::seq_lib::group_to_multiset_ensures;

}

/// A nonce that is not outstanding does not become outstanding, whatever
/// happens, unless the node sends it: until then every token that carries it
/// is refused, at any time.
pub proof fn law_a_nonce_is_outstanding_only_once_sent(
    gate: VerifierView,
    events: Seq<Event>,
    nonce: Seq<char>,
    presented: PresentedView,
    compact: CompactView,
    now: i64,
)
    requires
        gate.nonces matches Some(outstanding) && !outstanding.contains(nonce),
        forall|i: int|
            0 <= i < events.len() ==> #[trigger] events[i] != Event::Issued(nonce),
        compact.claims.nonce == Some(nonce),
    ensures
        run(gate, events).nonces matches Some(outstanding) && !outstanding.contains(nonce),
        run(gate, events).refusal_at(presented, Ok(compact), now) is Some,
        run(gate, events).nonce_refusal(compact.claims) == Some(
            "the ID token's nonce is not one this node has outstanding: never sent, or already spent"@,
        ),
{
    lemma_stays_away(gate, events, nonce);
}

proof fn lemma_stays_away(gate: VerifierView, events: Seq<Event>, nonce: Seq<char>)
    requires
        gate.nonces matches Some(outstanding) && !outstanding.contains(nonce),
        forall|i: int|
            0 <= i < events.len() ==> #[trigger] events[i] != Event::Issued(nonce),
    ensures
        run(gate, events).nonces matches Some(outstanding) && !outstanding.contains(nonce),
    decreases events.len(),
{
    if events.len() > 0 {
        let shorter = events.drop_last();
        assert forall|i: int| 0 <= i < shorter.len() implies #[trigger] shorter[i]
            != Event::Issued(nonce) by {
            assert(shorter[i] == events[i]);
        }
        lemma_stays_away(gate, shorter, nonce);
        let held = run(gate, shorter).nonces.unwrap();
        let next = run(gate, events).nonces.unwrap();
        assert(events[events.len() - 1] != Event::Issued(nonce));
        match events.last() {
            Event::Issued(other) => {
                lemma_issued_members(held, other, nonce);
            },
            Event::Presented { presented, read, now } => {
                if next != held {
                    lemma_removed_members(held, read->Ok_0.claims.nonce.unwrap(), nonce);
                }
            },
        }
    }
}

proof fn lemma_issued_members(held: Seq<Seq<char>>, other: Seq<char>, nonce: Seq<char>)
    ensures
        with_issued(held, other).contains(nonce) ==> held.contains(nonce) || other == nonce,
{
    let next = with_issued(held, other);
    if next.contains(nonce) {
        let i = choose|i: int| 0 <= i < next.len() && next[i] == nonce;
        if i < next.len() - 1 {
            if held.len() >= OUTSTANDING {
                assert(held[i + 1] == nonce);
            } else {
                assert(held[i] == nonce);
            }
        }
    }
}

proof fn lemma_removed_members(held: Seq<Seq<char>>, other: Seq<char>, nonce: Seq<char>)
    ensures
        held.remove_value(other).contains(nonce) ==> held.contains(nonce),
{
    held.index_of_first_ensures(other);
    let next = held.remove_value(other);
    if next.contains(nonce) && held.contains(other) {
        let at = held.index_of_first(other).unwrap();
        let i = choose|i: int| 0 <= i < next.len() && next[i] == nonce;
        if i < at {
            assert(held[i] == nonce);
        } else {
            assert(held[i + 1] == nonce);
        }
    }
}

/// A proven token cannot be replayed: where its nonce was outstanding once,
/// the same token, and any other that carries the nonce, is refused from then
/// on, whatever else happens, unless the node sends that nonce again.
pub proof fn law_a_proven_token_is_not_proven_again(
    gate: VerifierView,
    presented: PresentedView,
    read: Result<CompactView, Seq<char>>,
    now: i64,
    events: Seq<Event>,
    again: PresentedView,
    compact: CompactView,
    later: i64,
)
    requires
        gate.nonces is Some,
        gate.refusal_at(presented, read, now) is None,
        gate.nonces.unwrap().to_multiset().count(read->Ok_0.claims.nonce.unwrap()) == 1,
        forall|i: int|
            0 <= i < events.len() ==> #[trigger] events[i] != Event::Issued(
                read->Ok_0.claims.nonce.unwrap(),
            ),
        compact.claims.nonce == read->Ok_0.claims.nonce,
    ensures
        run(gate.after(presented, read, now), events).refusal_at(again, Ok(compact), later) is Some,
        run(gate.after(presented, read, now), events).nonce_refusal(compact.claims) == Some(
            "the ID token's nonce is not one this node has outstanding: never sent, or already spent"@,
        ),
{
    broadcast use vstd::seq_lib::group_to_multiset_ensures;

    let nonce = read->Ok_0.claims.nonce.unwrap();
    law_a_proof_spends_one_nonce(gate, presented, read, now);
    let spent = gate.after(presented, read, now);
    assert(spent.nonces.unwrap().to_multiset().count(nonce) == 0);
    assert(!spent.nonces.unwrap().contains(nonce));
    law_a_nonce_is_outstanding_only_once_sent(spent, events, nonce, again, compact, later);
}

/// Where no nonce is expected none is recorded and none is asked for: a
/// proven token is proven again at any later time, until it expires.
pub proof fn law_without_nonces_a_token_may_be_presented_again(
    gate: VerifierView,
    nonce: Seq<char>,
    presented: PresentedView,
    read: Result<CompactView, Seq<char>>,
    now: i64,
    later: i64,
)
    requires
        gate.nonces is None,
        now <= later,
    ensures
        gate.with_nonce(nonce) == gate,
        gate.after(presented, read, now) == gate,
        gate.refusal_at(presented, read, now) is None ==> {
            gate.after(presented, read, now).refusal_at(presented, read, later) is None
                <==> !is_expired(read->Ok_0.claims.exp.unwrap(), gate.leeway, later)
        },
{
}

/// No more nonces are ever outstanding than there is room for.
pub proof fn law_outstanding_nonces_are_bounded(gate: VerifierView, events: Seq<Event>)
    requires
        gate.nonces matches Some(outstanding) ==> outstanding.len() <= OUTSTANDING,
    ensures
        run(gate, events).nonces matches Some(outstanding) ==> outstanding.len() <= OUTSTANDING,
    decreases events.len(),
{
    if events.len() > 0 {
        law_outstanding_nonces_are_bounded(gate, events.drop_last());
        let before = run(gate, events.drop_last());
        if let (Some(held), Event::Presented { read: Ok(compact), .. }) = (
            before.nonces,
            events.last(),
        ) {
            if let Some(nonce) = compact.claims.nonce {
                held.index_of_first_ensures(nonce);
            }
        }
    }
}

/// A nonce that the node sends stays outstanding until a token that carries
/// it is proven, as long as fewer nonces are sent after it than there is room
/// for.
pub proof fn law_a_sent_nonce_stays_outstanding(gate: VerifierView, nonce: Seq<char>, events: Seq<Event>)
    requires
        gate.nonces matches Some(outstanding) && outstanding.len() <= OUTSTANDING,
        forall|i: int|
            0 <= i < events.len() ==> !proves_with(
                run(gate.with_nonce(nonce), events.take(i)),
                #[trigger] events[i],
                nonce,
            ),
        issues(events) < OUTSTANDING,
    ensures
        run(gate.with_nonce(nonce), events).nonces matches Some(outstanding)
            && outstanding.contains(nonce),
{
    lemma_stays_outstanding(gate, nonce, events);
}

/// Whether a nonce is outstanding with at most so many newer ones.
spec fn is_recent(nonces: Seq<Seq<char>>, nonce: Seq<char>, newer: int, at: int) -> bool {
    &&& 0 <= at < nonces.len()
    &&& nonces[at] == nonce
    &&& nonces.len() - 1 - at <= newer
}

proof fn lemma_stays_outstanding(gate: VerifierView, nonce: Seq<char>, events: Seq<Event>)
    requires
        gate.nonces matches Some(outstanding) && outstanding.len() <= OUTSTANDING,
        forall|i: int|
            0 <= i < events.len() ==> !proves_with(
                run(gate.with_nonce(nonce), events.take(i)),
                #[trigger] events[i],
                nonce,
            ),
        issues(events) < OUTSTANDING,
    ensures
        run(gate.with_nonce(nonce), events).nonces matches Some(outstanding) && {
            &&& outstanding.len() <= OUTSTANDING
            &&& exists|at: int| is_recent(outstanding, nonce, issues(events) as int, at)
        },
    decreases events.len(),
{
    let start = gate.with_nonce(nonce);
    if events.len() == 0 {
        let held = start.nonces.unwrap();
        assert(is_recent(held, nonce, 0, held.len() - 1));
    } else {
        let shorter = events.drop_last();
        assert forall|i: int| 0 <= i < shorter.len() implies !proves_with(
            run(start, shorter.take(i)),
            #[trigger] shorter[i],
            nonce,
        ) by {
            assert(shorter[i] == events[i]);
            assert(shorter.take(i) =~= events.take(i));
        }
        lemma_stays_outstanding(gate, nonce, shorter);
        let newer = issues(shorter) as int;
        let held = run(start, shorter).nonces.unwrap();
        let at = choose|at: int| is_recent(held, nonce, newer, at);
        let next = run(start, events).nonces.unwrap();
        assert(events.take(events.len() - 1) =~= shorter);
        assert(!proves_with(run(start, shorter), events[events.len() - 1], nonce));
        match events.last() {
            Event::Issued(other) => {
                if held.len() >= OUTSTANDING {
                    assert(is_recent(next, nonce, newer + 1, at - 1));
                } else {
                    assert(is_recent(next, nonce, newer + 1, at));
                }
            },
            Event::Presented { presented, read, now } => {
                if next == held {
                    assert(is_recent(next, nonce, newer, at));
                } else {
                    let other = read->Ok_0.claims.nonce.unwrap();
                    held.index_of_first_ensures(other);
                    let gone = held.index_of_first(other).unwrap();
                    if gone < at {
                        assert(is_recent(next, nonce, newer, at - 1));
                    } else {
                        assert(is_recent(next, nonce, newer, at));
                    }
                }
            },
        }
    }
}

/// Where no account is expected, nothing is asked about the names that a
/// token carries: it is answered as it would be with any others.
pub proof fn law_without_an_account_names_do_not_matter(
    gate: VerifierView,
    claims: ClaimsView,
    subject: Seq<char>,
    now: i64,
    upn: Option<AccountView>,
    preferred_username: Option<AccountView>,
)
    requires
        gate.principal is None,
    ensures
        gate.proof_refusal(claims, subject, now) == gate.proof_refusal(
            (ClaimsView { upn, preferred_username, ..claims }),
            subject,
            now,
        ),
{
}

/// The answer on a token's claims rests on six of them alone, its issuer, its
/// audience, its authorized party, its expiry, its start and its subject: it is
/// the same, message and all, for any two tokens that agree on those.
pub proof fn law_six_claims_decide(
    gate: VerifierView,
    one: ClaimsView,
    other: ClaimsView,
    subject: Seq<char>,
    now: i64,
)
    requires
        one.iss == other.iss,
        one.aud == other.aud,
        one.azp == other.azp,
        one.exp == other.exp,
        one.nbf == other.nbf,
        one.sub == other.sub,
    ensures
        gate.claims_refusal(one, subject, now) == gate.claims_refusal(other, subject, now),
{
}

/// An expiry that has passed has passed for good, and a start that has come
/// has come for good, under any leeway.
pub proof fn law_time_does_not_run_back(bound: i64, leeway: i64, now: i64, later: i64)
    requires
        now <= later,
    ensures
        is_expired(bound, leeway, now) ==> is_expired(bound, leeway, later),
        !is_early(bound, leeway, now) ==> !is_early(bound, leeway, later),
{
}

/// More leeway never refuses what less of it let through.
pub proof fn law_leeway_only_helps(bound: i64, leeway: i64, more: i64, now: i64)
    requires
        leeway <= more,
    ensures
        !is_expired(bound, leeway, now) ==> !is_expired(bound, more, now),
        !is_early(bound, leeway, now) ==> !is_early(bound, more, now),
{
}

} // verus!
