//! The nonces a node has sent and not seen again.
use crate::text::{each_chars, same};
use vstd::prelude::*;

verus! {

/// How many nonces may be outstanding before the oldest is forgotten.
pub const OUTSTANDING: usize = 4096;

/// The outstanding nonces once another is sent: it is the newest, and where
/// there was no more room the oldest is forgotten.
pub open spec fn with_issued(nonces: Seq<Seq<char>>, nonce: Seq<char>) -> Seq<Seq<char>> {
    if nonces.len() >= OUTSTANDING {
        nonces.drop_first().push(nonce)
    } else {
        nonces.push(nonce)
    }
}

/// The outstanding nonces, the oldest first.
pub struct Nonces {
    held: Vec<String>,
}

impl View for Nonces {
    type V = Seq<Seq<char>>;

    closed spec fn view(&self) -> Seq<Seq<char>> {
        each_chars(self.held@)
    }
}

impl Nonces {
    #[verifier::type_invariant]
    spec fn bounded(self) -> bool {
        self.held@.len() <= OUTSTANDING
    }

    /// None outstanding.
    pub fn new() -> (nonces: Self)
        ensures
            nonces@ == Seq::<Seq<char>>::empty(),
    {
        let nonces = Nonces { held: Vec::new() };
        assert(nonces@ =~= Seq::<Seq<char>>::empty());
        nonces
    }

    /// Record a nonce that was sent.
    pub fn issue(&mut self, nonce: &str)
        ensures
            final(self)@ == with_issued(old(self)@, nonce@),
            final(self)@.len() <= OUTSTANDING,
    {
        proof {
            use_type_invariant(&*self);
        }
        let ghost before = self@;
        let mut held: Vec<String> = Vec::new();
        std::mem::swap(&mut held, &mut self.held);
        if held.len() >= OUTSTANDING {
            let _ = held.remove(0);
            assert(each_chars(held@) =~= before.drop_first());
        }
        let ghost kept = held@;
        held.push(nonce.to_string());
        assert(each_chars(held@) =~= each_chars(kept).push(nonce@));
        self.held = held;
    }

    /// Spend a nonce, where it is outstanding. Of several that are the same
    /// the oldest is spent.
    pub fn spend(&mut self, nonce: &str) -> (spent: bool)
        ensures
            spent == old(self)@.contains(nonce@),
            final(self)@ == old(self)@.remove_value(nonce@),
    {
        proof {
            use_type_invariant(&*self);
            self@.index_of_first_ensures(nonce@);
        }
        let ghost before = self@;
        let mut at: usize = 0;
        while at < self.held.len()
            invariant
                before == self@,
                before == old(self)@,
                at <= self.held@.len(),
                self.held@.len() <= OUTSTANDING,
                forall|j: int| 0 <= j < at ==> before[j] != nonce@,
                match before.index_of_first(nonce@) {
                    Some(index) => {
                        &&& before.contains(nonce@)
                        &&& 0 <= index < before.len()
                        &&& before[index] == nonce@
                        &&& forall|j: int| 0 <= j < index ==> before[j] != nonce@
                    },
                    None => !before.contains(nonce@),
                },
            decreases self.held.len() - at,
        {
            assert(before[at as int] == self.held@[at as int]@);
            if same(self.held[at].as_str(), nonce) {
                let mut held: Vec<String> = Vec::new();
                std::mem::swap(&mut held, &mut self.held);
                let _ = held.remove(at);
                assert(before.index_of_first(nonce@) == Some(at as int));
                assert(each_chars(held@) =~= before.remove(at as int));
                self.held = held;
                return true;
            }
            at += 1;
        }
        false
    }
}

} // verus!
