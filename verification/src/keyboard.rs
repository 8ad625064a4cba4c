//! The set of currently-held input codes, with exactly-once press/release
//! transitions.
use vstd::prelude::*;
use crate::input::{KeyCode, key_index, key_from_index, lemma_key_index_inverse,
    lemma_key_from_index_inverse, KEY_CODE_COUNT};

verus! {

broadcast use vstd::seq_lib::lemma_seq_contains_after_push;

/// A code is a member iff the last reported transition for it was a press
/// with no matching release since.
#[derive(Clone, Copy, Debug)]
pub struct KeyState {
    bits: u64,
}

/// Whether bit `i` of `bits` is set.
spec fn bit_set(bits: u64, i: u64) -> bool {
    (bits >> i) & 1u64 == 1u64
}

proof fn lemma_bit_or_one(b: u64, i: u64, j: u64)
    requires
        i < 64,
        j < 64,
    ensures
        bit_set(b | (1u64 << i), j) == if j == i {
            true
        } else {
            bit_set(b, j)
        },
{
    assert(((b | (1u64 << i)) >> j) & 1u64 == if j == i {
        1u64
    } else {
        (b >> j) & 1u64
    }) by (bit_vector)
        requires
            i < 64,
            j < 64,
    ;
}

proof fn lemma_bit_and_not_one(b: u64, i: u64, j: u64)
    requires
        i < 64,
        j < 64,
    ensures
        bit_set(b & !(1u64 << i), j) == if j == i {
            false
        } else {
            bit_set(b, j)
        },
{
    assert(((b & !(1u64 << i)) >> j) & 1u64 == if j == i {
        0u64
    } else {
        (b >> j) & 1u64
    }) by (bit_vector)
        requires
            i < 64,
            j < 64,
    ;
}

proof fn lemma_bit_zero(j: u64)
    ensures
        !bit_set(0u64, j),
{
    assert((0u64 >> j) & 1u64 == 0u64) by (bit_vector);
}

/// Whether a press transition on `k` fires a `key_down` for a given held
/// set.
pub open spec fn press_fires(held: Set<KeyCode>, k: KeyCode) -> bool {
    !held.contains(k)
}

/// Law: pressing a code that is already held (auto-repeat) never fires
/// again, while a release followed by a press fires a second time.
pub proof fn lemma_press_dedup(held: Set<KeyCode>, k: KeyCode)
    ensures
        !press_fires(held.insert(k), k),
        press_fires(held.insert(k).remove(k), k),
{
}

impl KeyState {
    /// The set of codes currently held.
    pub closed spec fn held(self) -> Set<KeyCode> {
        Set::new(|k: KeyCode| bit_set(self.bits, key_index(k) as u64))
    }

    /// A state in which no code is held.
    pub fn new() -> (r: KeyState)
        ensures
            r.held() == Set::<KeyCode>::empty(),
    {
        let r = KeyState { bits: 0 };
        proof {
            assert forall|k: KeyCode| !r.held().contains(k) by {
                lemma_bit_zero(key_index(k) as u64);
            }
            assert(r.held() =~= Set::<KeyCode>::empty());
        }
        r
    }

    /// Whether a code is currently held.
    pub fn is_held(&self, k: KeyCode) -> (r: bool)
        ensures
            r == self.held().contains(k),
    {
        proof {
            lemma_key_index_inverse(k);
        }
        let i = k.index();
        (self.bits >> (i as u64)) & 1 == 1
    }

    /// Record a press transition. The code becomes held; the result says
    /// whether the transition is a fresh press (false absorbs auto-repeat).
    pub fn press(&mut self, k: KeyCode) -> (fired: bool)
        ensures
            fired == !old(self).held().contains(k),
            final(self).held() == old(self).held().insert(k),
    {
        proof {
            lemma_key_index_inverse(k);
        }
        let i = k.index();
        let was = (self.bits >> (i as u64)) & 1 == 1;
        self.bits = self.bits | (1u64 << (i as u64));
        proof {
            assert forall|k2: KeyCode|
                self.held().contains(k2) == old(self).held().insert(k).contains(k2) by {
                lemma_key_index_inverse(k2);
                lemma_key_index_inverse(k);
                lemma_bit_or_one(old(self).bits, key_index(k) as u64, key_index(k2) as u64);
            }
            assert(self.held() =~= old(self).held().insert(k));
        }
        !was
    }

    /// Record a release transition. The code stops being held; the result
    /// says whether it was held before (false absorbs a stray release).
    pub fn release(&mut self, k: KeyCode) -> (fired: bool)
        ensures
            fired == old(self).held().contains(k),
            final(self).held() == old(self).held().remove(k),
    {
        proof {
            lemma_key_index_inverse(k);
        }
        let i = k.index();
        let was = (self.bits >> (i as u64)) & 1 == 1;
        self.bits = self.bits & !(1u64 << (i as u64));
        proof {
            assert forall|k2: KeyCode|
                self.held().contains(k2) == old(self).held().remove(k).contains(k2) by {
                lemma_key_index_inverse(k2);
                lemma_key_index_inverse(k);
                lemma_bit_and_not_one(old(self).bits, key_index(k) as u64, key_index(k2) as u64);
            }
            assert(self.held() =~= old(self).held().remove(k));
        }
        was
    }

    /// Empty the held set, returning every code that was held, each once.
    pub fn drain(&mut self) -> (r: Vec<KeyCode>)
        ensures
            final(self).held() == Set::<KeyCode>::empty(),
            r@.no_duplicates(),
            forall|k: KeyCode| r@.contains(k) <==> old(self).held().contains(k),
    {
        let ghost orig = self.bits;
        let mut r: Vec<KeyCode> = Vec::new();
        let mut i: u8 = 0;
        while i < KEY_CODE_COUNT
            invariant
                i <= KEY_CODE_COUNT,
                self.bits == orig,
                r@.no_duplicates(),
                forall|k: KeyCode|
                    r@.contains(k) <==> (bit_set(orig, key_index(k) as u64) && key_index(k) < i),
            decreases KEY_CODE_COUNT - i,
        {
            if (self.bits >> (i as u64)) & 1 == 1 {
                proof {
                    lemma_key_from_index_inverse(i as int);
                }
                let k = KeyCode::from_u8(i).unwrap();
                proof {
                    assert(!r@.contains(k));
                }
                r.push(k);
                proof {
                    assert forall|k2: KeyCode|
                        r@.contains(k2) <==> (bit_set(orig, key_index(k2) as u64) && key_index(k2)
                            < i + 1) by {
                        if k2 == k {
                        } else {
                            lemma_key_index_inverse(k2);
                            if key_index(k2) == key_index(k) {
                                assert(key_from_index(key_index(k2) as int) == k2);
                            }
                        }
                    }
                }
            } else {
                proof {
                    assert forall|k2: KeyCode|
                        r@.contains(k2) <==> (bit_set(orig, key_index(k2) as u64) && key_index(k2)
                            < i + 1) by {
                        lemma_key_index_inverse(k2);
                        if key_index(k2) == i {
                            assert(key_from_index(i as int) == k2);
                            lemma_key_from_index_inverse(i as int);
                        }
                    }
                }
            }
            i = i + 1;
        }
        self.bits = 0;
        proof {
            assert forall|k: KeyCode| !self.held().contains(k) by {
                lemma_bit_zero(key_index(k) as u64);
            }
            assert(self.held() =~= Set::<KeyCode>::empty());
            assert forall|k: KeyCode| r@.contains(k) <==> old(self).held().contains(k) by {
                lemma_key_index_inverse(k);
            }
        }
        r
    }
}

} // verus!
