//! Order nonces for venues that need them.

use vstd::prelude::*;

verus! {

/// Hands out nonces in sequence, from an initial value, wrapping after `u64::MAX`.
pub struct NonceManager {
    pub current: u64,
}

impl NonceManager {
    pub fn new(initial: u64) -> (r: NonceManager)
        ensures
            r.current == initial,
    {
        NonceManager { current: initial }
    }

    /// The current nonce; the next call gives the one after it.
    pub fn next(&mut self) -> (r: u64)
        ensures
            r == old(self).current,
            final(self).current == nonce_step(old(self).current),
    {
        let r = self.current;
        self.current = if r == u64::MAX {
            0
        } else {
            r + 1
        };
        r
    }
}

/// The nonce after `c`: one more, `0` after `u64::MAX`.
pub open spec fn nonce_step(c: u64) -> u64 {
    if c == u64::MAX {
        0
    } else {
        (c + 1) as u64
    }
}

/// The nonce handed out by the call after `j` earlier ones, from `initial`:
/// `initial + j`, wrapping modulo `2^64`.
pub open spec fn nonce_after(initial: u64, j: nat) -> u64 {
    ((initial + j) % 0x1_0000_0000_0000_0000) as u64
}

/// The counter of a manager made with `initial` after `j` calls of `next`.
pub open spec fn counter_after_calls(initial: u64, j: nat) -> u64
    decreases j,
{
    if j == 0 {
        initial
    } else {
        nonce_step(counter_after_calls(initial, (j - 1) as nat))
    }
}

/// A new manager hands out `initial` first, and each call the one after the
/// last: so the call after `j` earlier ones returns `initial + j` modulo
/// `2^64`.
pub proof fn law_nonce_sequence(initial: u64, j: nat)
    ensures
        counter_after_calls(initial, j) == nonce_after(initial, j),
        nonce_step(nonce_after(initial, j)) == nonce_after(initial, j + 1),
    decreases j,
{
    if j > 0 {
        law_nonce_sequence(initial, (j - 1) as nat);
    }
    let m: int = 0x1_0000_0000_0000_0000;
    assert(nonce_after(initial, 0) == initial) by {
        vstd::arithmetic::div_mod::lemma_small_mod(initial as nat, m as nat);
    }
    let x = (initial + j) % m;
    vstd::arithmetic::div_mod::lemma_add_mod_noop(initial + j, 1, m);
    vstd::arithmetic::div_mod::lemma_small_mod(1, m as nat);
    vstd::arithmetic::div_mod::lemma_mod_bound(initial + j, m);
    assert((initial + j + 1) % m == (x + 1) % m);
    if x == m - 1 {
        vstd::arithmetic::div_mod::lemma_mod_self_0(m);
        assert((x + 1) % m == 0);
    } else {
        vstd::arithmetic::div_mod::lemma_small_mod((x + 1) as nat, m as nat);
    }
}

} // verus!
