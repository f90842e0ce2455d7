use vstd::prelude::*;

use crate::errors::AmmError;
use crate::keys::Pubkey;
use crate::pool::PoolConfig;

verus! {

/// Whether `s` holds `q` at some position.
pub open spec fn seq_contains(s: Seq<Pubkey>, q: Pubkey) -> bool {
    exists|i: int| 0 <= i < s.len() && s[i] == q
}

/// Whether `s` holds no identifier twice.
pub open spec fn seq_distinct(s: Seq<Pubkey>) -> bool {
    forall|i: int, j: int| 0 <= i < j < s.len() ==> s[i] != s[j]
}

/// The set of external callback programs a market's operator has approved to
/// run during its transfers: unordered, no duplicates, mutated only through
/// the authority-gated operations below.
#[derive(Clone, Debug)]
pub struct HookWhitelist {
    /// The market this whitelist belongs to (a non-owning back-reference).
    pub owning_pool: Pubkey,
    /// The approved callback-program identifiers.
    pub allowed: Vec<Pubkey>,
}

impl HookWhitelist {
    /// Membership of `program_id` in the approved set.
    pub open spec fn contains_key(self, program_id: Pubkey) -> bool {
        seq_contains(self.allowed@, program_id)
    }

    /// Well-formedness: the backing vector holds no duplicates, so it denotes
    /// a set.
    pub open spec fn wf(self) -> bool {
        seq_distinct(self.allowed@)
    }

    /// Creates the market's whitelist, initially empty.
    pub fn initialize(owning_pool: Pubkey) -> (w: HookWhitelist)
        ensures
            w.owning_pool == owning_pool,
            w.allowed@.len() == 0,
            w.wf(),
            forall|q: Pubkey| !w.contains_key(q),
    {
        HookWhitelist { owning_pool, allowed: Vec::new() }
    }

    /// Decides membership of `program_id` in the approved set.
    pub fn contains(&self, program_id: &Pubkey) -> (r: bool)
        ensures
            r == self.contains_key(*program_id),
    {
        let mut i: usize = 0;
        while i < self.allowed.len()
            invariant
                i <= self.allowed@.len(),
                forall|j: int| 0 <= j < i ==> self.allowed@[j] != *program_id,
            decreases self.allowed@.len() - i,
        {
            if self.allowed[i] == *program_id {
                return true;
            }
            i = i + 1;
        }
        false
    }

    /// Membership test against the approved set: `Ok` exactly when
    /// `program_id` is approved, [`AmmError::HookNotWhitelisted`] otherwise.
    pub fn authorize(&self, program_id: &Pubkey) -> (r: Result<(), AmmError>)
        ensures
            r is Ok <==> self.contains_key(*program_id),
            r matches Err(e) ==> e == AmmError::HookNotWhitelisted,
    {
        if self.contains(program_id) {
            Ok(())
        } else {
            Err(AmmError::HookNotWhitelisted)
        }
    }

    /// Approves `program_id`, idempotently. Only the market's configured
    /// authority may do so; any other caller fails with
    /// [`AmmError::Unauthorized`] and changes nothing.
    pub fn add_hook_program(
        &mut self,
        config: &PoolConfig,
        caller: &Pubkey,
        program_id: Pubkey,
    ) -> (r: Result<(), AmmError>)
        ensures
            r is Ok <==> *caller == config.authority,
            r matches Err(e) ==> e == AmmError::Unauthorized && *final(self) == *old(self),
            r is Ok ==> final(self).owning_pool == old(self).owning_pool,
            r is Ok ==> forall|q: Pubkey|
                final(self).contains_key(q) == (old(self).contains_key(q) || q == program_id),
            r is Ok && old(self).wf() ==> final(self).wf(),
    {
        if !(*caller == config.authority) {
            return Err(AmmError::Unauthorized);
        }
        if !self.contains(&program_id) {
            self.allowed.push(program_id);
            proof {
                assert forall|q: Pubkey|
                    self.contains_key(q) == (old(self).contains_key(q) || q == program_id) by {
                    if old(self).contains_key(q) {
                        let i = choose|i: int|
                            0 <= i < old(self).allowed@.len() && old(self).allowed@[i] == q;
                        assert(self.allowed@[i] == q);
                    }
                    if q == program_id {
                        assert(self.allowed@[self.allowed@.len() - 1] == q);
                    }
                    if self.contains_key(q) {
                        let i = choose|i: int| 0 <= i < self.allowed@.len() && self.allowed@[i]
                            == q;
                        if i < self.allowed@.len() - 1 {
                            assert(old(self).allowed@[i] == q);
                        }
                    }
                }
            }
        }
        Ok(())
    }

    /// Withdraws approval of `program_id`, idempotently, under the same
    /// authorization as [`Self::add_hook_program`].
    pub fn remove_hook_program(
        &mut self,
        config: &PoolConfig,
        caller: &Pubkey,
        program_id: Pubkey,
    ) -> (r: Result<(), AmmError>)
        ensures
            r is Ok <==> *caller == config.authority,
            r matches Err(e) ==> e == AmmError::Unauthorized && *final(self) == *old(self),
            r is Ok ==> final(self).owning_pool == old(self).owning_pool,
            r is Ok ==> forall|q: Pubkey|
                final(self).contains_key(q) == (old(self).contains_key(q) && q != program_id),
            r is Ok && old(self).wf() ==> final(self).wf(),
    {
        if !(*caller == config.authority) {
            return Err(AmmError::Unauthorized);
        }
        let ghost prior: Seq<Pubkey> = self.allowed@;
        let mut kept: Vec<Pubkey> = Vec::new();
        let mut i: usize = 0;
        while i < self.allowed.len()
            invariant
                i <= prior.len(),
                self.allowed@ == prior,
                forall|q: Pubkey|
                    seq_contains(kept@, q) == (seq_contains(prior.take(i as int), q) && q
                        != program_id),
                seq_distinct(prior) ==> seq_distinct(kept@),
            decreases prior.len() - i,
        {
            let candidate = self.allowed[i];
            if !(candidate == program_id) {
                proof {
                    if seq_distinct(prior) && seq_contains(kept@, candidate) {
                        let part = prior.take(i as int);
                        let k = choose|k: int| 0 <= k < part.len() && part[k] == candidate;
                        assert(prior[k] == candidate);
                        assert(false);
                    }
                }
                let ghost kept_before = kept@;
                kept.push(candidate);
                proof {
                    let part = prior.take(i as int);
                    let taken = prior.take(i as int + 1);
                    assert(kept@ == kept_before.push(candidate));
                    assert forall|q: Pubkey|
                        seq_contains(kept@, q) == (seq_contains(taken, q) && q != program_id) by {
                        if seq_contains(kept@, q) {
                            let k = choose|k: int| 0 <= k < kept@.len() && kept@[k] == q;
                            if k < kept_before.len() {
                                assert(kept@[k] == kept_before[k]);
                                assert(seq_contains(kept_before, q));
                                assert(seq_contains(part, q));
                                let k2 = choose|k2: int| 0 <= k2 < part.len() && part[k2] == q;
                                assert(part[k2] == prior[k2]);
                                assert(taken[k2] == prior[k2]);
                            } else {
                                assert(taken[i as int] == candidate);
                            }
                        }
                        if seq_contains(taken, q) && q != program_id {
                            let k = choose|k: int| 0 <= k < taken.len() && taken[k] == q;
                            if k < i {
                                assert(taken[k] == prior[k]);
                                assert(part[k] == prior[k]);
                                assert(seq_contains(part, q));
                                assert(seq_contains(kept_before, q));
                                let k3 = choose|k3: int|
                                    0 <= k3 < kept_before.len() && kept_before[k3] == q;
                                assert(kept@[k3] == kept_before[k3]);
                            } else {
                                assert(kept@[kept@.len() - 1] == q);
                            }
                        }
                    }
                    if seq_distinct(prior) {
                        assert forall|a: int, b: int| 0 <= a < b < kept@.len() implies kept@[a]
                            != kept@[b] by {
                            if b == kept@.len() - 1 {
                                assert(kept_before[a] == kept@[a]);
                                assert(seq_contains(kept_before, kept@[a]));
                            }
                        }
                    }
                }
            } else {
                proof {
                    let part = prior.take(i as int);
                    let taken = prior.take(i as int + 1);
                    assert forall|q: Pubkey|
                        seq_contains(kept@, q) == (seq_contains(taken, q) && q != program_id) by {
                        if seq_contains(kept@, q) {
                            let k = choose|k: int| 0 <= k < part.len() && part[k] == q;
                            assert(taken[k] == q);
                        }
                        if seq_contains(taken, q) && q != program_id {
                            let k = choose|k: int| 0 <= k < taken.len() && taken[k] == q;
                            assert(prior[i as int] == candidate);
                            assert(k < i);
                            assert(part[k] == q);
                        }
                    }
                }
            }
            i = i + 1;
        }
        proof {
            assert(prior.take(prior.len() as int) == prior);
        }
        self.allowed = kept;
        Ok(())
    }
}

} // verus!
