//! The insurance fund's registry of price curves and the fee pool's list of
//! tokens. Accounts and tokens are identified by number.
use vstd::prelude::*;

verus! {

/// The most price curves the insurance fund registers.
pub const VAMM_LIMIT: usize = 10;

/// Whether a curve is registered.
#[derive(Clone, Copy, Debug, PartialEq, Eq, Structural)]
pub struct VammResponse {
    pub is_vamm: bool,
}

/// Whether a registered curve is switched on.
#[derive(Clone, Copy, Debug, PartialEq, Eq, Structural)]
pub struct VammStatusResponse {
    pub vamm_status: bool,
}

/// Whether a token is on the fee pool's list.
#[derive(Clone, Copy, Debug, PartialEq, Eq, Structural)]
pub struct TokenResponse {
    pub is_token: bool,
}

/// How many tokens the fee pool lists.
#[derive(Clone, Copy, Debug, PartialEq, Eq, Structural)]
pub struct TokenLengthResponse {
    pub length: usize,
}

/// Why a registry operation failed.
#[derive(Clone, Copy, Debug, PartialEq, Eq, Structural)]
pub enum RegistryError {
    Unauthorized,
    AlreadyAdded,
    CapacityReached,
    NotStored,
    AlreadyOn,
    AlreadyOff,
    NotAdded,
    InsufficientFunds,
}

/// `k` is a key of some entry of `s`.
pub open spec fn has_key(s: Seq<(u64, bool)>, k: u64) -> bool {
    exists|i: int| 0 <= i < s.len() && s[i].0 == k
}

/// No key occurs twice in `s`.
pub open spec fn keys_unique(s: Seq<(u64, bool)>) -> bool {
    forall|i: int, j: int| 0 <= i < j < s.len() ==> s[i].0 != s[j].0
}

/// The insurance fund: its owner and the curves it registers, each on or
/// off, in the order they were added.
#[derive(Clone, Debug)]
pub struct InsuranceFund {
    pub owner: u64,
    pub vamms: Vec<(u64, bool)>,
}

impl InsuranceFund {
    /// Keys are unique and within the limit.
    pub open spec fn wf(&self) -> bool {
        keys_unique(self.vamms@) && self.vamms@.len() <= VAMM_LIMIT
    }

    pub fn new(owner: u64) -> (r: InsuranceFund)
        ensures
            r.wf(),
            r.owner == owner,
            r.vamms@ == Seq::<(u64, bool)>::empty(),
    {
        InsuranceFund { owner, vamms: Vec::new() }
    }

    /// The position of `vamm` in the list, if registered.
    fn find(&self, vamm: u64) -> (r: Option<usize>)
        ensures
            r is None <==> !has_key(self.vamms@, vamm),
            r matches Some(i) ==> i < self.vamms@.len() && self.vamms@[i as int].0 == vamm,
    {
        let mut i: usize = 0;
        while i < self.vamms.len()
            invariant
                i <= self.vamms@.len(),
                forall|j: int| 0 <= j < i ==> self.vamms@[j].0 != vamm,
            decreases self.vamms@.len() - i,
        {
            if self.vamms[i].0 == vamm {
                return Some(i);
            }
            i = i + 1;
        }
        None
    }

    /// Hands ownership to `owner`; only the owner may.
    pub fn update_config(&mut self, sender: u64, owner: Option<u64>) -> (r: Result<(), RegistryError>)
        ensures
            r is Ok <==> sender == old(self).owner,
            r is Err ==> r == Err::<(), RegistryError>(RegistryError::Unauthorized),
            final(self).owner == (if r is Ok && owner is Some {
                owner.unwrap()
            } else {
                old(self).owner
            }),
            final(self).vamms@ == old(self).vamms@,
    {
        if sender != self.owner {
            return Err(RegistryError::Unauthorized);
        }
        if let Some(o) = owner {
            self.owner = o;
        }
        Ok(())
    }

    /// Registers `vamm`, switched on, unless it is registered already or the
    /// registry is full.
    pub fn save_vamm(&mut self, vamm: u64) -> (r: Result<(), RegistryError>)
        requires
            old(self).wf(),
        ensures
            final(self).wf(),
            final(self).owner == old(self).owner,
            has_key(old(self).vamms@, vamm) ==> r == Err::<(), RegistryError>(
                RegistryError::AlreadyAdded,
            ),
            !has_key(old(self).vamms@, vamm) && old(self).vamms@.len() >= VAMM_LIMIT ==> r == Err::<
                (),
                RegistryError,
            >(RegistryError::CapacityReached),
            r is Ok <==> !has_key(old(self).vamms@, vamm) && old(self).vamms@.len() < VAMM_LIMIT,
            r is Ok ==> final(self).vamms@ == old(self).vamms@.push((vamm, true)),
            r is Err ==> final(self).vamms@ == old(self).vamms@,
    {
        if self.find(vamm).is_some() {
            return Err(RegistryError::AlreadyAdded);
        }
        if self.vamms.len() >= VAMM_LIMIT {
            return Err(RegistryError::CapacityReached);
        }
        self.vamms.push((vamm, true));
        Ok(())
    }

    /// Owner-only `save_vamm`.
    pub fn add_amm(&mut self, sender: u64, vamm: u64) -> (r: Result<(), RegistryError>)
        requires
            old(self).wf(),
        ensures
            final(self).wf(),
            final(self).owner == old(self).owner,
            sender != old(self).owner ==> r == Err::<(), RegistryError>(RegistryError::Unauthorized),
            r is Ok <==> sender == old(self).owner && !has_key(old(self).vamms@, vamm) && old(
                self,
            ).vamms@.len() < VAMM_LIMIT,
            r is Ok ==> final(self).vamms@ == old(self).vamms@.push((vamm, true)),
            r is Err ==> final(self).vamms@ == old(self).vamms@,
    {
        if sender != self.owner {
            return Err(RegistryError::Unauthorized);
        }
        self.save_vamm(vamm)
    }

    /// Deregisters `vamm`, which must be registered.
    pub fn remove_vamm(&mut self, vamm: u64) -> (r: Result<(), RegistryError>)
        requires
            old(self).wf(),
        ensures
            final(self).wf(),
            final(self).owner == old(self).owner,
            r is Ok <==> has_key(old(self).vamms@, vamm),
            r is Err ==> r == Err::<(), RegistryError>(RegistryError::NotAdded) && final(self).vamms@ == old(self).vamms@,
            r is Ok ==> exists|i: int|
                0 <= i < old(self).vamms@.len() && old(self).vamms@[i].0 == vamm && final(self).vamms@ == old(self).vamms@.remove(i),
            !has_key(final(self).vamms@, vamm),
    {
        match self.find(vamm) {
            None => Err(RegistryError::NotAdded),
            Some(i) => {
                let ghost before = self.vamms@;
                self.vamms.remove(i);
                assert(forall|j: int| 0 <= j < self.vamms@.len() ==> self.vamms@[j].0 != vamm) by {
                    assert forall|j: int| 0 <= j < self.vamms@.len() implies self.vamms@[j].0
                        != vamm by {
                        if j < i {
                            assert(self.vamms@[j] == before[j]);
                        } else {
                            assert(self.vamms@[j] == before[j + 1]);
                        }
                    }
                }
                Ok(())
            },
        }
    }

    /// Owner-only `remove_vamm`.
    pub fn remove_amm(&mut self, sender: u64, vamm: u64) -> (r: Result<(), RegistryError>)
        requires
            old(self).wf(),
        ensures
            final(self).wf(),
            sender != old(self).owner ==> r == Err::<(), RegistryError>(RegistryError::Unauthorized),
            r is Ok <==> sender == old(self).owner && has_key(old(self).vamms@, vamm),
            r is Err ==> final(self).vamms@ == old(self).vamms@,
            r is Ok ==> !has_key(final(self).vamms@, vamm),
            r is Ok ==> exists|i: int|
                0 <= i < old(self).vamms@.len() && old(self).vamms@[i].0 == vamm && final(self).vamms@ == old(self).vamms@.remove(i),
            r == Err::<(), RegistryError>(RegistryError::Unauthorized) || r == Err::<(), RegistryError>(
                RegistryError::NotAdded,
            ) || r is Ok,
            final(self).owner == old(self).owner,
    {
        if sender != self.owner {
            return Err(RegistryError::Unauthorized);
        }
        self.remove_vamm(vamm)
    }

    /// Whether `vamm` is registered, on or off.
    pub fn is_vamm(&self, vamm: u64) -> (r: bool)
        ensures
            r == has_key(self.vamms@, vamm),
    {
        self.find(vamm).is_some()
    }

    /// See `is_vamm`.
    pub fn query_is_vamm(&self, vamm: u64) -> (r: VammResponse)
        ensures
            r.is_vamm == has_key(self.vamms@, vamm),
    {
        VammResponse { is_vamm: self.is_vamm(vamm) }
    }

    /// Whether `vamm` is on; an error where it is not registered.
    pub fn read_vamm_status(&self, vamm: u64) -> (r: Result<bool, RegistryError>)
        requires
            self.wf(),
        ensures
            r is Err <==> !has_key(self.vamms@, vamm),
            r is Err ==> r == Err::<bool, RegistryError>(RegistryError::NotStored),
            r matches Ok(b) ==> self.vamms@.contains((vamm, b)),
    {
        match self.find(vamm) {
            Some(i) => {
                assert(self.vamms@[i as int] == (vamm, self.vamms@[i as int].1));
                Ok(self.vamms[i].1)
            },
            None => Err(RegistryError::NotStored),
        }
    }

    /// See `read_vamm_status`.
    pub fn query_vamm_status(&self, vamm: u64) -> (r: Result<VammStatusResponse, RegistryError>)
        requires
            self.wf(),
        ensures
            r is Err <==> !has_key(self.vamms@, vamm),
            r matches Ok(s) ==> self.vamms@.contains((vamm, s.vamm_status)),
    {
        let b = self.read_vamm_status(vamm)?;
        Ok(VammStatusResponse { vamm_status: b })
    }

    /// Switches a registered `vamm` on or off; switching to the status it
    /// already has is an error.
    pub fn vamm_switch(&mut self, vamm: u64, status: bool) -> (r: Result<(), RegistryError>)
        requires
            old(self).wf(),
        ensures
            final(self).wf(),
            final(self).owner == old(self).owner,
            !has_key(old(self).vamms@, vamm) ==> r == Err::<(), RegistryError>(
                RegistryError::NotStored,
            ),
            old(self).vamms@.contains((vamm, status)) ==> r == Err::<(), RegistryError>(
                if status {
                    RegistryError::AlreadyOn
                } else {
                    RegistryError::AlreadyOff
                },
            ),
            r is Ok <==> old(self).vamms@.contains((vamm, !status)),
            r is Err ==> final(self).vamms@ == old(self).vamms@,
            r is Ok ==> final(self).vamms@.contains((vamm, status)) && final(self).vamms@.len()
                == old(self).vamms@.len() && forall|i: int|
                0 <= i < old(self).vamms@.len() && old(self).vamms@[i].0 != vamm ==> final(self).vamms@[i] == old(self).vamms@[i],
    {
        match self.find(vamm) {
            None => Err(RegistryError::NotStored),
            Some(i) => {
                let current = self.vamms[i].1;
                proof {
                    assert(self.vamms@[i as int] == (vamm, current));
                    assert forall|j: int| 0 <= j < self.vamms@.len() && self.vamms@[j] == (vamm, !current) implies false by {
                        if j != i {
                            assert(self.vamms@[j].0 == self.vamms@[i as int].0);
                        }
                    }
                }
                if current == status {
                    if status {
                        Err(RegistryError::AlreadyOn)
                    } else {
                        Err(RegistryError::AlreadyOff)
                    }
                } else {
                    let ghost before = self.vamms@;
                    self.vamms.set(i, (vamm, status));
                    assert(self.vamms@[i as int] == (vamm, status));
                    assert forall|j: int, k: int| 0 <= j < k < self.vamms@.len() implies self.vamms@[j].0 != self.vamms@[k].0 by {
                        assert(before[j].0 != before[k].0);
                    }
                    Ok(())
                }
            },
        }
    }

    /// The first `limit` registered curves with their status.
    pub fn read_all_vamm_status(&self, limit: usize) -> (r: Vec<(u64, bool)>)
        ensures
            r@ == self.vamms@.take(
                if limit < self.vamms@.len() {
                    limit as int
                } else {
                    self.vamms@.len() as int
                },
            ),
    {
        let n = if limit < self.vamms.len() {
            limit
        } else {
            self.vamms.len()
        };
        let mut out: Vec<(u64, bool)> = Vec::new();
        let mut i: usize = 0;
        while i < n
            invariant
                n <= self.vamms@.len(),
                i <= n,
                out@ == self.vamms@.take(i as int),
            decreases n - i,
        {
            out.push(self.vamms[i]);
            i = i + 1;
            assert(out@ =~= self.vamms@.take(i as int));
        }
        assert(out@ =~= self.vamms@.take(n as int));
        out
    }

    /// The first `limit` registered curves.
    pub fn read_vammlist(&self, limit: usize) -> (r: Vec<u64>)
        ensures
            r@.len() == (if limit < self.vamms@.len() {
                limit as int
            } else {
                self.vamms@.len() as int
            }),
            forall|i: int| 0 <= i < r@.len() ==> r@[i] == self.vamms@[i].0,
    {
        let n = if limit < self.vamms.len() {
            limit
        } else {
            self.vamms.len()
        };
        let mut out: Vec<u64> = Vec::new();
        let mut i: usize = 0;
        while i < n
            invariant
                n <= self.vamms@.len(),
                i <= n,
                out@.len() == i,
                forall|j: int| 0 <= j < i ==> out@[j] == self.vamms@[j].0,
            decreases n - i,
        {
            out.push(self.vamms[i].0);
            i = i + 1;
        }
        out
    }

    /// The registered curves, at most `VAMM_LIMIT` of them.
    pub fn query_mult_vamm(&self) -> (r: Vec<u64>)
        requires
            self.wf(),
        ensures
            r@.len() == self.vamms@.len(),
            forall|i: int| 0 <= i < r@.len() ==> r@[i] == self.vamms@[i].0,
    {
        self.read_vammlist(VAMM_LIMIT)
    }
}

/// No token occurs twice in `s`.
pub open spec fn tokens_unique(s: Seq<u64>) -> bool {
    forall|i: int, j: int| 0 <= i < j < s.len() ==> s[i] != s[j]
}

/// A payment of `amount` of `token` to `recipient`.
#[derive(Clone, Copy, Debug, PartialEq, Eq, Structural)]
pub struct TokenTransfer {
    pub token: u64,
    pub recipient: u64,
    pub amount: u128,
}

/// The fee pool: its owner and the tokens it accepts, in the order added.
#[derive(Clone, Debug)]
pub struct FeePool {
    pub owner: u64,
    pub tokens: Vec<u64>,
}

impl FeePool {
    pub open spec fn wf(&self) -> bool {
        tokens_unique(self.tokens@)
    }

    pub fn new(owner: u64) -> (r: FeePool)
        ensures
            r.wf(),
            r.owner == owner,
            r.tokens@ == Seq::<u64>::empty(),
    {
        FeePool { owner, tokens: Vec::new() }
    }

    fn find(&self, token: u64) -> (r: Option<usize>)
        ensures
            r is None <==> !self.tokens@.contains(token),
            r matches Some(i) ==> i < self.tokens@.len() && self.tokens@[i as int] == token,
    {
        let mut i: usize = 0;
        while i < self.tokens.len()
            invariant
                i <= self.tokens@.len(),
                forall|j: int| 0 <= j < i ==> self.tokens@[j] != token,
            decreases self.tokens@.len() - i,
        {
            if self.tokens[i] == token {
                return Some(i);
            }
            i = i + 1;
        }
        None
    }

    /// Hands ownership to `owner`; only the owner may.
    pub fn update_config(&mut self, sender: u64, owner: Option<u64>) -> (r: Result<(), RegistryError>)
        ensures
            r is Ok <==> sender == old(self).owner,
            r is Err ==> r == Err::<(), RegistryError>(RegistryError::Unauthorized),
            final(self).owner == (if r is Ok && owner is Some {
                owner.unwrap()
            } else {
                old(self).owner
            }),
            final(self).tokens@ == old(self).tokens@,
    {
        if sender != self.owner {
            return Err(RegistryError::Unauthorized);
        }
        if let Some(o) = owner {
            self.owner = o;
        }
        Ok(())
    }

    /// The first `limit` accepted tokens.
    pub fn query_all_token(&self, limit: usize) -> (r: Vec<u64>)
        ensures
            r@ == self.tokens@.take(
                if limit < self.tokens@.len() {
                    limit as int
                } else {
                    self.tokens@.len() as int
                },
            ),
    {
        let n = if limit < self.tokens.len() {
            limit
        } else {
            self.tokens.len()
        };
        let mut out: Vec<u64> = Vec::new();
        let mut i: usize = 0;
        while i < n
            invariant
                n <= self.tokens@.len(),
                i <= n,
                out@ == self.tokens@.take(i as int),
            decreases n - i,
        {
            out.push(self.tokens[i]);
            i = i + 1;
            assert(out@ =~= self.tokens@.take(i as int));
        }
        assert(out@ =~= self.tokens@.take(n as int));
        out
    }

    /// Whether `token` is accepted.
    pub fn is_token(&self, token: u64) -> (r: bool)
        ensures
            r == self.tokens@.contains(token),
    {
        self.find(token).is_some()
    }

    /// See `is_token`.
    pub fn query_is_token(&self, token: u64) -> (r: TokenResponse)
        ensures
            r.is_token == self.tokens@.contains(token),
    {
        TokenResponse { is_token: self.is_token(token) }
    }

    /// How many tokens are accepted.
    pub fn query_token_list_length(&self) -> (r: TokenLengthResponse)
        ensures
            r.length == self.tokens@.len(),
    {
        TokenLengthResponse { length: self.tokens.len() }
    }

    /// Accepts `token`; only the owner may, and only once.
    pub fn add_token(&mut self, sender: u64, token: u64) -> (r: Result<(), RegistryError>)
        requires
            old(self).wf(),
        ensures
            final(self).wf(),
            final(self).owner == old(self).owner,
            sender != old(self).owner ==> r == Err::<(), RegistryError>(RegistryError::Unauthorized),
            sender == old(self).owner && old(self).tokens@.contains(token) ==> r == Err::<
                (),
                RegistryError,
            >(RegistryError::AlreadyAdded),
            r is Ok <==> sender == old(self).owner && !old(self).tokens@.contains(token),
            r is Ok ==> final(self).tokens@ == old(self).tokens@.push(token),
            r is Err ==> final(self).tokens@ == old(self).tokens@,
    {
        if sender != self.owner {
            return Err(RegistryError::Unauthorized);
        }
        if self.find(token).is_some() {
            return Err(RegistryError::AlreadyAdded);
        }
        self.tokens.push(token);
        Ok(())
    }

    /// Stops accepting `token`; only the owner may, and only a listed token.
    pub fn remove_token(&mut self, sender: u64, token: u64) -> (r: Result<(), RegistryError>)
        requires
            old(self).wf(),
        ensures
            final(self).wf(),
            final(self).owner == old(self).owner,
            sender != old(self).owner ==> r == Err::<(), RegistryError>(RegistryError::Unauthorized),
            r is Ok <==> sender == old(self).owner && old(self).tokens@.contains(token),
            r is Err ==> final(self).tokens@ == old(self).tokens@,
            r is Ok ==> !final(self).tokens@.contains(token) && final(self).tokens@.len() + 1
                == old(self).tokens@.len(),
    {
        if sender != self.owner {
            return Err(RegistryError::Unauthorized);
        }
        match self.find(token) {
            None => Err(RegistryError::NotAdded),
            Some(i) => {
                let ghost before = self.tokens@;
                self.tokens.remove(i);
                assert forall|j: int| 0 <= j < self.tokens@.len() implies self.tokens@[j] != token by {
                    if j < i {
                        assert(self.tokens@[j] == before[j]);
                    } else {
                        assert(self.tokens@[j] == before[j + 1]);
                    }
                }
                assert forall|j: int, k: int| 0 <= j < k < self.tokens@.len() implies self.tokens@[j] != self.tokens@[k] by {
                    let jj = if j < i { j } else { j + 1 };
                    let kk = if k < i { k } else { k + 1 };
                    assert(self.tokens@[j] == before[jj]);
                    assert(self.tokens@[k] == before[kk]);
                }
                Ok(())
            },
        }
    }

    /// Pays `amount` of an accepted `token` to `recipient`; only the owner
    /// may, and only within the pool's `balance` of it.
    pub fn send_token(&self, sender: u64, token: u64, amount: u128, recipient: u64, balance: u128) -> (r:
        Result<TokenTransfer, RegistryError>)
        ensures
            sender != self.owner ==> r == Err::<TokenTransfer, RegistryError>(
                RegistryError::Unauthorized,
            ),
            sender == self.owner && !self.tokens@.contains(token) ==> r == Err::<
                TokenTransfer,
                RegistryError,
            >(RegistryError::NotAdded),
            sender == self.owner && self.tokens@.contains(token) && balance < amount ==> r == Err::<
                TokenTransfer,
                RegistryError,
            >(RegistryError::InsufficientFunds),
            r is Ok <==> sender == self.owner && self.tokens@.contains(token) && balance >= amount,
            r is Ok ==> r == Ok::<TokenTransfer, RegistryError>(
                TokenTransfer { token, recipient, amount },
            ),
    {
        if sender != self.owner {
            return Err(RegistryError::Unauthorized);
        }
        if !self.is_token(token) {
            return Err(RegistryError::NotAdded);
        }
        if balance < amount {
            return Err(RegistryError::InsufficientFunds);
        }
        Ok(TokenTransfer { token, recipient, amount })
    }
}

} // verus!
