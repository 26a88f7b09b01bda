use vstd::prelude::*;
use crate::word::M256;
use crate::errors::{CommitError, RequireError};

verus! {

/// What was supplied for an account.
pub ghost struct AccountFact {
    pub balance: M256,
    pub nonce: M256,
    pub code: Seq<u8>,
}

/// The fact last committed for key `k`, if any.
pub open spec fn lookup<V>(s: Seq<(M256, V)>, k: M256) -> Option<V>
    decreases s.len(),
{
    if s.len() == 0 {
        None
    } else if s.last().0 == k {
        Some(s.last().1)
    } else {
        lookup(s.drop_last(), k)
    }
}

/// What committing `v` for `k` reports.
pub open spec fn commit_result<V>(s: Seq<(M256, V)>, k: M256, v: V) -> Result<(), CommitError> {
    match lookup(s, k) {
        None => Ok(()),
        Some(w) => if w == v {
            Ok(())
        } else {
            Err(CommitError::AlreadyCommitted)
        },
    }
}

/// The cache after committing `v` for `k`: a new key is added, a known key
/// keeps its fact.
pub open spec fn commit_view<V>(s: Seq<(M256, V)>, k: M256, v: V) -> Seq<(M256, V)> {
    match lookup(s, k) {
        None => s.push((k, v)),
        Some(_) => s,
    }
}

proof fn lemma_lookup_prefix<V>(s: Seq<(M256, V)>, i: int, k: M256)
    requires
        0 <= i < s.len(),
    ensures
        lookup(s.subrange(0, i + 1), k) == if s[i].0 == k {
            Some(s[i].1)
        } else {
            lookup(s.subrange(0, i), k)
        },
{
    assert(s.subrange(0, i + 1).drop_last() =~= s.subrange(0, i));
}

/// One account's data, as supplied by the caller.
pub struct AccountCommitment {
    pub address: M256,
    pub balance: M256,
    pub nonce: M256,
    pub code: Vec<u8>,
}

impl AccountCommitment {
    pub open spec fn fact(&self) -> AccountFact {
        AccountFact { balance: self.balance, nonce: self.nonce, code: self.code@ }
    }

    /// A copy with the same address and data.
    pub fn duplicate(&self) -> (r: AccountCommitment)
        ensures
            r.address == self.address,
            r.fact() == self.fact(),
    {
        AccountCommitment {
            address: self.address,
            balance: self.balance,
            nonce: self.nonce,
            code: copy_bytes(&self.code),
        }
    }

    fn same_fact(&self, o: &AccountCommitment) -> (r: bool)
        ensures
            r == (self.fact() == o.fact()),
    {
        if self.balance != o.balance || self.nonce != o.nonce || self.code.len() != o.code.len() {
            return false;
        }
        let mut i: usize = 0;
        while i < self.code.len()
            invariant
                i <= self.code.len() == o.code.len(),
                forall|j: int| 0 <= j < i ==> self.code@[j] == o.code@[j],
            decreases self.code.len() - i,
        {
            if self.code[i] != o.code[i] {
                return false;
            }
            i = i + 1;
        }
        assert(self.code@ =~= o.code@);
        true
    }
}

/// A byte-for-byte copy.
pub fn copy_bytes(v: &Vec<u8>) -> (r: Vec<u8>)
    ensures
        r@ == v@,
{
    let mut r: Vec<u8> = Vec::new();
    let mut i: usize = 0;
    while i < v.len()
        invariant
            i <= v.len(),
            r@ == v@.subrange(0, i as int),
        decreases v.len() - i,
    {
        r.push(v[i]);
        i = i + 1;
    }
    assert(r@ =~= v@);
    r
}

/// The accounts committed to one frame, in order of commit.
pub struct AccountState {
    accounts: Vec<AccountCommitment>,
}

impl AccountState {
    pub closed spec fn view(&self) -> Seq<(M256, AccountFact)> {
        Seq::new(self.accounts@.len(), |i: int| (self.accounts@[i].address, self.accounts@[i].fact()))
    }

    pub fn new() -> (r: AccountState)
        ensures
            r@ == Seq::<(M256, AccountFact)>::empty(),
    {
        let r = AccountState { accounts: Vec::new() };
        assert(r@ =~= Seq::<(M256, AccountFact)>::empty());
        r
    }

    /// A copy holding the same facts.
    pub fn duplicate(&self) -> (r: AccountState)
        ensures
            r@ == self@,
    {
        let mut accounts: Vec<AccountCommitment> = Vec::new();
        let mut i: usize = 0;
        while i < self.accounts.len()
            invariant
                i <= self.accounts.len(),
                accounts@.len() == i,
                forall|j: int|
                    0 <= j < i ==> (#[trigger] accounts@[j]).address == self.accounts@[j].address
                        && accounts@[j].fact() == self.accounts@[j].fact(),
            decreases self.accounts.len() - i,
        {
            accounts.push(self.accounts[i].duplicate());
            i = i + 1;
        }
        let r = AccountState { accounts };
        assert(r@ =~= self@);
        r
    }

    fn index_of(&self, address: M256) -> (r: Option<usize>)
        ensures
            match r {
                None => lookup(self@, address).is_none(),
                Some(i) => i < self.accounts.len() && self.accounts@[i as int].address == address
                    && lookup(self@, address) == Some(self.accounts@[i as int].fact()),
            },
    {
        let mut i: usize = self.accounts.len();
        assert(self@.subrange(0, i as int) =~= self@);
        while i > 0
            invariant
                i <= self.accounts.len(),
                lookup(self@, address) == lookup(self@.subrange(0, i as int), address),
            decreases i,
        {
            proof {
                lemma_lookup_prefix(self@, i - 1, address);
            }
            if self.accounts[i - 1].address == address {
                return Some(i - 1);
            }
            i = i - 1;
        }
        assert(self@.subrange(0, 0) =~= Seq::<(M256, AccountFact)>::empty());
        None
    }

    /// The balance of the account at `address`, or the request for it.
    pub fn balance(&self, address: M256) -> (r: Result<M256, RequireError>)
        ensures
            r == match lookup(self@, address) {
                Some(f) => Ok::<M256, RequireError>(f.balance),
                None => Err(RequireError::Account(address)),
            },
    {
        match self.index_of(address) {
            Some(i) => Ok(self.accounts[i].balance),
            None => Err(RequireError::Account(address)),
        }
    }

    /// The code of the account at `address`, or the request for it.
    pub fn code(&self, address: M256) -> (r: Result<Vec<u8>, RequireError>)
        ensures
            match lookup(self@, address) {
                Some(f) => r is Ok && r->Ok_0@ == f.code,
                None => r == Err::<Vec<u8>, RequireError>(RequireError::Account(address)),
            },
    {
        match self.index_of(address) {
            Some(i) => Ok(copy_bytes(&self.accounts[i].code)),
            None => Err(RequireError::Account(address)),
        }
    }

    /// Adds an account; a second commit for one address must carry the same data.
    pub fn commit(&mut self, commitment: AccountCommitment) -> (r: Result<(), CommitError>)
        ensures
            r == commit_result(old(self)@, commitment.address, commitment.fact()),
            final(self)@ == commit_view(old(self)@, commitment.address, commitment.fact()),
    {
        match self.index_of(commitment.address) {
            Some(i) => {
                if self.accounts[i].same_fact(&commitment) {
                    Ok(())
                } else {
                    Err(CommitError::AlreadyCommitted)
                }
            },
            None => {
                let ghost before = self@;
                let ghost entry = (commitment.address, commitment.fact());
                self.accounts.push(commitment);
                assert(self@ =~= before.push(entry));
                Ok(())
            },
        }
    }
}

/// The block hashes committed to one frame, in order of commit.
pub struct BlockhashState {
    hashes: Vec<(M256, M256)>,
}

impl BlockhashState {
    pub closed spec fn view(&self) -> Seq<(M256, M256)> {
        self.hashes@
    }

    pub fn new() -> (r: BlockhashState)
        ensures
            r@ == Seq::<(M256, M256)>::empty(),
    {
        let r = BlockhashState { hashes: Vec::new() };
        assert(r@ =~= Seq::<(M256, M256)>::empty());
        r
    }

    /// A copy holding the same facts.
    pub fn duplicate(&self) -> (r: BlockhashState)
        ensures
            r@ == self@,
    {
        let mut hashes: Vec<(M256, M256)> = Vec::new();
        let mut i: usize = 0;
        while i < self.hashes.len()
            invariant
                i <= self.hashes.len(),
                hashes@ == self.hashes@.subrange(0, i as int),
            decreases self.hashes.len() - i,
        {
            hashes.push(self.hashes[i]);
            i = i + 1;
        }
        assert(hashes@ =~= self.hashes@);
        BlockhashState { hashes }
    }

    /// The hash of block `number`, or the request for it.
    pub fn get(&self, number: M256) -> (r: Result<M256, RequireError>)
        ensures
            r == match lookup(self@, number) {
                Some(h) => Ok::<M256, RequireError>(h),
                None => Err(RequireError::Blockhash(number)),
            },
    {
        let mut i: usize = self.hashes.len();
        assert(self@.subrange(0, i as int) =~= self@);
        while i > 0
            invariant
                i <= self.hashes.len(),
                lookup(self@, number) == lookup(self@.subrange(0, i as int), number),
            decreases i,
        {
            proof {
                lemma_lookup_prefix(self@, i - 1, number);
            }
            let (k, h) = self.hashes[i - 1];
            if k == number {
                return Ok(h);
            }
            i = i - 1;
        }
        assert(self@.subrange(0, 0) =~= Seq::<(M256, M256)>::empty());
        Err(RequireError::Blockhash(number))
    }

    /// Adds a block hash; a second commit for one number must carry the same hash.
    pub fn commit(&mut self, number: M256, hash: M256) -> (r: Result<(), CommitError>)
        ensures
            r == commit_result(old(self)@, number, hash),
            final(self)@ == commit_view(old(self)@, number, hash),
    {
        match self.get(number) {
            Ok(h) => {
                if h == hash {
                    Ok(())
                } else {
                    Err(CommitError::AlreadyCommitted)
                }
            },
            Err(_) => {
                self.hashes.push((number, hash));
                Ok(())
            },
        }
    }
}

} // verus!
