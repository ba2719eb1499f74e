//! Fetching accounts: the pubkeys are requested in chunks of at most
//! `MAX_FETCH_ACCOUNTS`, each reply tagged with the slot it was read at, and
//! each account found is decoded by a caller-supplied deserializer.
use vstd::prelude::*;

use crate::deserialize::AccountError as DeserializeError;
use crate::types::Pubkey;

verus! {

/// The largest number of accounts asked for in one request.
pub const MAX_FETCH_ACCOUNTS: usize = 100;

/// An account as the cluster returns it.
pub struct Account {
    pub lamports: u64,
    pub data: Vec<u8>,
    pub owner: Pubkey,
    pub executable: bool,
    pub rent_epoch: u64,
}

/// An account whose data was decoded into a `T`.
pub struct DecodedAccount<T> {
    pub lamports: u64,
    pub owner: Pubkey,
    pub executable: bool,
    pub rent_epoch: u64,
    pub data: T,
}

/// Why accounts could not be fetched; `E` is the error of the RPC client.
#[allow(inconsistent_fields)]
pub enum AccountError<E> {
    /// An account's data could not be read.
    Deserialize { source: DeserializeError },
    /// The request failed.
    FetchAccount { source: E },
    /// More pubkeys were given than a request takes.
    TooManyPubkeys { max: usize, actual: usize },
}

/// Whether `d` keeps everything of `a` but its data.
pub open spec fn keeps_account_fields<T>(d: DecodedAccount<T>, a: Account) -> bool {
    &&& d.lamports == a.lamports
    &&& d.owner == a.owner
    &&& d.executable == a.executable
    &&& d.rent_epoch == a.rent_epoch
}

/// Whether the deserializer, given the bytes `data`, may return `out`.
pub open spec fn deserializes_to<T, F: Fn(&[u8]) -> Option<T>>(f: F, data: Seq<u8>, out: Option<T>) -> bool {
    exists|s: &[u8]| #[trigger] s@ == data && call_ensures(f, (s,), out)
}

/// Whether `r` is what decoding the account `a` with `f` gives: `None` when
/// the deserializer refuses the data, and otherwise the account with its data
/// replaced by what the deserializer returned.
pub open spec fn decodes_to<T, F: Fn(&[u8]) -> Option<T>>(r: Option<DecodedAccount<T>>, a: Account, f: F) -> bool {
    match r {
        Some(d) => keeps_account_fields(d, a) && deserializes_to(f, a.data@, Some(d.data)),
        None => deserializes_to(f, a.data@, None::<T>),
    }
}

/// Whether `r` is what decoding the reply `a` with `f` gives: the same slot,
/// no account where there was none, and a found account decoded.
pub open spec fn decodes_reply_to<T, F: Fn(&[u8]) -> Option<T>>(
    r: (Option<DecodedAccount<T>>, u64),
    a: (Option<Account>, u64),
    f: F,
) -> bool {
    &&& r.1 == a.1
    &&& match a.0 {
        None => r.0 is None,
        Some(acc) => decodes_to(r.0, acc, f),
    }
}

/// Decodes an account's data with `deserialize`; `None` when it refuses the
/// data.
pub fn decode_account<T, F: Fn(&[u8]) -> Option<T>>(account: Account, deserialize: &F) -> (r: Option<DecodedAccount<T>>)
    requires
        forall|s: &[u8]| call_requires(*deserialize, (s,)),
    ensures
        decodes_to(r, account, *deserialize),
{
    let decoded = deserialize(account.data.as_slice());
    match decoded {
        Some(data) => Some(
            DecodedAccount {
                lamports: account.lamports,
                owner: account.owner,
                executable: account.executable,
                rent_epoch: account.rent_epoch,
                data,
            },
        ),
        None => None,
    }
}

/// Decodes one reply: the account, if found, with its slot.
pub fn decode_reply<T, F: Fn(&[u8]) -> Option<T>>(reply: (Option<Account>, u64), deserialize: &F) -> (r: (
    Option<DecodedAccount<T>>,
    u64,
))
    requires
        forall|s: &[u8]| call_requires(*deserialize, (s,)),
    ensures
        decodes_reply_to(r, reply, *deserialize),
{
    let (account, slot) = reply;
    match account {
        Some(a) => (decode_account(a, deserialize), slot),
        None => (None, slot),
    }
}

/// The items of `v` in reverse order.
fn reversed<T>(v: Vec<T>) -> (r: Vec<T>)
    ensures
        r@.len() == v@.len(),
        forall|j: int| 0 <= j < v@.len() ==> #[trigger] r@[j] == v@[v@.len() - 1 - j],
{
    let ghost input = v@;
    let mut rest = v;
    let mut out: Vec<T> = Vec::new();
    while rest.len() > 0
        invariant
            out@.len() + rest@.len() == input.len(),
            rest@ == input.take(rest@.len() as int),
            forall|j: int| 0 <= j < out@.len() ==> #[trigger] out@[j] == input[input.len() - 1 - j],
        decreases rest@.len(),
    {
        let x = rest.pop().unwrap();
        out.push(x);
    }
    out
}

/// Decodes each reply, in order.
pub fn decode_replies<T, F: Fn(&[u8]) -> Option<T>>(replies: Vec<(Option<Account>, u64)>, deserialize: &F) -> (r: Vec<
    (Option<DecodedAccount<T>>, u64),
>)
    requires
        forall|s: &[u8]| call_requires(*deserialize, (s,)),
    ensures
        r@.len() == replies@.len(),
        forall|i: int|
            0 <= i < replies@.len() ==> decodes_reply_to(#[trigger] r@[i], replies@[i], *deserialize),
{
    let ghost input = replies@;
    let mut rest = reversed(replies);
    let mut out: Vec<(Option<DecodedAccount<T>>, u64)> = Vec::new();
    while rest.len() > 0
        invariant
            forall|s: &[u8]| call_requires(*deserialize, (s,)),
            out@.len() + rest@.len() == input.len(),
            forall|j: int| 0 <= j < rest@.len() ==> #[trigger] rest@[j] == input[input.len() - 1 - j],
            forall|j: int|
                0 <= j < out@.len() ==> decodes_reply_to(#[trigger] out@[j], input[j], *deserialize),
        decreases rest@.len(),
    {
        let reply = rest.pop().unwrap();
        out.push(decode_reply(reply, deserialize));
    }
    out
}

/// Decodes the replies of a fetch, or passes its fault on unchanged: a
/// deserializer that refuses an account's data gives a `None` entry, never a
/// fault.
pub fn decode_fetched<T, F: Fn(&[u8]) -> Option<T>, E>(
    fetched: Result<Vec<(Option<Account>, u64)>, AccountError<E>>,
    deserialize: &F,
) -> (r: Result<Vec<(Option<DecodedAccount<T>>, u64)>, AccountError<E>>)
    requires
        forall|s: &[u8]| call_requires(*deserialize, (s,)),
    ensures
        fetched is Err ==> r == Err::<Vec<(Option<DecodedAccount<T>>, u64)>, AccountError<E>>(
            fetched->Err_0,
        ),
        fetched matches Ok(replies) ==> r matches Ok(out) && out@.len() == replies@.len()
            && forall|i: int|
            0 <= i < replies@.len() ==> decodes_reply_to(#[trigger] out@[i], replies@[i], *deserialize),
{
    match fetched {
        Ok(replies) => Ok(decode_replies(replies, deserialize)),
        Err(e) => Err(e),
    }
}

/// Decodes the reply of a single-account fetch, or passes its fault on
/// unchanged.
pub fn decode_fetched_reply<T, F: Fn(&[u8]) -> Option<T>, E>(
    fetched: Result<(Option<Account>, u64), AccountError<E>>,
    deserialize: &F,
) -> (r: Result<(Option<DecodedAccount<T>>, u64), AccountError<E>>)
    requires
        forall|s: &[u8]| call_requires(*deserialize, (s,)),
    ensures
        fetched is Err ==> r == Err::<(Option<DecodedAccount<T>>, u64), AccountError<E>>(
            fetched->Err_0,
        ),
        fetched matches Ok(reply) ==> r matches Ok(out) && decodes_reply_to(out, reply, *deserialize),
{
    match fetched {
        Ok(reply) => Ok(decode_reply(reply, deserialize)),
        Err(e) => Err(e),
    }
}

/// The progress of fetching a list of accounts in chunks.
pub struct AccountsFetch<A> {
    total: usize,
    fetched: usize,
    accounts: Vec<(Option<A>, u64)>,
}

/// What to do next.
#[derive(Debug, PartialEq, Eq)]
pub enum FetchStep {
    /// Request the accounts of the pubkeys `start..end`.
    FetchChunk { start: usize, end: usize },
    /// Every account is in.
    Done,
}

/// The end of the chunk that starts at `start`.
pub open spec fn chunk_end(start: int, total: int) -> int {
    if start + MAX_FETCH_ACCOUNTS < total {
        start + MAX_FETCH_ACCOUNTS
    } else {
        total
    }
}

/// The number of requests still to make when the first `fetched` of `total`
/// pubkeys are done.
pub open spec fn requests_left(fetched: int, total: int) -> int
    decreases total - fetched,
{
    if fetched >= total {
        0
    } else {
        1 + requests_left(chunk_end(fetched, total), total)
    }
}

/// Fetching `total` accounts takes `ceil(total / MAX_FETCH_ACCOUNTS)`
/// requests, and none at all for no pubkeys.
pub proof fn law_request_count(fetched: int, total: int)
    requires
        0 <= fetched <= total,
    ensures
        requests_left(fetched, total) == (total - fetched + MAX_FETCH_ACCOUNTS - 1)
            / (MAX_FETCH_ACCOUNTS as int),
    decreases total - fetched,
{
    if fetched < total {
        law_request_count(chunk_end(fetched, total), total);
    }
}

/// Each account of a reply, paired with the slot of the reply.
pub open spec fn with_slot<A>(chunk: Seq<Option<A>>, slot: u64) -> Seq<(Option<A>, u64)> {
    chunk.map_values(|a: Option<A>| (a, slot))
}

/// Pairing a reply's accounts with its slot keeps one entry per account, in
/// order, found or not: the `i`-th entry is the `i`-th account with the slot.
pub proof fn law_with_slot<A>(chunk: Seq<Option<A>>, slot: u64)
    ensures
        with_slot(chunk, slot).len() == chunk.len(),
        forall|i: int| 0 <= i < chunk.len() ==> #[trigger] with_slot(chunk, slot)[i] == (chunk[i], slot),
{
}

impl<A> AccountsFetch<A> {
    #[verifier::type_invariant]
    spec fn in_bounds(self) -> bool {
        self.fetched <= self.total
    }

    /// The number of pubkeys.
    pub closed spec fn total(self) -> nat {
        self.total as nat
    }

    /// The number of pubkeys whose accounts are in.
    pub closed spec fn fetched(self) -> nat {
        self.fetched as nat
    }

    /// The accounts received so far, in order, each with its reply's slot.
    pub closed spec fn accounts(self) -> Seq<(Option<A>, u64)> {
        self.accounts@
    }

    /// The fetch of `total` accounts, none of them in yet.
    pub fn new(total: usize) -> (r: Self)
        ensures
            r.total() == total,
            r.fetched() == 0,
            r.accounts() == Seq::<(Option<A>, u64)>::empty(),
    {
        AccountsFetch { total, fetched: 0, accounts: Vec::new() }
    }

    /// The next request: the next at most `MAX_FETCH_ACCOUNTS` pubkeys, or
    /// nothing once every pubkey was asked for.
    pub fn next_step(&self) -> (r: FetchStep)
        ensures
            self.fetched() <= self.total(),
            self.fetched() < self.total() ==> r == (FetchStep::FetchChunk {
                start: self.fetched() as usize,
                end: chunk_end(self.fetched() as int, self.total() as int) as usize,
            }),
            self.fetched() == self.total() ==> r == FetchStep::Done,
    {
        proof {
            use_type_invariant(self);
        }
        if self.fetched < self.total {
            let end: usize = if self.total - self.fetched > MAX_FETCH_ACCOUNTS {
                self.fetched + MAX_FETCH_ACCOUNTS
            } else {
                self.total
            };
            FetchStep::FetchChunk { start: self.fetched, end }
        } else {
            FetchStep::Done
        }
    }

    /// Takes in the reply to the request of the next chunk: its accounts,
    /// each paired with the reply's slot, follow those already in.
    pub fn on_chunk(&mut self, chunk: Vec<Option<A>>, slot: u64)
        requires
            old(self).fetched() < old(self).total(),
        ensures
            final(self).total() == old(self).total(),
            final(self).fetched() == chunk_end(old(self).fetched() as int, old(self).total() as int),
            final(self).accounts() == old(self).accounts() + with_slot(chunk@, slot),
            final(self).accounts().len() == old(self).accounts().len() + chunk@.len(),
            forall|i: int|
                0 <= i < old(self).accounts().len() ==> #[trigger] final(self).accounts()[i] == old(
                    self,
                ).accounts()[i],
            forall|i: int|
                0 <= i < chunk@.len() ==> #[trigger] final(self).accounts()[old(
                    self,
                ).accounts().len() + i] == (chunk@[i], slot),
            old(self).accounts().len() == old(self).fetched() && chunk@.len() == chunk_end(
                old(self).fetched() as int,
                old(self).total() as int,
            ) - old(self).fetched() ==> final(self).accounts().len() == final(self).fetched(),
    {
        proof {
            use_type_invariant(&*self);
        }
        let ghost before = self.accounts@;
        let mut rest = reversed(chunk);
        let mut tagged: Vec<(Option<A>, u64)> = Vec::new();
        while rest.len() > 0
            invariant
                tagged@.len() + rest@.len() == chunk@.len(),
                forall|j: int| 0 <= j < rest@.len() ==> #[trigger] rest@[j] == chunk@[chunk@.len() - 1 - j],
                forall|j: int| 0 <= j < tagged@.len() ==> #[trigger] tagged@[j] == (chunk@[j], slot),
            decreases rest@.len(),
        {
            let a = rest.pop().unwrap();
            tagged.push((a, slot));
        }
        assert(tagged@ =~= with_slot(chunk@, slot));
        let end: usize = if self.total - self.fetched > MAX_FETCH_ACCOUNTS {
            self.fetched + MAX_FETCH_ACCOUNTS
        } else {
            self.total
        };
        let mut accounts = Vec::new();
        std::mem::swap(&mut accounts, &mut self.accounts);
        accounts.append(&mut tagged);
        *self = AccountsFetch { total: self.total, fetched: end, accounts };
        proof {
            law_with_slot(chunk@, slot);
        }
    }

    /// Gives up on a failed request: the accounts received so far are dropped
    /// and the fault is the request's error.
    pub fn fail<E>(self, source: E) -> (r: AccountError<E>)
        ensures
            r == (AccountError::FetchAccount { source }),
    {
        AccountError::FetchAccount { source }
    }

    /// The accounts received, in order, each with its reply's slot.
    pub fn finish(self) -> (r: Vec<(Option<A>, u64)>)
        ensures
            r@ == self.accounts(),
    {
        self.accounts
    }
}

/// The fault of a failed request.
pub fn fetch_failed<E>(source: E) -> (r: AccountError<E>)
    ensures
        r == (AccountError::FetchAccount { source }),
{
    AccountError::FetchAccount { source }
}

} // verus!
