use std::collections::HashMap;
use vstd::prelude::*;
use crate::error::ContractError;

verus! {

broadcast use vstd::std_specs::hash::group_hash_axioms;

/// The escrow's settings: who administers it, and which token contract's
/// deposits it accepts.
#[derive(Debug, PartialEq, Eq)]
pub struct Config {
    pub owner: String,
    pub cw20_addr: String,
}

impl Clone for Config {
    fn clone(&self) -> (r: Self)
        ensures
            r == *self,
    {
        Config { owner: self.owner.clone(), cw20_addr: self.cw20_addr.clone() }
    }
}

/// A vesting stream: `amount` unlocks linearly over `[start_time, end_time]`
/// (milliseconds), and `claimed_amount` of it has been withdrawn so far.
#[derive(Debug, PartialEq, Eq)]
pub struct Stream {
    pub owner: String,
    pub recipient: String,
    pub amount: u128,
    pub claimed_amount: u128,
    pub start_time: u64,
    pub end_time: u64,
}

impl Stream {
    /// A stream never pays out more than it holds, and its window is not empty.
    pub open spec fn wf(&self) -> bool {
        &&& self.claimed_amount <= self.amount
        &&& self.start_time < self.end_time
    }

    /// The same stream with `claimed_amount` replaced.
    pub open spec fn with_claimed(self, claimed: u128) -> Stream {
        Stream { claimed_amount: claimed, ..self }
    }
}

impl Clone for Stream {
    fn clone(&self) -> (r: Self)
        ensures
            r == *self,
    {
        Stream {
            owner: self.owner.clone(),
            recipient: self.recipient.clone(),
            amount: self.amount,
            claimed_amount: self.claimed_amount,
            start_time: self.start_time,
            end_time: self.end_time,
        }
    }
}

/// The escrow's whole state: its settings, the last identifier handed out,
/// and every stream ever created, under its identifier.
pub struct Ledger {
    pub config: Config,
    pub stream_seq: u128,
    pub streams: HashMap<u128, Stream>,
}

impl Ledger {
    /// The streams are stored under exactly the identifiers `1..=stream_seq`,
    /// and each of them is well formed.
    pub open spec fn wf(&self) -> bool {
        &&& forall|id: u128| #[trigger]
            self.streams@.contains_key(id) <==> 1 <= id <= self.stream_seq
        &&& forall|id: u128| #[trigger]
            self.streams@.contains_key(id) ==> self.streams@[id].wf()
    }

    /// A ledger with the given settings and no stream yet.
    pub fn new(config: Config) -> (r: Ledger)
        ensures
            r.wf(),
            r.config == config,
            r.stream_seq == 0,
            r.streams@ == Map::<u128, Stream>::empty(),
    {
        Ledger { config, stream_seq: 0, streams: HashMap::new() }
    }

    /// The stream stored under `id`.
    pub fn get(&self, id: u128) -> (r: Result<&Stream, ContractError>)
        ensures
            match r {
                Ok(s) => self.streams@.contains_key(id) && *s == self.streams@[id],
                Err(e) => !self.streams@.contains_key(id) && e == ContractError::StreamNotFound,
            },
    {
        match self.streams.get(&id) {
            Some(s) => Ok(s),
            None => Err(ContractError::StreamNotFound),
        }
    }

    /// Stores `stream` under `id`, replacing what was there.
    pub fn put(&mut self, id: u128, stream: Stream)
        ensures
            final(self).streams@ == old(self).streams@.insert(id, stream),
            final(self).config == old(self).config,
            final(self).stream_seq == old(self).stream_seq,
    {
        self.streams.insert(id, stream);
    }
}

/// The identifier that follows `seq`, unless `seq` is the largest one.
pub fn next_id(seq: u128) -> (r: Result<u128, ContractError>)
    ensures
        r == if seq == u128::MAX {
            Err::<u128, ContractError>(ContractError::ArithmeticOverflow)
        } else {
            Ok::<u128, ContractError>((seq + 1) as u128)
        },
{
    match seq.checked_add(1) {
        Some(id) => Ok(id),
        None => Err(ContractError::ArithmeticOverflow),
    }
}

/// `post` is `pre` with `s` stored under the fresh identifier `id`, which is
/// the one after the last handed out.
pub open spec fn stored(pre: Ledger, post: Ledger, id: u128, s: Stream) -> bool {
    &&& id == pre.stream_seq + 1
    &&& post.stream_seq == id
    &&& !pre.streams@.contains_key(id)
    &&& post.streams@ == pre.streams@.insert(id, s)
    &&& post.config == pre.config
}

/// Allocates the next identifier and stores `stream` under it.
pub fn save_stream(ledger: &mut Ledger, stream: Stream) -> (r: Result<u128, ContractError>)
    requires
        old(ledger).wf(),
        stream.wf(),
    ensures
        final(ledger).wf(),
        match r {
            Ok(id) => stored(*old(ledger), *final(ledger), id, stream),
            Err(e) => e == ContractError::ArithmeticOverflow && old(ledger).stream_seq == u128::MAX
                && *final(ledger) == *old(ledger),
        },
{
    let id = next_id(ledger.stream_seq)?;
    ledger.stream_seq = id;
    ledger.put(id, stream);
    Ok(id)
}

} // verus!
