use vstd::prelude::*;
use crate::error::ContractError;
use crate::state::{save_stream, stored, Config, Ledger, Stream};
use crate::vesting::{claimable, claimable_at, vesting_overflows};

verus! {

broadcast use vstd::std_specs::hash::group_hash_axioms;

/// What a withdrawal by `requester` at `now` from `s` comes to: the amount
/// paid out, or the first check that fails.
pub open spec fn withdraw_outcome(s: Stream, requester: Seq<char>, now: u64) -> Result<
    u128,
    ContractError,
> {
    if requester != s.recipient@ {
        Err(ContractError::NotStreamRecipient)
    } else if s.claimed_amount >= s.amount {
        Err(ContractError::StreamFullyClaimed)
    } else if now < s.start_time {
        Err(ContractError::StreamNotStarted)
    } else if vesting_overflows(s, now) {
        Err(ContractError::ArithmeticOverflow)
    } else if claimable_at(s, now) == 0 {
        Err(ContractError::NoFundsToClaim)
    } else {
        Ok(claimable_at(s, now) as u128)
    }
}

/// The stream as it stands after a withdrawal that returned `r`.
pub open spec fn after_withdraw(s: Stream, r: Result<u128, ContractError>) -> Stream {
    match r {
        Ok(c) => s.with_claimed((s.claimed_amount + c) as u128),
        Err(_) => s,
    }
}

impl Stream {
    /// Pays out to `requester` what has vested at `now` and was not claimed
    /// yet, and records it as claimed.
    pub fn withdraw(&mut self, requester: &String, now: u64) -> (r: Result<u128, ContractError>)
        requires
            old(self).wf(),
        ensures
            r == withdraw_outcome(*old(self), requester@, now),
            *final(self) == after_withdraw(*old(self), r),
            final(self).wf(),
    {
        proof {
            crate::vesting::lemma_vested_bounded(*self, now);
        }
        if self.recipient != *requester {
            return Err(ContractError::NotStreamRecipient);
        }
        if self.claimed_amount >= self.amount {
            return Err(ContractError::StreamFullyClaimed);
        }
        if now < self.start_time {
            return Err(ContractError::StreamNotStarted);
        }
        let amount = claimable(self, now)?;
        if amount == 0 {
            return Err(ContractError::NoFundsToClaim);
        }
        self.claimed_amount = self.claimed_amount + amount;
        Ok(amount)
    }
}

/// A withdrawal never lowers `claimed_amount` and never lifts it above
/// `amount`; a successful one raises it.
pub proof fn lemma_claimed_monotonic(s: Stream, requester: Seq<char>, now: u64)
    requires
        s.wf(),
    ensures
        s.claimed_amount <= after_withdraw(s, withdraw_outcome(s, requester, now)).claimed_amount
            <= s.amount,
        withdraw_outcome(s, requester, now) is Ok ==> s.claimed_amount < after_withdraw(
            s,
            withdraw_outcome(s, requester, now),
        ).claimed_amount,
{
    crate::vesting::lemma_vested_bounded(s, now);
}

/// Once the window has closed, the recipient's next withdrawal takes exactly
/// what is left, so that `claimed_amount` reaches `amount`, and any
/// withdrawal after that fails as fully claimed.
pub proof fn lemma_full_vesting(s: Stream, requester: Seq<char>, now: u64)
    requires
        s.wf(),
        requester == s.recipient@,
        now >= s.end_time,
    ensures
        s.claimed_amount < s.amount ==> withdraw_outcome(s, requester, now) == Ok::<
            u128,
            ContractError,
        >((s.amount - s.claimed_amount) as u128),
        after_withdraw(s, withdraw_outcome(s, requester, now)).claimed_amount == s.amount,
        withdraw_outcome(after_withdraw(s, withdraw_outcome(s, requester, now)), requester, now)
            == Err::<u128, ContractError>(ContractError::StreamFullyClaimed),
{
}

/// A second withdrawal at the same time as a successful one finds nothing
/// to claim; if the window has already closed it finds the stream fully
/// claimed instead.
pub proof fn lemma_repeat_withdraw(s: Stream, requester: Seq<char>, now: u64)
    requires
        s.wf(),
        withdraw_outcome(s, requester, now) is Ok,
    ensures
        withdraw_outcome(after_withdraw(s, withdraw_outcome(s, requester, now)), requester, now)
            == if now < s.end_time {
            Err::<u128, ContractError>(ContractError::NoFundsToClaim)
        } else {
            Err::<u128, ContractError>(ContractError::StreamFullyClaimed)
        },
{
    crate::vesting::lemma_vested_bounded(s, now);
    if s.start_time < now < s.end_time {
        let e = (now - s.start_time) as int;
        let d = (s.end_time - s.start_time) as int;
        let a = s.amount as int;
        let q = (e * a) / d;
        vstd::arithmetic::div_mod::lemma_fundamental_div_mod(e * a, d);
        vstd::arithmetic::div_mod::lemma_mod_pos_bound(e * a, d);
        assert(q < a) by (nonlinear_arith)
            requires
                e * a == d * q + (e * a) % d,
                0 <= (e * a) % d,
                0 < e < d,
                0 < a,
        ;
    }
}

/// The payout of a successful withdrawal: `amount` tokens of the configured
/// token contract, to be transferred to `recipient`.
#[derive(Clone, Debug, PartialEq, Eq)]
pub struct Claim {
    pub stream_id: u128,
    pub amount: u128,
    pub recipient: String,
}

/// A stream that was just created, with its identifier.
#[derive(Clone, Debug, PartialEq, Eq)]
pub struct Created {
    pub id: u128,
    pub stream: Stream,
}

/// What the host's account validation made of the owner and the recipient of
/// a creation request: the normalised account, or `None` where it refused it.
#[derive(Clone, Debug, PartialEq, Eq)]
pub struct CheckedAddrs {
    pub owner: Option<String>,
    pub recipient: Option<String>,
}

/// `raw` was accepted by validation and left as it was.
pub open spec fn addr_accepted(raw: Seq<char>, checked: Option<String>) -> bool {
    checked is Some && checked->0@ == raw
}

/// The first check that a creation request fails, if any.
pub open spec fn create_error(
    owner: Seq<char>,
    recipient: Seq<char>,
    start_time: u64,
    end_time: u64,
    now: u64,
    checked: CheckedAddrs,
) -> Option<ContractError> {
    if start_time >= end_time {
        Some(ContractError::InvalidWindow)
    } else if start_time < now {
        Some(ContractError::InvalidStartTime)
    } else if !addr_accepted(owner, checked.owner) || !addr_accepted(recipient, checked.recipient) {
        Some(ContractError::InvalidAddress)
    } else {
        None
    }
}

/// The contract of a creation request, relating the ledger before (`pre`)
/// and after (`post`) to the result `r`: a rejected request changes nothing;
/// an accepted one stores a fresh stream with nothing claimed under the next
/// identifier.
pub open spec fn create_post(
    pre: Ledger,
    post: Ledger,
    r: Result<Created, ContractError>,
    owner: String,
    recipient: String,
    amount: u128,
    start_time: u64,
    end_time: u64,
    now: u64,
    checked: CheckedAddrs,
) -> bool {
    match create_error(owner@, recipient@, start_time, end_time, now, checked) {
        Some(e) => r == Err::<Created, ContractError>(e) && post == pre,
        None => if pre.stream_seq == u128::MAX {
            r == Err::<Created, ContractError>(ContractError::ArithmeticOverflow) && post == pre
        } else {
            &&& r is Ok
            &&& r->Ok_0.stream == (Stream {
                owner,
                recipient,
                amount,
                claimed_amount: 0,
                start_time,
                end_time,
            })
            &&& stored(pre, post, r->Ok_0.id, r->Ok_0.stream)
        },
    }
}

/// The contract of a withdrawal from stream `id`: an unknown identifier or a
/// failed check changes nothing; otherwise the stream records the claim and
/// the claim is returned for payout to the recipient.
pub open spec fn withdraw_post(
    pre: Ledger,
    post: Ledger,
    r: Result<Claim, ContractError>,
    id: u128,
    requester: Seq<char>,
    now: u64,
) -> bool {
    if !pre.streams@.contains_key(id) {
        r == Err::<Claim, ContractError>(ContractError::StreamNotFound) && post == pre
    } else {
        let s = pre.streams@[id];
        match withdraw_outcome(s, requester, now) {
            Err(e) => r == Err::<Claim, ContractError>(e) && post == pre,
            Ok(c) => {
                &&& r == Ok::<Claim, ContractError>(
                    Claim { stream_id: id, amount: c, recipient: s.recipient },
                )
                &&& post.streams@ == pre.streams@.insert(id, after_withdraw(s, Ok(c)))
                &&& post.config == pre.config
                &&& post.stream_seq == pre.stream_seq
            },
        }
    }
}

/// Checks a creation request made at `now` and builds the stream it asks
/// for, with nothing claimed yet.
pub fn validated_stream(
    now: u64,
    owner: String,
    recipient: String,
    amount: u128,
    start_time: u64,
    end_time: u64,
    checked: &CheckedAddrs,
) -> (r: Result<Stream, ContractError>)
    ensures
        r == match create_error(owner@, recipient@, start_time, end_time, now, *checked) {
            Some(e) => Err::<Stream, ContractError>(e),
            None => Ok::<Stream, ContractError>(
                Stream { owner, recipient, amount, claimed_amount: 0, start_time, end_time },
            ),
        },
        r is Ok ==> r->Ok_0.wf(),
{
    if start_time >= end_time {
        return Err(ContractError::InvalidWindow);
    }
    if start_time < now {
        return Err(ContractError::InvalidStartTime);
    }
    let owner_ok = match &checked.owner {
        Some(v) => *v == owner,
        None => false,
    };
    let recipient_ok = match &checked.recipient {
        Some(v) => *v == recipient,
        None => false,
    };
    if !owner_ok || !recipient_ok {
        return Err(ContractError::InvalidAddress);
    }
    Ok(Stream { owner, recipient, amount, claimed_amount: 0, start_time, end_time })
}

/// Validates a creation request made at `now` and stores the new stream.
pub fn try_create_stream(
    ledger: &mut Ledger,
    now: u64,
    owner: String,
    recipient: String,
    amount: u128,
    start_time: u64,
    end_time: u64,
    checked: &CheckedAddrs,
) -> (r: Result<Created, ContractError>)
    requires
        old(ledger).wf(),
    ensures
        final(ledger).wf(),
        create_post(
            *old(ledger),
            *final(ledger),
            r,
            owner,
            recipient,
            amount,
            start_time,
            end_time,
            now,
            *checked,
        ),
{
    let stream = validated_stream(now, owner, recipient, amount, start_time, end_time, checked)?;
    let record = stream.clone();
    let id = save_stream(ledger, record)?;
    Ok(Created { id, stream })
}

/// Withdraws, on behalf of `requester` at `now`, what has vested in stream
/// `id` and was not claimed yet.
pub fn try_withdraw(ledger: &mut Ledger, now: u64, requester: &String, id: u128) -> (r: Result<
    Claim,
    ContractError,
>)
    requires
        old(ledger).wf(),
    ensures
        final(ledger).wf(),
        withdraw_post(*old(ledger), *final(ledger), r, id, requester@, now),
{
    let mut stream = ledger.get(id)?.clone();
    let amount = stream.withdraw(requester, now)?;
    let recipient = stream.recipient.clone();
    ledger.put(id, stream);
    Ok(Claim { stream_id: id, amount, recipient })
}

/// The request carried by a deposit notification.
#[derive(Clone, Debug, PartialEq, Eq)]
pub enum ReceiveMsg {
    CreateStream { recipient: String, start_time: u64, end_time: u64 },
}

/// A notification from a token contract that `amount` tokens of `sender`
/// were deposited with the escrow, together with what to do with them.
#[derive(Clone, Debug, PartialEq, Eq)]
pub struct Deposit {
    pub sender: String,
    pub amount: u128,
    pub msg: ReceiveMsg,
}

/// The requests that change the escrow's state.
#[derive(Clone, Debug, PartialEq, Eq)]
pub enum ExecuteMsg {
    Receive(Deposit),
    Withdraw { id: u128 },
}

/// What a successful request did.
#[derive(Clone, Debug, PartialEq, Eq)]
pub enum Response {
    Created(Created),
    Withdrawn(Claim),
}

/// The read-only requests.
#[derive(Clone, Debug, PartialEq, Eq)]
pub enum QueryMsg {
    GetConfig,
    GetStream { id: u128 },
}

/// The answer to a read-only request.
#[derive(Clone, Debug, PartialEq, Eq)]
pub enum QueryResponse {
    Config(Config),
    Stream(Stream),
}

/// The contract of a deposit notification sent by `token`: only the
/// configured token contract may create streams, with the depositor as owner.
pub open spec fn receive_post(
    pre: Ledger,
    post: Ledger,
    r: Result<Created, ContractError>,
    token: Seq<char>,
    wrapped: Deposit,
    now: u64,
    checked: CheckedAddrs,
) -> bool {
    if token != pre.config.cw20_addr@ {
        r == Err::<Created, ContractError>(ContractError::Unauthorized) && post == pre
    } else {
        match wrapped.msg {
            ReceiveMsg::CreateStream { recipient, start_time, end_time } => create_post(
                pre,
                post,
                r,
                wrapped.sender,
                recipient,
                wrapped.amount,
                start_time,
                end_time,
                now,
                checked,
            ),
        }
    }
}

/// The current time in milliseconds, from a block time in nanoseconds.
pub fn block_time_millis(nanos: u64) -> (r: u64)
    ensures
        r == nanos / 1_000_000,
{
    nanos / 1_000_000
}

/// Sets the escrow up. The owner is the validated `owner` where one was
/// given and accepted, else `sender`; the token contract must have been
/// accepted by validation.
pub fn instantiate(sender: String, owner: Option<String>, cw20_addr: Option<String>) -> (r: Result<
    Ledger,
    ContractError,
>)
    ensures
        match cw20_addr {
            None => r is Err && r->Err_0 == ContractError::InvalidAddress,
            Some(token) => {
                &&& r is Ok
                &&& r->Ok_0.wf()
                &&& r->Ok_0.config == (Config {
                    owner: match owner {
                        Some(o) => o,
                        None => sender,
                    },
                    cw20_addr: token,
                })
                &&& r->Ok_0.stream_seq == 0
                &&& r->Ok_0.streams@ == Map::<u128, Stream>::empty()
            },
        },
{
    let token = match cw20_addr {
        Some(token) => token,
        None => return Err(ContractError::InvalidAddress),
    };
    let owner = match owner {
        Some(o) => o,
        None => sender,
    };
    Ok(Ledger::new(Config { owner, cw20_addr: token }))
}

/// Accepts deposit notifications from the configured token contract only.
pub fn authorize_deposit(config: &Config, token_sender: &String) -> (r: Result<(), ContractError>)
    ensures
        r == if token_sender@ == config.cw20_addr@ {
            Ok::<(), ContractError>(())
        } else {
            Err::<(), ContractError>(ContractError::Unauthorized)
        },
{
    if config.cw20_addr != *token_sender {
        return Err(ContractError::Unauthorized);
    }
    Ok(())
}

/// Handles a deposit notification from `token_sender`.
pub fn execute_receive(
    ledger: &mut Ledger,
    now: u64,
    token_sender: &String,
    wrapped: Deposit,
    checked: &CheckedAddrs,
) -> (r: Result<Created, ContractError>)
    requires
        old(ledger).wf(),
    ensures
        final(ledger).wf(),
        receive_post(*old(ledger), *final(ledger), r, token_sender@, wrapped, now, *checked),
{
    authorize_deposit(&ledger.config, token_sender)?;
    match wrapped.msg {
        ReceiveMsg::CreateStream { recipient, start_time, end_time } => try_create_stream(
            ledger,
            now,
            wrapped.sender,
            recipient,
            wrapped.amount,
            start_time,
            end_time,
            checked,
        ),
    }
}

/// Handles a request from `sender` at `now`.
pub fn execute(
    ledger: &mut Ledger,
    now: u64,
    sender: &String,
    msg: ExecuteMsg,
    checked: &CheckedAddrs,
) -> (r: Result<Response, ContractError>)
    requires
        old(ledger).wf(),
    ensures
        final(ledger).wf(),
        match msg {
            ExecuteMsg::Receive(wrapped) => match r {
                Ok(Response::Created(c)) => receive_post(
                    *old(ledger),
                    *final(ledger),
                    Ok(c),
                    sender@,
                    wrapped,
                    now,
                    *checked,
                ),
                Ok(Response::Withdrawn(_)) => false,
                Err(e) => receive_post(
                    *old(ledger),
                    *final(ledger),
                    Err(e),
                    sender@,
                    wrapped,
                    now,
                    *checked,
                ),
            },
            ExecuteMsg::Withdraw { id } => match r {
                Ok(Response::Withdrawn(c)) => withdraw_post(
                    *old(ledger),
                    *final(ledger),
                    Ok(c),
                    id,
                    sender@,
                    now,
                ),
                Ok(Response::Created(_)) => false,
                Err(e) => withdraw_post(*old(ledger), *final(ledger), Err(e), id, sender@, now),
            },
        },
{
    match msg {
        ExecuteMsg::Receive(wrapped) => match execute_receive(ledger, now, sender, wrapped, checked) {
            Ok(c) => Ok(Response::Created(c)),
            Err(e) => Err(e),
        },
        ExecuteMsg::Withdraw { id } => match try_withdraw(ledger, now, sender, id) {
            Ok(c) => Ok(Response::Withdrawn(c)),
            Err(e) => Err(e),
        },
    }
}

/// The escrow's settings.
pub fn query_config(ledger: &Ledger) -> (r: Config)
    ensures
        r == ledger.config,
{
    ledger.config.clone()
}

/// The stream stored under `id`.
pub fn query_stream(ledger: &Ledger, id: u128) -> (r: Result<Stream, ContractError>)
    ensures
        r == if ledger.streams@.contains_key(id) {
            Ok::<Stream, ContractError>(ledger.streams@[id])
        } else {
            Err::<Stream, ContractError>(ContractError::StreamNotFound)
        },
{
    let s = ledger.get(id)?;
    Ok(s.clone())
}

/// Answers a read-only request; the ledger is left as it is.
pub fn query(ledger: &Ledger, msg: QueryMsg) -> (r: Result<QueryResponse, ContractError>)
    ensures
        r == match msg {
            QueryMsg::GetConfig => Ok::<QueryResponse, ContractError>(
                QueryResponse::Config(ledger.config),
            ),
            QueryMsg::GetStream { id } => if ledger.streams@.contains_key(id) {
                Ok::<QueryResponse, ContractError>(QueryResponse::Stream(ledger.streams@[id]))
            } else {
                Err::<QueryResponse, ContractError>(ContractError::StreamNotFound)
            },
        },
{
    match msg {
        QueryMsg::GetConfig => Ok(QueryResponse::Config(query_config(ledger))),
        QueryMsg::GetStream { id } => match query_stream(ledger, id) {
            Ok(s) => Ok(QueryResponse::Stream(s)),
            Err(e) => Err(e),
        },
    }
}

/// A creation request whose window is inverted, or which starts before the
/// current time, fails and leaves the ledger as it was.
pub proof fn lemma_create_rejection(
    pre: Ledger,
    post: Ledger,
    r: Result<Created, ContractError>,
    owner: String,
    recipient: String,
    amount: u128,
    start_time: u64,
    end_time: u64,
    now: u64,
    checked: CheckedAddrs,
)
    requires
        start_time > end_time || start_time < now,
        create_post(pre, post, r, owner, recipient, amount, start_time, end_time, now, checked),
    ensures
        r is Err,
        post == pre,
{
}

/// The ledger's stream count after the first `k` of a chain of stores that
/// began on an empty counter.
proof fn lemma_seq_after(ledgers: Seq<Ledger>, ids: Seq<u128>, streams: Seq<Stream>, k: int)
    requires
        ledgers.len() == ids.len() + 1,
        streams.len() == ids.len(),
        ledgers[0].stream_seq == 0,
        forall|i: int|
            0 <= i < ids.len() ==> #[trigger] stored(ledgers[i], ledgers[i + 1], ids[i], streams[i]),
        0 <= k <= ids.len(),
    ensures
        ledgers[k].stream_seq == k,
    decreases k,
{
    if k > 0 {
        lemma_seq_after(ledgers, ids, streams, k - 1);
        assert(stored(ledgers[k - 1], ledgers[k], ids[k - 1], streams[k - 1]));
    }
}

/// Successive creations on a fresh ledger are given the identifiers
/// `1, 2, 3, ...`: distinct, and strictly increasing.
pub proof fn lemma_sequential_ids(ledgers: Seq<Ledger>, ids: Seq<u128>, streams: Seq<Stream>)
    requires
        ledgers.len() == ids.len() + 1,
        streams.len() == ids.len(),
        ledgers[0].stream_seq == 0,
        forall|i: int|
            0 <= i < ids.len() ==> #[trigger] stored(ledgers[i], ledgers[i + 1], ids[i], streams[i]),
    ensures
        forall|i: int| 0 <= i < ids.len() ==> #[trigger] ids[i] == i + 1,
        forall|i: int, j: int| 0 <= i < j < ids.len() ==> ids[i] < ids[j],
{
    assert forall|i: int| 0 <= i < ids.len() implies #[trigger] ids[i] == i + 1 by {
        lemma_seq_after(ledgers, ids, streams, i);
        assert(stored(ledgers[i], ledgers[i + 1], ids[i], streams[i]));
    }
}

} // verus!
