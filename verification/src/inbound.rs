//! The inbound service, which answers requests from peers.
//!
//! The service holds the network-setup channel until the outbound service
//! and the address book arrive on it, and from then on holds those and a
//! download queue; it always holds the block store and the block verifier.
//! Besides serving addresses and chain data, it takes
//! part in block and transaction diffusion. Here it tracks that setup, combines the readiness of the
//! services it relies on, routes each peer request to what must be done for
//! it, and shapes what comes back into responses; waiting on the handles is
//! left to the caller.

use crate::block::{share, Block, BlockHeader, BlockHeaderHash, Transaction, TransactionHash};
use crate::serialization::SocketAddr;
use std::sync::Arc;
use vstd::prelude::*;

verus! {

/// The most peer addresses sent in one answer (a Bitcoin protocol limit).
pub const MAX_ADDR: usize = 1000;

/// What is known of a peer: its address, the services it offers and when it
/// was last seen (seconds since the Unix epoch).
#[derive(Clone, Copy, Debug, PartialEq, Eq)]
pub struct MetaAddr {
    pub addr: SocketAddr,
    pub services: u64,
    pub last_seen: u32,
}

/// A nonce that pairs a ping with its pong.
#[derive(Clone, Copy, Debug, PartialEq, Eq)]
pub struct Nonce(pub u64);

/// A request from a peer.
#[derive(Debug)]
pub enum Request {
    /// Addresses of other peers.
    Peers,
    /// A ping, answered inside the network layer.
    Ping(Nonce),
    /// The blocks with these hashes.
    BlocksByHash(Vec<BlockHeaderHash>),
    /// The transactions with these hashes.
    TransactionsByHash(Vec<TransactionHash>),
    /// Hashes of the blocks that follow the peer's known blocks.
    FindBlocks { known_blocks: Vec<BlockHeaderHash>, stop: Option<BlockHeaderHash> },
    /// Headers of the blocks that follow the peer's known blocks.
    FindHeaders { known_blocks: Vec<BlockHeaderHash>, stop: Option<BlockHeaderHash> },
    /// A transaction pushed by the peer.
    PushTransaction(Arc<Transaction>),
    /// Hashes of transactions the peer has.
    AdvertiseTransactions(Vec<TransactionHash>),
    /// The hash of a block the peer has.
    AdvertiseBlock(BlockHeaderHash),
    /// The transactions in the peer's mempool.
    MempoolTransactions,
}

/// An answer to a peer.
#[derive(Debug)]
pub enum Response {
    /// Nothing to send back.
    Nil,
    Peers(Vec<MetaAddr>),
    Blocks(Vec<Arc<Block>>),
    BlockHashes(Vec<BlockHeaderHash>),
    BlockHeaders(Vec<BlockHeader>),
    Transactions(Vec<Arc<Transaction>>),
}

/// A request to the node's block store.
#[derive(Debug)]
pub enum StateRequest {
    /// The block with this hash.
    Block(BlockHeaderHash),
    /// Hashes of the blocks that follow the known blocks.
    FindBlockHashes { known_blocks: Vec<BlockHeaderHash>, stop: Option<BlockHeaderHash> },
    /// Headers of the blocks that follow the known blocks.
    FindBlockHeaders { known_blocks: Vec<BlockHeaderHash>, stop: Option<BlockHeaderHash> },
}

/// An answer of the node's block store.
#[derive(Debug)]
pub enum StateResponse {
    Block(Option<Arc<Block>>),
    BlockHashes(Vec<BlockHeaderHash>),
    BlockHeaders(Vec<BlockHeader>),
}

/// Why a peer request failed.
#[derive(Clone, Copy, Debug, PartialEq, Eq)]
pub enum InboundError {
    /// The address book has not arrived yet ("not ready to serve
    /// addresses").
    NotReadyToServeAddresses,
    /// The block store lacks a requested block ("missing block").
    MissingBlock,
}

/// What the service must do to answer a request.
#[derive(Debug)]
pub enum Action {
    /// Answer at once.
    Respond(Response),
    /// Fail at once.
    Fail(InboundError),
    /// Read the sanitized peers from the address book and answer with
    /// `peers_response`.
    ReadPeers,
    /// Send these requests to the block store in turn and answer with
    /// `blocks_response`.
    FetchBlocks(Vec<StateRequest>),
    /// Send this request to the block store and answer with
    /// `block_hashes_response`.
    FindBlockHashes(StateRequest),
    /// Send this request to the block store and answer with
    /// `block_headers_response`.
    FindBlockHeaders(StateRequest),
    /// Queue the block for download and verification, then answer `Nil`.
    DownloadBlock(BlockHeaderHash),
    /// Hand the transaction to the download queue, which verifies it and
    /// gossips it on, then answer `Nil`.
    VerifyTransaction(Arc<Transaction>),
    /// Queue the advertised transactions for download and verification,
    /// then answer `Nil`.
    DownloadTransactions(Vec<TransactionHash>),
}

/// The outcome of checking the network-setup channel without waiting.
#[derive(Debug)]
pub enum SetupPoll<O, A, D> {
    /// The outbound service and the address book arrived; `downloads` is the
    /// download queue started on them.
    Received { outbound: O, address_book: A, downloads: D },
    /// Nothing has arrived yet.
    Empty,
    /// The sender went away without sending.
    Closed,
}

/// What came of checking the network-setup channel.
#[derive(Clone, Copy, Debug, PartialEq, Eq)]
pub enum SetupStep {
    /// The outbound service, the address book and the download queue are
    /// now held, and the channel is dropped.
    Installed,
    /// The channel is kept; go on.
    KeepWaiting,
    /// The channel is kept; report that the service failed.
    Fail,
}

/// Whether a service can take a request.
#[derive(Clone, Copy, Debug, PartialEq, Eq)]
pub enum Readiness<E> {
    Ready,
    Pending,
    Failed(E),
}

/// The inbound service's handles: the network-setup channel `R` until the
/// setup arrives, then the outbound service `O`, the address book `A` and
/// the download queue `D`; always the block store `S` and the block
/// verifier `V`. Once the setup channel is found closed, the service stays
/// failed.
pub struct Inbound<R, O, A, S, V, D> {
    network_setup: Option<R>,
    outbound: Option<O>,
    address_book: Option<A>,
    state: S,
    verifier: V,
    downloads: Option<D>,
    setup_failed: bool,
}

impl<R, O, A, S, V, D> Inbound<R, O, A, S, V, D> {
    /// Whether the network setup has arrived (the setup channel is gone).
    pub closed spec fn is_set_up(&self) -> bool {
        self.network_setup is None
    }

    /// The outbound service, the address book and the download queue are
    /// held exactly when the setup channel is not.
    pub closed spec fn wf(&self) -> bool {
        &&& self.outbound.is_some() == self.is_set_up()
        &&& self.address_book.is_some() == self.is_set_up()
        &&& self.downloads.is_some() == self.is_set_up()
    }

    pub closed spec fn held_setup(&self) -> Option<R> {
        self.network_setup
    }

    pub closed spec fn held_outbound(&self) -> Option<O> {
        self.outbound
    }

    pub closed spec fn held_address_book(&self) -> Option<A> {
        self.address_book
    }

    pub closed spec fn held_state(&self) -> S {
        self.state
    }

    pub closed spec fn held_verifier(&self) -> V {
        self.verifier
    }

    pub closed spec fn held_downloads(&self) -> Option<D> {
        self.downloads
    }

    /// Whether the setup channel was found closed.
    pub closed spec fn has_failed(&self) -> bool {
        self.setup_failed
    }

    /// A service that holds the setup channel and waits for the network
    /// setup.
    pub fn new(network_setup: R, state: S, verifier: V) -> (inbound: Self)
        ensures
            inbound.wf(),
            !inbound.is_set_up(),
            inbound.held_setup() == Some(network_setup),
            inbound.held_outbound() is None,
            inbound.held_address_book() is None,
            inbound.held_downloads() is None,
            inbound.held_state() == state,
            inbound.held_verifier() == verifier,
            !inbound.has_failed(),
    {
        Inbound {
            network_setup: Some(network_setup),
            outbound: None,
            address_book: None,
            state,
            verifier,
            downloads: None,
            setup_failed: false,
        }
    }

    /// Whether the service still holds the setup channel and must check it.
    pub fn awaiting_network_setup(&self) -> (waiting: bool)
        ensures
            waiting == !self.is_set_up(),
    {
        self.network_setup.is_some()
    }

    /// The setup channel, while it is held.
    pub fn network_setup_mut(&mut self) -> (rx: Option<&mut R>)
        requires
            old(self).wf(),
        ensures
            final(self).wf(),
            rx is Some == !old(self).is_set_up(),
            final(self).is_set_up() == old(self).is_set_up(),
            rx matches Some(r) ==> old(self).held_setup() == Some(*r) && final(self).held_setup()
                == Some(*final(r)),
            final(self).held_outbound() == old(self).held_outbound(),
            final(self).held_address_book() == old(self).held_address_book(),
            final(self).held_state() == old(self).held_state(),
            final(self).held_verifier() == old(self).held_verifier(),
            final(self).has_failed() == old(self).has_failed(),
            final(self).held_downloads() == old(self).held_downloads(),
    {
        self.network_setup.as_mut()
    }

    /// Takes in what a check of the setup channel found: on arrival the
    /// channel is dropped and the new handles are held; otherwise nothing
    /// but the failure mark changes. A closed channel fails the service, and
    /// every later check fails it again.
    pub fn poll_network_setup(&mut self, poll: SetupPoll<O, A, D>) -> (step: SetupStep)
        requires
            old(self).wf(),
            !old(self).is_set_up(),
        ensures
            final(self).wf(),
            step == setup_step(old(self).has_failed(), poll),
            final(self).has_failed() == (step == SetupStep::Fail),
            final(self).held_state() == old(self).held_state(),
            final(self).held_verifier() == old(self).held_verifier(),
            step == SetupStep::Installed ==> (poll matches SetupPoll::Received {
                outbound,
                address_book,
                downloads,
            } && final(self).is_set_up() && final(self).held_outbound() == Some(outbound)
                && final(self).held_address_book() == Some(address_book)
                && final(self).held_downloads() == Some(downloads)),
            step != SetupStep::Installed ==> {
                &&& !final(self).is_set_up()
                &&& final(self).held_setup() == old(self).held_setup()
                &&& final(self).held_outbound() == old(self).held_outbound()
                &&& final(self).held_address_book() == old(self).held_address_book()
                &&& final(self).held_downloads() == old(self).held_downloads()
            },
    {
        if self.setup_failed {
            return SetupStep::Fail;
        }
        match poll {
            SetupPoll::Received { outbound, address_book, downloads } => {
                self.network_setup = None;
                self.outbound = Some(outbound);
                self.address_book = Some(address_book);
                self.downloads = Some(downloads);
                SetupStep::Installed
            },
            SetupPoll::Empty => SetupStep::KeepWaiting,
            SetupPoll::Closed => {
                self.setup_failed = true;
                SetupStep::Fail
            },
        }
    }

    /// The outbound service, once the setup has arrived.
    pub fn outbound_mut(&mut self) -> (outbound: Option<&mut O>)
        requires
            old(self).wf(),
        ensures
            final(self).wf(),
            outbound is Some == old(self).is_set_up(),
            old(self).held_outbound() is Some == old(self).is_set_up(),
            final(self).is_set_up() == old(self).is_set_up(),
            outbound matches Some(o) ==> old(self).held_outbound() == Some(*o)
                && final(self).held_outbound() == Some(*final(o)),
            final(self).held_setup() == old(self).held_setup(),
            final(self).held_address_book() == old(self).held_address_book(),
            final(self).held_state() == old(self).held_state(),
            final(self).held_verifier() == old(self).held_verifier(),
            final(self).has_failed() == old(self).has_failed(),
            final(self).held_downloads() == old(self).held_downloads(),
    {
        self.outbound.as_mut()
    }

    /// The download queue, once the setup has arrived.
    pub fn downloads_mut(&mut self) -> (downloads: Option<&mut D>)
        requires
            old(self).wf(),
        ensures
            final(self).wf(),
            downloads is Some == old(self).is_set_up(),
            old(self).held_downloads() is Some == old(self).is_set_up(),
            final(self).is_set_up() == old(self).is_set_up(),
            downloads matches Some(d) ==> old(self).held_downloads() == Some(*d)
                && final(self).held_downloads() == Some(*final(d)),
            final(self).held_setup() == old(self).held_setup(),
            final(self).held_outbound() == old(self).held_outbound(),
            final(self).held_address_book() == old(self).held_address_book(),
            final(self).held_state() == old(self).held_state(),
            final(self).held_verifier() == old(self).held_verifier(),
            final(self).has_failed() == old(self).has_failed(),
    {
        self.downloads.as_mut()
    }

    /// The address book, once the setup has arrived.
    pub fn address_book(&self) -> (address_book: Option<&A>)
        requires
            self.wf(),
        ensures
            address_book is Some == self.is_set_up(),
            self.held_address_book() is Some == self.is_set_up(),
            address_book matches Some(a) ==> self.held_address_book() == Some(*a),
    {
        self.address_book.as_ref()
    }

    /// The block store.
    pub fn state(&self) -> (state: &S)
        ensures
            *state == self.held_state(),
    {
        &self.state
    }

    /// The block store, to be driven.
    pub fn state_mut(&mut self) -> (state: &mut S)
        requires
            old(self).wf(),
        ensures
            final(self).wf(),
            *state == old(self).held_state(),
            final(self).held_state() == *final(state),
            final(self).is_set_up() == old(self).is_set_up(),
            final(self).held_setup() == old(self).held_setup(),
            final(self).held_outbound() == old(self).held_outbound(),
            final(self).held_address_book() == old(self).held_address_book(),
            final(self).held_verifier() == old(self).held_verifier(),
            final(self).has_failed() == old(self).has_failed(),
            final(self).held_downloads() == old(self).held_downloads(),
    {
        &mut self.state
    }

    /// The block verifier.
    pub fn block_verifier(&self) -> (verifier: &V)
        ensures
            *verifier == self.held_verifier(),
    {
        &self.verifier
    }

    /// The action that answers `req`. Pings never reach this service.
    pub fn call(&self, req: Request) -> (action: Action)
        requires
            self.wf(),
            !(req is Ping),
        ensures
            routes(self.is_set_up(), req, action),
    {
        match req {
            Request::Peers => {
                if self.network_setup.is_none() {
                    Action::ReadPeers
                } else {
                    Action::Fail(InboundError::NotReadyToServeAddresses)
                }
            },
            Request::BlocksByHash(hashes) => Action::FetchBlocks(block_requests(&hashes)),
            Request::FindBlocks { known_blocks, stop } => Action::FindBlockHashes(
                StateRequest::FindBlockHashes { known_blocks, stop },
            ),
            Request::FindHeaders { known_blocks, stop } => Action::FindBlockHeaders(
                StateRequest::FindBlockHeaders { known_blocks, stop },
            ),
            Request::AdvertiseBlock(hash) => {
                if self.network_setup.is_none() {
                    Action::DownloadBlock(hash)
                } else {
                    Action::Respond(Response::Nil)
                }
            },
            Request::TransactionsByHash(_) | Request::MempoolTransactions => Action::Respond(
                Response::Nil,
            ),
            Request::PushTransaction(transaction) => {
                if self.network_setup.is_none() {
                    Action::VerifyTransaction(transaction)
                } else {
                    Action::Respond(Response::Nil)
                }
            },
            Request::AdvertiseTransactions(hashes) => {
                if self.network_setup.is_none() {
                    Action::DownloadTransactions(hashes)
                } else {
                    Action::Respond(Response::Nil)
                }
            },
            Request::Ping(_) => {
                // Excluded by the precondition: the network layer answers pings.
                assert(false);
                Action::Respond(Response::Nil)
            },
        }
    }
}

/// What a check of the setup channel leads to, for a service that has
/// (`failed`) or has not found the channel closed before.
pub open spec fn setup_step<O, A, D>(failed: bool, poll: SetupPoll<O, A, D>) -> SetupStep {
    if failed {
        SetupStep::Fail
    } else {
        match poll {
            SetupPoll::Received { .. } => SetupStep::Installed,
            SetupPoll::Empty => SetupStep::KeepWaiting,
            SetupPoll::Closed => SetupStep::Fail,
        }
    }
}

/// Once the setup channel has been found closed, every later check fails the
/// service, whatever it finds.
pub proof fn lemma_failed_setup_keeps_failing<O, A, D>(poll: SetupPoll<O, A, D>)
    ensures
        setup_step(true, poll) == SetupStep::Fail,
        setup_step(false, SetupPoll::<O, A, D>::Closed) == SetupStep::Fail,
{
}

/// Whether fetching blocks stops after this block-store answer: at the
/// first block that is not found (or an answer of another kind).
pub fn ends_fetch(answer: &StateResponse) -> (stop: bool)
    ensures
        stop == !(*answer matches StateResponse::Block(Some(_))),
{
    match answer {
        StateResponse::Block(Some(_)) => false,
        _ => true,
    }
}

/// `action` answers `req` for a service whose network setup has (`set_up`)
/// or has not arrived: peers only once set up; blocks and block lists from
/// the block store; once set up, advertised blocks and transactions queued
/// for download and pushed transactions handed on for verification and
/// gossip (before that they are answered `Nil` and dropped); and `Nil` for
/// requests for transactions and for the mempool, which the service does not
/// serve.
pub open spec fn routes(set_up: bool, req: Request, action: Action) -> bool {
    match req {
        Request::Peers => if set_up {
            action == Action::ReadPeers
        } else {
            action == Action::Fail(InboundError::NotReadyToServeAddresses)
        },
        Request::BlocksByHash(hashes) => action matches Action::FetchBlocks(reqs) && reqs@
            == fetch_requests(hashes@),
        Request::FindBlocks { known_blocks, stop } => action == Action::FindBlockHashes(
            StateRequest::FindBlockHashes { known_blocks, stop },
        ),
        Request::FindHeaders { known_blocks, stop } => action == Action::FindBlockHeaders(
            StateRequest::FindBlockHeaders { known_blocks, stop },
        ),
        Request::AdvertiseBlock(hash) => if set_up {
            action == Action::DownloadBlock(hash)
        } else {
            action == Action::Respond(Response::Nil)
        },
        Request::TransactionsByHash(_) | Request::MempoolTransactions => action
            == Action::Respond(Response::Nil),
        Request::PushTransaction(transaction) => if set_up {
            action == Action::VerifyTransaction(transaction)
        } else {
            action == Action::Respond(Response::Nil)
        },
        Request::AdvertiseTransactions(hashes) => if set_up {
            action == Action::DownloadTransactions(hashes)
        } else {
            action == Action::Respond(Response::Nil)
        },
        Request::Ping(_) => false,
    }
}

/// One block-store request per hash, in the same order.
pub open spec fn fetch_requests(hashes: Seq<BlockHeaderHash>) -> Seq<StateRequest> {
    hashes.map_values(|h: BlockHeaderHash| StateRequest::Block(h))
}

fn block_requests(hashes: &Vec<BlockHeaderHash>) -> (reqs: Vec<StateRequest>)
    ensures
        reqs@ == fetch_requests(hashes@),
{
    let mut reqs: Vec<StateRequest> = Vec::new();
    let mut i: usize = 0;
    while i < hashes.len()
        invariant
            i <= hashes.len(),
            reqs@ == fetch_requests(hashes@.subrange(0, i as int)),
        decreases hashes.len() - i,
    {
        reqs.push(StateRequest::Block(hashes[i]));
        i = i + 1;
        assert(reqs@ =~= fetch_requests(hashes@.subrange(0, i as int)));
    }
    assert(hashes@.subrange(0, i as int) =~= hashes@);
    reqs
}

/// The readiness of the service, from that of the block store and, once the
/// network setup has arrived, of the outbound service: a failure of either
/// is reported (the block store's first), otherwise it is pending while
/// either is pending, and ready when both are ready.
pub fn combine_readiness<E>(state: Readiness<E>, outbound: Option<Readiness<E>>) -> (ready:
    Readiness<E>)
    ensures
        ready == combined(state, outbound),
{
    let outbound = match outbound {
        Some(r) => r,
        None => Readiness::Ready,
    };
    match (state, outbound) {
        (Readiness::Failed(e), _) => Readiness::Failed(e),
        (_, Readiness::Failed(e)) => Readiness::Failed(e),
        (Readiness::Pending, _) => Readiness::Pending,
        (_, Readiness::Pending) => Readiness::Pending,
        (Readiness::Ready, Readiness::Ready) => Readiness::Ready,
    }
}

/// The combined readiness; a missing outbound service counts as ready.
pub open spec fn combined<E>(state: Readiness<E>, outbound: Option<Readiness<E>>) -> Readiness<E> {
    let outbound = match outbound {
        Some(r) => r,
        None => Readiness::Ready,
    };
    if state is Failed {
        state
    } else if outbound is Failed {
        outbound
    } else if state is Pending || outbound is Pending {
        Readiness::Pending
    } else {
        Readiness::Ready
    }
}

/// The service is ready exactly when the block store is ready and the
/// outbound service, if it has arrived, is ready too; it fails whenever one
/// of them fails.
pub proof fn lemma_ready_only_when_all_ready<E>(state: Readiness<E>, outbound: Option<Readiness<E>>)
    ensures
        (combined(state, outbound) == Readiness::<E>::Ready) <==> (state == Readiness::<E>::Ready
            && (outbound is None || outbound == Some(Readiness::<E>::Ready))),
        (combined(state, outbound) is Failed) <==> (state is Failed || outbound matches Some(
            Readiness::Failed(_),
        )),
{
}

/// The answer to a `Peers` request: the sanitized peers, at most `MAX_ADDR`
/// of them, the first ones kept.
pub fn peers_response(peers: Vec<MetaAddr>) -> (response: Response)
    ensures
        response matches Response::Peers(sent) && sent@ == peers@.take(
            if peers.len() <= MAX_ADDR {
                peers.len() as int
            } else {
                MAX_ADDR as int
            },
        ),
{
    let mut peers = peers;
    peers.truncate(MAX_ADDR);
    Response::Peers(peers)
}

/// The block-store answers can be read as `Block` answers up to the first
/// missing block (past it, nothing is read).
pub open spec fn block_answers(answers: Seq<StateResponse>) -> bool {
    forall|i: int|
        0 <= i < answers.len() && (forall|j: int|
            0 <= j < i ==> #[trigger] answers[j] matches StateResponse::Block(Some(_)))
            ==> #[trigger] answers[i] is Block
}

/// Every requested block was found.
pub open spec fn all_found(answers: Seq<StateResponse>) -> bool {
    forall|i: int| 0 <= i < answers.len() ==> #[trigger] answers[i] matches StateResponse::Block(Some(_))
}

/// The answer to a `BlocksByHash` request, from the block store's answers
/// to its `Block` requests in order: all the blocks, or `MissingBlock` when
/// one was not found.
pub fn blocks_response(answers: Vec<StateResponse>) -> (response: Result<Response, InboundError>)
    requires
        block_answers(answers@),
    ensures
        all_found(answers@) ==> (response matches Ok(Response::Blocks(blocks)) && blocks@.len()
            == answers@.len() && forall|i: int|
            0 <= i < answers@.len() ==> answers@[i] == StateResponse::Block(
                Some(#[trigger] blocks@[i]),
            )),
        !all_found(answers@) ==> response == Err::<Response, InboundError>(
            InboundError::MissingBlock,
        ),
{
    let mut blocks: Vec<Arc<Block>> = Vec::new();
    let mut i: usize = 0;
    while i < answers.len()
        invariant
            block_answers(answers@),
            i <= answers.len(),
            blocks@.len() == i,
            forall|j: int|
                0 <= j < i ==> answers@[j] == StateResponse::Block(Some(#[trigger] blocks@[j])),
        decreases answers.len() - i,
    {
        assert forall|j: int| 0 <= j < i implies #[trigger] answers@[j] matches StateResponse::Block(
            Some(_),
        ) by {
            assert(answers@[j] == StateResponse::Block(Some(blocks@[j])));
        }
        assert(answers@[i as int] is Block);
        match &answers[i] {
            StateResponse::Block(Some(block)) => {
                blocks.push(share(block));
            },
            StateResponse::Block(None) => {
                return Err(InboundError::MissingBlock);
            },
            _ => {
                assert(false);
                return Err(InboundError::MissingBlock);
            },
        }
        i = i + 1;
    }
    assert forall|j: int| 0 <= j < answers@.len() implies #[trigger] answers@[j] matches StateResponse::Block(
        Some(_),
    ) by {
        assert(answers@[j] == StateResponse::Block(Some(blocks@[j])));
    }
    Ok(Response::Blocks(blocks))
}

/// The answer to a `FindBlocks` request, from the block store's hashes:
/// `Nil` when there are none.
pub fn block_hashes_response(answer: StateResponse) -> (response: Response)
    requires
        answer is BlockHashes,
    ensures
        response == match answer {
            StateResponse::BlockHashes(hashes) => if hashes@.len() == 0 {
                Response::Nil
            } else {
                Response::BlockHashes(hashes)
            },
            _ => Response::Nil,
        },
{
    match answer {
        StateResponse::BlockHashes(hashes) => {
            if hashes.len() == 0 {
                Response::Nil
            } else {
                Response::BlockHashes(hashes)
            }
        },
        _ => Response::Nil,
    }
}

/// The answer to a `FindHeaders` request, from the block store's headers:
/// `Nil` when there are none.
pub fn block_headers_response(answer: StateResponse) -> (response: Response)
    requires
        answer is BlockHeaders,
    ensures
        response == match answer {
            StateResponse::BlockHeaders(headers) => if headers@.len() == 0 {
                Response::Nil
            } else {
                Response::BlockHeaders(headers)
            },
            _ => Response::Nil,
        },
{
    match answer {
        StateResponse::BlockHeaders(headers) => {
            if headers.len() == 0 {
                Response::Nil
            } else {
                Response::BlockHeaders(headers)
            }
        },
        _ => Response::Nil,
    }
}

/// A `BlocksByHash` request asks the block store for exactly the requested
/// hashes, one `Block` request each and in the same order, whether or not
/// the network setup has arrived.
pub proof fn lemma_blocks_by_hash_fetches_each(
    set_up: bool,
    hashes: Vec<BlockHeaderHash>,
    action: Action,
)
    requires
        routes(set_up, Request::BlocksByHash(hashes), action),
    ensures
        action matches Action::FetchBlocks(reqs) && reqs@.len() == hashes@.len() && forall|i: int|
            0 <= i < hashes@.len() ==> #[trigger] reqs@[i] == StateRequest::Block(hashes@[i]),
{
}

/// `FindBlocks` and `FindHeaders` pass the peer's known blocks and stop hash
/// to the block store unchanged, whether or not the network setup has
/// arrived.
pub proof fn lemma_find_requests_pass_locator(
    set_up: bool,
    known_blocks: Vec<BlockHeaderHash>,
    stop: Option<BlockHeaderHash>,
    action: Action,
)
    ensures
        routes(set_up, Request::FindBlocks { known_blocks, stop }, action) ==> (
        action matches Action::FindBlockHashes(
            StateRequest::FindBlockHashes { known_blocks: k, stop: s },
        ) && k@ == known_blocks@ && s == stop),
        routes(set_up, Request::FindHeaders { known_blocks, stop }, action) ==> (
        action matches Action::FindBlockHeaders(
            StateRequest::FindBlockHeaders { known_blocks: k, stop: s },
        ) && k@ == known_blocks@ && s == stop),
{
}

/// Before the network setup arrives, peers are refused and advertised or
/// pushed items are dropped; once it has arrived, peers are read and the
/// advertised block, the advertised transactions and the pushed
/// transaction are handed on unchanged. Requests for transactions and for
/// the mempool are always answered `Nil`.
pub proof fn lemma_routes_by_setup(set_up: bool, req: Request, action: Action)
    requires
        routes(set_up, req, action),
    ensures
        req is Peers ==> (set_up ==> action is ReadPeers) && (!set_up ==> action
            == Action::Fail(InboundError::NotReadyToServeAddresses)),
        req matches Request::AdvertiseBlock(h) ==> (set_up ==> (action matches Action::DownloadBlock(
            g,
        ) && g == h)) && (!set_up ==> action == Action::Respond(Response::Nil)),
        req matches Request::AdvertiseTransactions(hs) ==> (set_up ==> (action matches Action::DownloadTransactions(
            gs,
        ) && gs@ == hs@)) && (!set_up ==> action == Action::Respond(Response::Nil)),
        req matches Request::PushTransaction(tx) ==> (set_up ==> (action matches Action::VerifyTransaction(
            t,
        ) && t == tx)) && (!set_up ==> action == Action::Respond(Response::Nil)),
        (req is TransactionsByHash || req is MempoolTransactions) ==> action == Action::Respond(
            Response::Nil,
        ),
        !(req is Ping),
{
}

/// A service that has not failed installs the setup when it arrives, keeps
/// waiting while nothing has arrived, and fails when the channel is closed.
pub proof fn lemma_setup_steps<O, A, D>(outbound: O, address_book: A, downloads: D)
    ensures
        setup_step(false, SetupPoll::Received { outbound, address_book, downloads })
            == SetupStep::Installed,
        setup_step(false, SetupPoll::<O, A, D>::Empty) == SetupStep::KeepWaiting,
        setup_step(false, SetupPoll::<O, A, D>::Closed) == SetupStep::Fail,
{
}

} // verus!
