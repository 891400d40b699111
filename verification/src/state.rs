//! An in-memory block store, answering requests to add and fetch blocks.

use crate::block::{header_hash, share, Block, BlockHeaderHash};
use std::sync::Arc;
use vstd::prelude::*;

verus! {

/// A request to the block store.
#[derive(Debug)]
pub enum Request {
    /// Store a block under its hash.
    AddBlock { block: Arc<Block> },
    /// Fetch the block with the given hash.
    GetBlock { hash: BlockHeaderHash },
}

/// An answer of the block store.
#[derive(Debug)]
pub enum Response {
    /// The block was stored.
    Added,
    /// The block that was asked for.
    Block { block: Arc<Block> },
}

/// Why the block store could not answer a request.
#[derive(Clone, Copy, Debug, PartialEq, Eq)]
pub enum StateError {
    /// No block with the requested hash is stored ("block could not be
    /// found").
    BlockNotFound,
}

/// The key under which a block is stored: its hash.
pub open spec fn block_key(block: Arc<Block>) -> Seq<u8> {
    header_hash(block.header.bytes@)
}

/// The stored blocks after `block` is added: it replaces any block stored
/// under the same hash.
pub open spec fn with_block(
    blocks: Map<Seq<u8>, Arc<Block>>,
    block: Arc<Block>,
) -> Map<Seq<u8>, Arc<Block>> {
    blocks.insert(block_key(block), block)
}

/// The block stored under `hash`, if any.
pub open spec fn lookup(blocks: Map<Seq<u8>, Arc<Block>>, hash: Seq<u8>) -> Option<Arc<Block>> {
    if blocks.contains_key(hash) {
        Some(blocks[hash])
    } else {
        None
    }
}

/// The answer to `req` given the stored `blocks`.
pub open spec fn answer(blocks: Map<Seq<u8>, Arc<Block>>, req: Request) -> Result<
    Response,
    StateError,
> {
    match req {
        Request::AddBlock { .. } => Ok(Response::Added),
        Request::GetBlock { hash } => match lookup(blocks, hash.0@) {
            Some(block) => Ok(Response::Block { block }),
            None => Err(StateError::BlockNotFound),
        },
    }
}

/// The stored blocks after `req` is answered.
pub open spec fn after(blocks: Map<Seq<u8>, Arc<Block>>, req: Request) -> Map<
    Seq<u8>,
    Arc<Block>,
> {
    match req {
        Request::AddBlock { block } => with_block(blocks, block),
        Request::GetBlock { .. } => blocks,
    }
}

/// An in-memory store of blocks, keyed by their hashes.
///
/// Entry `i` is the block `blocks[i]` under the hash `hashes[i]`; a hash
/// occurs at most once, and lookups search the hashes in order. The ghost
/// map `stored` is the store's view.
pub struct ZebraState {
    hashes: Vec<BlockHeaderHash>,
    blocks: Vec<Arc<Block>>,
    stored: Ghost<Map<Seq<u8>, Arc<Block>>>,
}

impl View for ZebraState {
    type V = Map<Seq<u8>, Arc<Block>>;

    closed spec fn view(&self) -> Map<Seq<u8>, Arc<Block>> {
        self.stored@
    }
}

impl ZebraState {
    /// The entries agree with the stored map: one entry per stored hash,
    /// each block under its own hash.
    pub closed spec fn wf(&self) -> bool {
        &&& self.hashes.len() == self.blocks.len()
        &&& forall|i: int|
            0 <= i < self.hashes.len() ==> {
                &&& #[trigger] self.hashes@[i].0@ == block_key(self.blocks@[i])
                &&& self.stored@.contains_key(self.hashes@[i].0@)
                &&& self.stored@[self.hashes@[i].0@] == self.blocks@[i]
            }
        &&& forall|k: Seq<u8>|
            #[trigger] self.stored@.contains_key(k) ==> exists|i: int|
                0 <= i < self.hashes.len() && #[trigger] self.hashes@[i].0@ == k
        &&& forall|i: int, j: int|
            0 <= i < j < self.hashes.len() ==> #[trigger] self.hashes@[i].0@
                != #[trigger] self.hashes@[j].0@
    }

    /// An empty store.
    pub fn new() -> (state: ZebraState)
        ensures
            state.wf(),
            state@ == Map::<Seq<u8>, Arc<Block>>::empty(),
    {
        ZebraState { hashes: Vec::new(), blocks: Vec::new(), stored: Ghost(Map::empty()) }
    }

    /// The index of the entry stored under `hash`.
    fn position(&self, hash: &BlockHeaderHash) -> (found: Option<usize>)
        requires
            self.wf(),
        ensures
            match found {
                Some(i) => i < self.hashes.len() && self.hashes@[i as int].0@ == hash.0@,
                None => !self@.contains_key(hash.0@),
            },
    {
        let mut i: usize = 0;
        while i < self.hashes.len()
            invariant
                self.wf(),
                i <= self.hashes.len(),
                forall|j: int| 0 <= j < i ==> self.hashes@[j].0@ != hash.0@,
            decreases self.hashes.len() - i,
        {
            if self.hashes[i].same_as(hash) {
                return Some(i);
            }
            i = i + 1;
        }
        None
    }

    /// Answers `req`: `AddBlock` stores the block under its hash, `GetBlock`
    /// returns the block stored under the hash, or `BlockNotFound`.
    pub fn call(&mut self, req: Request) -> (res: Result<Response, StateError>)
        requires
            old(self).wf(),
        ensures
            final(self).wf(),
            final(self)@ == after(old(self)@, req),
            res == answer(old(self)@, req),
    {
        match req {
            Request::AddBlock { block } => {
                let hash = BlockHeaderHash::from_block(&block);
                let ghost key = hash.0@;
                let ghost old_hashes = self.hashes@;
                let ghost old_blocks = self.blocks@;
                let ghost old_stored = self.stored@;
                match self.position(&hash) {
                    Some(i) => {
                        self.blocks.set(i, block);
                        proof {
                            self.stored@ = old_stored.insert(key, block);
                            assert forall|j: int| 0 <= j < self.hashes.len() && j != i implies
                                #[trigger] self.hashes@[j].0@ != key by {
                                if j < i {
                                    assert(old_hashes[j].0@ != old_hashes[i as int].0@);
                                } else {
                                    assert(old_hashes[i as int].0@ != old_hashes[j].0@);
                                }
                            }
                            assert forall|k: Seq<u8>| #[trigger]
                                self.stored@.contains_key(k) implies exists|j: int|
                                0 <= j < self.hashes.len() && #[trigger] self.hashes@[j].0@
                                    == k by {
                                if k == key {
                                    assert(self.hashes@[i as int].0@ == k);
                                } else {
                                    assert(old_stored.contains_key(k));
                                }
                            }
                        }
                    },
                    None => {
                        self.hashes.push(hash);
                        self.blocks.push(block);
                        proof {
                            self.stored@ = old_stored.insert(key, block);
                            let n = old_hashes.len() as int;
                            assert forall|j: int| 0 <= j < n implies #[trigger]
                                self.hashes@[j].0@ != key by {
                                assert(old_stored.contains_key(old_hashes[j].0@));
                            }
                            assert forall|k: Seq<u8>| #[trigger]
                                self.stored@.contains_key(k) implies exists|j: int|
                                0 <= j < self.hashes.len() && #[trigger] self.hashes@[j].0@
                                    == k by {
                                if k == key {
                                    assert(self.hashes@[n].0@ == k);
                                } else {
                                    assert(old_stored.contains_key(k));
                                    let j = choose|j: int|
                                        0 <= j < n && #[trigger] old_hashes[j].0@ == k;
                                    assert(self.hashes@[j].0@ == k);
                                }
                            }
                        }
                    },
                }
                Ok(Response::Added)
            },
            Request::GetBlock { hash } => {
                match self.position(&hash) {
                    Some(i) => Ok(Response::Block { block: share(&self.blocks[i]) }),
                    None => Err(StateError::BlockNotFound),
                }
            },
        }
    }
}

impl Default for ZebraState {
    /// An empty store.
    fn default() -> (state: ZebraState)
        ensures
            state.wf(),
            state@ == Map::<Seq<u8>, Arc<Block>>::empty(),
    {
        ZebraState::new()
    }
}

/// A block that was added is given back when it is asked for by its hash.
pub proof fn lemma_get_returns_added(
    blocks: Map<Seq<u8>, Arc<Block>>,
    block: Arc<Block>,
    hash: BlockHeaderHash,
)
    requires
        hash.0@ == block_key(block),
    ensures
        answer(after(blocks, Request::AddBlock { block }), Request::GetBlock { hash }) == Ok::<
            Response,
            StateError,
        >(Response::Block { block }),
{
}

/// Adding a block changes nothing stored under any other hash.
pub proof fn lemma_add_keeps_others(
    blocks: Map<Seq<u8>, Arc<Block>>,
    block: Arc<Block>,
    hash: Seq<u8>,
)
    requires
        hash != block_key(block),
    ensures
        lookup(after(blocks, Request::AddBlock { block }), hash) == lookup(blocks, hash),
{
}

/// Fetching a block leaves the store as it was.
pub proof fn lemma_get_keeps_store(blocks: Map<Seq<u8>, Arc<Block>>, hash: BlockHeaderHash)
    ensures
        after(blocks, Request::GetBlock { hash }) == blocks,
{
}

/// A store to which nothing was added finds no block.
pub proof fn lemma_empty_store_finds_nothing(hash: BlockHeaderHash)
    ensures
        answer(Map::empty(), Request::GetBlock { hash }) == Err::<Response, StateError>(
            StateError::BlockNotFound,
        ),
{
}

/// Fetching a hash that is not stored fails with `BlockNotFound`, whatever
/// else the store holds.
pub proof fn lemma_get_missing_fails(blocks: Map<Seq<u8>, Arc<Block>>, hash: BlockHeaderHash)
    requires
        !blocks.contains_key(hash.0@),
    ensures
        answer(blocks, Request::GetBlock { hash }) == Err::<Response, StateError>(
            StateError::BlockNotFound,
        ),
{
}

/// A fetch succeeds exactly when its hash is stored, and then it carries
/// the block stored under that hash; it never answers `Added`. Adding
/// always answers `Added`.
pub proof fn lemma_answers_match_requests(
    blocks: Map<Seq<u8>, Arc<Block>>,
    hash: BlockHeaderHash,
    block: Arc<Block>,
)
    ensures
        answer(blocks, Request::GetBlock { hash }) is Ok <==> blocks.contains_key(hash.0@),
        answer(blocks, Request::GetBlock { hash }) != Ok::<Response, StateError>(Response::Added),
        blocks.contains_key(hash.0@) ==> answer(blocks, Request::GetBlock { hash }) == Ok::<
            Response,
            StateError,
        >(Response::Block { block: blocks[hash.0@] }),
        answer(blocks, Request::AddBlock { block }) == Ok::<Response, StateError>(Response::Added),
        after(blocks, Request::AddBlock { block }).dom() == blocks.dom().insert(
            header_hash(block.header.bytes@),
        ),
{
    assert(after(blocks, Request::AddBlock { block }).dom() =~= blocks.dom().insert(
        header_hash(block.header.bytes@),
    ));
}

} // verus!
