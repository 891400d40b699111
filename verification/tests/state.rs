use std::sync::Arc;

use zebra::block::{Block, BlockHeader, BlockHeaderHash, Transaction};
use zebra::state::{Request, Response, StateError, ZebraState};

/// Mainnet block 415000, serialized.
const BLOCK_MAINNET_415000_HEX: &str = "\
    040000005274b43b9e4ad8f43e93f78463d24dcfe531aeb4719819f4f97f7e0300000000663073bc4bfa95c9bec36aad\
    7268a573049797bdfc5aa4c743fbe4820aa393ce00000000000000000000000000000000000000000000000000000000\
    00000000a8becc5be1ab031cc2fd607c776a7a0000000000000000000000000000000000000000003eb21819fd400500\
    949d55de0cc633e0cce41e4649ef4aa3349f0100290ffe281b947b3b53fbd2f35b1ce292649b96ac6e0883af3a6844b9\
    5592e74556da344b4701961cd4130c68219cfa1341d5afb5049eb0e8be4a2d92d678c40785e33705548b5f3a54f0a4c3\
    9a2f58ee784a24163cd86f54812327df55e1d55ca84b6e7b887a7cbfb9091a585bdb8ea4759307c56c1b3dafc669245a\
    6f654b6f730052266a01ad4f9c0b59ed4e17712b3e72df0498aa8de4888f993531c60acded1d4b66e89de0b6482cccd4\
    a712f5cf9d4ca83be0f922de2c1dbb3a1407480dbe8795993d8be640988abfe7a8a1b33a12131c451e1abc0d83fb8518\
    62c637ce724d5fe97aa9a806cf34bab509f4554b0cd10a7ddfd5821b091ad2c90c1aa1d81eb3d72db41993b648f41e21\
    38ff9531a30ff73b22140e4ebd7baa33848e512d99300c5c131c6e75f5714a5c6dcb178b4a4978dac83ad412fbd69201\
    9250c553049aad457984bedfc96ae701c659bc7007a97d0a9002b945bdec45a945ef6285b2cd553b4c09d907c627863f\
    0399e8725b4ff7fc5979e3cff22814508448ef8b9831c285959333396aa362a51cf205097afabec15e41fb6e30b62237\
    4bf58b37ef9d1b241ead5a682b98b65749a57568e238d50afd417e1e960e7b5a064fd9f694d783a2cbcd58552dedbb9e\
    5e1123674ef73a524196cf05d3e524660549ffe7bd6568057135ffd5afd943f6da11cbb597e8ccecd77ecbe909de0631\
    bfa29cd3e3d5544671ba80256153d6e9990b88ad8e0cf4989bef4be457f9c7b0f1aacd6e0ef320605c29ed0cd2eb6cfc\
    e216c52a317580201cad7a0943d24b7b06d5bf758761dd96e11970b5ded697222b2c77e7f256a605ac755549c1651f25\
    adfc9d53d9117e3a0bb409eee4a600120472949c7dda1c2edb3c330c7f96179982916457d331e96309dd24df74eedd00\
    e7db497ee130f77de666eb557fb316e87adaf1813ce426a458a6eee3a85b2ab88f6553aadae8de652e211a1d9f334d59\
    6b5eb6173407efcc2e8154bb9ca1212aa9a1a1121d2f5a7712cf25cc8148b8052e0d2e09f20e5ba2a98277e975b0eed9\
    a89206966337163f215c9d04a6598b0958d333d846773c69e5abfd0a0427f3660614dd82b79adb851a0d58b62df5f0b3\
    ac836e6e25f3a51f49a99ade57796fe9fcc26f0a1f94ff0819fe52b75087edbed3a81626eb5416c66557f11c0fcedff2\
    23d6aa8cd5c35386e5b4b95a0f0392ca301a38b3687d094493b9e9d264d07a190ce57d116804382a3fabe15af4df4fa0\
    43f0287aa1ed5568d9ef5d12510d010ccdab4eb616f6df13bb3126ef43d9d65735e4e4c04b576348d040b535055a3d5a\
    e191b75f0612f3b24066a05245f27fe57bda66bd6dec7e4fc9cb236802062adde3cd0e313482c92a0c721102b1f38b01\
    5ab8d01559cbcb40f674e9efad5ee9c2fe133faa55ca1dd0ff26710f9da819cc1459cb7ed260dad3db0596258d47c74c\
    32a8b852b671c5a0caa2001603d90c91a7df2e2d4ee9ae9bf1a6b1ec88151c62360d03024d2e2d0114084f6b88c5bba2\
    4aa7cecfac16e91e0baf3d8653e218093e81d2a63c32eff1d9030f9e1414ece420daa24e0dd5b845b3274bb839ca1c53\
    bcc0194242d74b2631b9495a654fbbdcbfad779f7322b60736249880604821d96924e3fa397f354a5ecca34f614da545\
    6f9b36338c37d8f6fbf626be983477766022872746da10a1771ceb02dd8aac01ba186bf1488630479e1284da0190fce8\
    b59ac6b0fd416bee56b72f0a5845153557ff0f4950a0dc5be65ce942d22e18534c4e0efabb2d1525dc4858b9b0f77d47\
    4a125ebc250e08fedbfaa66f453d90932cab3ff45221909968e51e6bc254d509adeb75cba76d48fe024e3e66d8df5e01\
    030000807082c403010000000000000000000000000000000000000000000000000000000000000000ffffffff1a0318\
    5506152f5669614254432f48656c6c6f20776f726c64212fffffffff0200ca9a3b000000001976a914fb8a6a4c11cb21\
    6ce21f9f371dfc9271a469bd6d88ac80b2e60e0000000017a914e0a5ea1340cc6b1d6a82c06c0a9c60b9898b6ae98700\
    0000000000000000";

/// Length of the serialized header of block 415000 (with its Equihash solution).
const HEADER_LEN: usize = 1487;

fn block_415000() -> Arc<Block> {
    let bytes = hex::decode(BLOCK_MAINNET_415000_HEX).expect("Block bytes are in valid hex representation");
    // The header, then a CompactSize transaction count of one, then the transaction.
    assert_eq!(bytes[HEADER_LEN], 1);
    Arc::new(Block {
        header: BlockHeader { bytes: bytes[..HEADER_LEN].to_vec() },
        transactions: vec![Arc::new(Transaction { bytes: bytes[HEADER_LEN + 1..].to_vec() })],
    })
}

fn small_block(tag: u8) -> Arc<Block> {
    Arc::new(Block {
        header: BlockHeader { bytes: vec![tag; 80] },
        transactions: vec![],
    })
}

#[test]
fn round_trip() {
    let block = block_415000();
    let hash = BlockHeaderHash::from_block(&block);

    let mut service = ZebraState::default();

    let response = service
        .call(Request::AddBlock {
            block: block.clone(),
        })
        .expect("adding a block succeeds");
    assert!(
        matches!(response, Response::Added),
        "unexpected response kind: {:?}",
        response
    );

    let block_response = service
        .call(Request::GetBlock { hash })
        .expect("the added block is found");

    match block_response {
        Response::Block {
            block: returned_block,
        } => assert_eq!(block, returned_block),
        _ => panic!("unexpected response kind: {:?}", block_response),
    }
}

#[test]
fn block_hash_is_double_sha256_of_header() {
    let block = block_415000();
    let hash = BlockHeaderHash::from_block(&block);
    let mut expected = hex::decode("0000000001ab37793ce771262b2ffa082519aa3fe891250a1adb43baaf856168").unwrap();
    // Block hashes are displayed byte-reversed.
    expected.reverse();
    assert_eq!(hash.0.to_vec(), expected);
    assert_ne!(hash.0.to_vec(), block.header.bytes[..32].to_vec());
}

#[test]
fn get_on_empty_store_is_not_found() {
    let mut service = ZebraState::new();
    let hash = BlockHeaderHash::from_block(&small_block(7));
    let result = service.call(Request::GetBlock { hash });
    assert!(matches!(result, Err(StateError::BlockNotFound)));
}

#[test]
fn get_unknown_hash_is_not_found() {
    let mut service = ZebraState::new();
    service.call(Request::AddBlock { block: small_block(1) }).unwrap();
    let hash = BlockHeaderHash::from_block(&small_block(2));
    let result = service.call(Request::GetBlock { hash });
    assert!(matches!(result, Err(StateError::BlockNotFound)));
}

#[test]
fn adding_keeps_other_blocks() {
    let mut service = ZebraState::new();
    let first = small_block(1);
    let second = small_block(2);
    service.call(Request::AddBlock { block: first.clone() }).unwrap();
    service.call(Request::AddBlock { block: second.clone() }).unwrap();
    for block in [first, second] {
        let hash = BlockHeaderHash::from_block(&block);
        match service.call(Request::GetBlock { hash }) {
            Ok(Response::Block { block: found }) => assert_eq!(found, block),
            other => panic!("unexpected response: {:?}", other),
        }
    }
}

#[test]
fn adding_same_header_replaces_block() {
    let mut service = ZebraState::new();
    let first = small_block(3);
    let replacement = Arc::new(Block {
        header: first.header.clone(),
        transactions: vec![Arc::new(Transaction { bytes: vec![9, 9, 9] })],
    });
    service.call(Request::AddBlock { block: first.clone() }).unwrap();
    service.call(Request::AddBlock { block: replacement.clone() }).unwrap();
    let hash = BlockHeaderHash::from_block(&first);
    match service.call(Request::GetBlock { hash }) {
        Ok(Response::Block { block: found }) => assert_eq!(found, replacement),
        other => panic!("unexpected response: {:?}", other),
    }
}

#[test]
fn same_as_compares_bytes() {
    let a = BlockHeaderHash([1; 32]);
    let mut bytes = [1; 32];
    bytes[31] = 2;
    let b = BlockHeaderHash(bytes);
    assert!(a.same_as(&a));
    assert!(!a.same_as(&b));
}

#[test]
fn fetching_leaves_store_unchanged() {
    let mut service = ZebraState::new();
    let block = small_block(4);
    service.call(Request::AddBlock { block: block.clone() }).unwrap();
    let hash = BlockHeaderHash::from_block(&block);
    for _ in 0..2 {
        match service.call(Request::GetBlock { hash }) {
            Ok(Response::Block { block: found }) => assert_eq!(found, block),
            other => panic!("unexpected response: {:?}", other),
        }
    }
}
