use eth_keygen::params::DEFAULT_BALANCE;
use eth_keygen::{Allocation, ConfigBlock, GenesisBlock, OutputError, Params};
use std::collections::BTreeMap;

fn sample_params(overwrite: bool) -> Params {
    Params {
        output_dir: Some(String::from("out")),
        genesis_block_json_path: String::from("genesis.json"),
        node_secret_key_filename: String::from("secret"),
        node_public_key_filename: String::from("public"),
        account_public_key_filename: String::from("account"),
        address_filename: String::from("addr"),
        balance: 7,
        quiet: true,
        write: true,
        overwrite,
    }
}

#[test]
fn allocation_stores_balance_as_decimal_text() {
    let a = Allocation::new(
        1_000_000_000_000_000_000_000_000_000,
        String::from("0x7e5f4552091a69125d5dfcb7b8c2659029395bdf"),
        Some(String::from("sk")),
        Some(String::from("pk")),
        Some(String::from("first")),
    );
    assert_eq!(a.balance, "1000000000000000000000000000");
    assert_eq!(a.address, "0x7e5f4552091a69125d5dfcb7b8c2659029395bdf");
    assert_eq!(a.private_key, Some(String::from("sk")));
    assert_eq!(a.public_key, Some(String::from("pk")));
    assert_eq!(a.comment, Some(String::from("first")));
}

#[test]
fn allocation_balance_edge_values() {
    let zero = Allocation::new(0, String::new(), None, None, None);
    assert_eq!(zero.balance, "0");
    assert_eq!(zero.comment, None);
    assert_eq!(zero.private_key, None);
    assert_eq!(zero.public_key, None);
    let nine = Allocation::new(9, String::new(), None, None, None);
    assert_eq!(nine.balance, "9");
    let ten = Allocation::new(10, String::new(), None, None, None);
    assert_eq!(ten.balance, "10");
    let beyond_64_bits = Allocation::new(18_446_744_073_709_551_616, String::new(), None, None, None);
    assert_eq!(beyond_64_bits.balance, "18446744073709551616");
    let max = Allocation::new(u128::MAX, String::new(), None, None, None);
    assert_eq!(max.balance, "340282366920938463463374607431768211455");
}

#[test]
fn genesis_block_holds_its_fields() {
    let mut qbft = BTreeMap::new();
    qbft.insert(String::from("blockperiodseconds"), 2u32);
    qbft.insert(String::from("epochlength"), 30000u32);
    let config = ConfigBlock {
        chain_id: 1337,
        homestead_block: 0,
        dao_fork_block: 0,
        eip150_block: 0,
        eip155_block: 0,
        eip158_block: 0,
        byzantium_block: 0,
        constantinople_block: 0,
        constantinoplefixblock: 0,
        muir_glacier_block: 0,
        berlin_block: 0,
        london_block: 0,
        arrow_glacier_block: 0,
        gray_glacier_block: 0,
        zero_base_fee: 1,
        qbft,
    };
    let mut alloc = BTreeMap::new();
    let address = String::from("0x7e5f4552091a69125d5dfcb7b8c2659029395bdf");
    alloc.insert(address.clone(), Allocation::new(DEFAULT_BALANCE, address.clone(), None, None, None));
    let block = GenesisBlock {
        config,
        nonce: String::from("0x0"),
        gas_limit: String::from("0x1fffffffffffff"),
        difficulty: String::from("0x1"),
        number: String::from("0x0"),
        gas_used: String::from("0x0"),
        parent_hash: String::from("0x00"),
        mix_hash: String::from("0x63"),
        extra_data: String::from("0x"),
        coinbase: String::from("0x0000000000000000000000000000000000000000"),
        alloc,
    };
    let copy = block.clone();
    assert_eq!(copy.config.chain_id, 1337);
    assert_eq!(copy.config.qbft.keys().next().map(String::as_str), Some("blockperiodseconds"));
    assert_eq!(copy.config.qbft.get("epochlength"), Some(&30000));
    assert_eq!(copy.alloc[&address].balance, "1000000000000000000000000000");
    assert_eq!(copy.alloc[&address].address, address);
    assert_eq!(copy.gas_limit, block.gas_limit);
}

#[test]
fn params_hand_out_their_file_names() {
    let params = sample_params(false);
    assert_eq!(params.node_secret_key(), "secret");
    assert_eq!(params.node_public_key(), "public");
    assert_eq!(params.account_public_key(), "account");
    assert_eq!(params.address(), "addr");
    assert!(params.quiet);
}

#[test]
fn params_default_values() {
    let params = Params::default();
    assert_eq!(params.output_dir, None);
    assert_eq!(params.genesis_block_json_path, "config/besu/genesis.json");
    assert_eq!(params.node_secret_key(), "nodeKey");
    assert_eq!(params.node_public_key(), "nodeKey.pub");
    assert_eq!(params.account_public_key(), "accountPrivateKey");
    assert_eq!(params.address(), "address");
    assert_eq!(params.balance, 1_000_000_000_000_000_000_000_000_000);
    assert!(!params.quiet);
    assert!(!params.write);
    assert!(!params.overwrite);
}

#[test]
fn existing_file_is_not_replaced_without_overwrite() {
    let params = sample_params(false);
    match params.admit_target(String::from("out/addr"), true) {
        Err(OutputError::AlreadyExists(path)) => assert_eq!(path, "out/addr"),
        Ok(_) => panic!("an existing file was admitted"),
    }
}

#[test]
fn existing_file_is_replaced_with_overwrite() {
    let params = sample_params(true);
    match params.admit_target(String::from("out/addr"), true) {
        Ok(path) => assert_eq!(path, "out/addr"),
        Err(_) => panic!("overwrite was set"),
    }
}

#[test]
fn new_file_is_always_admitted() {
    for overwrite in [false, true] {
        let params = sample_params(overwrite);
        match params.admit_target(String::from("out/secret"), false) {
            Ok(path) => assert_eq!(path, "out/secret"),
            Err(_) => panic!("nothing stood in the way"),
        }
    }
}

#[test]
fn already_exists_message_names_the_path() {
    let error = OutputError::AlreadyExists(String::from("out/nodeKey"));
    assert_eq!(error.message(), "out/nodeKey already exists");
}
