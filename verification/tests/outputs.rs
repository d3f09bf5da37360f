use eth_keygen::{KeyPair, Params};

fn pair_of_secret_one() -> KeyPair {
    let x = "79be667ef9dcbbac55a06295ce870b07029bfcdb2dce28d959f2815b16f81798";
    let y = "483ada7726a3c4655da4fbfc0e1108a8fd17b448a68554199c47d08ffb10d4b8";
    let mut secret = [0u8; 32];
    secret[31] = 1;
    let mut public = [0u8; 65];
    public[0] = 0x04;
    public[1..33].copy_from_slice(&hex::decode(x).unwrap());
    public[33..].copy_from_slice(&hex::decode(y).unwrap());
    KeyPair::from_parts(secret, public).expect("the generator belongs to the secret key one")
}

fn quiet_params() -> Params {
    let mut params = Params::default();
    params.quiet = true;
    params
}

#[test]
fn node_secret_key_output_is_announced_as_written() {
    let out = Params::default().node_secret_key_output(&pair_of_secret_one());
    assert_eq!(out.filename, "nodeKey");
    assert_eq!(out.contents, "0000000000000000000000000000000000000000000000000000000000000001");
    assert_eq!(
        out.announcement,
        Some(String::from(
            "nodeKey: 0000000000000000000000000000000000000000000000000000000000000001"
        ))
    );
}

#[test]
fn node_public_key_output_is_announced_as_written() {
    let out = Params::default().node_public_key_output(&pair_of_secret_one());
    assert_eq!(out.filename, "nodeKey.pub");
    assert_eq!(
        out.contents,
        "79be667ef9dcbbac55a06295ce870b07029bfcdb2dce28d959f2815b16f81798\
         483ada7726a3c4655da4fbfc0e1108a8fd17b448a68554199c47d08ffb10d4b8"
    );
    assert_eq!(out.announcement, Some(format!("nodeKey.pub: {}", out.contents)));
}

#[test]
fn account_public_key_output_is_announced_as_written() {
    let out = Params::default().account_public_key_output(&pair_of_secret_one());
    assert_eq!(out.filename, "accountPrivateKey");
    assert_eq!(
        out.contents,
        "0279be667ef9dcbbac55a06295ce870b07029bfcdb2dce28d959f2815b16f81798"
    );
    assert_eq!(out.announcement, Some(format!("accountPrivateKey: {}", out.contents)));
}

#[test]
fn address_output_is_written_short_and_announced_in_full() {
    let out = Params::default().address_output(&pair_of_secret_one());
    assert_eq!(out.filename, "address");
    assert_eq!(out.contents, "0x7e5f\u{2026}5bdf");
    assert_eq!(
        out.announcement,
        Some(String::from("address: 0x7e5f4552091a69125d5dfcb7b8c2659029395bdf"))
    );
}

#[test]
fn quiet_run_announces_nothing() {
    let pair = pair_of_secret_one();
    let params = quiet_params();
    assert_eq!(params.node_secret_key_output(&pair).announcement, None);
    assert_eq!(params.node_public_key_output(&pair).announcement, None);
    assert_eq!(params.account_public_key_output(&pair).announcement, None);
    assert_eq!(params.address_output(&pair).announcement, None);
    assert_eq!(params.address_output(&pair).contents, "0x7e5f\u{2026}5bdf");
}

#[test]
fn output_directory_is_the_named_one_or_the_current_one() {
    let mut params = Params::default();
    assert_eq!(params.output_directory(String::from("/work")), "/work");
    params.output_dir = Some(String::from("keys/out"));
    assert_eq!(params.output_directory(String::from("/work")), "keys/out");
}
