use sovereign_node::license::{
    audit_outputs, binding_hash, binds, holds_push, LicenseError, LicenseVerifier,
    OldLicenseVerifier, ScriptItem, TxLookup, TxOutput,
};

const DEVELOPER: &str = "bc1qxy2kgdygjrsqtzq2n0yrf2493p83kkfjhx0wlh";
const TXID: &str = "4a5e1e4baab89f3a32518a88c31bc87f618f76673e2cc77ab2127b7afdeda33b";
const MACHINE: &str = "machine-1";

fn hex(text: &str) -> Vec<u8> {
    (0..text.len() / 2).map(|i| u8::from_str_radix(&text[2 * i..2 * i + 2], 16).unwrap()).collect()
}

fn developer_script() -> Vec<u8> {
    hex("0014311564348890e005880a9bc834aaa5884f1b5932")
}

fn machine_binding() -> Vec<u8> {
    hex("55ef7ed52bfcbed6e4d8e4d14e56aa824f31a3af046131be76d2945e566511c5")
}

fn payment(value: u64) -> TxOutput {
    TxOutput { script_pubkey: developer_script(), value }
}

fn op_return(data: &[u8]) -> TxOutput {
    let mut script = vec![0x6a, data.len() as u8];
    script.extend_from_slice(data);
    TxOutput { script_pubkey: script, value: 0 }
}

fn verdict_on(outputs: Vec<TxOutput>) -> bool {
    let verifier = LicenseVerifier::new(DEVELOPER, 50_000).unwrap();
    let query = verifier.prepare(TXID, MACHINE).unwrap();
    verifier.verify_license_sync(&query, TxLookup::Found(outputs)).unwrap()
}

#[test]
fn binding_hash_is_sha256_of_tag_and_machine_id() {
    assert_eq!(binding_hash(MACHINE), machine_binding());
    assert_eq!(
        binding_hash(""),
        hex("c693279643b8cd5d248172d9c22cb7cf4ed163a3c98c8a3f69c2717edd3eacb7")
    );
    assert_ne!(binding_hash("machine-2"), machine_binding());
}

#[test]
fn verifier_takes_an_address_and_turns_down_what_is_none() {
    let verifier = LicenseVerifier::new(DEVELOPER, 50_000).unwrap();
    assert_eq!(verifier.developer_addr(), DEVELOPER);
    assert_eq!(verifier.required_sats(), 50_000);
    assert!(matches!(LicenseVerifier::new("not an address", 1), Err(LicenseError::InvalidAddress)));
    assert!(matches!(LicenseVerifier::new("", 1), Err(LicenseError::InvalidAddress)));
    let broken_checksum = "bc1qxy2kgdygjrsqtzq2n0yrf2493p83kkfjhx0wlj";
    assert!(matches!(
        LicenseVerifier::new(broken_checksum, 1),
        Err(LicenseError::InvalidAddress)
    ));
}

#[test]
fn prepared_check_holds_script_and_binding() {
    let verifier = LicenseVerifier::new(DEVELOPER, 50_000).unwrap();
    let query = verifier.prepare(TXID, MACHINE).unwrap();
    let mut txid = hex(TXID);
    txid.reverse();
    assert_eq!(query.txid.to_vec(), txid);
    assert_eq!(query.txid[0], 0x3b);
    assert_eq!(query.txid[31], 0x4a);
    assert_eq!(query.target_script, developer_script());
    assert_eq!(query.binding, machine_binding());
}

#[test]
fn script_of_a_known_address_is_the_known_script() {
    let verifier =
        LicenseVerifier::new("bc1qw508d6qejxtdg4y5r3zarvary0c5xw7kv8f3t4", 1).unwrap();
    let query = verifier.prepare(TXID, MACHINE).unwrap();
    assert_eq!(query.target_script, hex("0014751e76e8199196d454941c45d1b3a323f1433bd6"));
    let legacy = LicenseVerifier::new("1A1zP1eP5QGefi2DMPTfTL5SLmv7DivfNa", 1).unwrap();
    let query = legacy.prepare(TXID, MACHINE).unwrap();
    assert_eq!(
        query.target_script,
        hex("76a91462e907b15cbf27d5425399ebf6f0fb50ebb88f1888ac")
    );
}

#[test]
fn malformed_transaction_id_is_turned_down() {
    let verifier = LicenseVerifier::new(DEVELOPER, 50_000).unwrap();
    assert!(matches!(verifier.prepare("xyz", MACHINE), Err(LicenseError::InvalidTxid)));
    assert!(matches!(verifier.prepare("", MACHINE), Err(LicenseError::InvalidTxid)));
    assert!(matches!(verifier.prepare(&TXID[..63], MACHINE), Err(LicenseError::InvalidTxid)));
    let mut bad = String::from(TXID);
    bad.replace_range(5..6, "g");
    assert!(matches!(verifier.prepare(&bad, MACHINE), Err(LicenseError::InvalidTxid)));
    let upper = verifier.prepare(&TXID.to_uppercase(), MACHINE).unwrap();
    assert_eq!(upper.txid, verifier.prepare(TXID, MACHINE).unwrap().txid);
}

#[test]
fn payment_and_binding_make_a_license() {
    assert!(verdict_on(vec![payment(50_000), op_return(&machine_binding())]));
    assert!(verdict_on(vec![op_return(&machine_binding()), payment(50_001)]));
    assert!(verdict_on(vec![
        payment(1),
        op_return(b"note"),
        payment(70_000),
        op_return(&machine_binding()),
    ]));
}

#[test]
fn payment_alone_is_no_license() {
    assert!(!verdict_on(vec![payment(50_000)]));
    assert!(!verdict_on(vec![payment(50_000), op_return(&binding_hash("machine-2"))]));
}

#[test]
fn binding_alone_is_no_license() {
    assert!(!verdict_on(vec![op_return(&machine_binding())]));
    assert!(!verdict_on(vec![payment(49_999), op_return(&machine_binding())]));
    let other = TxOutput {
        script_pubkey: hex("0014751e76e8199196d454941c45d1b3a323f1433bd6"),
        value: 90_000,
    };
    assert!(!verdict_on(vec![other, op_return(&machine_binding())]));
}

#[test]
fn empty_transaction_is_no_license() {
    assert!(!verdict_on(Vec::new()));
}

#[test]
fn binding_outside_an_op_return_output_does_not_count() {
    let mut script = vec![0x20];
    script.extend_from_slice(&machine_binding());
    let plain_push = TxOutput { script_pubkey: script, value: 0 };
    assert!(!binds(&plain_push, &machine_binding()));
    assert!(!verdict_on(vec![payment(50_000), plain_push]));
}

#[test]
fn binding_is_found_among_several_pushes() {
    let mut script = vec![0x6a, 0x02, 0xaa, 0xbb, 0x20];
    script.extend_from_slice(&machine_binding());
    let output = TxOutput { script_pubkey: script, value: 0 };
    assert!(binds(&output, &machine_binding()));
    assert!(binds(&output, &[0xaa, 0xbb]));
    assert!(!binds(&output, &[0xaa]));
}

#[test]
fn binding_cut_short_does_not_count() {
    let mut script = vec![0x6a, 0x20];
    script.extend_from_slice(&machine_binding()[..31]);
    let output = TxOutput { script_pubkey: script, value: 0 };
    assert!(!binds(&output, &machine_binding()));
    assert!(!binds(&output, &machine_binding()[..31]));
}

#[test]
fn unknown_transaction_is_no_license() {
    let verifier = LicenseVerifier::new(DEVELOPER, 50_000).unwrap();
    let query = verifier.prepare(TXID, MACHINE).unwrap();
    assert_eq!(verifier.verify_license_sync(&query, TxLookup::NotFound).ok(), Some(false));
}

#[test]
fn failed_lookup_is_a_network_error() {
    let verifier = LicenseVerifier::new(DEVELOPER, 50_000).unwrap();
    let query = verifier.prepare(TXID, MACHINE).unwrap();
    let lookup = TxLookup::Failed(String::from("connection reset"));
    match verifier.verify_license_sync(&query, lookup) {
        Err(LicenseError::Network(text)) => assert_eq!(text, "Network error: connection reset"),
        other => panic!("unexpected verdict {:?}", other),
    }
}

#[test]
fn errors_say_what_went_wrong() {
    assert_eq!(LicenseError::InvalidTxid.message(), "Invalid TxID");
    assert_eq!(LicenseError::InvalidAddress.message(), "Invalid Developer Address format");
    assert_eq!(LicenseError::Network(String::from("down")).message(), "down");
}

#[test]
fn audit_holds_outputs_against_script_price_and_binding() {
    let outputs = vec![payment(10), op_return(&[1, 2, 3])];
    assert!(audit_outputs(&outputs, &developer_script(), 10, &[1, 2, 3]));
    assert!(!audit_outputs(&outputs, &developer_script(), 11, &[1, 2, 3]));
    assert!(!audit_outputs(&outputs, &developer_script(), 10, &[1, 2]));
    assert!(!audit_outputs(&outputs, &[0x00, 0x14], 10, &[1, 2, 3]));
    assert!(audit_outputs(&outputs, &developer_script(), 0, &[1, 2, 3]));
}

#[test]
fn push_is_found_only_if_it_is_there() {
    let items = vec![
        ScriptItem::Op(0x6a),
        ScriptItem::Push(vec![1, 2]),
        ScriptItem::Malformed,
        ScriptItem::Push(Vec::new()),
    ];
    assert!(holds_push(&items, &[1, 2]));
    assert!(holds_push(&items, &[]));
    assert!(!holds_push(&items, &[1]));
    assert!(!holds_push(&items, &[0x6a]));
    assert!(!holds_push(&Vec::new(), &[]));
}

#[test]
fn old_verifier_checks_with_terms_given_at_each_check() {
    let verifier = OldLicenseVerifier::new().unwrap();
    let txid = verifier.prepare(TXID).unwrap();
    assert_eq!(txid[0], 0x3b);
    assert_eq!(txid[1], 0xa3);
    assert_eq!(txid[31], 0x4a);
    assert!(matches!(verifier.prepare("nope"), Err(LicenseError::InvalidTxid)));
    let outputs = vec![payment(700), op_return(&machine_binding())];
    let verdict = verifier.verify_license(TxLookup::Found(outputs.clone()), MACHINE, DEVELOPER, 700);
    assert_eq!(verdict.ok(), Some(true));
    let verdict = verifier.verify_license(TxLookup::Found(outputs.clone()), MACHINE, DEVELOPER, 701);
    assert_eq!(verdict.ok(), Some(false));
    let verdict = verifier.verify_license(TxLookup::Found(outputs.clone()), "other", DEVELOPER, 700);
    assert_eq!(verdict.ok(), Some(false));
    let verdict = verifier.verify_license(TxLookup::Found(outputs), MACHINE, "nobody", 700);
    assert!(matches!(verdict, Err(LicenseError::InvalidAddress)));
    let verdict = verifier.verify_license(TxLookup::NotFound, MACHINE, "nobody", 700);
    assert_eq!(verdict.ok(), Some(false));
    let lookup = TxLookup::Failed(String::from("timed out"));
    match verifier.verify_license(lookup, MACHINE, DEVELOPER, 700) {
        Err(LicenseError::Network(text)) => assert_eq!(text, "timed out"),
        other => panic!("unexpected verdict {:?}", other),
    }
}
