use batchmint::ident::{Address, ObjectId};
use batchmint::keystore::KeystoreTable;
use batchmint::secret::{secret_file, secret_file_contents, secret_file_name, SecretCounter};

fn addr(byte: u8) -> Address {
    Address::new(vec![byte; 20])
}

#[test]
fn address_text_round_trip() {
    let a = Address::new((0..20).collect::<Vec<u8>>());
    let text = a.to_text();
    assert_eq!(text, "0x000102030405060708090a0b0c0d0e0f10111213");
    let back = Address::from_text(&text).expect("canonical text must parse");
    assert_eq!(back.bytes, a.bytes);
}

#[test]
fn object_id_text_round_trip() {
    let o = ObjectId::new(vec![0xab; 20]);
    let text = o.to_text();
    assert_eq!(text, "0xabababababababababababababababababababab");
    let back = ObjectId::from_text(&text).expect("canonical text must parse");
    assert_eq!(back.bytes, o.bytes);
}

#[test]
fn address_text_rejects_noncanonical() {
    assert!(Address::from_text("").is_none());
    assert!(Address::from_text("0x").is_none());
    assert!(Address::from_text("0x0123").is_none());
    // uppercase hex is not canonical
    assert!(Address::from_text("0x000102030405060708090A0B0C0D0E0F10111213").is_none());
    // missing prefix
    assert!(Address::from_text("00000102030405060708090a0b0c0d0e0f10111213").is_none());
    // one character short
    assert!(Address::from_text("0x000102030405060708090a0b0c0d0e0f1011121").is_none());
}

#[test]
fn secret_name_exact() {
    assert_eq!(
        secret_file_name(0, 0),
        "address/data00000000000000000000_00000000000000000000.txt"
    );
    assert_eq!(
        secret_file_name(1234, 7),
        "address/data00000000000000001234_00000000000000000007.txt"
    );
    assert_eq!(
        secret_file_name(u64::MAX, 1),
        "address/data18446744073709551615_00000000000000000001.txt"
    );
}

#[test]
fn secret_contents_two_lines_round_trip() {
    let a = addr(0x5e);
    let mnemonic = "wing decade ladder";
    let contents = secret_file_contents(mnemonic, &a);
    let lines: Vec<&str> = contents.split('\n').collect();
    assert_eq!(lines.len(), 2);
    assert_eq!(lines[0], mnemonic);
    let back = Address::from_text(lines[1]).expect("second line must parse");
    assert_eq!(back.bytes, a.bytes);
}

#[test]
fn secret_names_distinct_within_process() {
    // Two files planned back to back land in the same millisecond almost
    // surely; the counter alone must keep the names apart.
    let mut counter = SecretCounter::new();
    let a = addr(1);
    let b = addr(2);
    let f1 = secret_file("first phrase", &a, &mut counter);
    let f2 = secret_file("second phrase", &b, &mut counter);
    assert_ne!(f1.name, f2.name);
}

#[test]
fn many_secret_names_all_distinct() {
    let mut counter = SecretCounter::new();
    let a = addr(3);
    let mut names: Vec<String> = Vec::new();
    for _ in 0..50 {
        names.push(secret_file("phrase", &a, &mut counter).name);
    }
    let mut sorted = names.clone();
    sorted.sort();
    sorted.dedup();
    assert_eq!(sorted.len(), names.len());
}

#[test]
fn import_same_mnemonic_twice_same_address() {
    let mut table = KeystoreTable::new();
    let first = table.import_from_mnemonic("seed phrase one", addr(0x11));
    // A second import of the same phrase returns the recorded address even if
    // the collaborator were to derive something else.
    let second = table.import_from_mnemonic("seed phrase one", addr(0x22));
    assert_eq!(first.bytes, second.bytes);
    assert_eq!(first.bytes, vec![0x11; 20]);
}

#[test]
fn import_distinct_mnemonics_distinct_entries() {
    let mut table = KeystoreTable::new();
    let a = table.import_from_mnemonic("phrase a", addr(0x01));
    let b = table.import_from_mnemonic("phrase b", addr(0x02));
    assert_eq!(a.bytes, vec![0x01; 20]);
    assert_eq!(b.bytes, vec![0x02; 20]);
    let a_again = table.import_from_mnemonic("phrase a", addr(0x03));
    assert_eq!(a_again.bytes, vec![0x01; 20]);
}
