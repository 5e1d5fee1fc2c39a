use rpw::store::bw::{BwStore, PwEntry};
use rpw::store::{add, delete, export, get, list, new};
use rpw::vault::{Password, UnlockedVault, VaultError};

#[test]
fn new_record_unlocks_to_an_empty_vault() {
    let lv = new("fresh", "pass", "pass").unwrap();
    assert_eq!(lv.name, "fresh");
    assert_eq!(openssl::base64::decode_block(&lv.salt).unwrap().len(), 256);
    let uv = lv.unlock("pass").unwrap();
    assert!(uv.pws.is_empty());
    assert_eq!(uv.name, "fresh");
}

#[test]
fn new_refuses_passphrases_that_differ() {
    assert_eq!(new("fresh", "pass", "pasS").err(), Some(VaultError::Mismatch));
    assert_eq!(new("fresh", "", "x").err(), Some(VaultError::Mismatch));
    assert!(new("fresh", "", "").is_ok());
}

#[test]
fn add_stores_one_entry_and_seals_again() {
    let lv = new("v", "master", "master").unwrap();
    let lv = add(&lv, "mail", "master", "one").unwrap();
    let lv = add(&lv, "bank", "master", "two").unwrap();
    let lv2 = add(&lv, "mail", "master", "three").unwrap();
    assert_eq!(lv2.name, "v");
    assert_eq!(lv2.salt, lv.salt);
    let uv = lv2.unlock("master").unwrap();
    assert_eq!(uv.get("mail".to_string()), Ok(&"three".to_string()));
    assert_eq!(uv.get("bank".to_string()), Ok(&"two".to_string()));
    assert_eq!(uv.export().len(), 2);
    let before = lv.unlock("master").unwrap();
    assert_eq!(before.get("mail".to_string()), Ok(&"one".to_string()));
}

#[test]
fn add_needs_the_right_passphrase() {
    let lv = new("v", "master", "master").unwrap();
    assert_eq!(add(&lv, "mail", "guess", "one").err(), Some(VaultError::Decrypt));
}

#[test]
fn initial_table_knows_the_token() {
    let store = BwStore::initial();
    assert_eq!(store.pws.len(), 1);
    assert_eq!(store.get_id("bw-token"), Ok("all-is-well".to_string()));
}

#[test]
fn get_id_finds_the_first_entry() {
    let store = BwStore {
        pws: vec![
            PwEntry { alias: "a".to_string(), id: "1".to_string() },
            PwEntry { alias: "b".to_string(), id: "2".to_string() },
            PwEntry { alias: "a".to_string(), id: "3".to_string() },
        ],
    };
    assert_eq!(store.get_id("a"), Ok("1".to_string()));
    assert_eq!(store.get_id("b"), Ok("2".to_string()));
    assert_eq!(
        store.get_id("c"),
        Err("Could not find id corresponding to 'c'\n".to_string())
    );
}

#[test]
fn remember_learns_an_alias_once() {
    let mut store = BwStore { pws: Vec::new() };
    assert_eq!(store.remember("mail", "id-1".to_string()), "mail=id-1");
    assert_eq!(store.remember("mail", "id-2".to_string()), "Alias mail already known");
    assert_eq!(store.pws.len(), 1);
    assert_eq!(store.get_id("mail"), Ok("id-1".to_string()));
    assert_eq!(store.remember("bank", "id-3".to_string()), "bank=id-3");
    assert_eq!(store.pws.len(), 2);
    assert_eq!(store.pws[1].alias, "bank");
    assert_eq!(store.pws[1].id, "id-3");
}

#[test]
fn get_reads_one_secret() {
    let lv = new("v", "master", "master").unwrap();
    let lv = add(&lv, "mail", "master", "one").unwrap();
    assert_eq!(get(&lv, "mail", "master"), Ok("one".to_string()));
    assert_eq!(get(&lv, "missing", "master"), Err(VaultError::NotFound));
    assert_eq!(get(&lv, "mail", "guess"), Err(VaultError::Decrypt));
}

#[test]
fn list_names_every_alias_once() {
    let lv = new("v", "master", "master").unwrap();
    assert_eq!(list(&lv, "master"), Ok(Vec::new()));
    let lv = add(&lv, "mail", "master", "one").unwrap();
    let lv = add(&lv, "bank", "master", "two").unwrap();
    let lv = add(&lv, "mail", "master", "three").unwrap();
    let mut ids = list(&lv, "master").unwrap();
    ids.sort();
    assert_eq!(ids, vec!["bank".to_string(), "mail".to_string()]);
    assert_eq!(list(&lv, "guess"), Err(VaultError::Decrypt));
}

#[test]
fn export_lists_every_entry_once() {
    let lv = new("v", "master", "master").unwrap();
    let lv = add(&lv, "x", "master", "y").unwrap();
    let lv = add(&lv, "z", "master", "w").unwrap();
    let mut entries: Vec<(String, String)> =
        export(&lv, "master").unwrap().into_iter().map(|p| (p.id, p.pw)).collect();
    entries.sort();
    assert_eq!(entries, vec![
        ("x".to_string(), "y".to_string()),
        ("z".to_string(), "w".to_string()),
    ]);
    assert_eq!(export(&lv, "guess").err(), Some(VaultError::Decrypt));
}

#[test]
fn overwrite_follows_the_answers() {
    let mut uv = UnlockedVault::new("v").unwrap();
    uv.insert("a".to_string(), "1".to_string());
    uv.insert("b".to_string(), "2".to_string());
    uv.insert("c".to_string(), "3".to_string());
    let dup = uv.import(&vec![
        Password { id: "a".to_string(), pw: "10".to_string() },
        Password { id: "b".to_string(), pw: "20".to_string() },
        Password { id: "c".to_string(), pw: "30".to_string() },
        Password { id: "d".to_string(), pw: "40".to_string() },
    ]);
    assert_eq!(dup.len(), 3);
    uv.overwrite(&dup, &vec![true, false]);
    assert_eq!(uv.get("a".to_string()), Ok(&"10".to_string()));
    assert_eq!(uv.get("b".to_string()), Ok(&"2".to_string()));
    assert_eq!(uv.get("c".to_string()), Ok(&"3".to_string()));
    assert_eq!(uv.get("d".to_string()), Ok(&"40".to_string()));
    uv.overwrite(&dup, &vec![false, false, true, true]);
    assert_eq!(uv.get("a".to_string()), Ok(&"10".to_string()));
    assert_eq!(uv.get("c".to_string()), Ok(&"30".to_string()));
    assert_eq!(uv.export().len(), 4);
}

#[test]
fn delete_names_the_record_to_remove() {
    let lv = new("work", "master", "master").unwrap();
    assert_eq!(delete(&lv, "any", "any"), Ok("work.vlt".to_string()));
    assert_eq!(delete(&lv, "any", "other"), Err(VaultError::Mismatch));
}
