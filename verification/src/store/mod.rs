//! What the vault commands compute between reading a record and writing one
//! back: every path that changes a vault seals it again before it returns.

pub mod bw;

use crate::string_map::{is_listing, string_views};
use crate::vault::crypto::ARGON2_MAX;
use crate::vault::{
    views, LockedVault, Password, UnlockedVault, VaultError, SALT_LEN, VAULT_EXT,
};
use vstd::prelude::*;
use vstd::utf8::*;

verus! {

/// Creates the record of a new, empty vault named `vault`, sealed under
/// `pass`. The passphrase has to be given twice; where the two differ
/// nothing is created. The record unlocks under `pass` to an empty table.
pub fn new(vault: &str, pass: &str, vfied: &str) -> (r: Result<LockedVault, VaultError>)
    ensures
        pass@ != vfied@ ==> (r matches Err(e) && e == VaultError::Mismatch),
        match r {
            Ok(lv) => lv.name@ == vault@ && exists|salt: Seq<u8>|
                salt.len() == SALT_LEN && #[trigger] lv.opens_to(pass@, salt, Map::empty()),
            Err(e) => (e == VaultError::Mismatch <==> pass@ != vfied@) && (e
                == VaultError::KeyDerivation ==> encode_utf8(pass@).len() > ARGON2_MAX) && e
                != VaultError::Decrypt && e != VaultError::NotFound,
        },
{
    if pass.to_owned() != vfied.to_owned() {
        return Err(VaultError::Mismatch);
    }
    let fresh = match UnlockedVault::new(vault) {
        Ok(fresh) => fresh,
        Err(e) => {
            return Err(e);
        },
    };
    let r = fresh.lock(pass);
    proof {
        if r is Ok {
            assert(r.unwrap().opens_to(pass@, fresh.salt@, Map::empty()));
        }
    }
    r
}

/// Stores `new_pass` under `alias` in the vault of record `vault`: unlocks
/// it with `pass`, upserts, and seals it again under `pass`. The new record
/// unlocks under `pass` to the old salt and the old table with that one
/// entry set. Where `vault` does not unlock, its error is returned.
pub fn add(vault: &LockedVault, alias: &str, pass: &str, new_pass: &str) -> (r: Result<
    LockedVault,
    VaultError,
>)
    ensures
        match vault.opens(pass@) {
            Ok(o) => match r {
                Ok(lv) => lv.name@ == vault.name@ && lv.opens_to(
                    pass@,
                    o.0,
                    o.1.insert(alias@, new_pass@),
                ),
                Err(e) => e == VaultError::KeyDerivation || e == VaultError::Encrypt || e
                    == VaultError::Random,
            },
            Err(x) => r matches Err(e) && e == x,
        },
{
    let mut unlocked = match vault.unlock(pass) {
        Ok(unlocked) => unlocked,
        Err(e) => {
            return Err(e);
        },
    };
    unlocked.insert(alias.to_owned(), new_pass.to_owned());
    unlocked.lock(pass)
}

/// Names the record to remove when the vault of record `vault` is deleted.
/// The passphrase has to be given twice; where the two differ nothing is to
/// be removed. Whether the user is asked once more is the caller's business.
pub fn delete(vault: &LockedVault, pass: &str, vfied: &str) -> (r: Result<String, VaultError>)
    ensures
        match r {
            Ok(file) => pass@ == vfied@ && file@ == vault.name@ + VAULT_EXT@,
            Err(e) => pass@ != vfied@ && e == VaultError::Mismatch,
        },
{
    if pass.to_owned() != vfied.to_owned() {
        return Err(VaultError::Mismatch);
    }
    Ok(vault.file_name())
}

/// Reads the secret stored under `alias` in the vault of record `vault`.
/// Where `vault` does not unlock, its error is returned; where it does and
/// the alias has no entry, `NotFound`.
pub fn get(vault: &LockedVault, alias: &str, pass: &str) -> (r: Result<String, VaultError>)
    ensures
        match vault.opens(pass@) {
            Ok(o) => if o.1.contains_key(alias@) {
                r matches Ok(secret) && secret@ == o.1[alias@]
            } else {
                r matches Err(e) && e == VaultError::NotFound
            },
            Err(x) => r matches Err(e) && e == x,
        },
{
    let unlocked = match vault.unlock(pass) {
        Ok(unlocked) => unlocked,
        Err(e) => {
            return Err(e);
        },
    };
    match unlocked.get(alias.to_owned()) {
        Ok(secret) => Ok(secret.clone()),
        Err(e) => Err(e),
    }
}

/// Lists the entries of the vault of record `vault`, each once. Where
/// `vault` does not unlock, its error is returned.
pub fn export(vault: &LockedVault, pass: &str) -> (r: Result<Vec<Password>, VaultError>)
    ensures
        match vault.opens(pass@) {
            Ok(o) => r matches Ok(list) && is_listing(views(list@), o.1),
            Err(x) => r matches Err(e) && e == x,
        },
{
    match vault.unlock(pass) {
        Ok(unlocked) => Ok(unlocked.export()),
        Err(e) => Err(e),
    }
}

/// Lists the aliases of the vault of record `vault`, each once. Where
/// `vault` does not unlock, its error is returned.
pub fn list(vault: &LockedVault, pass: &str) -> (r: Result<Vec<String>, VaultError>)
    ensures
        match vault.opens(pass@) {
            Ok(o) => r matches Ok(ids) && string_views(ids@).no_duplicates() && string_views(
                ids@,
            ).to_set() == o.1.dom(),
            Err(x) => r matches Err(e) && e == x,
        },
{
    let entries = match export(vault, pass) {
        Ok(entries) => entries,
        Err(e) => {
            return Err(e);
        },
    };
    let ghost table = vault.opens(pass@).unwrap().1;
    let mut ids: Vec<String> = Vec::new();
    let mut i: usize = 0;
    while i < entries.len()
        invariant
            i <= entries.len(),
            ids.len() == i,
            forall|j: int| 0 <= j < i ==> ids[j]@ == entries[j].id@,
        decreases entries.len() - i,
    {
        ids.push(entries[i].id.clone());
        i += 1;
    }
    proof {
        let names = string_views(ids@);
        let pairs = views(entries@);
        assert forall|j: int| 0 <= j < names.len() implies names[j] == pairs[j].0 by {}
        assert forall|k: Seq<char>| names.to_set().contains(k) <==> table.dom().contains(k) by {
            if names.to_set().contains(k) {
                let j = choose|j: int| 0 <= j < names.len() && names[j] == k;
                assert(table.contains_pair(pairs[j].0, pairs[j].1));
            }
            if table.contains_key(k) {
                let j = choose|j: int| 0 <= j < pairs.len() && pairs[j].0 == k;
                assert(names[j] == k);
            }
        }
        assert(names.to_set() =~= table.dom());
    }
    Ok(ids)
}

} // verus!
