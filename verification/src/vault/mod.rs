//! Vaults: the sealed record kept at rest and the plaintext table held in
//! memory, with the transitions between the two.

pub mod crypto;
pub mod exchange;

use crate::vault::crypto::{
    aes_256_cbc_decrypted, aes_256_cbc_encrypted, argon2_hash_raw, base64_decoded, base64_encoded,
    derivable, json_entries, C_INT_MAX, ENCODE_MAX, IV_LEN,
};
use crate::string_map::StringMap;
use vstd::prelude::*;
use vstd::string::*;
use vstd::utf8::*;

verus! {

/// Length of the salt of a new vault.
pub const SALT_LEN: usize = 256;

/// What is appended to a vault's name to name its record.
pub const VAULT_EXT: &'static str = ".vlt";

/// Why a vault operation failed.
#[derive(Debug, Clone, Copy, PartialEq, Eq)]
pub enum VaultError {
    /// The salt or the passphrase has a length that key derivation refuses.
    KeyDerivation,
    /// The record could not be unlocked: a field that does not decode, a
    /// ciphertext that does not decrypt, or a plaintext that is no table.
    /// Which of them is not told.
    Decrypt,
    /// The table could not be written out or encrypted.
    Encrypt,
    /// No random bytes could be had.
    Random,
    /// The alias has no entry.
    NotFound,
    /// A passphrase and its repetition differ.
    Mismatch,
}

impl VaultError {
    /// What a user is told of this error.
    pub open spec fn spec_message(&self) -> Seq<char> {
        match self {
            VaultError::KeyDerivation => "Failed to derive key"@,
            VaultError::Decrypt => "Wrong password or corrupted vault"@,
            VaultError::Encrypt => "Failed to encrypt vault"@,
            VaultError::Random => "Failed to draw random bytes"@,
            VaultError::NotFound => "Failed to find password"@,
            VaultError::Mismatch => "Passwords do not match"@,
        }
    }

    /// What a user is told of this error.
    pub fn message(&self) -> (r: &'static str)
        ensures
            r@ == self.spec_message(),
    {
        match self {
            VaultError::KeyDerivation => "Failed to derive key",
            VaultError::Decrypt => "Wrong password or corrupted vault",
            VaultError::Encrypt => "Failed to encrypt vault",
            VaultError::Random => "Failed to draw random bytes",
            VaultError::NotFound => "Failed to find password",
            VaultError::Mismatch => "Passwords do not match",
        }
    }
}

/// One alias with its secret: the record that plaintext exchange files list.
#[derive(Debug, Clone)]
pub struct Password {
    pub id: String,
    pub pw: String,
}

impl View for Password {
    type V = (Seq<char>, Seq<char>);

    open spec fn view(&self) -> (Seq<char>, Seq<char>) {
        (self.id@, self.pw@)
    }
}

impl Password {
    /// A second record with the same alias and secret.
    pub fn duplicate(&self) -> (r: Password)
        ensures
            r@ == self@,
    {
        Password { id: self.id.clone(), pw: self.pw.clone() }
    }
}

/// The views of a list of records, in order.
pub open spec fn views(list: Seq<Password>) -> Seq<(Seq<char>, Seq<char>)> {
    list.map_values(|p: Password| p@)
}

/// A vault at rest: the encrypted table with what is needed to derive its
/// key again. The three byte fields are held as base64 text.
#[derive(Debug, Clone)]
pub struct LockedVault {
    pub name: String,
    pub iv: String,
    pub salt: String,
    pub enc: String,
}

/// A vault in memory: the plaintext table, with the salt it was, or will
/// be, sealed under.
pub struct UnlockedVault {
    pub name: String,
    pub salt: Vec<u8>,
    pub pws: StringMap,
}

/// What a ciphertext yields under a passphrase, a salt and a vector: the
/// salt with the table it holds, or the error.
pub open spec fn opened(pass: Seq<u8>, salt: Seq<u8>, iv: Seq<u8>, data: Seq<u8>) -> Result<
    (Seq<u8>, Map<Seq<char>, Seq<char>>),
    VaultError,
> {
    if !derivable(pass, salt) {
        Err(VaultError::KeyDerivation)
    } else if iv.len() != IV_LEN || data.len() > C_INT_MAX {
        Err(VaultError::Decrypt)
    } else {
        match aes_256_cbc_decrypted(argon2_hash_raw(pass, salt), iv, data) {
            Some(plain) => if valid_utf8(plain) {
                match json_entries(decode_utf8(plain)) {
                    Some(table) => Ok((salt, table)),
                    None => Err(VaultError::Decrypt),
                }
            } else {
                Err(VaultError::Decrypt)
            },
            None => Err(VaultError::Decrypt),
        }
    }
}

/// Round trip: a vault that was locked under a passphrase and unlocked
/// again under the same passphrase has the table and the salt it had.
pub proof fn lemma_lock_unlock(
    vault: &UnlockedVault,
    pass: Seq<char>,
    lv: &LockedVault,
    back: &UnlockedVault,
)
    requires
        vault.locks_to(pass, lv),
        lv.unlocks_to(pass, back),
    ensures
        back.pws@ == vault.pws@,
        back.salt@ == vault.salt@,
{
}

/// Round trip, twice over: locking what a round trip gave back, under the
/// same passphrase, again unlocks to the table and the salt of the start.
pub proof fn lemma_lock_unlock_lock(
    vault: &UnlockedVault,
    pass: Seq<char>,
    lv: &LockedVault,
    back: &UnlockedVault,
    again: &LockedVault,
)
    requires
        vault.locks_to(pass, lv),
        lv.unlocks_to(pass, back),
        back.locks_to(pass, again),
    ensures
        again.opens_to(pass, vault.salt@, vault.pws@),
        again.name@ == lv.name@,
        again.salt@ == lv.salt@,
{
}

/// A vault that is empty when it is locked is empty when it is unlocked
/// under the same passphrase.
pub proof fn lemma_empty_stays_empty(
    vault: &UnlockedVault,
    pass: Seq<char>,
    lv: &LockedVault,
    back: &UnlockedVault,
)
    requires
        vault.pws@ == Map::<Seq<char>, Seq<char>>::empty(),
        vault.locks_to(pass, lv),
        lv.unlocks_to(pass, back),
    ensures
        back.pws@ == Map::<Seq<char>, Seq<char>>::empty(),
{
}

impl LockedVault {
    /// What unlocking with `pass` yields: the salt and the table, or the
    /// error.
    pub open spec fn opens(&self, pass: Seq<char>) -> Result<
        (Seq<u8>, Map<Seq<char>, Seq<char>>),
        VaultError,
    > {
        if encode_utf8(self.salt@).len() > C_INT_MAX || encode_utf8(self.enc@).len() > C_INT_MAX
            || encode_utf8(self.iv@).len() > C_INT_MAX {
            Err(VaultError::Decrypt)
        } else {
            match (base64_decoded(self.salt@), base64_decoded(self.enc@), base64_decoded(self.iv@)) {
                (Some(salt), Some(data), Some(iv)) => opened(encode_utf8(pass), salt, iv, data),
                _ => Err(VaultError::Decrypt),
            }
        }
    }

    /// Unlocking with `pass` succeeds, with this salt and this table.
    pub open spec fn opens_to(
        &self,
        pass: Seq<char>,
        salt: Seq<u8>,
        table: Map<Seq<char>, Seq<char>>,
    ) -> bool {
        self.opens(pass) matches Ok(o) && o == (salt, table)
    }

    /// What `unlock` under `pass` promises of a vault `back` that it
    /// returns: it has the record's name, and the salt and the table that
    /// the record opens to.
    pub open spec fn unlocks_to(&self, pass: Seq<char>, back: &UnlockedVault) -> bool {
        back.name@ == self.name@ && self.opens_to(pass, back.salt@, back.pws@)
    }

    /// This record is `vault` sealed under `pass`: same name, same salt, and
    /// for some vector of one block and some JSON text of the table, the
    /// encryption of that text under the derived key.
    pub open spec fn sealed_from(&self, vault: &UnlockedVault, pass: Seq<char>) -> bool {
        &&& self.name@ == vault.name@
        &&& self.salt@ == base64_encoded(vault.salt@)
        &&& exists|iv: Seq<u8>, text: Seq<char>|
            {
                &&& json_entries(text) == Some(vault.pws@)
                &&& self.iv@ == base64_encoded(iv)
                &&& #[trigger] vault.sealed(pass, iv, text) matches Ok(c)
                &&& self.enc@ == base64_encoded(c)
            }
    }

    /// Recovers the plaintext vault: derives the key from `pass` and the
    /// stored salt, decrypts, and reads the table. Every failure but a salt
    /// or passphrase that key derivation refuses is reported as `Decrypt`.
    pub fn unlock(&self, pass: &str) -> (r: Result<UnlockedVault, VaultError>)
        ensures
            match r {
                Ok(vault) => self.unlocks_to(pass@, &vault),
                Err(e) => self.opens(pass@) matches Err(x) && x == e,
            },
    {
        if self.salt.as_str().as_bytes().len() > C_INT_MAX || self.enc.as_str().as_bytes().len()
            > C_INT_MAX || self.iv.as_str().as_bytes().len() > C_INT_MAX {
            return Err(VaultError::Decrypt);
        }
        let salt = match crypto::decode(self.salt.as_str()) {
            Ok(bytes) => bytes,
            Err(_) => {
                return Err(VaultError::Decrypt);
            },
        };
        let data = match crypto::decode(self.enc.as_str()) {
            Ok(bytes) => bytes,
            Err(_) => {
                return Err(VaultError::Decrypt);
            },
        };
        let iv = match crypto::decode(self.iv.as_str()) {
            Ok(bytes) => bytes,
            Err(_) => {
                return Err(VaultError::Decrypt);
            },
        };
        let key = match crypto::key(pass.as_bytes(), salt.as_slice()) {
            Ok(key) => key,
            Err(_) => {
                return Err(VaultError::KeyDerivation);
            },
        };
        if iv.len() != IV_LEN || data.len() > C_INT_MAX {
            return Err(VaultError::Decrypt);
        }
        let plain = match crypto::decrypt(key.as_slice(), iv.as_slice(), data.as_slice()) {
            Ok(plain) => plain,
            Err(_) => {
                return Err(VaultError::Decrypt);
            },
        };
        let json = match crypto::utf8(plain) {
            Ok(json) => json,
            Err(_) => {
                return Err(VaultError::Decrypt);
            },
        };
        match crypto::entries_from_json(json.as_str()) {
            Ok(pws) => Ok(UnlockedVault { name: self.name.clone(), salt, pws }),
            Err(_) => Err(VaultError::Decrypt),
        }
    }

    /// The name of this vault's record: the vault's name, then `.vlt`.
    pub fn file_name(&self) -> (r: String)
        ensures
            r@ == self.name@ + VAULT_EXT@,
    {
        self.name.clone().concat(VAULT_EXT)
    }
}

impl UnlockedVault {
    /// What `lock` under `pass` promises of a record `lv` that it returns:
    /// the record is this vault sealed, and it unlocks under `pass` to this
    /// vault's salt and table.
    pub open spec fn locks_to(&self, pass: Seq<char>, lv: &LockedVault) -> bool {
        lv.sealed_from(self, pass) && lv.opens_to(pass, self.salt@, self.pws@)
    }

    /// The ciphertext that sealing under `pass` gives for vector `iv` and
    /// the table's JSON text `text`, or the error.
    pub open spec fn sealed(&self, pass: Seq<char>, iv: Seq<u8>, text: Seq<char>) -> Result<
        Seq<u8>,
        VaultError,
    > {
        if !derivable(encode_utf8(pass), self.salt@) || self.salt@.len() > ENCODE_MAX {
            Err(VaultError::KeyDerivation)
        } else if iv.len() != IV_LEN || encode_utf8(text).len() > C_INT_MAX {
            Err(VaultError::Encrypt)
        } else {
            match aes_256_cbc_encrypted(
                argon2_hash_raw(encode_utf8(pass), self.salt@),
                iv,
                encode_utf8(text),
            ) {
                Some(c) => if c.len() <= ENCODE_MAX {
                    Ok(c)
                } else {
                    Err(VaultError::Encrypt)
                },
                None => Err(VaultError::Encrypt),
            }
        }
    }

    /// An empty vault named `vault` that carries `salt`.
    pub fn with_salt(vault: &str, salt: Vec<u8>) -> (r: UnlockedVault)
        ensures
            r.name@ == vault@,
            r.salt@ == salt@,
            r.pws@ == Map::<Seq<char>, Seq<char>>::empty(),
    {
        UnlockedVault { name: vault.to_owned(), salt, pws: StringMap::new() }
    }

    /// A fresh vault named `vault`: empty, with a new random salt of 256
    /// bytes. Fails only where no random bytes can be had.
    pub fn new(vault: &str) -> (r: Result<UnlockedVault, VaultError>)
        ensures
            match r {
                Ok(v) => v.name@ == vault@ && v.salt@.len() == SALT_LEN && v.pws@
                    == Map::<Seq<char>, Seq<char>>::empty(),
                Err(e) => e == VaultError::Random,
            },
    {
        match crypto::rand_bytes(SALT_LEN) {
            Ok(salt) => Ok(UnlockedVault::with_salt(vault, salt)),
            Err(_) => Err(VaultError::Random),
        }
    }

    /// Seals JSON text `text` under `pass` with vector `iv`: derives the key
    /// from `pass` and the vault's own salt, encrypts, and encodes. The
    /// record unlocks under `pass` to whatever table `text` holds.
    pub fn lock_with(&self, pass: &str, iv: &[u8], text: &str) -> (r: Result<
        LockedVault,
        VaultError,
    >)
        ensures
            match self.sealed(pass@, iv@, text@) {
                Ok(c) => r matches Ok(lv) && lv.name@ == self.name@ && lv.iv@ == base64_encoded(iv@)
                    && lv.salt@ == base64_encoded(self.salt@) && lv.enc@ == base64_encoded(c)
                    && lv.opens(pass@) == (match json_entries(text@) {
                    Some(table) => Ok((self.salt@, table)),
                    None => Err(VaultError::Decrypt),
                }),
                Err(e) => r matches Err(x) && x == e,
            },
    {
        broadcast use {encode_utf8_valid_utf8, encode_utf8_decode_utf8};

        if self.salt.len() > ENCODE_MAX {
            return Err(VaultError::KeyDerivation);
        }
        let key = match crypto::key(pass.as_bytes(), self.salt.as_slice()) {
            Ok(key) => key,
            Err(_) => {
                return Err(VaultError::KeyDerivation);
            },
        };
        if iv.len() != IV_LEN || text.as_bytes().len() > C_INT_MAX {
            return Err(VaultError::Encrypt);
        }
        let ciphertext = match crypto::encrypt(key.as_slice(), iv, text.as_bytes()) {
            Ok(c) => c,
            Err(_) => {
                return Err(VaultError::Encrypt);
            },
        };
        if ciphertext.len() > ENCODE_MAX {
            return Err(VaultError::Encrypt);
        }
        Ok(
            LockedVault {
                name: self.name.clone(),
                iv: crypto::encode(iv),
                salt: crypto::encode(self.salt.as_slice()),
                enc: crypto::encode(ciphertext.as_slice()),
            },
        )
    }

    /// Seals the vault under `pass`, with the vault's own salt and a fresh
    /// random vector. The record unlocks under `pass` to the same salt and
    /// the same table. It fails with `KeyDerivation` exactly where the salt
    /// or the passphrase has a length that cannot be used.
    pub fn lock(&self, pass: &str) -> (r: Result<LockedVault, VaultError>)
        ensures
            (r matches Err(e) && e == VaultError::KeyDerivation) <==> (!derivable(
                encode_utf8(pass@),
                self.salt@,
            ) || self.salt@.len() > ENCODE_MAX),
            match r {
                Ok(lv) => self.locks_to(pass@, &lv),
                Err(e) => e == VaultError::KeyDerivation || e == VaultError::Encrypt || e
                    == VaultError::Random,
            },
    {
        if self.salt.len() > ENCODE_MAX || self.salt.len() < crypto::ARGON2_MIN_SALT
            || pass.as_bytes().len() > crypto::ARGON2_MAX {
            return Err(VaultError::KeyDerivation);
        }
        let text = match crypto::entries_to_json(&self.pws) {
            Ok(text) => text,
            Err(_) => {
                return Err(VaultError::Encrypt);
            },
        };
        let iv = match crypto::rand_bytes(IV_LEN) {
            Ok(iv) => iv,
            Err(_) => {
                return Err(VaultError::Random);
            },
        };
        let r = self.lock_with(pass, iv.as_slice(), text.as_str());
        proof {
            if r is Ok {
                assert(self.sealed(pass@, iv@, text@) is Ok);
            }
        }
        r
    }

    /// Stores `password` under alias `id` only if the alias has no entry
    /// yet; returns whether it did so.
    pub fn try_insert(&mut self, id: String, password: String) -> (inserted: bool)
        ensures
            final(self).name == old(self).name,
            final(self).salt == old(self).salt,
            inserted == !old(self).pws@.contains_key(id@),
            final(self).pws@ == if inserted {
                old(self).pws@.insert(id@, password@)
            } else {
                old(self).pws@
            },
    {
        if !self.pws.contains_key(&id) {
            self.pws.insert(id, password);
            return true;
        }
        false
    }

    /// Stores `password` under alias `id`, replacing what was there.
    pub fn insert(&mut self, id: String, password: String)
        ensures
            final(self).name == old(self).name,
            final(self).salt == old(self).salt,
            final(self).pws@ == old(self).pws@.insert(id@, password@),
    {
        self.pws.insert(id, password);
    }

    /// The secret stored under alias `id`, or `NotFound`.
    pub fn get(&self, id: String) -> (r: Result<&String, VaultError>)
        ensures
            match r {
                Ok(pw) => self.pws@.contains_key(id@) && pw@ == self.pws@[id@],
                Err(e) => !self.pws@.contains_key(id@) && e == VaultError::NotFound,
            },
    {
        match self.pws.get(&id) {
            Some(pw) => Ok(pw),
            None => Err(VaultError::NotFound),
        }
    }

}

} // verus!
