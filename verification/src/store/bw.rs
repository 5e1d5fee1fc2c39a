//! The local table of a remote store: which remote id stands behind which
//! local alias.

use vstd::prelude::*;
use vstd::string::*;

verus! {

/// The alias under which a new table knows the remote store's own token.
pub const BW_ALIAS: &'static str = "bw-token";

/// The id that stands for the remote store's own token.
pub const BW_TOKEN: &'static str = "all-is-well";

/// One local alias with the remote id it stands for.
pub struct PwEntry {
    pub alias: String,
    pub id: String,
}

/// The aliases known locally, in the order they were learnt.
pub struct BwStore {
    pub pws: Vec<PwEntry>,
}

/// The first position in `pws` whose alias is `alias`, if there is one.
pub open spec fn first_with_alias(pws: Seq<PwEntry>, alias: Seq<char>) -> Option<int> {
    if exists|i: int| 0 <= i < pws.len() && pws[i].alias@ == alias {
        Some(
            choose|i: int|
                0 <= i < pws.len() && pws[i].alias@ == alias && forall|j: int|
                    0 <= j < i ==> pws[j].alias@ != alias,
        )
    } else {
        None
    }
}

/// What is reported for an alias that is not known.
pub open spec fn unknown_alias(alias: Seq<char>) -> Seq<char> {
    "Could not find id corresponding to '"@ + alias + "'\n"@
}

impl BwStore {
    /// The table to start from where none is stored: the store's own token
    /// and nothing else.
    pub fn initial() -> (r: BwStore)
        ensures
            r.pws@.len() == 1,
            r.pws@[0].alias@ == BW_ALIAS@,
            r.pws@[0].id@ == BW_TOKEN@,
    {
        let mut pws: Vec<PwEntry> = Vec::new();
        pws.push(PwEntry { alias: BW_ALIAS.to_owned(), id: BW_TOKEN.to_owned() });
        BwStore { pws }
    }

    /// The remote id of the first entry with alias `alias`, or the message
    /// that there is none.
    pub fn get_id(&self, alias: &str) -> (r: Result<String, String>)
        ensures
            match (first_with_alias(self.pws@, alias@), r) {
                (Some(i), Ok(id)) => 0 <= i < self.pws@.len() && id@ == self.pws@[i].id@,
                (None, Err(msg)) => msg@ == unknown_alias(alias@),
                _ => false,
            },
    {
        let wanted = alias.to_owned();
        let mut i: usize = 0;
        while i < self.pws.len()
            invariant
                i <= self.pws.len(),
                wanted@ == alias@,
                forall|j: int| 0 <= j < i ==> self.pws@[j].alias@ != alias@,
            decreases self.pws.len() - i,
        {
            if self.pws[i].alias == wanted {
                proof {
                    let k = first_with_alias(self.pws@, alias@).unwrap();
                    assert(k == i) by {
                        if k < i {
                            assert(self.pws@[k].alias@ != alias@);
                        }
                    }
                }
                return Ok(self.pws[i].id.clone());
            }
            i += 1;
        }
        Err("Could not find id corresponding to '".to_owned().concat(alias).concat("'\n"))
    }

    /// Learns that `alias` stands for remote id `id`, unless the alias is
    /// known already, and says which of the two happened.
    pub fn remember(&mut self, alias: &str, id: String) -> (msg: String)
        ensures
            match first_with_alias(old(self).pws@, alias@) {
                Some(_) => final(self).pws@ == old(self).pws@ && msg@ == "Alias "@ + alias@
                    + " already known"@,
                None => final(self).pws@.len() == old(self).pws@.len() + 1 && final(self).pws@.take(old(self).pws@.len() as int) == old(self).pws@ && final(self).pws@.last().alias@ == alias@ && final(self).pws@.last().id@ == id@ && msg@
                    == alias@ + "="@ + id@,
            },
    {
        if self.get_id(alias).is_ok() {
            return "Alias ".to_owned().concat(alias).concat(" already known");
        }
        let msg = alias.to_owned().concat("=").concat(id.as_str());
        self.pws.push(PwEntry { alias: alias.to_owned(), id });
        assert(self.pws@.take(old(self).pws@.len() as int) =~= old(self).pws@);
        msg
    }
}

} // verus!
