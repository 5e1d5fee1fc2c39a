//! Moving entries between a vault and a plaintext list of records.

use crate::string_map::{is_listing, pair_views};
use crate::vault::{views, Password, UnlockedVault};
use vstd::prelude::*;

verus! {

/// The table that results when the records of `list` are taken in order and
/// each is stored unless its alias is already there.
pub open spec fn import_table(
    table: Map<Seq<char>, Seq<char>>,
    list: Seq<(Seq<char>, Seq<char>)>,
) -> Map<Seq<char>, Seq<char>>
    decreases list.len(),
{
    if list.len() == 0 {
        table
    } else if table.contains_key(list[0].0) {
        import_table(table, list.skip(1))
    } else {
        import_table(table.insert(list[0].0, list[0].1), list.skip(1))
    }
}

/// The records of `list`, in order, whose alias was already there when
/// their turn came.
pub open spec fn import_duplicates(
    table: Map<Seq<char>, Seq<char>>,
    list: Seq<(Seq<char>, Seq<char>)>,
) -> Seq<(Seq<char>, Seq<char>)>
    decreases list.len(),
{
    if list.len() == 0 {
        Seq::empty()
    } else if table.contains_key(list[0].0) {
        seq![list[0]] + import_duplicates(table, list.skip(1))
    } else {
        import_duplicates(table.insert(list[0].0, list[0].1), list.skip(1))
    }
}

/// The table after the first `n` records of `dup` were settled: a record
/// whose answer in `force` is yes is stored over what was there; one whose
/// answer is no, or is missing, changes nothing.
pub open spec fn overwritten(
    table: Map<Seq<char>, Seq<char>>,
    dup: Seq<(Seq<char>, Seq<char>)>,
    force: Seq<bool>,
    n: nat,
) -> Map<Seq<char>, Seq<char>>
    decreases n,
{
    if n == 0 {
        table
    } else if n - 1 < force.len() && force[n - 1] {
        overwritten(table, dup, force, (n - 1) as nat).insert(dup[n - 1].0, dup[n - 1].1)
    } else {
        overwritten(table, dup, force, (n - 1) as nat)
    }
}

/// After `list` is imported, every entry that was there is there unchanged.
pub proof fn lemma_import_keeps_entries(
    table: Map<Seq<char>, Seq<char>>,
    list: Seq<(Seq<char>, Seq<char>)>,
)
    ensures
        forall|k: Seq<char>| #[trigger]
            table.contains_key(k) ==> import_table(table, list).contains_pair(k, table[k]),
    decreases list.len(),
{
    if list.len() > 0 {
        let next = if table.contains_key(list[0].0) {
            table
        } else {
            table.insert(list[0].0, list[0].1)
        };
        lemma_import_keeps_entries(next, list.skip(1));
        assert forall|k: Seq<char>| #[trigger] table.contains_key(k) implies import_table(
            table,
            list,
        ).contains_pair(k, table[k]) by {
            assert(next.contains_key(k) && next[k] == table[k]);
        }
    }
}

/// Importing records whose aliases are new and pairwise distinct stores
/// each of them, adds no other alias, and reports no duplicate.
pub proof fn lemma_import_fresh(
    table: Map<Seq<char>, Seq<char>>,
    list: Seq<(Seq<char>, Seq<char>)>,
)
    requires
        forall|i: int, j: int| 0 <= i < j < list.len() ==> list[i].0 != list[j].0,
        forall|i: int| 0 <= i < list.len() ==> !table.contains_key(#[trigger] list[i].0),
    ensures
        import_duplicates(table, list) == Seq::<(Seq<char>, Seq<char>)>::empty(),
        forall|i: int|
            0 <= i < list.len() ==> import_table(table, list).contains_pair(
                #[trigger] list[i].0,
                list[i].1,
            ),
        forall|k: Seq<char>| #[trigger]
            import_table(table, list).contains_key(k) ==> table.contains_key(k) || exists|i: int|
                0 <= i < list.len() && list[i].0 == k,
    decreases list.len(),
{
    if list.len() > 0 {
        let next = table.insert(list[0].0, list[0].1);
        let rest = list.skip(1);
        assert forall|i: int| 0 <= i < rest.len() implies !next.contains_key(
            #[trigger] rest[i].0,
        ) by {
            assert(rest[i] == list[i + 1]);
        }
        assert forall|i: int, j: int| 0 <= i < j < rest.len() implies rest[i].0 != rest[j].0 by {
            assert(rest[i] == list[i + 1] && rest[j] == list[j + 1]);
        }
        lemma_import_fresh(next, rest);
        lemma_import_keeps_entries(next, rest);
        assert forall|i: int| 0 <= i < list.len() implies import_table(table, list).contains_pair(
            #[trigger] list[i].0,
            list[i].1,
        ) by {
            if i > 0 {
                assert(rest[i - 1] == list[i]);
                assert(import_table(next, rest).contains_pair(rest[i - 1].0, rest[i - 1].1));
            } else {
                assert(next.contains_key(list[0].0) && next[list[0].0] == list[0].1);
            }
        }
        assert forall|k: Seq<char>| #[trigger]
            import_table(table, list).contains_key(k) implies table.contains_key(k) || exists|
            i: int,
        | 0 <= i < list.len() && list[i].0 == k by {
            if !next.contains_key(k) {
                let i = choose|i: int| 0 <= i < rest.len() && rest[i].0 == k;
                assert(list[i + 1].0 == k);
            } else if !table.contains_key(k) {
                assert(list[0].0 == k);
            }
        }
    }
}

/// Export and import are inverse: importing a listing of a table into the
/// empty table gives that table back and reports no duplicate.
pub proof fn lemma_import_of_listing(
    table: Map<Seq<char>, Seq<char>>,
    list: Seq<(Seq<char>, Seq<char>)>,
)
    requires
        is_listing(list, table),
    ensures
        import_table(Map::empty(), list) == table,
        import_duplicates(Map::empty(), list) == Seq::<(Seq<char>, Seq<char>)>::empty(),
{
    let empty = Map::<Seq<char>, Seq<char>>::empty();
    lemma_import_fresh(empty, list);
    let got = import_table(empty, list);
    assert forall|k: Seq<char>| got.contains_key(k) implies table.contains_pair(k, got[k]) by {
        let i = choose|i: int| 0 <= i < list.len() && list[i].0 == k;
        assert(got.contains_pair(list[i].0, list[i].1));
        assert(table.contains_pair(list[i].0, list[i].1));
    }
    assert forall|k: Seq<char>| table.contains_key(k) implies got.contains_key(k) by {
        let i = choose|i: int| 0 <= i < list.len() && list[i].0 == k;
        assert(got.contains_pair(list[i].0, list[i].1));
    }
    assert(got =~= table);
}

impl UnlockedVault {
    /// Takes the records of `list` in order and stores each whose alias has
    /// no entry yet. The others are returned, in order, and leave the table
    /// as it was.
    pub fn import(&mut self, list: &Vec<Password>) -> (dup: Vec<Password>)
        ensures
            final(self).name == old(self).name,
            final(self).salt == old(self).salt,
            final(self).pws@ == import_table(old(self).pws@, views(list@)),
            views(dup@) == import_duplicates(old(self).pws@, views(list@)),
    {
        let ghost all = views(list@);
        let ghost start = self.pws@;
        let mut dup: Vec<Password> = Vec::new();
        let mut i: usize = 0;
        assert(all.skip(0) =~= all);
        assert(views(dup@) =~= Seq::empty());
        assert(views(dup@) + import_duplicates(start, all) =~= import_duplicates(start, all));
        while i < list.len()
            invariant
                i <= list.len(),
                all == views(list@),
                self.name == old(self).name,
                self.salt == old(self).salt,
                import_table(start, all) == import_table(self.pws@, all.skip(i as int)),
                import_duplicates(start, all) == views(dup@) + import_duplicates(
                    self.pws@,
                    all.skip(i as int),
                ),
            decreases list.len() - i,
        {
            let ghost rest = all.skip(i as int);
            let ghost before = views(dup@);
            let ghost table = self.pws@;
            assert(rest[0] == list[i as int]@);
            assert(rest.skip(1) =~= all.skip(i + 1));
            let p = &list[i];
            if !self.try_insert(p.id.clone(), p.pw.clone()) {
                dup.push(p.duplicate());
                proof {
                    assert(views(dup@) =~= before.push(rest[0]));
                    assert(before + (seq![rest[0]] + import_duplicates(table, rest.skip(1)))
                        =~= before.push(rest[0]) + import_duplicates(table, rest.skip(1)));
                }
            }
            i += 1;
        }
        assert(all.skip(i as int) =~= Seq::empty());
        assert(views(dup@) + Seq::<(Seq<char>, Seq<char>)>::empty() =~= views(dup@));
        dup
    }

    /// Settles the duplicates that an import reported: `force[i]` says
    /// whether `dup[i]` is to be stored over the entry that was kept.
    pub fn overwrite(&mut self, dup: &Vec<Password>, force: &Vec<bool>)
        ensures
            final(self).name == old(self).name,
            final(self).salt == old(self).salt,
            final(self).pws@ == overwritten(
                old(self).pws@,
                views(dup@),
                force@,
                dup@.len(),
            ),
    {
        let mut i: usize = 0;
        while i < dup.len()
            invariant
                i <= dup.len(),
                self.name == old(self).name,
                self.salt == old(self).salt,
                self.pws@ == overwritten(old(self).pws@, views(dup@), force@, i as nat),
            decreases dup.len() - i,
        {
            if i < force.len() && force[i] {
                self.insert(dup[i].id.clone(), dup[i].pw.clone());
            }
            i += 1;
        }
    }

    /// Every entry of the table once, as a list of records.
    pub fn export(&self) -> (r: Vec<Password>)
        ensures
            is_listing(views(r@), self.pws@),
    {
        let pairs = self.pws.pairs();
        let mut out: Vec<Password> = Vec::new();
        let mut i: usize = 0;
        while i < pairs.len()
            invariant
                i <= pairs.len(),
                out.len() == i,
                forall|j: int| 0 <= j < i ==> out[j]@ == pair_views(pairs@)[j],
            decreases pairs.len() - i,
        {
            out.push(Password { id: pairs[i].0.clone(), pw: pairs[i].1.clone() });
            i += 1;
        }
        assert(views(out@) =~= pair_views(pairs@));
        out
    }
}

} // verus!
