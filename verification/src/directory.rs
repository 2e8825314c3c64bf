//! The allow-list of email addresses, per guild: a small directory with
//! insertion under fresh ids, deletion by id, listing, and membership tests.

use vstd::prelude::*;

verus! {

/// One allow-listed address.
pub struct MailEntry {
    /// Identifier assigned at insertion, unique over the directory's life.
    pub id: i64,
    /// The guild whose allow-list the address stands in.
    pub guild_id: u64,
    /// The address itself.
    pub email: String,
}

/// The request body adding one address to a guild's allow-list.
pub struct RequestAddMailAddress {
    /// The address to add.
    pub mail: String,
}

/// The response to an allow-list insertion.
pub struct ResponseAddMailAddress {
    /// The id assigned to the new entry.
    pub id: i64,
}

/// One row of an allow-list listing.
pub struct ResponseGetAllMailAddress {
    /// The listed address.
    pub mail: String,
    /// The entry's id.
    pub id: i64,
    /// The guild whose list it stands in.
    pub guild_id: i64,
}

/// Insertion failure: the id space is exhausted.
#[derive(Clone, Copy, Debug, PartialEq, Eq, Structural)]
pub enum DirectoryError {
    Full,
}

/// The entries of `s` that belong to `guild_id`, as (id, address) pairs, in
/// insertion order.
pub open spec fn mails_for(s: Seq<MailEntry>, guild_id: u64) -> Seq<(i64, String)>
    decreases s.len(),
{
    if s.len() == 0 {
        Seq::empty()
    } else {
        mails_for(s.drop_last(), guild_id) + (if s.last().guild_id == guild_id {
            seq![(s.last().id, s.last().email)]
        } else {
            Seq::empty()
        })
    }
}

/// The entries of `s` with the entry of `guild_id` under `id` (if any) taken
/// out, order kept.
pub open spec fn without_mail(s: Seq<MailEntry>, guild_id: u64, id: i64) -> Seq<MailEntry>
    decreases s.len(),
{
    if s.len() == 0 {
        Seq::empty()
    } else {
        without_mail(s.drop_last(), guild_id, id) + (if s.last().guild_id == guild_id
            && s.last().id == id {
            Seq::empty()
        } else {
            seq![s.last()]
        })
    }
}

/// Whether `email` stands in the allow-list of `guild_id`.
pub open spec fn mail_listed(s: Seq<MailEntry>, guild_id: u64, email: Seq<char>) -> bool {
    exists|k: int|
        0 <= k < s.len() && s[k].guild_id == guild_id && #[trigger] s[k].email@ == email
}

/// After a deletion, no entry of that guild carries the deleted id.
pub proof fn lemma_without_mail_removes(s: Seq<MailEntry>, guild_id: u64, id: i64)
    ensures
        forall|k: int|
            0 <= k < without_mail(s, guild_id, id).len() ==> !((#[trigger] without_mail(
                s,
                guild_id,
                id,
            )[k]).guild_id == guild_id && without_mail(s, guild_id, id)[k].id == id),
    decreases s.len(),
{
    if s.len() > 0 {
        lemma_without_mail_removes(s.drop_last(), guild_id, id);
        let w = without_mail(s, guild_id, id);
        let wp = without_mail(s.drop_last(), guild_id, id);
        assert forall|k: int| 0 <= k < w.len() implies !((#[trigger] w[k]).guild_id == guild_id
            && w[k].id == id) by {
            if k < wp.len() {
                assert(w[k] == wp[k]);
            } else {
                assert(w[k] == s.last());
            }
        }
    }
}

/// The per-guild allow-list directory.
pub struct MailDirectory {
    entries: Vec<MailEntry>,
    next_id: i64,
}

impl MailDirectory {
    /// The stored entries, in insertion order.
    pub closed spec fn entries(&self) -> Seq<MailEntry> {
        self.entries@
    }

    /// The id the next insertion will receive.
    pub closed spec fn next_id(&self) -> i64 {
        self.next_id
    }

    /// Every stored id was assigned by an earlier insertion.
    pub open spec fn wf(&self) -> bool {
        forall|k: int| 0 <= k < self.entries().len() ==> (#[trigger] self.entries()[k]).id
            < self.next_id()
    }

    /// An empty directory; ids start at 1.
    pub fn new() -> (r: MailDirectory)
        ensures
            r.entries() == Seq::<MailEntry>::empty(),
            r.next_id() == 1,
            r.wf(),
    {
        MailDirectory { entries: Vec::new(), next_id: 1 }
    }

    /// Adds `email` to the allow-list of `guild_id` and returns the fresh id
    /// assigned to it. Fails only when the id space is exhausted, leaving the
    /// directory unchanged.
    pub fn add_mail_address(&mut self, guild_id: u64, email: String) -> (r: Result<
        i64,
        DirectoryError,
    >)
        requires
            old(self).wf(),
        ensures
            final(self).wf(),
            old(self).next_id() < i64::MAX ==> (r matches Ok(id) && id == old(self).next_id()
                && final(self).entries() == old(self).entries().push(
                (MailEntry { id: old(self).next_id(), guild_id, email }),
            ) && final(self).next_id() == old(self).next_id() + 1),
            old(self).next_id() == i64::MAX ==> (r matches Err(DirectoryError::Full) && *final(self)
                == *old(self)),
    {
        if self.next_id == i64::MAX {
            return Err(DirectoryError::Full);
        }
        let id = self.next_id;
        self.entries.push(MailEntry { id, guild_id, email });
        self.next_id = self.next_id + 1;
        proof {
            assert forall|k: int| 0 <= k < self.entries@.len() implies (
            #[trigger] self.entries@[k]).id < self.next_id by {
                if k < old(self).entries().len() {
                    assert(old(self).entries()[k].id < old(self).next_id());
                }
            }
        }
        Ok(id)
    }

    /// The (id, address) pairs allow-listed for `guild_id`, in insertion
    /// order.
    pub fn get_all_email(&self, guild_id: u64) -> (r: Vec<(i64, String)>)
        ensures
            r@ == mails_for(self.entries(), guild_id),
    {
        let mut out: Vec<(i64, String)> = Vec::new();
        let mut i: usize = 0;
        while i < self.entries.len()
            invariant
                i <= self.entries().len(),
                out@ == mails_for(self.entries().subrange(0, i as int), guild_id),
            decreases self.entries().len() - i,
        {
            let e = &self.entries[i];
            if e.guild_id == guild_id {
                out.push((e.id, e.email.clone()));
            }
            i = i + 1;
            proof {
                let pre = self.entries().subrange(0, (i - 1) as int);
                let cur = self.entries().subrange(0, i as int);
                assert(cur.drop_last() =~= pre);
                assert(cur.last() == self.entries()[i - 1]);
            }
        }
        proof {
            assert(self.entries().subrange(0, self.entries().len() as int) =~= self.entries());
        }
        out
    }

    /// Removes the entry of `guild_id` stored under `id`, if present.
    pub fn delete_mail_address(&mut self, guild_id: u64, id: i64)
        requires
            old(self).wf(),
        ensures
            final(self).wf(),
            final(self).entries() == without_mail(old(self).entries(), guild_id, id),
            final(self).next_id() == old(self).next_id(),
    {
        let mut kept: Vec<MailEntry> = Vec::new();
        let mut i: usize = 0;
        while i < self.entries.len()
            invariant
                i <= self.entries@.len(),
                kept@ == without_mail(self.entries@.subrange(0, i as int), guild_id, id),
                forall|k: int| 0 <= k < kept@.len() ==> exists|j: int|
                    0 <= j < i && #[trigger] kept@[k] == self.entries@[j],
            decreases self.entries@.len() - i,
        {
            let e = &self.entries[i];
            if !(e.guild_id == guild_id && e.id == id) {
                kept.push(clone_mail_entry(e));
            }
            i = i + 1;
            proof {
                let pre = self.entries@.subrange(0, (i - 1) as int);
                let cur = self.entries@.subrange(0, i as int);
                assert(cur.drop_last() =~= pre);
                assert(cur.last() == self.entries@[i - 1]);
            }
        }
        proof {
            assert(self.entries@.subrange(0, self.entries@.len() as int) =~= self.entries@);
            assert forall|k: int| 0 <= k < kept@.len() implies (#[trigger] kept@[k]).id
                < self.next_id by {
                let j = choose|j: int| 0 <= j < i && kept@[k] == self.entries@[j];
                assert((old(self).entries()[j]).id < old(self).next_id());
            }
        }
        self.entries = kept;
    }

    /// Whether `email` is allow-listed for `guild_id`.
    pub fn exist_mail(&self, guild_id: u64, email: &String) -> (r: bool)
        ensures
            r == mail_listed(self.entries(), guild_id, email@),
    {
        let mut i: usize = 0;
        while i < self.entries.len()
            invariant
                i <= self.entries().len(),
                forall|k: int|
                    0 <= k < i && self.entries()[k].guild_id == guild_id ==> !(
                    #[trigger] self.entries()[k].email@ == email@),
            decreases self.entries().len() - i,
        {
            let e = &self.entries[i];
            if e.guild_id == guild_id && e.email == *email {
                return true;
            }
            i = i + 1;
        }
        false
    }
}

/// A field-for-field copy of an allow-list entry.
fn clone_mail_entry(e: &MailEntry) -> (r: MailEntry)
    ensures
        r == *e,
{
    MailEntry { id: e.id, guild_id: e.guild_id, email: e.email.clone() }
}

} // verus!
