//! The account store: sessions keyed by profile id.

use vstd::prelude::*;

use crate::msa::IdentityToken;
use crate::profile::ServiceSession;

verus! {

/// One logged-in account: its profile id, identity token and session.
#[derive(Debug)]
pub struct Account {
    pub id: String,
    pub identity: IdentityToken,
    pub session: ServiceSession,
}

/// All accounts. Profile ids are unique; adding an account whose id is
/// already stored replaces the stored one in place.
#[derive(Debug)]
pub struct AccountStore {
    pub format_version: String,
    pub accounts: Vec<Account>,
}

/// Position of the first account at or after `i` with the given id, or -1.
pub open spec fn id_index(s: Seq<Account>, id: Seq<char>, i: int) -> int
    decreases s.len() - i,
{
    if i < 0 || i >= s.len() {
        -1
    } else if s[i].id@ == id {
        i
    } else {
        id_index(s, id, i + 1)
    }
}

proof fn lemma_id_index(s: Seq<Account>, id: Seq<char>, i: int)
    requires
        0 <= i,
    ensures
        id_index(s, id, i) == -1 ==> forall|j: int| i <= j < s.len() ==> #[trigger] s[j].id@ != id,
        id_index(s, id, i) != -1 ==> i <= id_index(s, id, i) < s.len() && s[id_index(s, id, i)].id@
            == id,
    decreases s.len() - i,
{
    if i < s.len() && s[i].id@ != id {
        lemma_id_index(s, id, i + 1);
    }
}

impl AccountStore {
    /// No two accounts share a profile id.
    pub open spec fn wf(&self) -> bool {
        forall|i: int, j: int|
            0 <= i < j < self.accounts@.len() ==> #[trigger] self.accounts@[i].id@
                != #[trigger] self.accounts@[j].id@
    }

    /// An empty store.
    pub fn get_new_config() -> (r: AccountStore)
        ensures
            r.wf(),
            r.format_version@ == "0"@,
            r.accounts@.len() == 0,
    {
        AccountStore { format_version: String::from_str("0"), accounts: Vec::new() }
    }

    /// Position of the account with the given id.
    pub fn find(&self, id: &String) -> (r: Option<usize>)
        ensures
            match r {
                Some(i) => i as int == id_index(self.accounts@, id@, 0) && i < self.accounts.len(),
                None => id_index(self.accounts@, id@, 0) == -1,
            },
    {
        let mut i: usize = 0;
        while i < self.accounts.len()
            invariant
                i <= self.accounts.len(),
                id_index(self.accounts@, id@, 0) == id_index(self.accounts@, id@, i as int),
            decreases self.accounts.len() - i,
        {
            if self.accounts[i].id == *id {
                return Some(i);
            }
            i += 1;
        }
        None
    }

    /// Stores an account: it replaces the stored account with the same id,
    /// or comes last.
    pub fn add(&mut self, account: Account)
        requires
            old(self).wf(),
        ensures
            final(self).wf(),
            final(self).format_version == old(self).format_version,
            id_index(old(self).accounts@, account.id@, 0) >= 0 ==> final(self).accounts@ == old(
                self,
            ).accounts@.update(id_index(old(self).accounts@, account.id@, 0), account),
            id_index(old(self).accounts@, account.id@, 0) < 0 ==> final(self).accounts@ == old(
                self,
            ).accounts@.push(account),
    {
        proof {
            lemma_id_index(self.accounts@, account.id@, 0);
        }
        match self.find(&account.id) {
            Some(i) => {
                self.accounts.set(i, account);
            },
            None => {
                self.accounts.push(account);
            },
        }
        assert(self.wf()) by {
            let n = old(self).accounts@.len();
            assert forall|i: int, j: int| 0 <= i < j < self.accounts@.len() implies #[trigger] self.accounts@[i].id@
                != #[trigger] self.accounts@[j].id@ by {
                if j == n {
                    assert(old(self).accounts@[i].id@ != account.id@);
                }
            }
        }
    }

    /// Removes the account with the given id; true when there was one.
    pub fn remove(&mut self, id: &String) -> (r: bool)
        requires
            old(self).wf(),
        ensures
            final(self).wf(),
            final(self).format_version == old(self).format_version,
            r == (id_index(old(self).accounts@, id@, 0) >= 0),
            r ==> final(self).accounts@ == old(self).accounts@.remove(
                id_index(old(self).accounts@, id@, 0),
            ),
            !r ==> final(self).accounts@ == old(self).accounts@,
    {
        proof {
            lemma_id_index(self.accounts@, id@, 0);
        }
        match self.find(id) {
            Some(i) => {
                let _ = self.accounts.remove(i);
                assert(self.wf()) by {
                    let o = old(self).accounts@;
                    assert forall|a: int, b: int| 0 <= a < b < self.accounts@.len() implies #[trigger] self.accounts@[a].id@
                        != #[trigger] self.accounts@[b].id@ by {
                        let a2 = if a < i { a } else { a + 1 };
                        let b2 = if b < i { b } else { b + 1 };
                        assert(self.accounts@[a] == o[a2]);
                        assert(self.accounts@[b] == o[b2]);
                    }
                }
                true
            },
            None => false,
        }
    }

    /// Replaces the identity token of the account with the given id, after a
    /// refresh; true when there was one.
    pub fn replace_identity(&mut self, id: &String, identity: IdentityToken) -> (r: bool)
        requires
            old(self).wf(),
        ensures
            final(self).wf(),
            final(self).format_version == old(self).format_version,
            r == (id_index(old(self).accounts@, id@, 0) >= 0),
            r ==> final(self).accounts@ == old(self).accounts@.update(
                id_index(old(self).accounts@, id@, 0),
                Account { identity, ..old(self).accounts@[id_index(old(self).accounts@, id@, 0)] },
            ),
            !r ==> final(self).accounts@ == old(self).accounts@,
    {
        proof {
            lemma_id_index(self.accounts@, id@, 0);
        }
        match self.find(id) {
            Some(i) => {
                let mut account = self.accounts.remove(i);
                account.identity = identity;
                self.accounts.insert(i, account);
                assert(self.accounts@ =~= old(self).accounts@.update(
                    i as int,
                    Account { identity, ..old(self).accounts@[i as int] },
                ));
                assert(self.wf()) by {
                    let o = old(self).accounts@;
                    assert forall|a: int, b: int| 0 <= a < b < self.accounts@.len() implies #[trigger] self.accounts@[a].id@
                        != #[trigger] self.accounts@[b].id@ by {
                        assert(self.accounts@[a].id == o[a].id);
                        assert(self.accounts@[b].id == o[b].id);
                    }
                }
                true
            },
            None => false,
        }
    }

    /// Whether the store holds an account with the given id.
    pub fn contains(&self, id: &String) -> (r: bool)
        ensures
            r == exists|i: int| 0 <= i < self.accounts@.len() && #[trigger] self.accounts@[i].id@ == id@,
    {
        proof {
            lemma_id_index(self.accounts@, id@, 0);
        }
        self.find(id).is_some()
    }
}

} // verus!
