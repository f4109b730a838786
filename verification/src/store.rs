//! The credential store's state: the set of user records the service has
//! accepted, with the uniqueness invariant that governs registration — at
//! most one record per username, at most one record per non-absent email.

use vstd::prelude::*;

verus! {

/// One user record. The password is held only as the hashing engine's
/// self-describing artifact, never as the plaintext.
#[derive(Debug)]
pub struct UserRecord {
    pub username: String,
    pub email: Option<String>,
    pub password_hash: String,
}

/// The mathematical shadow of a record: its three fields as sequences.
pub ghost struct UserView {
    pub username: Seq<char>,
    pub email: Option<Seq<char>>,
    pub password_hash: Seq<char>,
}

impl View for UserRecord {
    type V = UserView;

    open spec fn view(&self) -> UserView {
        UserView {
            username: self.username@,
            email: match self.email {
                Some(e) => Some(e@),
                None => None,
            },
            password_hash: self.password_hash@,
        }
    }
}

/// Some record already carries this username.
pub open spec fn username_taken(users: Seq<UserView>, username: Seq<char>) -> bool {
    exists|i: int| 0 <= i < users.len() && users[i].username == username
}

/// Some record already carries this email.
pub open spec fn email_taken(users: Seq<UserView>, email: Seq<char>) -> bool {
    exists|i: int| 0 <= i < users.len() && users[i].email == Some(email)
}

/// Two records may coexist: their usernames differ, and the first one's
/// email, when present, is not the second one's.
pub open spec fn distinct_identity(a: UserView, b: UserView) -> bool {
    &&& a.username != b.username
    &&& (a.email is Some ==> a.email != b.email)
}

/// The store's invariant: every pair of records has distinct identities.
pub open spec fn store_wf(users: Seq<UserView>) -> bool {
    forall|i: int, j: int|
        0 <= i < j < users.len() ==> distinct_identity(users[i], users[j])
}

/// The credential store, modelled in memory: an insertion-ordered list of
/// records, the sole owner of every accepted credential.
pub struct CredentialStore {
    users: Vec<UserRecord>,
}

impl View for CredentialStore {
    type V = Seq<UserView>;

    closed spec fn view(&self) -> Seq<UserView> {
        self.users@.map_values(|r: UserRecord| r@)
    }
}

impl CredentialStore {
    /// The uniqueness invariant, stated over the store's contents.
    pub open spec fn wf(&self) -> bool {
        store_wf(self@)
    }

    /// An empty store.
    pub fn new() -> (s: CredentialStore)
        ensures
            s@ == Seq::<UserView>::empty(),
            s.wf(),
    {
        let s = CredentialStore { users: Vec::new() };
        proof {
            assert(s@ =~= Seq::<UserView>::empty());
        }
        s
    }

    /// How many records the store holds.
    pub fn len(&self) -> (n: usize)
        ensures
            n == self@.len(),
    {
        self.users.len()
    }

    /// A borrowed view of the record at an index.
    pub fn record_at(&self, i: usize) -> (r: &UserRecord)
        requires
            i < self@.len(),
        ensures
            r@ == self@[i as int],
    {
        &self.users[i]
    }

    /// Find the index of the record with a username, if one exists.
    pub fn index_of_username(&self, username: &String) -> (r: Option<usize>)
        ensures
            match r {
                Some(i) => i < self@.len() && self@[i as int].username == username@,
                None => !username_taken(self@, username@),
            },
    {
        let mut k: usize = 0;
        while k < self.users.len()
            invariant
                k <= self.users.len(),
                self@.len() == self.users@.len(),
                forall|i: int| 0 <= i < k ==> self@[i].username != username@,
            decreases self.users.len() - k,
        {
            let rec = &self.users[k];
            if rec.username == *username {
                return Some(k);
            }
            k += 1;
        }
        None
    }

    /// Whether some record already carries this email.
    pub fn contains_email(&self, email: &String) -> (b: bool)
        ensures
            b == email_taken(self@, email@),
    {
        let mut k: usize = 0;
        while k < self.users.len()
            invariant
                k <= self.users.len(),
                self@.len() == self.users@.len(),
                forall|i: int| 0 <= i < k ==> self@[i].email != Some(email@),
            decreases self.users.len() - k,
        {
            let rec = &self.users[k];
            match &rec.email {
                Some(e) => {
                    if *e == *email {
                        assert(self@[k as int].email == Some(email@));
                        return true;
                    }
                },
                None => {},
            }
            k += 1;
        }
        false
    }

    /// Append a record whose username and email conflict with no existing
    /// record. The store keeps every record it held, in order, and the
    /// uniqueness invariant is preserved.
    pub fn insert(&mut self, rec: UserRecord)
        requires
            old(self).wf(),
            !username_taken(old(self)@, rec@.username),
            rec@.email matches Some(e) ==> !email_taken(old(self)@, e),
        ensures
            final(self)@ == old(self)@.push(rec@),
            final(self).wf(),
    {
        let ghost pre = self@;
        let ghost rv = rec@;
        self.users.push(rec);
        proof {
            assert(self@ =~= pre.push(rv));
            assert forall|i: int, j: int|
                0 <= i < j < self@.len() implies distinct_identity(self@[i], self@[j]) by {
                if j < pre.len() {
                    assert(distinct_identity(pre[i], pre[j]));
                } else {
                    assert(self@[j] == rv);
                    assert(pre[i].username != rv.username);
                    if pre[i].email is Some {
                        match rv.email {
                            Some(e) => {
                                assert(pre[i].email != Some(e));
                            },
                            None => {},
                        }
                    }
                }
            }
        }
    }
}

} // verus!
