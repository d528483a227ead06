//! The credential store model: user records keyed by unique email, each with
//! at most one active refresh token.
//!
//! The store owns the two guarantees the flows lean on: email uniqueness
//! (`store_wf`) and atomic conditional rotation of a stored refresh token
//! (`rotate_refresh`), which replaces a token only if it still equals the
//! presented value.

use vstd::prelude::*;

verus! {

/// A persisted user record: public uid, unique email, one-way password hash
/// (never plaintext), role name, and the single active refresh token, if
/// any.
pub struct User {
    pub uid: String,
    pub email: String,
    pub password: String,
    pub role: String,
    pub refresh_token: Option<String>,
}

/// The mathematical model of a user record.
pub ghost struct UserView {
    pub uid: Seq<char>,
    pub email: Seq<char>,
    pub password: Seq<char>,
    pub role: Seq<char>,
    pub refresh_token: Option<Seq<char>>,
}

impl View for User {
    type V = UserView;

    open spec fn view(&self) -> UserView {
        UserView {
            uid: self.uid@,
            email: self.email@,
            password: self.password@,
            role: self.role@,
            refresh_token: match self.refresh_token {
                Some(t) => Some(t@),
                None => None::<Seq<char>>,
            },
        }
    }
}

/// Email uniqueness: at most one record per email.
pub open spec fn store_wf(s: Seq<UserView>) -> bool {
    forall|i: int, j: int| 0 <= i < j < s.len() ==> s[i].email != s[j].email
}

/// The index of the first record with the given email.
pub open spec fn spec_find_email(s: Seq<UserView>, email: Seq<char>) -> Option<int>
    decreases s.len(),
{
    if s.len() == 0 {
        None::<int>
    } else if s[0].email == email {
        Some(0)
    } else {
        match spec_find_email(s.drop_first(), email) {
            Some(i) => Some(i + 1),
            None => None::<int>,
        }
    }
}

/// The index of the first record whose stored refresh token equals `token`.
pub open spec fn spec_find_refresh(s: Seq<UserView>, token: Seq<char>) -> Option<int>
    decreases s.len(),
{
    if s.len() == 0 {
        None::<int>
    } else if s[0].refresh_token == Some(token) {
        Some(0)
    } else {
        match spec_find_refresh(s.drop_first(), token) {
            Some(i) => Some(i + 1),
            None => None::<int>,
        }
    }
}

/// How many records hold the given email.
pub open spec fn spec_count_email(s: Seq<UserView>, email: Seq<char>) -> nat
    decreases s.len(),
{
    if s.len() == 0 {
        0nat
    } else {
        (if s[0].email == email {
            1nat
        } else {
            0nat
        }) + spec_count_email(s.drop_first(), email)
    }
}

/// `spec_find_email` finds the first match: the index it returns holds the
/// email and nothing before it does; `None` means no record holds it.
pub proof fn lemma_find_email_first(s: Seq<UserView>, email: Seq<char>)
    ensures
        match spec_find_email(s, email) {
            Some(i) => 0 <= i < s.len() && s[i].email == email && (forall|j: int|
                0 <= j < i ==> s[j].email != email),
            None => forall|j: int| 0 <= j < s.len() ==> s[j].email != email,
        },
    decreases s.len(),
{
    if s.len() != 0 && s[0].email != email {
        lemma_find_email_first(s.drop_first(), email);
        assert forall|j: int| 1 <= j < s.len() implies s.drop_first()[j - 1] == s[j] by {}
    }
}

/// `spec_find_refresh` finds the first match: the index it returns stores the
/// token and nothing before it does; `None` means no record stores it.
pub proof fn lemma_find_refresh_first(s: Seq<UserView>, token: Seq<char>)
    ensures
        match spec_find_refresh(s, token) {
            Some(i) => 0 <= i < s.len() && s[i].refresh_token == Some(token) && (forall|j: int|
                0 <= j < i ==> s[j].refresh_token != Some(token)),
            None => forall|j: int| 0 <= j < s.len() ==> s[j].refresh_token != Some(token),
        },
    decreases s.len(),
{
    if s.len() != 0 && s[0].refresh_token != Some(token) {
        lemma_find_refresh_first(s.drop_first(), token);
        assert forall|j: int| 1 <= j < s.len() implies s.drop_first()[j - 1] == s[j] by {}
    }
}

/// Appending a record adds one to the count of its own email and leaves other
/// counts unchanged.
pub proof fn lemma_count_email_push(s: Seq<UserView>, u: UserView, email: Seq<char>)
    ensures
        spec_count_email(s.push(u), email) == spec_count_email(s, email) + (if u.email == email {
            1nat
        } else {
            0nat
        }),
    decreases s.len(),
{
    if s.len() == 0 {
        assert(s.push(u).drop_first() =~= s);
    } else {
        assert(s.push(u).drop_first() =~= s.drop_first().push(u));
        lemma_count_email_push(s.drop_first(), u, email);
    }
}

/// A store without a record for an email counts zero records for it.
pub proof fn lemma_count_email_zero(s: Seq<UserView>, email: Seq<char>)
    requires
        forall|j: int| 0 <= j < s.len() ==> s[j].email != email,
    ensures
        spec_count_email(s, email) == 0,
    decreases s.len(),
{
    if s.len() != 0 {
        assert forall|j: int| 0 <= j < s.drop_first().len() implies s.drop_first()[j].email
            != email by {
            assert(s.drop_first()[j] == s[j + 1]);
        }
        lemma_count_email_zero(s.drop_first(), email);
    }
}

/// An update that keeps a record's email preserves email uniqueness.
pub proof fn lemma_update_same_email_preserves_wf(s: Seq<UserView>, i: int, v: UserView)
    requires
        store_wf(s),
        0 <= i < s.len(),
        v.email == s[i].email,
    ensures
        store_wf(s.update(i, v)),
{
    assert forall|a: int, b: int| 0 <= a < b < s.update(i, v).len() implies s.update(i, v)[a].email
        != s.update(i, v)[b].email by {
        assert(s.update(i, v)[a].email == s[a].email);
        assert(s.update(i, v)[b].email == s[b].email);
    }
}

/// Appending a record whose email no record holds preserves email
/// uniqueness.
pub proof fn lemma_push_new_email_preserves_wf(s: Seq<UserView>, v: UserView)
    requires
        store_wf(s),
        forall|j: int| 0 <= j < s.len() ==> s[j].email != v.email,
    ensures
        store_wf(s.push(v)),
{
    assert forall|a: int, b: int| 0 <= a < b < s.push(v).len() implies s.push(v)[a].email != s.push(
        v,
    )[b].email by {
        assert(s.push(v)[a] == s[a]);
        if b < s.len() {
            assert(s.push(v)[b] == s[b]);
        } else {
            assert(s.push(v)[b] == v);
        }
    }
}

/// The in-memory credential store.
pub struct Store {
    users: Vec<User>,
}

impl View for Store {
    type V = Seq<UserView>;

    closed spec fn view(&self) -> Seq<UserView> {
        self.users@.map_values(|u: User| u@)
    }
}

impl Store {
    /// An empty store.
    pub fn new() -> (s: Store)
        ensures
            s@ == Seq::<UserView>::empty(),
            store_wf(s@),
    {
        let s = Store { users: Vec::new() };
        proof {
            assert(s@ =~= Seq::<UserView>::empty());
        }
        s
    }

    /// The number of records.
    pub fn len(&self) -> (n: usize)
        ensures
            n == self@.len(),
    {
        self.users.len()
    }

    /// The record at an index.
    pub fn user_at(&self, i: usize) -> (u: &User)
        requires
            i < self@.len(),
        ensures
            u@ == self@[i as int],
    {
        &self.users[i]
    }

    /// How many records hold the given email; under `store_wf` this is at
    /// most one.
    pub fn count_email(&self, email: &String) -> (n: usize)
        ensures
            n == spec_count_email(self@, email@),
    {
        let len = self.users.len();
        let mut count: usize = 0;
        let mut i: usize = 0;
        proof {
            assert(self@.take(0) =~= Seq::<UserView>::empty());
        }
        while i < len
            invariant
                len == self@.len(),
                len == self.users.len(),
                0 <= i <= len,
                count <= i,
                count == spec_count_email(self@.take(i as int), email@),
            decreases len - i,
        {
            proof {
                assert(self@.take(i + 1) =~= self@.take(i as int).push(self@[i as int]));
                lemma_count_email_push(self@.take(i as int), self@[i as int], email@);
            }
            if self.users[i].email == *email {
                count += 1;
            }
            i += 1;
        }
        proof {
            assert(self@.take(len as int) =~= self@);
        }
        count
    }

    /// Look a record up by email.
    pub fn find_by_email(&self, email: &String) -> (r: Option<usize>)
        ensures
            match r {
                Some(i) => i < self@.len() && spec_find_email(self@, email@) == Some(i as int),
                None => spec_find_email(self@, email@) is None,
            },
    {
        let n = self.users.len();
        let mut i: usize = 0;
        while i < n
            invariant
                n == self@.len(),
                n == self.users.len(),
                0 <= i <= n,
                forall|j: int| 0 <= j < i ==> self@[j].email != email@,
            decreases n - i,
        {
            if self.users[i].email == *email {
                proof {
                    lemma_find_email_first(self@, email@);
                    assert(self@[i as int].email == email@);
                }
                return Some(i);
            }
            proof {
                assert(self@[i as int].email != email@);
            }
            i += 1;
        }
        proof {
            lemma_find_email_first(self@, email@);
        }
        None
    }

    /// Look a record up by its currently stored refresh token.
    pub fn find_by_refresh(&self, token: &String) -> (r: Option<usize>)
        ensures
            match r {
                Some(i) => i < self@.len() && spec_find_refresh(self@, token@) == Some(i as int),
                None => spec_find_refresh(self@, token@) is None,
            },
    {
        let n = self.users.len();
        let mut i: usize = 0;
        while i < n
            invariant
                n == self@.len(),
                n == self.users.len(),
                0 <= i <= n,
                forall|j: int| 0 <= j < i ==> self@[j].refresh_token != Some(token@),
            decreases n - i,
        {
            let matches = match &self.users[i].refresh_token {
                Some(t) => *t == *token,
                None => false,
            };
            if matches {
                proof {
                    lemma_find_refresh_first(self@, token@);
                    assert(self@[i as int].refresh_token == Some(token@));
                }
                return Some(i);
            }
            proof {
                assert(self@[i as int].refresh_token != Some(token@));
            }
            i += 1;
        }
        proof {
            lemma_find_refresh_first(self@, token@);
        }
        None
    }

    /// Append a record.
    pub fn push_user(&mut self, user: User)
        ensures
            final(self)@ == old(self)@.push(user@),
    {
        self.users.push(user);
        proof {
            assert(self@ =~= old(self)@.push(self.users@.last()@));
        }
    }

    /// Overwrite the stored refresh token of the record at an index.
    pub fn set_refresh(&mut self, i: usize, token: String)
        requires
            i < old(self)@.len(),
        ensures
            final(self)@ == old(self)@.update(
                i as int,
                (UserView { refresh_token: Some(token@), ..old(self)@[i as int] }),
            ),
    {
        self.users[i].refresh_token = Some(token);
        proof {
            assert(self@ =~= old(self)@.update(
                i as int,
                (UserView { refresh_token: self.users@[i as int]@.refresh_token, ..old(self)@[i as int] }),
            ));
        }
    }

    /// Atomic conditional rotation: replace the stored refresh token of the
    /// record that currently stores `expected` — and only if some record
    /// still stores it — with `replacement`. The caller that loses such a
    /// race observes `None`, exactly as if the token had already been
    /// rotated away.
    pub fn rotate_refresh(&mut self, expected: &String, replacement: String) -> (r: Option<usize>)
        ensures
            match r {
                Some(i) => spec_find_refresh(old(self)@, expected@) == Some(i as int)
                    && final(self)@ == old(self)@.update(
                    i as int,
                    (UserView { refresh_token: Some(replacement@), ..old(self)@[i as int] }),
                ),
                None => spec_find_refresh(old(self)@, expected@) is None
                    && final(self)@ == old(self)@,
            },
    {
        match self.find_by_refresh(expected) {
            Some(i) => {
                proof {
                    lemma_find_refresh_first(self@, expected@);
                }
                self.set_refresh(i, replacement);
                Some(i)
            },
            None => None,
        }
    }
}

} // verus!
