use vstd::prelude::*;

use crate::errors::AuthError;
use crate::ids::{dec_rep, u64_to_dec};
use crate::user::User;

verus! {

/// Whether some record in `s` carries the email `email`.
pub open spec fn contains_email(s: Seq<User>, email: Seq<char>) -> bool {
    exists|i: int| 0 <= i < s.len() && s[i].email@ == email
}

/// The record in `s` carrying `email`; meaningful where
/// `contains_email(s, email)` holds and emails are unique.
pub open spec fn record_for(s: Seq<User>, email: Seq<char>) -> User {
    s[choose|i: int| 0 <= i < s.len() && s[i].email@ == email]
}

/// An in-memory user store with create-if-absent-by-key semantics.
///
/// It enforces the uniqueness constraint on `email` that the service
/// relies on: the existence check and the insert are one atomic
/// operation, so no interleaving of registrations can produce two
/// records with the same email. Ids are assigned by the store, exactly
/// once, on insertion, and records are never mutated afterwards.
pub struct MemStore {
    users: Vec<User>,
}

impl MemStore {
    pub closed spec fn view(self) -> Seq<User> {
        self.users@
    }

    /// Every record carries the id the store assigned to it on
    /// insertion (the decimal numeral of its position), and no two
    /// records share an email.
    pub open spec fn wf(self) -> bool {
        &&& forall|i: int|
            0 <= i < self.view().len() ==> ((#[trigger] self.view()[i].id) matches Some(s) && s@
                == dec_rep(i as nat))
        &&& forall|i: int, j: int|
            0 <= i < j < self.view().len() ==> (#[trigger] self.view()[i].email@) != (
            #[trigger] self.view()[j].email@)
    }

    pub fn new() -> (s: MemStore)
        ensures
            s.wf(),
            s.view() == Seq::<User>::empty(),
    {
        MemStore { users: Vec::new() }
    }

    pub fn len(&self) -> (n: usize)
        ensures
            n == self.view().len(),
    {
        self.users.len()
    }

    /// Point lookup by email: the record carrying `email`, or `None`
    /// when no record does.
    pub fn find_by_email(&self, email: &str) -> (r: Option<&User>)
        requires
            self.wf(),
        ensures
            match r {
                Some(u) => contains_email(self.view(), email@) && *u == record_for(
                    self.view(),
                    email@,
                ) && u.email@ == email@,
                None => !contains_email(self.view(), email@),
            },
    {
        let needle = String::from_str(email);
        let mut i: usize = 0;
        while i < self.users.len()
            invariant
                self.wf(),
                needle@ == email@,
                i <= self.view().len(),
                forall|k: int| 0 <= k < i ==> (#[trigger] self.view()[k].email@) != email@,
            decreases self.view().len() - i,
        {
            if self.users[i].email == needle {
                proof {
                    assert(self.view()[i as int].email@ == email@);
                    assert(contains_email(self.view(), email@));
                    let k = choose|k: int|
                        0 <= k < self.view().len() && self.view()[k].email@ == email@;
                    assert(self.view()[k].email@ == self.view()[i as int].email@);
                    assert(k == i as int);
                }
                return Some(&self.users[i]);
            }
            i = i + 1;
        }
        None
    }

    /// Atomic create-if-absent: inserts a fresh record for `email` and
    /// returns its store-assigned id, unless some record already
    /// carries `email`, in which case nothing is written and the
    /// attempt is refused as a duplicate.
    pub fn insert_new(&mut self, user_name: String, email: String, password_hash: String) -> (r:
        Result<String, AuthError>)
        requires
            old(self).wf(),
        ensures
            final (self).wf(),
            contains_email(old(self).view(), email@) ==> r == Err::<String, AuthError>(
                AuthError::DuplicateIdentity,
            ) && final (self).view() == old(self).view(),
            !contains_email(old(self).view(), email@) ==> (r matches Ok(id) && id@ == dec_rep(
                old(self).view().len() as nat,
            ) && final (self).view() == old(self).view().push(
                (User {
                    id: Some(id),
                    user_name: user_name,
                    email: email,
                    password: password_hash,
                    created_at: None,
                }),
            )),
    {
        if self.find_by_email(email.as_str()).is_some() {
            return Err(AuthError::DuplicateIdentity);
        }
        let id = u64_to_dec(self.users.len() as u64);
        let user = User {
            id: Some(id.clone()),
            user_name: user_name,
            email: email,
            password: password_hash,
            created_at: None,
        };
        let ghost oldv = self.view();
        self.users.push(user);
        proof {
            let newv = self.view();
            assert forall|i: int| 0 <= i < newv.len() implies (#[trigger] newv[i].id) matches Some(
                s,
            ) && s@ == dec_rep(i as nat) by {
                if i < oldv.len() {
                    assert(newv[i] == oldv[i]);
                }
            }
            assert forall|i: int, j: int| 0 <= i < j < newv.len() implies (
            #[trigger] newv[i].email@) != (#[trigger] newv[j].email@) by {
                if j < oldv.len() {
                    assert(newv[i] == oldv[i] && newv[j] == oldv[j]);
                } else {
                    assert(newv[i] == oldv[i]);
                    if newv[i].email@ == newv[j].email@ {
                        assert(contains_email(oldv, newv[j].email@));
                    }
                }
            }
        }
        Ok(id)
    }
}

/// One signup attempt for `email` against a uniqueness-enforcing store,
/// as the registration flow's contract has it: a successful attempt
/// finds the email absent and leaves it present, removing no other
/// email; a failed attempt leaves the store unchanged.
pub open spec fn signup_attempt(pre: Seq<User>, post: Seq<User>, email: Seq<char>, ok: bool) -> bool {
    if ok {
        &&& !contains_email(pre, email)
        &&& contains_email(post, email)
        &&& forall|e: Seq<char>| contains_email(pre, e) ==> contains_email(post, e)
    } else {
        post == pre
    }
}

/// An outcome shaped as the registration flow promises it — on success
/// the email was absent, one record carrying it was appended and the
/// rest kept; on failure the store is untouched — is a signup attempt
/// in the sense of `signup_attempt`. This bridges the flow's contract
/// to the chains that `lemma_one_winner` speaks of.
pub proof fn lemma_signup_step(pre: Seq<User>, post: Seq<User>, email: Seq<char>, ok: bool)
    requires
        ok ==> !contains_email(pre, email) && post.len() == pre.len() + 1 && post.drop_last()
            == pre && post.last().email@ == email,
        !ok ==> post == pre,
    ensures
        signup_attempt(pre, post, email, ok),
{
    if ok {
        assert(post[post.len() - 1].email@ == email);
        assert(contains_email(post, email));
        assert forall|e: Seq<char>| contains_email(pre, e) implies contains_email(post, e) by {
            let i = choose|i: int| 0 <= i < pre.len() && pre[i].email@ == e;
            assert(post.drop_last()[i] == pre[i]);
            assert(post[i].email@ == e);
        }
    }
}

/// How many of the attempts in a chain succeeded.
pub open spec fn count_successes(oks: Seq<bool>) -> nat
    decreases oks.len(),
{
    if oks.len() == 0 {
        0
    } else {
        count_successes(oks.drop_last()) + (if oks.last() {
            1nat
        } else {
            0nat
        })
    }
}

/// The concurrency law of registration: however many signup attempts
/// for one email race against a store whose uniqueness constraint makes
/// each check-and-insert atomic, the attempts serialize into some chain
/// of store states, and along any such chain at most one attempt
/// succeeds — exactly one, if the email starts out absent and ends up
/// present; none at all, if the store already held it.
pub proof fn lemma_one_winner(states: Seq<Seq<User>>, oks: Seq<bool>, email: Seq<char>)
    requires
        states.len() == oks.len() + 1,
        forall|k: int|
            0 <= k < oks.len() ==> signup_attempt(
                states[k],
                states[k + 1],
                email,
                #[trigger] oks[k],
            ),
    ensures
        contains_email(states[0], email) ==> count_successes(oks) == 0 && contains_email(
            states.last(),
            email,
        ),
        !contains_email(states[0], email) ==> count_successes(oks) == (
        if contains_email(states.last(), email) {
            1nat
        } else {
            0nat
        }),
    decreases oks.len(),
{
    if oks.len() > 0 {
        let n = oks.len() as int;
        let prefix_states = states.subrange(0, n);
        let prefix_oks = oks.subrange(0, n - 1);
        assert forall|k: int|
            0 <= k < prefix_oks.len() implies signup_attempt(
            prefix_states[k],
            prefix_states[k + 1],
            email,
            #[trigger] prefix_oks[k],
        ) by {
            assert(signup_attempt(states[k], states[k + 1], email, oks[k]));
        }
        lemma_one_winner(prefix_states, prefix_oks, email);
        assert(oks.drop_last() =~= prefix_oks);
        assert(prefix_states.last() == states[n - 1]);
        assert(signup_attempt(states[n - 1], states[n], email, oks[n - 1]));
        assert(states.last() == states[n]);
    }
}

/// Under the store's well-formedness at most one record carries any
/// given email: two indices whose records share an email coincide.
pub proof fn lemma_email_unique(store: MemStore, i: int, j: int)
    requires
        store.wf(),
        0 <= i < store.view().len(),
        0 <= j < store.view().len(),
        store.view()[i].email@ == store.view()[j].email@,
    ensures
        i == j,
{
}

} // verus!
