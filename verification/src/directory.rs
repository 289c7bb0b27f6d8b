use vstd::prelude::*;
use crate::error::{CommonError, CommonErrorCode};
use crate::text::str_eq;
use crate::user::User;

verus! {

/// The first user of the sequence that carries the username, if any.
pub open spec fn find_by_username(s: Seq<User>, username: Seq<char>) -> Option<User>
    decreases s.len(),
{
    if s.len() == 0 {
        None
    } else if s[0].username@ == username {
        Some(s[0])
    } else {
        find_by_username(s.skip(1), username)
    }
}

/// The first user of the sequence that carries the id, if any.
pub open spec fn find_by_id(s: Seq<User>, user_id: Seq<char>) -> Option<User>
    decreases s.len(),
{
    if s.len() == 0 {
        None
    } else if s[0].id@ == user_id {
        Some(s[0])
    } else {
        find_by_id(s.skip(1), user_id)
    }
}

/// The sequence with the named columns of the user under `u`'s id replaced:
/// the username, the display name and the update moment come from `u`; the
/// id, the creation moment and the key pair of the stored user stay, as does
/// every other user.
pub open spec fn replace_by_id(s: Seq<User>, u: User) -> Seq<User> {
    Seq::new(
        s.len(),
        |i: int|
            if s[i].id@ == u.id@ {
                User {
                    username: u.username,
                    display_name: u.display_name,
                    updated_at: u.updated_at,
                    ..s[i]
                }
            } else {
                s[i]
            },
    )
}

/// The in-memory user directory, in insertion order.
pub struct UserDirectory {
    users: Vec<User>,
}

impl View for UserDirectory {
    type V = Seq<User>;

    closed spec fn view(&self) -> Seq<User> {
        self.users@
    }
}

impl UserDirectory {
    pub fn new() -> (r: UserDirectory)
        ensures
            r@ == Seq::<User>::empty(),
    {
        let r = UserDirectory { users: Vec::new() };
        proof {
            assert(r@ =~= Seq::<User>::empty());
        }
        r
    }

    /// Adds a user at the end.
    pub fn add(&mut self, u: User)
        ensures
            final(self)@ == old(self)@.push(u),
    {
        self.users.push(u);
    }

    /// All users, in insertion order.
    pub fn list(&self) -> (r: Vec<User>)
        ensures
            r@ == self@,
    {
        let mut out: Vec<User> = Vec::new();
        let n = self.users.len();
        let mut i: usize = 0;
        while i < n
            invariant
                n == self.users@.len(),
                i <= n,
                out@ == self.users@.subrange(0, i as int),
            decreases n - i,
        {
            out.push(self.users[i].clone());
            proof {
                assert(out@ =~= self.users@.subrange(0, i as int + 1));
            }
            i = i + 1;
        }
        proof {
            assert(self.users@.subrange(0, n as int) =~= self.users@);
        }
        out
    }

    /// How many users the directory holds.
    pub fn count(&self) -> (r: usize)
        ensures
            r == self@.len(),
    {
        self.users.len()
    }

    /// The first user under the given username, if any.
    pub fn find(&self, username: &str) -> (r: Option<User>)
        ensures
            r == find_by_username(self@, username@),
    {
        let n = self.users.len();
        let mut i: usize = 0;
        proof {
            assert(self.users@.skip(0) == self.users@);
        }
        while i < n
            invariant
                n == self.users@.len(),
                i <= n,
                find_by_username(self.users@, username@) == find_by_username(
                    self.users@.skip(i as int),
                    username@,
                ),
            decreases n - i,
        {
            let u = &self.users[i];
            proof {
                assert(self.users@.skip(i as int)[0] == self.users@[i as int]);
                assert(self.users@.skip(i as int).skip(1) == self.users@.skip(i as int + 1));
            }
            if str_eq(u.username.as_str(), username) {
                return Some(u.clone());
            }
            i = i + 1;
        }
        proof {
            assert(self.users@.skip(n as int) =~= Seq::<User>::empty());
        }
        None
    }

    /// The user under the given id; `UserDoesNotExists` when absent.
    pub fn get(&self, user_id: &str) -> (r: Result<User, CommonError>)
        ensures
            match r {
                Ok(u) => find_by_id(self@, user_id@) == Some(u),
                Err(e) => find_by_id(self@, user_id@) is None && e.spec_code()
                    == CommonErrorCode::UserDoesNotExists && e.wf(),
            },
    {
        let n = self.users.len();
        let mut i: usize = 0;
        proof {
            assert(self.users@.skip(0) == self.users@);
        }
        while i < n
            invariant
                n == self.users@.len(),
                i <= n,
                find_by_id(self.users@, user_id@) == find_by_id(
                    self.users@.skip(i as int),
                    user_id@,
                ),
            decreases n - i,
        {
            let u = &self.users[i];
            proof {
                assert(self.users@.skip(i as int)[0] == self.users@[i as int]);
                assert(self.users@.skip(i as int).skip(1) == self.users@.skip(i as int + 1));
            }
            if str_eq(u.id.as_str(), user_id) {
                return Ok(u.clone());
            }
            i = i + 1;
        }
        proof {
            assert(self.users@.skip(n as int) =~= Seq::<User>::empty());
        }
        Err(CommonError::new(CommonErrorCode::UserDoesNotExists))
    }

    /// Writes `u`'s username, display name and update moment into the stored
    /// user that carries `u`'s id; its identity columns and key pair stay.
    pub fn update(&mut self, u: &User)
        ensures
            final(self)@ == replace_by_id(old(self)@, *u),
    {
        let mut out: Vec<User> = Vec::new();
        let n = self.users.len();
        let mut i: usize = 0;
        while i < n
            invariant
                n == self.users@.len(),
                i <= n,
                out@ == replace_by_id(self.users@, *u).subrange(0, i as int),
            decreases n - i,
        {
            let cur = &self.users[i];
            if str_eq(cur.id.as_str(), u.id.as_str()) {
                let changed = User {
                    id: cur.id.clone(),
                    username: u.username.clone(),
                    display_name: u.display_name.clone(),
                    created_at: cur.created_at.clone(),
                    updated_at: u.updated_at.clone(),
                    key_pair: cur.key_pair.clone(),
                };
                proof {
                    assert(changed == replace_by_id(self.users@, *u)[i as int]);
                }
                out.push(changed);
            } else {
                out.push(cur.clone());
            }
            proof {
                assert(out@ =~= replace_by_id(self.users@, *u).subrange(0, i as int + 1));
            }
            i = i + 1;
        }
        proof {
            assert(replace_by_id(self.users@, *u).subrange(0, n as int) =~= replace_by_id(
                self.users@,
                *u,
            ));
        }
        self.users = out;
    }

    /// Removes every user under the given id.
    pub fn delete(&mut self, user_id: &str)
        ensures
            final(self)@ == old(self)@.filter((|x: User| x.id@ != user_id@)),
    {
        broadcast use Seq::filter_distributes_over_add;

        let ghost pred = |x: User| x.id@ != user_id@;
        let mut out: Vec<User> = Vec::new();
        let n = self.users.len();
        let mut i: usize = 0;
        proof {
            assert(self.users@.subrange(0, 0).filter(pred) =~= Seq::<User>::empty());
        }
        while i < n
            invariant
                n == self.users@.len(),
                i <= n,
                pred == (|x: User| x.id@ != user_id@),
                out@ == self.users@.subrange(0, i as int).filter(pred),
            decreases n - i,
        {
            let cur = &self.users[i];
            if !str_eq(cur.id.as_str(), user_id) {
                out.push(cur.clone());
            }
            proof {
                let x = self.users@[i as int];
                assert(self.users@.subrange(0, i as int + 1) =~= self.users@.subrange(0, i as int)
                    + seq![x]);
                Seq::filter_distributes_over_add(self.users@.subrange(0, i as int), seq![x], pred);
                lemma_user_filter_singleton(x, pred);
                assert(out@ =~= self.users@.subrange(0, i as int + 1).filter(pred));
            }
            i = i + 1;
        }
        proof {
            assert(self.users@.subrange(0, n as int) =~= self.users@);
        }
        self.users = out;
    }
}

/// A filtered singleton is the singleton or nothing.
proof fn lemma_user_filter_singleton(x: User, pred: spec_fn(User) -> bool)
    ensures
        seq![x].filter(pred) == if pred(x) {
            seq![x]
        } else {
            Seq::<User>::empty()
        },
{
    reveal_with_fuel(Seq::<_>::filter, 2);
    assert(seq![x].drop_last() =~= Seq::<User>::empty());
    if pred(x) {
        assert(seq![x].filter(pred) =~= seq![x]);
    } else {
        assert(seq![x].filter(pred) =~= Seq::<User>::empty());
    }
}

} // verus!
