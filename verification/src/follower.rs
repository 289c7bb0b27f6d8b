use vstd::prelude::*;
use crate::clock::now_rfc3339;
use crate::text::str_eq;

verus! {

/// One outstanding remote-follows-local relationship: a remote actor that
/// follows a local user and the remote inbox that deliveries go to.
#[derive(Debug)]
pub struct Follower {
    pub id: i32,
    pub user_id: String,
    pub actor: String,
    pub object: String,
    pub inbox: String,
    pub created_at: String,
}

impl Clone for Follower {
    fn clone(&self) -> (r: Self)
        ensures
            r == *self,
    {
        let r = Follower {
            id: self.id,
            user_id: self.user_id.clone(),
            actor: self.actor.clone(),
            object: self.object.clone(),
            inbox: self.inbox.clone(),
            created_at: self.created_at.clone(),
        };
        proof {
            assert(r == *self);
        }
        r
    }
}

impl Follower {
    /// A fresh relationship record; the store assigns the real id when the
    /// record is added, so it starts at zero.
    pub fn new(user_id: &str, actor: &str, object: &str, inbox: &str) -> (r: Follower)
        ensures
            r.id == 0,
            r.user_id@ == user_id@,
            r.actor@ == actor@,
            r.object@ == object@,
            r.inbox@ == inbox@,
            r.created_at@.len() > 0,
    {
        Follower {
            id: 0,
            user_id: user_id.to_owned(),
            actor: actor.to_owned(),
            object: object.to_owned(),
            inbox: inbox.to_owned(),
            created_at: now_rfc3339(),
        }
    }
}

/// The same record under another id.
pub open spec fn with_id(f: Follower, id: i32) -> Follower {
    Follower {
        id,
        user_id: f.user_id,
        actor: f.actor,
        object: f.object,
        inbox: f.inbox,
        created_at: f.created_at,
    }
}

/// The records of one local user, in store order.
pub open spec fn followers_of(s: Seq<Follower>, user_id: Seq<char>) -> Seq<Follower> {
    s.filter(|f: Follower| f.user_id@ == user_id)
}

/// The store without the records of one remote actor for one local user.
pub open spec fn without_actor(s: Seq<Follower>, user_id: Seq<char>, actor: Seq<char>) -> Seq<
    Follower,
> {
    s.filter(|f: Follower| !(f.user_id@ == user_id && f.actor@ == actor))
}

/// No two records share an id.
pub open spec fn distinct_ids(s: Seq<Follower>) -> bool {
    forall|i: int, j: int| 0 <= i < j < s.len() ==> s[i].id != s[j].id
}

/// Every record's id lies below the bound.
pub open spec fn ids_below(s: Seq<Follower>, bound: int) -> bool {
    forall|i: int| 0 <= i < s.len() ==> 0 <= #[trigger] s[i].id < bound
}

/// A filtered singleton is the singleton or nothing.
proof fn lemma_filter_singleton(x: Follower, pred: spec_fn(Follower) -> bool)
    ensures
        seq![x].filter(pred) == if pred(x) {
            seq![x]
        } else {
            Seq::<Follower>::empty()
        },
{
    reveal_with_fuel(Seq::<_>::filter, 2);
    assert(seq![x].drop_last() =~= Seq::<Follower>::empty());
    if pred(x) {
        assert(seq![x].filter(pred) =~= seq![x]);
    } else {
        assert(seq![x].filter(pred) =~= Seq::<Follower>::empty());
    }
}

/// Filtering keeps only elements of the input sequence, and therefore
/// keeps its ids distinct and below any bound they were below.
proof fn lemma_filter_keeps_wf(s: Seq<Follower>, pred: spec_fn(Follower) -> bool)
    ensures
        forall|k: int|
            0 <= k < s.filter(pred).len() ==> s.contains(#[trigger] s.filter(pred)[k]),
        distinct_ids(s) ==> distinct_ids(s.filter(pred)),
        forall|b: int| ids_below(s, b) ==> ids_below(s.filter(pred), b),
    decreases s.len(),
{
    reveal(Seq::filter);
    if s.len() > 0 {
        let d = s.drop_last();
        lemma_filter_keeps_wf(d, pred);
        assert(forall|k: int| 0 <= k < d.len() ==> d[k] == s[k]);
        assert(forall|k: int| 0 <= k < d.len() && s.len() > 0 ==> s.contains(d[k])) by {
            assert(forall|k: int| 0 <= k < d.len() ==> d[k] == s[k]);
        }
        let f = s.filter(pred);
        let fd = d.filter(pred);
        if pred(s.last()) {
            assert(f == fd.push(s.last()));
            assert(forall|k: int| 0 <= k < f.len() - 1 ==> f[k] == fd[k]);
            assert(f[f.len() - 1] == s.last());
            assert(forall|k: int| 0 <= k < f.len() ==> s.contains(f[k])) by {
                assert(forall|k: int| 0 <= k < fd.len() ==> d.contains(fd[k]));
                assert(forall|k: int| 0 <= k < d.len() ==> d[k] == s[k]);
                assert(s.contains(s.last()));
            }
            if distinct_ids(s) {
                assert(distinct_ids(d));
                assert forall|i: int, j: int| 0 <= i < j < f.len() implies f[i].id != f[j].id by {
                    if j < f.len() - 1 {
                        assert(f[i] == fd[i] && f[j] == fd[j]);
                    } else {
                        // f[j] is the last element of s; f[i] sits in d.
                        assert(f[i] == fd[i]);
                        assert(d.contains(fd[i]));
                        let k = choose|k: int| 0 <= k < d.len() && d[k] == fd[i];
                        assert(s[k] == fd[i]);
                        assert(s[k].id != s[s.len() - 1].id);
                    }
                }
            }
        } else {
            assert(f == fd);
        }
    }
}

/// The in-memory follower store: the records in insertion order, and the id
/// that the next added record receives.
pub struct FollowerStore {
    items: Vec<Follower>,
    next_id: i32,
}

impl View for FollowerStore {
    type V = Seq<Follower>;

    closed spec fn view(&self) -> Seq<Follower> {
        self.items@
    }
}

impl FollowerStore {
    /// The id the next added record will receive.
    pub closed spec fn spec_next_id(&self) -> i32 {
        self.next_id
    }

    /// Ids are distinct and lie below the next free id.
    pub open spec fn wf(&self) -> bool {
        distinct_ids(self@) && ids_below(self@, self.spec_next_id() as int) && self.spec_next_id()
            >= 0
    }

    /// Room for one more id.
    pub open spec fn can_add(&self) -> bool {
        self.spec_next_id() < i32::MAX
    }

    pub fn new() -> (r: FollowerStore)
        ensures
            r@ == Seq::<Follower>::empty(),
            r.wf(),
            r.can_add(),
    {
        let r = FollowerStore { items: Vec::new(), next_id: 0 };
        proof {
            assert(r@ =~= Seq::<Follower>::empty());
        }
        r
    }

    /// Whether one more record can receive a fresh id.
    pub fn has_capacity(&self) -> (r: bool)
        ensures
            r == self.can_add(),
    {
        self.next_id < i32::MAX
    }

    /// Adds one record under a fresh id and returns that id.
    pub fn add(&mut self, f: &Follower) -> (id: i32)
        requires
            old(self).wf(),
            old(self).can_add(),
        ensures
            final(self).wf(),
            id == old(self).spec_next_id(),
            final(self)@ == old(self)@.push(with_id(*f, id)),
            final(self).spec_next_id() == old(self).spec_next_id() + 1,
    {
        let id = self.next_id;
        self.next_id = self.next_id + 1;
        let stored = Follower {
            id,
            user_id: f.user_id.clone(),
            actor: f.actor.clone(),
            object: f.object.clone(),
            inbox: f.inbox.clone(),
            created_at: f.created_at.clone(),
        };
        proof {
            assert(stored == with_id(*f, id));
        }
        self.items.push(stored);
        id
    }

    /// The records of one local user, in store order.
    pub fn list(&self, user_id: &str) -> (r: Vec<Follower>)
        ensures
            r@ == followers_of(self@, user_id@),
    {
        broadcast use Seq::filter_distributes_over_add;

        let mut out: Vec<Follower> = Vec::new();
        let n = self.items.len();
        let mut i: usize = 0;
        let ghost pred = |f: Follower| f.user_id@ == user_id@;
        proof {
            assert(self.items@.subrange(0, 0).filter(pred) =~= Seq::<Follower>::empty());
        }
        while i < n
            invariant
                n == self.items@.len(),
                i <= n,
                pred == (|f: Follower| f.user_id@ == user_id@),
                out@ == self.items@.subrange(0, i as int).filter(pred),
            decreases n - i,
        {
            let item = &self.items[i];
            if str_eq(item.user_id.as_str(), user_id) {
                out.push(item.clone());
            }
            proof {
                let x = self.items@[i as int];
                assert(self.items@.subrange(0, i as int + 1) =~= self.items@.subrange(0, i as int)
                    + seq![x]);
                Seq::filter_distributes_over_add(self.items@.subrange(0, i as int), seq![x], pred);
                lemma_filter_singleton(x, pred);
                assert(out@ =~= self.items@.subrange(0, i as int + 1).filter(pred));
            }
            i = i + 1;
        }
        proof {
            assert(self.items@.subrange(0, n as int) =~= self.items@);
        }
        out
    }

    /// Removes the record with the given id, if any.
    pub fn delete(&mut self, id: i32)
        requires
            old(self).wf(),
        ensures
            final(self).wf(),
            final(self)@ == old(self)@.filter((|f: Follower| f.id != id)),
            final(self).spec_next_id() == old(self).spec_next_id(),
    {
        broadcast use Seq::filter_distributes_over_add;

        let ghost pred = |f: Follower| f.id != id;
        let mut out: Vec<Follower> = Vec::new();
        let n = self.items.len();
        let mut i: usize = 0;
        proof {
            assert(self.items@.subrange(0, 0).filter(pred) =~= Seq::<Follower>::empty());
        }
        while i < n
            invariant
                n == self.items@.len(),
                i <= n,
                pred == (|f: Follower| f.id != id),
                out@ == self.items@.subrange(0, i as int).filter(pred),
            decreases n - i,
        {
            let item = &self.items[i];
            if item.id != id {
                out.push(item.clone());
            }
            proof {
                let x = self.items@[i as int];
                assert(self.items@.subrange(0, i as int + 1) =~= self.items@.subrange(0, i as int)
                    + seq![x]);
                Seq::filter_distributes_over_add(self.items@.subrange(0, i as int), seq![x], pred);
                lemma_filter_singleton(x, pred);
                assert(out@ =~= self.items@.subrange(0, i as int + 1).filter(pred));
            }
            i = i + 1;
        }
        proof {
            assert(self.items@.subrange(0, n as int) =~= self.items@);
            lemma_filter_keeps_wf(self.items@, pred);
        }
        self.items = out;
    }

    /// Removes every record of one remote actor for one local user; records
    /// of other actors and other users stay. Nothing happens when no record
    /// matches.
    pub fn delete_matching(&mut self, user_id: &str, actor: &str)
        requires
            old(self).wf(),
        ensures
            final(self).wf(),
            final(self)@ == without_actor(old(self)@, user_id@, actor@),
            final(self).spec_next_id() == old(self).spec_next_id(),
    {
        broadcast use Seq::filter_distributes_over_add;

        let ghost pred = |f: Follower| !(f.user_id@ == user_id@ && f.actor@ == actor@);
        let mut out: Vec<Follower> = Vec::new();
        let n = self.items.len();
        let mut i: usize = 0;
        proof {
            assert(self.items@.subrange(0, 0).filter(pred) =~= Seq::<Follower>::empty());
        }
        while i < n
            invariant
                n == self.items@.len(),
                i <= n,
                pred == (|f: Follower| !(f.user_id@ == user_id@ && f.actor@ == actor@)),
                out@ == self.items@.subrange(0, i as int).filter(pred),
            decreases n - i,
        {
            let item = &self.items[i];
            let is_match = str_eq(item.user_id.as_str(), user_id) && str_eq(
                item.actor.as_str(),
                actor,
            );
            if !is_match {
                out.push(item.clone());
            }
            proof {
                let x = self.items@[i as int];
                assert(self.items@.subrange(0, i as int + 1) =~= self.items@.subrange(0, i as int)
                    + seq![x]);
                Seq::filter_distributes_over_add(self.items@.subrange(0, i as int), seq![x], pred);
                lemma_filter_singleton(x, pred);
                assert(out@ =~= self.items@.subrange(0, i as int + 1).filter(pred));
            }
            i = i + 1;
        }
        proof {
            assert(self.items@.subrange(0, n as int) =~= self.items@);
            lemma_filter_keeps_wf(self.items@, pred);
        }
        self.items = out;
    }
}

} // verus!
