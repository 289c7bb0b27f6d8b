use vstd::prelude::*;
use crate::clock::now_rfc3339;
use crate::error::{CommonError, CommonErrorCode};
use crate::ids::new_ulid;
use crate::text::str_eq;

verus! {

/// Where a note stands in its lifecycle.
#[derive(Clone, Copy, Debug, PartialEq, Eq, Structural)]
pub enum NoteStatus {
    UNKNOWN,
    PUBLISHED,
    DELETED,
}

/// A note a local user published.
#[derive(Debug)]
pub struct Note {
    pub id: String,
    pub user_id: String,
    pub content: String,
    pub status: NoteStatus,
    pub created_at: String,
    pub updated_at: String,
}

impl Clone for Note {
    fn clone(&self) -> (r: Self)
        ensures
            r == *self,
    {
        let r = Note {
            id: self.id.clone(),
            user_id: self.user_id.clone(),
            content: self.content.clone(),
            status: self.status,
            created_at: self.created_at.clone(),
            updated_at: self.updated_at.clone(),
        };
        proof {
            assert(r == *self);
        }
        r
    }
}

impl Note {
    /// A fresh published note with one creation moment for both timestamps.
    pub fn new(user_id: &String, content: &String) -> (r: Note)
        ensures
            r.id@.len() == 26,
            r.user_id@ == user_id@,
            r.content@ == content@,
            r.status == NoteStatus::PUBLISHED,
            r.created_at@.len() > 0,
            r.created_at@ == r.updated_at@,
    {
        let id = new_ulid();
        let now = now_rfc3339();
        Note {
            id,
            user_id: user_id.clone(),
            content: content.clone(),
            status: NoteStatus::PUBLISHED,
            created_at: now.clone(),
            updated_at: now,
        }
    }
}

/// One page of a user's notes together with the total count.
pub struct NotesPage {
    pub notes: Vec<Note>,
    pub total: u64,
}

pub const DEFAULT_OFFSET: u64 = 0;

pub const DEFAULT_LIMIT: u64 = 10;

/// Optional paging bounds; absent values fall back to the defaults.
pub struct NotesPagingParams {
    pub offset: Option<u64>,
    pub limit: Option<u64>,
}

impl NotesPagingParams {
    pub fn offset(&self) -> (r: u64)
        ensures
            r == match self.offset {
                Some(v) => v,
                None => DEFAULT_OFFSET,
            },
    {
        match self.offset {
            Some(v) => v,
            None => DEFAULT_OFFSET,
        }
    }

    pub fn limit(&self) -> (r: u64)
        ensures
            r == match self.limit {
                Some(v) => v,
                None => DEFAULT_LIMIT,
            },
    {
        match self.limit {
            Some(v) => v,
            None => DEFAULT_LIMIT,
        }
    }
}

/// The published notes of the store, in store order.
pub open spec fn published_notes(s: Seq<Note>) -> Seq<Note> {
    s.filter(|n: Note| n.status == NoteStatus::PUBLISHED)
}

/// The published notes of one user, in store order.
pub open spec fn published_notes_of(s: Seq<Note>, user_id: Seq<char>) -> Seq<Note> {
    s.filter(|n: Note| n.user_id@ == user_id && n.status == NoteStatus::PUBLISHED)
}

/// The row with only its lifecycle columns replaced: the status and the
/// update moment come from `n`, every other column of the row stays.
pub open spec fn status_updated(row: Note, n: Note) -> Note {
    Note { status: n.status, updated_at: n.updated_at, ..row }
}

/// The first note of the sequence that carries the id, if any.
pub open spec fn find_note_by_id(s: Seq<Note>, note_id: Seq<char>) -> Option<Note>
    decreases s.len(),
{
    if s.len() == 0 {
        None
    } else if s[0].id@ == note_id {
        Some(s[0])
    } else {
        find_note_by_id(s.skip(1), note_id)
    }
}

/// One page of a sequence: at most `limit` elements starting at `offset`,
/// clipped to the sequence.
pub open spec fn page_of(s: Seq<Note>, offset: int, limit: int) -> Seq<Note> {
    let lo = if offset > s.len() {
        s.len() as int
    } else {
        offset
    };
    let hi = if offset + limit > s.len() {
        s.len() as int
    } else {
        offset + limit
    };
    s.subrange(lo, if hi < lo { lo } else { hi })
}

/// The in-memory note store, in insertion order; insertion order is
/// publication order, so the newest note stands last.
pub struct NoteStore {
    notes: Vec<Note>,
}

impl View for NoteStore {
    type V = Seq<Note>;

    closed spec fn view(&self) -> Seq<Note> {
        self.notes@
    }
}

/// A filtered singleton is the singleton or nothing.
proof fn lemma_note_filter_singleton(x: Note, pred: spec_fn(Note) -> bool)
    ensures
        seq![x].filter(pred) == if pred(x) {
            seq![x]
        } else {
            Seq::<Note>::empty()
        },
{
    reveal_with_fuel(Seq::<_>::filter, 2);
    assert(seq![x].drop_last() =~= Seq::<Note>::empty());
    if pred(x) {
        assert(seq![x].filter(pred) =~= seq![x]);
    } else {
        assert(seq![x].filter(pred) =~= Seq::<Note>::empty());
    }
}

impl NoteStore {
    pub fn new() -> (r: NoteStore)
        ensures
            r@ == Seq::<Note>::empty(),
    {
        let r = NoteStore { notes: Vec::new() };
        proof {
            assert(r@ =~= Seq::<Note>::empty());
        }
        r
    }

    /// Stores one note at the end.
    pub fn add(&mut self, n: &Note)
        ensures
            final(self)@ == old(self)@.push(*n),
    {
        self.notes.push(n.clone());
    }

    /// The published note of one user under the given id;
    /// `NoteDoesNotExists` when there is none.
    pub fn get(&self, user_id: &String, note_id: &String) -> (r: Result<Note, CommonError>)
        ensures
            match r {
                Ok(n) => find_note_by_id(published_notes_of(self@, user_id@), note_id@) == Some(n),
                Err(e) => find_note_by_id(published_notes_of(self@, user_id@), note_id@) is None
                    && e.spec_code() == CommonErrorCode::NoteDoesNotExists && e.wf(),
            },
    {
        let selected = self.list_published_of(user_id.as_str());
        let n = selected.len();
        let mut i: usize = 0;
        proof {
            assert(selected@.skip(0) == selected@);
        }
        while i < n
            invariant
                n == selected@.len(),
                i <= n,
                selected@ == published_notes_of(self@, user_id@),
                find_note_by_id(selected@, note_id@) == find_note_by_id(
                    selected@.skip(i as int),
                    note_id@,
                ),
            decreases n - i,
        {
            let cur = &selected[i];
            proof {
                assert(selected@.skip(i as int)[0] == selected@[i as int]);
                assert(selected@.skip(i as int).skip(1) == selected@.skip(i as int + 1));
            }
            if str_eq(cur.id.as_str(), note_id.as_str()) {
                proof {
                    assert(find_note_by_id(selected@.skip(i as int), note_id@) == Some(
                        selected@[i as int],
                    ));
                }
                return Ok(cur.clone());
            }
            i = i + 1;
        }
        proof {
            assert(selected@.skip(n as int) =~= Seq::<Note>::empty());
        }
        Err(CommonError::new(CommonErrorCode::NoteDoesNotExists))
    }

    /// Writes `n`'s status and update moment into the stored note that
    /// carries `n`'s id; its other columns and every other note stay.
    /// `UnexpectedError` when no stored note carries the id.
    pub fn update(&mut self, n: &Note) -> (r: Result<(), CommonError>)
        ensures
            match r {
                Ok(()) => final(self)@ == Seq::new(
                    old(self)@.len(),
                    |i: int|
                        if old(self)@[i].id@ == n.id@ {
                            status_updated(old(self)@[i], *n)
                        } else {
                            old(self)@[i]
                        },
                ) && find_note_by_id(old(self)@, n.id@) is Some,
                Err(e) => final(self)@ == old(self)@ && find_note_by_id(old(self)@, n.id@) is None
                    && e.spec_code() == CommonErrorCode::UnexpectedError && e.wf(),
            },
    {
        let ghost target = Seq::new(
            self.notes@.len(),
            |i: int|
                if self.notes@[i].id@ == n.id@ {
                    status_updated(self.notes@[i], *n)
                } else {
                    self.notes@[i]
                },
        );
        let count = self.notes.len();
        let mut out: Vec<Note> = Vec::new();
        let mut seen = false;
        let mut i: usize = 0;
        proof {
            assert(self.notes@.skip(0) == self.notes@);
        }
        while i < count
            invariant
                count == self.notes@.len(),
                i <= count,
                target == Seq::new(
                    self.notes@.len(),
                    |k: int|
                        if self.notes@[k].id@ == n.id@ {
                            status_updated(self.notes@[k], *n)
                        } else {
                            self.notes@[k]
                        },
                ),
                out@ == target.subrange(0, i as int),
                seen ==> find_note_by_id(self.notes@, n.id@) is Some,
                !seen ==> find_note_by_id(self.notes@, n.id@) == find_note_by_id(
                    self.notes@.skip(i as int),
                    n.id@,
                ),
            decreases count - i,
        {
            let cur = &self.notes[i];
            proof {
                assert(self.notes@.skip(i as int)[0] == self.notes@[i as int]);
                assert(self.notes@.skip(i as int).skip(1) == self.notes@.skip(i as int + 1));
            }
            if str_eq(cur.id.as_str(), n.id.as_str()) {
                let changed = Note {
                    id: cur.id.clone(),
                    user_id: cur.user_id.clone(),
                    content: cur.content.clone(),
                    status: n.status,
                    created_at: cur.created_at.clone(),
                    updated_at: n.updated_at.clone(),
                };
                proof {
                    assert(changed == status_updated(self.notes@[i as int], *n));
                }
                out.push(changed);
                seen = true;
            } else {
                out.push(cur.clone());
            }
            proof {
                assert(out@ =~= target.subrange(0, i as int + 1));
            }
            i = i + 1;
        }
        if seen {
            proof {
                assert(target.subrange(0, count as int) =~= target);
            }
            self.notes = out;
            Ok(())
        } else {
            proof {
                assert(self.notes@.skip(count as int) =~= Seq::<Note>::empty());
            }
            Err(CommonError::new(CommonErrorCode::UnexpectedError))
        }
    }

    /// The published notes of one user, in store order.
    fn list_published_of(&self, user_id: &str) -> (r: Vec<Note>)
        ensures
            r@ == published_notes_of(self@, user_id@),
    {
        broadcast use Seq::filter_distributes_over_add;

        let ghost pred = |x: Note| x.user_id@ == user_id@ && x.status == NoteStatus::PUBLISHED;
        let mut out: Vec<Note> = Vec::new();
        let n = self.notes.len();
        let mut i: usize = 0;
        proof {
            assert(self.notes@.subrange(0, 0).filter(pred) =~= Seq::<Note>::empty());
        }
        while i < n
            invariant
                n == self.notes@.len(),
                i <= n,
                pred == (|x: Note| x.user_id@ == user_id@ && x.status == NoteStatus::PUBLISHED),
                out@ == self.notes@.subrange(0, i as int).filter(pred),
            decreases n - i,
        {
            let cur = &self.notes[i];
            let keep = str_eq(cur.user_id.as_str(), user_id) && matches!(cur.status, NoteStatus::PUBLISHED);
            if keep {
                out.push(cur.clone());
            }
            proof {
                let x = self.notes@[i as int];
                assert(self.notes@.subrange(0, i as int + 1) =~= self.notes@.subrange(0, i as int)
                    + seq![x]);
                Seq::filter_distributes_over_add(self.notes@.subrange(0, i as int), seq![x], pred);
                lemma_note_filter_singleton(x, pred);
                assert(out@ =~= self.notes@.subrange(0, i as int + 1).filter(pred));
            }
            i = i + 1;
        }
        proof {
            assert(self.notes@.subrange(0, n as int) =~= self.notes@);
        }
        out
    }

    /// How many published notes the store holds, over all users.
    fn count_published(&self) -> (r: usize)
        ensures
            r == published_notes(self@).len(),
    {
        broadcast use Seq::filter_distributes_over_add;

        let ghost pred = |x: Note| x.status == NoteStatus::PUBLISHED;
        let n = self.notes.len();
        let mut total: usize = 0;
        let mut i: usize = 0;
        proof {
            assert(self.notes@.subrange(0, 0).filter(pred) =~= Seq::<Note>::empty());
        }
        while i < n
            invariant
                n == self.notes@.len(),
                i <= n,
                pred == (|x: Note| x.status == NoteStatus::PUBLISHED),
                total == self.notes@.subrange(0, i as int).filter(pred).len(),
                total <= i,
            decreases n - i,
        {
            let cur = &self.notes[i];
            if matches!(cur.status, NoteStatus::PUBLISHED) {
                total = total + 1;
            }
            proof {
                let x = self.notes@[i as int];
                assert(self.notes@.subrange(0, i as int + 1) =~= self.notes@.subrange(0, i as int)
                    + seq![x]);
                Seq::filter_distributes_over_add(self.notes@.subrange(0, i as int), seq![x], pred);
                lemma_note_filter_singleton(x, pred);
            }
            i = i + 1;
        }
        proof {
            assert(self.notes@.subrange(0, n as int) =~= self.notes@);
        }
        total
    }

    /// One page of a user's published notes, newest first, together with the
    /// count of all published notes in the store.
    pub fn list(&self, user_id: &String, paging_params: &NotesPagingParams) -> (r: NotesPage)
        ensures
            r.total == published_notes(self@).len(),
            ({
                let selected = published_notes_of(self@, user_id@).reverse();
                let offset = match paging_params.offset {
                    Some(v) => v as int,
                    None => DEFAULT_OFFSET as int,
                };
                let limit = match paging_params.limit {
                    Some(v) => v as int,
                    None => DEFAULT_LIMIT as int,
                };
                r.notes@ == page_of(selected, offset, limit)
            }),
    {
        let selected = self.list_published_of(user_id.as_str());
        let newest_first = reverse_notes(&selected);
        let offset = paging_params.offset();
        let limit = paging_params.limit();
        let len = newest_first.len();
        let lo: usize = if offset > len as u64 {
            len
        } else {
            offset as usize
        };
        let room: u64 = (len - lo) as u64;
        let take: usize = if limit > room {
            len - lo
        } else {
            limit as usize
        };
        let mut page: Vec<Note> = Vec::new();
        let mut i: usize = 0;
        while i < take
            invariant
                lo + take <= newest_first@.len() <= usize::MAX,
                i <= take,
                page@ == newest_first@.subrange(lo as int, lo as int + i as int),
            decreases take - i,
        {
            page.push(newest_first[lo + i].clone());
            proof {
                assert(page@ =~= newest_first@.subrange(lo as int, lo as int + i as int + 1));
            }
            i = i + 1;
        }
        proof {
            let selected_spec = published_notes_of(self@, user_id@).reverse();
            let offset_spec = match paging_params.offset {
                Some(v) => v as int,
                None => DEFAULT_OFFSET as int,
            };
            let limit_spec = match paging_params.limit {
                Some(v) => v as int,
                None => DEFAULT_LIMIT as int,
            };
            assert(page@ =~= page_of(selected_spec, offset_spec, limit_spec));
        }
        NotesPage { notes: page, total: self.count_published() as u64 }
    }
}

/// The notes in reverse order.
fn reverse_notes(v: &Vec<Note>) -> (r: Vec<Note>)
    ensures
        r@ == v@.reverse(),
{
    let n = v.len();
    let mut out: Vec<Note> = Vec::new();
    let mut i: usize = 0;
    while i < n
        invariant
            n == v@.len(),
            i <= n,
            out@.len() == i,
            forall|k: int| 0 <= k < i ==> out@[k] == v@[n - 1 - k],
        decreases n - i,
    {
        out.push(v[n - 1 - i].clone());
        i = i + 1;
    }
    proof {
        assert(out@ =~= v@.reverse());
    }
    out
}

} // verus!
