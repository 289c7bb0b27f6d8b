use vstd::prelude::*;
use crate::activity_pub_service::ActivityPubService;
use crate::clock::{http_date_now, now_rfc3339};
use crate::config::AppConfig;
use crate::delivery::DeliveryItem;
use crate::directory::{find_by_id, UserDirectory};
use crate::error::{CommonError, CommonErrorCode};
use crate::follower::{followers_of, FollowerStore};
use crate::note::{
    find_note_by_id, page_of, published_notes, published_notes_of, Note, NoteStatus, NoteStore,
    NotesPage, NotesPagingParams, DEFAULT_LIMIT, DEFAULT_OFFSET,
};

verus! {

/// The note use case: publication with delivery fan-out, and the note read
/// and delete paths, against the stores handed in by the caller.
pub struct UserNoteUseCase {
    pub app_url: String,
    pub activity_pub_service: ActivityPubService,
}

impl UserNoteUseCase {
    pub fn new(app_config: &AppConfig, activity_pub_service: ActivityPubService) -> (r:
        UserNoteUseCase)
        ensures
            r.app_url@ == app_config.app_url@,
    {
        UserNoteUseCase { app_url: app_config.app_url.clone(), activity_pub_service }
    }

    /// Publishes a note: stores it, then prepares one signed delivery per
    /// follower of the author. The publication succeeds whatever becomes of
    /// the deliveries: every follower gets exactly one prepared attempt, and
    /// no recipient's failure is anyone else's. The per-request contract is
    /// `ActivityPubService::send_note`'s.
    pub fn create(
        &self,
        users: &UserDirectory,
        notes: &mut NoteStore,
        followers: &FollowerStore,
        user_id: &String,
        content: &String,
    ) -> (r: Result<(Note, Vec<DeliveryItem>), CommonError>)
        ensures
            match r {
                Ok(pair) => {
                    &&& find_by_id(users@, user_id@) matches Some(u) && {
                        &&& pair.0.user_id@ == u.id@
                        &&& pair.1@.len() == followers_of(followers@, u.id@).len()
                        &&& forall|i: int|
                            0 <= i < pair.1@.len() ==> ((#[trigger] pair.1@[i])
                                matches DeliveryItem::Prepared(q) ==> q.url@ == followers_of(
                                followers@,
                                u.id@,
                            )[i].inbox@)
                    }
                    &&& pair.0.content@ == content@
                    &&& pair.0.status == NoteStatus::PUBLISHED
                    &&& final(notes)@ == old(notes)@.push(pair.0)
                },
                Err(e) => {
                    &&& final(notes)@ == old(notes)@
                    &&& find_by_id(users@, user_id@) is None
                    &&& e.spec_code() == CommonErrorCode::UserDoesNotExists
                    &&& e.wf()
                },
            },
    {
        let user = match users.get(user_id.as_str()) {
            Ok(u) => u,
            Err(e) => {
                return Err(e);
            },
        };
        let new_note = Note::new(&user.id, content);
        notes.add(&new_note);
        let recipients = followers.list(user.id.as_str());
        let date = http_date_now();
        let published = now_rfc3339();
        let deliveries = self.activity_pub_service.send_note(
            &user,
            &new_note,
            &recipients,
            &self.app_url,
            date.as_str(),
            published.as_str(),
        );
        Ok((new_note, deliveries))
    }

    /// One page of a user's published notes, newest first.
    pub fn list(&self, notes: &NoteStore, user_id: &String, paging_params: &NotesPagingParams) -> (r:
        Result<NotesPage, CommonError>)
        ensures
            r matches Ok(page) && page.total == published_notes(notes@).len() && ({
                let selected = published_notes_of(notes@, user_id@).reverse();
                let offset = match paging_params.offset {
                    Some(v) => v as int,
                    None => DEFAULT_OFFSET as int,
                };
                let limit = match paging_params.limit {
                    Some(v) => v as int,
                    None => DEFAULT_LIMIT as int,
                };
                page.notes@ == page_of(selected, offset, limit)
            }),
    {
        Ok(notes.list(user_id, paging_params))
    }

    /// The published note of one user under the given id.
    pub fn get(&self, notes: &NoteStore, user_id: &String, note_id: &String) -> (r: Result<
        Note,
        CommonError,
    >)
        ensures
            match r {
                Ok(n) => find_note_by_id(published_notes_of(notes@, user_id@), note_id@) == Some(n),
                Err(e) => find_note_by_id(published_notes_of(notes@, user_id@), note_id@) is None
                    && e.spec_code() == CommonErrorCode::NoteDoesNotExists && e.wf(),
            },
    {
        notes.get(user_id, note_id)
    }

    /// Marks one published note of the user as deleted: the stored note
    /// under its id changes its status and keeps its other columns,
    /// everything else stays.
    pub fn delete(&self, notes: &mut NoteStore, user_id: &String, note_id: &String) -> (r: Result<
        (),
        CommonError,
    >)
        ensures
            match r {
                Ok(()) => exists|n0: Note|
                    {
                        &&& #[trigger] find_note_by_id(
                            published_notes_of(old(notes)@, user_id@),
                            note_id@,
                        ) == Some(n0)
                        &&& final(notes)@ == Seq::new(
                            old(notes)@.len(),
                            |i: int|
                                if old(notes)@[i].id@ == n0.id@ {
                                    Note {
                                        status: NoteStatus::DELETED,
                                        updated_at: n0.updated_at,
                                        ..old(notes)@[i]
                                    }
                                } else {
                                    old(notes)@[i]
                                },
                        )
                    },
                Err(e) => final(notes)@ == old(notes)@ && e.wf() && ((e.spec_code()
                    == CommonErrorCode::NoteDoesNotExists && find_note_by_id(
                    published_notes_of(old(notes)@, user_id@),
                    note_id@,
                ) is None) || (e.spec_code() == CommonErrorCode::UnexpectedError && exists|n0: Note|
                    #[trigger] find_note_by_id(published_notes_of(old(notes)@, user_id@), note_id@)
                        == Some(n0) && find_note_by_id(old(notes)@, n0.id@) is None)),
            },
    {
        let mut note = match notes.get(user_id, note_id) {
            Ok(n) => n,
            Err(e) => {
                return Err(e);
            },
        };
        note.status = NoteStatus::DELETED;
        match notes.update(&note) {
            Ok(()) => Ok(()),
            Err(e) => Err(e),
        }
    }
}

} // verus!
