use gekidan::activity_pub_service::ActivityPubService;
use gekidan::config::AppConfig;
use gekidan::directory::UserDirectory;
use gekidan::error::CommonErrorCode;
use gekidan::follower::FollowerStore;
use gekidan::note::{Note, NoteStatus, NoteStore, NotesPagingParams};
use gekidan::user::User;
use gekidan::user_note::UserNoteUseCase;

#[test]
fn test_new_note() {
    let note = Note::new(&"abcd1234".to_string(), &"Hello, world!".to_string());

    assert_ne!(note.id, "");
    assert_eq!(note.user_id, "abcd1234");
    assert_eq!(note.status, NoteStatus::PUBLISHED);
}

#[test]
fn store_update_writes_only_status_and_updated_at() {
    let mut notes = NoteStore::new();
    let note = Note::new(&"u1".to_string(), &"original content".to_string());
    let note_id = note.id.clone();
    let created_at = note.created_at.clone();
    notes.add(&note);

    // The argument differs in every column; only the lifecycle columns of
    // the stored note may change.
    let mut intruder = note.clone();
    intruder.user_id = "someone-else".to_string();
    intruder.content = "overwritten?".to_string();
    intruder.status = NoteStatus::PUBLISHED;
    intruder.updated_at = "2030-01-01T00:00:00+00:00".to_string();
    assert!(notes.update(&intruder).is_ok());

    let stored = notes.get(&"u1".to_string(), &note_id).unwrap();
    assert_eq!(stored.user_id, "u1");
    assert_eq!(stored.content, "original content");
    assert_eq!(stored.created_at, created_at);
    assert_eq!(stored.status, NoteStatus::PUBLISHED);
    assert_eq!(stored.updated_at, "2030-01-01T00:00:00+00:00");
}

#[test]
fn store_update_of_unknown_id_fails_unchanged() {
    let mut notes = NoteStore::new();
    let note = Note::new(&"u1".to_string(), &"kept".to_string());
    notes.add(&note);
    let mut ghost_note = note.clone();
    ghost_note.id = "missing".to_string();
    let err = notes.update(&ghost_note).unwrap_err();
    assert_eq!(err.get_code(), CommonErrorCode::UnexpectedError);
    assert_eq!(notes.get(&"u1".to_string(), &note.id).unwrap().content, "kept");
}

#[test]
fn paging_defaults_offset_zero_limit_ten() {
    let params = NotesPagingParams { offset: None, limit: None };
    assert_eq!(params.offset(), 0);
    assert_eq!(params.limit(), 10);
    let params = NotesPagingParams { offset: Some(3), limit: Some(7) };
    assert_eq!(params.offset(), 3);
    assert_eq!(params.limit(), 7);
}

fn usecase() -> UserNoteUseCase {
    let config = AppConfig {
        app_url: "https://local/".to_string(),
        app_url_host: "local".to_string(),
        admin_api_key: "secret".to_string(),
    };
    UserNoteUseCase::new(&config, ActivityPubService::new())
}

fn setup_with_notes(contents: &[&str]) -> (UserNoteUseCase, UserDirectory, NoteStore, String) {
    let usecase = usecase();
    let mut users = UserDirectory::new();
    let user = User::new("carol", "Carol");
    let user_id = user.id.clone();
    users.add(user);
    let followers = FollowerStore::new();
    let mut notes = NoteStore::new();
    for c in contents {
        usecase
            .create(&users, &mut notes, &followers, &user_id, &c.to_string())
            .unwrap();
    }
    (usecase, users, notes, user_id)
}

#[test]
fn list_pages_newest_first() {
    let (usecase, _, notes, user_id) = setup_with_notes(&["one", "two", "three"]);

    let page = usecase
        .list(&notes, &user_id, &NotesPagingParams { offset: None, limit: None })
        .unwrap();
    assert_eq!(page.total, 3);
    let contents: Vec<&str> = page.notes.iter().map(|n| n.content.as_str()).collect();
    assert_eq!(contents, vec!["three", "two", "one"]);

    let page = usecase
        .list(&notes, &user_id, &NotesPagingParams { offset: Some(1), limit: Some(1) })
        .unwrap();
    assert_eq!(page.total, 3);
    assert_eq!(page.notes.len(), 1);
    assert_eq!(page.notes[0].content, "two");

    // Paging past the end yields an empty page, not an error.
    let page = usecase
        .list(&notes, &user_id, &NotesPagingParams { offset: Some(10), limit: Some(5) })
        .unwrap();
    assert_eq!(page.notes.len(), 0);
}

#[test]
fn get_returns_only_published_notes() {
    let (usecase, _, mut notes, user_id) = setup_with_notes(&["keep", "drop"]);

    let page = usecase
        .list(&notes, &user_id, &NotesPagingParams { offset: None, limit: None })
        .unwrap();
    let to_delete = page.notes.iter().find(|n| n.content == "drop").unwrap().id.clone();

    usecase.delete(&mut notes, &user_id, &to_delete).unwrap();

    let err = usecase.get(&notes, &user_id, &to_delete).unwrap_err();
    assert_eq!(err.get_code(), CommonErrorCode::NoteDoesNotExists);

    let page = usecase
        .list(&notes, &user_id, &NotesPagingParams { offset: None, limit: None })
        .unwrap();
    assert_eq!(page.notes.len(), 1);
    assert_eq!(page.notes[0].content, "keep");
    assert_eq!(page.total, 1);
}

#[test]
fn get_of_unknown_note_fails() {
    let (usecase, _, notes, user_id) = setup_with_notes(&["only"]);
    let err = usecase.get(&notes, &user_id, &"missing".to_string()).unwrap_err();
    assert_eq!(err.get_code(), CommonErrorCode::NoteDoesNotExists);

    let err = usecase
        .get(&notes, &"other-user".to_string(), &"missing".to_string())
        .unwrap_err();
    assert_eq!(err.get_code(), CommonErrorCode::NoteDoesNotExists);
}

#[test]
fn delete_of_unknown_note_fails_and_changes_nothing() {
    let (usecase, _, mut notes, user_id) = setup_with_notes(&["only"]);
    let err = usecase.delete(&mut notes, &user_id, &"missing".to_string()).unwrap_err();
    assert_eq!(err.get_code(), CommonErrorCode::NoteDoesNotExists);
    let page = usecase
        .list(&notes, &user_id, &NotesPagingParams { offset: None, limit: None })
        .unwrap();
    assert_eq!(page.notes.len(), 1);
}

#[test]
fn total_counts_published_notes_of_every_user() {
    // The total of a page counts all published notes in the store, not only
    // the listed user's.
    let usecase = usecase();
    let mut users = UserDirectory::new();
    let carol = User::new("carol", "Carol");
    let dave = User::new("dave", "Dave");
    let carol_id = carol.id.clone();
    let dave_id = dave.id.clone();
    users.add(carol);
    users.add(dave);
    let followers = FollowerStore::new();
    let mut notes = NoteStore::new();
    usecase.create(&users, &mut notes, &followers, &carol_id, &"a".to_string()).unwrap();
    usecase.create(&users, &mut notes, &followers, &dave_id, &"b".to_string()).unwrap();

    let page = usecase
        .list(&notes, &carol_id, &NotesPagingParams { offset: None, limit: None })
        .unwrap();
    assert_eq!(page.notes.len(), 1);
    assert_eq!(page.total, 2);
}

#[test]
fn create_for_missing_user_fails() {
    let usecase = usecase();
    let users = UserDirectory::new();
    let followers = FollowerStore::new();
    let mut notes = NoteStore::new();
    let err = usecase
        .create(&users, &mut notes, &followers, &"ghost".to_string(), &"x".to_string())
        .unwrap_err();
    assert_eq!(err.get_code(), CommonErrorCode::UserDoesNotExists);
}
