use gekidan::activity_pub::{InboxActivity, InboxObject, InboxObjectField};
use gekidan::activity_pub_service::ActivityPubService;
use gekidan::activity_pub_usecase::ActivityPubUseCase;
use gekidan::config::AppConfig;
use gekidan::delivery::DeliveryItem;
use gekidan::directory::UserDirectory;
use gekidan::error::CommonErrorCode;
use gekidan::follower::FollowerStore;
use gekidan::user::User;

fn usecase() -> ActivityPubUseCase {
    let config = AppConfig {
        app_url: "https://local/".to_string(),
        app_url_host: "local".to_string(),
        admin_api_key: "secret".to_string(),
    };
    ActivityPubUseCase::new(&config, ActivityPubService::new())
}

fn follow_activity(actor: &str, object: &str) -> InboxActivity {
    InboxActivity {
        kind: "Follow".to_string(),
        id: "https://remote/activity/1".to_string(),
        actor: actor.to_string(),
        object: InboxObjectField::Reference(object.to_string()),
    }
}

fn undo_activity(embedded_actor: &str) -> InboxActivity {
    InboxActivity {
        kind: "Undo".to_string(),
        id: "https://remote/activity/2".to_string(),
        actor: embedded_actor.to_string(),
        object: InboxObjectField::Embedded(InboxObject {
            kind: "Follow".to_string(),
            id: "https://remote/activity/1".to_string(),
            actor: embedded_actor.to_string(),
            object: "https://local/users/u".to_string(),
        }),
    }
}

#[test]
fn follow_stores_follower_and_prepares_one_accept() {
    let usecase = usecase();
    let mut users = UserDirectory::new();
    let user = User::new("carol", "Carol");
    let user_id = user.id.clone();
    users.add(user);
    let mut followers = FollowerStore::new();

    let activity = follow_activity("https://remote/alice", &format!("https://local/users/{}", user_id));
    let reply = usecase
        .process_inbox_activity(&users, &mut followers, &user_id, &activity)
        .unwrap();

    // A follower record with the remote actor exists for the user.
    let rows = followers.list(&user_id);
    assert_eq!(rows.len(), 1);
    assert_eq!(rows[0].actor, "https://remote/alice");
    assert_eq!(rows[0].user_id, user_id);
    assert_eq!(rows[0].object, format!("https://local/users/{}", user_id));
    assert_eq!(rows[0].inbox, "https://remote/alice/inbox");

    // Exactly one Accept delivery attempt, addressed to the actor's inbox.
    match reply {
        Some(DeliveryItem::Prepared(req)) => {
            assert_eq!(req.url, "https://remote/alice/inbox");
            assert_eq!(req.host, "remote");
            assert!(req.digest.starts_with("SHA-256="));
            assert!(req.signature.starts_with(&format!(
                "keyId=\"https://local/users/{}#main-key\",algorithm=\"rsa-sha256\"",
                user_id
            )));
            let value: serde_json::Value = serde_json::from_str(&req.body).unwrap();
            assert_eq!(value["type"], "Accept");
            assert_eq!(value["object"]["actor"], "https://remote/alice");
        }
        _ => panic!("expected one prepared Accept"),
    }
}

#[test]
fn follow_for_missing_user_changes_nothing() {
    let usecase = usecase();
    let users = UserDirectory::new();
    let mut followers = FollowerStore::new();

    let activity = follow_activity("https://remote/alice", "https://local/users/nobody");
    let err = usecase
        .process_inbox_activity(&users, &mut followers, &"nobody".to_string(), &activity)
        .unwrap_err();
    assert_eq!(err.get_code(), CommonErrorCode::UserDoesNotExists);
    assert_eq!(followers.list(&"nobody".to_string()).len(), 0);
}

#[test]
fn undo_removes_only_the_named_actor() {
    let usecase = usecase();
    let mut users = UserDirectory::new();
    let user = User::new("carol", "Carol");
    let user_id = user.id.clone();
    users.add(user);
    let mut followers = FollowerStore::new();

    let object = format!("https://local/users/{}", user_id);
    for actor in ["https://remote/a1", "https://remote/a2"] {
        let activity = follow_activity(actor, &object);
        usecase
            .process_inbox_activity(&users, &mut followers, &user_id, &activity)
            .unwrap();
    }
    assert_eq!(followers.list(&user_id).len(), 2);

    let reply = usecase
        .process_inbox_activity(&users, &mut followers, &user_id, &undo_activity("https://remote/a1"))
        .unwrap();
    assert!(reply.is_none());

    let rows = followers.list(&user_id);
    assert_eq!(rows.len(), 1);
    assert_eq!(rows[0].actor, "https://remote/a2");
}

#[test]
fn undo_with_no_match_is_not_an_error() {
    let usecase = usecase();
    let mut users = UserDirectory::new();
    let user = User::new("carol", "Carol");
    let user_id = user.id.clone();
    users.add(user);
    let mut followers = FollowerStore::new();

    let activity = follow_activity("https://remote/a1", &format!("https://local/users/{}", user_id));
    usecase
        .process_inbox_activity(&users, &mut followers, &user_id, &activity)
        .unwrap();

    let reply = usecase
        .process_inbox_activity(&users, &mut followers, &user_id, &undo_activity("https://remote/stranger"))
        .unwrap();
    assert!(reply.is_none());
    assert_eq!(followers.list(&user_id).len(), 1);
}

#[test]
fn unexpected_activity_is_rejected_untouched() {
    let usecase = usecase();
    let mut users = UserDirectory::new();
    let user = User::new("carol", "Carol");
    let user_id = user.id.clone();
    users.add(user);
    let mut followers = FollowerStore::new();

    let activity = follow_activity("https://remote/a1", &format!("https://local/users/{}", user_id));
    usecase
        .process_inbox_activity(&users, &mut followers, &user_id, &activity)
        .unwrap();

    let like = InboxActivity {
        kind: "Like".to_string(),
        id: "https://remote/activity/9".to_string(),
        actor: "https://remote/a1".to_string(),
        object: InboxObjectField::Reference("https://local/notes/n1".to_string()),
    };
    let err = usecase
        .process_inbox_activity(&users, &mut followers, &user_id, &like)
        .unwrap_err();
    assert_eq!(err.get_code(), CommonErrorCode::UnexpectedError);
    assert_eq!(followers.list(&user_id).len(), 1);
}

#[test]
fn duplicate_follows_keep_both_rows_and_undo_removes_both() {
    let usecase = usecase();
    let mut users = UserDirectory::new();
    let user = User::new("carol", "Carol");
    let user_id = user.id.clone();
    users.add(user);
    let mut followers = FollowerStore::new();

    let object = format!("https://local/users/{}", user_id);
    for _ in 0..2 {
        let activity = follow_activity("https://remote/a1", &object);
        usecase
            .process_inbox_activity(&users, &mut followers, &user_id, &activity)
            .unwrap();
    }
    assert_eq!(followers.list(&user_id).len(), 2);

    usecase
        .process_inbox_activity(&users, &mut followers, &user_id, &undo_activity("https://remote/a1"))
        .unwrap();
    assert_eq!(followers.list(&user_id).len(), 0);
}
