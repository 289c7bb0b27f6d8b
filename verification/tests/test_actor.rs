use gekidan::activity_pub_service::ActivityPubService;
use gekidan::activity_pub_usecase::ActivityPubUseCase;
use gekidan::config::AppConfig;
use gekidan::directory::UserDirectory;
use gekidan::error::CommonErrorCode;
use gekidan::user::User;

fn setup() -> (ActivityPubUseCase, UserDirectory, User) {
    let config = AppConfig {
        app_url: "https://ap.example/".to_string(),
        app_url_host: "ap.example".to_string(),
        admin_api_key: "secret".to_string(),
    };
    let usecase = ActivityPubUseCase::new(&config, ActivityPubService::new());
    let mut users = UserDirectory::new();
    let user = User::new("carol", "Carol C");
    let copy = user.clone();
    users.add(user);
    (usecase, users, copy)
}

#[test]
fn actor_document_derives_every_url_from_base_and_id() {
    let (usecase, users, user) = setup();
    let person = usecase.actor_by_username(&users, &"carol".to_string()).unwrap();

    let id = format!("https://ap.example/users/{}", user.id);
    assert_eq!(person.id, id);
    assert_eq!(person.kind, "Person");
    assert_eq!(person.preferred_username, "carol");
    assert_eq!(person.inbox, format!("{}/inbox", id));
    assert_eq!(person.outbox, format!("{}/outbox", id));
    assert_eq!(person.shared_inbox, "https://ap.example/inbox");
    assert_eq!(person.public_key.id, format!("{}#main-key", id));
    assert_eq!(person.public_key.owner, id);
    assert_eq!(person.public_key.public_key_pem, user.key_pair.public_key_pem);
    assert_eq!(person.featured, "");
    assert!(!person.manually_approves_followers);
    assert!(!person.discoverable);
    assert_eq!(person.context.len(), 2);
    assert_eq!(person.context[0], "https://www.w3.org/ns/activitystreams");
    assert_eq!(person.context[1], "https://w3id.org/security/v1");
}

#[test]
fn actor_of_unknown_username_fails() {
    let (usecase, users, _) = setup();
    let err = usecase.actor_by_username(&users, &"nobody".to_string()).unwrap_err();
    assert_eq!(err.get_code(), CommonErrorCode::UserDoesNotExists);
}

#[test]
fn redirect_goes_to_the_readable_actor_url() {
    let (usecase, users, user) = setup();
    let location = usecase.redirect_to_username(&users, &user.id).unwrap();
    assert_eq!(location, "https://ap.example/@carol");

    let err = usecase.redirect_to_username(&users, &"missing".to_string()).unwrap_err();
    assert_eq!(err.get_code(), CommonErrorCode::UserDoesNotExists);
}

#[test]
fn host_meta_embeds_the_base_url() {
    let (usecase, _, _) = setup();
    let xrd = usecase.host_meta();
    assert_eq!(
        xrd,
        "<?xml version=\"1.0\"?>\n<XRD xmlns=\"http://docs.oasis-open.org/ns/xri/xrd-1.0\">\n<Link rel=\"lrdd\" type=\"application/xrd+xml\" template=\"https://ap.example/.well-known/webfinger?resource={uri}\" />\n</XRD>"
    );
}

#[test]
fn node_info_counts_the_users() {
    let (usecase, users, _) = setup();
    let links = usecase.node_info_links();
    assert_eq!(links.links.len(), 1);
    assert_eq!(links.links[0].rel, "http://nodeinfo.diaspora.software/ns/schema/2.1");
    assert_eq!(links.links[0].href, "https://ap.example/nodeinfo/2.1");

    let info = usecase.node_info(&users);
    assert_eq!(info.version, "2.1");
    assert_eq!(info.software.name, "Gekidan");
    assert_eq!(info.software.version, "0.1");
    assert_eq!(info.protocols, vec!["activitypub".to_string()]);
    assert!(!info.open_registrations);
    assert_eq!(info.usage.users.total, 1);
}
