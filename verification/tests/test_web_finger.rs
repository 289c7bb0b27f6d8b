use gekidan::activity_pub_service::{ActivityPubService, WebFingerError};
use gekidan::activity_pub_usecase::{ActivityPubUseCase, WebFingerParams};
use gekidan::config::AppConfig;
use gekidan::directory::UserDirectory;
use gekidan::user::User;

fn directory_with_hoge() -> (UserDirectory, User) {
    let mut users = UserDirectory::new();
    let hoge = User::new("hoge", "Hoge One");
    let copy = hoge.clone();
    users.add(hoge);
    (users, copy)
}

#[test]
fn activity_pub_service_web_finger() {
    let service = ActivityPubService::new();
    let (users, _) = directory_with_hoge();
    let app_url = "https://test.example.com/";
    let host = "test.example.com";

    assert!(service.web_finger(&users, "acct:hoge@test.example.com", app_url, host).is_ok());
    assert!(service.web_finger(&users, "hoge@test.example.com", app_url, host).is_ok());
    assert!(service.web_finger(&users, "hoge@example.com", app_url, host).is_err());
    assert!(service.web_finger(&users, "hogehoge", app_url, host).is_err());
    assert!(service.web_finger(&users, "", app_url, host).is_err());
}

#[test]
fn activity_pub_web_finger() {
    let config = AppConfig {
        app_url: "http://test.example.com/".to_string(),
        app_url_host: "test.example.com".to_string(),
        admin_api_key: "IamAdmin1234".to_string(),
    };
    let usecase = ActivityPubUseCase::new(&config, ActivityPubService::new());
    let (users, _) = directory_with_hoge();

    let query = |resource: &str| WebFingerParams { resource: resource.to_string() };
    assert!(usecase.web_finger(&users, &query("acct:hoge@test.example.com")).is_ok());
    assert!(usecase.web_finger(&users, &query("hoge@test.example.com")).is_ok());
    assert!(usecase.web_finger(&users, &query("hoge@example.com")).is_err());
    assert!(usecase.web_finger(&users, &query("hogehoge")).is_err());
    assert!(usecase.web_finger(&users, &query("")).is_err());
}

#[test]
fn malformed_resources_fail_as_malformed() {
    let service = ActivityPubService::new();
    let (users, _) = directory_with_hoge();
    let app_url = "https://test.example.com/";
    let host = "test.example.com";

    // No '@' at all, two '@'s, and empty parts around the '@'.
    for resource in ["", "hogehoge", "a@b@c", "@test.example.com", "hoge@", "acct:"] {
        match service.web_finger(&users, resource, app_url, host) {
            Err(WebFingerError::MalformedResource) => {}
            other => panic!("{:?} for {:?}", other.is_ok(), resource),
        }
    }
    // A well-formed account of another host is also malformed for this node.
    assert!(matches!(
        service.web_finger(&users, "hoge@example.com", app_url, host),
        Err(WebFingerError::MalformedResource)
    ));
}

#[test]
fn unknown_user_fails_as_not_found() {
    let service = ActivityPubService::new();
    let (users, _) = directory_with_hoge();
    let r = service.web_finger(&users, "fuga@test.example.com", "https://test.example.com/", "test.example.com");
    assert!(matches!(r, Err(WebFingerError::UserNotFound)));
}

#[test]
fn acct_prefix_resolves_identically() {
    let service = ActivityPubService::new();
    let (users, hoge) = directory_with_hoge();
    let app_url = "https://test.example.com/";
    let host = "test.example.com";

    let bare = service.web_finger(&users, "hoge@test.example.com", app_url, host).unwrap();
    let prefixed = service.web_finger(&users, "acct:hoge@test.example.com", app_url, host).unwrap();

    assert_eq!(bare.subject, prefixed.subject);
    assert_eq!(bare.subject, "hoge@test.example.com");
    assert_eq!(bare.links.len(), 1);
    assert_eq!(prefixed.links.len(), 1);
    assert_eq!(bare.links[0].rel, prefixed.links[0].rel);
    assert_eq!(bare.links[0].kind, prefixed.links[0].kind);
    assert_eq!(bare.links[0].href, prefixed.links[0].href);
    assert_eq!(bare.links[0].rel, "self");
    assert_eq!(bare.links[0].kind, "application/activity+json");
    assert_eq!(bare.links[0].href, format!("https://test.example.com/users/{}", hoge.id));
}
