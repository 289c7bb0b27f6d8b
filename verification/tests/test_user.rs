use gekidan::user::{CreateUser, User};

#[test]
fn test_new_user_instance() {
    let user = User::new("john", "John Doe");

    // check attributes
    assert_ne!(user.id, "");
    assert_eq!(user.username, "john");
    assert_eq!(user.display_name, "John Doe");
    assert_ne!(user.created_at, "");
    assert_ne!(user.updated_at, "");

    // check key pair
    let data = b"hello, world!";
    let private_key =
        openssl::pkey::PKey::private_key_from_pem(user.key_pair.private_key_pem.as_bytes())
            .unwrap();
    let mut signer =
        openssl::sign::Signer::new(openssl::hash::MessageDigest::sha256(), &private_key).unwrap();
    let _ = signer.update(data);
    let signature = signer.sign_to_vec().unwrap();
    let public_key =
        openssl::pkey::PKey::public_key_from_pem(user.key_pair.public_key_pem.as_bytes()).unwrap();
    let mut verifier =
        openssl::sign::Verifier::new(openssl::hash::MessageDigest::sha256(), &public_key).unwrap();
    let _ = verifier.update(data);
    assert!(verifier.verify(&signature).unwrap());
}

#[test]
fn generate_user_instance_from_creation_info() {
    let creation_info = CreateUser {
        username: "John Doe".to_string(),
        display_name: "john".to_string(),
    };
    let user = User::from(creation_info);

    assert_ne!(user.id, "");
    assert_eq!(user.username, "John Doe");
    assert_eq!(user.display_name, "john");
    assert_ne!(user.created_at, "");
    assert_ne!(user.updated_at, "");
    assert_eq!(user.created_at, user.updated_at);
}

#[test]
fn sign_is_deterministic() {
    let user = User::new("alice", "Alice");
    let payload = "(request-target): post /inbox\nhost: remote\ndate: d\ndigest: x";
    let first = user.sign(payload).unwrap();
    let second = user.sign(payload).unwrap();
    assert_eq!(first, second);
    assert_ne!(first, "");
}

#[test]
fn key_pair_signs_like_its_user() {
    let user = User::new("erin", "Erin");
    let payload = "one signing string";
    assert_eq!(
        user.key_pair.sign_rsa_sha256_with_private_key(payload),
        user.sign(payload)
    );
}

#[test]
fn sign_fails_on_bad_key() {
    let mut user = User::new("alice", "Alice");
    user.key_pair.private_key_pem = "not a pem".to_string();
    // Success is decided by the key text alone: an unusable key fails every
    // time, on any data.
    assert!(user.sign("anything").is_none());
    assert!(user.sign("anything").is_none());
    assert!(user.sign("something else").is_none());
    assert!(user.key_pair.sign_rsa_sha256_with_private_key("anything").is_none());
}

#[test]
fn signature_verifies_with_public_key() {
    let user = User::new("bob", "Bob");
    let payload = "some signing string";
    let signature_b64 = user.sign(payload).unwrap();
    let signature =
        base64::Engine::decode(&base64::engine::general_purpose::STANDARD, signature_b64).unwrap();

    let public_key =
        openssl::pkey::PKey::public_key_from_pem(user.key_pair.public_key_pem.as_bytes()).unwrap();
    let mut verifier =
        openssl::sign::Verifier::new(openssl::hash::MessageDigest::sha256(), &public_key).unwrap();
    verifier.set_rsa_padding(openssl::rsa::Padding::PKCS1).unwrap();
    verifier.update(payload.as_bytes()).unwrap();
    assert!(verifier.verify(&signature).unwrap());
}
