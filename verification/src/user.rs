use vstd::prelude::*;
use crate::clock::now_rfc3339;
use crate::crypto::{rsa_key_usable, signature_value_spec, RsaKeyService};
use crate::ids::new_ulid;

verus! {

/// An RSA key pair held as PEM texts: the private key signs outbound
/// requests, the public key is published in the actor document.
#[derive(Debug)]
pub struct UserRsaKey {
    pub private_key_pem: String,
    pub public_key_pem: String,
}

impl Clone for UserRsaKey {
    fn clone(&self) -> (r: Self)
        ensures
            r == *self,
    {
        let r = UserRsaKey {
            private_key_pem: self.private_key_pem.clone(),
            public_key_pem: self.public_key_pem.clone(),
        };
        proof {
            assert(r == *self);
        }
        r
    }
}

impl UserRsaKey {
    /// Signs a string with the private key; the result is the base64 text of
    /// the RSA SHA-256 PKCS#1 v1.5 signature. Succeeds exactly when the key
    /// text is usable.
    pub fn sign_rsa_sha256_with_private_key(&self, data: &str) -> (r: Option<String>)
        ensures
            r is Some <==> rsa_key_usable(self.private_key_pem@),
            r matches Some(s) ==> s@ == signature_value_spec(self.private_key_pem@, data@),
    {
        crate::crypto::sign(self.private_key_pem.as_str(), data)
    }
}

/// A local account: its identifier, names, timestamps and its key pair.
#[derive(Debug)]
pub struct User {
    pub id: String,
    pub username: String,
    pub display_name: String,
    pub created_at: String,
    pub updated_at: String,
    pub key_pair: UserRsaKey,
}

impl Clone for User {
    fn clone(&self) -> (r: Self)
        ensures
            r == *self,
    {
        let r = User {
            id: self.id.clone(),
            username: self.username.clone(),
            display_name: self.display_name.clone(),
            created_at: self.created_at.clone(),
            updated_at: self.updated_at.clone(),
            key_pair: self.key_pair.clone(),
        };
        proof {
            assert(r == *self);
        }
        r
    }
}

impl User {
    /// Creates a user with a fresh identifier, one creation moment used for
    /// both timestamps, and a newly generated RSA key pair, whose private
    /// key is usable for signing.
    pub fn new(username: &str, display_name: &str) -> (r: User)
        ensures
            r.id@.len() == 26,
            r.username@ == username@,
            r.display_name@ == display_name@,
            r.created_at@.len() > 0,
            r.created_at@ == r.updated_at@,
            rsa_key_usable(r.key_pair.private_key_pem@),
    {
        let id = new_ulid();
        let now = now_rfc3339();
        let (private_key_pem, public_key_pem) = RsaKeyService::generate_key_pair();
        User {
            id,
            username: username.to_owned(),
            display_name: display_name.to_owned(),
            created_at: now.clone(),
            updated_at: now,
            key_pair: UserRsaKey { private_key_pem, public_key_pem },
        }
    }

    /// Signs a string with this user's private key; the result is the base64
    /// signature text. Succeeds exactly when the key text is usable; a
    /// failure concerns one signing attempt only.
    pub fn sign(&self, data: &str) -> (r: Option<String>)
        ensures
            r is Some <==> rsa_key_usable(self.key_pair.private_key_pem@),
            r matches Some(s) ==> s@ == signature_value_spec(
                self.key_pair.private_key_pem@,
                data@,
            ),
    {
        crate::crypto::sign(self.key_pair.private_key_pem.as_str(), data)
    }
}

/// The fields a caller supplies to create a user.
pub struct CreateUser {
    pub username: String,
    pub display_name: String,
}

impl From<CreateUser> for User {
    /// Builds a fresh user from the creation fields; the identifier, the
    /// timestamps and the key pair are newly generated.
    fn from(new_user: CreateUser) -> (r: User)
        ensures
            r.username@ == new_user.username@,
            r.display_name@ == new_user.display_name@,
            r.id@.len() == 26,
            r.created_at@.len() > 0,
            r.created_at@ == r.updated_at@,
    {
        User::new(new_user.username.as_str(), new_user.display_name.as_str())
    }
}

impl vstd::std_specs::convert::FromSpecImpl<CreateUser> for User {
    /// The conversion draws a fresh identifier and key pair, so no spec-level
    /// function gives its value.
    open spec fn obeys_from_spec() -> bool {
        false
    }

    open spec fn from_spec(v: CreateUser) -> User {
        arbitrary()
    }
}

} // verus!
