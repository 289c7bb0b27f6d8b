use vstd::prelude::*;
use crate::clock::now_rfc3339;
use crate::directory::{find_by_id, find_by_username, replace_by_id, UserDirectory};
use crate::error::{CommonError, CommonErrorCode};
use crate::text::str_eq;
use crate::user::User;

verus! {

/// Username checks over the user directory.
pub struct UserService {}

impl UserService {
    pub fn new() -> (r: UserService) {
        UserService {  }
    }

    /// Whether some user already carries the username.
    pub fn is_username_used(&self, users: &UserDirectory, username: &str) -> (r: Result<
        bool,
        CommonError,
    >)
        ensures
            r matches Ok(b) && b == (find_by_username(users@, username@) is Some),
    {
        match users.find(username) {
            Some(_) => Ok(true),
            None => Ok(false),
        }
    }
}

/// The fields a caller supplies to create a user.
pub struct CreateUserParams {
    pub username: String,
    pub display_name: String,
}

/// The fields a caller supplies to update a user.
pub struct UpdateUserParams {
    pub username: String,
    pub display_name: String,
}

/// The user found under an id carries that id.
proof fn lemma_find_by_id_matches(s: Seq<User>, user_id: Seq<char>)
    ensures
        find_by_id(s, user_id) matches Some(u) ==> u.id@ == user_id,
    decreases s.len(),
{
    if s.len() > 0 && s[0].id@ != user_id {
        lemma_find_by_id_matches(s.skip(1), user_id);
    }
}

/// User administration over the user directory.
pub struct UserManagementUseCase {
    pub user_service: UserService,
}

impl UserManagementUseCase {
    pub fn new(user_service: UserService) -> (r: UserManagementUseCase) {
        UserManagementUseCase { user_service }
    }

    /// Creates a user unless the username is taken; the new user goes to the
    /// end of the directory.
    pub fn create(&self, users: &mut UserDirectory, params: &CreateUserParams) -> (r: Result<
        User,
        CommonError,
    >)
        ensures
            match r {
                Ok(u) => {
                    &&& find_by_username(old(users)@, params.username@) is None
                    &&& final(users)@ == old(users)@.push(u)
                    &&& u.username@ == params.username@
                    &&& u.display_name@ == params.display_name@
                },
                Err(e) => {
                    &&& final(users)@ == old(users)@
                    &&& find_by_username(old(users)@, params.username@) is Some
                    &&& e.spec_code() == CommonErrorCode::UsernameAlreadyExists
                    &&& e.wf()
                },
            },
    {
        let check = match self.user_service.is_username_used(users, params.username.as_str()) {
            Ok(b) => b,
            Err(e) => {
                return Err(e);
            },
        };
        if check {
            return Err(CommonError::new(CommonErrorCode::UsernameAlreadyExists));
        }
        let new_user = User::new(params.username.as_str(), params.display_name.as_str());
        let result = new_user.clone();
        users.add(new_user);
        Ok(result)
    }

    /// All users, in directory order.
    pub fn list(&self, users: &UserDirectory) -> (r: Result<Vec<User>, CommonError>)
        ensures
            r matches Ok(v) && v@ == users@,
    {
        Ok(users.list())
    }

    /// The user under the given id.
    pub fn get(&self, users: &UserDirectory, user_id: &str) -> (r: Result<User, CommonError>)
        ensures
            match r {
                Ok(u) => find_by_id(users@, user_id@) == Some(u),
                Err(e) => find_by_id(users@, user_id@) is None && e.spec_code()
                    == CommonErrorCode::UserDoesNotExists && e.wf(),
            },
    {
        users.get(user_id)
    }

    /// Renames a user unless the new username belongs to someone else; the
    /// stored users under the id take the new names and a fresh update
    /// moment, and everything else stays.
    pub fn update(&self, users: &mut UserDirectory, user_id: &str, params: &UpdateUserParams) -> (r:
        Result<User, CommonError>)
        ensures
            match r {
                Ok(u) => {
                    &&& find_by_id(old(users)@, user_id@) matches Some(old_u) && (old_u.username@
                        == params.username@ || find_by_username(
                        old(users)@,
                        params.username@,
                    ) is None)
                    &&& u.id@ == user_id@
                    &&& u.username@ == params.username@
                    &&& u.display_name@ == params.display_name@
                    &&& final(users)@ == replace_by_id(old(users)@, u)
                },
                Err(e) => {
                    &&& final(users)@ == old(users)@
                    &&& e.wf()
                    &&& match find_by_id(old(users)@, user_id@) {
                        Some(old_u) => old_u.username@ != params.username@ && find_by_username(
                            old(users)@,
                            params.username@,
                        ) is Some && e.spec_code() == CommonErrorCode::UsernameAlreadyExists,
                        None => e.spec_code() == CommonErrorCode::UserDoesNotExists,
                    }
                },
            },
    {
        let found = match users.get(user_id) {
            Ok(u) => u,
            Err(e) => {
                return Err(e);
            },
        };
        proof {
            lemma_find_by_id_matches(users@, user_id@);
        }
        let check = match self.user_service.is_username_used(users, params.username.as_str()) {
            Ok(b) => b,
            Err(e) => {
                return Err(e);
            },
        };
        if !str_eq(found.username.as_str(), params.username.as_str()) && check {
            return Err(CommonError::new(CommonErrorCode::UsernameAlreadyExists));
        }
        let updated = User {
            id: found.id,
            username: params.username.clone(),
            display_name: params.display_name.clone(),
            created_at: found.created_at,
            updated_at: now_rfc3339(),
            key_pair: found.key_pair,
        };
        let result = updated.clone();
        users.update(&updated);
        Ok(result)
    }

    /// Removes every user under the given id.
    pub fn delete(&self, users: &mut UserDirectory, user_id: &str) -> (r: Result<(), CommonError>)
        ensures
            r is Ok,
            final(users)@ == old(users)@.filter((|x: User| x.id@ != user_id@)),
    {
        users.delete(user_id);
        Ok(())
    }
}

} // verus!
