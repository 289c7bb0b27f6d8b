use vstd::prelude::*;
use crate::note::{Note, NotesPage, NotesPagingParams};
use crate::user::{CreateUser, User};
use crate::user_management::CreateUserParams;

verus! {

/// A user as the management API returns it.
pub struct UserDTO {
    pub id: String,
    pub username: String,
    pub display_name: String,
}

impl From<User> for UserDTO {
    fn from(value: User) -> (r: UserDTO) {
        UserDTO { id: value.id, username: value.username, display_name: value.display_name }
    }
}

impl vstd::std_specs::convert::FromSpecImpl<User> for UserDTO {
    open spec fn obeys_from_spec() -> bool {
        true
    }

    open spec fn from_spec(v: User) -> UserDTO {
        UserDTO { id: v.id, username: v.username, display_name: v.display_name }
    }
}

/// The fields of a user-creation request.
pub struct CreateUserDTO {
    pub username: String,
    pub display_name: String,
}

impl From<CreateUserDTO> for CreateUser {
    fn from(value: CreateUserDTO) -> (r: CreateUser) {
        CreateUser { username: value.username, display_name: value.display_name }
    }
}

impl vstd::std_specs::convert::FromSpecImpl<CreateUserDTO> for CreateUser {
    open spec fn obeys_from_spec() -> bool {
        true
    }

    open spec fn from_spec(v: CreateUserDTO) -> CreateUser {
        CreateUser { username: v.username, display_name: v.display_name }
    }
}

/// A list of users as the management API returns it.
pub struct ListUsersDTO {
    pub users: Vec<UserDTO>,
}

impl From<Vec<User>> for ListUsersDTO {
    /// Shapes every user, in order.
    fn from(value: Vec<User>) -> (r: ListUsersDTO)
        ensures
            r.users@.len() == value@.len(),
            forall|k: int|
                0 <= k < value@.len() ==> #[trigger] r.users@[k].id@ == value@[k].id@
                    && r.users@[k].username@ == value@[k].username@ && r.users@[k].display_name@
                    == value@[k].display_name@,
    {
        let mut users: Vec<UserDTO> = Vec::new();
        let n = value.len();
        let mut i: usize = 0;
        while i < n
            invariant
                n == value@.len(),
                i <= n,
                users@.len() == i,
                forall|k: int|
                    0 <= k < i ==> #[trigger] users@[k].id@ == value@[k].id@ && users@[k].username@
                        == value@[k].username@ && users@[k].display_name@
                        == value@[k].display_name@,
            decreases n - i,
        {
            let u = value[i].clone();
            users.push(
                UserDTO { id: u.id, username: u.username, display_name: u.display_name },
            );
            i = i + 1;
        }
        ListUsersDTO { users }
    }
}

impl vstd::std_specs::convert::FromSpecImpl<Vec<User>> for ListUsersDTO {
    /// A spec-level value cannot be given for the built vector, so the
    /// contract stands on the impl.
    open spec fn obeys_from_spec() -> bool {
        false
    }

    open spec fn from_spec(v: Vec<User>) -> ListUsersDTO {
        arbitrary()
    }
}

/// A user as the admin HTTP handlers return it.
pub struct UserResponse {
    pub id: String,
    pub username: String,
    pub display_name: String,
}

impl From<User> for UserResponse {
    fn from(value: User) -> (r: UserResponse) {
        UserResponse { id: value.id, username: value.username, display_name: value.display_name }
    }
}

impl vstd::std_specs::convert::FromSpecImpl<User> for UserResponse {
    open spec fn obeys_from_spec() -> bool {
        true
    }

    open spec fn from_spec(v: User) -> UserResponse {
        UserResponse { id: v.id, username: v.username, display_name: v.display_name }
    }
}

/// A list of users as the admin HTTP handlers return it.
pub struct UserListResponse {
    pub users: Vec<UserResponse>,
}

impl From<Vec<User>> for UserListResponse {
    /// Shapes every user, in order.
    fn from(value: Vec<User>) -> (r: UserListResponse)
        ensures
            r.users@.len() == value@.len(),
            forall|k: int|
                0 <= k < value@.len() ==> #[trigger] r.users@[k].id@ == value@[k].id@
                    && r.users@[k].username@ == value@[k].username@ && r.users@[k].display_name@
                    == value@[k].display_name@,
    {
        let mut users: Vec<UserResponse> = Vec::new();
        let n = value.len();
        let mut i: usize = 0;
        while i < n
            invariant
                n == value@.len(),
                i <= n,
                users@.len() == i,
                forall|k: int|
                    0 <= k < i ==> #[trigger] users@[k].id@ == value@[k].id@ && users@[k].username@
                        == value@[k].username@ && users@[k].display_name@
                        == value@[k].display_name@,
            decreases n - i,
        {
            let u = value[i].clone();
            users.push(
                UserResponse { id: u.id, username: u.username, display_name: u.display_name },
            );
            i = i + 1;
        }
        UserListResponse { users }
    }
}

impl vstd::std_specs::convert::FromSpecImpl<Vec<User>> for UserListResponse {
    /// A spec-level value cannot be given for the built vector, so the
    /// contract stands on the impl.
    open spec fn obeys_from_spec() -> bool {
        false
    }

    open spec fn from_spec(v: Vec<User>) -> UserListResponse {
        arbitrary()
    }
}

/// The body of an admin user-creation request.
pub struct CreateUserRequest {
    pub username: String,
    pub display_name: String,
}

impl From<CreateUserRequest> for CreateUserParams {
    fn from(value: CreateUserRequest) -> (r: CreateUserParams) {
        CreateUserParams { username: value.username, display_name: value.display_name }
    }
}

impl vstd::std_specs::convert::FromSpecImpl<CreateUserRequest> for CreateUserParams {
    open spec fn obeys_from_spec() -> bool {
        true
    }

    open spec fn from_spec(v: CreateUserRequest) -> CreateUserParams {
        CreateUserParams { username: v.username, display_name: v.display_name }
    }
}

/// A note as the note handlers return it.
pub struct UserNoteResponse {
    pub id: String,
    pub user_id: String,
    pub content: String,
    pub created_at: String,
}

impl From<Note> for UserNoteResponse {
    fn from(value: Note) -> (r: UserNoteResponse) {
        UserNoteResponse {
            id: value.id,
            user_id: value.user_id,
            content: value.content,
            created_at: value.created_at,
        }
    }
}

impl vstd::std_specs::convert::FromSpecImpl<Note> for UserNoteResponse {
    open spec fn obeys_from_spec() -> bool {
        true
    }

    open spec fn from_spec(v: Note) -> UserNoteResponse {
        UserNoteResponse {
            id: v.id,
            user_id: v.user_id,
            content: v.content,
            created_at: v.created_at,
        }
    }
}

/// The body of a note-creation request.
pub struct CreateUserNoteRequest {
    pub content: String,
}

/// The paging query of a note-list request.
pub struct UserNoteListQuery {
    pub offset: Option<u64>,
    pub limit: Option<u64>,
}

impl From<UserNoteListQuery> for NotesPagingParams {
    fn from(value: UserNoteListQuery) -> (r: NotesPagingParams) {
        NotesPagingParams { offset: value.offset, limit: value.limit }
    }
}

impl vstd::std_specs::convert::FromSpecImpl<UserNoteListQuery> for NotesPagingParams {
    open spec fn obeys_from_spec() -> bool {
        true
    }

    open spec fn from_spec(v: UserNoteListQuery) -> NotesPagingParams {
        NotesPagingParams { offset: v.offset, limit: v.limit }
    }
}

/// One page of notes as the note handlers return it.
pub struct UserNoteListResponse {
    pub total: u64,
    pub notes: Vec<UserNoteResponse>,
}

impl From<NotesPage> for UserNoteListResponse {
    /// Shapes every note of the page, in order.
    fn from(value: NotesPage) -> (r: UserNoteListResponse)
        ensures
            r.total == value.total,
            r.notes@.len() == value.notes@.len(),
            forall|k: int|
                0 <= k < value.notes@.len() ==> #[trigger] r.notes@[k].id@ == value.notes@[k].id@
                    && r.notes@[k].user_id@ == value.notes@[k].user_id@ && r.notes@[k].content@
                    == value.notes@[k].content@ && r.notes@[k].created_at@
                    == value.notes@[k].created_at@,
    {
        let mut notes: Vec<UserNoteResponse> = Vec::new();
        let n = value.notes.len();
        let mut i: usize = 0;
        while i < n
            invariant
                n == value.notes@.len(),
                i <= n,
                notes@.len() == i,
                forall|k: int|
                    0 <= k < i ==> #[trigger] notes@[k].id@ == value.notes@[k].id@
                        && notes@[k].user_id@ == value.notes@[k].user_id@ && notes@[k].content@
                        == value.notes@[k].content@ && notes@[k].created_at@
                        == value.notes@[k].created_at@,
            decreases n - i,
        {
            let x = value.notes[i].clone();
            notes.push(
                UserNoteResponse {
                    id: x.id,
                    user_id: x.user_id,
                    content: x.content,
                    created_at: x.created_at,
                },
            );
            i = i + 1;
        }
        UserNoteListResponse { total: value.total, notes }
    }
}

impl vstd::std_specs::convert::FromSpecImpl<NotesPage> for UserNoteListResponse {
    /// A spec-level value cannot be given for the built vector, so the
    /// contract stands on the impl.
    open spec fn obeys_from_spec() -> bool {
        false
    }

    open spec fn from_spec(v: NotesPage) -> UserNoteListResponse {
        arbitrary()
    }
}

/// The query of a WebFinger request.
pub struct WebFingerQuery {
    pub resource: String,
}

} // verus!
