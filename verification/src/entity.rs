//! The stored records: projects, their tasks, and users.
//!
//! Identifiers are the 128 bits of a UUID; times are instants with the
//! offset from UTC they were recorded in.

use vstd::prelude::*;

verus! {

/// An instant: seconds and nanoseconds since the Unix epoch (UTC), and the
/// offset from UTC, in seconds, of the zone it is written in.
#[derive(PartialEq, Eq, Structural, Clone, Copy, Debug)]
pub struct Timestamp {
    pub secs: i64,
    pub nanos: u32,
    pub offset_secs: i32,
}

pub struct ProjectModel {
    pub id: u128,
    pub title: String,
    pub text: String,
    pub created_at: Timestamp,
    pub updated_at: Timestamp,
    pub user_id: Option<String>,
}

pub struct TaskModel {
    pub id: u128,
    pub title: String,
    pub text: String,
    pub project_id: Option<u128>,
    pub created_at: Timestamp,
    pub updated_at: Timestamp,
}

pub struct UserModel {
    pub user_id: u128,
    username: String,
    email: String,
    bio: String,
    image: Option<String>,
    pub password_hash: String,
    pub created_at: Timestamp,
    pub updated_at: Timestamp,
}

/// The content of a [`UserModel`].
pub struct UserView {
    pub user_id: u128,
    pub username: Seq<char>,
    pub email: Seq<char>,
    pub bio: Seq<char>,
    pub image: Option<Seq<char>>,
    pub password_hash: Seq<char>,
    pub created_at: Timestamp,
    pub updated_at: Timestamp,
}

/// The view of an optional string.
pub open spec fn opt_view(s: Option<String>) -> Option<Seq<char>> {
    match s {
        Some(x) => Some(x@),
        None => None,
    }
}

impl View for UserModel {
    type V = UserView;

    closed spec fn view(&self) -> UserView {
        UserView {
            user_id: self.user_id,
            username: self.username@,
            email: self.email@,
            bio: self.bio@,
            image: opt_view(self.image),
            password_hash: self.password_hash@,
            created_at: self.created_at,
            updated_at: self.updated_at,
        }
    }
}

impl ProjectModel {
    /// A new project record, created at `now`.
    pub fn new(id: u128, title: String, text: String, user_id: Option<String>, now: Timestamp) -> (p: ProjectModel)
        ensures
            p.id == id,
            p.title == title,
            p.text == text,
            p.user_id == user_id,
            p.created_at == now,
            p.updated_at == now,
    {
        ProjectModel { id, title, text, created_at: now, updated_at: now, user_id }
    }

    /// Stamps the record as saved at `now`.
    pub fn before_save(&mut self, now: Timestamp)
        ensures
            *final(self) == (ProjectModel { updated_at: now, ..*old(self) }),
    {
        self.updated_at = now;
    }
}

impl TaskModel {
    /// A new task record, created at `now`.
    pub fn new(id: u128, title: String, text: String, project_id: Option<u128>, now: Timestamp) -> (t: TaskModel)
        ensures
            t.id == id,
            t.title == title,
            t.text == text,
            t.project_id == project_id,
            t.created_at == now,
            t.updated_at == now,
    {
        TaskModel { id, title, text, project_id, created_at: now, updated_at: now }
    }

    /// Stamps the record as saved at `now`.
    pub fn before_save(&mut self, now: Timestamp)
        ensures
            *final(self) == (TaskModel { updated_at: now, ..*old(self) }),
    {
        self.updated_at = now;
    }
}

impl UserModel {
    /// A user record with every field given.
    pub fn new(
        user_id: u128,
        username: String,
        email: String,
        bio: String,
        image: Option<String>,
        password_hash: String,
        created_at: Timestamp,
        updated_at: Timestamp,
    ) -> (u: UserModel)
        ensures
            u@ == (UserView {
                user_id,
                username: username@,
                email: email@,
                bio: bio@,
                image: opt_view(image),
                password_hash: password_hash@,
                created_at,
                updated_at,
            }),
    {
        UserModel { user_id, username, email, bio, image, password_hash, created_at, updated_at }
    }

    /// Stamps the record as saved at `now`.
    pub fn before_save(&mut self, now: Timestamp)
        ensures
            final(self)@ == (UserView { updated_at: now, ..old(self)@ }),
    {
        self.updated_at = now;
    }

    pub fn username(&self) -> (s: &String)
        ensures
            s@ == self@.username,
    {
        &self.username
    }

    pub fn email(&self) -> (s: &String)
        ensures
            s@ == self@.email,
    {
        &self.email
    }

    pub fn bio(&self) -> (s: &String)
        ensures
            s@ == self@.bio,
    {
        &self.bio
    }

    pub fn image(&self) -> (s: &Option<String>)
        ensures
            opt_view(*s) == self@.image,
    {
        &self.image
    }
}

} // verus!
