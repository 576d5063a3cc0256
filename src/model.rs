//! Users, roles, sessions and the plain records that the server exchanges.
use vstd::prelude::*;

verus! {

/// What a user may do. The role is the only authorization input.
#[derive(Debug, Clone, Copy, PartialEq, Eq, Structural)]
pub enum Role {
    /// Ordinary submitter: every upload waits for moderation.
    User,
    /// Publishes directly where a level has no thumbnail yet.
    Verified,
    /// Publishes directly and decides on pending uploads.
    Moderator,
    /// Everything a moderator may do, plus the server settings.
    Admin,
}

/// The lower-case name of a role.
pub open spec fn role_name(role: Role) -> Seq<char> {
    match role {
        Role::User => "user"@,
        Role::Verified => "verified"@,
        Role::Moderator => "moderator"@,
        Role::Admin => "admin"@,
    }
}

/// Roles that decide on pending uploads.
pub open spec fn is_moderating(role: Role) -> bool {
    role is Moderator || role is Admin
}

impl Role {
    /// The lower-case name of this role, as stored and shown.
    pub fn as_str(&self) -> (r: &'static str)
        ensures
            r@ == role_name(*self),
    {
        match self {
            Role::User => "user",
            Role::Verified => "verified",
            Role::Moderator => "moderator",
            Role::Admin => "admin",
        }
    }

    /// Whether this role may list, inspect and decide on pending uploads.
    pub fn can_moderate(&self) -> (r: bool)
        ensures
            r == is_moderating(*self),
    {
        match self {
            Role::Moderator | Role::Admin => true,
            _ => false,
        }
    }

    /// Whether this role may read and change the server settings.
    pub fn is_admin(&self) -> (r: bool)
        ensures
            r == (*self is Admin),
    {
        match self {
            Role::Admin => true,
            _ => false,
        }
    }
}

/// A registered user.
#[derive(Debug, Clone)]
pub struct User {
    pub id: i64,
    /// The game account id, or -1 for an account made through Discord alone.
    pub account_id: i64,
    pub username: String,
    pub role: Role,
    pub discord_id: Option<i64>,
}

/// Server-wide settings that an admin may change at run time.
#[derive(Debug, Clone, Copy, PartialEq, Eq, Structural)]
pub struct Settings {
    /// While set, uploads that would wait for moderation are refused.
    pub pause_submissions: bool,
}

/// An admin's request to change the settings.
#[derive(Debug, Clone, Copy, PartialEq, Eq, Structural)]
pub struct UpdateSettingsPayload {
    pub pause_submissions: bool,
}

impl Settings {
    /// The settings that an update request asks for.
    pub fn updated(&self, payload: &UpdateSettingsPayload) -> (r: Settings)
        ensures
            r.pause_submissions == payload.pause_submissions,
    {
        Settings { pause_submissions: payload.pause_submissions }
    }
}

/// The claims of a signed session token.
#[derive(Debug, Clone)]
pub struct UserSession {
    pub id: i64,
    pub username: String,
}

impl UserSession {
    pub fn new(id: i64, username: String) -> (r: Self)
        ensures
            r.id == id,
            r.username@ == username@,
    {
        Self { id, username }
    }
}

/// Author of the published thumbnail of a level.
#[derive(Debug, Clone)]
pub struct UploadInfo {
    pub account_id: i64,
    pub username: String,
}

/// Upload counters of one user.
#[derive(Debug, Clone)]
pub struct UserStats {
    pub id: i64,
    pub account_id: i64,
    pub username: String,
    pub role: Role,
    pub upload_count: i64,
    pub accepted_upload_count: i64,
    pub level_count: i64,
    pub accepted_level_count: i64,
    pub active_thumbnail_count: i64,
}

} // verus!
