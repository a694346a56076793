//! The records the bot keeps per user and per chat, and where the database
//! lives.
use vstd::prelude::*;

verus! {

/// A user seen by the bot, with the lowercased username ("None" if absent).
pub struct User {
    pub user_id: i64,
    pub user_name: String,
}

/// A group seen by the bot, with its title.
pub struct Chat {
    pub chat_id: i64,
    pub chat_name: String,
}

/// A global ban and its reason.
pub struct Gban {
    pub user_id: i64,
    pub reason: String,
}

/// Whether global bans are enforced in a chat.
pub struct GbanStat {
    pub chat_id: i64,
    pub is_on: bool,
}

/// The warn record of a chat.
pub struct Warn {
    pub chat_id: i64,
    pub user_id: i64,
    pub reason: String,
    pub count: u64,
}

/// Whether a chat kicks (soft) or bans (hard) when the warn limit is reached.
pub struct WarnKind {
    pub chat_id: i64,
    pub softwarn: bool,
}

/// The warn limit of a chat.
pub struct Warnlimit {
    pub chat_id: i64,
    pub limit: u64,
}

/// The commands disabled in a chat.
pub struct DisableCommand {
    pub chat_id: i64,
    pub disabled_commands: Vec<String>,
}

/// A filter: a keyword and what the bot replies with.
pub struct Filters {
    pub chat_id: i64,
    pub filter: String,
    pub reply: String,
    pub f_type: String,
    pub caption: Option<String>,
}

/// A blacklisted word of a chat.
pub struct BlacklistFilter {
    pub chat_id: i64,
    pub filter: String,
}

/// What the bot does when a blacklisted word is used in a chat.
pub struct BlacklistKind {
    pub chat_id: i64,
    pub kind: String,
}

/// The log channel of a chat.
pub struct Logging {
    pub chat_id: i64,
    pub channel: i64,
}

/// Whether members of a chat may report others to the admins.
pub struct Reporting {
    pub chat_id: i64,
    pub allowed: bool,
}

/// Where the database lives.
pub struct Db {
    db_uri: String,
}

impl Db {
    pub closed spec fn spec_uri(&self) -> Seq<char> {
        self.db_uri@
    }

    pub fn new(uri: String) -> (r: Self)
        ensures
            r.spec_uri() == uri@,
    {
        Db { db_uri: uri }
    }

    /// The connection string given to `new`.
    pub fn uri(&self) -> (r: &String)
        ensures
            r@ == self.spec_uri(),
    {
        &self.db_uri
    }
}

} // verus!
