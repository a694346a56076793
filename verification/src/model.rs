//! Plain-value pictures of what Telegram reports about users, chat members
//! and messages: what the bot's decisions read.
use vstd::prelude::*;

verus! {

/// A Telegram user.
pub struct TgUser {
    pub id: i64,
    pub is_bot: bool,
    pub first_name: String,
    pub last_name: Option<String>,
    pub username: Option<String>,
}

/// The place of a member in a chat.
#[derive(PartialEq, Eq, Structural, Clone, Copy, Debug)]
pub enum MemberStatus {
    Creator,
    Administrator,
    Member,
    Restricted,
    Left,
    Kicked,
}

/// A member of a chat: its status and the rights that Telegram's accessors
/// report for it (a creator holds every admin right, a plain member none, a
/// left or banned member may send nothing).
pub struct Member {
    pub user: TgUser,
    pub status: MemberStatus,
    pub can_be_edited: bool,
    pub can_manage_chat: bool,
    pub can_change_info: bool,
    pub can_post_messages: bool,
    pub can_delete_messages: bool,
    pub can_invite_users: bool,
    pub can_restrict_members: bool,
    pub can_pin_messages: bool,
    pub can_promote_members: bool,
    pub can_send_messages: bool,
    pub can_send_media_messages: bool,
    pub can_send_other_messages: bool,
    pub can_add_web_page_previews: bool,
}

impl Member {
    pub open spec fn is_admin_or_creator(&self) -> bool {
        self.status == MemberStatus::Administrator || self.status == MemberStatus::Creator
    }

    /// `ChatMember::is_privileged`: creator or administrator.
    pub fn is_privileged(&self) -> (r: bool)
        ensures
            r == self.is_admin_or_creator(),
    {
        self.status == MemberStatus::Administrator || self.status == MemberStatus::Creator
    }

    /// Whether an admin of this kind is out of the bot's reach: the creator,
    /// or an administrator the bot may not edit.
    pub open spec fn spec_protected_admin(&self) -> bool {
        self.status == MemberStatus::Creator || (self.status == MemberStatus::Administrator
            && !self.can_be_edited)
    }

    pub fn protected_admin(&self) -> (r: bool)
        ensures
            r == self.spec_protected_admin(),
    {
        self.status == MemberStatus::Creator || (self.status == MemberStatus::Administrator
            && !self.can_be_edited)
    }

    /// Whether the member has left the chat or been banned from it.
    pub open spec fn spec_gone(&self) -> bool {
        self.status == MemberStatus::Kicked || self.status == MemberStatus::Left
    }

    pub fn gone(&self) -> (r: bool)
        ensures
            r == self.spec_gone(),
    {
        self.status == MemberStatus::Kicked || self.status == MemberStatus::Left
    }
}

/// What a message carries, as far as filters and chat pictures look at it:
/// its text and caption, and the file id of each kind of media it holds
/// (for photos, the largest size).
pub struct MessageContent {
    pub text: Option<String>,
    pub caption: Option<String>,
    pub audio: Option<String>,
    pub document: Option<String>,
    /// The MIME type the document declares, as text.
    pub document_mime: Option<String>,
    pub photo: Option<String>,
    pub video: Option<String>,
    pub animation: Option<String>,
    pub voice: Option<String>,
    pub sticker: Option<String>,
    /// The emoji of the sticker, when the message is a sticker.
    pub sticker_emoji: Option<String>,
}

} // verus!
