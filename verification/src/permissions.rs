//! Who may do what: the owner and sudo users of the bot, and the rights of
//! chat members.
use vstd::prelude::*;
use crate::model::{Member, MemberStatus};
use crate::numparse::{parse_i64, spec_parse_i64};
use crate::text::string_of;

verus! {

/// The bot's owner and its sudo users.
pub struct BotConfig {
    pub owner_id: i64,
    pub sudo_users: Vec<i64>,
}

impl BotConfig {
    pub open spec fn spec_is_sudo(&self, id: i64) -> bool {
        self.sudo_users@.contains(id)
    }

    /// The owner or one of the sudo users.
    pub open spec fn spec_privileged(&self, id: i64) -> bool {
        id == self.owner_id || self.spec_is_sudo(id)
    }

    pub fn is_sudo(&self, id: i64) -> (r: bool)
        ensures
            r == self.spec_is_sudo(id),
    {
        let mut i: usize = 0;
        while i < self.sudo_users.len()
            invariant
                i <= self.sudo_users.len(),
                forall|k: int| 0 <= k < i ==> self.sudo_users@[k] != id,
            decreases self.sudo_users.len() - i,
        {
            if self.sudo_users[i] == id {
                return true;
            }
            i = i + 1;
        }
        false
    }

    pub fn is_privileged(&self, id: i64) -> (r: bool)
        ensures
            r == self.spec_privileged(id),
    {
        id == self.owner_id || self.is_sudo(id)
    }
}

/// `OWNER_ID`: the number the variable holds, 0 when it holds none.
pub fn parse_owner_id(s: &str) -> (r: i64)
    ensures
        r == (match spec_parse_i64(s@) {
            Some(v) => v,
            None => 0,
        }),
{
    match parse_i64(s) {
        Some(v) => v,
        None => 0,
    }
}

/// The pieces of `s` between the occurrences of `sep`, as `str::split` gives them.
pub open spec fn split_on(s: Seq<char>, sep: char) -> Seq<Seq<char>>
    decreases s.len(),
{
    if s.len() == 0 {
        seq![Seq::empty()]
    } else {
        let rest = split_on(s.drop_first(), sep);
        if s[0] == sep {
            seq![Seq::empty()] + rest
        } else {
            rest.update(0, seq![s[0]] + rest[0])
        }
    }
}

pub proof fn lemma_split_on_nonempty(s: Seq<char>, sep: char)
    ensures
        split_on(s, sep).len() >= 1,
    decreases s.len(),
{
    if s.len() > 0 {
        lemma_split_on_nonempty(s.drop_first(), sep);
    }
}

/// `SUDO_USERS`: the comma-separated numbers, each piece that is not a
/// number counting as 0.
pub open spec fn spec_sudo_users(s: Seq<char>) -> Seq<i64> {
    split_on(s, ',').map_values(
        |p: Seq<char>|
            match spec_parse_i64(p) {
                Some(v) => v,
                None => 0,
            },
    )
}

pub fn parse_sudo_users(s: &str) -> (r: Vec<i64>)
    ensures
        r@ == spec_sudo_users(s@),
{
    let n = s.unicode_len();
    let mut out: Vec<i64> = Vec::new();
    let mut start: usize = 0;
    let mut i: usize = 0;
    // Each finished piece is the first of what `split_on` yields for the
    // text from `start` on.
    assert(s@.skip(0) == s@);
    proof {
        lemma_split_on_nonempty(s@, ',');
    }
    while i < n
        invariant
            n == s@.len(),
            start <= i <= n,
            forall|k: int| start <= k < i ==> s@[k] != ',',
            ({
                let tail = split_on(s@.skip(start as int), ',');
                &&& tail.len() >= 1
                &&& out@ + tail.map_values(
                    |p: Seq<char>|
                        match spec_parse_i64(p) {
                            Some(v) => v,
                            None => 0,
                        },
                ) == spec_sudo_users(s@)
            }),
        decreases n - i,
    {
        if s.get_char(i) == ',' {
            let piece = s.substring_char(start, i);
            let v = match parse_i64(piece) {
                Some(v) => v,
                None => 0,
            };
            proof {
                lemma_split_piece(s@.skip(start as int), (i - start) as int, ',');
                assert(s@.skip(start as int).take((i - start) as int) == piece@);
                assert(s@.skip(start as int).skip((i - start) + 1) == s@.skip(i + 1));
                lemma_split_on_nonempty(s@.skip(i + 1), ',');
            }
            out.push(v);
            start = i + 1;
        }
        i = i + 1;
    }
    let piece = s.substring_char(start, n);
    let v = match parse_i64(piece) {
        Some(v) => v,
        None => 0,
    };
    proof {
        lemma_split_last(s@.skip(start as int), ',');
        assert(s@.skip(start as int) == piece@);
    }
    out.push(v);
    out
}

/// Splitting at the first separator, at index `k`.
proof fn lemma_split_piece(s: Seq<char>, k: int, sep: char)
    requires
        0 <= k < s.len(),
        s[k] == sep,
        forall|j: int| 0 <= j < k ==> s[j] != sep,
    ensures
        split_on(s, sep) == seq![s.take(k)] + split_on(s.skip(k + 1), sep),
    decreases k,
{
    if k == 0 {
        assert(s.take(0) == Seq::<char>::empty());
        assert(s.drop_first() == s.skip(1));
    } else {
        lemma_split_piece(s.drop_first(), k - 1, sep);
        assert(s.drop_first().skip(k) == s.skip(k + 1));
        assert(seq![s[0]] + s.drop_first().take(k - 1) == s.take(k));
        lemma_split_on_nonempty(s.skip(k + 1), sep);
    }
}

/// A text without separators is one piece.
proof fn lemma_split_last(s: Seq<char>, sep: char)
    requires
        forall|j: int| 0 <= j < s.len() ==> s[j] != sep,
    ensures
        split_on(s, sep) == seq![s],
    decreases s.len(),
{
    if s.len() == 0 {
        assert(s == Seq::<char>::empty());
    } else {
        lemma_split_last(s.drop_first(), sep);
        assert(seq![s[0]] + s.drop_first() == s);
        assert(seq![s.drop_first()].update(0, seq![s[0]] + s.drop_first()) == seq![s]);
    }
}

/// A refusal: the reply the bot sends and the error the handler ends with.
pub struct Denial {
    pub reply: Option<String>,
    pub error: String,
}

/// `can_user_restrict`: the owner, a sudo user, the creator, or an
/// administrator with the right to restrict members.
pub open spec fn spec_can_restrict(cfg: &BotConfig, user_id: i64, member: Option<Member>) -> bool {
    cfg.spec_privileged(user_id) || match member {
        Some(m) => m.status == MemberStatus::Creator || (m.status == MemberStatus::Administrator
            && m.can_restrict_members),
        None => false,
    }
}

pub fn can_user_restrict(cfg: &BotConfig, user_id: i64, member: &Option<Member>) -> (r: bool)
    ensures
        r == spec_can_restrict(cfg, user_id, *member),
{
    if cfg.is_privileged(user_id) {
        return true;
    }
    match member {
        None => false,
        Some(m) => m.status == MemberStatus::Creator || (m.status == MemberStatus::Administrator
            && m.can_restrict_members),
    }
}

/// `is_user_admin`: the owner, a sudo user, an administrator or the creator.
pub open spec fn spec_is_admin(cfg: &BotConfig, user_id: i64, member: Option<Member>) -> bool {
    cfg.spec_privileged(user_id) || match member {
        Some(m) => m.is_admin_or_creator(),
        None => false,
    }
}

pub fn is_user_admin(cfg: &BotConfig, user_id: i64, member: &Option<Member>) -> (r: bool)
    ensures
        r == spec_is_admin(cfg, user_id, *member),
{
    if cfg.is_privileged(user_id) {
        return true;
    }
    match member {
        None => false,
        Some(m) => m.is_privileged(),
    }
}

/// `user_should_restrict`: passes exactly when `can_user_restrict` holds;
/// otherwise the reply says whether the bot or the user lacks the right.
pub fn user_should_restrict(cfg: &BotConfig, bot_id: i64, user_id: i64, member: &Option<Member>) -> (r:
    Result<(), Denial>)
    ensures
        r is Ok <==> spec_can_restrict(cfg, user_id, *member),
        r matches Err(d) ==> d.error@
            == "User don't have the permission to restrict"@ && d.reply is Some && d.reply->0@ == (
        if user_id == bot_id {
            "I can't restrict people here make sure you gave me proper rights to do so!!"@
        } else {
            "You can't restrict people here!!"@
        }),
{
    if can_user_restrict(cfg, user_id, member) {
        return Ok(());
    }
    let reply = if user_id == bot_id {
        string_of("I can't restrict people here make sure you gave me proper rights to do so!!")
    } else {
        string_of("You can't restrict people here!!")
    };
    Err(Denial { reply: Some(reply), error: string_of("User don't have the permission to restrict") })
}

/// `user_should_be_admin`: passes exactly when `is_user_admin` holds.
pub fn user_should_be_admin(cfg: &BotConfig, bot_id: i64, user_id: i64, member: &Option<Member>) -> (r:
    Result<(), Denial>)
    ensures
        r is Ok <==> spec_is_admin(cfg, user_id, *member),
        r matches Err(d) ==> d.error@ == "User isnt admin"@ && d.reply is Some && d.reply->0@ == (
        if user_id == bot_id {
            "I am not admin here!"@
        } else {
            "You are not an admin here!"@
        }),
{
    if is_user_admin(cfg, user_id, member) {
        return Ok(());
    }
    let reply = if user_id == bot_id {
        string_of("I am not admin here!")
    } else {
        string_of("You are not an admin here!")
    };
    Err(Denial { reply: Some(reply), error: string_of("User isnt admin") })
}

/// The admin rights that `can_pin_messages`, `can_delete_messages` and
/// `can_promote_members` ask for.
#[derive(PartialEq, Eq, Structural, Clone, Copy, Debug)]
pub enum AdminRight {
    PinMessages,
    DeleteMessages,
    PromoteMembers,
    ChangeInfo,
}

pub open spec fn member_has_right(m: Member, right: AdminRight) -> bool {
    match right {
        AdminRight::PinMessages => m.can_pin_messages,
        AdminRight::DeleteMessages => m.can_delete_messages,
        AdminRight::PromoteMembers => m.can_promote_members,
        AdminRight::ChangeInfo => m.can_change_info,
    }
}

/// Passes for the owner, a sudo user, the creator, or an administrator
/// holding the right.
pub open spec fn spec_has_admin_right(cfg: &BotConfig, id: i64, m: Member, right: AdminRight) -> bool {
    cfg.spec_privileged(id) || m.status == MemberStatus::Creator || (m.status
        == MemberStatus::Administrator && member_has_right(m, right))
}

pub open spec fn right_denial_reply(right: AdminRight, is_bot: bool) -> Seq<char> {
    match right {
        AdminRight::PinMessages => if is_bot {
            "I can't pin messages here! Missing can_pin_messages permission"@
        } else {
            "You can't pin messages here! Missing can_pin_messages permissions"@
        },
        AdminRight::DeleteMessages => if is_bot {
            "I can't delete messages here! Missing can_delete_messages permission"@
        } else {
            "You can't delete messages here! Missing can_delete_messages permission"@
        },
        AdminRight::PromoteMembers => if is_bot {
            "I can't promote members here! Missing can_promote_members permission"@
        } else {
            "You can't promote members here! Missing can_promote_members permission"@
        },
        AdminRight::ChangeInfo => if is_bot {
            "I can't change the chat info here! Missing can_change_info permission"@
        } else {
            "You can't change the chat info here! Missing can_change_info permission"@
        },
    }
}

pub open spec fn right_denial_error(right: AdminRight) -> Seq<char> {
    match right {
        AdminRight::PinMessages => "Can't pin messages because missing can_pin_messages permissions"@,
        AdminRight::DeleteMessages => "Can't delete messages missing can_delete_messages permission"@,
        AdminRight::PromoteMembers => "Can't promote members because user is missing can_promote_members permissions"@,
        AdminRight::ChangeInfo => "Can't change the chat info because missing can_change_info permission"@,
    }
}

/// `can_pin_messages`, `can_delete_messages`, `can_promote_members`: the
/// member `m` of id `id` holds the right, or the reply says who lacks it.
pub fn require_admin_right(cfg: &BotConfig, bot_id: i64, id: i64, m: &Member, right: AdminRight) -> (r:
    Result<(), Denial>)
    ensures
        r is Ok <==> spec_has_admin_right(cfg, id, *m, right),
        r matches Err(d) ==> d.error@ == right_denial_error(right) && d.reply is Some
            && d.reply->0@ == right_denial_reply(right, id == bot_id),
{
    if cfg.is_privileged(id) {
        return Ok(());
    }
    let has = match right {
        AdminRight::PinMessages => m.can_pin_messages,
        AdminRight::DeleteMessages => m.can_delete_messages,
        AdminRight::PromoteMembers => m.can_promote_members,
        AdminRight::ChangeInfo => m.can_change_info,
    };
    if m.status == MemberStatus::Creator || (m.status == MemberStatus::Administrator && has) {
        return Ok(());
    }
    let is_bot = id == bot_id;
    let reply = match right {
        AdminRight::PinMessages => if is_bot {
            string_of("I can't pin messages here! Missing can_pin_messages permission")
        } else {
            string_of("You can't pin messages here! Missing can_pin_messages permissions")
        },
        AdminRight::DeleteMessages => if is_bot {
            string_of("I can't delete messages here! Missing can_delete_messages permission")
        } else {
            string_of("You can't delete messages here! Missing can_delete_messages permission")
        },
        AdminRight::PromoteMembers => if is_bot {
            string_of("I can't promote members here! Missing can_promote_members permission")
        } else {
            string_of("You can't promote members here! Missing can_promote_members permission")
        },
        AdminRight::ChangeInfo => if is_bot {
            string_of("I can't change the chat info here! Missing can_change_info permission")
        } else {
            string_of("You can't change the chat info here! Missing can_change_info permission")
        },
    };
    let error = match right {
        AdminRight::PinMessages => string_of(
            "Can't pin messages because missing can_pin_messages permissions",
        ),
        AdminRight::DeleteMessages => string_of(
            "Can't delete messages missing can_delete_messages permission",
        ),
        AdminRight::PromoteMembers => string_of(
            "Can't promote members because user is missing can_promote_members permissions",
        ),
        AdminRight::ChangeInfo => string_of(
            "Can't change the chat info because missing can_change_info permission",
        ),
    };
    Err(Denial { reply: Some(reply), error })
}

/// `user_should_be_creator`: only the creator of the chat passes.
pub fn user_should_be_creator(m: &Member) -> (r: Result<(), Denial>)
    ensures
        r is Ok <==> m.status == MemberStatus::Creator,
        r matches Err(d) ==> d.error@ == "User isn't the chat creator"@ && d.reply is Some
            && d.reply->0@ == "This command can only be used by the chat creator"@,
{
    if m.status == MemberStatus::Creator {
        Ok(())
    } else {
        Err(
            Denial {
                reply: Some(string_of("This command can only be used by the chat creator")),
                error: string_of("User isn't the chat creator"),
            },
        )
    }
}

/// The owner and the sudo users pass every admin check, whatever their
/// place in the chat.
pub proof fn law_privileged_pass_admin_checks(cfg: &BotConfig, id: i64, member: Option<Member>, m: Member, right: AdminRight)
    requires
        cfg.spec_privileged(id),
    ensures
        spec_is_admin(cfg, id, member),
        spec_can_restrict(cfg, id, member),
        spec_has_admin_right(cfg, id, m, right),
{
}

/// Who may restrict members, ban, mute and kick: an administrator holding
/// the right to restrict members does, as does the creator; an
/// administrator without that right, a plain, restricted, departed or
/// banned member, and a user whose membership cannot be read do not, unless
/// they are the owner or a sudo user. The same holds of pinning, deleting,
/// promoting and changing the chat's info, each with its own right.
pub proof fn law_rights_decide_admin_checks(cfg: &BotConfig, id: i64, m: Member, right: AdminRight)
    ensures
        m.status == MemberStatus::Administrator && m.can_restrict_members ==> spec_can_restrict(
            cfg,
            id,
            Some(m),
        ),
        m.status == MemberStatus::Creator ==> spec_can_restrict(cfg, id, Some(m)),
        !cfg.spec_privileged(id) && m.status == MemberStatus::Administrator
            && !m.can_restrict_members ==> !spec_can_restrict(cfg, id, Some(m)),
        !cfg.spec_privileged(id) && m.status != MemberStatus::Administrator && m.status
            != MemberStatus::Creator ==> !spec_can_restrict(cfg, id, Some(m)),
        !cfg.spec_privileged(id) ==> !spec_can_restrict(cfg, id, None),
        m.status == MemberStatus::Administrator && member_has_right(m, right)
            ==> spec_has_admin_right(cfg, id, m, right),
        m.status == MemberStatus::Creator ==> spec_has_admin_right(cfg, id, m, right),
        !cfg.spec_privileged(id) && m.status == MemberStatus::Administrator && !member_has_right(
            m,
            right,
        ) ==> !spec_has_admin_right(cfg, id, m, right),
        !cfg.spec_privileged(id) && m.status != MemberStatus::Administrator && m.status
            != MemberStatus::Creator ==> !spec_has_admin_right(cfg, id, m, right),
        member_has_right(m, AdminRight::PinMessages) == m.can_pin_messages,
        member_has_right(m, AdminRight::DeleteMessages) == m.can_delete_messages,
        member_has_right(m, AdminRight::PromoteMembers) == m.can_promote_members,
        member_has_right(m, AdminRight::ChangeInfo) == m.can_change_info,
{
}

/// `is_group`: only groups and supergroups pass.
pub fn is_group(group_or_supergroup: bool) -> (r: Result<(), Denial>)
    ensures
        r is Ok <==> group_or_supergroup,
        r matches Err(d) ==> d.error@ == "This isnt a group"@ && d.reply is Some && d.reply->0@
            == "This command can't be used in private"@,
{
    if group_or_supergroup {
        Ok(())
    } else {
        Err(
            Denial {
                reply: Some(string_of("This command can't be used in private")),
                error: string_of("This isnt a group"),
            },
        )
    }
}

/// `owner_filter`: only the owner passes.
pub fn owner_filter(cfg: &BotConfig, uid: i64) -> (r: Result<(), Denial>)
    ensures
        r is Ok <==> uid == cfg.owner_id,
        r matches Err(d) ==> d.reply is None && d.error@ == "This command only works for owner"@,
{
    if uid == cfg.owner_id {
        Ok(())
    } else {
        Err(Denial { reply: None, error: string_of("This command only works for owner") })
    }
}

/// `sudo_or_owner_filter`: only the owner and the sudo users pass.
pub fn sudo_or_owner_filter(cfg: &BotConfig, uid: i64) -> (r: Result<(), Denial>)
    ensures
        r is Ok <==> cfg.spec_privileged(uid),
        r matches Err(d) ==> d.reply is None && d.error@
            == "This command only works for either owner or sudo users"@,
{
    if cfg.is_privileged(uid) {
        Ok(())
    } else {
        Err(
            Denial {
                reply: None,
                error: string_of("This command only works for either owner or sudo users"),
            },
        )
    }
}

/// `can_send_text`: true when the member may NOT send text messages; false
/// in a private chat.
pub fn can_send_text(is_private: bool, m: &Member) -> (r: bool)
    ensures
        r == (!is_private && !m.can_send_messages),
{
    if is_private {
        return false;
    }
    !m.can_send_messages
}

/// `is_user_restricted`: whether any of the four send rights is withheld;
/// false in a private chat.
pub fn is_user_restricted(is_private: bool, m: &Member) -> (r: bool)
    ensures
        r == (!is_private && !(m.can_send_messages && m.can_send_media_messages
            && m.can_send_other_messages && m.can_add_web_page_previews)),
{
    if is_private {
        return false;
    }
    !(m.can_send_messages && m.can_send_media_messages && m.can_send_other_messages
        && m.can_add_web_page_previews)
}

} // verus!
