//! A chat's log channel: setting it from a message forwarded out of the
//! channel, unsetting it, and the notice when a log cannot be sent.
use vstd::prelude::*;
use crate::database::Logging;
use crate::html::{code_inline, spec_code_inline};
use crate::model::Member;
use crate::numparse::{dec_i64, fmt_i64};
use crate::text::string_of;

verus! {

/// What `setlog` does first.
pub enum LogChannelStep {
    /// Only reply.
    Reply(String),
    /// Look up the bot's membership in the channel of this id, then decide
    /// with `after_channel_check`.
    CheckChannel(i64),
}

/// The first step of `setlog`: the command must reply to a message
/// forwarded from the channel (`forwarded_chat` is the id of the chat it
/// was forwarded from).
pub fn plan_log_channel(has_reply: bool, forwarded_chat: Option<i64>) -> (r: LogChannelStep)
    ensures
        !has_reply ==> (r matches LogChannelStep::Reply(s) && s@
            == "Add the bot to the channel send a message in the channel and forward that message to this chat and reply to the message with /setlog"@),
        has_reply && forwarded_chat is None ==> (r matches LogChannelStep::Reply(s) && s@
            == "This message was not forwarded from a channel please read the instruction properly for setting a log channel"@),
        has_reply ==> (forwarded_chat matches Some(c) ==> (r matches LogChannelStep::CheckChannel(
            x,
        ) && x == c)),
{
    if !has_reply {
        return LogChannelStep::Reply(
            string_of(
                "Add the bot to the channel send a message in the channel and forward that message to this chat and reply to the message with /setlog",
            ),
        );
    }
    match forwarded_chat {
        Some(c) => LogChannelStep::CheckChannel(c),
        None => LogChannelStep::Reply(
            string_of(
                "This message was not forwarded from a channel please read the instruction properly for setting a log channel",
            ),
        ),
    }
}

/// The reply once the log channel is stored.
pub open spec fn spec_log_added(channel: i64) -> Seq<char> {
    "Added log channel for this chat\nThe channel id of the log channel is:"@ + spec_code_inline(
        dec_i64(channel),
    )
}

/// What `setlog` ends with: the record to store, if any, and the reply
/// (in HTML when a record is stored).
pub struct LogChannelOutcome {
    pub record: Option<Logging>,
    pub reply: String,
}

/// The decision of `setlog` once the bot's membership in the channel was
/// looked up (`None` when the bot is not there): the channel is stored only
/// when the bot may post in it.
pub fn after_channel_check(chat_id: i64, channel: i64, bot_member: &Option<Member>) -> (r: LogChannelOutcome)
    ensures
        bot_member is None ==> r.record is None && r.reply@
            == "Seems like I am not in the channel where the message was forwardeed from!"@,
        bot_member matches Some(m) ==> (m.can_post_messages ==> (r.record matches Some(l)
            && l.chat_id == chat_id && l.channel == channel && r.reply@ == spec_log_added(
            channel,
        ))),
        bot_member matches Some(m) ==> (!m.can_post_messages ==> r.record is None && r.reply@
            == "I can't post messages in the mentioned channel please give me permissions to do so"@),
{
    match bot_member {
        None => LogChannelOutcome {
            record: None,
            reply: string_of(
                "Seems like I am not in the channel where the message was forwardeed from!",
            ),
        },
        Some(m) => {
            if m.can_post_messages {
                let mut reply = string_of(
                    "Added log channel for this chat\nThe channel id of the log channel is:",
                );
                reply.append(code_inline(fmt_i64(channel).as_str()).as_str());
                LogChannelOutcome { record: Some(Logging { chat_id, channel }), reply }
            } else {
                LogChannelOutcome {
                    record: None,
                    reply: string_of(
                        "I can't post messages in the mentioned channel please give me permissions to do so",
                    ),
                }
            }
        },
    }
}

/// The decision of `unsetlog`: whether to remove the stored channel, and
/// the reply.
pub fn decide_remove_log(existing: &Option<Logging>) -> (r: (bool, String))
    ensures
        r.0 == existing is Some,
        existing is Some ==> r.1@ == "The log channel has been unset"@,
        existing is None ==> r.1@
            == "You haven't set any log channel's here send /setlog to get instructions"@,
{
    match existing {
        Some(_) => (true, string_of("The log channel has been unset")),
        None => (
            false,
            string_of("You haven't set any log channel's here send /setlog to get instructions"),
        ),
    }
}

/// The notice sent to the chat when a log could not be sent to its
/// channel, with the error.
pub fn log_failure_text(err: &str) -> (r: String)
    ensures
        r@ == "Can't send the message into the log channel because of\n"@ + spec_code_inline(err@),
{
    let mut out = string_of("Can't send the message into the log channel because of\n");
    out.append(code_inline(err).as_str());
    out
}

} // verus!
