//! Deleting one message, and purging every message from a replied-to one up
//! to the command.
use vstd::prelude::*;
use crate::numparse::{dec, fmt_u64};
use crate::text::string_of;

verus! {

/// The message `del` deletes: the replied-to one, or the reply asking for
/// one.
pub fn delete_target(reply_id: Option<i32>) -> (r: Result<i32, String>)
    ensures
        reply_id matches Some(id) ==> r == Ok::<i32, String>(id),
        reply_id is None ==> (r matches Err(s) && s@ == "Reply to some message to delete it"@),
{
    match reply_id {
        Some(id) => Ok(id),
        None => Err(string_of("Reply to some message to delete it")),
    }
}

/// The reply when the replied-to message could not be deleted.
pub fn delete_failed_text(err: &str) -> (r: String)
    ensures
        r@ == "Can't delete the message for the following reason\n<code>"@ + err@ + "</code>"@,
{
    let mut out = string_of("Can't delete the message for the following reason\n<code>");
    out.append(err);
    out.append("</code>");
    out
}

/// The reply when the command itself could not be deleted.
pub fn delete_command_failed_text(err: &str) -> (r: String)
    ensures
        r@ == "Can't delete the message for the following reason<code>"@ + err@ + "</code>"@,
{
    let mut out = string_of("Can't delete the message for the following reason<code>");
    out.append(err);
    out.append("</code>");
    out
}

/// The ids from `from` up to, not including, `to`, the last first.
pub open spec fn spec_purge_ids(from: i32, to: i32) -> Seq<i32> {
    Seq::new(
        if from < to {
            (to - from) as nat
        } else {
            0
        },
        |k: int| (to - 1 - k) as i32,
    )
}

/// The messages a purge deletes, in the order it deletes them: from the
/// one before the command down to the replied-to one; or the reply asking
/// for a replied-to message.
pub fn purge_plan(reply_id: Option<i32>, command_id: i32) -> (r: Result<Vec<i32>, String>)
    ensures
        reply_id matches Some(from) ==> (r matches Ok(v) && v@ == spec_purge_ids(from, command_id)),
        reply_id is None ==> (r matches Err(s) && s@ == "Reply to some message to purge"@),
{
    match reply_id {
        None => Err(string_of("Reply to some message to purge")),
        Some(from) => {
            let mut ids: Vec<i32> = Vec::new();
            let mut i: i32 = command_id;
            while i > from
                invariant
                    from < command_id ==> from <= i <= command_id,
                    from >= command_id ==> i == command_id,
                    ids@.len() == command_id - i,
                    forall|k: int| 0 <= k < ids@.len() ==> ids@[k] == command_id - 1 - k,
                decreases i - from,
            {
                i = i - 1;
                ids.push(i);
            }
            assert(ids@ == spec_purge_ids(from, command_id));
            Ok(ids)
        },
    }
}

/// The reply when a message of a purge could not be deleted.
pub fn purge_failed_text(err: &str) -> (r: String)
    ensures
        r@
            == "Error in purging some of the messages reason message might be too old or this is not a supergroup\n Error Message: <code>"@
            + err@ + "</code>"@,
{
    let mut out = string_of(
        "Error in purging some of the messages reason message might be too old or this is not a supergroup\n Error Message: <code>",
    );
    out.append(err);
    out.append("</code>");
    out
}

/// The message sent when the purge command itself could not be deleted.
pub fn purge_command_failed_text(err: &str) -> (r: String)
    ensures
        r@ == "Error while deleting messages\n Error Message:<code>"@ + err@ + "</code>"@,
{
    let mut out = string_of("Error while deleting messages\n Error Message:<code>");
    out.append(err);
    out.append("</code>");
    out
}

/// The message sent when a purge is done.
pub fn purged_text(count: u32) -> (r: String)
    ensures
        r@ == "Purged "@ + dec(count as nat) + " messages"@,
{
    let mut out = string_of("Purged ");
    out.append(fmt_u64(count as u64).as_str());
    out.append(" messages");
    out
}

} // verus!
