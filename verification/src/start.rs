//! The greeting of `start` and the command list of `help`.
use vstd::prelude::*;
use crate::commands::{spec_descriptions, Command};
use crate::html::{mention_or_link, spec_mention_or_link};
use crate::model::TgUser;
use crate::text::string_of;

verus! {

/// The reply to `start`: in a private chat a greeting of the sender, in a
/// group a sign of life.
pub fn start_reply(is_private: bool, sender: &TgUser) -> (r: String)
    ensures
        is_private ==> r@ == "Hello "@ + spec_mention_or_link(*sender)
            + "! Hope you are doing well\n Send /help to know about available commands"@,
        !is_private ==> r@ == "I am alive boss!"@,
{
    if is_private {
        let mut out = string_of("Hello ");
        out.append(mention_or_link(sender).as_str());
        out.append("! Hope you are doing well\n Send /help to know about available commands");
        out
    } else {
        string_of("I am alive boss!")
    }
}

/// The reply to `help`: the command list, which is only given in private.
pub fn help_reply(in_group: bool) -> (r: String)
    ensures
        in_group ==> r@ == "This command is meant to be used in private"@,
        !in_group ==> r@ == spec_descriptions(),
{
    if in_group {
        string_of("This command is meant to be used in private")
    } else {
        Command::descriptions()
    }
}

} // verus!
