//! The bot's command list: each command's name and description, the help
//! text listing them, and the reading of a command message.
use vstd::prelude::*;
use crate::html::{char_index, find_char, lemma_find_char};
use crate::text::{str_eq, string_of};

verus! {

/// A command the bot answers to.
#[derive(PartialEq, Eq, Structural, Clone, Copy, Debug)]
pub enum Command {
    Ban,
    Unban,
    Mute,
    Unmute,
    Start,
    Help,
    Kick,
    Info,
    Id,
    Kickme,
    Pin,
    Unpin,
    Promote,
    Demote,
    Invitelink,
}

/// Why a text is not one of the commands.
#[derive(Debug)]
pub enum CommandError {
    /// The command was addressed to another bot, named here.
    WrongBotName(String),
    /// No command has this name; it is given with its `/`.
    UnknownCommand(String),
}

/// The command as it is typed, with its `/`.
pub open spec fn spec_command_text(c: Command) -> Seq<char> {
    match c {
        Command::Ban => "/ban"@,
        Command::Unban => "/unban"@,
        Command::Mute => "/mute"@,
        Command::Unmute => "/unmute"@,
        Command::Start => "/start"@,
        Command::Help => "/help"@,
        Command::Kick => "/kick"@,
        Command::Info => "/info"@,
        Command::Id => "/id"@,
        Command::Kickme => "/kickme"@,
        Command::Pin => "/pin"@,
        Command::Unpin => "/unpin"@,
        Command::Promote => "/promote"@,
        Command::Demote => "/demote"@,
        Command::Invitelink => "/invitelink"@,
    }
}

/// What the help text says a command does.
pub open spec fn spec_command_description(c: Command) -> Seq<char> {
    match c {
        Command::Ban => "Ban a user"@,
        Command::Unban => "Unbans a user"@,
        Command::Mute => "Mute a user"@,
        Command::Unmute => "Unmute a user"@,
        Command::Start => "Greeting a user who sends /start"@,
        Command::Help => "Helps with available commands"@,
        Command::Kick => "Kick a user from the group"@,
        Command::Info => "Sends info about a user"@,
        Command::Id => "Send's user's or chat's ID"@,
        Command::Kickme => "Kick yourself from a group"@,
        Command::Pin => "Pins a message"@,
        Command::Unpin => "Unpins a mentioned message"@,
        Command::Promote => "Promotes a user"@,
        Command::Demote => "Demotes a user"@,
        Command::Invitelink => "Get's the invite link of the chat"@,
    }
}

/// The commands in the order the help text lists them.
pub open spec fn all_commands() -> Seq<Command> {
    seq![
        Command::Ban,
        Command::Unban,
        Command::Mute,
        Command::Unmute,
        Command::Start,
        Command::Help,
        Command::Kick,
        Command::Info,
        Command::Id,
        Command::Kickme,
        Command::Pin,
        Command::Unpin,
        Command::Promote,
        Command::Demote,
        Command::Invitelink,
    ]
}

/// One line of the help text.
pub open spec fn help_line(c: Command) -> Seq<char> {
    spec_command_text(c) + " - "@ + spec_command_description(c) + "\n"@
}

/// The help lines of `cs`, one after the other.
pub open spec fn help_lines(cs: Seq<Command>) -> Seq<char>
    decreases cs.len(),
{
    if cs.len() == 0 {
        Seq::empty()
    } else {
        help_lines(cs.drop_last()) + help_line(cs.last())
    }
}

/// The help text: a heading line, then one line per command.
pub open spec fn spec_descriptions() -> Seq<char> {
    "These commands are supported:\n"@ + help_lines(all_commands())
}

/// The command typed as `raw`, if any.
pub open spec fn spec_command_of(raw: Seq<char>) -> Option<Command> {
    if raw == "/ban"@ {
        Some(Command::Ban)
    } else if raw == "/unban"@ {
        Some(Command::Unban)
    } else if raw == "/mute"@ {
        Some(Command::Mute)
    } else if raw == "/unmute"@ {
        Some(Command::Unmute)
    } else if raw == "/start"@ {
        Some(Command::Start)
    } else if raw == "/help"@ {
        Some(Command::Help)
    } else if raw == "/kick"@ {
        Some(Command::Kick)
    } else if raw == "/info"@ {
        Some(Command::Info)
    } else if raw == "/id"@ {
        Some(Command::Id)
    } else if raw == "/kickme"@ {
        Some(Command::Kickme)
    } else if raw == "/pin"@ {
        Some(Command::Pin)
    } else if raw == "/unpin"@ {
        Some(Command::Unpin)
    } else if raw == "/promote"@ {
        Some(Command::Promote)
    } else if raw == "/demote"@ {
        Some(Command::Demote)
    } else if raw == "/invitelink"@ {
        Some(Command::Invitelink)
    } else {
        None
    }
}

/// The view of a parse result.
pub enum SpecParse {
    Parsed(Command),
    WrongBotName(Seq<char>),
    UnknownCommand(Seq<char>),
}

/// The command word of a message: its first space-separated word is split
/// at `@`; the part before is the command (`Ok`), unless the part after (up
/// to a further `@`), when there is one, is not the bot's name (`Err` with
/// that name).
pub open spec fn spec_command_word(s: Seq<char>, bot_name: Seq<char>) -> Result<Seq<char>, Seq<char>> {
    let first = s.take(find_char(s, ' '));
    let at = find_char(first, '@');
    let after = first.skip(at + 1);
    let name = after.take(find_char(after, '@'));
    if at < first.len() && name != bot_name {
        Err(name)
    } else {
        Ok(first.take(at))
    }
}

/// The reading of a command message as one of the commands.
pub open spec fn spec_parse(s: Seq<char>, bot_name: Seq<char>) -> SpecParse {
    match spec_command_word(s, bot_name) {
        Err(name) => SpecParse::WrongBotName(name),
        Ok(raw) => match spec_command_of(raw) {
            Some(c) => SpecParse::Parsed(c),
            None => SpecParse::UnknownCommand(raw),
        },
    }
}

/// The command word of a message addressed to `bot_name`, or the other
/// bot's name it is addressed to.
pub fn command_word(s: &str, bot_name: &str) -> (r: Result<String, String>)
    ensures
        match r {
            Ok(w) => spec_command_word(s@, bot_name@) == Ok::<Seq<char>, Seq<char>>(w@),
            Err(n) => spec_command_word(s@, bot_name@) == Err::<Seq<char>, Seq<char>>(n@),
        },
{
    let sp = char_index(s, ' ');
    let first = s.substring_char(0, sp);
    let at = char_index(first, '@');
    let raw = first.substring_char(0, at);
    let flen = first.unicode_len();
    if at < flen {
        let after = first.substring_char(at + 1, flen);
        let end = char_index(after, '@');
        let name = after.substring_char(0, end);
        if !str_eq(name, bot_name) {
            return Err(name.to_owned());
        }
    }
    Ok(raw.to_owned())
}

pub open spec fn parse_view(r: Result<Command, CommandError>) -> SpecParse {
    match r {
        Ok(c) => SpecParse::Parsed(c),
        Err(CommandError::WrongBotName(n)) => SpecParse::WrongBotName(n@),
        Err(CommandError::UnknownCommand(c)) => SpecParse::UnknownCommand(c@),
    }
}

fn command_of(raw: &str) -> (r: Option<Command>)
    ensures
        r == spec_command_of(raw@),
{
    if str_eq(raw, "/ban") {
        Some(Command::Ban)
    } else if str_eq(raw, "/unban") {
        Some(Command::Unban)
    } else if str_eq(raw, "/mute") {
        Some(Command::Mute)
    } else if str_eq(raw, "/unmute") {
        Some(Command::Unmute)
    } else if str_eq(raw, "/start") {
        Some(Command::Start)
    } else if str_eq(raw, "/help") {
        Some(Command::Help)
    } else if str_eq(raw, "/kick") {
        Some(Command::Kick)
    } else if str_eq(raw, "/info") {
        Some(Command::Info)
    } else if str_eq(raw, "/id") {
        Some(Command::Id)
    } else if str_eq(raw, "/kickme") {
        Some(Command::Kickme)
    } else if str_eq(raw, "/pin") {
        Some(Command::Pin)
    } else if str_eq(raw, "/unpin") {
        Some(Command::Unpin)
    } else if str_eq(raw, "/promote") {
        Some(Command::Promote)
    } else if str_eq(raw, "/demote") {
        Some(Command::Demote)
    } else if str_eq(raw, "/invitelink") {
        Some(Command::Invitelink)
    } else {
        None
    }
}

impl Command {
    /// The command as it is typed, with its `/`.
    pub fn text(&self) -> (r: &'static str)
        ensures
            r@ == spec_command_text(*self),
    {
        match self {
            Command::Ban => "/ban",
            Command::Unban => "/unban",
            Command::Mute => "/mute",
            Command::Unmute => "/unmute",
            Command::Start => "/start",
            Command::Help => "/help",
            Command::Kick => "/kick",
            Command::Info => "/info",
            Command::Id => "/id",
            Command::Kickme => "/kickme",
            Command::Pin => "/pin",
            Command::Unpin => "/unpin",
            Command::Promote => "/promote",
            Command::Demote => "/demote",
            Command::Invitelink => "/invitelink",
        }
    }

    /// What the command does, as the help text says.
    pub fn description(&self) -> (r: &'static str)
        ensures
            r@ == spec_command_description(*self),
    {
        match self {
            Command::Ban => "Ban a user",
            Command::Unban => "Unbans a user",
            Command::Mute => "Mute a user",
            Command::Unmute => "Unmute a user",
            Command::Start => "Greeting a user who sends /start",
            Command::Help => "Helps with available commands",
            Command::Kick => "Kick a user from the group",
            Command::Info => "Sends info about a user",
            Command::Id => "Send's user's or chat's ID",
            Command::Kickme => "Kick yourself from a group",
            Command::Pin => "Pins a message",
            Command::Unpin => "Unpins a mentioned message",
            Command::Promote => "Promotes a user",
            Command::Demote => "Demotes a user",
            Command::Invitelink => "Get's the invite link of the chat",
        }
    }

    /// Every command, in the order of the help text.
    pub fn all() -> (r: Vec<Command>)
        ensures
            r@ == all_commands(),
    {
        let r = vec![
            Command::Ban,
            Command::Unban,
            Command::Mute,
            Command::Unmute,
            Command::Start,
            Command::Help,
            Command::Kick,
            Command::Info,
            Command::Id,
            Command::Kickme,
            Command::Pin,
            Command::Unpin,
            Command::Promote,
            Command::Demote,
            Command::Invitelink,
        ];
        assert(r@ == all_commands());
        r
    }

    /// The help text: "These commands are supported:" and a line
    /// "/name - description" for each command.
    pub fn descriptions() -> (r: String)
        ensures
            r@ == spec_descriptions(),
    {
        let cs = Command::all();
        let mut out = string_of("These commands are supported:\n");
        let mut i: usize = 0;
        assert(cs@.take(0) == Seq::<Command>::empty());
        while i < cs.len()
            invariant
                i <= cs.len(),
                cs@ == all_commands(),
                out@ == "These commands are supported:\n"@ + help_lines(cs@.take(i as int)),
            decreases cs.len() - i,
        {
            let c = cs[i];
            assert(cs@.take(i + 1).drop_last() == cs@.take(i as int));
            out.append(c.text());
            out.append(" - ");
            out.append(c.description());
            out.append("\n");
            i = i + 1;
        }
        assert(cs@.take(cs.len() as int) == cs@);
        out
    }

    /// Reads a command message addressed to `bot_name`.
    pub fn parse(s: &str, bot_name: &str) -> (r: Result<Command, CommandError>)
        ensures
            parse_view(r) == spec_parse(s@, bot_name@),
    {
        match command_word(s, bot_name) {
            Err(name) => Err(CommandError::WrongBotName(name)),
            Ok(raw) => match command_of(raw.as_str()) {
                Some(c) => Ok(c),
                None => Err(CommandError::UnknownCommand(raw)),
            },
        }
    }
}

pub proof fn lemma_no_space_or_at(s: Seq<char>, bot_name: Seq<char>)
    requires
        forall|i: int| 0 <= i < s.len() ==> s[i] != ' ' && s[i] != '@',
    ensures
        spec_command_word(s, bot_name) == Ok::<Seq<char>, Seq<char>>(s),
{
    lemma_find_char(s, ' ');
    assert(s.take(s.len() as int) == s);
    lemma_find_char(s, '@');
}

proof fn lemma_command_of_text(c: Command)
    ensures
        spec_command_of(spec_command_text(c)) == Some(c),
{
    reveal_strlit("/ban");
    reveal_strlit("/unban");
    reveal_strlit("/mute");
    reveal_strlit("/unmute");
    reveal_strlit("/start");
    reveal_strlit("/help");
    reveal_strlit("/kick");
    reveal_strlit("/info");
    reveal_strlit("/id");
    reveal_strlit("/kickme");
    reveal_strlit("/pin");
    reveal_strlit("/unpin");
    reveal_strlit("/promote");
    reveal_strlit("/demote");
    reveal_strlit("/invitelink");
    match c {
        Command::Ban => {
        },
        Command::Unban => {
            assert("/unban"@.len() != "/ban"@.len());
        },
        Command::Mute => {
            assert("/mute"@.len() != "/ban"@.len());
            assert("/mute"@.len() != "/unban"@.len());
        },
        Command::Unmute => {
            assert("/unmute"@.len() != "/ban"@.len());
            assert("/unmute"@.len() != "/unban"@.len());
            assert("/unmute"@.len() != "/mute"@.len());
        },
        Command::Start => {
            assert("/start"@.len() != "/ban"@.len());
            assert("/start"@[1] != "/unban"@[1]);
            assert("/start"@.len() != "/mute"@.len());
            assert("/start"@.len() != "/unmute"@.len());
        },
        Command::Help => {
            assert("/help"@.len() != "/ban"@.len());
            assert("/help"@.len() != "/unban"@.len());
            assert("/help"@[1] != "/mute"@[1]);
            assert("/help"@.len() != "/unmute"@.len());
            assert("/help"@.len() != "/start"@.len());
        },
        Command::Kick => {
            assert("/kick"@.len() != "/ban"@.len());
            assert("/kick"@.len() != "/unban"@.len());
            assert("/kick"@[1] != "/mute"@[1]);
            assert("/kick"@.len() != "/unmute"@.len());
            assert("/kick"@.len() != "/start"@.len());
            assert("/kick"@[1] != "/help"@[1]);
        },
        Command::Info => {
            assert("/info"@.len() != "/ban"@.len());
            assert("/info"@.len() != "/unban"@.len());
            assert("/info"@[1] != "/mute"@[1]);
            assert("/info"@.len() != "/unmute"@.len());
            assert("/info"@.len() != "/start"@.len());
            assert("/info"@[1] != "/help"@[1]);
            assert("/info"@[1] != "/kick"@[1]);
        },
        Command::Id => {
            assert("/id"@.len() != "/ban"@.len());
            assert("/id"@.len() != "/unban"@.len());
            assert("/id"@.len() != "/mute"@.len());
            assert("/id"@.len() != "/unmute"@.len());
            assert("/id"@.len() != "/start"@.len());
            assert("/id"@.len() != "/help"@.len());
            assert("/id"@.len() != "/kick"@.len());
            assert("/id"@.len() != "/info"@.len());
        },
        Command::Kickme => {
            assert("/kickme"@.len() != "/ban"@.len());
            assert("/kickme"@.len() != "/unban"@.len());
            assert("/kickme"@.len() != "/mute"@.len());
            assert("/kickme"@[1] != "/unmute"@[1]);
            assert("/kickme"@.len() != "/start"@.len());
            assert("/kickme"@.len() != "/help"@.len());
            assert("/kickme"@.len() != "/kick"@.len());
            assert("/kickme"@.len() != "/info"@.len());
            assert("/kickme"@.len() != "/id"@.len());
        },
        Command::Pin => {
            assert("/pin"@[1] != "/ban"@[1]);
            assert("/pin"@.len() != "/unban"@.len());
            assert("/pin"@.len() != "/mute"@.len());
            assert("/pin"@.len() != "/unmute"@.len());
            assert("/pin"@.len() != "/start"@.len());
            assert("/pin"@.len() != "/help"@.len());
            assert("/pin"@.len() != "/kick"@.len());
            assert("/pin"@.len() != "/info"@.len());
            assert("/pin"@.len() != "/id"@.len());
            assert("/pin"@.len() != "/kickme"@.len());
        },
        Command::Unpin => {
            assert("/unpin"@.len() != "/ban"@.len());
            assert("/unpin"@[3] != "/unban"@[3]);
            assert("/unpin"@.len() != "/mute"@.len());
            assert("/unpin"@.len() != "/unmute"@.len());
            assert("/unpin"@[1] != "/start"@[1]);
            assert("/unpin"@.len() != "/help"@.len());
            assert("/unpin"@.len() != "/kick"@.len());
            assert("/unpin"@.len() != "/info"@.len());
            assert("/unpin"@.len() != "/id"@.len());
            assert("/unpin"@.len() != "/kickme"@.len());
            assert("/unpin"@.len() != "/pin"@.len());
        },
        Command::Promote => {
            assert("/promote"@.len() != "/ban"@.len());
            assert("/promote"@.len() != "/unban"@.len());
            assert("/promote"@.len() != "/mute"@.len());
            assert("/promote"@.len() != "/unmute"@.len());
            assert("/promote"@.len() != "/start"@.len());
            assert("/promote"@.len() != "/help"@.len());
            assert("/promote"@.len() != "/kick"@.len());
            assert("/promote"@.len() != "/info"@.len());
            assert("/promote"@.len() != "/id"@.len());
            assert("/promote"@.len() != "/kickme"@.len());
            assert("/promote"@.len() != "/pin"@.len());
            assert("/promote"@.len() != "/unpin"@.len());
        },
        Command::Demote => {
            assert("/demote"@.len() != "/ban"@.len());
            assert("/demote"@.len() != "/unban"@.len());
            assert("/demote"@.len() != "/mute"@.len());
            assert("/demote"@[1] != "/unmute"@[1]);
            assert("/demote"@.len() != "/start"@.len());
            assert("/demote"@.len() != "/help"@.len());
            assert("/demote"@.len() != "/kick"@.len());
            assert("/demote"@.len() != "/info"@.len());
            assert("/demote"@.len() != "/id"@.len());
            assert("/demote"@[1] != "/kickme"@[1]);
            assert("/demote"@.len() != "/pin"@.len());
            assert("/demote"@.len() != "/unpin"@.len());
            assert("/demote"@.len() != "/promote"@.len());
        },
        Command::Invitelink => {
            assert("/invitelink"@.len() != "/ban"@.len());
            assert("/invitelink"@.len() != "/unban"@.len());
            assert("/invitelink"@.len() != "/mute"@.len());
            assert("/invitelink"@.len() != "/unmute"@.len());
            assert("/invitelink"@.len() != "/start"@.len());
            assert("/invitelink"@.len() != "/help"@.len());
            assert("/invitelink"@.len() != "/kick"@.len());
            assert("/invitelink"@.len() != "/info"@.len());
            assert("/invitelink"@.len() != "/id"@.len());
            assert("/invitelink"@.len() != "/kickme"@.len());
            assert("/invitelink"@.len() != "/pin"@.len());
            assert("/invitelink"@.len() != "/unpin"@.len());
            assert("/invitelink"@.len() != "/promote"@.len());
            assert("/invitelink"@.len() != "/demote"@.len());
        },
    }
}

/// Each command, typed as the help text lists it, reads back as that
/// command, whatever the bot's name.
pub proof fn law_command_text_reads_back(c: Command, bot_name: Seq<char>)
    ensures
        spec_parse(spec_command_text(c), bot_name) == SpecParse::Parsed(c),
{
    reveal_strlit("/ban");
    reveal_strlit("/unban");
    reveal_strlit("/mute");
    reveal_strlit("/unmute");
    reveal_strlit("/start");
    reveal_strlit("/help");
    reveal_strlit("/kick");
    reveal_strlit("/info");
    reveal_strlit("/id");
    reveal_strlit("/kickme");
    reveal_strlit("/pin");
    reveal_strlit("/unpin");
    reveal_strlit("/promote");
    reveal_strlit("/demote");
    reveal_strlit("/invitelink");
    lemma_no_space_or_at(spec_command_text(c), bot_name);
    lemma_command_of_text(c);
}

} // verus!
