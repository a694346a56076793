//! Commands a chat has disabled: disabling and enabling them, and the check
//! the commands make before they run.
use vstd::prelude::*;
use crate::custom_types::{is_disableable, spec_disableable};
use crate::database::DisableCommand;
use crate::text::{spec_to_lowercase, str_eq, string_of, to_lowercase, views};

verus! {

/// Index of the first occurrence of `w` in `list`, or `list.len()`.
pub open spec fn first_index(list: Seq<Seq<char>>, w: Seq<char>) -> int
    decreases list.len(),
{
    if list.len() == 0 {
        0
    } else if list[0] == w {
        0
    } else {
        1 + first_index(list.drop_first(), w)
    }
}

pub proof fn lemma_first_index(list: Seq<Seq<char>>, w: Seq<char>)
    ensures
        0 <= first_index(list, w) <= list.len(),
        first_index(list, w) < list.len() ==> list[first_index(list, w)] == w,
        forall|k: int| 0 <= k < first_index(list, w) ==> list[k] != w,
        list.contains(w) <==> first_index(list, w) < list.len(),
    decreases list.len(),
{
    if list.len() > 0 && list[0] != w {
        lemma_first_index(list.drop_first(), w);
        assert forall|k: int| 0 <= k < first_index(list, w) implies list[k] != w by {
            if k > 0 {
                assert(list[k] == list.drop_first()[k - 1]);
            }
        }
        if list.contains(w) {
            let j = choose|j: int| 0 <= j < list.len() && list[j] == w;
            assert(list.drop_first()[j - 1] == w);
        }
        if first_index(list, w) < list.len() {
            assert(list.drop_first()[first_index(list, w) - 1] == w);
        }
    }
}

/// `list` without the first occurrence of `w`.
pub open spec fn remove_first(list: Seq<Seq<char>>, w: Seq<char>) -> Seq<Seq<char>> {
    let i = first_index(list, w);
    if i < list.len() {
        list.remove(i)
    } else {
        list
    }
}

/// `is_command_disabled`: a command that may be disabled, whose lowercase
/// name is in the chat's list.
pub open spec fn spec_command_disabled(list: Seq<Seq<char>>, cmd: Seq<char>) -> bool {
    spec_disableable(cmd) && list.contains(spec_to_lowercase(cmd))
}

/// Whether `list` holds `w`.
fn list_contains(list: &Vec<String>, w: &str) -> (r: bool)
    ensures
        r == views(list@).contains(w@),
{
    let mut i: usize = 0;
    while i < list.len()
        invariant
            i <= list.len(),
            forall|k: int| 0 <= k < i ==> list@[k]@ != w@,
        decreases list.len() - i,
    {
        if str_eq(list[i].as_str(), w) {
            assert(views(list@)[i as int] == w@);
            return true;
        }
        i = i + 1;
    }
    assert(forall|k: int| 0 <= k < views(list@).len() ==> views(list@)[k] != w@);
    false
}

pub fn is_command_disabled(list: &Vec<String>, cmd: &str) -> (r: bool)
    ensures
        r == spec_command_disabled(views(list@), cmd@),
{
    if is_disableable(cmd) {
        let lower = to_lowercase(cmd);
        return list_contains(list, lower.as_str());
    }
    false
}

/// Whether `check_command_disabled` must read the chat's list: only in a
/// group, for a command that may be disabled.
pub fn needs_disabled_list(group: bool, cmd: &str) -> (r: bool)
    ensures
        r == (group && spec_disableable(cmd@)),
{
    group && is_disableable(cmd)
}

/// `check_command_disabled`: in a group, a disabled command stops with an
/// error; elsewhere every command runs.
pub fn check_command_disabled(group: bool, list: &Vec<String>, cmd: &str) -> (r: Result<(), String>)
    ensures
        r is Err <==> group && spec_command_disabled(views(list@), cmd@),
        r matches Err(e) ==> e@ == "This command is disabled"@,
{
    if group && is_command_disabled(list, cmd) {
        return Err(string_of("This command is disabled"));
    }
    Ok(())
}

/// What `/disable` and `/enable` do.
pub enum DisableCmd {
    Reply(String),
    /// Store the new list, then reply.
    Store { record: DisableCommand, reply: String },
}

/// Position of the first occurrence of `w` in `list`, or its length.
fn first_position(list: &Vec<String>, w: &str) -> (r: usize)
    ensures
        r == first_index(views(list@), w@),
{
    let ghost vs = views(list@);
    proof {
        lemma_first_index(vs, w@);
    }
    let mut i: usize = 0;
    while i < list.len()
        invariant
            i <= list.len(),
            vs == views(list@),
            i <= first_index(vs, w@),
            0 <= first_index(vs, w@) <= vs.len(),
            first_index(vs, w@) < vs.len() ==> vs[first_index(vs, w@)] == w@,
            forall|k: int| 0 <= k < first_index(vs, w@) ==> vs[k] != w@,
        decreases list.len() - i,
    {
        if str_eq(list[i].as_str(), w) {
            assert(vs[i as int] == w@);
            return i;
        }
        assert(vs[i as int] != w@);
        i = i + 1;
    }
    i
}

/// `/disable name`: a command that may be disabled is added (lowercased) to
/// the chat's list.
pub fn decide_disable(chat_id: i64, args: &Vec<String>, list: Vec<String>) -> (r: DisableCmd)
    ensures
        args@.len() == 0 ==> (r matches DisableCmd::Reply(s) && s@ == "What should I disable"@),
        args@.len() > 0 ==> ({
            let w = spec_to_lowercase(args@[0]@);
            if spec_disableable(w) {
                r matches DisableCmd::Store { record, reply } && record.chat_id == chat_id && views(
                    record.disabled_commands@,
                ) == views(list@).push(w) && reply@ == "Command "@ + w + " has been disabled"@
            } else {
                r matches DisableCmd::Reply(s) && s@ == "This command Can't be disabled!"@
            }
        }),
{
    if args.len() == 0 {
        return DisableCmd::Reply(string_of("What should I disable"));
    }
    let w = to_lowercase(args[0].as_str());
    if !is_disableable(w.as_str()) {
        return DisableCmd::Reply(string_of("This command Can't be disabled!"));
    }
    let mut cmds = list;
    let ghost old_cmds = cmds@;
    cmds.push(w.clone());
    assert(views(cmds@) == views(old_cmds).push(w@));
    let mut reply = string_of("Command ");
    reply.append(w.as_str());
    reply.append(" has been disabled");
    DisableCmd::Store { record: DisableCommand { chat_id, disabled_commands: cmds }, reply }
}

/// `/enable name`: the first occurrence of the lowercased name leaves the
/// chat's list.
pub fn decide_enable(chat_id: i64, args: &Vec<String>, list: Vec<String>) -> (r: DisableCmd)
    ensures
        args@.len() == 0 ==> (r matches DisableCmd::Reply(s) && s@ == "What should I disable"@),
        args@.len() > 0 ==> ({
            let w = spec_to_lowercase(args@[0]@);
            if views(list@).contains(w) {
                r matches DisableCmd::Store { record, reply } && record.chat_id == chat_id && views(
                    record.disabled_commands@,
                ) == remove_first(views(list@), w) && reply@
                    == "This command is enabled and ready to use here"@
            } else {
                r matches DisableCmd::Reply(s) && s@ == "Try enabling something which was disabled"@
            }
        }),
{
    if args.len() == 0 {
        return DisableCmd::Reply(string_of("What should I disable"));
    }
    let w = to_lowercase(args[0].as_str());
    let ghost vs = views(list@);
    let i = first_position(&list, w.as_str());
    proof {
        lemma_first_index(vs, w@);
    }
    if i == list.len() {
        return DisableCmd::Reply(string_of("Try enabling something which was disabled"));
    }
    let mut cmds = list;
    cmds.remove(i);
    assert(views(cmds@) == vs.remove(i as int));
    DisableCmd::Store {
        record: DisableCommand { chat_id, disabled_commands: cmds },
        reply: string_of("This command is enabled and ready to use here"),
    }
}

/// A command just disabled is disabled: after `/disable` adds the lowercase
/// word `w`, every command that may be disabled and whose lowercase name is
/// `w` is refused.
pub proof fn law_disable_then_disabled(list: Seq<Seq<char>>, w: Seq<char>, cmd: Seq<char>)
    requires
        spec_disableable(cmd),
        spec_to_lowercase(cmd) == w,
    ensures
        spec_command_disabled(list.push(w), cmd),
{
    assert(list.push(w)[list.len() as int] == w);
}

/// Enabling what was just disabled restores the list, when the word was not
/// in it before.
pub proof fn law_enable_undoes_disable(list: Seq<Seq<char>>, w: Seq<char>)
    requires
        !list.contains(w),
    ensures
        remove_first(list.push(w), w) == list,
{
    lemma_first_index(list.push(w), w);
    lemma_first_index(list, w);
    assert forall|k: int| 0 <= k < list.len() implies list.push(w)[k] != w by {
        assert(list.push(w)[k] == list[k]);
    }
    if first_index(list.push(w), w) < list.len() {
        assert(list.push(w)[first_index(list.push(w), w)] == w);
        assert(list[first_index(list.push(w), w)] == w);
    }
    assert(list.push(w)[list.len() as int] == w);
    assert(list.push(w).contains(w));
    assert(first_index(list.push(w), w) == list.len());
    assert(list.push(w).remove(list.len() as int) == list);
}

/// Enabling removes exactly one occurrence of the word.
pub proof fn law_enable_removes_one(list: Seq<Seq<char>>, w: Seq<char>)
    requires
        list.contains(w),
    ensures
        remove_first(list, w).len() == list.len() - 1,
        remove_first(list, w).to_multiset() == list.to_multiset().remove(w),
{
    lemma_first_index(list, w);
    let i = first_index(list, w);
    broadcast use {vstd::seq_lib::group_seq_properties, vstd::multiset::group_multiset_properties};

    assert(list == list.subrange(0, i) + seq![w] + list.subrange(i + 1, list.len() as int));
    assert(list.remove(i) == list.subrange(0, i) + list.subrange(i + 1, list.len() as int));
    vstd::seq_lib::lemma_multiset_commutative(list.subrange(0, i), seq![w]);
    vstd::seq_lib::lemma_multiset_commutative(
        list.subrange(0, i) + seq![w],
        list.subrange(i + 1, list.len() as int),
    );
    vstd::seq_lib::lemma_multiset_commutative(
        list.subrange(0, i),
        list.subrange(i + 1, list.len() as int),
    );
}

/// What a `/disable` (`true`) or `/enable` (`false`) with the first
/// argument `arg` does to a chat's list, as `decide_disable` and
/// `decide_enable` state it: with `w` the lowercase of `arg`, a disable of a
/// command that may be disabled appends `w`, an enable of a listed `w`
/// removes its first occurrence, anything else leaves the list as it was.
pub open spec fn list_after(list: Seq<Seq<char>>, op: (bool, Seq<char>)) -> Seq<Seq<char>> {
    let (disable, arg) = op;
    let w = spec_to_lowercase(arg);
    if disable {
        if spec_disableable(w) {
            list.push(w)
        } else {
            list
        }
    } else if list.contains(w) {
        remove_first(list, w)
    } else {
        list
    }
}

/// The list after a run of `/disable` and `/enable` commands, in order.
pub open spec fn list_after_all(list: Seq<Seq<char>>, ops: Seq<(bool, Seq<char>)>) -> Seq<
    Seq<char>,
>
    decreases ops.len(),
{
    if ops.len() == 0 {
        list
    } else {
        list_after_all(list_after(list, ops[0]), ops.drop_first())
    }
}

/// Whether `op` is an `/enable` whose argument lowercases to `w`.
pub open spec fn enables(op: (bool, Seq<char>), w: Seq<char>) -> bool {
    !op.0 && spec_to_lowercase(op.1) == w
}

proof fn lemma_listed_stays_listed(list: Seq<Seq<char>>, op: (bool, Seq<char>), w: Seq<char>)
    requires
        list.contains(w),
        !enables(op, w),
    ensures
        list_after(list, op).contains(w),
{
    let j = choose|j: int| 0 <= j < list.len() && list[j] == w;
    let u = spec_to_lowercase(op.1);
    if op.0 {
        if spec_disableable(u) {
            assert(list.push(u)[j] == w);
        }
    } else if list.contains(u) {
        lemma_first_index(list, u);
        let i = first_index(list, u);
        assert(list[i] == u);
        assert(i != j);
        if j < i {
            assert(list.remove(i)[j] == w);
        } else {
            assert(list.remove(i)[j - 1] == w);
        }
    }
}

proof fn lemma_stays_listed_all(list: Seq<Seq<char>>, w: Seq<char>, ops: Seq<(bool, Seq<char>)>)
    requires
        list.contains(w),
        forall|i: int| 0 <= i < ops.len() ==> !enables(#[trigger] ops[i], w),
    ensures
        list_after_all(list, ops).contains(w),
    decreases ops.len(),
{
    if ops.len() > 0 {
        assert(!enables(ops[0], w));
        lemma_listed_stays_listed(list, ops[0], w);
        assert forall|i: int| 0 <= i < ops.drop_first().len() implies !enables(
            #[trigger] ops.drop_first()[i],
            w,
        ) by {
            assert(ops.drop_first()[i] == ops[i + 1]);
        }
        lemma_stays_listed_all(list_after(list, ops[0]), w, ops.drop_first());
    }
}

/// A disabled command stays disabled until it is enabled again: after
/// `/disable arg` has been stored, where `arg`, in whatever case it was
/// typed, lowercases to the lowercase name of the command `cmd`, every run
/// of `/disable` and `/enable` commands that holds no `/enable` of that
/// lowercase word leaves `cmd` refused.
pub proof fn law_disabled_until_enabled(
    list: Seq<Seq<char>>,
    arg: Seq<char>,
    ops: Seq<(bool, Seq<char>)>,
    cmd: Seq<char>,
)
    requires
        spec_disableable(spec_to_lowercase(arg)),
        spec_disableable(cmd),
        spec_to_lowercase(cmd) == spec_to_lowercase(arg),
        forall|i: int| 0 <= i < ops.len() ==> !enables(#[trigger] ops[i], spec_to_lowercase(arg)),
    ensures
        spec_command_disabled(list_after_all(list_after(list, (true, arg)), ops), cmd),
{
    let w = spec_to_lowercase(arg);
    assert(list.push(w)[list.len() as int] == w);
    lemma_stays_listed_all(list.push(w), w, ops);
}

} // verus!
