//! Function tables: their generation from classified commands, and what
//! loading one does.

use crate::command::CommandExt;
use crate::decl::{FnTable, FnTableView, Member, MemberView, Slot, SlotView};
use crate::error::GenError;
use crate::registry::{Command, Field};
use crate::seqs::{
    derefs, gather, lemma_gather_ok, lemma_gather_step, lemma_gather_stops, lemma_views_push,
    views,
};
use crate::types::FieldExt;
use vstd::prelude::*;

verus! {

/// The parameter that a field becomes: its identifier and its type expression.
pub open spec fn member_of(f: Field) -> Result<MemberView, GenError> {
    match f.spec_type_tokens() {
        Ok(ty) => Ok(MemberView { name: f.spec_param_ident(), ty }),
        Err(e) => Err(e),
    }
}

/// The parameters that a list of fields becomes, in order.
pub open spec fn members_of(fields: Seq<Field>) -> Result<Seq<MemberView>, GenError> {
    gather(fields.map_values(|f: Field| member_of(f)))
}

/// The slot that a command becomes: named by the command's identifier,
/// resolved by the command's name as the registry writes it, with the
/// command's parameters and return type mapped.
pub open spec fn slot_of(cmd: Command) -> Result<SlotView, GenError> {
    match cmd.spec_command_ident() {
        Err(e) => Err(e),
        Ok(name) => match members_of(cmd.param@) {
            Err(e) => Err(e),
            Ok(params) => match cmd.return_type.spec_type_tokens() {
                Err(e) => Err(e),
                Ok(return_type) => Ok(
                    SlotView { name, entry_point: cmd.name@, params, return_type },
                ),
            },
        },
    }
}

/// The table of the given name with one slot per command, in the order of the
/// commands.
pub open spec fn table_of(name: Seq<char>, cmds: Seq<Command>) -> Result<FnTableView, GenError> {
    match gather(cmds.map_values(|c: Command| slot_of(c))) {
        Ok(slots) => Ok(FnTableView { name, slots }),
        Err(e) => Err(e),
    }
}

/// The members are the fields, one for one and in the same order.
pub proof fn lemma_members_follow_fields(fields: Seq<Field>)
    requires
        members_of(fields) is Ok,
    ensures
        members_of(fields)->Ok_0.len() == fields.len(),
        forall|i: int|
            0 <= i < fields.len() ==> member_of(fields[i]) == Ok::<MemberView, GenError>(
                #[trigger] members_of(fields)->Ok_0[i],
            ),
{
    lemma_gather_ok(fields.map_values(|f: Field| member_of(f)));
}

/// The slots of a table are the commands, one for one and in the same order:
/// each slot is resolved by the name of its command.
pub proof fn lemma_slots_follow_commands(name: Seq<char>, cmds: Seq<Command>)
    requires
        table_of(name, cmds) is Ok,
    ensures
        table_of(name, cmds)->Ok_0.name == name,
        table_of(name, cmds)->Ok_0.slots.len() == cmds.len(),
        forall|i: int|
            0 <= i < cmds.len() ==> slot_of(cmds[i]) == Ok::<SlotView, GenError>(
                #[trigger] table_of(name, cmds)->Ok_0.slots[i],
            ),
        forall|i: int|
            0 <= i < cmds.len() ==> (#[trigger] table_of(name, cmds)->Ok_0.slots[i]).entry_point
                == cmds[i].name@,
{
    lemma_gather_ok(cmds.map_values(|c: Command| slot_of(c)));
}

/// Maps one field to a member.
pub fn generate_member(field: &Field) -> (r: Result<Member, GenError>)
    ensures
        match r {
            Ok(m) => member_of(*field) == Ok::<MemberView, GenError>(m@),
            Err(e) => member_of(*field) == Err::<MemberView, GenError>(e),
        },
{
    match field.type_tokens() {
        Ok(ty) => Ok(Member { name: field.param_ident(), ty }),
        Err(e) => Err(e),
    }
}

/// Maps a list of fields to members, in order; stops at the first field that
/// cannot be mapped.
pub fn generate_members(fields: &Vec<Field>) -> (r: Result<Vec<Member>, GenError>)
    ensures
        match r {
            Ok(m) => members_of(fields@) == Ok::<Seq<MemberView>, GenError>(views(m@)),
            Err(e) => members_of(fields@) == Err::<Seq<MemberView>, GenError>(e),
        },
{
    let ghost steps = fields@.map_values(|f: Field| member_of(f));
    let mut out: Vec<Member> = Vec::new();
    let mut i: usize = 0;
    assert(steps.take(0) == Seq::<Result<MemberView, GenError>>::empty());
    assert(views(out@) == Seq::<MemberView>::empty());
    while i < fields.len()
        invariant
            i <= fields.len(),
            steps == fields@.map_values(|f: Field| member_of(f)),
            gather(steps.take(i as int)) == Ok::<Seq<MemberView>, GenError>(views(out@)),
        decreases fields.len() - i,
    {
        proof {
            lemma_gather_step(steps, i as int);
        }
        match generate_member(&fields[i]) {
            Ok(m) => {
                proof {
                    lemma_views_push(out@, m);
                }
                out.push(m);
            },
            Err(e) => {
                proof {
                    lemma_gather_stops(steps, i as int + 1);
                }
                return Err(e);
            },
        }
        i += 1;
    }
    assert(steps.take(fields.len() as int) == steps);
    Ok(out)
}

/// Maps one command to a slot.
pub fn generate_slot(cmd: &Command) -> (r: Result<Slot, GenError>)
    ensures
        match r {
            Ok(s) => slot_of(*cmd) == Ok::<SlotView, GenError>(s@),
            Err(e) => slot_of(*cmd) == Err::<SlotView, GenError>(e),
        },
{
    let name = match cmd.command_ident() {
        Ok(n) => n,
        Err(e) => {
            return Err(e);
        },
    };
    let params = match generate_members(&cmd.param) {
        Ok(p) => p,
        Err(e) => {
            return Err(e);
        },
    };
    let return_type = match cmd.return_type.type_tokens() {
        Ok(t) => t,
        Err(e) => {
            return Err(e);
        },
    };
    Ok(Slot { name, entry_point: cmd.name.clone(), params, return_type })
}

/// Generates the function table of the given name for the given commands: one
/// slot per command, in the order given.  Fails with the error of the first
/// command that cannot be mapped.
pub fn generate_function_pointers(ident: String, commands: &Vec<&Command>) -> (r: Result<
    FnTable,
    GenError,
>)
    ensures
        match r {
            Ok(t) => table_of(ident@, derefs(commands@)) == Ok::<FnTableView, GenError>(t@),
            Err(e) => table_of(ident@, derefs(commands@)) == Err::<FnTableView, GenError>(
                e,
            ),
        },
{
    let ghost cmds = derefs(commands@);
    let ghost steps = cmds.map_values(|c: Command| slot_of(c));
    let mut slots: Vec<Slot> = Vec::new();
    let mut i: usize = 0;
    assert(steps.take(0) == Seq::<Result<SlotView, GenError>>::empty());
    assert(views(slots@) == Seq::<SlotView>::empty());
    while i < commands.len()
        invariant
            i <= commands.len(),
            cmds == derefs(commands@),
            steps == cmds.map_values(|c: Command| slot_of(c)),
            gather(steps.take(i as int)) == Ok::<Seq<SlotView>, GenError>(views(slots@)),
        decreases commands.len() - i,
    {
        proof {
            lemma_gather_step(steps, i as int);
        }
        match generate_slot(commands[i]) {
            Ok(s) => {
                proof {
                    lemma_views_push(slots@, s);
                }
                slots.push(s);
            },
            Err(e) => {
                proof {
                    lemma_gather_stops(steps, i as int + 1);
                }
                return Err(e);
            },
        }
        i += 1;
    }
    assert(steps.take(commands.len() as int) == steps);
    Ok(FnTable { name: ident, slots })
}

/// The names by which the slots of a table are resolved, in slot order.
pub open spec fn entry_points(t: FnTableView) -> Seq<Seq<char>> {
    t.slots.map_values(|s: SlotView| s.entry_point)
}

/// How many of the outcomes are "not found".
pub open spec fn failures(outcomes: Seq<Option<usize>>) -> nat
    decreases outcomes.len(),
{
    if outcomes.len() == 0 {
        0
    } else {
        failures(outcomes.drop_last()) + if outcomes.last() is None {
            1nat
        } else {
            0nat
        }
    }
}

/// The names whose outcome is "not found", in the order of the names.
pub open spec fn missing(names: Seq<Seq<char>>, outcomes: Seq<Option<usize>>) -> Seq<Seq<char>>
    decreases names.len(),
{
    if names.len() == 0 || outcomes.len() == 0 {
        Seq::empty()
    } else {
        let before = missing(names.drop_last(), outcomes.drop_last());
        if outcomes.last() is None {
            before.push(names.last())
        } else {
            before
        }
    }
}

/// The addresses of the outcomes, one per outcome.
pub open spec fn addresses(outcomes: Seq<Option<usize>>) -> Seq<usize> {
    outcomes.map_values(|o: Option<usize>| o->0)
}

/// What loading returns once every entry point has been tried: the addresses
/// of all the slots if each one was found, otherwise the names of all those
/// that were not.
pub open spec fn load_result(names: Seq<Seq<char>>, outcomes: Seq<Option<usize>>) -> Result<
    Seq<usize>,
    Seq<Seq<char>>,
> {
    if failures(outcomes) == 0 {
        Ok(addresses(outcomes))
    } else {
        Err(missing(names, outcomes))
    }
}

/// A table whose slots are all resolved: the address of each slot, in slot
/// order.
#[derive(Clone, Debug, PartialEq, Eq)]
pub struct LoadedTable {
    pub addresses: Vec<usize>,
}

/// The result of a load as plain values.
pub open spec fn loaded_view(r: Result<LoadedTable, Vec<String>>) -> Result<
    Seq<usize>,
    Seq<Seq<char>>,
> {
    match r {
        Ok(t) => Ok(t.addresses@),
        Err(names) => Err(views(names@)),
    }
}

impl FnTable {
    /// Completes a load from the outcome of resolving each slot's entry point,
    /// in slot order: the populated table if every slot was found, otherwise
    /// the entry points of all the slots that were not, in slot order.
    pub fn load_outcomes(&self, outcomes: &Vec<Option<usize>>) -> (r: Result<
        LoadedTable,
        Vec<String>,
    >)
        requires
            outcomes.len() == self.slots.len(),
        ensures
            loaded_view(r) == load_result(entry_points(self@), outcomes@),
    {
        let ghost names = entry_points(self@);
        let mut found: Vec<usize> = Vec::new();
        let mut not_found: Vec<String> = Vec::new();
        let mut i: usize = 0;
        assert(names.take(0) == Seq::<Seq<char>>::empty());
        assert(views(not_found@) == Seq::<Seq<char>>::empty());
        while i < outcomes.len()
            invariant
                i <= outcomes.len(),
                outcomes.len() == self.slots.len(),
                names == entry_points(self@),
                views(not_found@) == missing(names.take(i as int), outcomes@.take(i as int)),
                not_found.len() == failures(outcomes@.take(i as int)),
                not_found.len() == 0 ==> found@ == addresses(outcomes@.take(i as int)),
            decreases outcomes.len() - i,
        {
            proof {
                assert(names.take(i + 1).drop_last() == names.take(i as int));
                assert(outcomes@.take(i + 1).drop_last() == outcomes@.take(i as int));
                assert(names.take(i + 1).last() == self.slots@[i as int].entry_point@);
            }
            match outcomes[i] {
                Some(address) => {
                    found.push(address);
                    proof {
                        if not_found.len() == 0 {
                            assert(found@ =~= addresses(outcomes@.take(i + 1)));
                        }
                    }
                },
                None => {
                    let name = self.slots[i].entry_point.clone();
                    proof {
                        lemma_views_push(not_found@, name);
                    }
                    not_found.push(name);
                },
            }
            i += 1;
        }
        proof {
            assert(names.take(outcomes.len() as int) == names);
            assert(outcomes@.take(outcomes.len() as int) == outcomes@);
        }
        if not_found.len() == 0 {
            Ok(LoadedTable { addresses: found })
        } else {
            Err(not_found)
        }
    }

    /// Loads the table: asks `resolve` for every slot's entry point, in slot
    /// order and without stopping at a failure, then returns the populated
    /// table or the names of all the entry points that were not found.
    pub fn load<F: Fn(&str) -> Option<usize>>(&self, resolve: F) -> (r: Result<
        LoadedTable,
        Vec<String>,
    >)
        requires
            forall|name: &str| call_requires(resolve, (name,)),
        ensures
            exists|outcomes: Seq<Option<usize>>|
                {
                    &&& outcomes.len() == self.slots.len()
                    &&& forall|i: int|
                        0 <= i < outcomes.len() ==> resolved_as(
                            resolve,
                            self.slots@[i].entry_point@,
                            #[trigger] outcomes[i],
                        )
                    &&& loaded_view(r) == load_result(entry_points(self@), outcomes)
                },
    {
        let mut outcomes: Vec<Option<usize>> = Vec::new();
        let mut i: usize = 0;
        while i < self.slots.len()
            invariant
                i <= self.slots.len(),
                outcomes.len() == i,
                forall|name: &str| call_requires(resolve, (name,)),
                forall|k: int|
                    0 <= k < i ==> resolved_as(
                        resolve,
                        self.slots@[k].entry_point@,
                        #[trigger] outcomes@[k],
                    ),
            decreases self.slots.len() - i,
        {
            let name = self.slots[i].entry_point.as_str();
            let outcome = resolve(name);
            outcomes.push(outcome);
            i += 1;
        }
        let r = self.load_outcomes(&outcomes);
        assert(loaded_view(r) == load_result(entry_points(self@), outcomes@));
        r
    }
}

/// `outcome` is something that `resolve` can return for the entry point
/// `name`.
pub open spec fn resolved_as<F: Fn(&str) -> Option<usize>>(
    resolve: F,
    name: Seq<char>,
    outcome: Option<usize>,
) -> bool {
    exists|s: &str| s@ == name && call_ensures(resolve, (s,), outcome)
}

/// The number of names reported as missing is the number of entry points that
/// were not found.
pub proof fn lemma_missing_count(names: Seq<Seq<char>>, outcomes: Seq<Option<usize>>)
    requires
        names.len() == outcomes.len(),
    ensures
        missing(names, outcomes).len() == failures(outcomes),
    decreases names.len(),
{
    if names.len() > 0 {
        lemma_missing_count(names.drop_last(), outcomes.drop_last());
    }
}

/// The names reported as missing are exactly the entry points that were not
/// found, in slot order: the entry point of a failed slot stands at the
/// position that counts the failed slots before it.
pub proof fn lemma_missing_in_order(names: Seq<Seq<char>>, outcomes: Seq<Option<usize>>, i: int)
    requires
        names.len() == outcomes.len(),
        0 <= i < outcomes.len(),
        outcomes[i] is None,
    ensures
        failures(outcomes.take(i)) < missing(names, outcomes).len(),
        missing(names, outcomes)[failures(outcomes.take(i)) as int] == names[i],
    decreases names.len(),
{
    let n = names.len() - 1;
    lemma_missing_count(names.drop_last(), outcomes.drop_last());
    if i == n {
        assert(outcomes.take(i) == outcomes.drop_last());
    } else {
        lemma_missing_in_order(names.drop_last(), outcomes.drop_last(), i);
        assert(outcomes.drop_last().take(i) == outcomes.take(i));
    }
}

/// Loading succeeds exactly when every entry point was found, and then gives
/// one address per slot: it never returns a table with a slot left out.
pub proof fn lemma_load_all_or_nothing(names: Seq<Seq<char>>, outcomes: Seq<Option<usize>>)
    requires
        names.len() == outcomes.len(),
    ensures
        load_result(names, outcomes) is Ok <==> forall|i: int|
            0 <= i < outcomes.len() ==> outcomes[i] is Some,
        load_result(names, outcomes) matches Ok(a) ==> a.len() == outcomes.len() && forall|i: int|
            0 <= i < outcomes.len() ==> outcomes[i] == Some(#[trigger] a[i]),
        load_result(names, outcomes) matches Err(m) ==> m.len() == failures(outcomes) && m.len()
            > 0,
{
    lemma_missing_count(names, outcomes);
    lemma_failures_zero(outcomes);
}

/// No outcome is "not found" exactly when the count of failures is zero.
pub proof fn lemma_failures_zero(outcomes: Seq<Option<usize>>)
    ensures
        failures(outcomes) == 0 <==> forall|i: int|
            0 <= i < outcomes.len() ==> outcomes[i] is Some,
    decreases outcomes.len(),
{
    if outcomes.len() > 0 {
        let rest = outcomes.drop_last();
        lemma_failures_zero(rest);
        assert(forall|i: int| 0 <= i < rest.len() ==> rest[i] == outcomes[i]);
        if failures(outcomes) == 0 {
            assert forall|i: int| 0 <= i < outcomes.len() implies outcomes[i] is Some by {
                if i < rest.len() {
                    assert(rest[i] is Some);
                }
            }
        } else {
            if outcomes.last() is Some {
                let k = choose|k: int| 0 <= k < rest.len() && !(rest[k] is Some);
                assert(outcomes[k] is None);
            }
        }
    }
}

} // verus!
