//! Commands and features: the classification of a command, its identifier, the
//! text of a feature's version, and the index of commands by name.

use crate::case::{snake_case, to_snake_case};
use crate::error::GenError;
use crate::registry::{Command, Feature, Registry, RegistryElement};
use crate::text::{chars_of, find_char, first_from, same_text, string_of_range};
use vstd::hash_map::StringHashMap;
use vstd::prelude::*;

verus! {

/// Whether a base type is one of the three that mark a device-level command.
pub open spec fn is_device_type(basetype: Seq<char>) -> bool {
    basetype == "VkDevice"@ || basetype == "VkCommandBuffer"@ || basetype == "VkQueue"@
}

/// A command is device-level exactly when it has a first parameter and that
/// parameter's base type is `VkDevice`, `VkCommandBuffer` or `VkQueue`;
/// otherwise it is instance-level.
pub open spec fn is_device_level(cmd: Command) -> bool {
    cmd.param.len() > 0 && is_device_type(cmd.param[0].basetype@)
}

/// A command without parameters is instance-level.
pub proof fn lemma_no_parameter_is_instance_level(cmd: Command)
    requires
        cmd.param.len() == 0,
    ensures
        !is_device_level(cmd),
{
}

/// A command whose first parameter has the base type `VkDevice`,
/// `VkCommandBuffer` or `VkQueue` is device-level.
pub proof fn lemma_device_parameter_is_device_level(cmd: Command)
    requires
        cmd.param.len() > 0,
        cmd.param[0].basetype@ == "VkDevice"@ || cmd.param[0].basetype@ == "VkCommandBuffer"@
            || cmd.param[0].basetype@ == "VkQueue"@,
    ensures
        is_device_level(cmd),
{
}

/// The identifier of a command: its name without the two-character prefix, in
/// snake case.
pub open spec fn command_name(name: Seq<char>) -> Result<Seq<char>, GenError> {
    if name.len() < 2 {
        Err(GenError::ShortName)
    } else {
        Ok(snake_case(name.skip(2)))
    }
}

/// What the generators need of a command: its level and its identifier.
pub trait CommandExt {
    spec fn spec_is_device_command(&self) -> bool;

    spec fn spec_command_ident(&self) -> Result<Seq<char>, GenError>;

    /// Whether the command is device-level, which its first parameter decides.
    fn is_device_command(&self) -> (r: bool)
        ensures
            r == self.spec_is_device_command(),
    ;

    /// The identifier in snake case and without the `vk` prefix.
    fn command_ident(&self) -> (r: Result<String, GenError>)
        ensures
            match r {
                Ok(t) => self.spec_command_ident() == Ok::<Seq<char>, GenError>(t@),
                Err(e) => self.spec_command_ident() == Err::<Seq<char>, GenError>(e),
            },
    ;
}

impl CommandExt for Command {
    open spec fn spec_is_device_command(&self) -> bool {
        is_device_level(*self)
    }

    open spec fn spec_command_ident(&self) -> Result<Seq<char>, GenError> {
        command_name(self.name@)
    }

    fn is_device_command(&self) -> (r: bool) {
        if self.param.len() == 0 {
            return false;
        }
        let basetype = self.param[0].basetype.as_str();
        same_text(basetype, "VkDevice") || same_text(basetype, "VkCommandBuffer") || same_text(
            basetype,
            "VkQueue",
        )
    }

    fn command_ident(&self) -> (r: Result<String, GenError>) {
        let chars = chars_of(self.name.as_str());
        if chars.len() < 2 {
            return Err(GenError::ShortName);
        }
        let stem = string_of_range(&chars, 2, chars.len());
        Ok(to_snake_case(stem.as_str()))
    }
}

/// A version text in an identifier: every `.` becomes `_`.
pub open spec fn underscored(s: Seq<char>) -> Seq<char> {
    Seq::new(
        s.len(),
        |i: int|
            if s[i] == '.' {
                '_'
            } else {
                s[i]
            },
    )
}

/// The version as it appears in the names of function tables: the version
/// text up to and including its first `0`, with `_` for `.`.
pub open spec fn version_text(version: Seq<char>) -> Result<Seq<char>, GenError> {
    let cut = first_from(version, '0', 0);
    if cut < version.len() {
        Ok(underscored(version.take(cut + 1)))
    } else {
        Err(GenError::Version)
    }
}

/// What the generators need of a core revision: the text of its version.
pub trait FeatureExt {
    spec fn spec_version_string(&self) -> Result<Seq<char>, GenError>;

    fn version_string(&self) -> (r: Result<String, GenError>)
        ensures
            match r {
                Ok(t) => self.spec_version_string() == Ok::<Seq<char>, GenError>(t@),
                Err(e) => self.spec_version_string() == Err::<Seq<char>, GenError>(e),
            },
    ;
}

impl FeatureExt for Feature {
    open spec fn spec_version_string(&self) -> Result<Seq<char>, GenError> {
        version_text(self.version@)
    }

    fn version_string(&self) -> (r: Result<String, GenError>) {
        let chars = chars_of(self.version.as_str());
        let cut = find_char(&chars, '0');
        if cut >= chars.len() {
            return Err(GenError::Version);
        }
        let mut out = String::new();
        let mut i: usize = 0;
        while i <= cut
            invariant
                i <= cut + 1,
                cut < chars.len(),
                out@ == underscored(chars@.take(i as int)),
            decreases cut + 1 - i,
        {
            let c = chars[i];
            out.push(
                if c == '.' {
                    '_'
                } else {
                    c
                },
            );
            i += 1;
        }
        Ok(out)
    }
}

/// The commands of all the `Commands` nodes among the first `n` elements of a
/// registry, in order.
pub open spec fn commands_of(elements: Seq<RegistryElement>, n: int) -> Seq<Command>
    decreases n,
{
    if n <= 0 {
        Seq::empty()
    } else {
        let before = commands_of(elements, n - 1);
        match elements[n - 1] {
            RegistryElement::Commands(cmds) => before + cmds@,
            _ => before,
        }
    }
}

/// The index of a list of commands: each command under its name.  A later
/// command replaces an earlier one of the same name.
pub open spec fn index_of(commands: Seq<Command>) -> Map<Seq<char>, Command>
    decreases commands.len(),
{
    if commands.len() == 0 {
        Map::empty()
    } else {
        index_of(commands.drop_last()).insert(commands.last().name@, commands.last())
    }
}

/// The command that a name stands for in an index, if it stands for one.
pub open spec fn lookup(index: Map<Seq<char>, Command>, name: Seq<char>) -> Option<Command> {
    if index.contains_key(name) {
        Some(index[name])
    } else {
        None
    }
}

/// The commands of a registry, found by name.
pub struct CommandMap<'a> {
    map: StringHashMap<&'a Command>,
}

impl<'a> View for CommandMap<'a> {
    type V = Map<Seq<char>, Command>;

    closed spec fn view(&self) -> Map<Seq<char>, Command> {
        self.map@.map_values(|c: &Command| *c)
    }
}

impl<'a> CommandMap<'a> {
    /// An index without commands.
    pub fn new() -> (r: Self)
        ensures
            r@ == Map::<Seq<char>, Command>::empty(),
    {
        let r = CommandMap { map: StringHashMap::new() };
        assert(r@ =~= Map::<Seq<char>, Command>::empty());
        r
    }

    /// Adds a command under its name; it replaces any earlier command of the
    /// same name.
    pub fn insert(&mut self, command: &'a Command)
        ensures
            final(self)@ == old(self)@.insert(command.name@, *command),
    {
        let ghost before = self.map@;
        self.map.insert(command.name.clone(), command);
        assert(self@ =~= before.map_values(|c: &Command| *c).insert(command.name@, *command));
    }

    /// The index built from every command of a registry.
    pub fn from_registry(registry: &'a Registry) -> (r: Self)
        ensures
            r@ == index_of(commands_of(registry.elements@, registry.elements.len() as int)),
    {
        let mut index = CommandMap::new();
        let mut i: usize = 0;
        while i < registry.elements.len()
            invariant
                i <= registry.elements.len(),
                index@ == index_of(commands_of(registry.elements@, i as int)),
            decreases registry.elements.len() - i,
        {
            match &registry.elements[i] {
                RegistryElement::Commands(cmds) => {
                    let ghost before = commands_of(registry.elements@, i as int);
                    let mut k: usize = 0;
                    assert(before + cmds@.take(0) == before);
                    while k < cmds.len()
                        invariant
                            k <= cmds.len(),
                            index@ == index_of(before + cmds@.take(k as int)),
                        decreases cmds.len() - k,
                    {
                        proof {
                            let next = before + cmds@.take(k + 1);
                            assert(next.drop_last() == before + cmds@.take(k as int));
                            assert(next.last() == cmds@[k as int]);
                        }
                        index.insert(&cmds[k]);
                        k += 1;
                    }
                    assert(cmds@.take(cmds.len() as int) == cmds@);
                },
                _ => {},
            }
            i += 1;
        }
        index
    }

    /// The command of the given name, if the index holds one.
    pub fn get(&self, name: &str) -> (r: Option<&'a Command>)
        ensures
            match r {
                Some(c) => lookup(self@, name@) == Some(*c),
                None => lookup(self@, name@) is None,
            },
    {
        match self.map.get(name) {
            Some(c) => Some(*c),
            None => None,
        }
    }
}

/// A name is in the index of a list of commands exactly when a command of the
/// list has it, and then it stands for the last command of that name.
pub proof fn lemma_index_holds_last(commands: Seq<Command>, name: Seq<char>)
    ensures
        match lookup(index_of(commands), name) {
            Some(c) => exists|i: int|
                0 <= i < commands.len() && commands[i] == c && c.name@ == name && forall|j: int|
                    i < j < commands.len() ==> commands[j].name@ != name,
            None => forall|j: int| 0 <= j < commands.len() ==> commands[j].name@ != name,
        },
    decreases commands.len(),
{
    if commands.len() > 0 {
        let rest = commands.drop_last();
        lemma_index_holds_last(rest, name);
        assert(forall|j: int| 0 <= j < rest.len() ==> rest[j] == commands[j]);
        if commands.last().name@ == name {
            let i = commands.len() - 1;
            assert(commands[i] == commands.last());
        } else {
            match lookup(index_of(rest), name) {
                Some(c) => {
                    let i = choose|i: int|
                        0 <= i < rest.len() && rest[i] == c && c.name@ == name && forall|j: int|
                            i < j < rest.len() ==> rest[j].name@ != name;
                    assert(commands[i] == c);
                    assert forall|j: int| i < j < commands.len() implies commands[j].name@
                        != name by {
                        if j < rest.len() {
                            assert(rest[j].name@ != name);
                        }
                    }
                },
                None => {
                    assert forall|j: int| 0 <= j < commands.len() implies commands[j].name@
                        != name by {
                        if j < rest.len() {
                            assert(rest[j].name@ != name);
                        }
                    }
                },
            }
        }
    }
}

} // verus!
