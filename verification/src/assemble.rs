//! Features, extensions and top-level constants: which commands a bundle
//! requires, how they are split by level, and the function tables and
//! constants that come of it.

use crate::case::{camel_case, to_camel_case};
use crate::command::{
    is_device_level, lookup, version_text, CommandExt, CommandMap, FeatureExt,
};
use crate::constant::Constant;
use crate::decl::{ConstDecl, ConstDeclView, CoreSpec, CoreSpecView, FnTable, FnTableView};
use crate::error::GenError;
use crate::registry::{Command, Extension, Feature, Reference, RegistryConstant, Requirement};
use crate::seqs::{derefs, lemma_derefs_push};
use crate::table::{generate_function_pointers, table_of};
use crate::text::{chars_of, concat_strings, string_of_range};
use vstd::prelude::*;
use vstd::string::StringExecFns;

verus! {

/// The names of the commands among the given references, in order.
pub open spec fn referenced(refs: Seq<Reference>) -> Seq<Seq<char>>
    decreases refs.len(),
{
    if refs.len() == 0 {
        Seq::empty()
    } else {
        match refs.last() {
            Reference::CommandReference(name) => referenced(refs.drop_last()).push(name@),
            _ => referenced(refs.drop_last()),
        }
    }
}

/// The names of the commands that a bundle requires: those of all its
/// `Require` elements, in order.
pub open spec fn required_names(elements: Seq<Requirement>) -> Seq<Seq<char>>
    decreases elements.len(),
{
    if elements.len() == 0 {
        Seq::empty()
    } else {
        required_names(elements.drop_last()) + match elements.last() {
            Requirement::Require(refs) => referenced(refs@),
            _ => Seq::empty(),
        }
    }
}

/// The commands that the names stand for in the index, in the order of the
/// names.  A name that the index does not know is dropped.
pub open spec fn resolved(names: Seq<Seq<char>>, index: Map<Seq<char>, Command>) -> Seq<Command>
    decreases names.len(),
{
    if names.len() == 0 {
        Seq::empty()
    } else {
        match lookup(index, names.last()) {
            Some(c) => resolved(names.drop_last(), index).push(c),
            None => resolved(names.drop_last(), index),
        }
    }
}

/// The commands of one level among the given ones, in order.
pub open spec fn bucket(cmds: Seq<Command>, device: bool) -> Seq<Command>
    decreases cmds.len(),
{
    if cmds.len() == 0 {
        Seq::empty()
    } else if is_device_level(cmds.last()) == device {
        bucket(cmds.drop_last(), device).push(cmds.last())
    } else {
        bucket(cmds.drop_last(), device)
    }
}

/// The table of the given name for the given commands; none where there is no
/// command.
pub open spec fn table_if_any(name: Seq<char>, cmds: Seq<Command>) -> Result<
    Option<FnTableView>,
    GenError,
> {
    if cmds.len() == 0 {
        Ok(None)
    } else {
        match table_of(name, cmds) {
            Ok(t) => Ok(Some(t)),
            Err(e) => Err(e),
        }
    }
}

/// The name of an extension's table: the extension's name in camel case,
/// followed by `Fn`, without the first two characters.
pub open spec fn extension_table_name(name: Seq<char>) -> Seq<char> {
    (camel_case(name) + "Fn"@).skip(2)
}

/// The function table of an extension: one slot for each required command
/// that the index knows, of either level; none where there is no such
/// command.
pub open spec fn extension_of(ext: Extension, index: Map<Seq<char>, Command>) -> Result<
    Option<FnTableView>,
    GenError,
> {
    table_if_any(
        extension_table_name(ext.name@),
        resolved(required_names(ext.elements@), index),
    )
}

/// The function tables of a core revision: `InstanceFnV` and `DeviceFnV`,
/// each followed by the version, for the required commands of each level that
/// the index knows.
pub open spec fn core_spec_of(feature: Feature, index: Map<Seq<char>, Command>) -> Result<
    CoreSpecView,
    GenError,
> {
    match version_text(feature.version@) {
        Err(e) => Err(e),
        Ok(version) => {
            let cmds = resolved(required_names(feature.elements@), index);
            match table_if_any("InstanceFnV"@ + version, bucket(cmds, false)) {
                Err(e) => Err(e),
                Ok(instance) => match table_if_any("DeviceFnV"@ + version, bucket(cmds, true)) {
                    Err(e) => Err(e),
                    Ok(device) => Ok(CoreSpecView { instance, device }),
                },
            }
        },
    }
}

/// The binding that a top-level constant becomes: its name as it is, its
/// scalar type and the text of its value.
pub open spec fn constant_of(c: RegistryConstant) -> Result<ConstDeclView, GenError> {
    match Constant::spec_from_constant(c) {
        Err(e) => Err(e),
        Ok(form) => match form.tokens() {
            Err(e) => Err(e),
            Ok(value) => match form.ty() {
                Err(e) => Err(e),
                Ok(ty) => Ok(ConstDeclView { name: c.name@, ty, value }),
            },
        },
    }
}

/// Collects the commands that a bundle requires and the index knows.
pub fn required_commands<'a>(elements: &Vec<Requirement>, commands: &CommandMap<'a>) -> (r: Vec<
    &'a Command,
>)
    ensures
        derefs(r@) == resolved(required_names(elements@), commands@),
{
    let mut out: Vec<&'a Command> = Vec::new();
    let mut i: usize = 0;
    proof {
        assert(elements@.take(0) == Seq::<Requirement>::empty());
        assert(derefs(out@) == Seq::<Command>::empty());
    }
    while i < elements.len()
        invariant
            i <= elements.len(),
            derefs(out@) == resolved(required_names(elements@.take(i as int)), commands@),
        decreases elements.len() - i,
    {
        let ghost before = required_names(elements@.take(i as int));
        proof {
            assert(elements@.take(i + 1).drop_last() == elements@.take(i as int));
        }
        match &elements[i] {
            Requirement::Require(refs) => {
                let mut k: usize = 0;
                proof {
                    assert(refs@.take(0) == Seq::<Reference>::empty());
                    assert(before + Seq::<Seq<char>>::empty() == before);
                }
                while k < refs.len()
                    invariant
                        k <= refs.len(),
                        derefs(out@) == resolved(
                            before + referenced(refs@.take(k as int)),
                            commands@,
                        ),
                    decreases refs.len() - k,
                {
                    let ghost seen = referenced(refs@.take(k as int));
                    proof {
                        assert(refs@.take(k + 1).drop_last() == refs@.take(k as int));
                    }
                    match &refs[k] {
                        Reference::CommandReference(name) => {
                            proof {
                                assert((before + seen.push(name@)).drop_last() == before + seen);
                            }
                            match commands.get(name.as_str()) {
                                Some(cmd) => {
                                    proof {
                                        lemma_derefs_push(out@, cmd);
                                    }
                                    out.push(cmd);
                                },
                                None => {},
                            }
                        },
                        _ => {},
                    }
                    k += 1;
                }
                proof {
                    assert(refs@.take(refs.len() as int) == refs@);
                }
            },
            _ => {
                proof {
                    assert(before + Seq::<Seq<char>>::empty() == before);
                }
            },
        }
        i += 1;
    }
    proof {
        assert(elements@.take(elements.len() as int) == elements@);
    }
    out
}

/// Splits commands by level, keeping their order: the instance-level ones
/// first in the result, the device-level ones second.
pub fn partition_commands<'a>(cmds: &Vec<&'a Command>) -> (r: (Vec<&'a Command>, Vec<&'a Command>))
    ensures
        derefs(r.0@) == bucket(derefs(cmds@), false),
        derefs(r.1@) == bucket(derefs(cmds@), true),
{
    let mut instance: Vec<&'a Command> = Vec::new();
    let mut device: Vec<&'a Command> = Vec::new();
    let ghost all = derefs(cmds@);
    let mut i: usize = 0;
    proof {
        assert(all.take(0) == Seq::<Command>::empty());
        assert(derefs(instance@) == Seq::<Command>::empty());
        assert(derefs(device@) == Seq::<Command>::empty());
    }
    while i < cmds.len()
        invariant
            i <= cmds.len(),
            all == derefs(cmds@),
            derefs(instance@) == bucket(all.take(i as int), false),
            derefs(device@) == bucket(all.take(i as int), true),
        decreases cmds.len() - i,
    {
        let cmd: &'a Command = cmds[i];
        proof {
            assert(all.take(i + 1).drop_last() == all.take(i as int));
            assert(all.take(i + 1).last() == *cmd);
        }
        if cmd.is_device_command() {
            proof {
                lemma_derefs_push(device@, cmd);
            }
            device.push(cmd);
        } else {
            proof {
                lemma_derefs_push(instance@, cmd);
            }
            instance.push(cmd);
        }
        i += 1;
    }
    proof {
        assert(all.take(cmds.len() as int) == all);
    }
    (instance, device)
}

fn table_for(name: String, cmds: &Vec<&Command>) -> (r: Result<Option<FnTable>, GenError>)
    ensures
        match r {
            Ok(Some(t)) => table_if_any(name@, derefs(cmds@)) == Ok::<
                Option<FnTableView>,
                GenError,
            >(Some(t@)),
            Ok(None) => table_if_any(name@, derefs(cmds@)) == Ok::<
                Option<FnTableView>,
                GenError,
            >(None),
            Err(e) => table_if_any(name@, derefs(cmds@)) == Err::<
                Option<FnTableView>,
                GenError,
            >(e),
        },
{
    if cmds.len() == 0 {
        return Ok(None);
    }
    match generate_function_pointers(name, cmds) {
        Ok(t) => Ok(Some(t)),
        Err(e) => Err(e),
    }
}

/// Generates the function table of an extension.
pub fn generate_extension(extension: &Extension, commands: &CommandMap) -> (r: Result<
    Option<FnTable>,
    GenError,
>)
    ensures
        match r {
            Ok(Some(t)) => extension_of(*extension, commands@) == Ok::<
                Option<FnTableView>,
                GenError,
            >(Some(t@)),
            Ok(None) => extension_of(*extension, commands@) == Ok::<Option<FnTableView>, GenError>(
                None,
            ),
            Err(e) => extension_of(*extension, commands@) == Err::<Option<FnTableView>, GenError>(
                e,
            ),
        },
{
    let extension_commands = required_commands(&extension.elements, commands);
    if extension_commands.len() == 0 {
        return Ok(None);
    }
    let camel = to_camel_case(extension.name.as_str());
    let mut name = camel;
    name.push('F');
    name.push('n');
    proof {
        reveal_strlit("Fn");
        assert(name@ == camel_case(extension.name@) + "Fn"@);
    }
    let chars = chars_of(name.as_str());
    let ident = string_of_range(&chars, 2, chars.len());
    proof {
        assert(chars@.subrange(2, chars.len() as int) == chars@.skip(2));
    }
    table_for(ident, &extension_commands)
}

/// Generates the function tables of a core revision.
pub fn generate_core_spec(feature: &Feature, commands: &CommandMap) -> (r: Result<
    CoreSpec,
    GenError,
>)
    ensures
        match r {
            Ok(s) => core_spec_of(*feature, commands@) == Ok::<CoreSpecView, GenError>(s@),
            Err(e) => core_spec_of(*feature, commands@) == Err::<CoreSpecView, GenError>(e),
        },
{
    let version = match feature.version_string() {
        Ok(v) => v,
        Err(e) => {
            return Err(e);
        },
    };
    let required = required_commands(&feature.elements, commands);
    let (instance_commands, device_commands) = partition_commands(&required);
    let instance_name = concat_strings(String::from_str("InstanceFnV"), &version);
    let instance = match table_for(instance_name, &instance_commands) {
        Ok(t) => t,
        Err(e) => {
            return Err(e);
        },
    };
    let device_name = concat_strings(String::from_str("DeviceFnV"), &version);
    let device = match table_for(device_name, &device_commands) {
        Ok(t) => t,
        Err(e) => {
            return Err(e);
        },
    };
    Ok(CoreSpec { instance, device })
}

/// Generates the binding of a top-level constant.
pub fn generate_constant(constant: &RegistryConstant) -> (r: Result<ConstDecl, GenError>)
    ensures
        match r {
            Ok(d) => constant_of(*constant) == Ok::<ConstDeclView, GenError>(d@),
            Err(e) => constant_of(*constant) == Err::<ConstDeclView, GenError>(e),
        },
{
    let c = match Constant::from_constant(constant) {
        Ok(c) => c,
        Err(e) => {
            return Err(e);
        },
    };
    let value = match c.to_tokens() {
        Ok(v) => v,
        Err(e) => {
            return Err(e);
        },
    };
    let ty = match c.ty() {
        Ok(t) => t,
        Err(e) => {
            return Err(e);
        },
    };
    Ok(ConstDecl { name: constant.name.clone(), ty, value })
}

/// Every command is in exactly one of the two buckets, and each bucket holds
/// only commands of its level.
pub proof fn lemma_buckets_partition(cmds: Seq<Command>)
    ensures
        bucket(cmds, true).len() + bucket(cmds, false).len() == cmds.len(),
        forall|i: int|
            0 <= i < bucket(cmds, true).len() ==> is_device_level(#[trigger] bucket(cmds, true)[i]),
        forall|i: int|
            0 <= i < bucket(cmds, false).len() ==> !is_device_level(
                #[trigger] bucket(cmds, false)[i],
            ),
    decreases cmds.len(),
{
    if cmds.len() > 0 {
        lemma_buckets_partition(cmds.drop_last());
    }
}

} // verus!
