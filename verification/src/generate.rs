//! The generation run: validate the requested version, profile and
//! extension names against the registry, assemble the effective command and
//! enum lists, and emit the binding unit in its fixed section order.

use vstd::prelude::*;
use crate::emit::spec_header;
use crate::emit::spec_types_section;
use crate::emit::spec_enums_section;
use crate::emit::spec_struct_section;
use crate::emit::spec_impl_section;
use crate::emit::spec_fns_section;
use crate::emit::write_header;
use crate::emit::write_type_aliases;
use crate::emit::write_enums;
use crate::emit::write_struct;
use crate::emit::write_impl;
use crate::emit::write_fns;
use crate::registry::Api;
use crate::registry::Command;
use crate::registry::CommandModel;
use crate::registry::EnumEntry;
use crate::registry::EnumEntryModel;
use crate::registry::Param;
use crate::registry::Registry;
use crate::registry::RegistryModel;
use crate::registry::lookup_extension;
use crate::registry::spec_lookup_extension;
use crate::registry::spec_supported;
use crate::registry::supported;

verus! {

/// Why a generation run was refused.
#[derive(Clone, Copy, PartialEq, Eq, Structural, Debug)]
pub enum GenError {
    /// The requested version and profile match no feature level of the
    /// registry.
    UnknownApi,
    /// A requested extension name matches no extension of the registry.
    UnknownExtension,
}

/// Every requested extension name matches an extension of the registry.
pub open spec fn spec_all_extensions_known(reg: RegistryModel, names: Seq<Seq<char>>) -> bool {
    forall|i: int|
        0 <= i < names.len() ==> spec_lookup_extension(reg.extensions, names[i]) is Some
}

/// The commands the requested extensions add, in request order.
pub open spec fn spec_extension_cmds(reg: RegistryModel, names: Seq<Seq<char>>) -> Seq<
    CommandModel,
>
    decreases names.len(),
{
    if names.len() == 0 {
        Seq::empty()
    } else {
        spec_extension_cmds(reg, names.drop_last()) + (match spec_lookup_extension(
            reg.extensions,
            names.last(),
        ) {
            Some(x) => x.cmds,
            None => Seq::empty(),
        })
    }
}

/// The enum entries the requested extensions add, in request order.
pub open spec fn spec_extension_enums(reg: RegistryModel, names: Seq<Seq<char>>) -> Seq<
    EnumEntryModel,
>
    decreases names.len(),
{
    if names.len() == 0 {
        Seq::empty()
    } else {
        spec_extension_enums(reg, names.drop_last()) + (match spec_lookup_extension(
            reg.extensions,
            names.last(),
        ) {
            Some(x) => x.enums,
            None => Seq::empty(),
        })
    }
}

/// The commands one generation run emits: the core feature set followed by
/// the requested extensions' additions.
pub open spec fn spec_effective_cmds(reg: RegistryModel, names: Seq<Seq<char>>) -> Seq<
    CommandModel,
> {
    reg.cmds + spec_extension_cmds(reg, names)
}

/// The enum entries one generation run emits.
pub open spec fn spec_effective_enums(reg: RegistryModel, names: Seq<Seq<char>>) -> Seq<
    EnumEntryModel,
> {
    reg.enums + spec_extension_enums(reg, names)
}

/// The full emitted binding unit, in its fixed section order: import block,
/// type aliases, enum constants, dispatch struct, impl block, extern block.
pub open spec fn spec_binding_unit(reg: RegistryModel, api: Api, names: Seq<Seq<char>>) -> Seq<
    char,
> {
    spec_header() + spec_types_section(reg.aliases) + spec_enums_section(
        spec_effective_enums(reg, names),
    ) + spec_struct_section(api) + spec_impl_section(api, spec_effective_cmds(reg, names))
        + spec_fns_section(api, spec_effective_cmds(reg, names))
}

/// Copies a parameter.
fn clone_param(p: &Param) -> (r: Param)
    ensures
        r@ == p@,
{
    Param { name: p.name.clone(), ty: p.ty.clone() }
}

/// Copies a command.
fn clone_command(c: &Command) -> (r: Command)
    ensures
        r@ == c@,
{
    let mut params: Vec<Param> = Vec::new();
    let n: usize = c.params.len();
    let mut i: usize = 0;
    while i < n
        invariant
            n == c.params.len(),
            0 <= i <= n,
            params@.map_values(|p: Param| p@) == c.params@.map_values(|p: Param| p@).take(
                i as int,
            ),
        decreases n - i,
    {
        let ghost pms = c.params@.map_values(|p: Param| p@);
        let r = clone_param(&c.params[i]);
        let ghost prev = params@;
        let ghost rg = r;
        params.push(r);
        proof {
            prev.lemma_push_map_commute(|p: Param| p@, rg);
            assert(pms.take(i as int + 1) =~= pms.take(i as int).push(pms[i as int]));
            assert(params@.map_values(|p: Param| p@) == pms.take(i as int + 1));
        }
        i = i + 1;
    }
    proof {
        assert(c.params@.map_values(|p: Param| p@).take(n as int) =~= c.params@.map_values(
            |p: Param| p@,
        ));
    }
    Command { name: c.name.clone(), params, ret: c.ret.clone() }
}

/// Copies an enum entry.
fn clone_enum_entry(e: &EnumEntry) -> (r: EnumEntry)
    ensures
        r@ == e@,
{
    EnumEntry { name: e.name.clone(), ty: e.ty.clone(), value: e.value }
}

/// Appends copies of the given commands.
fn append_cloned_cmds(dst: &mut Vec<Command>, src: &Vec<Command>)
    ensures
        final(dst)@.map_values(|c: Command| c@) == old(dst)@.map_values(|c: Command| c@)
            + src@.map_values(|c: Command| c@),
{
    let ghost base = dst@.map_values(|c: Command| c@);
    let ghost sms = src@.map_values(|c: Command| c@);
    let n: usize = src.len();
    let mut i: usize = 0;
    while i < n
        invariant
            n == src.len(),
            sms == src@.map_values(|c: Command| c@),
            0 <= i <= n,
            dst@.map_values(|c: Command| c@) == base + sms.take(i as int),
        decreases n - i,
    {
        let r = clone_command(&src[i]);
        let ghost prev = dst@;
        let ghost rg = r;
        dst.push(r);
        proof {
            prev.lemma_push_map_commute(|c: Command| c@, rg);
            assert(sms.take(i as int + 1) =~= sms.take(i as int).push(sms[i as int]));
            assert(base + sms.take(i as int + 1) =~= (base + sms.take(i as int)).push(
                sms[i as int],
            ));
            assert(dst@.map_values(|c: Command| c@) == base + sms.take(i as int + 1));
        }
        i = i + 1;
    }
    proof {
        assert(base + sms.take(n as int) =~= base + sms);
    }
}

/// Appends copies of the given enum entries.
fn append_cloned_enums(dst: &mut Vec<EnumEntry>, src: &Vec<EnumEntry>)
    ensures
        final(dst)@.map_values(|e: EnumEntry| e@) == old(dst)@.map_values(|e: EnumEntry| e@)
            + src@.map_values(|e: EnumEntry| e@),
{
    let ghost base = dst@.map_values(|e: EnumEntry| e@);
    let ghost sms = src@.map_values(|e: EnumEntry| e@);
    let n: usize = src.len();
    let mut i: usize = 0;
    while i < n
        invariant
            n == src.len(),
            sms == src@.map_values(|e: EnumEntry| e@),
            0 <= i <= n,
            dst@.map_values(|e: EnumEntry| e@) == base + sms.take(i as int),
        decreases n - i,
    {
        let r = clone_enum_entry(&src[i]);
        let ghost prev = dst@;
        let ghost rg = r;
        dst.push(r);
        proof {
            prev.lemma_push_map_commute(|e: EnumEntry| e@, rg);
            assert(sms.take(i as int + 1) =~= sms.take(i as int).push(sms[i as int]));
            assert(base + sms.take(i as int + 1) =~= (base + sms.take(i as int)).push(
                sms[i as int],
            ));
            assert(dst@.map_values(|e: EnumEntry| e@) == base + sms.take(i as int + 1));
        }
        i = i + 1;
    }
    proof {
        assert(base + sms.take(n as int) =~= base + sms);
    }
}

/// One generation run: validates the requested version and profile against
/// the registry's feature levels and the requested extension names against
/// its extension list, then renders the full binding unit. A refused run
/// produces no output at all.
pub fn generate(
    reg: &Registry,
    api: Api,
    version: &str,
    profile: &str,
    extensions: &Vec<String>,
) -> (r: Result<String, GenError>)
    ensures
        match r {
            Ok(out) => spec_supported(reg@.features, version@, profile@)
                && spec_all_extensions_known(reg@, extensions@.map_values(|s: String| s@))
                && out@ == spec_binding_unit(
                reg@,
                api,
                extensions@.map_values(|s: String| s@),
            ),
            Err(e) => !(spec_supported(reg@.features, version@, profile@)
                && spec_all_extensions_known(reg@, extensions@.map_values(|s: String| s@))) && e
                == (if !spec_supported(reg@.features, version@, profile@) {
                GenError::UnknownApi
            } else {
                GenError::UnknownExtension
            }),
        },
{
    let ghost names = extensions@.map_values(|s: String| s@);
    if !supported(&reg.features, version, profile) {
        return Err(GenError::UnknownApi);
    }
    let mut cmds: Vec<Command> = Vec::new();
    let mut enums: Vec<EnumEntry> = Vec::new();
    append_cloned_cmds(&mut cmds, &reg.cmds);
    append_cloned_enums(&mut enums, &reg.enums);
    let n: usize = extensions.len();
    let mut i: usize = 0;
    while i < n
        invariant
            n == extensions.len(),
            names == extensions@.map_values(|s: String| s@),
            0 <= i <= n,
            spec_supported(reg@.features, version@, profile@),
            cmds@.map_values(|c: Command| c@) == reg@.cmds + spec_extension_cmds(
                reg@,
                names.take(i as int),
            ),
            enums@.map_values(|e: EnumEntry| e@) == reg@.enums + spec_extension_enums(
                reg@,
                names.take(i as int),
            ),
            forall|k: int|
                0 <= k < i ==> spec_lookup_extension(reg@.extensions, names[k]) is Some,
        decreases n - i,
    {
        match lookup_extension(&reg.extensions, extensions[i].as_str()) {
            None => {
                proof {
                    assert(spec_lookup_extension(reg@.extensions, names[i as int]) is None);
                    assert(0 <= i < names.len());
                    assert(!spec_all_extensions_known(reg@, names));
                }
                return Err(GenError::UnknownExtension);
            },
            Some(x) => {
                append_cloned_cmds(&mut cmds, &x.cmds);
                append_cloned_enums(&mut enums, &x.enums);
                proof {
                    assert(names.take(i as int + 1).drop_last() =~= names.take(i as int));
                    assert(names.take(i as int + 1).last() == names[i as int]);
                    assert(cmds@.map_values(|c: Command| c@) =~= reg@.cmds
                        + spec_extension_cmds(reg@, names.take(i as int + 1)));
                    assert(enums@.map_values(|e: EnumEntry| e@) =~= reg@.enums
                        + spec_extension_enums(reg@, names.take(i as int + 1)));
                }
            },
        }
        i = i + 1;
    }
    proof {
        assert(names.take(n as int) =~= names);
    }
    let mut out = String::new();
    write_header(&mut out);
    write_type_aliases(&mut out, &reg.aliases);
    write_enums(&mut out, &enums);
    write_struct(&mut out, api);
    write_impl(&mut out, api, &cmds);
    write_fns(&mut out, api, &cmds);
    proof {
        assert(out@ =~= spec_binding_unit(reg@, api, names));
    }
    Ok(out)
}

} // verus!
