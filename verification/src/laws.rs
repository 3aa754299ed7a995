//! The laws the generator keeps, stated over the spec functions the
//! executable contracts use.

use vstd::prelude::*;
use crate::emit::lemma_concat_texts_piece_at_offset;
use crate::emit::spec_concat_texts;
use crate::emit::spec_extern_decl_text;
use crate::emit::spec_extern_sym;
use crate::emit::spec_fns_section;
use crate::emit::spec_impl_section;
use crate::emit::spec_trampoline_prefix;
use crate::emit::spec_trampoline_text;
use crate::generate::spec_binding_unit;
use crate::generate::spec_effective_cmds;
use crate::generate::spec_effective_enums;
use crate::emit::spec_header;
use crate::emit::spec_types_section;
use crate::emit::spec_enums_section;
use crate::emit::spec_struct_section;
use crate::emit::spec_enum_const_text;
use crate::hexlit::spec_hex_literal;
use crate::hexlit::spec_parse_hex_literal;
use crate::hexlit::lemma_hex_literal_round_trip;
use crate::registry::Api;
use crate::registry::CommandModel;
use crate::registry::EnumEntryModel;
use crate::registry::RegistryModel;
use crate::registry::spec_distinct_command_names;
use crate::registry::spec_struct_name;

verus! {

/// Two commands share a foreign symbol name only if they share a name: the
/// fixed prefix keeps distinct names distinct.
pub proof fn lemma_extern_sym_injective(a: Seq<char>, b: Seq<char>)
    requires
        spec_extern_sym(a) == spec_extern_sym(b),
    ensures
        a == b,
{
    let p = "epoxy_"@;
    assert((p + a).len() == (p + b).len());
    assert forall|k: int| 0 <= k < a.len() implies a[k] == b[k] by {
        assert((p + a)[p.len() + k] == a[k]);
        assert((p + b)[p.len() + k] == b[k]);
    }
    assert(a =~= b);
}

/// Law: each command of the effective list is given exactly one trampoline
/// and exactly one foreign symbol declaration, both at the command's own
/// index, so the two lists stay index-for-index consistent; the trampoline's
/// method name is the command's declared name, at a fixed offset behind the
/// fixed method prefix; and, with pairwise distinct command names, no other
/// command's symbol coincides with it.
pub proof fn lemma_one_trampoline_and_symbol_per_command(
    reg: RegistryModel,
    api: Api,
    names: Seq<Seq<char>>,
    i: int,
)
    requires
        spec_distinct_command_names(spec_effective_cmds(reg, names)),
        0 <= i < spec_effective_cmds(reg, names).len(),
    ensures
        ({
            let cs = spec_effective_cmds(reg, names);
            let trampolines = cs.map_values(|c: CommandModel| spec_trampoline_text(c));
            let decls = cs.map_values(|c: CommandModel| spec_extern_decl_text(api, c));
            &&& trampolines.len() == cs.len()
            &&& decls.len() == cs.len()
            &&& trampolines[i] == spec_trampoline_text(cs[i])
            &&& decls[i] == spec_extern_decl_text(api, cs[i])
            &&& spec_trampoline_text(cs[i]).subrange(
                spec_trampoline_prefix().len() as int,
                spec_trampoline_prefix().len() + cs[i].name.len() as int,
            ) == cs[i].name
            &&& forall|j: int|
                0 <= j < cs.len() && j != i ==> spec_extern_sym(cs[j].name) != spec_extern_sym(
                    cs[i].name,
                )
        }),
{
    let cs = spec_effective_cmds(reg, names);
    let t = spec_trampoline_text(cs[i]);
    let plen = spec_trampoline_prefix().len() as int;
    let nlen = cs[i].name.len() as int;
    assert(t.subrange(plen, plen + nlen) =~= cs[i].name);
    assert forall|j: int|
        0 <= j < cs.len() && j != i implies spec_extern_sym(cs[j].name) != spec_extern_sym(
        cs[i].name,
    ) by {
        if spec_extern_sym(cs[j].name) == spec_extern_sym(cs[i].name) {
            lemma_extern_sym_injective(cs[j].name, cs[i].name);
        }
    }
}

/// Law: the impl block holds the i-th command's trampoline as one
/// contiguous piece, at the offset given by the block's opening text and
/// the trampolines before it — the trampolines stand in registry order,
/// one per command.
pub proof fn lemma_trampoline_in_impl_section(api: Api, cs: Seq<CommandModel>, i: int)
    requires
        0 <= i < cs.len(),
    ensures
        ({
            let pieces = cs.map_values(|c: CommandModel| spec_trampoline_text(c));
            let open = "impl "@ + spec_struct_name(api) + " {\n"@;
            let start = open.len() + spec_concat_texts(pieces.take(i)).len();
            &&& start + spec_trampoline_text(cs[i]).len() <= spec_impl_section(api, cs).len()
            &&& spec_impl_section(api, cs).subrange(
                start as int,
                start + spec_trampoline_text(cs[i]).len() as int,
            ) == spec_trampoline_text(cs[i])
        }),
{
    let pieces = cs.map_values(|c: CommandModel| spec_trampoline_text(c));
    let open = "impl "@ + spec_struct_name(api) + " {\n"@;
    let start = open.len() + spec_concat_texts(pieces.take(i)).len();
    lemma_concat_texts_piece_at_offset(pieces, i);
    assert(pieces[i] == spec_trampoline_text(cs[i]));
    assert(spec_impl_section(api, cs).subrange(
        start as int,
        start + spec_trampoline_text(cs[i]).len() as int,
    ) =~= spec_trampoline_text(cs[i]));
}

/// Law: the extern block holds the i-th command's symbol declaration as one
/// contiguous piece, at the offset given by the block's opening text and
/// the declarations before it — one declaration per command, in the same
/// order as the trampolines.
pub proof fn lemma_extern_decl_in_fns_section(api: Api, cs: Seq<CommandModel>, i: int)
    requires
        0 <= i < cs.len(),
    ensures
        ({
            let pieces = cs.map_values(|c: CommandModel| spec_extern_decl_text(api, c));
            let open = "#[allow(non_snake_case)]\nextern \"system\" {\n"@;
            let start = open.len() + spec_concat_texts(pieces.take(i)).len();
            &&& start + spec_extern_decl_text(api, cs[i]).len() <= spec_fns_section(api, cs).len()
            &&& spec_fns_section(api, cs).subrange(
                start as int,
                start + spec_extern_decl_text(api, cs[i]).len() as int,
            ) == spec_extern_decl_text(api, cs[i])
        }),
{
    let pieces = cs.map_values(|c: CommandModel| spec_extern_decl_text(api, c));
    let open = "#[allow(non_snake_case)]\nextern \"system\" {\n"@;
    let start = open.len() + spec_concat_texts(pieces.take(i)).len();
    lemma_concat_texts_piece_at_offset(pieces, i);
    assert(pieces[i] == spec_extern_decl_text(api, cs[i]));
    assert(spec_fns_section(api, cs).subrange(
        start as int,
        start + spec_extern_decl_text(api, cs[i]).len() as int,
    ) =~= spec_extern_decl_text(api, cs[i]));
}

/// Law: the emitted binding unit is a function of the registry, the API
/// family and the requested extension names alone, so re-running generation
/// on unchanged inputs produces byte-identical output.
pub proof fn lemma_generation_deterministic(
    reg_a: RegistryModel,
    reg_b: RegistryModel,
    api_a: Api,
    api_b: Api,
    names_a: Seq<Seq<char>>,
    names_b: Seq<Seq<char>>,
)
    requires
        reg_a == reg_b,
        api_a == api_b,
        names_a == names_b,
    ensures
        spec_binding_unit(reg_a, api_a, names_a) == spec_binding_unit(reg_b, api_b, names_b),
{
}

/// Law: with no command in the effective list, the emitted unit holds an
/// empty impl block and an empty extern block — zero trampolines, zero
/// symbols — while the enum constant block still holds every enum entry.
pub proof fn lemma_no_commands_no_trampolines(
    reg: RegistryModel,
    api: Api,
    names: Seq<Seq<char>>,
)
    requires
        spec_effective_cmds(reg, names).len() == 0,
    ensures
        spec_impl_section(api, spec_effective_cmds(reg, names)) == "impl "@ + spec_struct_name(
            api,
        ) + " {\n"@ + "}\n"@,
        spec_fns_section(api, spec_effective_cmds(reg, names))
            == "#[allow(non_snake_case)]\nextern \"system\" {\n"@ + "}\n"@,
        spec_binding_unit(reg, api, names) == spec_header() + spec_types_section(reg.aliases)
            + spec_enums_section(spec_effective_enums(reg, names)) + spec_struct_section(api) + (
        "impl "@ + spec_struct_name(api) + " {\n"@ + "}\n"@) + (
        "#[allow(non_snake_case)]\nextern \"system\" {\n"@ + "}\n"@),
{
    let cs = spec_effective_cmds(reg, names);
    assert(cs.map_values(|c: CommandModel| spec_trampoline_text(c)).len() == 0);
    assert(cs.map_values(|c: CommandModel| spec_extern_decl_text(api, c)).len() == 0);
    assert(spec_impl_section(api, cs) =~= "impl "@ + spec_struct_name(api) + " {\n"@ + "}\n"@);
    assert(spec_fns_section(api, cs) =~= "#[allow(non_snake_case)]\nextern \"system\" {\n"@
        + "}\n"@);
}

/// Law: the enum constant block holds the i-th entry's constant as one
/// contiguous piece, at the offset given by the constants before it, and
/// the constant's declared name stands right behind the fixed `pub const `
/// text — one constant per enum entry, in registry order.
pub proof fn lemma_enum_constant_in_section(s: Seq<EnumEntryModel>, i: int)
    requires
        0 <= i < s.len(),
    ensures
        ({
            let pieces = s.map_values(|e: EnumEntryModel| spec_enum_const_text(e));
            let start = spec_concat_texts(pieces.take(i)).len();
            &&& start + spec_enum_const_text(s[i]).len() <= spec_enums_section(s).len()
            &&& spec_enums_section(s).subrange(
                start as int,
                start + spec_enum_const_text(s[i]).len() as int,
            ) == spec_enum_const_text(s[i])
            &&& spec_enum_const_text(s[i]).subrange(
                "pub const "@.len() as int,
                "pub const "@.len() + s[i].name.len() as int,
            ) == s[i].name
        }),
{
    let pieces = s.map_values(|e: EnumEntryModel| spec_enum_const_text(e));
    lemma_concat_texts_piece_at_offset(pieces, i);
    assert(pieces[i] == spec_enum_const_text(s[i]));
    assert(spec_enum_const_text(s[i]).subrange(
        "pub const "@.len() as int,
        "pub const "@.len() + s[i].name.len() as int,
    ) =~= s[i].name);
}

/// Law: the value literal inside an emitted enum constant parses back to
/// the entry's declared value: it stands right behind the declaration's
/// name, alias and equals sign, and ahead of the closing semicolon.
pub proof fn lemma_enum_constant_round_trip(e: EnumEntryModel)
    ensures
        ({
            let t = spec_enum_const_text(e);
            let start = "pub const "@.len() + e.name.len() + ": types::"@.len() + e.ty.len()
                + " = "@.len();
            let end = t.len() - ";\n"@.len();
            spec_parse_hex_literal(t.subrange(start as int, end as int)) == Some(e.value as nat)
        }),
{
    let t = spec_enum_const_text(e);
    let start = "pub const "@.len() + e.name.len() + ": types::"@.len() + e.ty.len()
        + " = "@.len();
    let end = t.len() - ";\n"@.len();
    assert(t.subrange(start as int, end as int) =~= spec_hex_literal(e.value as nat));
    lemma_hex_literal_round_trip(e.value as nat);
}

} // verus!
