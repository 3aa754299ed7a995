//! Text emission: one spec function per fragment of the emitted binding
//! unit, and one executable writer per section, each proved to append
//! exactly the text its spec function describes.

use vstd::prelude::*;
use crate::hexlit::spec_hex_literal;
use crate::hexlit::hex_literal_string;
use crate::registry::Api;
use crate::registry::Command;
use crate::registry::CommandModel;
use crate::registry::EnumEntry;
use crate::registry::EnumEntryModel;
use crate::registry::Param;
use crate::registry::ParamModel;
use crate::registry::TypeAlias;
use crate::registry::TypeAliasModel;
use crate::registry::spec_struct_name;
use crate::registry::spec_symbol_prefix;

verus! {

/// Concatenation of a list of text pieces, in order.
pub open spec fn spec_concat_texts(list: Seq<Seq<char>>) -> Seq<char>
    decreases list.len(),
{
    if list.len() == 0 {
        Seq::empty()
    } else {
        spec_concat_texts(list.drop_last()) + list.last()
    }
}

/// Concatenation splits at any index: the pieces before it, then the rest.
pub proof fn lemma_concat_texts_split(pieces: Seq<Seq<char>>, k: int)
    requires
        0 <= k <= pieces.len(),
    ensures
        spec_concat_texts(pieces) == spec_concat_texts(pieces.take(k)) + spec_concat_texts(
            pieces.skip(k),
        ),
    decreases pieces.len(),
{
    if pieces.len() == k {
        assert(pieces.take(k) =~= pieces);
        assert(pieces.skip(k).len() == 0);
        assert(spec_concat_texts(pieces) =~= spec_concat_texts(pieces.take(k))
            + spec_concat_texts(pieces.skip(k)));
    } else {
        let dl = pieces.drop_last();
        lemma_concat_texts_split(dl, k);
        assert(dl.take(k) =~= pieces.take(k));
        assert(pieces.skip(k).len() >= 1);
        assert(pieces.skip(k).drop_last() =~= dl.skip(k));
        assert(pieces.skip(k).last() == pieces.last());
        if pieces.skip(k).len() == 0 {
        } else {
            assert(spec_concat_texts(pieces.skip(k)) == spec_concat_texts(dl.skip(k))
                + pieces.last());
        }
        assert(spec_concat_texts(pieces) =~= spec_concat_texts(pieces.take(k))
            + spec_concat_texts(pieces.skip(k)));
    }
}

/// Each piece stands in the concatenation as one contiguous run, at the
/// offset given by the combined length of the pieces before it.
pub proof fn lemma_concat_texts_piece_at_offset(pieces: Seq<Seq<char>>, i: int)
    requires
        0 <= i < pieces.len(),
    ensures
        ({
            let start = spec_concat_texts(pieces.take(i)).len() as int;
            &&& start + pieces[i].len() <= spec_concat_texts(pieces).len()
            &&& spec_concat_texts(pieces).subrange(start, start + pieces[i].len() as int)
                == pieces[i]
        }),
{
    let start = spec_concat_texts(pieces.take(i)).len() as int;
    lemma_concat_texts_split(pieces, i);
    let rest = pieces.skip(i);
    lemma_concat_texts_split(rest, 1);
    let head = rest.take(1);
    assert(head.len() == 1);
    assert(head.last() == rest[0]);
    assert(rest[0] == pieces[i]);
    assert(spec_concat_texts(head.drop_last()).len() == 0);
    assert(spec_concat_texts(head) == spec_concat_texts(head.drop_last()) + head.last());
    assert(spec_concat_texts(head) =~= pieces[i]);
    assert(spec_concat_texts(pieces).subrange(start, start + pieces[i].len() as int)
        =~= pieces[i]);
}

/// The fixed import block the emitted unit opens with: where the foreign
/// primitive symbols come from.
pub open spec fn spec_header() -> Seq<char> {
    "mod __gl_imports {\n    extern crate libc;\n    pub use std::mem;\n}\n"@
}

/// Emits the import block.
pub fn write_header(out: &mut String)
    ensures
        final(out)@ == old(out)@ + spec_header(),
{
    out.append("mod __gl_imports {\n    extern crate libc;\n    pub use std::mem;\n}\n");
}

/// One type alias line inside the `types` module.
pub open spec fn spec_type_alias_text(a: TypeAliasModel) -> Seq<char> {
    "    pub type "@ + a.name + " = "@ + a.target + ";\n"@
}

/// The `types` module: one same-named alias per primitive type the registry
/// references, in registry order.
pub open spec fn spec_types_section(s: Seq<TypeAliasModel>) -> Seq<char> {
    "pub mod types {\n"@ + spec_concat_texts(
        s.map_values(|a: TypeAliasModel| spec_type_alias_text(a)),
    ) + "}\n"@
}

/// Emits the `types` module.
pub fn write_type_aliases(out: &mut String, aliases: &Vec<TypeAlias>)
    ensures
        final(out)@ == old(out)@ + spec_types_section(aliases@.map_values(|a: TypeAlias| a@)),
{
    let ghost base = out@;
    let ghost ams = aliases@.map_values(|a: TypeAlias| a@);
    let ghost pieces = ams.map_values(|a: TypeAliasModel| spec_type_alias_text(a));
    out.append("pub mod types {\n");
    let n: usize = aliases.len();
    let mut i: usize = 0;
    while i < n
        invariant
            n == aliases.len(),
            ams == aliases@.map_values(|a: TypeAlias| a@),
            pieces == ams.map_values(|a: TypeAliasModel| spec_type_alias_text(a)),
            0 <= i <= n,
            out@ == base + "pub mod types {\n"@ + spec_concat_texts(pieces.take(i as int)),
        decreases n - i,
    {
        out.append("    pub type ");
        out.append(aliases[i].name.as_str());
        out.append(" = ");
        out.append(aliases[i].target.as_str());
        out.append(";\n");
        proof {
            assert(pieces.take(i as int + 1).drop_last() =~= pieces.take(i as int));
            assert(pieces.take(i as int + 1).last() == spec_type_alias_text(ams[i as int]));
            assert(out@ =~= base + "pub mod types {\n"@ + spec_concat_texts(
                pieces.take(i as int + 1),
            ));
        }
        i = i + 1;
    }
    out.append("}\n");
    proof {
        assert(pieces.take(n as int) =~= pieces);
        assert(out@ =~= base + spec_types_section(ams));
    }
}

/// One enum constant line: the declared name, its alias under `types::`,
/// and the declared value as a canonical hexadecimal literal.
pub open spec fn spec_enum_const_text(e: EnumEntryModel) -> Seq<char> {
    "pub const "@ + e.name + ": types::"@ + e.ty + " = "@ + spec_hex_literal(e.value as nat)
        + ";\n"@
}

/// The enum constant block: one constant per enum entry, in registry order.
pub open spec fn spec_enums_section(s: Seq<EnumEntryModel>) -> Seq<char> {
    spec_concat_texts(s.map_values(|e: EnumEntryModel| spec_enum_const_text(e)))
}

/// Emits the enum constant block.
pub fn write_enums(out: &mut String, enums: &Vec<EnumEntry>)
    ensures
        final(out)@ == old(out)@ + spec_enums_section(enums@.map_values(|e: EnumEntry| e@)),
{
    let ghost base = out@;
    let ghost ems = enums@.map_values(|e: EnumEntry| e@);
    let ghost pieces = ems.map_values(|e: EnumEntryModel| spec_enum_const_text(e));
    let n: usize = enums.len();
    let mut i: usize = 0;
    while i < n
        invariant
            n == enums.len(),
            ems == enums@.map_values(|e: EnumEntry| e@),
            pieces == ems.map_values(|e: EnumEntryModel| spec_enum_const_text(e)),
            0 <= i <= n,
            out@ == base + spec_concat_texts(pieces.take(i as int)),
        decreases n - i,
    {
        out.append("pub const ");
        out.append(enums[i].name.as_str());
        out.append(": types::");
        out.append(enums[i].ty.as_str());
        out.append(" = ");
        let value_text = hex_literal_string(enums[i].value);
        out.append(value_text.as_str());
        out.append(";\n");
        proof {
            assert(pieces.take(i as int + 1).drop_last() =~= pieces.take(i as int));
            assert(pieces.take(i as int + 1).last() == spec_enum_const_text(ems[i as int]));
            assert(out@ =~= base + spec_concat_texts(pieces.take(i as int + 1)));
        }
        i = i + 1;
    }
    proof {
        assert(pieces.take(n as int) =~= pieces);
    }
}

/// The dispatch struct declaration: an empty, copyable marker type named
/// after the API family.
pub open spec fn spec_struct_section(api: Api) -> Seq<char> {
    "#[derive(Copy, Clone)]\npub struct "@ + spec_struct_name(api) + ";\n"@
}

/// Emits the dispatch struct declaration.
pub fn write_struct(out: &mut String, api: Api)
    ensures
        final(out)@ == old(out)@ + spec_struct_section(api),
{
    let ghost base = out@;
    out.append("#[derive(Copy, Clone)]\npub struct ");
    out.append(api.struct_name());
    out.append(";\n");
    proof {
        assert(out@ =~= base + spec_struct_section(api));
    }
}

/// One typed parameter, e.g. `mask: types::GLbitfield`.
pub open spec fn spec_typed_param_text(p: ParamModel) -> Seq<char> {
    p.name + ": "@ + p.ty
}

/// The typed parameter list of a command, joined with `, `.
pub open spec fn spec_typed_params_text(ps: Seq<ParamModel>) -> Seq<char>
    decreases ps.len(),
{
    if ps.len() == 0 {
        Seq::empty()
    } else if ps.len() == 1 {
        spec_typed_param_text(ps[0])
    } else {
        spec_typed_params_text(ps.drop_last()) + ", "@ + spec_typed_param_text(ps.last())
    }
}

/// The bare parameter names of a command, joined with `, `.
pub open spec fn spec_param_names_text(ps: Seq<ParamModel>) -> Seq<char>
    decreases ps.len(),
{
    if ps.len() == 0 {
        Seq::empty()
    } else if ps.len() == 1 {
        ps[0].name
    } else {
        spec_param_names_text(ps.drop_last()) + ", "@ + ps.last().name
    }
}

/// Renders the typed parameter list of a command.
pub fn typed_params_string(params: &Vec<Param>) -> (r: String)
    ensures
        r@ == spec_typed_params_text(params@.map_values(|p: Param| p@)),
{
    let ghost pms = params@.map_values(|p: Param| p@);
    let mut r = String::new();
    let n: usize = params.len();
    let mut i: usize = 0;
    while i < n
        invariant
            n == params.len(),
            pms == params@.map_values(|p: Param| p@),
            0 <= i <= n,
            r@ == spec_typed_params_text(pms.take(i as int)),
        decreases n - i,
    {
        if i != 0 {
            r.append(", ");
        }
        r.append(params[i].name.as_str());
        r.append(": ");
        r.append(params[i].ty.as_str());
        proof {
            assert(pms.take(i as int + 1).drop_last() =~= pms.take(i as int));
            assert(pms.take(i as int + 1).last() == pms[i as int]);
            assert(r@ =~= spec_typed_params_text(pms.take(i as int + 1)));
        }
        i = i + 1;
    }
    proof {
        assert(pms.take(n as int) =~= pms);
    }
    r
}

/// Renders the bare parameter names of a command.
pub fn param_names_string(params: &Vec<Param>) -> (r: String)
    ensures
        r@ == spec_param_names_text(params@.map_values(|p: Param| p@)),
{
    let ghost pms = params@.map_values(|p: Param| p@);
    let mut r = String::new();
    let n: usize = params.len();
    let mut i: usize = 0;
    while i < n
        invariant
            n == params.len(),
            pms == params@.map_values(|p: Param| p@),
            0 <= i <= n,
            r@ == spec_param_names_text(pms.take(i as int)),
        decreases n - i,
    {
        if i != 0 {
            r.append(", ");
        }
        r.append(params[i].name.as_str());
        proof {
            assert(pms.take(i as int + 1).drop_last() =~= pms.take(i as int));
            assert(pms.take(i as int + 1).last() == pms[i as int]);
            assert(r@ =~= spec_param_names_text(pms.take(i as int + 1)));
        }
        i = i + 1;
    }
    proof {
        assert(pms.take(n as int) =~= pms);
    }
    r
}

/// The name of the foreign function-pointer symbol a command dispatches
/// through: the fixed prefix followed by the command name.
pub open spec fn spec_extern_sym(name: Seq<char>) -> Seq<char> {
    "epoxy_"@ + name
}

/// Renders the foreign symbol name of a command.
pub fn extern_sym_string(name: &str) -> (r: String)
    ensures
        r@ == spec_extern_sym(name@),
{
    let mut r = String::from_str("epoxy_");
    r.append(name);
    r
}

/// The fixed text of a trampoline up to its method name.
pub open spec fn spec_trampoline_prefix() -> Seq<char> {
    "    #[allow(non_snake_case, unused_variables, dead_code)] #[inline]\n    pub unsafe fn "@
}

/// One trampoline method: a method named after the command, taking the
/// command's declared parameters and returning its declared return type,
/// whose body reinterprets the command's foreign symbol as a function of
/// that exact signature and forwards the arguments to it.
pub open spec fn spec_trampoline_text(c: CommandModel) -> Seq<char> {
    spec_trampoline_prefix() + c.name + "(&self, "@ + spec_typed_params_text(c.params) + ") -> "@
        + c.ret + " {\n        __gl_imports::mem::transmute::<_, extern \"system\" fn("@
        + spec_typed_params_text(c.params) + ") -> "@ + c.ret + ">("@ + spec_extern_sym(c.name)
        + ")("@ + spec_param_names_text(c.params) + ")\n    }\n"@
}

/// Renders one trampoline method.
pub fn trampoline_string(c: &Command) -> (r: String)
    ensures
        r@ == spec_trampoline_text(c@),
{
    let typed_params = typed_params_string(&c.params);
    let names = param_names_string(&c.params);
    let sym = extern_sym_string(c.name.as_str());
    let mut r = String::from_str(
        "    #[allow(non_snake_case, unused_variables, dead_code)] #[inline]\n    pub unsafe fn ",
    );
    r.append(c.name.as_str());
    r.append("(&self, ");
    r.append(typed_params.as_str());
    r.append(") -> ");
    r.append(c.ret.as_str());
    r.append(" {\n        __gl_imports::mem::transmute::<_, extern \"system\" fn(");
    r.append(typed_params.as_str());
    r.append(") -> ");
    r.append(c.ret.as_str());
    r.append(">(");
    r.append(sym.as_str());
    r.append(")(");
    r.append(names.as_str());
    r.append(")\n    }\n");
    proof {
        assert(r@ =~= spec_trampoline_text(c@));
    }
    r
}

/// The impl block of the dispatch struct: one trampoline per command, in
/// registry order.
pub open spec fn spec_impl_section(api: Api, cs: Seq<CommandModel>) -> Seq<char> {
    "impl "@ + spec_struct_name(api) + " {\n"@ + spec_concat_texts(
        cs.map_values(|c: CommandModel| spec_trampoline_text(c)),
    ) + "}\n"@
}

/// Emits the impl block of the dispatch struct.
pub fn write_impl(out: &mut String, api: Api, cmds: &Vec<Command>)
    ensures
        final(out)@ == old(out)@ + spec_impl_section(api, cmds@.map_values(|c: Command| c@)),
{
    let ghost base = out@;
    let ghost cms = cmds@.map_values(|c: Command| c@);
    let ghost pieces = cms.map_values(|c: CommandModel| spec_trampoline_text(c));
    out.append("impl ");
    out.append(api.struct_name());
    out.append(" {\n");
    let ghost opened = out@;
    let n: usize = cmds.len();
    let mut i: usize = 0;
    while i < n
        invariant
            n == cmds.len(),
            cms == cmds@.map_values(|c: Command| c@),
            pieces == cms.map_values(|c: CommandModel| spec_trampoline_text(c)),
            0 <= i <= n,
            out@ == opened + spec_concat_texts(pieces.take(i as int)),
        decreases n - i,
    {
        let t = trampoline_string(&cmds[i]);
        out.append(t.as_str());
        proof {
            assert(pieces.take(i as int + 1).drop_last() =~= pieces.take(i as int));
            assert(pieces.take(i as int + 1).last() == spec_trampoline_text(cms[i as int]));
            assert(out@ =~= opened + spec_concat_texts(pieces.take(i as int + 1)));
        }
        i = i + 1;
    }
    out.append("}\n");
    proof {
        assert(pieces.take(n as int) =~= pieces);
        assert(out@ =~= base + spec_impl_section(api, cms));
    }
}

/// The load-time link name of a command's symbol: the fixed prefix, the API
/// family's symbol prefix, and the command name, e.g. `epoxy_glClear`.
pub open spec fn spec_link_name(api: Api, name: Seq<char>) -> Seq<char> {
    "epoxy_"@ + spec_symbol_prefix(api) + name
}

/// One foreign symbol declaration: an opaque pointer-typed symbol named
/// after the command, linked under the API family's qualified name.
pub open spec fn spec_extern_decl_text(api: Api, c: CommandModel) -> Seq<char> {
    "    #[link_name=\""@ + spec_link_name(api, c.name) + "\"]\n    static "@ + spec_extern_sym(
        c.name,
    ) + ": *const *const __gl_imports::libc::c_void;\n"@
}

/// Renders one foreign symbol declaration.
pub fn extern_decl_string(api: Api, c: &Command) -> (r: String)
    ensures
        r@ == spec_extern_decl_text(api, c@),
{
    let sym = extern_sym_string(c.name.as_str());
    let mut r = String::from_str("    #[link_name=\"");
    r.append("epoxy_");
    r.append(api.symbol_prefix());
    r.append(c.name.as_str());
    r.append("\"]\n    static ");
    r.append(sym.as_str());
    r.append(": *const *const __gl_imports::libc::c_void;\n");
    proof {
        assert(r@ =~= spec_extern_decl_text(api, c@));
    }
    r
}

/// The extern block: one foreign symbol declaration per command, in the
/// same order as the impl block's trampolines.
pub open spec fn spec_fns_section(api: Api, cs: Seq<CommandModel>) -> Seq<char> {
    "#[allow(non_snake_case)]\nextern \"system\" {\n"@ + spec_concat_texts(
        cs.map_values(|c: CommandModel| spec_extern_decl_text(api, c)),
    ) + "}\n"@
}

/// Emits the extern block.
pub fn write_fns(out: &mut String, api: Api, cmds: &Vec<Command>)
    ensures
        final(out)@ == old(out)@ + spec_fns_section(api, cmds@.map_values(|c: Command| c@)),
{
    let ghost base = out@;
    let ghost cms = cmds@.map_values(|c: Command| c@);
    let ghost pieces = cms.map_values(|c: CommandModel| spec_extern_decl_text(api, c));
    out.append("#[allow(non_snake_case)]\nextern \"system\" {\n");
    let ghost opened = out@;
    let n: usize = cmds.len();
    let mut i: usize = 0;
    while i < n
        invariant
            n == cmds.len(),
            cms == cmds@.map_values(|c: Command| c@),
            pieces == cms.map_values(|c: CommandModel| spec_extern_decl_text(api, c)),
            0 <= i <= n,
            out@ == opened + spec_concat_texts(pieces.take(i as int)),
        decreases n - i,
    {
        let d = extern_decl_string(api, &cmds[i]);
        out.append(d.as_str());
        proof {
            assert(pieces.take(i as int + 1).drop_last() =~= pieces.take(i as int));
            assert(pieces.take(i as int + 1).last() == spec_extern_decl_text(api, cms[i as int]));
            assert(out@ =~= opened + spec_concat_texts(pieces.take(i as int + 1)));
        }
        i = i + 1;
    }
    out.append("}\n");
    proof {
        assert(pieces.take(n as int) =~= pieces);
        assert(out@ =~= base + spec_fns_section(api, cms));
    }
}

} // verus!
