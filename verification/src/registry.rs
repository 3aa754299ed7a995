//! The data model the generator consumes: an API registry of commands,
//! enums and type aliases, together with the feature levels (version and
//! profile pairs) and extensions the registry was assembled for.

use vstd::prelude::*;

verus! {

/// One primitive type alias the emitted unit declares under `types::`.
pub struct TypeAlias {
    /// The alias name, e.g. `GLenum`.
    pub name: String,
    /// The aliased type text, e.g. `u32`.
    pub target: String,
}

/// Mathematical model of a `TypeAlias`.
pub struct TypeAliasModel {
    pub name: Seq<char>,
    pub target: Seq<char>,
}

impl View for TypeAlias {
    type V = TypeAliasModel;

    open spec fn view(&self) -> TypeAliasModel {
        TypeAliasModel { name: self.name@, target: self.target@ }
    }
}

/// One enum entry: a constant name, the alias it is typed with, and its value.
pub struct EnumEntry {
    /// The constant name, e.g. `COLOR_BUFFER_BIT`.
    pub name: String,
    /// The alias under `types::` the constant is declared with, e.g. `GLenum`.
    pub ty: String,
    /// The declared integer value.
    pub value: u64,
}

/// Mathematical model of an `EnumEntry`.
pub struct EnumEntryModel {
    pub name: Seq<char>,
    pub ty: Seq<char>,
    pub value: u64,
}

impl View for EnumEntry {
    type V = EnumEntryModel;

    open spec fn view(&self) -> EnumEntryModel {
        EnumEntryModel { name: self.name@, ty: self.ty@, value: self.value }
    }
}

/// One typed parameter of a command.
pub struct Param {
    /// The parameter name, e.g. `mask`.
    pub name: String,
    /// The parameter type text, e.g. `types::GLbitfield`.
    pub ty: String,
}

/// Mathematical model of a `Param`.
pub struct ParamModel {
    pub name: Seq<char>,
    pub ty: Seq<char>,
}

impl View for Param {
    type V = ParamModel;

    open spec fn view(&self) -> ParamModel {
        ParamModel { name: self.name@, ty: self.ty@ }
    }
}

/// One API command: a name, an ordered parameter list and a return type.
pub struct Command {
    /// The command name, e.g. `Clear`.
    pub name: String,
    /// The declared parameters, in order.
    pub params: Vec<Param>,
    /// The return type text; a command returning nothing carries `()`.
    pub ret: String,
}

/// Mathematical model of a `Command`.
pub struct CommandModel {
    pub name: Seq<char>,
    pub params: Seq<ParamModel>,
    pub ret: Seq<char>,
}

impl View for Command {
    type V = CommandModel;

    open spec fn view(&self) -> CommandModel {
        CommandModel {
            name: self.name@,
            params: self.params@.map_values(|p: Param| p@),
            ret: self.ret@,
        }
    }
}

/// One feature level the registry data covers: an API version string and a
/// profile name, e.g. `4.5` and `core`.
pub struct Feature {
    pub version: String,
    pub profile: String,
}

/// Mathematical model of a `Feature`.
pub struct FeatureModel {
    pub version: Seq<char>,
    pub profile: Seq<char>,
}

impl View for Feature {
    type V = FeatureModel;

    open spec fn view(&self) -> FeatureModel {
        FeatureModel { version: self.version@, profile: self.profile@ }
    }
}

/// One extension: a feature name and the commands and enums it adds.
pub struct Extension {
    pub name: String,
    pub cmds: Vec<Command>,
    pub enums: Vec<EnumEntry>,
}

/// Mathematical model of an `Extension`.
pub struct ExtensionModel {
    pub name: Seq<char>,
    pub cmds: Seq<CommandModel>,
    pub enums: Seq<EnumEntryModel>,
}

impl View for Extension {
    type V = ExtensionModel;

    open spec fn view(&self) -> ExtensionModel {
        ExtensionModel {
            name: self.name@,
            cmds: self.cmds@.map_values(|c: Command| c@),
            enums: self.enums@.map_values(|e: EnumEntry| e@),
        }
    }
}

/// The parsed API registry driving one generation run. It is read-only
/// input; its consistency (names distinct, referenced aliases present) is
/// the registry producer's responsibility.
pub struct Registry {
    /// The feature levels the registry data covers.
    pub features: Vec<Feature>,
    /// The primitive type aliases the registry references.
    pub aliases: Vec<TypeAlias>,
    /// The enum entries of the core feature set, in registry order.
    pub enums: Vec<EnumEntry>,
    /// The commands of the core feature set, in registry order.
    pub cmds: Vec<Command>,
    /// The extensions available for inclusion, in registry order.
    pub extensions: Vec<Extension>,
}

/// Mathematical model of a `Registry`.
pub struct RegistryModel {
    pub features: Seq<FeatureModel>,
    pub aliases: Seq<TypeAliasModel>,
    pub enums: Seq<EnumEntryModel>,
    pub cmds: Seq<CommandModel>,
    pub extensions: Seq<ExtensionModel>,
}

impl View for Registry {
    type V = RegistryModel;

    open spec fn view(&self) -> RegistryModel {
        RegistryModel {
            features: self.features@.map_values(|f: Feature| f@),
            aliases: self.aliases@.map_values(|a: TypeAlias| a@),
            enums: self.enums@.map_values(|e: EnumEntry| e@),
            cmds: self.cmds@.map_values(|c: Command| c@),
            extensions: self.extensions@.map_values(|x: Extension| x@),
        }
    }
}

/// The command names of a list are pairwise distinct. The registry producer
/// guarantees this of the registry; only the uniqueness laws rely on it.
pub open spec fn spec_distinct_command_names(cs: Seq<CommandModel>) -> bool {
    forall|i: int, j: int| 0 <= i < j < cs.len() ==> cs[i].name != cs[j].name
}

/// The API family being bound. The emitted dispatch struct is named after
/// it, and the foreign symbol names carry its prefix.
#[derive(Clone, Copy, PartialEq, Eq, Structural)]
pub enum Api {
    Gl,
    Gles1,
    Gles2,
    Glx,
    Wgl,
    Egl,
}

/// The name of the emitted dispatch struct for an API family.
pub open spec fn spec_struct_name(api: Api) -> Seq<char> {
    match api {
        Api::Gl => "Gl"@,
        Api::Gles1 => "Gles1"@,
        Api::Gles2 => "Gles2"@,
        Api::Glx => "Glx"@,
        Api::Wgl => "Wgl"@,
        Api::Egl => "Egl"@,
    }
}

/// The prefix of an API family's foreign symbol names, e.g. `gl` in
/// `glClear`.
pub open spec fn spec_symbol_prefix(api: Api) -> Seq<char> {
    match api {
        Api::Gl => "gl"@,
        Api::Gles1 => "gl"@,
        Api::Gles2 => "gl"@,
        Api::Glx => "glX"@,
        Api::Wgl => "wgl"@,
        Api::Egl => "egl"@,
    }
}

impl Api {
    /// The name of the emitted dispatch struct.
    pub fn struct_name(self) -> (r: &'static str)
        ensures
            r@ == spec_struct_name(self),
    {
        match self {
            Api::Gl => "Gl",
            Api::Gles1 => "Gles1",
            Api::Gles2 => "Gles2",
            Api::Glx => "Glx",
            Api::Wgl => "Wgl",
            Api::Egl => "Egl",
        }
    }

    /// The prefix of the API family's foreign symbol names.
    pub fn symbol_prefix(self) -> (r: &'static str)
        ensures
            r@ == spec_symbol_prefix(self),
    {
        match self {
            Api::Gl => "gl",
            Api::Gles1 => "gl",
            Api::Gles2 => "gl",
            Api::Glx => "glX",
            Api::Wgl => "wgl",
            Api::Egl => "egl",
        }
    }
}

/// Character-for-character string equality.
pub fn str_eq(a: &str, b: &str) -> (r: bool)
    ensures
        r == (a@ == b@),
{
    let a_len: usize = a.unicode_len();
    let b_len: usize = b.unicode_len();
    if a_len != b_len {
        return false;
    }
    let mut i: usize = 0;
    while i < a_len
        invariant
            a_len == a@.len(),
            b_len == b@.len(),
            a_len == b_len,
            0 <= i <= a_len,
            forall|k: int| 0 <= k < i ==> a@[k] == b@[k],
        decreases a_len - i,
    {
        if a.get_char(i) != b.get_char(i) {
            return false;
        }
        i = i + 1;
    }
    proof {
        assert(a@ =~= b@);
    }
    true
}

/// The requested version and profile match a feature level of the registry.
pub open spec fn spec_supported(
    features: Seq<FeatureModel>,
    version: Seq<char>,
    profile: Seq<char>,
) -> bool {
    exists|i: int|
        0 <= i < features.len() && features[i].version == version && features[i].profile
            == profile
}

/// Looks a requested version and profile up in the registry's feature list.
pub fn supported(features: &Vec<Feature>, version: &str, profile: &str) -> (r: bool)
    ensures
        r == spec_supported(
            features@.map_values(|f: Feature| f@),
            version@,
            profile@,
        ),
{
    let ghost fs = features@.map_values(|f: Feature| f@);
    let n: usize = features.len();
    let mut i: usize = 0;
    while i < n
        invariant
            n == features.len(),
            fs == features@.map_values(|f: Feature| f@),
            0 <= i <= n,
            forall|k: int|
                0 <= k < i ==> !(fs[k].version == version@ && fs[k].profile == profile@),
        decreases n - i,
    {
        let f = &features[i];
        if str_eq(f.version.as_str(), version) && str_eq(f.profile.as_str(), profile) {
            assert(fs[i as int].version == version@ && fs[i as int].profile == profile@);
            return true;
        }
        i = i + 1;
    }
    false
}

/// The first extension of the given name, if the registry has one.
pub open spec fn spec_lookup_extension(
    exts: Seq<ExtensionModel>,
    name: Seq<char>,
) -> Option<ExtensionModel>
    decreases exts.len(),
{
    if exts.len() == 0 {
        None
    } else if exts[0].name == name {
        Some(exts[0])
    } else {
        spec_lookup_extension(exts.drop_first(), name)
    }
}

/// Finds the extension of the given name in the registry's extension list.
pub fn lookup_extension<'a>(exts: &'a Vec<Extension>, name: &str) -> (r: Option<&'a Extension>)
    ensures
        match r {
            Some(x) => spec_lookup_extension(
                exts@.map_values(|x2: Extension| x2@),
                name@,
            ) == Some(x@),
            None => spec_lookup_extension(
                exts@.map_values(|x2: Extension| x2@),
                name@,
            ) is None,
        },
{
    let ghost xs = exts@.map_values(|x2: Extension| x2@);
    let n: usize = exts.len();
    proof {
        assert(xs.subrange(0, n as int) =~= xs);
    }
    let mut i: usize = 0;
    while i < n
        invariant
            n == exts.len(),
            xs == exts@.map_values(|x2: Extension| x2@),
            0 <= i <= n,
            spec_lookup_extension(xs, name@) == spec_lookup_extension(
                xs.subrange(i as int, n as int),
                name@,
            ),
        decreases n - i,
    {
        let x = &exts[i];
        if str_eq(x.name.as_str(), name) {
            assert(xs.subrange(i as int, n as int)[0] == xs[i as int]);
            return Some(x);
        }
        proof {
            assert(xs.subrange(i as int, n as int).drop_first() =~= xs.subrange(
                i as int + 1,
                n as int,
            ));
        }
        i = i + 1;
    }
    proof {
        assert(xs.subrange(n as int, n as int).len() == 0);
    }
    None
}

} // verus!
