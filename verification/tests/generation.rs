use glgen::generate::generate;
use glgen::generate::GenError;
use glgen::registry::Api;
use glgen::registry::Command;
use glgen::registry::EnumEntry;
use glgen::registry::Extension;
use glgen::registry::Feature;
use glgen::registry::Param;
use glgen::registry::Registry;
use glgen::registry::TypeAlias;

fn feature(version: &str, profile: &str) -> Feature {
    Feature { version: version.to_string(), profile: profile.to_string() }
}

fn alias(name: &str, target: &str) -> TypeAlias {
    TypeAlias { name: name.to_string(), target: target.to_string() }
}

fn enum_entry(name: &str, ty: &str, value: u64) -> EnumEntry {
    EnumEntry { name: name.to_string(), ty: ty.to_string(), value }
}

fn command(name: &str, params: Vec<(&str, &str)>, ret: &str) -> Command {
    Command {
        name: name.to_string(),
        params: params
            .into_iter()
            .map(|(n, t)| Param { name: n.to_string(), ty: t.to_string() })
            .collect(),
        ret: ret.to_string(),
    }
}

fn small_registry() -> Registry {
    Registry {
        features: vec![feature("4.5", "core"), feature("3.3", "compatibility")],
        aliases: vec![alias("GLenum", "u32"), alias("GLbitfield", "u32")],
        enums: vec![
            enum_entry("COLOR_BUFFER_BIT", "GLbitfield", 0x4000),
            enum_entry("TRIANGLES", "GLenum", 0x4),
        ],
        cmds: vec![
            command("Clear", vec![("mask", "types::GLbitfield")], "()"),
            command("GetError", vec![], "types::GLenum"),
        ],
        extensions: vec![Extension {
            name: "GL_KHR_debug".to_string(),
            cmds: vec![command("PopDebugGroup", vec![], "()")],
            enums: vec![enum_entry("DEBUG_OUTPUT", "GLenum", 0x92e0)],
        }],
    }
}

#[test]
fn emits_the_full_unit_for_one_command() {
    let reg = Registry {
        features: vec![feature("4.5", "core")],
        aliases: vec![alias("GLbitfield", "u32")],
        enums: vec![enum_entry("COLOR_BUFFER_BIT", "GLbitfield", 0x4000)],
        cmds: vec![command("Clear", vec![("mask", "types::GLbitfield")], "()")],
        extensions: vec![],
    };
    let out = generate(&reg, Api::Gl, "4.5", "core", &vec![]).unwrap();
    let mut expected = String::new();
    expected.push_str("mod __gl_imports {\n    extern crate libc;\n    pub use std::mem;\n}\n");
    expected.push_str("pub mod types {\n    pub type GLbitfield = u32;\n}\n");
    expected.push_str("pub const COLOR_BUFFER_BIT: types::GLbitfield = 0x4000;\n");
    expected.push_str("#[derive(Copy, Clone)]\npub struct Gl;\n");
    expected.push_str("impl Gl {\n");
    expected.push_str("    #[allow(non_snake_case, unused_variables, dead_code)] #[inline]\n");
    expected.push_str("    pub unsafe fn Clear(&self, mask: types::GLbitfield) -> () {\n");
    expected.push_str(
        "        __gl_imports::mem::transmute::<_, extern \"system\" fn(mask: types::GLbitfield) -> ()>(epoxy_Clear)(mask)\n",
    );
    expected.push_str("    }\n");
    expected.push_str("}\n");
    expected.push_str("#[allow(non_snake_case)]\nextern \"system\" {\n");
    expected.push_str("    #[link_name=\"epoxy_glClear\"]\n");
    expected.push_str("    static epoxy_Clear: *const *const __gl_imports::libc::c_void;\n");
    expected.push_str("}\n");
    assert_eq!(out, expected);
}

#[test]
fn two_commands_keep_registry_order() {
    let reg = Registry {
        features: vec![feature("4.5", "core")],
        aliases: vec![alias("int32", "i32")],
        enums: vec![],
        cmds: vec![
            command("foo", vec![], "()"),
            command("bar", vec![("x", "types::int32")], "types::int32"),
        ],
        extensions: vec![],
    };
    let out = generate(&reg, Api::Gl, "4.5", "core", &vec![]).unwrap();

    let foo_method = out.find("pub unsafe fn foo(").expect("foo trampoline missing");
    let bar_method = out.find("pub unsafe fn bar(").expect("bar trampoline missing");
    assert!(foo_method < bar_method);

    let foo_sym = out.find("static epoxy_foo:").expect("foo symbol missing");
    let bar_sym = out.find("static epoxy_bar:").expect("bar symbol missing");
    assert!(foo_sym < bar_sym);

    assert_eq!(out.matches("pub unsafe fn foo(").count(), 1);
    assert_eq!(out.matches("pub unsafe fn bar(").count(), 1);
    assert_eq!(out.matches("static epoxy_foo:").count(), 1);
    assert_eq!(out.matches("static epoxy_bar:").count(), 1);
}

#[test]
fn empty_command_list_emits_no_trampolines_and_all_enums() {
    let reg = Registry {
        features: vec![feature("4.5", "core")],
        aliases: vec![alias("GLenum", "u32")],
        enums: vec![
            enum_entry("ONE", "GLenum", 1),
            enum_entry("TWO", "GLenum", 2),
            enum_entry("THREE", "GLenum", 3),
        ],
        cmds: vec![],
        extensions: vec![],
    };
    let out = generate(&reg, Api::Gl, "4.5", "core", &vec![]).unwrap();
    assert_eq!(out.matches("pub unsafe fn").count(), 0);
    assert_eq!(out.matches("link_name").count(), 0);
    assert_eq!(out.matches("static epoxy_").count(), 0);
    assert!(out.contains("impl Gl {\n}\n"));
    assert!(out.contains("extern \"system\" {\n}\n"));
    assert!(out.contains("pub const ONE: types::GLenum = 0x1;\n"));
    assert!(out.contains("pub const TWO: types::GLenum = 0x2;\n"));
    assert!(out.contains("pub const THREE: types::GLenum = 0x3;\n"));
}

#[test]
fn enum_constants_carry_declared_values() {
    let reg = small_registry();
    let out = generate(&reg, Api::Gl, "4.5", "core", &vec![]).unwrap();
    assert!(out.contains("pub const COLOR_BUFFER_BIT: types::GLbitfield = 0x4000;\n"));
    assert!(out.contains("pub const TRIANGLES: types::GLenum = 0x4;\n"));
    assert_eq!(out.matches("pub const COLOR_BUFFER_BIT:").count(), 1);
    assert_eq!(out.matches("pub const TRIANGLES:").count(), 1);
}

#[test]
fn rerunning_generation_is_byte_identical() {
    let reg = small_registry();
    let first = generate(&reg, Api::Gl, "4.5", "core", &vec![]).unwrap();
    let second = generate(&reg, Api::Gl, "4.5", "core", &vec![]).unwrap();
    assert_eq!(first, second);
}

#[test]
fn unknown_version_fails_without_output() {
    let reg = small_registry();
    let r = generate(&reg, Api::Gl, "9.9", "core", &vec![]);
    assert_eq!(r, Err(GenError::UnknownApi));
}

#[test]
fn unknown_profile_fails_without_output() {
    let reg = small_registry();
    let r = generate(&reg, Api::Gl, "4.5", "compatibility", &vec![]);
    assert_eq!(r, Err(GenError::UnknownApi));
}

#[test]
fn unknown_extension_fails() {
    let reg = small_registry();
    let r = generate(&reg, Api::Gl, "4.5", "core", &vec!["GL_EXT_missing".to_string()]);
    assert_eq!(r, Err(GenError::UnknownExtension));
}

#[test]
fn requested_extension_adds_commands_and_enums() {
    let reg = small_registry();
    let bare = generate(&reg, Api::Gl, "4.5", "core", &vec![]).unwrap();
    assert!(!bare.contains("PopDebugGroup"));
    assert!(!bare.contains("DEBUG_OUTPUT"));

    let with_ext =
        generate(&reg, Api::Gl, "4.5", "core", &vec!["GL_KHR_debug".to_string()]).unwrap();
    assert_eq!(with_ext.matches("pub unsafe fn PopDebugGroup(").count(), 1);
    assert_eq!(with_ext.matches("static epoxy_PopDebugGroup:").count(), 1);
    assert!(with_ext.contains("pub const DEBUG_OUTPUT: types::GLenum = 0x92e0;\n"));

    let clear = with_ext.find("pub unsafe fn Clear(").unwrap();
    let pop = with_ext.find("pub unsafe fn PopDebugGroup(").unwrap();
    assert!(clear < pop, "extension commands follow the core commands");
}

#[test]
fn other_api_families_name_struct_and_symbols() {
    let reg = Registry {
        features: vec![feature("1.4", "core")],
        aliases: vec![],
        enums: vec![],
        cmds: vec![command("QueryVersion", vec![], "()")],
        extensions: vec![],
    };
    let out = generate(&reg, Api::Glx, "1.4", "core", &vec![]).unwrap();
    assert!(out.contains("pub struct Glx;\n"));
    assert!(out.contains("#[link_name=\"epoxy_glXQueryVersion\"]\n"));
    assert!(out.contains("static epoxy_QueryVersion:"));
}
