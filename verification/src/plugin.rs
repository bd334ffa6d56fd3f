//! What the two shader plugins install into their host.
//!
//! Installing a plugin means registering shader sources with the host's
//! asset system under fixed, globally unique handle identifiers, and — for
//! the toon plugin — seeding the material store with the default material.
//! The host performs the registration; this module states exactly which
//! registrations each plugin asks for, so the host-facing glue has nothing
//! left to decide. Registration is idempotent on the host's side:
//! re-registering the same identifier overwrites, never fails.

use vstd::prelude::*;

use crate::material::{spec_default_toon, ToonMaterial};

verus! {

/// Handle identifier of the extended material's shader source.
pub const CUSTOM_SHADER_ID: u128 = 1107985723454826659;

/// Handle identifier of the toon material's main shader source.
pub const TOON_SHADER_ID: u128 = 1107985723454826662;

/// Handle identifier of the toon shader's binding declarations.
pub const TOON_BINDINGS_ID: u128 = 1107985723454826660;

/// Handle identifier of the toon shader's fragment stage.
pub const TOON_FRAGMENT_ID: u128 = 1107985723454826661;

/// One shader asset the host must register: the handle identifier to
/// register it under, and the name of the shader source file.
pub struct ShaderRegistration {
    pub handle_id: u128,
    pub source_path: String,
}

/// The plugin installing the extended material pipeline.
#[derive(Clone, Copy, Debug, Default)]
pub struct CustomShaderPlugin;

impl CustomShaderPlugin {
    /// The shader assets this plugin registers: its single shader source,
    /// under the extended material's handle identifier.
    pub fn shader_registrations(&self) -> (r: Vec<ShaderRegistration>)
        ensures
            r@.len() == 1,
            r@[0].handle_id == CUSTOM_SHADER_ID,
            r@[0].source_path@ == "custom_shader.wgsl"@,
    {
        let mut regs: Vec<ShaderRegistration> = Vec::new();
        regs.push(
            ShaderRegistration {
                handle_id: CUSTOM_SHADER_ID,
                source_path: "custom_shader.wgsl".to_owned(),
            },
        );
        regs
    }
}

/// The plugin installing the toon material pipeline.
#[derive(Clone, Copy, Debug, Default)]
pub struct ToonShaderPlugin;

impl ToonShaderPlugin {
    /// The shader assets this plugin registers: the main shader, its
    /// binding declarations, and its fragment stage, in that order.
    pub fn shader_registrations(&self) -> (r: Vec<ShaderRegistration>)
        ensures
            r@.len() == 3,
            r@[0].handle_id == TOON_SHADER_ID,
            r@[0].source_path@ == "toon_shader.wgsl"@,
            r@[1].handle_id == TOON_BINDINGS_ID,
            r@[1].source_path@ == "toon_bindings.wgsl"@,
            r@[2].handle_id == TOON_FRAGMENT_ID,
            r@[2].source_path@ == "toon_fragment.wgsl"@,
    {
        let mut regs: Vec<ShaderRegistration> = Vec::new();
        regs.push(
            ShaderRegistration {
                handle_id: TOON_SHADER_ID,
                source_path: "toon_shader.wgsl".to_owned(),
            },
        );
        regs.push(
            ShaderRegistration {
                handle_id: TOON_BINDINGS_ID,
                source_path: "toon_bindings.wgsl".to_owned(),
            },
        );
        regs.push(
            ShaderRegistration {
                handle_id: TOON_FRAGMENT_ID,
                source_path: "toon_fragment.wgsl".to_owned(),
            },
        );
        regs
    }

    /// The material this plugin seeds the host's material store with under
    /// the default handle: the default toon material.
    pub fn initial_material(&self) -> (r: ToonMaterial)
        ensures
            r == spec_default_toon(),
    {
        ToonMaterial::default()
    }
}

} // verus!
