//! The shader's side of the flag agreement: reading conditions back out of
//! a flag word, and the proofs that encoding and decoding agree.
//!
//! The fragment shader tests each condition with a bitwise mask and shifts
//! the alpha-mode code out of the top three bits. `decode_flags` states that
//! reading in executable form; the round-trip lemmas prove that decoding an
//! encoded material recovers exactly the material's conditions — the
//! cross-boundary property the whole bit layout exists for.

use vstd::prelude::*;

use crate::encode::{
    lemma_alpha_mode_code_bounded, lemma_flag_word_bits, spec_alpha_mode_code,
    spec_attenuation_enabled, spec_custom_flags, spec_encode_custom, spec_encode_toon,
    spec_toon_flags, spec_two_component_normal_map, ALPHA_MODE_SHIFT_BITS,
    ATTENUATION_ENABLED, BASE_COLOR_TEXTURE, DEPTH_MAP, DIFFUSE_TRANSMISSION_TEXTURE,
    DOUBLE_SIDED, EMISSIVE_TEXTURE, FLIP_NORMAL_MAP_Y, FOG_ENABLED, METALLIC_ROUGHNESS_TEXTURE,
    OCCLUSION_TEXTURE, SPECULAR_TRANSMISSION_TEXTURE, THICKNESS_TEXTURE,
    TWO_COMPONENT_NORMAL_MAP, UNLIT,
};
use crate::material::{CustomMaterial, ToonMaterial};

verus! {

/// The boolean conditions and alpha-mode code a flag word carries: what the
/// shader learns from the word, and nothing else.
#[derive(Clone, Copy, Debug, PartialEq, Eq, Structural)]
pub struct FlagConditions {
    pub base_color_texture: bool,
    pub emissive_texture: bool,
    pub metallic_roughness_texture: bool,
    pub occlusion_texture: bool,
    pub double_sided: bool,
    pub unlit: bool,
    pub two_component_normal_map: bool,
    pub flip_normal_map_y: bool,
    pub fog_enabled: bool,
    pub depth_map: bool,
    pub specular_transmission_texture: bool,
    pub thickness_texture: bool,
    pub diffuse_transmission_texture: bool,
    pub attenuation_enabled: bool,
    pub alpha_mode_code: u32,
}

/// Reading a flag word the way the shader does: one mask test per condition,
/// the top three bits shifted down for the alpha-mode code.
pub open spec fn spec_decode_flags(flags: u32) -> FlagConditions {
    FlagConditions {
        base_color_texture: flags & BASE_COLOR_TEXTURE != 0,
        emissive_texture: flags & EMISSIVE_TEXTURE != 0,
        metallic_roughness_texture: flags & METALLIC_ROUGHNESS_TEXTURE != 0,
        occlusion_texture: flags & OCCLUSION_TEXTURE != 0,
        double_sided: flags & DOUBLE_SIDED != 0,
        unlit: flags & UNLIT != 0,
        two_component_normal_map: flags & TWO_COMPONENT_NORMAL_MAP != 0,
        flip_normal_map_y: flags & FLIP_NORMAL_MAP_Y != 0,
        fog_enabled: flags & FOG_ENABLED != 0,
        depth_map: flags & DEPTH_MAP != 0,
        specular_transmission_texture: flags & SPECULAR_TRANSMISSION_TEXTURE != 0,
        thickness_texture: flags & THICKNESS_TEXTURE != 0,
        diffuse_transmission_texture: flags & DIFFUSE_TRANSMISSION_TEXTURE != 0,
        attenuation_enabled: flags & ATTENUATION_ENABLED != 0,
        alpha_mode_code: flags >> ALPHA_MODE_SHIFT_BITS,
    }
}

/// The conditions an extended material asks the encoder to record.
pub open spec fn spec_custom_conditions(m: CustomMaterial) -> FlagConditions {
    FlagConditions {
        base_color_texture: m.base_color_texture,
        emissive_texture: m.emissive_texture,
        metallic_roughness_texture: m.metallic_roughness_texture,
        occlusion_texture: m.occlusion_texture,
        double_sided: m.double_sided,
        unlit: m.unlit,
        two_component_normal_map: spec_two_component_normal_map(m),
        flip_normal_map_y: m.flip_normal_map_y,
        fog_enabled: m.fog_enabled,
        depth_map: m.depth_map,
        specular_transmission_texture: m.specular_transmission_texture,
        thickness_texture: m.thickness_texture,
        diffuse_transmission_texture: m.diffuse_transmission_texture,
        attenuation_enabled: spec_attenuation_enabled(m),
        alpha_mode_code: spec_alpha_mode_code(m.alpha_mode),
    }
}

/// The conditions a toon material asks the encoder to record: every boolean
/// off, only the alpha-mode code.
pub open spec fn spec_toon_conditions(m: ToonMaterial) -> FlagConditions {
    FlagConditions {
        base_color_texture: false,
        emissive_texture: false,
        metallic_roughness_texture: false,
        occlusion_texture: false,
        double_sided: false,
        unlit: false,
        two_component_normal_map: false,
        flip_normal_map_y: false,
        fog_enabled: false,
        depth_map: false,
        specular_transmission_texture: false,
        thickness_texture: false,
        diffuse_transmission_texture: false,
        attenuation_enabled: false,
        alpha_mode_code: spec_alpha_mode_code(m.alpha_mode),
    }
}

/// Decodes a flag word exactly as the paired shader does.
pub fn decode_flags(flags: u32) -> (r: FlagConditions)
    ensures
        r == spec_decode_flags(flags),
{
    FlagConditions {
        base_color_texture: flags & BASE_COLOR_TEXTURE != 0,
        emissive_texture: flags & EMISSIVE_TEXTURE != 0,
        metallic_roughness_texture: flags & METALLIC_ROUGHNESS_TEXTURE != 0,
        occlusion_texture: flags & OCCLUSION_TEXTURE != 0,
        double_sided: flags & DOUBLE_SIDED != 0,
        unlit: flags & UNLIT != 0,
        two_component_normal_map: flags & TWO_COMPONENT_NORMAL_MAP != 0,
        flip_normal_map_y: flags & FLIP_NORMAL_MAP_Y != 0,
        fog_enabled: flags & FOG_ENABLED != 0,
        depth_map: flags & DEPTH_MAP != 0,
        specular_transmission_texture: flags & SPECULAR_TRANSMISSION_TEXTURE != 0,
        thickness_texture: flags & THICKNESS_TEXTURE != 0,
        diffuse_transmission_texture: flags & DIFFUSE_TRANSMISSION_TEXTURE != 0,
        attenuation_enabled: flags & ATTENUATION_ENABLED != 0,
        alpha_mode_code: flags >> ALPHA_MODE_SHIFT_BITS,
    }
}

/// Round trip for the extended material: decoding the encoded flag word
/// recovers exactly the material's conditions — every condition bit, and
/// the alpha-mode code, come back as they went in.
#[verifier::rlimit(100)]
pub proof fn lemma_custom_round_trip(m: CustomMaterial)
    ensures
        spec_decode_flags(spec_custom_flags(m)) == spec_custom_conditions(m),
{
    lemma_alpha_mode_code_bounded(m.alpha_mode);
    lemma_flag_word_bits(
        m.base_color_texture,
        m.emissive_texture,
        m.metallic_roughness_texture,
        m.occlusion_texture,
        m.double_sided,
        m.unlit,
        spec_two_component_normal_map(m),
        m.flip_normal_map_y,
        m.fog_enabled,
        m.depth_map,
        m.specular_transmission_texture,
        m.thickness_texture,
        m.diffuse_transmission_texture,
        spec_attenuation_enabled(m),
        spec_alpha_mode_code(m.alpha_mode),
        spec_custom_flags(m),
    );
}

/// Round trip for the toon material: decoding the encoded flag word yields
/// no condition bits and exactly the material's alpha-mode code.
pub proof fn lemma_toon_round_trip(m: ToonMaterial)
    ensures
        spec_decode_flags(spec_toon_flags(m)) == spec_toon_conditions(m),
{
    lemma_alpha_mode_code_bounded(m.alpha_mode);
    lemma_flag_word_bits(
        false,
        false,
        false,
        false,
        false,
        false,
        false,
        false,
        false,
        false,
        false,
        false,
        false,
        false,
        spec_alpha_mode_code(m.alpha_mode),
        spec_toon_flags(m),
    );
}

/// Encoding is deterministic: the uniform is a function of the material
/// description alone, so equal descriptions encode to bit-identical
/// uniforms.
pub proof fn lemma_custom_encode_deterministic(a: CustomMaterial, b: CustomMaterial)
    requires
        a == b,
    ensures
        spec_encode_custom(a) == spec_encode_custom(b),
{
}

/// Encoding the toon material is deterministic in the same way.
pub proof fn lemma_toon_encode_deterministic(a: ToonMaterial, b: ToonMaterial)
    requires
        a == b,
    ensures
        spec_encode_toon(a) == spec_encode_toon(b),
{
}

} // verus!
