//! The flag encoder: packs a material description into the uniform layout
//! its fragment shader reads.
//!
//! The flag word gives each boolean condition one of the low fourteen bits
//! and reserves the top three bits for an enumerated alpha-mode code. The
//! bit order carries no meaning of its own, but it must stay identical to
//! the masks in the paired shader source: the lemmas at the bottom pin down
//! how each bit reads back.

use vstd::prelude::*;

use crate::color::Rgba;
use crate::float_bits;
use crate::float_bits::ONE_HALF_BITS;
use crate::material::{
    spec_is_two_component_unorm, AlphaMode, CustomMaterial, ToonMaterial,
};

verus! {

/// A base-color texture is present.
pub const BASE_COLOR_TEXTURE: u32 = 0x1;

/// An emissive texture is present.
pub const EMISSIVE_TEXTURE: u32 = 0x2;

/// A metallic-roughness texture is present.
pub const METALLIC_ROUGHNESS_TEXTURE: u32 = 0x4;

/// An occlusion texture is present.
pub const OCCLUSION_TEXTURE: u32 = 0x8;

/// The surface is rendered from both sides.
pub const DOUBLE_SIDED: u32 = 0x10;

/// Lighting is skipped for this material.
pub const UNLIT: u32 = 0x20;

/// The normal map stores two components only; the shader reconstructs the
/// third.
pub const TWO_COMPONENT_NORMAL_MAP: u32 = 0x40;

/// The normal map's vertical axis is flipped.
pub const FLIP_NORMAL_MAP_Y: u32 = 0x80;

/// Distance fog applies to this material.
pub const FOG_ENABLED: u32 = 0x100;

/// A depth map for parallax mapping is present.
pub const DEPTH_MAP: u32 = 0x200;

/// A specular-transmission texture is present.
pub const SPECULAR_TRANSMISSION_TEXTURE: u32 = 0x400;

/// A thickness texture is present.
pub const THICKNESS_TEXTURE: u32 = 0x800;

/// A diffuse-transmission texture is present.
pub const DIFFUSE_TRANSMISSION_TEXTURE: u32 = 0x1000;

/// Volumetric attenuation is enabled (the attenuation distance is finite).
pub const ATTENUATION_ENABLED: u32 = 0x2000;

/// Mask of the fourteen condition bits.
pub const CONDITION_BITS: u32 = 0x3FFF;

/// How far the three-bit alpha-mode code sits above bit zero.
pub const ALPHA_MODE_SHIFT_BITS: u32 = 29;

/// Mask of the alpha-mode code once shifted down to the low bits.
pub const ALPHA_MODE_MASK_BITS: u32 = 0x7;

/// Mask of the bits reserved for the alpha-mode code.
pub const ALPHA_MODE_RESERVED_BITS: u32 = 0xE000_0000;

/// Mask of the bits between the condition bits and the alpha-mode code,
/// which the layout leaves permanently clear.
pub const UNUSED_BITS: u32 = 0x1FFF_C000;

/// Alpha-mode code for `Opaque`.
pub const ALPHA_MODE_OPAQUE: u32 = 0;

/// Alpha-mode code for `Mask`.
pub const ALPHA_MODE_MASK: u32 = 1;

/// Alpha-mode code for `Blend`.
pub const ALPHA_MODE_BLEND: u32 = 2;

/// Alpha-mode code for `Premultiplied`.
pub const ALPHA_MODE_PREMULTIPLIED: u32 = 3;

/// Alpha-mode code for `Add`.
pub const ALPHA_MODE_ADD: u32 = 4;

/// Alpha-mode code for `Multiply`.
pub const ALPHA_MODE_MULTIPLY: u32 = 5;

/// Bit pattern of the cutoff the uniform carries for every alpha mode other
/// than `Mask` (the value one half).
pub const DEFAULT_ALPHA_CUTOFF_BITS: u32 = ONE_HALF_BITS;

/// The code stored in the top three bits of the flag word, one value per
/// alpha mode.
pub open spec fn spec_alpha_mode_code(m: AlphaMode) -> u32 {
    match m {
        AlphaMode::Opaque => ALPHA_MODE_OPAQUE,
        AlphaMode::Mask(_) => ALPHA_MODE_MASK,
        AlphaMode::Blend => ALPHA_MODE_BLEND,
        AlphaMode::Premultiplied => ALPHA_MODE_PREMULTIPLIED,
        AlphaMode::Add => ALPHA_MODE_ADD,
        AlphaMode::Multiply => ALPHA_MODE_MULTIPLY,
    }
}

/// The cutoff the uniform carries: the mode's own cutoff under `Mask`, the
/// default of one half under every other mode.
pub open spec fn spec_alpha_cutoff_bits(m: AlphaMode) -> u32 {
    match m {
        AlphaMode::Mask(cutoff_bits) => cutoff_bits,
        _ => DEFAULT_ALPHA_CUTOFF_BITS,
    }
}

/// The flag word assembled from its fourteen conditions and the alpha-mode
/// code: one bit per condition, the code in the top three bits.
pub open spec fn spec_flag_word(
    base_color_texture: bool,
    emissive_texture: bool,
    metallic_roughness_texture: bool,
    occlusion_texture: bool,
    double_sided: bool,
    unlit: bool,
    two_component_normal_map: bool,
    flip_normal_map_y: bool,
    fog_enabled: bool,
    depth_map: bool,
    specular_transmission_texture: bool,
    thickness_texture: bool,
    diffuse_transmission_texture: bool,
    attenuation_enabled: bool,
    alpha_mode_code: u32,
) -> u32 {
    (if base_color_texture { BASE_COLOR_TEXTURE } else { 0 })
        | (if emissive_texture { EMISSIVE_TEXTURE } else { 0 })
        | (if metallic_roughness_texture { METALLIC_ROUGHNESS_TEXTURE } else { 0 })
        | (if occlusion_texture { OCCLUSION_TEXTURE } else { 0 })
        | (if double_sided { DOUBLE_SIDED } else { 0 })
        | (if unlit { UNLIT } else { 0 })
        | (if two_component_normal_map { TWO_COMPONENT_NORMAL_MAP } else { 0 })
        | (if flip_normal_map_y { FLIP_NORMAL_MAP_Y } else { 0 })
        | (if fog_enabled { FOG_ENABLED } else { 0 })
        | (if depth_map { DEPTH_MAP } else { 0 })
        | (if specular_transmission_texture { SPECULAR_TRANSMISSION_TEXTURE } else { 0 })
        | (if thickness_texture { THICKNESS_TEXTURE } else { 0 })
        | (if diffuse_transmission_texture { DIFFUSE_TRANSMISSION_TEXTURE } else { 0 })
        | (if attenuation_enabled { ATTENUATION_ENABLED } else { 0 })
        | (alpha_mode_code << ALPHA_MODE_SHIFT_BITS)
}

/// The two-component-normal-map condition: a normal map is present and its
/// resolved format is a two-component unorm format. An unresolved texture
/// leaves the condition false.
pub open spec fn spec_two_component_normal_map(m: CustomMaterial) -> bool {
    m.normal_map_texture && match m.normal_map_format {
        Some(f) => spec_is_two_component_unorm(f),
        None => false,
    }
}

/// The attenuation condition: the attenuation distance is a finite value.
pub open spec fn spec_attenuation_enabled(m: CustomMaterial) -> bool {
    float_bits::spec_is_finite(m.attenuation_distance_bits)
}

/// The flag word an extended material encodes to.
pub open spec fn spec_custom_flags(m: CustomMaterial) -> u32 {
    spec_flag_word(
        m.base_color_texture,
        m.emissive_texture,
        m.metallic_roughness_texture,
        m.occlusion_texture,
        m.double_sided,
        m.unlit,
        spec_two_component_normal_map(m),
        m.flip_normal_map_y,
        m.fog_enabled,
        m.depth_map,
        m.specular_transmission_texture,
        m.thickness_texture,
        m.diffuse_transmission_texture,
        spec_attenuation_enabled(m),
        spec_alpha_mode_code(m.alpha_mode),
    )
}

/// The flag word a toon material encodes to: no condition bits, only the
/// alpha-mode code.
pub open spec fn spec_toon_flags(m: ToonMaterial) -> u32 {
    spec_flag_word(
        false,
        false,
        false,
        false,
        false,
        false,
        false,
        false,
        false,
        false,
        false,
        false,
        false,
        false,
        spec_alpha_mode_code(m.alpha_mode),
    )
}

/// The uniform block the extended shader binds: colors and scalars copied
/// through as bit patterns, the flag word, and the alpha cutoff.
#[derive(Clone, Copy, Debug, PartialEq, Eq, Structural)]
pub struct CustomMaterialUniform {
    pub base_color: Rgba,
    pub emissive: Rgba,
    pub roughness_bits: u32,
    pub metallic_bits: u32,
    pub reflectance_bits: u32,
    pub diffuse_transmission_bits: u32,
    pub specular_transmission_bits: u32,
    pub thickness_bits: u32,
    pub ior_bits: u32,
    pub attenuation_distance_bits: u32,
    pub attenuation_color: Rgba,
    pub flags: u32,
    pub alpha_cutoff_bits: u32,
    pub parallax_depth_scale_bits: u32,
    pub max_parallax_layer_count_bits: u32,
    pub max_relief_mapping_search_steps: u32,
    pub deferred_lighting_pass_id: u32,
}

/// The uniform block the toon shader binds.
#[derive(Clone, Copy, Debug, PartialEq, Eq, Structural)]
pub struct ToonMaterialUniform {
    pub base_color: Rgba,
    pub flags: u32,
    pub alpha_cutoff_bits: u32,
    pub deferred_lighting_pass_id: u32,
}

/// The uniform an extended material encodes to, field by field.
pub open spec fn spec_encode_custom(m: CustomMaterial) -> CustomMaterialUniform {
    CustomMaterialUniform {
        base_color: m.base_color,
        emissive: m.emissive,
        roughness_bits: m.perceptual_roughness_bits,
        metallic_bits: m.metallic_bits,
        reflectance_bits: m.reflectance_bits,
        diffuse_transmission_bits: m.diffuse_transmission_bits,
        specular_transmission_bits: m.specular_transmission_bits,
        thickness_bits: m.thickness_bits,
        ior_bits: m.ior_bits,
        attenuation_distance_bits: m.attenuation_distance_bits,
        attenuation_color: m.attenuation_color,
        flags: spec_custom_flags(m),
        alpha_cutoff_bits: spec_alpha_cutoff_bits(m.alpha_mode),
        parallax_depth_scale_bits: m.parallax_depth_scale_bits,
        max_parallax_layer_count_bits: m.max_parallax_layer_count_bits,
        max_relief_mapping_search_steps: 0,
        deferred_lighting_pass_id: m.deferred_lighting_pass_id as u32,
    }
}

/// The uniform a toon material encodes to, field by field.
pub open spec fn spec_encode_toon(m: ToonMaterial) -> ToonMaterialUniform {
    ToonMaterialUniform {
        base_color: m.base_color,
        flags: spec_toon_flags(m),
        alpha_cutoff_bits: spec_alpha_cutoff_bits(m.alpha_mode),
        deferred_lighting_pass_id: m.deferred_lighting_pass_id as u32,
    }
}

/// Every alpha-mode code fits the three reserved bits.
pub proof fn lemma_alpha_mode_code_bounded(m: AlphaMode)
    ensures
        spec_alpha_mode_code(m) <= 5,
{
}

/// How the assembled flag word reads back: each of the fourteen condition
/// bits is set exactly when its condition holds, independent of every other
/// condition, and the top three bits hold exactly the alpha-mode code. This
/// is the agreement the paired shader's masks rely on: conditions and the
/// alpha-mode code never overlap and never influence one another.
#[verifier::rlimit(60)]
pub proof fn lemma_flag_word_bits(
    base_color_texture: bool,
    emissive_texture: bool,
    metallic_roughness_texture: bool,
    occlusion_texture: bool,
    double_sided: bool,
    unlit: bool,
    two_component_normal_map: bool,
    flip_normal_map_y: bool,
    fog_enabled: bool,
    depth_map: bool,
    specular_transmission_texture: bool,
    thickness_texture: bool,
    diffuse_transmission_texture: bool,
    attenuation_enabled: bool,
    alpha_mode_code: u32,
    flags: u32,
)
    requires
        alpha_mode_code <= 5,
        flags == spec_flag_word(
            base_color_texture,
            emissive_texture,
            metallic_roughness_texture,
            occlusion_texture,
            double_sided,
            unlit,
            two_component_normal_map,
            flip_normal_map_y,
            fog_enabled,
            depth_map,
            specular_transmission_texture,
            thickness_texture,
            diffuse_transmission_texture,
            attenuation_enabled,
            alpha_mode_code,
        ),
    ensures
        (flags & BASE_COLOR_TEXTURE != 0) == base_color_texture,
        (flags & EMISSIVE_TEXTURE != 0) == emissive_texture,
        (flags & METALLIC_ROUGHNESS_TEXTURE != 0) == metallic_roughness_texture,
        (flags & OCCLUSION_TEXTURE != 0) == occlusion_texture,
        (flags & DOUBLE_SIDED != 0) == double_sided,
        (flags & UNLIT != 0) == unlit,
        (flags & TWO_COMPONENT_NORMAL_MAP != 0) == two_component_normal_map,
        (flags & FLIP_NORMAL_MAP_Y != 0) == flip_normal_map_y,
        (flags & FOG_ENABLED != 0) == fog_enabled,
        (flags & DEPTH_MAP != 0) == depth_map,
        (flags & SPECULAR_TRANSMISSION_TEXTURE != 0) == specular_transmission_texture,
        (flags & THICKNESS_TEXTURE != 0) == thickness_texture,
        (flags & DIFFUSE_TRANSMISSION_TEXTURE != 0) == diffuse_transmission_texture,
        (flags & ATTENUATION_ENABLED != 0) == attenuation_enabled,
        flags >> ALPHA_MODE_SHIFT_BITS == alpha_mode_code,
        flags & ALPHA_MODE_RESERVED_BITS == alpha_mode_code << ALPHA_MODE_SHIFT_BITS,
        flags & UNUSED_BITS == 0,
{
    assert((flags & 0x1u32 != 0) == base_color_texture && (flags & 0x2u32 != 0) == emissive_texture
        && (flags & 0x4u32 != 0) == metallic_roughness_texture && (flags & 0x8u32 != 0)
        == occlusion_texture && (flags & 0x10u32 != 0) == double_sided && (flags & 0x20u32 != 0)
        == unlit && (flags & 0x40u32 != 0) == two_component_normal_map && (flags & 0x80u32 != 0)
        == flip_normal_map_y && (flags & 0x100u32 != 0) == fog_enabled && (flags & 0x200u32 != 0)
        == depth_map && (flags & 0x400u32 != 0) == specular_transmission_texture && (flags
        & 0x800u32 != 0) == thickness_texture && (flags & 0x1000u32 != 0)
        == diffuse_transmission_texture && (flags & 0x2000u32 != 0) == attenuation_enabled && flags
        >> 29u32 == alpha_mode_code && flags & 0xE000_0000u32 == alpha_mode_code << 29u32 && flags
        & 0x1FFF_C000u32 == 0) by (bit_vector)
        requires
            alpha_mode_code <= 5,
            flags == (if base_color_texture { 0x1u32 } else { 0u32 })
                | (if emissive_texture { 0x2u32 } else { 0u32 })
                | (if metallic_roughness_texture { 0x4u32 } else { 0u32 })
                | (if occlusion_texture { 0x8u32 } else { 0u32 })
                | (if double_sided { 0x10u32 } else { 0u32 })
                | (if unlit { 0x20u32 } else { 0u32 })
                | (if two_component_normal_map { 0x40u32 } else { 0u32 })
                | (if flip_normal_map_y { 0x80u32 } else { 0u32 })
                | (if fog_enabled { 0x100u32 } else { 0u32 })
                | (if depth_map { 0x200u32 } else { 0u32 })
                | (if specular_transmission_texture { 0x400u32 } else { 0u32 })
                | (if thickness_texture { 0x800u32 } else { 0u32 })
                | (if diffuse_transmission_texture { 0x1000u32 } else { 0u32 })
                | (if attenuation_enabled { 0x2000u32 } else { 0u32 })
                | (alpha_mode_code << 29u32),
    ;
}

/// The alpha-mode code of an alpha mode, as the executable counterpart of
/// `spec_alpha_mode_code`.
pub fn alpha_mode_code(m: AlphaMode) -> (r: u32)
    ensures
        r == spec_alpha_mode_code(m),
{
    match m {
        AlphaMode::Opaque => ALPHA_MODE_OPAQUE,
        AlphaMode::Mask(_) => ALPHA_MODE_MASK,
        AlphaMode::Blend => ALPHA_MODE_BLEND,
        AlphaMode::Premultiplied => ALPHA_MODE_PREMULTIPLIED,
        AlphaMode::Add => ALPHA_MODE_ADD,
        AlphaMode::Multiply => ALPHA_MODE_MULTIPLY,
    }
}

/// The cutoff bit pattern an alpha mode carries into the uniform, as the
/// executable counterpart of `spec_alpha_cutoff_bits`.
pub fn alpha_cutoff_bits(m: AlphaMode) -> (r: u32)
    ensures
        r == spec_alpha_cutoff_bits(m),
{
    match m {
        AlphaMode::Mask(cutoff_bits) => cutoff_bits,
        _ => DEFAULT_ALPHA_CUTOFF_BITS,
    }
}

/// Whether the material's normal map is present and resolved to a
/// two-component unorm format.
fn two_component_normal_map(m: &CustomMaterial) -> (r: bool)
    ensures
        r == spec_two_component_normal_map(*m),
{
    m.normal_map_texture && (match m.normal_map_format {
        Some(f) => f.is_two_component_unorm(),
        None => false,
    })
}

/// The contribution one condition makes to the flag word: its mask when the
/// condition holds, nothing otherwise.
fn condition_bit(condition: bool, mask: u32) -> (r: u32)
    ensures
        r == (if condition {
            mask
        } else {
            0u32
        }),
{
    if condition {
        mask
    } else {
        0
    }
}

impl CustomMaterial {
    /// Encodes the material into its uniform block. The result is a pure
    /// function of the description: colors and scalars are copied through
    /// unchanged, the flag word packs the fourteen conditions and the
    /// alpha-mode code, and the cutoff is the mask cutoff or its default.
    #[verifier::rlimit(100)]
    pub fn encode(&self) -> (r: CustomMaterialUniform)
        ensures
            r == spec_encode_custom(*self),
            r.flags == spec_custom_flags(*self),
            (r.flags & BASE_COLOR_TEXTURE != 0) == self.base_color_texture,
            (r.flags & EMISSIVE_TEXTURE != 0) == self.emissive_texture,
            (r.flags & METALLIC_ROUGHNESS_TEXTURE != 0) == self.metallic_roughness_texture,
            (r.flags & OCCLUSION_TEXTURE != 0) == self.occlusion_texture,
            (r.flags & DOUBLE_SIDED != 0) == self.double_sided,
            (r.flags & UNLIT != 0) == self.unlit,
            (r.flags & TWO_COMPONENT_NORMAL_MAP != 0) == spec_two_component_normal_map(*self),
            (r.flags & FLIP_NORMAL_MAP_Y != 0) == self.flip_normal_map_y,
            (r.flags & FOG_ENABLED != 0) == self.fog_enabled,
            (r.flags & DEPTH_MAP != 0) == self.depth_map,
            (r.flags & SPECULAR_TRANSMISSION_TEXTURE != 0) == self.specular_transmission_texture,
            (r.flags & THICKNESS_TEXTURE != 0) == self.thickness_texture,
            (r.flags & DIFFUSE_TRANSMISSION_TEXTURE != 0) == self.diffuse_transmission_texture,
            (r.flags & ATTENUATION_ENABLED != 0) == spec_attenuation_enabled(*self),
            r.flags >> ALPHA_MODE_SHIFT_BITS == spec_alpha_mode_code(self.alpha_mode),
            r.flags & UNUSED_BITS == 0,
            r.alpha_cutoff_bits == spec_alpha_cutoff_bits(self.alpha_mode),
    {
        let two_component = two_component_normal_map(self);
        let attenuation_enabled = float_bits::is_finite(self.attenuation_distance_bits);
        let code: u32 = alpha_mode_code(self.alpha_mode);
        let cutoff_bits: u32 = alpha_cutoff_bits(self.alpha_mode);
        let flags: u32 = condition_bit(self.base_color_texture, BASE_COLOR_TEXTURE)
            | condition_bit(self.emissive_texture, EMISSIVE_TEXTURE)
            | condition_bit(self.metallic_roughness_texture, METALLIC_ROUGHNESS_TEXTURE)
            | condition_bit(self.occlusion_texture, OCCLUSION_TEXTURE)
            | condition_bit(self.double_sided, DOUBLE_SIDED)
            | condition_bit(self.unlit, UNLIT)
            | condition_bit(two_component, TWO_COMPONENT_NORMAL_MAP)
            | condition_bit(self.flip_normal_map_y, FLIP_NORMAL_MAP_Y)
            | condition_bit(self.fog_enabled, FOG_ENABLED)
            | condition_bit(self.depth_map, DEPTH_MAP)
            | condition_bit(self.specular_transmission_texture, SPECULAR_TRANSMISSION_TEXTURE)
            | condition_bit(self.thickness_texture, THICKNESS_TEXTURE)
            | condition_bit(self.diffuse_transmission_texture, DIFFUSE_TRANSMISSION_TEXTURE)
            | condition_bit(attenuation_enabled, ATTENUATION_ENABLED)
            | (code << ALPHA_MODE_SHIFT_BITS);
        proof {
            lemma_alpha_mode_code_bounded(self.alpha_mode);
            lemma_flag_word_bits(
                self.base_color_texture,
                self.emissive_texture,
                self.metallic_roughness_texture,
                self.occlusion_texture,
                self.double_sided,
                self.unlit,
                two_component,
                self.flip_normal_map_y,
                self.fog_enabled,
                self.depth_map,
                self.specular_transmission_texture,
                self.thickness_texture,
                self.diffuse_transmission_texture,
                attenuation_enabled,
                code,
                flags,
            );
        }
        CustomMaterialUniform {
            base_color: self.base_color,
            emissive: self.emissive,
            roughness_bits: self.perceptual_roughness_bits,
            metallic_bits: self.metallic_bits,
            reflectance_bits: self.reflectance_bits,
            diffuse_transmission_bits: self.diffuse_transmission_bits,
            specular_transmission_bits: self.specular_transmission_bits,
            thickness_bits: self.thickness_bits,
            ior_bits: self.ior_bits,
            attenuation_distance_bits: self.attenuation_distance_bits,
            attenuation_color: self.attenuation_color,
            flags,
            alpha_cutoff_bits: cutoff_bits,
            parallax_depth_scale_bits: self.parallax_depth_scale_bits,
            max_parallax_layer_count_bits: self.max_parallax_layer_count_bits,
            max_relief_mapping_search_steps: 0,
            deferred_lighting_pass_id: self.deferred_lighting_pass_id as u32,
        }
    }
}

impl ToonMaterial {
    /// Encodes the toon material into its uniform block: the base color
    /// copied through, a flag word holding only the alpha-mode code, and
    /// the cutoff.
    pub fn encode(&self) -> (r: ToonMaterialUniform)
        ensures
            r == spec_encode_toon(*self),
            r.flags == spec_toon_flags(*self),
            r.flags & CONDITION_BITS == 0,
            r.flags >> ALPHA_MODE_SHIFT_BITS == spec_alpha_mode_code(self.alpha_mode),
            r.flags & UNUSED_BITS == 0,
            r.alpha_cutoff_bits == spec_alpha_cutoff_bits(self.alpha_mode),
    {
        let code: u32 = alpha_mode_code(self.alpha_mode);
        let cutoff_bits: u32 = alpha_cutoff_bits(self.alpha_mode);
        let flags: u32 = code << ALPHA_MODE_SHIFT_BITS;
        proof {
            lemma_alpha_mode_code_bounded(self.alpha_mode);
            assert(flags == spec_toon_flags(*self)) by {
                assert(code << 29u32 == (0u32 | 0 | 0 | 0 | 0 | 0 | 0 | 0 | 0 | 0 | 0 | 0 | 0 | 0
                    | (code << 29u32))) by (bit_vector);
            };
            assert(flags & CONDITION_BITS == 0) by {
                assert(code <= 5 ==> (code << 29u32) & 0x3FFFu32 == 0) by (bit_vector);
            };
            assert(flags >> ALPHA_MODE_SHIFT_BITS == code) by {
                assert(code <= 5 ==> (code << 29u32) >> 29u32 == code) by (bit_vector);
            };
            assert(flags & UNUSED_BITS == 0) by {
                assert(code <= 5 ==> (code << 29u32) & 0x1FFF_C000u32 == 0) by (bit_vector);
            };
        }
        ToonMaterialUniform {
            base_color: self.base_color,
            flags,
            alpha_cutoff_bits: cutoff_bits,
            deferred_lighting_pass_id: self.deferred_lighting_pass_id as u32,
        }
    }
}

} // verus!
