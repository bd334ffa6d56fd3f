//! Material descriptions: the inputs to the flag encoder.
//!
//! A material description holds plain values only. Texture slots appear as
//! presence booleans — the encoder cares whether a slot is filled, never
//! about texel content — except the normal-map slot, which also carries the
//! pixel format of the resolved texture, because the encoder must flag
//! two-component normal maps for the shader. Scalar fields are the raw bit
//! patterns of the host's single-precision values (see `float_bits`).

use vstd::prelude::*;

use crate::color::{spec_black, spec_white, Rgba};
use crate::float_bits;
use crate::float_bits::{ONE_HALF_BITS, POSITIVE_INFINITY_BITS, ZERO_BITS};

verus! {

/// How a surface's transparency is composited. The `Mask` payload is the
/// bit pattern of the single-precision cutoff value.
#[derive(Clone, Copy, Debug, PartialEq, Eq, Structural)]
pub enum AlphaMode {
    Opaque,
    Mask(u32),
    Blend,
    Premultiplied,
    Add,
    Multiply,
}

/// The pixel format of a resolved texture, as far as the encoder cares:
/// the four two-component unorm formats are distinguished because a normal
/// map stored in one of them must be flagged for the shader; every other
/// format behaves alike and is `Other`.
#[derive(Clone, Copy, Debug, PartialEq, Eq, Structural)]
pub enum PixelFormat {
    Rg8Unorm,
    Rg16Unorm,
    Bc5RgUnorm,
    EacRg11Unorm,
    Other,
}

/// Whether the format is one of the two-component unorm formats.
pub open spec fn spec_is_two_component_unorm(f: PixelFormat) -> bool {
    match f {
        PixelFormat::Rg8Unorm => true,
        PixelFormat::Rg16Unorm => true,
        PixelFormat::Bc5RgUnorm => true,
        PixelFormat::EacRg11Unorm => true,
        PixelFormat::Other => false,
    }
}

impl PixelFormat {
    /// Whether the format is one of the two-component unorm formats.
    pub fn is_two_component_unorm(&self) -> (r: bool)
        ensures
            r == spec_is_two_component_unorm(*self),
    {
        match self {
            PixelFormat::Rg8Unorm => true,
            PixelFormat::Rg16Unorm => true,
            PixelFormat::Bc5RgUnorm => true,
            PixelFormat::EacRg11Unorm => true,
            PixelFormat::Other => false,
        }
    }
}

/// Bit pattern of the default perceptual roughness (one half, matching a
/// common modelling default).
pub const DEFAULT_ROUGHNESS_BITS: u32 = ONE_HALF_BITS;

/// Bit pattern of the default reflectance (one half, a four percent
/// real-world reflectance on a linear scale).
pub const DEFAULT_REFLECTANCE_BITS: u32 = ONE_HALF_BITS;

/// Bit pattern of the default index of refraction (three halves).
pub const DEFAULT_IOR_BITS: u32 = 0x3FC0_0000;

/// Bit pattern of the default parallax depth scale (one tenth).
pub const DEFAULT_PARALLAX_DEPTH_SCALE_BITS: u32 = 0x3DCC_CCCD;

/// Bit pattern of the default maximum parallax layer count (sixteen).
pub const DEFAULT_MAX_PARALLAX_LAYER_COUNT_BITS: u32 = 0x4180_0000;

/// The lighting-pass identifier the deferred renderer uses for its standard
/// physically-based pass.
pub const DEFAULT_DEFERRED_LIGHTING_PASS_ID: u8 = 1;

/// The full material description: the input to the extended encoder.
#[derive(Clone, Copy, Debug)]
pub struct CustomMaterial {
    pub base_color: Rgba,
    pub base_color_texture: bool,
    pub emissive: Rgba,
    pub emissive_texture: bool,
    pub perceptual_roughness_bits: u32,
    pub metallic_bits: u32,
    pub metallic_roughness_texture: bool,
    pub reflectance_bits: u32,
    pub diffuse_transmission_bits: u32,
    pub diffuse_transmission_texture: bool,
    pub specular_transmission_bits: u32,
    pub specular_transmission_texture: bool,
    pub thickness_bits: u32,
    pub thickness_texture: bool,
    pub ior_bits: u32,
    pub attenuation_distance_bits: u32,
    pub attenuation_color: Rgba,
    pub normal_map_texture: bool,
    /// Pixel format of the resolved normal-map texture; `None` when the slot
    /// is empty or the host has not resolved the texture yet.
    pub normal_map_format: Option<PixelFormat>,
    pub flip_normal_map_y: bool,
    pub occlusion_texture: bool,
    pub double_sided: bool,
    pub unlit: bool,
    pub fog_enabled: bool,
    pub alpha_mode: AlphaMode,
    pub depth_map: bool,
    pub parallax_depth_scale_bits: u32,
    pub max_parallax_layer_count_bits: u32,
    pub deferred_lighting_pass_id: u8,
}

/// The default material: opaque white, no textures, fog on, every
/// transmission feature off, attenuation distance infinite (so attenuation
/// stays disabled).
pub open spec fn spec_default_custom() -> CustomMaterial {
    CustomMaterial {
        base_color: spec_white(),
        base_color_texture: false,
        emissive: spec_black(),
        emissive_texture: false,
        perceptual_roughness_bits: DEFAULT_ROUGHNESS_BITS,
        metallic_bits: ZERO_BITS,
        metallic_roughness_texture: false,
        reflectance_bits: DEFAULT_REFLECTANCE_BITS,
        diffuse_transmission_bits: ZERO_BITS,
        diffuse_transmission_texture: false,
        specular_transmission_bits: ZERO_BITS,
        specular_transmission_texture: false,
        thickness_bits: ZERO_BITS,
        thickness_texture: false,
        ior_bits: DEFAULT_IOR_BITS,
        attenuation_distance_bits: POSITIVE_INFINITY_BITS,
        attenuation_color: spec_white(),
        normal_map_texture: false,
        normal_map_format: None,
        flip_normal_map_y: false,
        occlusion_texture: false,
        double_sided: false,
        unlit: false,
        fog_enabled: true,
        alpha_mode: AlphaMode::Opaque,
        depth_map: false,
        parallax_depth_scale_bits: DEFAULT_PARALLAX_DEPTH_SCALE_BITS,
        max_parallax_layer_count_bits: DEFAULT_MAX_PARALLAX_LAYER_COUNT_BITS,
        deferred_lighting_pass_id: DEFAULT_DEFERRED_LIGHTING_PASS_ID,
    }
}

impl Default for CustomMaterial {
    fn default() -> (r: Self)
        ensures
            r == spec_default_custom(),
    {
        CustomMaterial {
            base_color: Rgba::white(),
            base_color_texture: false,
            emissive: Rgba::black(),
            emissive_texture: false,
            perceptual_roughness_bits: DEFAULT_ROUGHNESS_BITS,
            metallic_bits: ZERO_BITS,
            metallic_roughness_texture: false,
            reflectance_bits: DEFAULT_REFLECTANCE_BITS,
            diffuse_transmission_bits: ZERO_BITS,
            diffuse_transmission_texture: false,
            specular_transmission_bits: ZERO_BITS,
            specular_transmission_texture: false,
            thickness_bits: ZERO_BITS,
            thickness_texture: false,
            ior_bits: DEFAULT_IOR_BITS,
            attenuation_distance_bits: POSITIVE_INFINITY_BITS,
            attenuation_color: Rgba::white(),
            normal_map_texture: false,
            normal_map_format: None,
            flip_normal_map_y: false,
            occlusion_texture: false,
            double_sided: false,
            unlit: false,
            fog_enabled: true,
            alpha_mode: AlphaMode::Opaque,
            depth_map: false,
            parallax_depth_scale_bits: DEFAULT_PARALLAX_DEPTH_SCALE_BITS,
            max_parallax_layer_count_bits: DEFAULT_MAX_PARALLAX_LAYER_COUNT_BITS,
            deferred_lighting_pass_id: DEFAULT_DEFERRED_LIGHTING_PASS_ID,
        }
    }
}

/// The alpha mode a plain color implies: blended when its alpha channel is
/// strictly below one, opaque otherwise (a not-a-number alpha counts as
/// opaque, as any ordered comparison with it fails).
pub open spec fn spec_alpha_mode_for_color(color: Rgba) -> AlphaMode {
    if float_bits::spec_is_below_one(color.a_bits) {
        AlphaMode::Blend
    } else {
        AlphaMode::Opaque
    }
}

/// The material a plain color stands for: the default material carrying that
/// color, blended when the color is translucent.
pub open spec fn spec_custom_from_color(color: Rgba) -> CustomMaterial {
    CustomMaterial {
        base_color: color,
        alpha_mode: spec_alpha_mode_for_color(color),
        ..spec_default_custom()
    }
}

impl From<Rgba> for CustomMaterial {
    fn from(color: Rgba) -> (r: Self) {
        let mut m = CustomMaterial::default();
        m.base_color = color;
        m.alpha_mode = if float_bits::is_below_one(color.a_bits) {
            AlphaMode::Blend
        } else {
            AlphaMode::Opaque
        };
        m
    }
}

impl vstd::std_specs::convert::FromSpecImpl<Rgba> for CustomMaterial {
    open spec fn obeys_from_spec() -> bool {
        true
    }

    open spec fn from_spec(color: Rgba) -> CustomMaterial {
        spec_custom_from_color(color)
    }
}

/// The pipeline key derived from an extended material: the one bit of
/// material state the render pipeline specializes on.
#[derive(Clone, Copy, Debug, PartialEq, Eq, Structural, Hash)]
pub struct CustomMaterialKey {
    /// Whether the material carries a base color other than plain white.
    pub color: bool,
}

impl CustomMaterialKey {
    /// Derives the key: `color` is set exactly when the base color differs
    /// from opaque white.
    pub fn from_material(m: &CustomMaterial) -> (r: CustomMaterialKey)
        ensures
            r.color == (m.base_color != spec_white()),
    {
        CustomMaterialKey { color: m.base_color != Rgba::white() }
    }

    /// The shader definitions the pipeline enables for this key: the color
    /// path is compiled in exactly when the key's `color` bit is set.
    pub fn shader_defs(&self) -> (r: Vec<String>)
        ensures
            self.color ==> r@.len() == 1 && r@[0]@ == "USE_COLOR"@,
            !self.color ==> r@.len() == 0,
    {
        let mut defs: Vec<String> = Vec::new();
        if self.color {
            defs.push("USE_COLOR".to_owned());
        }
        defs
    }
}

/// The toon material description: the input to the compact encoder.
#[derive(Clone, Copy, Debug)]
pub struct ToonMaterial {
    pub base_color: Rgba,
    pub alpha_mode: AlphaMode,
    pub deferred_lighting_pass_id: u8,
}

/// The default toon material: opaque white under the standard deferred
/// lighting pass.
pub open spec fn spec_default_toon() -> ToonMaterial {
    ToonMaterial {
        base_color: spec_white(),
        alpha_mode: AlphaMode::Opaque,
        deferred_lighting_pass_id: DEFAULT_DEFERRED_LIGHTING_PASS_ID,
    }
}

impl Default for ToonMaterial {
    fn default() -> (r: Self)
        ensures
            r == spec_default_toon(),
    {
        ToonMaterial {
            base_color: Rgba::white(),
            alpha_mode: AlphaMode::Opaque,
            deferred_lighting_pass_id: DEFAULT_DEFERRED_LIGHTING_PASS_ID,
        }
    }
}

/// The toon material a plain color stands for.
pub open spec fn spec_toon_from_color(color: Rgba) -> ToonMaterial {
    ToonMaterial {
        base_color: color,
        alpha_mode: spec_alpha_mode_for_color(color),
        ..spec_default_toon()
    }
}

impl From<Rgba> for ToonMaterial {
    fn from(color: Rgba) -> (r: Self) {
        let mut m = ToonMaterial::default();
        m.base_color = color;
        m.alpha_mode = if float_bits::is_below_one(color.a_bits) {
            AlphaMode::Blend
        } else {
            AlphaMode::Opaque
        };
        m
    }
}

impl vstd::std_specs::convert::FromSpecImpl<Rgba> for ToonMaterial {
    open spec fn obeys_from_spec() -> bool {
        true
    }

    open spec fn from_spec(color: Rgba) -> ToonMaterial {
        spec_toon_from_color(color)
    }
}

/// The pipeline key derived from a toon material.
#[derive(Clone, Copy, Debug, PartialEq, Eq, Structural, Hash)]
pub struct ToonMaterialKey {
    /// Whether the material carries a base color other than plain white.
    pub color: bool,
}

impl ToonMaterialKey {
    /// Derives the key: `color` is set exactly when the base color differs
    /// from opaque white.
    pub fn from_material(m: &ToonMaterial) -> (r: ToonMaterialKey)
        ensures
            r.color == (m.base_color != spec_white()),
    {
        ToonMaterialKey { color: m.base_color != Rgba::white() }
    }

    /// The shader definitions the pipeline enables for this key.
    pub fn shader_defs(&self) -> (r: Vec<String>)
        ensures
            self.color ==> r@.len() == 1 && r@[0]@ == "USE_COLOR"@,
            !self.color ==> r@.len() == 0,
    {
        let mut defs: Vec<String> = Vec::new();
        if self.color {
            defs.push("USE_COLOR".to_owned());
        }
        defs
    }
}

} // verus!
