use npr_materials::color::Rgba;
use npr_materials::encode::{
    alpha_cutoff_bits, alpha_mode_code, ALPHA_MODE_RESERVED_BITS, ALPHA_MODE_SHIFT_BITS,
    ATTENUATION_ENABLED, BASE_COLOR_TEXTURE, CONDITION_BITS, DEPTH_MAP,
    DIFFUSE_TRANSMISSION_TEXTURE, DOUBLE_SIDED, EMISSIVE_TEXTURE, FLIP_NORMAL_MAP_Y, FOG_ENABLED,
    METALLIC_ROUGHNESS_TEXTURE, OCCLUSION_TEXTURE, SPECULAR_TRANSMISSION_TEXTURE,
    THICKNESS_TEXTURE, TWO_COMPONENT_NORMAL_MAP, UNLIT,
};
use npr_materials::material::{AlphaMode, CustomMaterial, PixelFormat, ToonMaterial};

/// A material with every condition off: no textures, no toggles, fog
/// disabled, attenuation distance infinite, opaque alpha.
fn quiet_material() -> CustomMaterial {
    CustomMaterial { fog_enabled: false, ..CustomMaterial::default() }
}

#[test]
fn encode_is_deterministic() {
    let m = CustomMaterial {
        base_color_texture: true,
        double_sided: true,
        alpha_mode: AlphaMode::Mask(0.25f32.to_bits()),
        attenuation_distance_bits: 2.5f32.to_bits(),
        ..CustomMaterial::default()
    };
    assert_eq!(m.encode(), m.encode());

    let t = ToonMaterial { alpha_mode: AlphaMode::Add, ..ToonMaterial::default() };
    assert_eq!(t.encode(), t.encode());
}

#[test]
fn quiet_material_has_no_flags() {
    assert_eq!(quiet_material().encode().flags, 0);
}

#[test]
fn each_condition_sets_exactly_its_bit() {
    let base = quiet_material();
    let cases: Vec<(CustomMaterial, u32)> = vec![
        (CustomMaterial { base_color_texture: true, ..base }, BASE_COLOR_TEXTURE),
        (CustomMaterial { emissive_texture: true, ..base }, EMISSIVE_TEXTURE),
        (CustomMaterial { metallic_roughness_texture: true, ..base }, METALLIC_ROUGHNESS_TEXTURE),
        (CustomMaterial { occlusion_texture: true, ..base }, OCCLUSION_TEXTURE),
        (CustomMaterial { double_sided: true, ..base }, DOUBLE_SIDED),
        (CustomMaterial { unlit: true, ..base }, UNLIT),
        (
            CustomMaterial {
                normal_map_texture: true,
                normal_map_format: Some(PixelFormat::Rg8Unorm),
                ..base
            },
            TWO_COMPONENT_NORMAL_MAP,
        ),
        (CustomMaterial { flip_normal_map_y: true, ..base }, FLIP_NORMAL_MAP_Y),
        (CustomMaterial { fog_enabled: true, ..base }, FOG_ENABLED),
        (CustomMaterial { depth_map: true, ..base }, DEPTH_MAP),
        (
            CustomMaterial { specular_transmission_texture: true, ..base },
            SPECULAR_TRANSMISSION_TEXTURE,
        ),
        (CustomMaterial { thickness_texture: true, ..base }, THICKNESS_TEXTURE),
        (
            CustomMaterial { diffuse_transmission_texture: true, ..base },
            DIFFUSE_TRANSMISSION_TEXTURE,
        ),
        (
            CustomMaterial { attenuation_distance_bits: 4.0f32.to_bits(), ..base },
            ATTENUATION_ENABLED,
        ),
    ];
    for (material, expected_bit) in cases {
        assert_eq!(material.encode().flags, expected_bit);
    }
}

#[test]
fn conditions_do_not_interfere() {
    let m = CustomMaterial {
        emissive_texture: true,
        unlit: true,
        depth_map: true,
        ..quiet_material()
    };
    assert_eq!(m.encode().flags, EMISSIVE_TEXTURE | UNLIT | DEPTH_MAP);
}

#[test]
fn two_component_bit_needs_present_and_matching_format() {
    let base = quiet_material();
    // Present but unresolved: bit stays clear.
    let unresolved =
        CustomMaterial { normal_map_texture: true, normal_map_format: None, ..base };
    assert_eq!(unresolved.encode().flags & TWO_COMPONENT_NORMAL_MAP, 0);
    // Present with a four-component format: bit stays clear.
    let four_component = CustomMaterial {
        normal_map_texture: true,
        normal_map_format: Some(PixelFormat::Other),
        ..base
    };
    assert_eq!(four_component.encode().flags & TWO_COMPONENT_NORMAL_MAP, 0);
    // Format resolved but slot empty: bit stays clear.
    let absent = CustomMaterial {
        normal_map_texture: false,
        normal_map_format: Some(PixelFormat::Rg16Unorm),
        ..base
    };
    assert_eq!(absent.encode().flags & TWO_COMPONENT_NORMAL_MAP, 0);
    // Every format on the allow-list sets the bit.
    for format in [
        PixelFormat::Rg8Unorm,
        PixelFormat::Rg16Unorm,
        PixelFormat::Bc5RgUnorm,
        PixelFormat::EacRg11Unorm,
    ] {
        let m = CustomMaterial {
            normal_map_texture: true,
            normal_map_format: Some(format),
            ..base
        };
        assert_eq!(m.encode().flags, TWO_COMPONENT_NORMAL_MAP);
    }
}

#[test]
fn flip_bit_follows_the_toggle_alone() {
    // The toggle is a plain boolean condition: it sets its bit with or
    // without a normal map in the slot.
    let without_map = CustomMaterial {
        normal_map_texture: false,
        flip_normal_map_y: true,
        ..quiet_material()
    };
    assert_eq!(without_map.encode().flags, FLIP_NORMAL_MAP_Y);

    let with_map = CustomMaterial {
        normal_map_texture: true,
        flip_normal_map_y: true,
        ..quiet_material()
    };
    assert_eq!(with_map.encode().flags, FLIP_NORMAL_MAP_Y);
}

#[test]
fn alpha_mode_codes_fill_the_top_bits_only() {
    let modes = [
        (AlphaMode::Opaque, 0u32),
        (AlphaMode::Mask(0.5f32.to_bits()), 1),
        (AlphaMode::Blend, 2),
        (AlphaMode::Premultiplied, 3),
        (AlphaMode::Add, 4),
        (AlphaMode::Multiply, 5),
    ];
    for (mode, code) in modes {
        let m = CustomMaterial { alpha_mode: mode, ..quiet_material() };
        let flags = m.encode().flags;
        assert_eq!(flags >> ALPHA_MODE_SHIFT_BITS, code);
        assert_eq!(flags & ALPHA_MODE_RESERVED_BITS, code << ALPHA_MODE_SHIFT_BITS);
        // The code never leaks into the condition bits.
        assert_eq!(flags & CONDITION_BITS, 0);
        assert_eq!(alpha_mode_code(mode), code);
    }
}

#[test]
fn alpha_mode_does_not_disturb_condition_bits() {
    let m = CustomMaterial {
        base_color_texture: true,
        fog_enabled: true,
        alpha_mode: AlphaMode::Multiply,
        ..quiet_material()
    };
    let flags = m.encode().flags;
    assert_eq!(flags & CONDITION_BITS, BASE_COLOR_TEXTURE | FOG_ENABLED);
    assert_eq!(flags >> ALPHA_MODE_SHIFT_BITS, 5);
}

#[test]
fn alpha_cutoff_is_the_mask_cutoff_or_one_half() {
    let cutoff = 0.7f32.to_bits();
    let masked = CustomMaterial {
        alpha_mode: AlphaMode::Mask(cutoff),
        ..CustomMaterial::default()
    };
    assert_eq!(masked.encode().alpha_cutoff_bits, cutoff);
    for mode in [
        AlphaMode::Opaque,
        AlphaMode::Blend,
        AlphaMode::Premultiplied,
        AlphaMode::Add,
        AlphaMode::Multiply,
    ] {
        let m = CustomMaterial { alpha_mode: mode, ..CustomMaterial::default() };
        assert_eq!(m.encode().alpha_cutoff_bits, 0.5f32.to_bits());
        assert_eq!(alpha_cutoff_bits(mode), 0.5f32.to_bits());
    }
}

#[test]
fn attenuation_bit_tracks_finiteness() {
    let base = quiet_material();
    let finite_cases = [0.0f32, -0.0, 1.0, 1.5e-45, f32::MAX, -7.25];
    for v in finite_cases {
        let m = CustomMaterial { attenuation_distance_bits: v.to_bits(), ..base };
        assert_eq!(m.encode().flags & ATTENUATION_ENABLED, ATTENUATION_ENABLED);
    }
    let non_finite_cases = [f32::INFINITY, f32::NEG_INFINITY, f32::NAN];
    for v in non_finite_cases {
        let m = CustomMaterial { attenuation_distance_bits: v.to_bits(), ..base };
        assert_eq!(m.encode().flags & ATTENUATION_ENABLED, 0);
    }
}

#[test]
fn scalars_pass_through_unchanged() {
    let m = CustomMaterial {
        base_color: Rgba::new(
            0.1f32.to_bits(),
            0.2f32.to_bits(),
            0.3f32.to_bits(),
            0.4f32.to_bits(),
        ),
        perceptual_roughness_bits: 0.33f32.to_bits(),
        metallic_bits: 1.0f32.to_bits(),
        reflectance_bits: 0.04f32.to_bits(),
        ior_bits: 1.31f32.to_bits(),
        thickness_bits: 0.5f32.to_bits(),
        deferred_lighting_pass_id: 7,
        ..CustomMaterial::default()
    };
    let u = m.encode();
    assert_eq!(u.base_color, m.base_color);
    assert_eq!(u.roughness_bits, 0.33f32.to_bits());
    assert_eq!(u.metallic_bits, 1.0f32.to_bits());
    assert_eq!(u.reflectance_bits, 0.04f32.to_bits());
    assert_eq!(u.ior_bits, 1.31f32.to_bits());
    assert_eq!(u.thickness_bits, 0.5f32.to_bits());
    assert_eq!(u.deferred_lighting_pass_id, 7);
    assert_eq!(u.max_relief_mapping_search_steps, 0);
}

#[test]
fn default_material_encodes_to_fog_only() {
    let u = CustomMaterial::default().encode();
    assert_eq!(u.flags, FOG_ENABLED);
    assert_eq!(u.alpha_cutoff_bits, 0.5f32.to_bits());
    assert_eq!(u.roughness_bits, 0.5f32.to_bits());
    assert_eq!(u.reflectance_bits, 0.5f32.to_bits());
    assert_eq!(u.ior_bits, 1.5f32.to_bits());
    assert_eq!(u.attenuation_distance_bits, f32::INFINITY.to_bits());
    assert_eq!(u.parallax_depth_scale_bits, 0.1f32.to_bits());
    assert_eq!(u.max_parallax_layer_count_bits, 16.0f32.to_bits());
    assert_eq!(u.deferred_lighting_pass_id, 1);
    assert_eq!(u.base_color, Rgba::new(
        1.0f32.to_bits(),
        1.0f32.to_bits(),
        1.0f32.to_bits(),
        1.0f32.to_bits(),
    ));
    assert_eq!(u.emissive, Rgba::new(0, 0, 0, 1.0f32.to_bits()));
}

#[test]
fn toon_material_encodes_alpha_mode_only() {
    let t = ToonMaterial { alpha_mode: AlphaMode::Blend, ..ToonMaterial::default() };
    let u = t.encode();
    assert_eq!(u.flags, 2 << ALPHA_MODE_SHIFT_BITS);
    assert_eq!(u.alpha_cutoff_bits, 0.5f32.to_bits());
    assert_eq!(u.deferred_lighting_pass_id, 1);
    assert_eq!(u.base_color, Rgba::new(
        1.0f32.to_bits(),
        1.0f32.to_bits(),
        1.0f32.to_bits(),
        1.0f32.to_bits(),
    ));

    let cutoff = 0.9f32.to_bits();
    let masked = ToonMaterial { alpha_mode: AlphaMode::Mask(cutoff), ..ToonMaterial::default() };
    let mu = masked.encode();
    assert_eq!(mu.flags, 1 << ALPHA_MODE_SHIFT_BITS);
    assert_eq!(mu.alpha_cutoff_bits, cutoff);
}
