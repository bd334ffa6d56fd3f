use npr_materials::color::Rgba;
use npr_materials::float_bits;
use npr_materials::material::{
    AlphaMode, CustomMaterial, CustomMaterialKey, ToonMaterial, ToonMaterialKey,
};
use npr_materials::plugin::{
    CustomShaderPlugin, ToonShaderPlugin, CUSTOM_SHADER_ID, TOON_BINDINGS_ID, TOON_FRAGMENT_ID,
    TOON_SHADER_ID,
};

fn rgba(r: f32, g: f32, b: f32, a: f32) -> Rgba {
    Rgba::new(r.to_bits(), g.to_bits(), b.to_bits(), a.to_bits())
}

#[test]
fn finiteness_matches_the_host_float_semantics() {
    let samples = [
        0.0f32,
        -0.0,
        1.0,
        -1.0,
        0.5,
        f32::MAX,
        f32::MIN,
        f32::MIN_POSITIVE,
        1.5e-45, // subnormal
        f32::INFINITY,
        f32::NEG_INFINITY,
        f32::NAN,
        -f32::NAN,
    ];
    for v in samples {
        assert_eq!(
            float_bits::is_finite(v.to_bits()),
            v.is_finite(),
            "finiteness disagrees on {v}"
        );
        assert_eq!(float_bits::is_nan(v.to_bits()), v.is_nan(), "nan test disagrees on {v}");
        assert_eq!(
            float_bits::is_below_one(v.to_bits()),
            v < 1.0,
            "comparison with one disagrees on {v}"
        );
    }
}

#[test]
fn translucent_colors_become_blended_materials() {
    let translucent = CustomMaterial::from(rgba(0.2, 0.3, 0.4, 0.5));
    assert_eq!(translucent.alpha_mode, AlphaMode::Blend);
    assert_eq!(translucent.base_color, rgba(0.2, 0.3, 0.4, 0.5));
    // Every other field keeps its default.
    assert_eq!(translucent.ior_bits, 1.5f32.to_bits());
    assert!(!translucent.base_color_texture);

    let opaque = CustomMaterial::from(rgba(0.2, 0.3, 0.4, 1.0));
    assert_eq!(opaque.alpha_mode, AlphaMode::Opaque);

    // An alpha above one is not below one; neither is a not-a-number alpha.
    let above = CustomMaterial::from(rgba(1.0, 1.0, 1.0, 1.5));
    assert_eq!(above.alpha_mode, AlphaMode::Opaque);
    let nan_alpha = Rgba::new(0, 0, 0, f32::NAN.to_bits());
    assert_eq!(CustomMaterial::from(nan_alpha).alpha_mode, AlphaMode::Opaque);

    let toon = ToonMaterial::from(rgba(1.0, 0.0, 0.0, 0.25));
    assert_eq!(toon.alpha_mode, AlphaMode::Blend);
    assert_eq!(toon.base_color, rgba(1.0, 0.0, 0.0, 0.25));
}

#[test]
fn keys_track_whether_the_color_is_white() {
    let white = CustomMaterial::default();
    assert!(!CustomMaterialKey::from_material(&white).color);

    let silver = CustomMaterial { base_color: rgba(0.75, 0.75, 0.75, 1.0), ..white };
    assert!(CustomMaterialKey::from_material(&silver).color);

    let toon_white = ToonMaterial::default();
    assert!(!ToonMaterialKey::from_material(&toon_white).color);
    let toon_red = ToonMaterial { base_color: rgba(1.0, 0.0, 0.0, 1.0), ..toon_white };
    assert!(ToonMaterialKey::from_material(&toon_red).color);
}

#[test]
fn shader_defs_follow_the_key() {
    let colored = CustomMaterialKey::from_material(&CustomMaterial {
        base_color: rgba(0.1, 0.1, 0.1, 1.0),
        ..CustomMaterial::default()
    });
    assert_eq!(colored.shader_defs(), vec!["USE_COLOR".to_string()]);

    let plain = CustomMaterialKey::from_material(&CustomMaterial::default());
    assert!(plain.shader_defs().is_empty());

    let toon_colored = ToonMaterialKey::from_material(&ToonMaterial {
        base_color: rgba(0.0, 0.0, 1.0, 1.0),
        ..ToonMaterial::default()
    });
    assert_eq!(toon_colored.shader_defs(), vec!["USE_COLOR".to_string()]);
}

#[test]
fn plugins_register_their_shader_sources() {
    let custom = CustomShaderPlugin::default().shader_registrations();
    assert_eq!(custom.len(), 1);
    assert_eq!(custom[0].handle_id, CUSTOM_SHADER_ID);
    assert_eq!(custom[0].source_path, "custom_shader.wgsl");

    // The identifiers are globally unique across both plugins.
    let ids = [CUSTOM_SHADER_ID, TOON_SHADER_ID, TOON_BINDINGS_ID, TOON_FRAGMENT_ID];
    for (i, a) in ids.iter().enumerate() {
        for b in ids.iter().skip(i + 1) {
            assert_ne!(a, b);
        }
    }

    let toon = ToonShaderPlugin::default().shader_registrations();
    assert_eq!(toon.len(), 3);
    assert_eq!(toon[0].handle_id, TOON_SHADER_ID);
    assert_eq!(toon[0].source_path, "toon_shader.wgsl");
    assert_eq!(toon[1].handle_id, TOON_BINDINGS_ID);
    assert_eq!(toon[1].source_path, "toon_bindings.wgsl");
    assert_eq!(toon[2].handle_id, TOON_FRAGMENT_ID);
    assert_eq!(toon[2].source_path, "toon_fragment.wgsl");
}

#[test]
fn toon_plugin_seeds_the_default_material() {
    let seeded = ToonShaderPlugin::default().initial_material();
    assert_eq!(seeded.base_color, rgba(1.0, 1.0, 1.0, 1.0));
    assert_eq!(seeded.alpha_mode, AlphaMode::Opaque);
    assert_eq!(seeded.deferred_lighting_pass_id, 1);
}
