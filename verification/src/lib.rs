//! Material descriptions for non-photorealistic rendering (NPR) shader
//! materials, together with the bit-packed flag encoding their fragment
//! shaders decode.
//!
//! The central operation is `encode`: it packs a material's optional-feature
//! set (texture presence, boolean toggles) and its alpha-blending mode into a
//! single 32-bit flag word, plus a small set of scalar uniform fields, in the
//! exact layout the paired shader reads back with bitwise masks. The low
//! fourteen bits carry one boolean condition each; the top three bits carry an
//! enumerated alpha-mode code. `decode` states the shader's side of that
//! agreement, and the round-trip lemmas prove the two sides consistent.
//!
//! Scalar material fields (colors, roughness, cutoffs) are carried as the raw
//! bit patterns of the host's single-precision values: the encoder only ever
//! copies them through unchanged, so the bit pattern is the exact value the
//! uniform buffer receives.

pub mod color;
pub mod decode;
pub mod encode;
pub mod float_bits;
pub mod material;
pub mod plugin;
pub mod scene_ref;
