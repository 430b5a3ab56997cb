use vstd::prelude::*;

verus! {

/// A material as the renderer sees it: which shader (and texture) it uses and
/// whether it is drawn in the transparent pass.
pub enum Material {
    Basic(BasicMaterial),
    Unlit(UnlitMaterial),
}

pub struct BasicMaterial {
    pub shader_internal_id: u32,
    pub is_transparent: bool,
}

pub struct UnlitMaterial {
    pub shader_internal_id: u32,
    pub texture_internal_id: u32,
    pub is_transparent: bool,
}

impl Material {
    /// The transparency flag of whichever kind of material this is.
    pub open spec fn spec_is_transparent(&self) -> bool {
        match self {
            Material::Basic(bm) => bm.is_transparent,
            Material::Unlit(um) => um.is_transparent,
        }
    }

    #[verifier::when_used_as_spec(spec_is_transparent)]
    pub fn is_transparent(&self) -> (r: bool)
        ensures
            r == self.spec_is_transparent(),
    {
        match self {
            Material::Basic(bm) => bm.is_transparent,
            Material::Unlit(um) => um.is_transparent,
        }
    }
}

/// Transparency is the material's own flag, for either kind, whatever its
/// shader and texture ids.
pub proof fn law_transparency_is_the_flag(shader: u32, texture: u32, flag: bool)
    ensures
        Material::Basic(BasicMaterial { shader_internal_id: shader, is_transparent: flag }).spec_is_transparent()
            == flag,
        Material::Unlit(
            UnlitMaterial { shader_internal_id: shader, texture_internal_id: texture, is_transparent: flag },
        ).spec_is_transparent() == flag,
{
}

} // verus!
