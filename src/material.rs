//! A physically based material: two columns of fields and a collapsible
//! section of textures, each group under its own discriminator.
use vstd::prelude::*;
use crate::attributes::{ColorAttributes, NumberAttributes, OptionAttributes};
use crate::color::Color;
use crate::context::{child, Context};
use crate::input::{Input, Value};
use crate::inspect::{Handle, Inspectable};
use crate::scalar::{Scalar, ONE_BITS, ZERO_BITS};

verus! {

/// Discriminators of the three groups below a material's identity.
pub const LEFT_GROUP: u64 = 0;

pub const RIGHT_GROUP: u64 = 1;

pub const TEXTURE_GROUP: u64 = 2;

/// Bits of `0.089`, the least perceptual roughness offered.
pub const MIN_ROUGHNESS_BITS: u32 = 0x3db6_45a2;

/// Bits of `0.01`, the drag speed of the unit-range fields.
pub const FINE_SPEED_BITS: u32 = 0x3c23_d70a;

#[derive(Clone, Copy, Debug, PartialEq, Eq, Structural)]
pub struct StandardMaterial {
    pub base_color: Color,
    pub perceptual_roughness: Scalar,
    pub reflectance: Scalar,
    pub emissive: Color,
    pub metallic: Scalar,
    pub unlit: bool,
    pub base_color_texture: Option<Handle>,
    pub metallic_roughness_texture: Option<Handle>,
    pub emissive_texture: Option<Handle>,
    pub occlusion_texture: Option<Handle>,
}

pub open spec fn roughness_attributes() -> NumberAttributes {
    NumberAttributes {
        min: Some(Scalar { bits: MIN_ROUGHNESS_BITS }),
        max: Some(Scalar { bits: ONE_BITS }),
        speed: Scalar { bits: FINE_SPEED_BITS },
    }
}

pub open spec fn metallic_attributes() -> NumberAttributes {
    NumberAttributes {
        min: Some(Scalar { bits: ZERO_BITS }),
        max: Some(Scalar { bits: ONE_BITS }),
        speed: Scalar { bits: FINE_SPEED_BITS },
    }
}

/// Attributes of a material editor: the fresh weak handle with which an
/// empty texture slot is filled when the user asks for one.
#[derive(Clone, Copy, Debug, PartialEq, Eq, Structural)]
pub struct MaterialAttributes {
    pub new_texture: Handle,
}

/// A texture slot may be filled by the fresh handle and may be cleared.
pub open spec fn texture_attributes(a: MaterialAttributes) -> OptionAttributes<Handle, ()> {
    OptionAttributes { replacement: Some(a.new_texture), deletable: true, inner: () }
}

/// The identity of row `row` of group `group` below `id`.
pub open spec fn field_id(id: Seq<u64>, group: u64, row: u64) -> Seq<u64> {
    child(child(id, group), row)
}

impl Inspectable for StandardMaterial {
    type Attributes = MaterialAttributes;

    open spec fn drawn(
        self,
        attributes: MaterialAttributes,
        id: Seq<u64>,
        input: Seq<(Seq<u64>, Value)>,
    ) -> StandardMaterial {
        let color = ColorAttributes { alpha: false };
        StandardMaterial {
            base_color: self.base_color.drawn(color, field_id(id, LEFT_GROUP, 0), input),
            perceptual_roughness: self.perceptual_roughness.drawn(
                roughness_attributes(),
                field_id(id, LEFT_GROUP, 1),
                input,
            ),
            reflectance: self.reflectance.drawn(
                NumberAttributes::spec_positive(),
                field_id(id, LEFT_GROUP, 2),
                input,
            ),
            emissive: self.emissive.drawn(color, field_id(id, RIGHT_GROUP, 0), input),
            metallic: self.metallic.drawn(
                metallic_attributes(),
                field_id(id, RIGHT_GROUP, 1),
                input,
            ),
            unlit: self.unlit.drawn((), field_id(id, RIGHT_GROUP, 2), input),
            base_color_texture: self.base_color_texture.drawn(
                texture_attributes(attributes),
                field_id(id, TEXTURE_GROUP, 0),
                input,
            ),
            metallic_roughness_texture: self.metallic_roughness_texture.drawn(
                texture_attributes(attributes),
                field_id(id, TEXTURE_GROUP, 1),
                input,
            ),
            emissive_texture: self.emissive_texture.drawn(
                texture_attributes(attributes),
                field_id(id, TEXTURE_GROUP, 2),
                input,
            ),
            occlusion_texture: self.occlusion_texture.drawn(
                texture_attributes(attributes),
                field_id(id, TEXTURE_GROUP, 3),
                input,
            ),
        }
    }

    fn ui(&mut self, attributes: MaterialAttributes, context: &Context, input: &Input) -> (changed: bool) {
        let left = context.with_id(LEFT_GROUP);
        let right = context.with_id(RIGHT_GROUP);
        let textures = context.with_id(TEXTURE_GROUP);
        let fine = Scalar::from_bits(FINE_SPEED_BITS);
        let roughness = NumberAttributes::between(
            Scalar::from_bits(MIN_ROUGHNESS_BITS),
            Scalar::one(),
        ).speed(fine);
        let texture = OptionAttributes::with_inner(()).replaceable_by(attributes.new_texture);

        let c0 = self.base_color.ui(ColorAttributes::default(), &left.with_id(0), input);
        let c1 = self.perceptual_roughness.ui(roughness, &left.with_id(1), input);
        let c2 = self.reflectance.ui(NumberAttributes::positive(), &left.with_id(2), input);
        let c3 = self.emissive.ui(ColorAttributes::default(), &right.with_id(0), input);
        let c4 = self.metallic.ui(NumberAttributes::normalized().speed(fine), &right.with_id(1), input);
        let c5 = self.unlit.ui((), &right.with_id(2), input);
        let c6 = self.base_color_texture.ui(texture, &textures.with_id(0), input);
        let c7 = self.metallic_roughness_texture.ui(texture, &textures.with_id(1), input);
        let c8 = self.emissive_texture.ui(texture, &textures.with_id(2), input);
        let c9 = self.occlusion_texture.ui(texture, &textures.with_id(3), input);
        c0 || c1 || c2 || c3 || c4 || c5 || c6 || c7 || c8 || c9
    }

    proof fn lemma_redraw_settled(
        self,
        attributes: MaterialAttributes,
        id: Seq<u64>,
        input: Seq<(Seq<u64>, Value)>,
    ) {
        let color = ColorAttributes { alpha: false };
        self.base_color.lemma_redraw_settled(color, field_id(id, LEFT_GROUP, 0), input);
        self.perceptual_roughness.lemma_redraw_settled(
            roughness_attributes(),
            field_id(id, LEFT_GROUP, 1),
            input,
        );
        self.reflectance.lemma_redraw_settled(
            NumberAttributes::spec_positive(),
            field_id(id, LEFT_GROUP, 2),
            input,
        );
        self.emissive.lemma_redraw_settled(color, field_id(id, RIGHT_GROUP, 0), input);
        self.metallic.lemma_redraw_settled(
            metallic_attributes(),
            field_id(id, RIGHT_GROUP, 1),
            input,
        );
        self.unlit.lemma_redraw_settled((), field_id(id, RIGHT_GROUP, 2), input);
        self.base_color_texture.lemma_redraw_settled(
            texture_attributes(attributes),
            field_id(id, TEXTURE_GROUP, 0),
            input,
        );
        self.metallic_roughness_texture.lemma_redraw_settled(
            texture_attributes(attributes),
            field_id(id, TEXTURE_GROUP, 1),
            input,
        );
        self.emissive_texture.lemma_redraw_settled(
            texture_attributes(attributes),
            field_id(id, TEXTURE_GROUP, 2),
            input,
        );
        self.occlusion_texture.lemma_redraw_settled(
            texture_attributes(attributes),
            field_id(id, TEXTURE_GROUP, 3),
            input,
        );
    }
}

/// Fields in different groups, or in different rows of one group, never
/// share an identity.
pub proof fn lemma_field_ids_distinct(id: Seq<u64>, g1: u64, r1: u64, g2: u64, r2: u64)
    ensures
        field_id(id, g1, r1) == field_id(id, g2, r2) <==> (g1 == g2 && r1 == r2),
{
    if field_id(id, g1, r1) == field_id(id, g2, r2) {
        assert(field_id(id, g1, r1)[id.len() as int] == g1);
        assert(field_id(id, g2, r2)[id.len() as int] == g2);
        assert(field_id(id, g1, r1)[id.len() as int + 1] == r1);
        assert(field_id(id, g2, r2)[id.len() as int + 1] == r2);
    }
}

} // verus!
