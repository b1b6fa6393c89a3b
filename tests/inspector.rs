use inspector_core::attributes::{ColorAttributes, NumberAttributes, OptionAttributes};
use inspector_core::color::Color;
use inspector_core::context::Context;
use inspector_core::input::{Input, Value};
use inspector_core::inspect::{inspect, Handle, Inspectable, Name};
use inspector_core::light::PointLight;
use inspector_core::material::{MaterialAttributes, StandardMaterial};
use inspector_core::math::{Mat3, Mat4, Quat, Vec3, Vec4};
use inspector_core::scalar::Scalar;
use inspector_core::transform::{GlobalTransform, Transform};

fn s(v: f32) -> Scalar {
    Scalar::from_bits(v.to_bits())
}

fn v3(x: f32, y: f32, z: f32) -> Vec3 {
    Vec3::new(s(x), s(y), s(z))
}

fn sample_transform() -> Transform {
    Transform { translation: v3(1.0, 2.0, 3.0), rotation: Quat::identity(), scale: v3(1.0, 1.0, 1.0) }
}

fn edit(input: &mut Input, path: &[u64], value: Value) {
    input.push(&path.to_vec(), value);
}

#[test]
fn transform_without_interaction_is_unchanged() {
    let mut t = sample_transform();
    let ctx = Context::root(7);
    let changed = t.ui((), &ctx, &Input::none());
    assert!(!changed);
    assert_eq!(t, sample_transform());
}

#[test]
fn transform_negative_scale_edit_is_clamped() {
    let mut t = sample_transform();
    let ctx = Context::root(7);
    let mut input = Input::none();
    edit(&mut input, &[7, 2, 0], Value::Number((-5.0f32).to_bits()));
    let changed = t.ui((), &ctx, &input);
    assert!(changed);
    assert_eq!(t.scale.x.to_bits(), 0.0f32.to_bits());
    assert_eq!(t.scale.y, s(1.0));
    assert_eq!(t.translation, v3(1.0, 2.0, 3.0));
}

#[test]
fn second_draw_without_interaction_settles() {
    let mut t = Transform { translation: v3(0.0, 0.0, 0.0), rotation: Quat::identity(), scale: v3(-1.0, 2.0, -3.0) };
    let ctx = Context::root(1);
    let mut input = Input::none();
    edit(&mut input, &[1, 0, 1], Value::Number(4.5f32.to_bits()));
    assert!(t.ui((), &ctx, &input));
    let after_first = t;
    assert!(!t.ui((), &ctx, &Input::none()));
    assert_eq!(t, after_first);
    assert_eq!(t.translation.y, s(4.5));
}

#[test]
fn negative_scale_components_are_clamped_without_edit() {
    let mut t = Transform { translation: v3(0.0, 0.0, 0.0), rotation: Quat::identity(), scale: v3(-1.0, -0.5, 3.0) };
    let changed = t.ui((), &Context::root(0), &Input::none());
    assert!(changed);
    assert_eq!(t.scale, v3(0.0, 0.0, 3.0));
}

#[test]
fn second_row_edit_still_draws_third_row() {
    // The third row starts out of bounds, so its draw is visible in the result.
    let mut t = Transform { translation: v3(0.0, 0.0, 0.0), rotation: Quat::identity(), scale: v3(-2.0, 1.0, 1.0) };
    let mut input = Input::none();
    edit(&mut input, &[3, 1, 2], Value::Number(0.5f32.to_bits()));
    let changed = t.ui((), &Context::root(3), &input);
    assert!(changed);
    assert_eq!(t.rotation.z, s(0.5));
    assert_eq!(t.scale.x.to_bits(), 0);
    assert_eq!(t.translation, v3(0.0, 0.0, 0.0));
}

#[test]
fn child_identities_are_stable_and_distinct() {
    let root = Context::root(42);
    assert_eq!(root.id(), vec![42]);
    let a1 = root.with_id(1);
    let a2 = root.with_id(1);
    let b = root.with_id(2);
    assert_eq!(a1.id(), a2.id());
    assert_ne!(a1.id(), b.id());
    assert_eq!(b.with_id(5).id(), vec![42, 2, 5]);
}

#[test]
fn color_alpha_kept_when_disabled() {
    let mut c = Color::rgba(s(0.1), s(0.2), s(0.3), s(0.4));
    let mut input = Input::none();
    edit(&mut input, &[9, 0], Value::Number(0.5f32.to_bits()));
    edit(&mut input, &[9, 3], Value::Number(1.0f32.to_bits()));
    let changed = c.ui(ColorAttributes::default(), &Context::root(9), &input);
    assert!(changed);
    assert_eq!(c, Color::rgba(s(0.5), s(0.2), s(0.3), s(0.4)));
}

#[test]
fn color_alpha_edited_when_enabled() {
    let mut c = Color::rgba(s(0.1), s(0.2), s(0.3), s(0.4));
    let mut input = Input::none();
    edit(&mut input, &[9, 3], Value::Number(1.0f32.to_bits()));
    let changed = c.ui(ColorAttributes { alpha: true }, &Context::root(9), &input);
    assert!(changed);
    assert_eq!(c, Color::rgba(s(0.1), s(0.2), s(0.3), s(1.0)));
}

#[test]
fn color_alpha_only_edit_disabled_reports_no_change() {
    let mut c = Color::rgba(s(0.1), s(0.2), s(0.3), s(0.4));
    let mut input = Input::none();
    edit(&mut input, &[9, 3], Value::Number(1.0f32.to_bits()));
    assert!(!c.ui(ColorAttributes::default(), &Context::root(9), &input));
    assert_eq!(c.a, s(0.4));
}

#[test]
fn scalar_comparison_follows_ieee() {
    assert!(s(-1.0).lt(&s(0.0)));
    assert!(s(-2.0).lt(&s(-1.0)));
    assert!(s(1.0).lt(&s(2.0)));
    assert!(!s(0.0).lt(&s(-0.0)));
    assert!(!s(-0.0).lt(&s(0.0)));
    assert!(!s(f32::NAN).lt(&s(1.0)));
    assert!(!s(1.0).lt(&s(f32::NAN)));
    assert!(s(f32::NEG_INFINITY).lt(&s(-1.0e30)));
    assert!(s(f32::NAN).is_nan());
    assert!(!s(f32::INFINITY).is_nan());
}

#[test]
fn clamp_respects_bounds() {
    assert_eq!(s(5.0).clamp_to(Some(s(0.0)), Some(s(1.0))), s(1.0));
    assert_eq!(s(-5.0).clamp_to(Some(s(0.0)), Some(s(1.0))), s(0.0));
    assert_eq!(s(0.25).clamp_to(Some(s(0.0)), Some(s(1.0))), s(0.25));
    assert_eq!(s(0.5).clamp_to(None, None), s(0.5));
    // inverted bounds: the lower one wins
    assert_eq!(s(0.5).clamp_to(Some(s(2.0)), Some(s(1.0))), s(2.0));
    // a NaN is out of range: the lower bound, else the upper, else kept
    assert_eq!(s(f32::NAN).clamp_to(Some(s(0.0)), Some(s(1.0))), s(0.0));
    assert_eq!(s(-f32::NAN).clamp_to(Some(s(0.0)), None), s(0.0));
    assert_eq!(s(f32::NAN).clamp_to(None, Some(s(1.0))), s(1.0));
    assert!(s(f32::NAN).clamp_to(None, None).is_nan());
}

#[test]
fn number_attribute_shorthands() {
    let p = NumberAttributes::positive();
    assert_eq!(p.min, Some(s(0.0)));
    assert_eq!(p.max, None);
    let n = NumberAttributes::normalized();
    assert_eq!((n.min, n.max), (Some(s(0.0)), Some(s(1.0))));
    let b = NumberAttributes::between(s(0.089), s(1.0)).speed(s(0.01));
    assert_eq!((b.min, b.max, b.speed), (Some(s(0.089)), Some(s(1.0)), s(0.01)));
    let d = NumberAttributes::default();
    assert_eq!((d.min, d.max, d.speed), (None, None, s(0.0)));
    assert!(!ColorAttributes::default().alpha);
    let o: OptionAttributes<Handle, ()> = OptionAttributes::with_inner(());
    assert!(o.replacement.is_none() && o.deletable);
}

#[test]
fn scalar_edit_within_bounds() {
    let mut v = s(0.5);
    let mut input = Input::none();
    edit(&mut input, &[4], Value::Number(3.0f32.to_bits()));
    assert!(v.ui(NumberAttributes::normalized(), &Context::root(4), &input));
    assert_eq!(v, s(1.0));
    assert!(!v.ui(NumberAttributes::normalized(), &Context::root(4), &input));
}

#[test]
fn first_edit_of_a_widget_counts() {
    let mut input = Input::none();
    edit(&mut input, &[1, 2], Value::Flag(true));
    edit(&mut input, &[1, 2], Value::Flag(false));
    assert_eq!(input.get(&vec![1, 2]), Some(Value::Flag(true)));
    assert_eq!(input.get(&vec![1]), None);
    let mut b = false;
    assert!(b.ui((), &Context::root(1).with_id(2), &input));
    assert!(b);
}

#[test]
fn optional_handle_create_and_clear() {
    let attrs = OptionAttributes::with_inner(()).replaceable_by(Handle { id: 77 });
    let ctx = Context::root(5);
    let mut slot: Option<Handle> = None;
    let mut input = Input::none();
    edit(&mut input, &[5], Value::Create);
    assert!(slot.ui(attrs, &ctx, &input));
    assert_eq!(slot, Some(Handle { id: 77 }));
    assert!(!slot.ui(attrs, &ctx, &input));
    let mut clear = Input::none();
    edit(&mut clear, &[5], Value::Clear);
    assert!(slot.ui(attrs, &ctx, &clear));
    assert_eq!(slot, None);
}

#[test]
fn optional_handle_respects_policy() {
    let ctx = Context::root(5);
    let mut slot: Option<Handle> = None;
    let mut input = Input::none();
    edit(&mut input, &[5], Value::Create);
    assert!(!slot.ui(OptionAttributes::with_inner(()), &ctx, &input));
    assert_eq!(slot, None);
    let mut kept = Some(Handle { id: 3 });
    let mut clear = Input::none();
    edit(&mut clear, &[5], Value::Clear);
    let keep = OptionAttributes::with_inner(()).replaceable_by(Handle { id: 4 }).deletable(false);
    assert!(!kept.ui(keep, &ctx, &clear));
    assert_eq!(kept, Some(Handle { id: 3 }));
}

#[test]
fn optional_number_edits_inner_and_draws_replacement() {
    let ctx = Context::root(2);
    let attrs = OptionAttributes::with_inner(NumberAttributes::normalized()).replaceable_by(s(4.0));
    let mut slot: Option<Scalar> = None;
    let mut create = Input::none();
    edit(&mut create, &[2], Value::Create);
    assert!(slot.ui(attrs, &ctx, &create));
    assert_eq!(slot, Some(s(1.0)));
    let mut inner = Input::none();
    edit(&mut inner, &[2, 0], Value::Number(0.25f32.to_bits()));
    assert!(slot.ui(attrs, &ctx, &inner));
    assert_eq!(slot, Some(s(0.25)));
    assert!(!slot.ui(attrs, &ctx, &Input::none()));
}

#[test]
fn name_is_read_only() {
    let mut n = Name::new(String::from("player"));
    let mut input = Input::none();
    edit(&mut input, &[0], Value::Number(1));
    assert!(!n.ui((), &Context::root(0), &input));
    assert_eq!(n.as_str(), "player");
}

#[test]
fn matrix_columns_are_separate_widgets() {
    let col = v3(1.0, 0.0, 0.0);
    let mut m = Mat3 { x_axis: col, y_axis: col, z_axis: col };
    let mut input = Input::none();
    edit(&mut input, &[2, 1, 0], Value::Number(9.0f32.to_bits()));
    assert!(m.ui((), &Context::root(2), &input));
    assert_eq!(m.x_axis, col);
    assert_eq!(m.y_axis, v3(9.0, 0.0, 0.0));
    assert_eq!(m.z_axis, col);

    let c4 = Vec4::new(s(0.0), s(0.0), s(0.0), s(1.0));
    let mut m4 = Mat4 { x_axis: c4, y_axis: c4, z_axis: c4, w_axis: c4 };
    let mut input4 = Input::none();
    edit(&mut input4, &[2, 3, 3], Value::Number((-4.0f32).to_bits()));
    assert!(m4.ui((), &Context::root(2), &input4));
    assert_eq!(m4.w_axis, Vec4::new(s(0.0), s(0.0), s(0.0), s(-4.0)));
    assert_eq!(m4.z_axis, c4);
}

#[test]
fn global_transform_edits_like_transform() {
    let mut g = GlobalTransform { translation: v3(1.0, 2.0, 3.0), rotation: Quat::identity(), scale: v3(1.0, 1.0, 1.0) };
    let mut input = Input::none();
    edit(&mut input, &[8, 2, 2], Value::Number((-1.0f32).to_bits()));
    edit(&mut input, &[8, 0, 0], Value::Number(6.0f32.to_bits()));
    assert!(g.ui((), &Context::root(8), &input));
    assert_eq!(g.translation, v3(6.0, 2.0, 3.0));
    assert_eq!(g.scale, v3(1.0, 1.0, 0.0));
    assert!(!g.ui((), &Context::root(8), &Input::none()));
}

#[test]
fn identity_transform_values() {
    let t = Transform::identity();
    assert_eq!(t.translation, v3(0.0, 0.0, 0.0));
    assert_eq!(t.rotation, Quat { x: s(0.0), y: s(0.0), z: s(0.0), w: s(1.0) });
    assert_eq!(t.scale, Vec3::splat(s(1.0)));
}

fn fresh() -> MaterialAttributes {
    MaterialAttributes { new_texture: Handle { id: 99 } }
}

fn sample_material() -> StandardMaterial {
    let white = Color::rgba(s(1.0), s(1.0), s(1.0), s(1.0));
    let black = Color::rgba(s(0.0), s(0.0), s(0.0), s(1.0));
    StandardMaterial {
        base_color: white,
        perceptual_roughness: s(0.5),
        reflectance: s(0.5),
        emissive: black,
        metallic: s(0.0),
        unlit: false,
        base_color_texture: None,
        metallic_roughness_texture: None,
        emissive_texture: None,
        occlusion_texture: Some(Handle { id: 11 }),
    }
}

#[test]
fn material_fields_follow_their_policies() {
    let mut m = sample_material();
    let mut input = Input::none();
    edit(&mut input, &[6, 0, 1], Value::Number(0.0f32.to_bits()));
    edit(&mut input, &[6, 0, 2], Value::Number((-1.0f32).to_bits()));
    edit(&mut input, &[6, 1, 1], Value::Number(3.0f32.to_bits()));
    edit(&mut input, &[6, 1, 2], Value::Flag(true));
    edit(&mut input, &[6, 2, 1], Value::Create);
    edit(&mut input, &[6, 2, 3], Value::Clear);
    assert!(m.ui(fresh(), &Context::root(6), &input));
    assert_eq!(m.perceptual_roughness.to_bits(), 0.089f32.to_bits());
    assert_eq!(m.reflectance, s(0.0));
    assert_eq!(m.metallic, s(1.0));
    assert!(m.unlit);
    assert_eq!(m.metallic_roughness_texture, Some(Handle { id: 99 }));
    assert_eq!(m.base_color_texture, None);
    assert_eq!(m.occlusion_texture, None);
    let settled = m;
    assert!(!m.ui(fresh(), &Context::root(6), &Input::none()));
    assert_eq!(m, settled);
}

#[test]
fn material_without_interaction_is_unchanged() {
    let mut m = sample_material();
    assert!(!m.ui(fresh(), &Context::root(6), &Input::none()));
    assert_eq!(m, sample_material());
}

#[test]
fn boxed_value_forwards_to_inner() {
    let mut boxed = Box::new(s(2.0));
    let mut input = Input::none();
    edit(&mut input, &[3], Value::Number((-7.0f32).to_bits()));
    assert!(boxed.ui(NumberAttributes::positive(), &Context::root(3), &input));
    assert_eq!(*boxed, s(0.0));
    assert!(!boxed.ui(NumberAttributes::positive(), &Context::root(3), &Input::none()));
}

#[test]
fn top_level_inspection_uses_seed_as_root() {
    let mut t = sample_transform();
    let mut input = Input::none();
    edit(&mut input, &[12, 0, 2], Value::Number(8.0f32.to_bits()));
    edit(&mut input, &[13, 0, 1], Value::Number(9.0f32.to_bits()));
    assert!(inspect(&mut t, (), 12, &input));
    assert_eq!(t.translation, v3(1.0, 2.0, 8.0));
}

#[test]
fn point_light_fields_stay_positive() {
    let mut light = PointLight { color: Color::rgba(s(1.0), s(1.0), s(1.0), s(1.0)), intensity: s(800.0), range: s(20.0), radius: s(0.0) };
    let mut input = Input::none();
    edit(&mut input, &[4, 1], Value::Number((-3.0f32).to_bits()));
    edit(&mut input, &[4, 3], Value::Number(0.5f32.to_bits()));
    assert!(light.ui((), &Context::root(4), &input));
    assert_eq!(light.intensity, s(0.0));
    assert_eq!(light.radius, s(0.5));
    assert_eq!(light.range, s(20.0));
    assert!(!light.ui((), &Context::root(4), &Input::none()));
}

#[test]
fn nan_scale_edit_is_corrected() {
    let mut t = Transform { translation: v3(0.0, 0.0, 0.0), rotation: Quat::identity(), scale: v3(-2.0, 1.0, -0.5) };
    let mut input = Input::none();
    edit(&mut input, &[7, 2, 0], Value::Number(f32::NAN.to_bits()));
    edit(&mut input, &[7, 2, 1], Value::Number((-f32::NAN).to_bits()));
    assert!(t.ui((), &Context::root(7), &input));
    assert_eq!(t.scale, v3(0.0, 0.0, 0.0));
    assert!(!t.ui((), &Context::root(7), &Input::none()));

    let mut g = GlobalTransform { translation: v3(0.0, 0.0, 0.0), rotation: Quat::identity(), scale: v3(3.0, 1.0, 1.0) };
    let mut input_g = Input::none();
    edit(&mut input_g, &[7, 2, 2], Value::Number(f32::NAN.to_bits()));
    assert!(g.ui((), &Context::root(7), &input_g));
    assert_eq!(g.scale, v3(3.0, 1.0, 0.0));
}
