use render_core::transform::Transform;

fn words_of(m: glam::Mat4) -> Vec<u32> {
    m.to_cols_array().iter().map(|x| x.to_bits()).collect()
}

fn floats_of(words: &[u32]) -> Vec<f32> {
    words.iter().map(|w| f32::from_bits(*w)).collect()
}

#[test]
fn identity_model_gives_identity_normal() {
    let t = Transform::new(words_of(glam::Mat4::IDENTITY));
    assert_eq!(
        floats_of(t.normal_words()),
        glam::Mat4::IDENTITY.to_cols_array().to_vec(),
    );
}

#[test]
fn scale_model_gives_reciprocal_normal() {
    let model = glam::Mat4::from_scale(glam::Vec3::new(2.0, 4.0, 8.0));
    let t = Transform::new(words_of(model));
    let expected = glam::Mat4::from_scale(glam::Vec3::new(0.5, 0.25, 0.125));
    // The normal matrix differs from the model matrix, and equals the
    // inverse-transpose.
    assert_ne!(floats_of(t.normal_words()), floats_of(t.model_words()));
    assert_eq!(floats_of(t.normal_words()), expected.to_cols_array().to_vec());
}

#[test]
fn translation_model_gives_inverse_transpose_normal() {
    let model = glam::Mat4::from_translation(glam::Vec3::new(1.0, 2.0, 3.0));
    let t = Transform::new(words_of(model));
    let expected = model.inverse().transpose();
    assert_eq!(t.normal_words(), &words_of(expected));
}

#[test]
fn packed_pair_holds_model_then_its_inverse_transpose() {
    let model = glam::Mat4::from_scale_rotation_translation(
        glam::Vec3::new(2.0, 2.0, 2.0),
        glam::Quat::from_rotation_y(0.5),
        glam::Vec3::new(-1.0, 0.5, 4.0),
    );
    let t = Transform::new(words_of(model));
    let packed = t.packed_words();
    assert_eq!(packed.len(), 32);
    assert_eq!(&packed[..16], t.model_words().as_slice());
    assert_eq!(&packed[16..], t.normal_words().as_slice());
    // The normal half is the inverse-transpose of the model half.
    let model_back = glam::Mat4::from_cols_slice(
        &packed[..16].iter().map(|w| f32::from_bits(*w)).collect::<Vec<f32>>(),
    );
    let normal_back = glam::Mat4::from_cols_slice(
        &packed[16..].iter().map(|w| f32::from_bits(*w)).collect::<Vec<f32>>(),
    );
    assert_eq!(normal_back, model_back.inverse().transpose());
}
