use roast::camera::{Camera, F64_FORTY_FIVE_BITS};
use roast::error::RoastError;
use roast::ffi::{ForeignMat4, ForeignOption, ForeignPair, ForeignTextStyle, F32_ONE_BITS, F32_ZERO_BITS};
use roast::mesh::{Vertex, VertexType};
use roast::texture::TextureSampling;

#[test]
fn foreign_option_round_trips() {
    assert_eq!(ForeignOption::<u64>::from_option(None).into_option(), None);
    assert_eq!(ForeignOption::from_option(Some(5u64)).into_option(), Some(5));
    assert_eq!(ForeignOption::Just(7u64).into_option(), Some(7));
    assert_eq!(ForeignOption::<u64>::Nothing.into_option(), None);
}

#[test]
fn foreign_pair_round_trips() {
    let pair = ForeignPair::from_tuple((3u32, true));
    assert_eq!(pair.0, 3);
    assert!(pair.1);
    assert_eq!(pair.into_tuple(), (3, true));
}

#[test]
fn identity_matrix_bits() {
    let identity = ForeignMat4::identity();
    assert_eq!(identity.x_axis.x, F32_ONE_BITS);
    assert_eq!(identity.x_axis.y, F32_ZERO_BITS);
    assert_eq!(identity.y_axis.y, F32_ONE_BITS);
    assert_eq!(identity.z_axis.z, F32_ONE_BITS);
    assert_eq!(identity.w_axis.w, F32_ONE_BITS);
    assert_eq!(F32_ONE_BITS, 1.0f32.to_bits());
    assert_eq!(F32_ZERO_BITS, 0.0f32.to_bits());
}

#[test]
fn vertex_constructors_pack_components() {
    let v = Vertex::pos_color((1, 2, 3), (4, 5, 6, 7));
    assert_eq!(v.pos, (1, 2, 3));
    assert_eq!(v.color_tex, (4, 5, 6, 7));

    let v = Vertex::pos_tex((1, 2, 3), (8, 9));
    assert_eq!(v.color_tex, (8, 9, 0, 0));

    let v = Vertex::pos_tex2((1, 2, 3), (8, 9), (10, 11));
    assert_eq!(v.color_tex, (8, 9, 10, 11));
}

#[test]
fn sampling_mode_decodes_or_rejects() {
    assert_eq!(TextureSampling::from_raw(0).unwrap(), TextureSampling::Smooth);
    assert_eq!(TextureSampling::from_raw(1).unwrap(), TextureSampling::Pixel);
    assert!(matches!(TextureSampling::from_raw(2), Err(RoastError::IllegalArgument(_))));
}

#[test]
fn vertex_type_decodes_or_rejects() {
    assert_eq!(VertexType::from_raw(0).unwrap(), VertexType::COLOR);
    assert_eq!(VertexType::from_raw(1).unwrap(), VertexType::TEX1);
    assert_eq!(VertexType::from_raw(2).unwrap(), VertexType::TEX2);
    assert!(matches!(VertexType::from_raw(3), Err(RoastError::IllegalArgument(_))));
}

#[test]
fn camera_default_is_forty_five_degree_fov_at_origin() {
    let camera = Camera::default();
    assert_eq!(f64::from_bits(camera.fov), 45.0);
    assert_eq!(f64::from_bits(camera.pos.0), 0.0);
    assert_eq!(f64::from_bits(camera.yaw), 0.0);
    assert_eq!(F64_FORTY_FIVE_BITS, 45.0f64.to_bits());
}

#[test]
fn text_styles_are_distinct() {
    let styles = [
        ForeignTextStyle::Small,
        ForeignTextStyle::Body,
        ForeignTextStyle::Button,
        ForeignTextStyle::Heading,
        ForeignTextStyle::Monospace,
    ];
    for (i, a) in styles.iter().enumerate() {
        for (j, b) in styles.iter().enumerate() {
            assert_eq!(a == b, i == j);
        }
    }
}
