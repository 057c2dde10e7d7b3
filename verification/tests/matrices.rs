use linalg3d::matrix3::Matrix3;
use linalg3d::matrix4::{Matrix4, Rotator};
use linalg3d::vector3::Vector3;
use linalg3d::vector4::Vector4;

fn bits(x: f32) -> u32 {
    x.to_bits()
}

fn grid3(m: &Matrix3) -> [[f32; 3]; 3] {
    let mut out = [[0.0f32; 3]; 3];
    for row in 0..3 {
        for col in 0..3 {
            out[row][col] = f32::from_bits(m.m_data[row][col]);
        }
    }
    out
}

fn grid4(m: &Matrix4) -> [[f32; 4]; 4] {
    let mut out = [[0.0f32; 4]; 4];
    for row in 0..4 {
        for col in 0..4 {
            out[row][col] = f32::from_bits(m.m_data[row][col]);
        }
    }
    out
}

fn det3(m: &[[f32; 3]; 3]) -> f32 {
    m[0][0] * m[1][1] * m[2][2] + m[0][1] * m[1][2] * m[2][0] + m[0][2] * m[2][1] * m[1][0]
        - m[2][0] * m[1][1] * m[0][2]
        - m[1][0] * m[0][1] * m[2][2]
        - m[0][0] * m[1][2] * m[2][1]
}

fn det4(m: &Matrix4) -> f32 {
    let top = grid4(m)[0];
    top[0] * det3(&grid3(&m.minor(0))) - top[1] * det3(&grid3(&m.minor(1)))
        + top[2] * det3(&grid3(&m.minor(2)))
        - top[3] * det3(&grid3(&m.minor(3)))
}

fn apply(m: &Matrix4, v: [f32; 4]) -> [f32; 4] {
    let g = grid4(m);
    let mut out = [0.0f32; 4];
    for row in 0..4 {
        out[row] = g[row][0] * v[0] + g[row][1] * v[1] + g[row][2] * v[2] + g[row][3] * v[3];
    }
    out
}

fn scenario() -> Matrix4 {
    Matrix4::new((
        bits(4.0), bits(2.0), bits(5.0), bits(2.0),
        bits(4.0), bits(2.0), bits(7.0), bits(2.0),
        bits(3.0), bits(6.0), bits(1.0), bits(2.0),
        bits(2.0), bits(14.0), bits(5.0), bits(6.0),
    ))
}

const I3: [[f32; 3]; 3] = [[1.0, 0.0, 0.0], [0.0, 1.0, 0.0], [0.0, 0.0, 1.0]];
const I4: [[f32; 4]; 4] =
    [[1.0, 0.0, 0.0, 0.0], [0.0, 1.0, 0.0, 0.0], [0.0, 0.0, 1.0, 0.0], [0.0, 0.0, 0.0, 1.0]];

#[test]
fn matrix3_from_empty_tuple_is_identity() {
    assert_eq!(grid3(&Matrix3::new(())), I3);
    assert_eq!(grid3(&Matrix3::identity()), I3);
}

#[test]
fn matrix3_from_any_integer_is_zero() {
    assert_eq!(grid3(&Matrix3::new(0i64)), [[0.0; 3]; 3]);
    assert_eq!(grid3(&Matrix3::new(5i64)), [[0.0; 3]; 3]);
    assert_eq!(Matrix3::zero().m_data, [[0; 3]; 3]);
}

#[test]
fn matrix3_from_matrix3_is_a_copy() {
    let m = Matrix3::new((
        bits(1.0), bits(2.0), bits(3.0),
        bits(4.0), bits(5.0), bits(6.0),
        bits(7.0), bits(8.0), bits(9.0),
    ));
    assert_eq!(Matrix3::new(&m).m_data, m.m_data);
}

#[test]
fn matrix3_from_nine_components_fills_rows() {
    let m = Matrix3::new((
        bits(1.0), bits(2.0), bits(3.0),
        bits(4.0), bits(5.0), bits(6.0),
        bits(7.0), bits(8.0), bits(9.0),
    ));
    assert_eq!(grid3(&m), [[1.0, 2.0, 3.0], [4.0, 5.0, 6.0], [7.0, 8.0, 9.0]]);
}

#[test]
fn matrix3_from_three_vectors_fills_columns() {
    let a = Vector3::new((bits(1.0), bits(2.0), bits(3.0)));
    let b = Vector3::new((bits(4.0), bits(5.0), bits(6.0)));
    let c = Vector3::new((bits(7.0), bits(8.0), bits(9.0)));
    let m = Matrix3::new((&a, &b, &c));
    assert_eq!(grid3(&m), [[1.0, 4.0, 7.0], [2.0, 5.0, 8.0], [3.0, 6.0, 9.0]]);
}

#[test]
fn matrix4_from_empty_tuple_is_identity() {
    assert_eq!(grid4(&Matrix4::new(())), I4);
    assert_eq!(grid4(&Matrix4::identity()), I4);
}

#[test]
fn matrix4_from_any_integer_is_zero() {
    assert_eq!(grid4(&Matrix4::new(0i64)), [[0.0; 4]; 4]);
    assert_eq!(grid4(&Matrix4::new(-1i64)), [[0.0; 4]; 4]);
    assert_eq!(Matrix4::zero().m_data, [[0; 4]; 4]);
}

#[test]
fn matrix4_from_matrix4_is_a_copy() {
    let m = scenario();
    assert_eq!(Matrix4::new(&m).m_data, m.m_data);
}

#[test]
fn matrix4_from_sixteen_components_fills_rows() {
    assert_eq!(
        grid4(&scenario()),
        [[4.0, 2.0, 5.0, 2.0], [4.0, 2.0, 7.0, 2.0], [3.0, 6.0, 1.0, 2.0], [2.0, 14.0, 5.0, 6.0]]
    );
}

#[test]
fn matrix4_from_four_vectors_fills_rows() {
    let a = Vector4::new(());
    let b = Vector4::zero();
    let c = Vector4::new((bits(3.0), bits(3.0), bits(3.0)));
    let d = Vector4::new((bits(4.0), bits(5.0), bits(6.0), bits(7.0)));
    let m = Matrix4::new((&a, &b, &c, &d));
    assert_eq!(
        grid4(&m),
        [[0.0, 0.0, 0.0, 1.0], [0.0, 0.0, 0.0, 0.0], [3.0, 3.0, 3.0, 1.0], [4.0, 5.0, 6.0, 7.0]]
    );
}

#[test]
fn identity_leaves_a_vector_as_it_is() {
    let v = [1.5f32, -2.0, 3.25, 1.0];
    assert_eq!(apply(&Matrix4::identity(), v), v);
    assert_eq!(apply(&Matrix4::zero(), v), [0.0, 0.0, 0.0, 0.0]);
}

#[test]
fn translate_fills_the_last_column() {
    let m = Matrix4::translate(bits(1.0), bits(2.0), bits(3.0));
    assert_eq!(
        grid4(&m),
        [[1.0, 0.0, 0.0, 1.0], [0.0, 1.0, 0.0, 2.0], [0.0, 0.0, 1.0, 3.0], [0.0, 0.0, 0.0, 1.0]]
    );
    assert_eq!(apply(&m, [5.0, 6.0, 7.0, 1.0]), [6.0, 8.0, 10.0, 1.0]);
}

#[test]
fn scale_fills_the_diagonal() {
    let m = Matrix4::scale(bits(4.0), bits(5.0), bits(6.0));
    assert_eq!(
        grid4(&m),
        [[4.0, 0.0, 0.0, 0.0], [0.0, 5.0, 0.0, 0.0], [0.0, 0.0, 6.0, 0.0], [0.0, 0.0, 0.0, 1.0]]
    );
}

#[test]
fn rotate_x_places_the_block() {
    let m = Matrix4::rotate_x(bits(0.5), bits(0.25));
    assert_eq!(
        grid4(&m),
        [[1.0, 0.0, 0.0, 0.0], [0.0, 0.5, -0.25, 0.0], [0.0, 0.25, 0.5, 0.0], [0.0, 0.0, 0.0, 1.0]]
    );
}

#[test]
fn rotate_y_places_the_block() {
    let m = Matrix4::rotate_y(bits(0.5), bits(0.25));
    assert_eq!(
        grid4(&m),
        [[0.5, 0.0, 0.25, 0.0], [0.0, 1.0, 0.0, 0.0], [-0.25, 0.0, 0.5, 0.0], [0.0, 0.0, 0.0, 1.0]]
    );
}

#[test]
fn rotate_z_places_the_block() {
    let m = Matrix4::rotate_z(bits(0.5), bits(0.25));
    assert_eq!(
        grid4(&m),
        [[0.5, -0.25, 0.0, 0.0], [0.25, 0.5, 0.0, 0.0], [0.0, 0.0, 1.0, 0.0], [0.0, 0.0, 0.0, 1.0]]
    );
}

#[test]
fn rotate_z_quarter_turn_maps_x_to_y() {
    let angle = 90.0f32 * std::f32::consts::PI / 180.0;
    let m = Matrix4::rotate_z(bits(angle.cos()), bits(angle.sin()));
    let out = apply(&m, [1.0, 0.0, 0.0, 1.0]);
    let expected = [0.0f32, 1.0, 0.0, 1.0];
    for i in 0..4 {
        assert!((out[i] - expected[i]).abs() < 1e-6);
    }
}

#[test]
fn rotate_x_quarter_turn_maps_y_to_z() {
    let angle = 90.0f32 * std::f32::consts::PI / 180.0;
    let m = Matrix4::rotate_x(bits(angle.cos()), bits(angle.sin()));
    let out = apply(&m, [0.0, 1.0, 0.0, 1.0]);
    let expected = [0.0f32, 0.0, 1.0, 1.0];
    for i in 0..4 {
        assert!((out[i] - expected[i]).abs() < 1e-6);
    }
}

#[test]
fn rotate_y_quarter_turn_maps_z_to_x() {
    let angle = 90.0f32 * std::f32::consts::PI / 180.0;
    let m = Matrix4::rotate_y(bits(angle.cos()), bits(angle.sin()));
    let out = apply(&m, [0.0, 0.0, 1.0, 1.0]);
    let expected = [1.0f32, 0.0, 0.0, 1.0];
    for i in 0..4 {
        assert!((out[i] - expected[i]).abs() < 1e-6);
    }
}

#[test]
fn rotate_lays_the_block_into_the_identity() {
    let block = Matrix3::new((
        bits(1.0), bits(2.0), bits(3.0),
        bits(4.0), bits(5.0), bits(6.0),
        bits(7.0), bits(8.0), bits(9.0),
    ));
    assert_eq!(
        grid4(&Matrix4::rotate(&block)),
        [[1.0, 2.0, 3.0, 0.0], [4.0, 5.0, 6.0, 0.0], [7.0, 8.0, 9.0, 0.0], [0.0, 0.0, 0.0, 1.0]]
    );
    assert_eq!(grid4(&Matrix4::rotate(&Matrix3::identity())), I4);
}

#[test]
fn rotate_about_z_agrees_with_rotate_z() {
    let (c, s) = (bits(0.6), bits(0.8));
    let block = Matrix3::new((
        c, bits(-0.8), bits(0.0),
        s, c, bits(0.0),
        bits(0.0), bits(0.0), bits(1.0),
    ));
    assert_eq!(Matrix4::rotate(&block).m_data, Matrix4::rotate_z(c, s).m_data);
}

#[test]
fn minor_deletes_first_row_and_one_column() {
    let m = scenario();
    assert_eq!(grid3(&m.minor(0)), [[2.0, 7.0, 2.0], [6.0, 1.0, 2.0], [14.0, 5.0, 6.0]]);
    assert_eq!(grid3(&m.minor(1)), [[4.0, 7.0, 2.0], [3.0, 1.0, 2.0], [2.0, 5.0, 6.0]]);
    assert_eq!(grid3(&m.minor(2)), [[4.0, 2.0, 2.0], [3.0, 6.0, 2.0], [2.0, 14.0, 6.0]]);
    assert_eq!(grid3(&m.minor(3)), [[4.0, 2.0, 7.0], [3.0, 6.0, 1.0], [2.0, 14.0, 5.0]]);
}

#[test]
fn cofactor_expansion_over_minors_gives_the_determinant() {
    assert_eq!(det4(&scenario()), -128.0);
    assert_eq!(det4(&Matrix4::identity()), 1.0);
    assert_eq!(det4(&Matrix4::zero()), 0.0);
    assert_eq!(det3(&grid3(&Matrix3::identity())), 1.0);
    assert_eq!(det3(&grid3(&Matrix3::zero())), 0.0);
    assert_eq!(det4(&Matrix4::scale(bits(2.0), bits(3.0), bits(4.0))), 24.0);
}

#[test]
fn minors_of_identity() {
    let m = Matrix4::identity();
    assert_eq!(grid3(&m.minor(0)), I3);
    assert_eq!(grid3(&m.minor(3)), [[0.0, 1.0, 0.0], [0.0, 0.0, 1.0], [0.0, 0.0, 0.0]]);
}

#[test]
fn rotation_axis_is_the_same_from_every_shape() {
    let angle = bits(90.0);
    let plain = Rotator::into((bits(1.0), bits(1.0), bits(1.0), angle));
    let v3 = Vector3::new((bits(1.0), bits(1.0), bits(1.0)));
    let v4 = Vector4::new((bits(1.0), bits(1.0), bits(1.0), bits(5.0)));
    assert_eq!(plain, (bits(1.0), bits(1.0), bits(1.0), angle));
    assert_eq!(Rotator::into((&v3, angle)), plain);
    assert_eq!(Rotator::into((&v4, angle)), plain);
    assert_eq!(Rotator::into((&Vector4::new(&v3), angle)), plain);
}

#[test]
fn rotation_axis_keeps_component_order() {
    let v3 = Vector3::new((bits(1.0), bits(2.0), bits(3.0)));
    assert_eq!(Rotator::into((&v3, bits(45.0))), (bits(1.0), bits(2.0), bits(3.0), bits(45.0)));
}
