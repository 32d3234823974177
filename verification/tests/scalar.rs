use hello_webgl_wasm::scalar::{
    copy_values, resolve_color, triangle, vertex_count, MINUS_ONE, ONE, ZERO,
};

#[test]
fn bit_patterns_are_those_of_the_numbers() {
    assert_eq!(f32::from_bits(ZERO), 0.0);
    assert_eq!(f32::from_bits(ONE), 1.0);
    assert_eq!(f32::from_bits(MINUS_ONE), -1.0);
    assert_eq!(ONE, 1.0f32.to_bits());
    assert_eq!(MINUS_ONE, (-1.0f32).to_bits());
}

#[test]
fn triangle_is_top_then_bottom_left_then_bottom_right() {
    let vertices: Vec<f32> = triangle().iter().map(|bits| f32::from_bits(*bits)).collect();
    assert_eq!(vertices, vec![0.0, 1.0, 0.0, -1.0, -1.0, 0.0, 1.0, -1.0, 0.0]);
}

#[test]
fn triangle_has_nine_coordinates_and_three_vertices() {
    assert_eq!(triangle().len(), 9);
    assert_eq!(vertex_count(&triangle()), 3);
}

#[test]
fn vertex_count_is_a_third_rounded_down() {
    assert_eq!(vertex_count(&vec![]), 0);
    assert_eq!(vertex_count(&vec![7, 7]), 0);
    assert_eq!(vertex_count(&vec![7, 7, 7]), 1);
    assert_eq!(vertex_count(&vec![7; 10]), 3);
    assert_eq!(vertex_count(&vec![7; 12]), 4);
}

#[test]
fn default_color_is_opaque_red() {
    let color: Vec<f32> = resolve_color(None).iter().map(|bits| f32::from_bits(*bits)).collect();
    assert_eq!(color, vec![1.0, 0.0, 0.0, 1.0]);
}

#[test]
fn selected_color_is_kept() {
    let green = vec![0.0f32.to_bits(), 1.0f32.to_bits(), 0.0f32.to_bits(), 1.0f32.to_bits()];
    assert_eq!(resolve_color(Some(green.clone())), green);
    let odd = vec![5, 6];
    assert_eq!(resolve_color(Some(odd.clone())), odd);
}

#[test]
fn copy_values_copies() {
    assert_eq!(copy_values(&vec![3, 1, 2]), vec![3, 1, 2]);
    assert_eq!(copy_values(&vec![]), Vec::<u32>::new());
}
