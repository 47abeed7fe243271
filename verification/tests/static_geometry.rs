use render_harness::geometry::{
    blit_quad, scene_triangle, BlitVertex, Vertex, BLIT_VERTEX_COUNT, SCENE_VERTEX_COUNT,
};

#[test]
fn vertex_new_keeps_its_arguments() {
    let vertex = Vertex::new([1.5f32, -2.0, 0.25], [0.1f32, 0.2, 0.3, 0.4]);
    assert_eq!(vertex.position, [1.5, -2.0, 0.25]);
    assert_eq!(vertex.color, [0.1, 0.2, 0.3, 0.4]);
}

#[test]
fn blit_vertex_new_keeps_its_arguments() {
    let vertex = BlitVertex::new([1.5f32, -2.0, 0.25], [0.75f32, 0.5]);
    assert_eq!(vertex.position, [1.5, -2.0, 0.25]);
    assert_eq!(vertex.uv_coords, [0.75, 0.5]);
}

#[test]
fn vertex_sizes_match_the_layout_strides() {
    assert_eq!(std::mem::size_of::<Vertex<f32>>(), 28);
    assert_eq!(std::mem::size_of::<BlitVertex<f32>>(), 20);
}

#[test]
fn scene_triangle_is_red_green_blue() {
    assert_eq!(
        scene_triangle(),
        [
            Vertex { position: [-1, -1, 0], color: [1, 0, 0, 1] },
            Vertex { position: [0, 1, 0], color: [0, 1, 0, 1] },
            Vertex { position: [1, -1, 0], color: [0, 0, 1, 1] },
        ]
    );
    assert_eq!(scene_triangle().len(), SCENE_VERTEX_COUNT as usize);
}

#[test]
fn blit_quad_is_two_triangles_over_clip_space() {
    assert_eq!(
        blit_quad(),
        [
            BlitVertex { position: [1, 1, 0], uv_coords: [1, 1] },
            BlitVertex { position: [-1, 1, 0], uv_coords: [0, 1] },
            BlitVertex { position: [-1, -1, 0], uv_coords: [0, 0] },
            BlitVertex { position: [1, -1, 0], uv_coords: [1, 0] },
            BlitVertex { position: [1, 1, 0], uv_coords: [1, 1] },
            BlitVertex { position: [-1, -1, 0], uv_coords: [0, 0] },
        ]
    );
    assert_eq!(blit_quad().len(), BLIT_VERTEX_COUNT as usize);
}

#[test]
fn blit_quad_reaches_every_corner() {
    let quad = blit_quad();
    for corner in [[-1i8, -1], [-1, 1], [1, -1], [1, 1]] {
        assert!(quad.iter().any(|v| v.position[0] == corner[0] && v.position[1] == corner[1]));
    }
    for vertex in quad {
        assert_eq!(vertex.position[2], 0);
        assert_eq!(vertex.uv_coords[0], (vertex.position[0] + 1) / 2);
        assert_eq!(vertex.uv_coords[1], (vertex.position[1] + 1) / 2);
    }
}
