use sprite_batch::INDEX_BUFFER_CAPACITY_BYTES;
use sprite_batch::MAX_QUADS;
use sprite_batch::VERTEX_BUFFER_CAPACITY_BYTES;
use sprite_batch::VERTEX_SIZE_BYTES;
use sprite_batch::batch_renderer::BatchError;
use sprite_batch::batch_renderer::BatchRenderer;
use sprite_batch::batch_renderer::SceneState;
use sprite_batch::batch_renderer::quad_index_pattern;
use sprite_batch::buffer::Buffer;
use sprite_batch::buffer::VertexArray;
use sprite_batch::commands::BufferKind;
use sprite_batch::commands::RenderCommand;
use sprite_batch::data::Color;
use sprite_batch::data::NormRect;
use sprite_batch::texture::Texture;

fn test_renderer() -> BatchRenderer {
    let mut vbo = Buffer::new(1, BufferKind::Vertex);
    let _ = vbo.upload_data_dynamic_draw(VERTEX_BUFFER_CAPACITY_BYTES);
    let mut ibo = Buffer::new(2, BufferKind::Index);
    let _ = ibo.upload_data_static_draw(INDEX_BUFFER_CAPACITY_BYTES);
    let white = Texture::with_white_new(9);
    BatchRenderer::new(7, VertexArray::new(3), vbo, ibo, white)
}

fn white() -> Color {
    Color { r: 255, g: 255, b: 255, a: 255 }
}

fn full_rect() -> NormRect {
    NormRect { x_num: 0, y_num: 0, w_num: 1, h_num: 1, den_x: 1, den_y: 1 }
}

#[test]
fn index_pattern_has_six_indices_per_quad() {
    let indices = quad_index_pattern();
    assert_eq!(indices.len(), MAX_QUADS * 6);
}

#[test]
fn index_pattern_first_quad() {
    let indices = quad_index_pattern();
    assert_eq!(&indices[0..6], &[0, 1, 2, 2, 3, 0]);
}

#[test]
fn index_pattern_quad_five() {
    let indices = quad_index_pattern();
    assert_eq!(&indices[30..36], &[20, 21, 22, 22, 23, 20]);
}

#[test]
fn index_pattern_last_quad() {
    let indices = quad_index_pattern();
    let q = MAX_QUADS - 1;
    assert_eq!(
        &indices[6 * q..6 * q + 6],
        &[
            (4 * q) as u32,
            (4 * q + 1) as u32,
            (4 * q + 2) as u32,
            (4 * q + 2) as u32,
            (4 * q + 3) as u32,
            (4 * q) as u32,
        ]
    );
}

#[test]
fn new_renderer_is_idle_and_empty() {
    let r = test_renderer();
    assert!(matches!(r.scene_state(), SceneState::Idle));
    assert_eq!(r.vertices().len(), 0);
    assert_eq!(r.stats().quads_rendered, 0);
    assert_eq!(r.stats().draw_calls, 0);
    assert_eq!(r.white_texture().width(), 1);
    assert_eq!(r.white_texture().height(), 1);
}

#[test]
fn empty_scene_issues_no_commands() {
    let mut r = test_renderer();
    r.begin_scene();
    assert!(matches!(r.scene_state(), SceneState::Accumulating));
    let cmds = r.end_scene();
    assert!(cmds.is_empty());
    assert!(matches!(r.scene_state(), SceneState::Idle));
    assert_eq!(r.stats().draw_calls, 0);
}

#[test]
fn three_quads_accumulate_twelve_vertices_and_draw_eighteen_indices() {
    let mut r = test_renderer();
    let tex = Texture::new(5, 64, 64);
    r.begin_scene();
    for i in 0..3 {
        let ok = r.draw_quad(&tex, 10 * i, 20, 0, white(), 8, full_rect());
        assert!(ok.is_ok());
    }
    assert_eq!(r.vertices().len(), 12);
    assert_eq!(r.stats().quads_rendered, 3);
    let cmds = r.end_scene();
    assert_eq!(cmds.len(), 7);
    assert!(matches!(cmds[0], RenderCommand::UseProgram { program_id: 7 }));
    assert!(matches!(
        cmds[1],
        RenderCommand::BindBuffer { kind: BufferKind::Vertex, buffer_id: 1 }
    ));
    match cmds[2] {
        RenderCommand::UploadSub { kind, buffer_id, offset_bytes, len_bytes } => {
            assert!(matches!(kind, BufferKind::Vertex));
            assert_eq!(buffer_id, 1);
            assert_eq!(offset_bytes, 0);
            assert_eq!(len_bytes, 12 * VERTEX_SIZE_BYTES);
        }
        _ => panic!("expected a partial vertex upload"),
    }
    assert!(matches!(
        cmds[3],
        RenderCommand::BindBuffer { kind: BufferKind::Index, buffer_id: 2 }
    ));
    assert!(matches!(cmds[4], RenderCommand::BindVertexArray { vao_id: 3 }));
    assert!(matches!(cmds[5], RenderCommand::DrawIndexed { index_count: 18 }));
    assert!(matches!(cmds[6], RenderCommand::BindVertexArray { vao_id: 0 }));
    assert_eq!(r.stats().draw_calls, 1);
}

#[test]
fn draw_quad_appends_four_exact_corners() {
    let mut r = test_renderer();
    let tex = Texture::new(5, 256, 256);
    let uv = NormRect { x_num: 0, y_num: 0, w_num: 16, h_num: 16, den_x: 256, den_y: 256 };
    let color = Color { r: 10, g: 20, b: 30, a: 40 };
    r.begin_scene();
    r.draw_quad(&tex, 10, 20, 3, color, 5, uv).unwrap();
    let v = r.vertices();
    assert_eq!(v.len(), 4);
    // origin corner
    assert_eq!((v[0].pos_x, v[0].pos_y, v[0].pos_z), (10, 20, 3));
    assert_eq!((v[0].u_num, v[0].v_num), (0, 0));
    // counter-clockwise with a bottom-left origin: right, then far, then top
    assert_eq!((v[1].pos_x, v[1].pos_y), (15, 20));
    assert_eq!((v[1].u_num, v[1].v_num), (16, 0));
    assert_eq!((v[2].pos_x, v[2].pos_y), (15, 25));
    assert_eq!((v[2].u_num, v[2].v_num), (16, 16));
    assert_eq!((v[3].pos_x, v[3].pos_y), (10, 25));
    assert_eq!((v[3].u_num, v[3].v_num), (0, 16));
    for corner in v.iter() {
        assert_eq!(corner.pos_z, 3);
        assert_eq!(corner.color, color);
        assert_eq!(corner.u_den, 256);
        assert_eq!(corner.v_den, 256);
        assert_eq!(corner.texture_id, 0);
    }
}

#[test]
fn full_scene_renders_max_quads_and_refuses_the_next() {
    let mut r = test_renderer();
    let tex = Texture::new(5, 64, 64);
    r.begin_scene();
    for i in 0..MAX_QUADS {
        let x = (i % 64) as i32;
        let y = (i / 64) as i32;
        let ok = r.draw_quad(&tex, x, y, 0, white(), 1, full_rect());
        assert!(ok.is_ok());
    }
    // the scene is full: one more quad must be refused, loudly
    let refused = r.draw_quad(&tex, 0, 0, 0, white(), 1, full_rect());
    assert!(matches!(refused, Err(BatchError::CapacityExceeded)));
    assert_eq!(r.stats().quads_rendered, MAX_QUADS as u32);
    let cmds = r.end_scene();
    assert!(matches!(
        cmds[5],
        RenderCommand::DrawIndexed { index_count } if index_count == MAX_QUADS * 6
    ));
    match cmds[2] {
        RenderCommand::UploadSub { offset_bytes, len_bytes, .. } => {
            assert_eq!(offset_bytes, 0);
            // the boundary case: the upload fills the capacity exactly
            assert_eq!(len_bytes, VERTEX_BUFFER_CAPACITY_BYTES);
        }
        _ => panic!("expected a partial vertex upload"),
    }
    assert_eq!(r.stats().draw_calls, 1);
}

#[test]
fn renderer_is_reusable_across_frames() {
    let mut r = test_renderer();
    let tex = Texture::new(5, 64, 64);
    r.begin_scene();
    r.draw_quad(&tex, 0, 0, 0, white(), 2, full_rect()).unwrap();
    r.draw_quad(&tex, 4, 0, 0, white(), 2, full_rect()).unwrap();
    let cmds = r.end_scene();
    assert!(matches!(cmds[5], RenderCommand::DrawIndexed { index_count: 12 }));
    // the next frame starts from a clean accumulator and fresh statistics
    r.begin_scene();
    assert_eq!(r.vertices().len(), 0);
    assert_eq!(r.stats().quads_rendered, 0);
    assert_eq!(r.stats().draw_calls, 0);
    r.draw_quad(&tex, 8, 0, 0, white(), 2, full_rect()).unwrap();
    let cmds = r.end_scene();
    assert!(matches!(cmds[5], RenderCommand::DrawIndexed { index_count: 6 }));
    assert_eq!(r.stats().draw_calls, 1);
}

#[test]
fn draw_subtexture_samples_the_tile_rect() {
    let mut r = test_renderer();
    let tex = Texture::new(5, 256, 256);
    let sub = sprite_batch::subtexture::Subtexture::from_tiles(&tex, 8, 0, 16, 16);
    r.begin_scene();
    r.draw_subtexture(&sub, 4, 8, 0, white(), 16).unwrap();
    let v = r.vertices();
    assert_eq!(v.len(), 4);
    assert_eq!((v[0].u_num, v[0].u_den), (128, 256));
    assert_eq!((v[1].u_num, v[1].v_num), (144, 0));
    assert_eq!((v[2].u_num, v[2].v_num), (144, 16));
    assert_eq!((v[1].pos_x, v[1].pos_y), (20, 8));
}

#[test]
fn begin_scene_discards_accumulated_quads() {
    let mut r = test_renderer();
    let tex = Texture::new(5, 64, 64);
    r.begin_scene();
    r.draw_quad(&tex, 1, 2, 0, white(), 4, full_rect()).unwrap();
    r.begin_scene();
    assert_eq!(r.vertices().len(), 0);
    assert_eq!(r.stats().quads_rendered, 0);
}
