use sprite_batch::VERTEX_SIZE_BYTES;
use sprite_batch::buffer::Buffer;
use sprite_batch::buffer::BufferError;
use sprite_batch::buffer::VertexArray;
use sprite_batch::commands::BufferKind;
use sprite_batch::commands::BufferUsage;
use sprite_batch::commands::RenderCommand;
use sprite_batch::data::NormRect;
use sprite_batch::data::vertex_attributes;
use sprite_batch::subtexture::Subtexture;
use sprite_batch::texture::PixelFormat;
use sprite_batch::texture::Texture;
use sprite_batch::texture::TextureCreationError;

#[test]
fn vertex_layout_is_tightly_packed() {
    let attrs = vertex_attributes();
    assert_eq!(attrs.len(), 4);
    let locations: Vec<u32> = attrs.iter().map(|a| a.location).collect();
    let components: Vec<u32> = attrs.iter().map(|a| a.components).collect();
    let offsets: Vec<u32> = attrs.iter().map(|a| a.offset).collect();
    assert_eq!(locations, vec![0, 1, 2, 3]);
    assert_eq!(components, vec![3, 4, 2, 1]);
    assert_eq!(offsets, vec![0, 12, 28, 36]);
    assert_eq!(VERTEX_SIZE_BYTES, 40);
}

#[test]
fn buffer_full_upload_sets_capacity() {
    let mut b = Buffer::new(11, BufferKind::Vertex);
    assert_eq!(b.capacity_bytes, 0);
    let c = b.upload_data_dynamic_draw(640);
    assert_eq!(b.capacity_bytes, 640);
    match c {
        RenderCommand::UploadFull { kind, buffer_id, len_bytes, usage } => {
            assert!(matches!(kind, BufferKind::Vertex));
            assert_eq!(buffer_id, 11);
            assert_eq!(len_bytes, 640);
            assert!(matches!(usage, BufferUsage::DynamicDraw));
        }
        _ => panic!("expected a full upload"),
    }
    let c = b.upload_data_static_draw(64);
    assert_eq!(b.capacity_bytes, 64);
    assert!(matches!(
        c,
        RenderCommand::UploadFull { usage: BufferUsage::StaticDraw, len_bytes: 64, .. }
    ));
}

#[test]
fn buffer_partial_upload_respects_capacity() {
    let mut b = Buffer::new(12, BufferKind::Vertex);
    let _ = b.upload_data_dynamic_draw(100);
    let ok = b.upload_subdata_dynamic_draw(40, 60);
    match ok {
        Ok(RenderCommand::UploadSub { kind, buffer_id, offset_bytes, len_bytes }) => {
            assert!(matches!(kind, BufferKind::Vertex));
            assert_eq!(buffer_id, 12);
            assert_eq!(offset_bytes, 40);
            assert_eq!(len_bytes, 60);
        }
        _ => panic!("an in-range partial upload must be accepted"),
    }
    let refused = b.upload_subdata_dynamic_draw(40, 61);
    assert!(matches!(refused, Err(BufferError::RangeExceedsCapacity)));
}

#[test]
fn buffer_bind_and_unbind_commands() {
    let b = Buffer::new(13, BufferKind::Index);
    assert!(matches!(
        b.bind(),
        RenderCommand::BindBuffer { kind: BufferKind::Index, buffer_id: 13 }
    ));
    assert!(matches!(
        b.unbind(),
        RenderCommand::BindBuffer { kind: BufferKind::Index, buffer_id: 0 }
    ));
    let v = VertexArray::new(21);
    assert!(matches!(v.bind(), RenderCommand::BindVertexArray { vao_id: 21 }));
    assert!(matches!(v.unbind(), RenderCommand::BindVertexArray { vao_id: 0 }));
}

#[test]
fn texture_from_data_accepts_matching_length() {
    let data = vec![0u8; 16];
    let t = Texture::from_data(3, &data, 2, 2, PixelFormat::Rgba).unwrap();
    assert_eq!(t.id(), 3);
    assert_eq!(t.width(), 2);
    assert_eq!(t.height(), 2);
    let rgb = vec![0u8; 12];
    let t = Texture::from_data(4, &rgb, 2, 2, PixelFormat::Rgb).unwrap();
    assert_eq!(t.width(), 2);
}

#[test]
fn texture_from_data_rejects_wrong_length() {
    let data = vec![0u8; 15];
    let r = Texture::from_data(3, &data, 2, 2, PixelFormat::Rgba);
    assert!(matches!(r, Err(TextureCreationError::DataSizeMismatch)));
    let data = vec![0u8; 16];
    let r = Texture::from_data(3, &data, 2, 2, PixelFormat::Rgb);
    assert!(matches!(r, Err(TextureCreationError::DataSizeMismatch)));
}

#[test]
fn white_texture_is_one_opaque_white_pixel() {
    assert_eq!(Texture::white_texture_data(), vec![255u8, 255, 255, 255]);
    let t = Texture::with_white_new(8);
    assert_eq!(t.id(), 8);
    assert_eq!(t.width(), 1);
    assert_eq!(t.height(), 1);
}

#[test]
fn texture_bind_commands() {
    let t = Texture::new(6, 32, 32);
    assert!(matches!(t.bind(), RenderCommand::BindTexture { texture_id: 6 }));
    assert!(matches!(t.unbind(), RenderCommand::BindTexture { texture_id: 0 }));
}

#[test]
fn subtexture_keeps_explicit_rect_and_texture() {
    let tex = Texture::new(1, 128, 128);
    let rect = NormRect { x_num: 32, y_num: 16, w_num: 8, h_num: 8, den_x: 128, den_y: 128 };
    let sub = Subtexture::from_texture(&tex, rect);
    assert_eq!(sub.get_normalized_rect(), rect);
    assert_eq!(sub.texture().id(), 1);
    assert_eq!(sub.texture().width(), 128);
}

#[test]
fn tile_grid_rect_is_exact() {
    let tex = Texture::new(1, 128, 64);
    let sub = Subtexture::from_tiles(&tex, 3, 2, 8, 16);
    let r = sub.get_normalized_rect();
    assert_eq!((r.x_num, r.den_x), (24, 128));
    assert_eq!((r.y_num, r.den_y), (32, 64));
    assert_eq!((r.w_num, r.h_num), (8, 16));
}

#[test]
fn tile_eight_of_a_256_texture_starts_halfway() {
    // a 256x256 texture cut into 16x16 tiles: tile (8, 0) starts at
    // (0.5, 0.0) and spans a sixteenth of the texture on each axis
    let tex = Texture::new(1, 256, 256);
    let sub = Subtexture::from_tiles(&tex, 8, 0, 16, 16);
    let r = sub.get_normalized_rect();
    assert_eq!(r.x_num as f32 / r.den_x as f32, 0.5);
    assert_eq!(r.y_num as f32 / r.den_y as f32, 0.0);
    assert_eq!(r.w_num as f32 / r.den_x as f32, 0.0625);
    assert_eq!(r.h_num as f32 / r.den_y as f32, 0.0625);
}

#[test]
fn full_rect_covers_the_unit_square() {
    let r = NormRect::full();
    assert_eq!((r.x_num, r.y_num, r.w_num, r.h_num, r.den_x, r.den_y), (0, 0, 1, 1, 1, 1));
}
