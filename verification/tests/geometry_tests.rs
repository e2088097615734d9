use lyutmc::binding::{BindGroupLayoutEntry, BindingType, BufferUsages, ShaderStage};
use lyutmc::primitives::vertex::{
    Vertex, VertexAttribute, VertexBufferLayout, VertexFormat, VertexStepMode,
};
use lyutmc::shapes::cube::Cube;
use lyutmc::surface::TextureUsages;
use lyutmc::texture::{
    AddressMode, Extent3d, FilterMode, ImageCopy, SamplerDescriptor, TexelFormat, Texture,
    TextureDescriptor,
};

#[test]
fn format_sizes() {
    assert_eq!(VertexFormat::Float32.size(), 4);
    assert_eq!(VertexFormat::Float32x2.size(), 8);
    assert_eq!(VertexFormat::Float32x3.size(), 12);
    assert_eq!(VertexFormat::Float32x4.size(), 16);
}

#[test]
fn textured_vertex_layout_is_twenty_bytes() {
    let layout = Vertex::get_buffer_layout();
    assert_eq!(layout.array_stride, 20);
    assert_eq!(layout.step_mode, VertexStepMode::Vertex);
    assert_eq!(
        layout.attributes,
        vec![
            VertexAttribute { offset: 0, shader_location: 0, format: VertexFormat::Float32x3 },
            VertexAttribute { offset: 12, shader_location: 1, format: VertexFormat::Float32x2 },
        ]
    );
}

#[test]
fn coloured_vertex_layout_is_twenty_four_bytes() {
    let layout = VertexBufferLayout::packed(&vec![VertexFormat::Float32x3, VertexFormat::Float32x3]);
    assert_eq!(layout.array_stride, 24);
    assert_eq!(
        layout.attributes,
        vec![
            VertexAttribute { offset: 0, shader_location: 0, format: VertexFormat::Float32x3 },
            VertexAttribute { offset: 12, shader_location: 1, format: VertexFormat::Float32x3 },
        ]
    );
}

#[test]
fn packed_layout_of_nothing_is_empty() {
    let layout = VertexBufferLayout::packed(&vec![]);
    assert_eq!(layout.array_stride, 0);
    assert!(layout.attributes.is_empty());
}

#[test]
fn packed_layout_has_no_gaps() {
    let formats = vec![
        VertexFormat::Float32,
        VertexFormat::Float32x4,
        VertexFormat::Float32x2,
        VertexFormat::Float32x3,
    ];
    let layout = VertexBufferLayout::packed(&formats);
    assert_eq!(layout.array_stride, 40);
    let offsets: Vec<u64> = layout.attributes.iter().map(|a| a.offset).collect();
    assert_eq!(offsets, vec![0, 4, 20, 28]);
    let locations: Vec<u32> = layout.attributes.iter().map(|a| a.shader_location).collect();
    assert_eq!(locations, vec![0, 1, 2, 3]);
    let got: Vec<VertexFormat> = layout.attributes.iter().map(|a| a.format).collect();
    assert_eq!(got, formats);
}

#[test]
fn cube_has_sixteen_vertices_and_thirty_six_indices() {
    assert_eq!(Cube::get_vertices().len(), 16);
    assert_eq!(Cube::get_indices().len(), 36);
    assert_eq!(Cube::get_vertices_len(), 16);
    assert_eq!(Cube::get_indices_len(), 36);
}

#[test]
fn cube_vertices_are_the_corners() {
    let v = Cube::get_vertices();
    assert_eq!(v[0], Vertex::new((-1, -1, 1), (0, 1)));
    assert_eq!(v[2], Vertex::new((1, 1, 1), (1, 0)));
    assert_eq!(v[7], Vertex::new((1, -1, -1), (0, 1)));
    assert_eq!(v[10], Vertex::new((-1, 1, -1), (0, 1)));
    assert_eq!(v[15], Vertex::new((1, -1, -1), (1, 1)));
    for vertex in v.iter() {
        let (x, y, z) = vertex.position;
        assert!(x.abs() == 1 && y.abs() == 1 && z.abs() == 1);
        let (s, t) = vertex.tex_coords;
        assert!((s == 0 || s == 1) && (t == 0 || t == 1));
    }
}

#[test]
fn cube_indices_are_the_triangle_list() {
    assert_eq!(
        Cube::get_indices(),
        [
            0, 1, 2, 0, 2, 3, 7, 6, 5, 7, 5, 4, 3, 2, 6, 3, 6, 7, 4, 5, 1, 4, 1, 0, 8, 10, 11, 8,
            11, 9, 15, 14, 12, 13, 15, 12
        ]
    );
}

#[test]
fn cube_indices_name_vertices() {
    for index in Cube::get_indices() {
        assert!(u32::from(index) < Cube::get_vertices_len());
    }
}

#[test]
fn cube_triangles_turn_clockwise_from_outside() {
    let v = Cube::get_vertices();
    let i = Cube::get_indices();
    for t in 0..12 {
        let a = v[i[3 * t] as usize].position;
        let b = v[i[3 * t + 1] as usize].position;
        let c = v[i[3 * t + 2] as usize].position;
        let u = (b.0 - a.0, b.1 - a.1, b.2 - a.2);
        let w = (c.0 - a.0, c.1 - a.1, c.2 - a.2);
        let n = (u.1 * w.2 - u.2 * w.1, u.2 * w.0 - u.0 * w.2, u.0 * w.1 - u.1 * w.0);
        assert!(n.0 * a.0 + n.1 * a.1 + n.2 * a.2 < 0);
    }
}

#[test]
fn index_data_is_the_indices_in_memory_order() {
    let mut expected: Vec<u8> = Vec::new();
    for index in Cube::get_indices() {
        expected.extend_from_slice(&index.to_ne_bytes());
    }
    let data = Cube::index_data();
    assert_eq!(data.len(), 72);
    assert_eq!(data, expected);
    assert_eq!(u16::from_ne_bytes([data[2], data[3]]), 1);
    assert_eq!(u16::from_ne_bytes([data[70], data[71]]), 12);
}

#[test]
fn cube_buffer_usages() {
    assert_eq!(
        Cube::vertex_buffer_usage(),
        BufferUsages { uniform: false, copy_dst: false, vertex: true, index: false }
    );
    assert_eq!(
        Cube::index_buffer_usage(),
        BufferUsages { uniform: false, copy_dst: false, vertex: false, index: true }
    );
}

#[test]
fn texture_of_an_image() {
    let texture = Texture::new((512, 256)).unwrap();
    assert_eq!(texture.dimensions(), (512, 256));
    assert_eq!(texture.size(), Extent3d { width: 512, height: 256, depth_or_array_layers: 1 });
    assert_eq!(
        texture.descriptor(),
        TextureDescriptor {
            size: Extent3d { width: 512, height: 256, depth_or_array_layers: 1 },
            mip_level_count: 1,
            sample_count: 1,
            format: TexelFormat::Rgba8UnormSrgb,
            usage: TextureUsages { copy_dst: true, texture_binding: true, render_attachment: false },
        }
    );
    assert_eq!(
        texture.get_image_copy(),
        ImageCopy { mip_level: 0, origin_x: 0, origin_y: 0, origin_z: 0 }
    );
}

#[test]
fn texture_rows_are_four_bytes_per_texel() {
    let texture = Texture::new((512, 256)).unwrap();
    let layout = texture.get_image_data_layout();
    assert_eq!(layout.offset, 0);
    assert_eq!(layout.bytes_per_row, Some(2048));
    assert_eq!(layout.rows_per_image, Some(256));
    assert_eq!(texture.data_len(), 524288);
}

#[test]
fn widest_texture() {
    let width = u32::MAX / 4;
    let texture = Texture::new((width, u32::MAX)).unwrap();
    assert_eq!(texture.get_image_data_layout().bytes_per_row, Some(4294967292));
    assert_eq!(texture.data_len(), 4294967292u64 * 4294967295u64);
    assert!(Texture::new((width + 1, 1)).is_none());
    assert!(Texture::new((u32::MAX, 0)).is_none());
}

#[test]
fn empty_texture() {
    let texture = Texture::new((0, 0)).unwrap();
    assert_eq!(texture.get_image_data_layout().bytes_per_row, Some(0));
    assert_eq!(texture.data_len(), 0);
}

#[test]
fn texture_bind_group_has_texture_then_sampler() {
    assert_eq!(
        Texture::get_bind_group_layout(),
        vec![
            BindGroupLayoutEntry { binding: 0, visibility: ShaderStage::Fragment, ty: BindingType::Texture2d },
            BindGroupLayoutEntry {
                binding: 1,
                visibility: ShaderStage::Fragment,
                ty: BindingType::FilteringSampler
            },
        ]
    );
    assert_eq!(
        Texture::sampler(),
        SamplerDescriptor {
            address_mode: AddressMode::MirrorRepeat,
            mag_filter: FilterMode::Linear,
            min_filter: FilterMode::Nearest,
            mipmap_filter: FilterMode::Nearest,
        }
    );
}
