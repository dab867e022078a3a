use galileo::error::GalileoError;
use galileo::mesh::{PointInstance, PolyVertex, VertexFormat, VertexStepMode};

#[test]
fn poly_vertex_layout_is_packed() {
    let l = PolyVertex::wgpu_desc();
    assert_eq!(l.step_mode, VertexStepMode::Vertex);
    assert_eq!(l.array_stride, 40);
    assert_eq!(l.attributes.len(), 4);
    let offsets: Vec<u64> = l.attributes.iter().map(|a| a.offset).collect();
    assert_eq!(offsets, vec![0, 12, 28, 36]);
    let locations: Vec<u32> = l.attributes.iter().map(|a| a.shader_location).collect();
    assert_eq!(locations, vec![0, 1, 2, 3]);
    assert_eq!(l.attributes[0].format, VertexFormat::Float32x3);
    assert_eq!(l.attributes[1].format, VertexFormat::Float32x4);
    assert_eq!(l.attributes[2].format, VertexFormat::Float32x2);
    assert_eq!(l.attributes[3].format, VertexFormat::Float32);
    // each offset is the previous offset plus the previous format's size
    for w in 0..3 {
        assert_eq!(
            l.attributes[w + 1].offset,
            l.attributes[w].offset + l.attributes[w].format.byte_size()
        );
    }
}

#[test]
fn point_instance_layout_is_packed() {
    let l = PointInstance::wgpu_desc();
    assert_eq!(l.step_mode, VertexStepMode::Instance);
    assert_eq!(l.array_stride, 16);
    assert_eq!(l.attributes.len(), 2);
    assert_eq!(l.attributes[0].format, VertexFormat::Float32x3);
    assert_eq!(l.attributes[1].format, VertexFormat::Uint8x4);
    assert_eq!(l.attributes[1].offset, 12);
}

#[test]
fn format_byte_sizes() {
    assert_eq!(VertexFormat::Float32.byte_size(), 4);
    assert_eq!(VertexFormat::Float32x2.byte_size(), 8);
    assert_eq!(VertexFormat::Float32x3.byte_size(), 12);
    assert_eq!(VertexFormat::Float32x4.byte_size(), 16);
    assert_eq!(VertexFormat::Uint8x4.byte_size(), 4);
}

#[test]
fn error_kind_messages() {
    assert_eq!(GalileoError::IO.kind_message(), "failed to load data");
    assert_eq!(
        GalileoError::Decoding("x".to_string()).kind_message(),
        "failed to decode data"
    );
    assert_eq!(GalileoError::Wasm(None).kind_message(), "wasm error");
    assert_eq!(GalileoError::NotFound.kind_message(), "item not found");
    assert_eq!(GalileoError::ImageDecode.kind_message(), "image decode error");
    assert_eq!(GalileoError::Generic("g".to_string()).kind_message(), "error");
    assert_eq!(GalileoError::FsIo("f".to_string()).kind_message(), "failed to read file");
    assert_eq!(
        GalileoError::WinitEventLoop("e".to_string()).kind_message(),
        "event loop error"
    );
    assert_eq!(GalileoError::WinitOs("o".to_string()).kind_message(), "os error");
}
