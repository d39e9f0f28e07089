use ceangal::model::{BindingEntry, BufferDesc, DeviceLimits};
use ceangal::runtime::GpuRuntime;

#[test]
fn fresh_runtime_is_empty() {
    let gpu = GpuRuntime::new();
    assert!(!gpu.is_ready());
    assert!(!gpu.has_surface());
    assert!(!gpu.has_format());
    assert_eq!(gpu.source_count(), 0);
    assert_eq!(gpu.shader_count(), 0);
    assert_eq!(gpu.buffer_count(), 0);
    assert_eq!(gpu.compute_pipeline_count(), 0);
    assert_eq!(gpu.render_pipeline_count(), 0);
    assert_eq!(gpu.bind_group_count(), 0);
    assert_eq!(gpu.data_len(), 0);
    assert_eq!(gpu.pending_len(), 0);
}

#[test]
fn default_equals_new() {
    let gpu = GpuRuntime::default();
    assert!(!gpu.is_ready());
    assert_eq!(gpu.source_count(), 0);
    assert_eq!(gpu.width(), 1);
}

#[test]
fn size_before_init_is_one_by_one() {
    let gpu = GpuRuntime::new();
    assert_eq!(gpu.width(), 1);
    assert_eq!(gpu.height(), 1);
}

#[test]
fn canvas_and_format_handles_are_zero() {
    let mut gpu = GpuRuntime::new();
    assert_eq!(gpu.configure_canvas(7), 0);
    assert_eq!(gpu.get_preferred_format(), 0);
    assert_eq!(gpu.source_count(), 0);
}

#[test]
fn shader_sources_get_consecutive_handles() {
    let mut gpu = GpuRuntime::new();
    assert_eq!(gpu.register_shader_source("fn a() {}".to_string()), 0);
    assert_eq!(gpu.register_shader_source("fn b() {}".to_string()), 1);
    assert_eq!(gpu.register_shader_source(String::new()), 2);
    assert_eq!(gpu.source_count(), 3);
}

#[test]
fn bindings_accumulate_and_reset() {
    let mut gpu = GpuRuntime::new();
    gpu.begin_bindings();
    gpu.add_buffer_binding(0);
    gpu.add_texture_binding(1);
    gpu.add_sampler_binding(2);
    assert_eq!(gpu.pending_len(), 3);
    gpu.begin_bindings();
    assert_eq!(gpu.pending_len(), 0);
    assert!(gpu.bindings_resolvable());
}

#[test]
fn bindings_to_missing_objects_are_not_resolvable() {
    let mut gpu = GpuRuntime::new();
    gpu.begin_bindings();
    gpu.add_buffer_binding(0);
    assert!(!gpu.bindings_resolvable());
    gpu.begin_bindings();
    gpu.add_texture_binding(-1);
    assert!(!gpu.bindings_resolvable());
    gpu.begin_bindings();
    gpu.add_sampler_binding(0);
    assert!(!gpu.bindings_resolvable());
}

#[test]
fn binding_entries_compare_by_kind_and_handle() {
    assert_eq!(BindingEntry::Buffer(3), BindingEntry::Buffer(3));
    assert_ne!(BindingEntry::Buffer(3), BindingEntry::Texture(3));
    assert_ne!(BindingEntry::Sampler(3), BindingEntry::Sampler(4));
}

#[test]
fn data_stream_counts_words_and_restarts() {
    let mut gpu = GpuRuntime::new();
    gpu.begin_data();
    gpu.push_u32(640);
    gpu.push_u32(480);
    gpu.push_f32(1.5f32.to_bits());
    assert_eq!(gpu.data_len(), 3);
    gpu.begin_data();
    assert_eq!(gpu.data_len(), 0);
}

#[test]
fn no_buffer_before_creation() {
    let gpu = GpuRuntime::new();
    assert_eq!(gpu.buffer_desc(0), None);
    assert_eq!(gpu.buffer_desc(-1), None);
    assert!(!gpu.write_allowed(0, 0, 4));
    assert!(!gpu.write_allowed(0, 0, 0));
}

#[test]
fn no_bind_group_before_creation() {
    let gpu = GpuRuntime::new();
    assert!(!gpu.bind_group_fits_group0(0, 0, true));
    assert!(!gpu.bind_group_fits_group0(0, 0, false));
}

fn limits(unrestricted_index_buffer: bool, indirect_execution: bool) -> DeviceLimits {
    DeviceLimits {
        max_buffer_size: 1 << 28,
        max_texture_dimension_2d: 8192,
        unrestricted_index_buffer,
        indirect_execution,
    }
}

fn buffer_usage_acceptable_on(usage: i64, l: DeviceLimits) -> bool {
    ceangal::runtime::buffer_usage_acceptable(usage, l)
}

#[test]
fn usage_flags_accepted_by_wgpu() {
    // STORAGE, UNIFORM | COPY_DST, STORAGE | COPY_DST as the scene uses them.
    assert!(buffer_usage_acceptable_on(0x0080, limits(true, true)));
    assert!(buffer_usage_acceptable_on(0x0040 | 0x0008, limits(true, true)));
    assert!(buffer_usage_acceptable_on(0x0080 | 0x0008, limits(true, true)));
    // MAP_READ with COPY_DST, MAP_WRITE with COPY_SRC.
    assert!(buffer_usage_acceptable_on(0x0001 | 0x0008, limits(true, true)));
    assert!(buffer_usage_acceptable_on(0x0002 | 0x0004, limits(true, true)));
}

#[test]
fn usage_flags_refused_by_wgpu() {
    // No flag at all, only unknown bits.
    assert!(!buffer_usage_acceptable_on(0, limits(true, true)));
    assert!(!buffer_usage_acceptable_on(0x1000, limits(true, true)));
    // Mappable buffers that are used otherwise.
    assert!(!buffer_usage_acceptable_on(0x0001 | 0x0080, limits(true, true)));
    assert!(!buffer_usage_acceptable_on(0x0002 | 0x0040, limits(true, true)));
    // Only the low 32 bits count: 2^32 + STORAGE is STORAGE.
    assert!(buffer_usage_acceptable_on((1i64 << 32) | 0x0080, limits(true, true)));
}

#[test]
fn buffer_desc_fields() {
    let d = BufferDesc { size: 16, usage: 0x48, mapped_at_creation: false };
    assert_eq!(d.size, 16);
    assert_eq!(d.usage, 0x48);
}

#[test]
fn data_bytes_are_the_words_in_native_order() {
    let mut gpu = GpuRuntime::new();
    gpu.begin_data();
    gpu.push_u32(0x0102_0304);
    gpu.push_f32(1.5f32.to_bits());
    gpu.push_u32(-1);
    gpu.push_u32(1 << 32);
    let mut expected = Vec::new();
    expected.extend_from_slice(&0x0102_0304u32.to_ne_bytes());
    expected.extend_from_slice(&1.5f32.to_ne_bytes());
    expected.extend_from_slice(&u32::MAX.to_ne_bytes());
    expected.extend_from_slice(&0u32.to_ne_bytes());
    assert_eq!(gpu.data_bytes(), expected);
    assert_eq!(gpu.data_bytes().len(), 16);
}

#[test]
fn empty_data_stream_has_no_bytes() {
    let mut gpu = GpuRuntime::new();
    gpu.begin_data();
    assert!(gpu.data_bytes().is_empty());
}

#[test]
fn push_u32_keeps_the_low_32_bits() {
    let mut gpu = GpuRuntime::new();
    gpu.begin_data();
    gpu.push_u32(0x1_0000_0005);
    gpu.push_u32(-2);
    let b = gpu.data_bytes();
    assert_eq!(&b[0..4], &5u32.to_ne_bytes());
    assert_eq!(&b[4..8], &0xFFFF_FFFEu32.to_ne_bytes());
}

#[test]
fn registering_sources_leaves_builders_alone() {
    let mut gpu = GpuRuntime::new();
    gpu.begin_bindings();
    gpu.add_buffer_binding(4);
    gpu.begin_data();
    gpu.push_u32(9);
    gpu.register_shader_source("fn main() {}".to_string());
    assert_eq!(gpu.pending_len(), 1);
    assert_eq!(gpu.data_len(), 1);
    assert_eq!(gpu.data_bytes(), 9u32.to_ne_bytes().to_vec());
}

#[test]
fn index_and_indirect_usages_depend_on_the_adapter() {
    // INDEX | STORAGE needs unrestricted index buffers.
    assert!(buffer_usage_acceptable_on(0x0010 | 0x0080, limits(true, false)));
    assert!(!buffer_usage_acceptable_on(0x0010 | 0x0080, limits(false, true)));
    // INDEX | COPY_DST is fine everywhere.
    assert!(buffer_usage_acceptable_on(0x0010 | 0x0008, limits(false, false)));
    // INDIRECT needs indirect execution.
    assert!(buffer_usage_acceptable_on(0x0100, limits(false, true)));
    assert!(!buffer_usage_acceptable_on(0x0100, limits(true, false)));
}

#[test]
fn no_buffer_is_allowed_without_a_device() {
    let gpu = GpuRuntime::new();
    assert!(!gpu.buffer_allowed(16, 0x0048));
    assert_eq!(gpu.device_limits(), None);
}
