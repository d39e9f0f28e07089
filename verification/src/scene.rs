//! The scene that the runtime draws: one shader, a pixel buffer that a
//! compute pass fills from a table of items, and a render pass that shows it.
use vstd::prelude::*;
use crate::gpu_calls::WriteReceipt;
use crate::model::{
    BindGroupOrigin, BindingEntry, Blend, BufferDesc, ColorMask, BufferWrite, ComputeOrigin, GpuError, PipelineRef,
    RenderOrigin, RuntimeState, WriteRecord, USAGE_COPY_DST, USAGE_STORAGE, USAGE_UNIFORM,
};
use crate::runtime::GpuRuntime;

verus! {

/// 32-bit words per item of the item table.
pub const ITEM_WORDS: usize = 12;

/// Items that the item buffer holds.
pub const ITEM_SLOTS: usize = 256;

/// The words of the whole item table: `ITEM_SLOTS` items of `ITEM_WORDS` words.
pub const TABLE_WORDS: usize = 3072;

/// The size in bytes of the item buffer.
pub const TABLE_BYTES: u64 = 12288;

/// The size in bytes of the parameter buffer: width, height and two zero words.
pub const PARAMS_BYTES: u64 = 16;

/// The number of 16-pixel tiles that cover `n` pixels: the compute pass
/// dispatches one workgroup per tile in each direction.
pub fn tile_count(n: u32) -> (r: u32)
    requires
        n + 15 <= u32::MAX,
    ensures
        r == (n + 15) / 16,
{
    (n + 15) / 16
}

/// The handles of the scene's objects, and what was written into its two
/// filled buffers.
pub struct Scene {
    pub compute_pipeline: i64,
    pub compute_bg: i64,
    pub render_pipeline: i64,
    pub render_bg: i64,
    pub params_write: WriteReceipt,
    pub items_write: WriteReceipt,
}

/// The size in bytes of the pixel buffer: four bytes per pixel.
pub open spec fn pixel_bytes(s: RuntimeState) -> int {
    s.width() * s.height() * 4
}

/// The three buffers of the scene: pixels (storage), parameters (uniform,
/// copy destination) and items (storage, copy destination).
pub open spec fn scene_buffers(s: RuntimeState) -> Seq<BufferDesc> {
    seq![
        BufferDesc { size: pixel_bytes(s) as u64, usage: USAGE_STORAGE, mapped_at_creation: false },
        BufferDesc { size: PARAMS_BYTES, usage: USAGE_UNIFORM | USAGE_COPY_DST, mapped_at_creation: false },
        BufferDesc { size: TABLE_BYTES, usage: USAGE_STORAGE | USAGE_COPY_DST, mapped_at_creation: false },
    ]
}

/// The state after the scene was set up on `s` from `source` and `items`:
/// the source and its shader, the three buffers, the compute pipeline with
/// its bind group over the three buffers, the render pipeline with its bind
/// group over pixels and parameters; those two bindings stay pending, and
/// the item words, each pushed as a float, stay in the data stream. The
/// queue was handed two writes: the parameters, then the items, each at the
/// start of its buffer; nothing was submitted.
pub open spec fn scene_state(s: RuntimeState, source: Seq<char>, items: Seq<u32>) -> RuntimeState {
    let b = s.buffers.len() as i64;
    RuntimeState {
        sources: s.sources.push(source),
        shaders: s.shaders.push(source),
        buffers: s.buffers + scene_buffers(s),
        compute_pipelines: s.compute_pipelines.push(
            ComputeOrigin { shader: s.shaders.len(), entry_point: "fine"@ },
        ),
        render_pipelines: s.render_pipelines.push(
            RenderOrigin {
                shader: s.shaders.len(),
                vertex_entry: "vs_fullscreen"@,
                fragment_entry: "fs_fullscreen"@,
                format: s.format->0,
                blend: Blend::Replace,
                write_mask: ColorMask::All,
                vertex_buffers: 0,
            },
        ),
        bind_groups: s.bind_groups.push(
            BindGroupOrigin {
                pipeline: PipelineRef::Compute(s.compute_pipelines.len()),
                group: 0,
                entries: seq![
                    BindingEntry::Buffer(b),
                    BindingEntry::Buffer((b + 1) as i64),
                    BindingEntry::Buffer((b + 2) as i64),
                ],
            },
        ).push(
            BindGroupOrigin {
                pipeline: PipelineRef::Render(s.render_pipelines.len()),
                group: 0,
                entries: seq![BindingEntry::Buffer(b), BindingEntry::Buffer((b + 1) as i64)],
            },
        ),
        pending: seq![BindingEntry::Buffer(b), BindingEntry::Buffer((b + 1) as i64)],
        data: items,
        data_is_f32: Seq::new(items.len(), |i: int| true),
        writes: s.writes.push(WriteRecord { buffer: (b + 1) as usize, offset: 0, len: PARAMS_BYTES as usize }).push(
            WriteRecord { buffer: (b + 2) as usize, offset: 0, len: TABLE_BYTES as usize },
        ),
        ..s
    }
}

/// Sets the scene up on a connected runtime: registers `shader_src` and
/// compiles it; makes the pixel buffer (width times height times 4 bytes),
/// the parameter buffer, filled with width, height, 0, 0, and the item
/// buffer, filled with `item_words`; then the compute pipeline (entry point
/// `fine`) with a bind group over the three buffers, and the render pipeline
/// with a bind group over pixels and parameters. If wgpu refuses an object,
/// setting up stops there with its error.
#[verifier::rlimit(40)]
pub fn setup_scene(gpu: &mut GpuRuntime, shader_src: String, item_words: Vec<u32>) -> (r: Result<
    Scene,
    GpuError,
>)
    requires
        old(gpu).wf(),
        old(gpu)@.ready,
        old(gpu)@.format is Some,
        item_words@.len() == TABLE_WORDS,
        pixel_bytes(old(gpu)@) <= u32::MAX,
        pixel_bytes(old(gpu)@) <= old(gpu)@.limits.max_buffer_size,
        TABLE_BYTES <= old(gpu)@.limits.max_buffer_size,
        old(gpu)@.sources.len() < i64::MAX,
        old(gpu)@.shaders.len() < i64::MAX,
        old(gpu)@.buffers.len() + 3 < i64::MAX,
        old(gpu)@.compute_pipelines.len() < i64::MAX,
        old(gpu)@.render_pipelines.len() < i64::MAX,
        old(gpu)@.bind_groups.len() + 2 < i64::MAX,
    ensures
        final(gpu).wf(),
        old(gpu)@.handles_kept_by(final(gpu)@),
        r matches Ok(scene) ==> {
            let b = old(gpu)@.buffers.len() as int;
            &&& final(gpu)@.buffers[b].size == 4 * old(gpu)@.width() * old(gpu)@.height()
            &&& final(gpu)@.buffers[b].usage == 0x80
            &&& final(gpu)@.buffers[b + 1] == (BufferDesc { size: 16, usage: 0x48, mapped_at_creation: false })
            &&& final(gpu)@.buffers[b + 2] == (BufferDesc { size: 12288, usage: 0x88, mapped_at_creation: false })
            &&& scene.compute_pipeline == old(gpu)@.compute_pipelines.len()
            &&& scene.render_pipeline == old(gpu)@.render_pipelines.len()
            &&& scene.compute_bg == old(gpu)@.bind_groups.len()
            &&& scene.render_bg == scene.compute_bg + 1
            &&& final(gpu)@ == scene_state(old(gpu)@, shader_src@, item_words@)
            &&& scene.params_write.view() == (BufferWrite {
                buffer: old(gpu)@.buffers.len() + 1,
                offset: 0,
                bytes: old(gpu)@.bytes_of(seq![old(gpu)@.width(), old(gpu)@.height(), 0u32, 0u32]),
            })
            &&& scene.items_write.view() == (BufferWrite {
                buffer: old(gpu)@.buffers.len() + 2,
                offset: 0,
                bytes: old(gpu)@.bytes_of(item_words@),
            })
        },
{
    let ghost s0 = gpu@;
    let ghost source = shader_src@;
    assert(128u32 & 0xfff == 128 && 128u32 & 2 == 0 && 128u32 & 1 == 0 && 128u32 & 16 == 0 && 128u32 & 256
        == 0) by (bit_vector);
    assert((64u32 | 8u32) == 72 && 72u32 & 0xfff == 72 && 72u32 & 2 == 0 && 72u32 & 1 == 0 && 72u32 & 16
        == 0 && 72u32 & 256 == 0 && 72u32 & 8 != 0) by (bit_vector);
    assert((128u32 | 8u32) == 136 && 136u32 & 0xfff == 136 && 136u32 & 2 == 0 && 136u32 & 1 == 0 && 136u32
        & 16 == 0 && 136u32 & 256 == 0 && 136u32 & 8 != 0) by (bit_vector);
    let w = gpu.width();
    let h = gpu.height();
    let source_idx = gpu.register_shader_source(shader_src);
    let shader = match gpu.create_shader(source_idx) {
        Ok(x) => x,
        Err(e) => {
            return Err(e);
        },
    };
    let pixel_size: u32 = w * h * 4;
    let pixel_buf = match gpu.create_buffer(pixel_size as i64, USAGE_STORAGE as i64) {
        Ok(x) => x,
        Err(e) => {
            return Err(e);
        },
    };
    let params_buf = match gpu.create_buffer(PARAMS_BYTES as i64, (USAGE_UNIFORM | USAGE_COPY_DST) as i64) {
        Ok(x) => x,
        Err(e) => {
            return Err(e);
        },
    };
    gpu.begin_data();
    gpu.push_u32(w as i64);
    gpu.push_u32(h as i64);
    gpu.push_u32(0);
    gpu.push_u32(0);
    assert(gpu@.data =~= seq![w, h, 0u32, 0u32]);
    let params_write = match gpu.flush_to_buffer(params_buf) {
        Ok(x) => x,
        Err(e) => {
            return Err(e);
        },
    };
    let items_buf = match gpu.create_buffer(TABLE_BYTES as i64, (USAGE_STORAGE | USAGE_COPY_DST) as i64) {
        Ok(x) => x,
        Err(e) => {
            return Err(e);
        },
    };
    gpu.begin_data();
    let ghost s_items = gpu@;
    let mut i: usize = 0;
    while i < TABLE_WORDS
        invariant
            gpu.wf(),
            i <= TABLE_WORDS,
            item_words@.len() == TABLE_WORDS,
            s_items.data.len() == 0,
            s_items.data_is_f32.len() == 0,
            gpu@ == (RuntimeState {
                data: item_words@.take(i as int),
                data_is_f32: Seq::new(i as nat, |j: int| true),
                ..s_items
            }),
        decreases TABLE_WORDS - i,
    {
        gpu.push_f32(item_words[i]);
        assert(item_words@.take(i as int + 1) =~= item_words@.take(i as int).push(item_words@[i as int]));
        assert(Seq::new((i + 1) as nat, |j: int| true) =~= Seq::new(i as nat, |j: int| true).push(true));
        i += 1;
    }
    assert(item_words@.take(TABLE_WORDS as int) =~= item_words@);
    let items_write = match gpu.flush_to_buffer(items_buf) {
        Ok(x) => x,
        Err(e) => {
            return Err(e);
        },
    };
    let compute_pipeline = match gpu.create_compute_pipeline(shader) {
        Ok(x) => x,
        Err(e) => {
            return Err(e);
        },
    };
    gpu.begin_bindings();
    gpu.add_buffer_binding(pixel_buf);
    gpu.add_buffer_binding(params_buf);
    gpu.add_buffer_binding(items_buf);
    let compute_bg = match gpu.create_bind_group_for_compute(compute_pipeline, 0) {
        Ok(x) => x,
        Err(e) => {
            return Err(e);
        },
    };
    let render_pipeline = match gpu.create_render_pipeline(shader, 0) {
        Ok(x) => x,
        Err(e) => {
            return Err(e);
        },
    };
    gpu.begin_bindings();
    gpu.add_buffer_binding(pixel_buf);
    gpu.add_buffer_binding(params_buf);
    let render_bg = match gpu.create_bind_group_for_render(render_pipeline, 0) {
        Ok(x) => x,
        Err(e) => {
            return Err(e);
        },
    };
    let ghost fin = scene_state(s0, source, item_words@);
    assert(w * h * 4 == 4 * w * h) by (nonlinear_arith);
    assert(gpu@.buffers[s0.buffers.len() as int].size == 4 * s0.width() * s0.height());
    assert(gpu@.buffers =~= fin.buffers);
    assert(gpu@.bind_groups[s0.bind_groups.len() as int].entries =~= fin.bind_groups[s0.bind_groups.len() as int].entries);
    assert(gpu@.bind_groups[s0.bind_groups.len() + 1int].entries =~= fin.bind_groups[s0.bind_groups.len() + 1int].entries);
    assert(gpu@.bind_groups =~= fin.bind_groups);
    assert(gpu@.writes =~= fin.writes);
    assert(gpu@ =~= fin);
    Ok(Scene { compute_pipeline, compute_bg, render_pipeline, render_bg, params_write, items_write })
}

} // verus!
