//! The mathematical model of the runtime: what each handle stands for, and
//! what the runtime hands to the GPU queue.
use vstd::prelude::*;

verus! {

/// `BufferUsages::MAP_READ`.
pub const USAGE_MAP_READ: u32 = 1;

/// `BufferUsages::MAP_WRITE`.
pub const USAGE_MAP_WRITE: u32 = 2;

/// `BufferUsages::COPY_SRC`.
pub const USAGE_COPY_SRC: u32 = 4;

/// `BufferUsages::COPY_DST`.
pub const USAGE_COPY_DST: u32 = 8;

/// `BufferUsages::INDEX`.
pub const USAGE_INDEX: u32 = 16;

/// `BufferUsages::UNIFORM`.
pub const USAGE_UNIFORM: u32 = 64;

/// `BufferUsages::STORAGE`.
pub const USAGE_STORAGE: u32 = 128;

/// The usages that an index buffer may share only on adapters with
/// `DownlevelFlags::UNRESTRICTED_INDEX_BUFFER`: VERTEX, UNIFORM, INDIRECT, STORAGE.
pub const USAGE_SHARED_WITH_INDEX: u32 = 32 | 64 | 256 | 128;

/// `BufferUsages::INDIRECT`.
pub const USAGE_INDIRECT: u32 = 256;

/// The bits that name a buffer usage flag; `BufferUsages::from_bits_truncate`
/// drops every other bit.
pub const USAGE_KNOWN_BITS: u32 = 0xfff;

/// The alignment that a queue write needs for its offset and its length.
pub const COPY_ALIGNMENT: u64 = 4;

/// One entry of the bind group under construction, by the handle it names.
#[derive(Clone, Copy, PartialEq, Eq, Structural, Debug)]
pub enum BindingEntry {
    Buffer(i64),
    Texture(i64),
    Sampler(i64),
}

/// The size in bytes and the usage bits that a buffer was created with, and
/// whether it was mapped at creation.
#[derive(Clone, Copy, PartialEq, Eq, Structural, Debug)]
pub struct BufferDesc {
    pub size: u64,
    pub usage: u32,
    pub mapped_at_creation: bool,
}

/// How a color target combines a fragment with what is under it, one
/// variant per blend state that wgpu names.
#[derive(Clone, Copy, PartialEq, Eq, Structural, Debug)]
pub enum Blend {
    /// `BlendState::REPLACE`: the fragment replaces what is under it.
    Replace,
    /// `BlendState::ALPHA_BLENDING`.
    AlphaBlending,
    /// `BlendState::PREMULTIPLIED_ALPHA_BLENDING`.
    PremultipliedAlphaBlending,
}

/// The channels a color target writes, one variant per mask that wgpu names.
#[derive(Clone, Copy, PartialEq, Eq, Structural, Debug)]
pub enum ColorMask {
    /// `ColorWrites::ALL`.
    All,
    /// `ColorWrites::COLOR`: red, green and blue.
    Color,
    /// `ColorWrites::ALPHA`.
    Alpha,
}

/// Why a frame could not be drawn: the surface refused to hand out a
/// texture, or wgpu refused the frame's commands.
#[derive(Clone, Copy, PartialEq, Eq, Structural, Debug)]
pub enum FrameError {
    Timeout,
    Outdated,
    Lost,
    OutOfMemory,
    Other,
    /// An error scope caught a validation or out-of-memory error while the
    /// frame was acquired, encoded and submitted.
    Rejected,
}

/// Why wgpu refused to make an object: an error scope caught a validation
/// error (such as shader code that does not compile, or an entry point or
/// bind group layout that the shader does not declare) or an out-of-memory
/// error.
#[derive(Clone, Copy, PartialEq, Eq, Structural, Debug)]
pub enum GpuError {
    Validation,
    OutOfMemory,
}

/// Why the runtime could not be connected to a surface.
#[derive(Clone, Copy, PartialEq, Eq, Structural, Debug)]
pub enum InitError {
    /// The runtime already holds a device; its objects belong to that one.
    AlreadyConnected,
    /// The adapter handed out no device.
    NoDevice,
    /// The adapter supports no format or no present mode for the surface.
    SurfaceUnsupported,
    /// The surface is wider or higher than the device's largest 2D texture.
    SurfaceTooLarge,
    /// wgpu refused to configure the surface with the adapter's default
    /// configuration.
    ConfigurationRejected,
}

/// The limits and capabilities of a device that decide whether wgpu
/// accepts a new buffer or a surface size.
#[derive(Clone, Copy, PartialEq, Eq, Structural, Debug)]
pub struct DeviceLimits {
    pub max_buffer_size: u64,
    pub max_texture_dimension_2d: u32,
    /// `DownlevelFlags::UNRESTRICTED_INDEX_BUFFER` of the adapter.
    pub unrestricted_index_buffer: bool,
    /// `DownlevelFlags::INDIRECT_EXECUTION` of the adapter.
    pub indirect_execution: bool,
}

/// The kind of a pass in a command buffer.
#[derive(Clone, Copy, PartialEq, Eq, Structural, Debug)]
pub enum PassKind {
    Compute,
    Render,
}

/// One command recorded in a pass, objects by handle.
#[derive(Clone, Copy, PartialEq, Eq, Structural, Debug)]
pub enum PassCommand {
    SetPipeline(usize),
    SetBindGroup(u32, usize),
    Dispatch(u32, u32, u32),
    /// Vertex range `.0..1`, instance range `.2..3`.
    Draw(u32, u32, u32, u32),
}

/// A pass as it was recorded: its kind and its commands in order.
pub ghost struct PassRecord {
    pub kind: PassKind,
    /// Where a render pass draws; none for a compute pass.
    pub target: Option<RenderTarget>,
    pub commands: Seq<PassCommand>,
}

/// The color attachment of a render pass: the texture it draws into, the
/// color it clears it to first, and whether it stores what it drew.
pub ghost struct RenderTarget {
    pub texture: wgpu::Texture,
    pub clear: wgpu::Color,
    pub store: bool,
}

/// A write handed to the GPU queue, by the handle of its buffer, its offset
/// and its length in bytes.
#[derive(Clone, Copy, PartialEq, Eq, Structural, Debug)]
pub struct WriteRecord {
    pub buffer: usize,
    pub offset: u64,
    pub len: usize,
}

/// A pipeline, by kind and handle.
pub ghost enum PipelineRef {
    Compute(nat),
    Render(nat),
}

/// What a compute pipeline was built from: a shader and its entry point,
/// with the layout derived from the shader.
pub ghost struct ComputeOrigin {
    pub shader: nat,
    pub entry_point: Seq<char>,
}

/// What a render pipeline was built from: the shader of both stages, their
/// entry points, and one color target in `format` with its blend state and
/// write mask.
pub ghost struct RenderOrigin {
    pub shader: nat,
    pub vertex_entry: Seq<char>,
    pub fragment_entry: Seq<char>,
    pub format: wgpu::TextureFormat,
    pub blend: Blend,
    pub write_mask: ColorMask,
    /// The number of vertex buffers the vertex stage reads.
    pub vertex_buffers: nat,
}

/// What a bind group was built from: the pipeline whose layout it follows,
/// the group index in that layout, and its entries, entry `i` at binding `i`.
pub ghost struct BindGroupOrigin {
    pub pipeline: PipelineRef,
    pub group: u32,
    pub entries: Seq<BindingEntry>,
}

/// A write handed to the GPU queue: these bytes, at this offset of this buffer.
pub ghost struct BufferWrite {
    pub buffer: nat,
    pub offset: u64,
    pub bytes: Seq<u8>,
}

/// The passes of the command buffer that draws one frame: a compute pass
/// that dispatches `tiles_x` by `tiles_y` by 1 workgroups, then a render pass
/// into `texture`, cleared to `clear` and stored, that draws vertices 0..6 of
/// instance 0, each with its pipeline and bind group 0.
pub open spec fn frame_passes(
    compute_pipeline: usize,
    compute_bg: usize,
    render_pipeline: usize,
    render_bg: usize,
    tiles_x: u32,
    tiles_y: u32,
    clear: wgpu::Color,
    texture: wgpu::Texture,
) -> Seq<PassRecord> {
    seq![
        PassRecord {
            kind: PassKind::Compute,
            target: None,
            commands: seq![
                PassCommand::SetPipeline(compute_pipeline),
                PassCommand::SetBindGroup(0, compute_bg),
                PassCommand::Dispatch(tiles_x, tiles_y, 1),
            ],
        },
        PassRecord {
            kind: PassKind::Render,
            target: Some(RenderTarget { texture, clear, store: true }),
            commands: seq![
                PassCommand::SetPipeline(render_pipeline),
                PassCommand::SetBindGroup(0, render_bg),
                PassCommand::Draw(0, 6, 0, 1),
            ],
        },
    ]
}

/// The abstract state of a `GpuRuntime`. A handle of a table is an index
/// into the matching sequence; each element says what that handle was made from.
#[verifier::ext_equal]
pub ghost struct RuntimeState {
    /// A device and its queue are installed.
    pub ready: bool,
    /// The installed device's limits (meaningful when `ready`).
    pub limits: DeviceLimits,
    /// The byte order the runtime writes words in: the machine's, as found
    /// when the runtime was made.
    pub little_endian: bool,
    /// A surface is installed.
    pub has_surface: bool,
    pub format: Option<wgpu::TextureFormat>,
    /// The width and height that the surface was configured with.
    pub surface_size: Option<(u32, u32)>,
    /// Registered shader sources, by source handle.
    pub sources: Seq<Seq<char>>,
    /// The source text of each shader module, by shader handle.
    pub shaders: Seq<Seq<char>>,
    pub buffers: Seq<BufferDesc>,
    pub compute_pipelines: Seq<ComputeOrigin>,
    pub render_pipelines: Seq<RenderOrigin>,
    pub bind_groups: Seq<BindGroupOrigin>,
    pub textures: nat,
    pub samplers: nat,
    /// The bind group under construction.
    pub pending: Seq<BindingEntry>,
    /// The data stream: one 32-bit word per pushed value.
    pub data: Seq<u32>,
    /// Whether each word of the data stream was pushed as a float.
    pub data_is_f32: Seq<bool>,
    /// The buffer writes handed to the queue, in order.
    pub writes: Seq<WriteRecord>,
    /// The number of command buffers submitted to the queue.
    pub submissions: nat,
}

/// `n`, raised to 1 if it is 0.
pub open spec fn at_least_one(n: u32) -> u32 {
    if n >= 1 {
        n
    } else {
        1
    }
}

pub open spec fn handle_in(h: i64, len: nat) -> bool {
    0 <= h && h < len
}

impl RuntimeState {
    pub open spec fn binding_valid(self, e: BindingEntry) -> bool {
        match e {
            BindingEntry::Buffer(h) => handle_in(h, self.buffers.len()),
            BindingEntry::Texture(h) => handle_in(h, self.textures),
            BindingEntry::Sampler(h) => handle_in(h, self.samplers),
        }
    }

    /// Every pending binding names a resource that exists.
    pub open spec fn bindings_resolvable(self) -> bool {
        forall|i: int| 0 <= i < self.pending.len() ==> self.binding_valid(#[trigger] self.pending[i])
    }

    /// Every table of `self` is a prefix of the same table of `t`: each handle
    /// of `self` is a handle of `t` and stands for the same thing there.
    pub open spec fn handles_kept_by(self, t: RuntimeState) -> bool {
        &&& self.sources.is_prefix_of(t.sources)
        &&& self.shaders.is_prefix_of(t.shaders)
        &&& self.buffers.is_prefix_of(t.buffers)
        &&& self.compute_pipelines.is_prefix_of(t.compute_pipelines)
        &&& self.render_pipelines.is_prefix_of(t.render_pipelines)
        &&& self.bind_groups.is_prefix_of(t.bind_groups)
        &&& self.textures <= t.textures
        &&& self.samplers <= t.samplers
    }

    /// No device, no surface, every table and both builders empty.
    pub open spec fn is_fresh(self) -> bool {
        &&& !self.ready
        &&& !self.has_surface
        &&& self.format is None
        &&& self.surface_size is None
        &&& self.sources.len() == 0
        &&& self.shaders.len() == 0
        &&& self.buffers.len() == 0
        &&& self.compute_pipelines.len() == 0
        &&& self.render_pipelines.len() == 0
        &&& self.bind_groups.len() == 0
        &&& self.textures == 0
        &&& self.samplers == 0
        &&& self.pending.len() == 0
        &&& self.data.len() == 0
        &&& self.data_is_f32.len() == 0
        &&& self.writes.len() == 0
        &&& self.submissions == 0
    }

    /// Bind group `bg` was made for layout 0 of `pipeline`. Pipelines here
    /// have layouts derived from their shader, and wgpu accepts a bind group
    /// made from such a layout only with the pipeline it came from.
    pub open spec fn fits_group0(self, bg: i64, pipeline: PipelineRef) -> bool {
        &&& handle_in(bg, self.bind_groups.len())
        &&& self.bind_groups[bg as int].pipeline == pipeline
        &&& self.bind_groups[bg as int].group == 0
    }

    pub open spec fn with_binding(self, e: BindingEntry) -> RuntimeState {
        RuntimeState { pending: self.pending.push(e), ..self }
    }

    /// Appends each of `entries`, in order, to the pending bindings.
    pub open spec fn with_bindings(self, entries: Seq<BindingEntry>) -> RuntimeState
        decreases entries.len(),
    {
        if entries.len() == 0 {
            self
        } else {
            self.with_bindings(entries.drop_last()).with_binding(entries.last())
        }
    }

    /// Appends each of `words`, in order, to the data stream, each with its
    /// float flag.
    pub open spec fn with_words(self, words: Seq<(u32, bool)>) -> RuntimeState
        decreases words.len(),
    {
        if words.len() == 0 {
            self
        } else {
            self.with_words(words.drop_last()).with_word(words.last().0, words.last().1)
        }
    }

    pub open spec fn with_bindings_cleared(self) -> RuntimeState {
        RuntimeState { pending: Seq::empty(), ..self }
    }

    pub open spec fn with_word(self, word: u32, is_f32: bool) -> RuntimeState {
        RuntimeState { data: self.data.push(word), data_is_f32: self.data_is_f32.push(is_f32), ..self }
    }

    /// The queue was handed a write of `len` bytes at `offset` into buffer `h`.
    pub open spec fn with_write(self, h: i64, offset: u64, len: nat) -> RuntimeState {
        RuntimeState {
            writes: self.writes.push(WriteRecord { buffer: h as usize, offset, len: len as usize }),
            ..self
        }
    }

    /// One more command buffer was submitted.
    pub open spec fn with_submission(self) -> RuntimeState {
        RuntimeState { submissions: self.submissions + 1, ..self }
    }

    pub open spec fn with_data_cleared(self) -> RuntimeState {
        RuntimeState { data: Seq::empty(), data_is_f32: Seq::empty(), ..self }
    }

    pub open spec fn with_source(self, source: Seq<char>) -> RuntimeState {
        RuntimeState { sources: self.sources.push(source), ..self }
    }

    pub open spec fn with_shader(self, source: Seq<char>) -> RuntimeState {
        RuntimeState { shaders: self.shaders.push(source), ..self }
    }

    pub open spec fn with_buffer(self, desc: BufferDesc) -> RuntimeState {
        RuntimeState { buffers: self.buffers.push(desc), ..self }
    }

    pub open spec fn with_compute_pipeline(self, origin: ComputeOrigin) -> RuntimeState {
        RuntimeState { compute_pipelines: self.compute_pipelines.push(origin), ..self }
    }

    pub open spec fn with_render_pipeline(self, origin: RenderOrigin) -> RuntimeState {
        RuntimeState { render_pipelines: self.render_pipelines.push(origin), ..self }
    }

    pub open spec fn with_bind_group(self, origin: BindGroupOrigin) -> RuntimeState {
        RuntimeState { bind_groups: self.bind_groups.push(origin), ..self }
    }

    /// The bind group that the pending bindings make for `pipeline`'s layout `group`.
    pub open spec fn pending_group(self, pipeline: PipelineRef, group: u32) -> BindGroupOrigin {
        BindGroupOrigin { pipeline, group, entries: self.pending }
    }

    /// The bytes of `words` as the runtime writes them.
    pub open spec fn bytes_of(self, words: Seq<u32>) -> Seq<u8> {
        words_bytes(words, self.little_endian)
    }

    /// A write of `len` bytes at `offset` into buffer `h` passes wgpu's checks.
    pub open spec fn write_allowed(self, h: i64, offset: int, len: int) -> bool {
        &&& handle_in(h, self.buffers.len())
        &&& write_fits(self.buffers[h as int], offset, len)
    }

    /// The width the runtime reports: the configured one, or 1 before `init`.
    pub open spec fn width(self) -> u32 {
        match self.surface_size {
            Some(s) => s.0,
            None => 1,
        }
    }

    pub open spec fn height(self) -> u32 {
        match self.surface_size {
            Some(s) => s.1,
            None => 1,
        }
    }
}

/// The usage bits that `BufferUsages::from_bits_truncate` keeps.
pub open spec fn known_usage(bits: u32) -> u32 {
    bits & USAGE_KNOWN_BITS
}

/// wgpu accepts these usage bits for a new buffer on a device with
/// `limits` and without the `MAPPABLE_PRIMARY_BUFFERS` feature: some flag is
/// set, a mappable-for-writing buffer is at most a copy source, a
/// mappable-for-reading one at most a copy destination, an index buffer
/// shares its use only where the adapter allows it, and an indirect buffer
/// needs indirect execution.
pub open spec fn usage_acceptable(bits: u32, limits: DeviceLimits) -> bool {
    let u = known_usage(bits);
    &&& u != 0
    &&& (u & USAGE_MAP_WRITE != 0 ==> u & !(USAGE_MAP_WRITE | USAGE_COPY_SRC) == 0)
    &&& (u & USAGE_MAP_READ != 0 ==> u & !(USAGE_MAP_READ | USAGE_COPY_DST) == 0)
    &&& (u & USAGE_INDEX != 0 && u & USAGE_SHARED_WITH_INDEX != 0 ==> limits.unrestricted_index_buffer)
    &&& (u & USAGE_INDIRECT != 0 ==> limits.indirect_execution)
}

/// wgpu accepts a new buffer of `size` bytes with usage bits `bits`.
pub open spec fn buffer_acceptable(size: u64, bits: u32, limits: DeviceLimits) -> bool {
    size <= limits.max_buffer_size && usage_acceptable(bits, limits)
}

/// wgpu's queue accepts a write of `len` bytes at `offset` into a buffer made
/// as `desc`: an empty write always; else the buffer is a copy destination, offset
/// and length are multiples of 4, and the bytes lie inside the buffer.
pub open spec fn write_fits(desc: BufferDesc, offset: int, len: int) -> bool {
    len == 0 || {
        &&& desc.usage & USAGE_COPY_DST != 0
        &&& offset % (COPY_ALIGNMENT as int) == 0
        &&& len % (COPY_ALIGNMENT as int) == 0
        &&& 0 <= offset
        &&& offset + len <= desc.size
    }
}

/// The four bytes of `w`, least significant first.
pub open spec fn le_bytes(w: u32) -> Seq<u8> {
    seq![(w % 256) as u8, ((w / 256) % 256) as u8, ((w / 65536) % 256) as u8, (w / 16777216) as u8]
}

/// The four bytes of `w`, most significant first.
pub open spec fn be_bytes(w: u32) -> Seq<u8> {
    seq![(w / 16777216) as u8, ((w / 65536) % 256) as u8, ((w / 256) % 256) as u8, (w % 256) as u8]
}

/// `bytes` is `w` in the byte order of some machine.
pub open spec fn native_bytes(w: u32, bytes: Seq<u8>) -> bool {
    bytes == le_bytes(w) || bytes == be_bytes(w)
}

/// The four bytes of `w` in the given byte order.
pub open spec fn word_bytes(w: u32, little_endian: bool) -> Seq<u8> {
    if little_endian {
        le_bytes(w)
    } else {
        be_bytes(w)
    }
}

/// The words one after the other, four bytes each, all in one byte order.
pub open spec fn words_bytes(words: Seq<u32>, little_endian: bool) -> Seq<u8>
    decreases words.len(),
{
    if words.len() == 0 {
        Seq::empty()
    } else {
        words_bytes(words.drop_last(), little_endian) + word_bytes(words.last(), little_endian)
    }
}

/// The 32-bit word that a signed value becomes when its low 32 bits are kept.
pub open spec fn low_word(v: i64) -> u32 {
    (v as int % 0x1_0000_0000) as u32
}

} // verus!
