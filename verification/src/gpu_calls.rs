//! The calls into wgpu and std that the runtime makes. Each function here
//! marked `external_body` is trusted: Verus believes its contract and does
//! not read its body. The getters and `GpuEncoder::record` are verified.
//!
//! Each wgpu object is kept in a struct of this module together with plain
//! records of what it was made from: the device it belongs to, the handle
//! the runtime gave it, and the arguments of the call that made it. Only the
//! functions here build these structs, so a record always describes the
//! call that was made.
//!
//! wgpu reports a failed check to the device's error handler, and the
//! default handler panics. Where the condition for that can be read off the
//! arguments and these records, the `requires` of the item leaves the failing
//! inputs out. Where it depends on what the shader code declares, the item
//! takes an open `ErrorScope` of its device, and the scope catches the error
//! in place of the handler; a scope holds its device, so scopes cannot be
//! interleaved. Presenting a frame, which wgpu cannot report to a scope, is
//! left to the caller of the library.
use vstd::prelude::*;
use crate::model::{
    Blend, ColorMask, BindingEntry, BufferDesc, BufferWrite, DeviceLimits, FrameError, PassCommand, PassKind,
    PassRecord, RenderTarget, WriteRecord, buffer_acceptable, native_bytes, write_fits,
};

verus! {

#[verifier::external_type_specification]
#[verifier::external_body]
pub struct ExDevice(wgpu::Device);

#[verifier::external_type_specification]
#[verifier::external_body]
pub struct ExQueue(wgpu::Queue);

#[verifier::external_type_specification]
#[verifier::external_body]
pub struct ExSurface<'w>(wgpu::Surface<'w>);

#[verifier::external_type_specification]
#[verifier::external_body]
pub struct ExAdapter(wgpu::Adapter);

#[verifier::external_type_specification]
#[verifier::external_body]
#[verifier::reject_recursive_types(V)]
pub struct ExSurfaceConfiguration<V>(wgpu_types::SurfaceConfiguration<V>);

#[verifier::external_type_specification]
#[verifier::external_body]
pub struct ExTextureFormat(wgpu::TextureFormat);

#[verifier::external_type_specification]
#[verifier::external_body]
pub struct ExShaderModule(wgpu::ShaderModule);

#[verifier::external_type_specification]
#[verifier::external_body]
pub struct ExBuffer(wgpu::Buffer);

#[verifier::external_type_specification]
#[verifier::external_body]
pub struct ExComputePipeline(wgpu::ComputePipeline);

#[verifier::external_type_specification]
#[verifier::external_body]
pub struct ExRenderPipeline(wgpu::RenderPipeline);

#[verifier::external_type_specification]
#[verifier::external_body]
pub struct ExBindGroup(wgpu::BindGroup);

#[verifier::external_type_specification]
#[verifier::external_body]
pub struct ExBindGroupLayout(wgpu::BindGroupLayout);

#[verifier::external_type_specification]
#[verifier::external_body]
pub struct ExBindingResource<'a>(wgpu::BindingResource<'a>);

#[verifier::external_type_specification]
#[verifier::external_body]
pub struct ExTextureView(wgpu::TextureView);

#[verifier::external_type_specification]
#[verifier::external_body]
pub struct ExSampler(wgpu::Sampler);

#[verifier::external_type_specification]
#[verifier::external_body]
pub struct ExColorTargetState(wgpu::ColorTargetState);

#[verifier::external_type_specification]
#[verifier::external_body]
pub struct ExVertexState<'a>(wgpu::VertexState<'a>);

#[verifier::external_type_specification]
#[verifier::external_body]
pub struct ExFragmentState<'a>(wgpu::FragmentState<'a>);

#[verifier::external_type_specification]
#[verifier::external_body]
pub struct ExSurfaceTexture(wgpu::SurfaceTexture);

#[verifier::external_type_specification]
#[verifier::external_body]
pub struct ExTexture(wgpu::Texture);

#[verifier::external_type_specification]
#[verifier::external_body]
pub struct ExSurfaceError(wgpu::SurfaceError);

#[verifier::external_type_specification]
#[verifier::external_body]
pub struct ExCommandEncoder(wgpu::CommandEncoder);

#[verifier::external_type_specification]
#[verifier::external_body]
pub struct ExCommandBuffer(wgpu::CommandBuffer);

#[verifier::external_type_specification]
#[verifier::external_body]
pub struct ExComputePass<'e>(wgpu::ComputePass<'e>);

#[verifier::external_type_specification]
#[verifier::external_body]
pub struct ExRenderPass<'e>(wgpu::RenderPass<'e>);

#[verifier::external_type_specification]
#[verifier::external_body]
pub struct ExColor(wgpu::Color);

/// A device and its queue, from one `Adapter::request_device` call, with the
/// adapter they came from and the limits that decide which buffers and
/// surface sizes the device accepts. It keeps a log of what its queue was
/// handed: one record per buffer write and one entry per submission.
pub struct GpuDevice {
    device: wgpu::Device,
    queue: wgpu::Queue,
    adapter: wgpu::Adapter,
    limits: DeviceLimits,
    writes: Vec<WriteRecord>,
    submissions: Vec<()>,
}

impl GpuDevice {
    /// The wgpu device, by value: two records name the same device when
    /// these are equal.
    pub closed spec fn key(&self) -> wgpu::Device {
        self.device
    }

    /// The adapter the device was requested from.
    pub closed spec fn adapter_key(&self) -> wgpu::Adapter {
        self.adapter
    }

    pub closed spec fn limits(&self) -> DeviceLimits {
        self.limits
    }

    /// The buffer writes handed to the queue, in order.
    pub closed spec fn writes(&self) -> Seq<WriteRecord> {
        self.writes@
    }

    /// The number of command buffers submitted to the queue.
    pub closed spec fn submissions(&self) -> nat {
        self.submissions@.len()
    }

    /// `other` is this device, with the same adapter and limits, whatever
    /// its log holds.
    pub open spec fn same_device(&self, other: GpuDevice) -> bool {
        &&& self.key() == other.key()
        &&& self.adapter_key() == other.adapter_key()
        &&& self.limits() == other.limits()
    }

    pub fn get_limits(&self) -> (r: DeviceLimits)
        ensures
            r == self.limits(),
    {
        self.limits
    }
}

/// Calls `wgpu::Adapter::request_device` with the default descriptor and
/// waits for it with `pollster::block_on`; keeps the adapter, the device's
/// `limits()` and the adapter's downlevel flags `UNRESTRICTED_INDEX_BUFFER`
/// and `INDIRECT_EXECUTION` beside the pair, with an empty log. Whether a
/// device comes back depends on the adapter.
#[verifier::external_body]
pub(crate) fn request_device(adapter: &wgpu::Adapter) -> (r: Option<GpuDevice>)
    ensures
        r matches Some(d) ==> d.adapter_key() == *adapter && d.writes().len() == 0 && d.submissions() == 0,
{
    let (device, queue) = pollster::block_on(adapter.request_device(&Default::default(), None)).ok()?;
    let (l, flags) = (device.limits(), adapter.get_downlevel_capabilities().flags);
    let limits = DeviceLimits {
        max_buffer_size: l.max_buffer_size,
        max_texture_dimension_2d: l.max_texture_dimension_2d,
        unrestricted_index_buffer: flags.contains(wgpu::DownlevelFlags::UNRESTRICTED_INDEX_BUFFER),
        indirect_execution: flags.contains(wgpu::DownlevelFlags::INDIRECT_EXECUTION),
    };
    Some(GpuDevice { device, queue, adapter: adapter.clone(), limits, writes: Vec::new(), submissions: Vec::new() })
}

/// Open error scopes on a device, one for out-of-memory errors and one for
/// validation errors, holding the device itself. While they are open, wgpu
/// hands those errors of the device to the scopes instead of to the default
/// handler, which would panic. Only `push_error_scope` builds one, and as it
/// holds the device, no other scope of the device can be pushed or popped
/// until `pop_error_scope` gives the device back.
pub struct ErrorScope {
    device: GpuDevice,
}

impl ErrorScope {
    pub closed spec fn device(&self) -> GpuDevice {
        self.device
    }

    pub open spec fn key(&self) -> wgpu::Device {
        self.device().key()
    }

    pub open spec fn limits(&self) -> DeviceLimits {
        self.device().limits()
    }
}

/// Calls `wgpu::Device::push_error_scope` with `ErrorFilter::OutOfMemory`,
/// then with `ErrorFilter::Validation`, and holds the device.
#[verifier::external_body]
pub(crate) fn push_error_scope(device: GpuDevice) -> (r: ErrorScope)
    ensures
        r.device() == device,
{
    device.device.push_error_scope(wgpu::ErrorFilter::OutOfMemory);
    device.device.push_error_scope(wgpu::ErrorFilter::Validation);
    ErrorScope { device }
}

/// Calls `wgpu::Device::pop_error_scope` twice, waiting for each with
/// `pollster::block_on`, and gives the device back with whether the
/// validation scope, then the out-of-memory scope, caught an error. What
/// they caught depends on what the device did meanwhile.
#[verifier::external_body]
pub(crate) fn pop_error_scope(scope: ErrorScope) -> (r: (GpuDevice, (bool, bool)))
    ensures
        r.0 == scope.device(),
{
    let validation = pollster::block_on(scope.device.device.pop_error_scope()).is_some();
    let out_of_memory = pollster::block_on(scope.device.device.pop_error_scope()).is_some();
    (scope.device, (validation, out_of_memory))
}

/// A surface configuration together with the adapter it was asked of and
/// the width and height it was made for. Only `default_config` builds one.
pub struct SurfaceSetup {
    config: wgpu::SurfaceConfiguration,
    adapter: wgpu::Adapter,
    format: wgpu::TextureFormat,
    width: u32,
    height: u32,
}

impl SurfaceSetup {
    /// The width and height this configuration was made for.
    pub closed spec fn size(&self) -> (u32, u32) {
        (self.width, self.height)
    }

    /// The adapter whose capabilities the configuration was taken from.
    pub closed spec fn adapter_key(&self) -> wgpu::Adapter {
        self.adapter
    }

    /// The texture format of the configuration.
    pub closed spec fn format(&self) -> wgpu::TextureFormat {
        self.format
    }
}

/// Calls `wgpu::Surface::get_default_config`: a configuration of `width` by
/// `height` in the first format and present mode that the adapter supports
/// for the surface, or `None` when it supports none, kept with its format.
/// Which comes back depends on the adapter.
#[verifier::external_body]
pub(crate) fn default_config(
    surface: &wgpu::Surface<'static>,
    adapter: &wgpu::Adapter,
    width: u32,
    height: u32,
) -> (r: Option<SurfaceSetup>)
    ensures
        r matches Some(s) ==> s.size() == (width, height) && s.adapter_key() == *adapter,
{
    let adapter_kept = adapter.clone();
    surface.get_default_config(adapter, width, height).map(|config| SurfaceSetup { format: config.format, config, adapter: adapter_kept, width, height })
}

/// A surface whose configuration wgpu accepted, with the device it was
/// configured for, its format and its size. Only `settle_configuration`
/// builds one, and only when the error scopes around the configuration
/// caught nothing: then wgpu holds the configuration and reports the
/// surface's later errors to the device.
pub struct GpuSurface {
    surface: wgpu::Surface<'static>,
    device: wgpu::Device,
    format: wgpu::TextureFormat,
    width: u32,
    height: u32,
}

impl GpuSurface {
    /// The device the surface was configured for.
    pub closed spec fn key(&self) -> wgpu::Device {
        self.device
    }

    pub closed spec fn size(&self) -> (u32, u32) {
        (self.width, self.height)
    }

    /// The texture format the surface was configured with.
    pub closed spec fn format(&self) -> wgpu::TextureFormat {
        self.format
    }

    pub fn get_format(&self) -> (r: wgpu::TextureFormat)
        ensures
            r == self.format(),
    {
        self.format
    }

    pub fn get_width(&self) -> (r: u32)
        ensures
            r == self.size().0,
    {
        self.width
    }

    pub fn get_height(&self) -> (r: u32)
        ensures
            r == self.size().1,
    {
        self.height
    }
}

/// A surface handed to `Surface::configure`, still under the error scope
/// that decides whether wgpu accepted the configuration.
pub struct PendingSurface {
    surface: wgpu::Surface<'static>,
    key: wgpu::Device,
    format: wgpu::TextureFormat,
    width: u32,
    height: u32,
    scope: ErrorScope,
}

impl PendingSurface {
    /// The device, held by the scope.
    pub closed spec fn device(&self) -> GpuDevice {
        self.scope.device()
    }

    /// The device the surface is being configured for.
    pub closed spec fn surface_key(&self) -> wgpu::Device {
        self.key
    }

    pub closed spec fn size(&self) -> (u32, u32) {
        (self.width, self.height)
    }

    pub closed spec fn format(&self) -> wgpu::TextureFormat {
        self.format
    }
}

/// Calls `wgpu::Surface::configure` with the scope's device and keeps the
/// surface and the scope together until the scope is closed. The
/// configuration comes from the device's own adapter, and `requires` keeps
/// the size between 1 and the device's `max_texture_dimension_2d`, which
/// wgpu-core checks. A configuration the surface refuses all the same is
/// reported to the scope.
#[verifier::external_body]
pub(crate) fn configure(surface: wgpu::Surface<'static>, scope: ErrorScope, setup: &SurfaceSetup) -> (r: PendingSurface)
    requires
        setup.adapter_key() == scope.device().adapter_key(),
        1 <= setup.size().0 <= scope.limits().max_texture_dimension_2d,
        1 <= setup.size().1 <= scope.limits().max_texture_dimension_2d,
    ensures
        r.device() == scope.device(),
        r.surface_key() == scope.key(),
        r.size() == setup.size(),
        r.format() == setup.format(),
{
    surface.configure(&scope.device.device, &setup.config);
    let key = scope.device.device.clone();
    PendingSurface { surface, key, format: setup.format, width: setup.width, height: setup.height, scope }
}

/// Closes the error scope around a configuration and gives the device back,
/// with the configured surface when the scope caught nothing, and what the
/// scope caught.
pub fn settle_configuration(pending: PendingSurface) -> (r: (GpuDevice, Option<GpuSurface>, (bool, bool)))
    ensures
        r.0 == pending.device(),
        r.1 is Some <==> !(r.2.0 || r.2.1),
        r.1 matches Some(s) ==> s.key() == pending.surface_key() && s.size() == pending.size() && s.format()
            == pending.format(),
{
    let PendingSurface { surface, key, format, width, height, scope } = pending;
    let (device, caught) = pop_error_scope(scope);
    if caught.0 || caught.1 {
        (device, None, caught)
    } else {
        (device, Some(GpuSurface { surface, device: key, format, width, height }), caught)
    }
}

/// A shader module with its source text, its device and its handle.
pub struct GpuShader {
    raw: wgpu::ShaderModule,
    device: wgpu::Device,
    source: String,
    handle: usize,
}

impl GpuShader {
    pub closed spec fn key(&self) -> wgpu::Device {
        self.device
    }

    pub closed spec fn source(&self) -> Seq<char> {
        self.source@
    }

    pub closed spec fn handle(&self) -> usize {
        self.handle
    }
}

/// Calls `wgpu::Device::create_shader_module` on WGSL source text, with no
/// label, and keeps the source and `handle` beside the module. A source that
/// fails to parse or validate is reported to the open error scope.
#[verifier::external_body]
pub(crate) fn make_shader_module(
    scope: &ErrorScope,
    source: &str,
    handle: usize,
) -> (r: GpuShader)
    requires
    ensures
        r.key() == scope.key(),
        r.source() == source@,
        r.handle() == handle,
{
    let raw = scope.device.device.create_shader_module(wgpu::ShaderModuleDescriptor {
        label: None,
        source: wgpu::ShaderSource::Wgsl(source.into()),
    });
    GpuShader { raw, device: scope.device.device.clone(), source: source.to_string(), handle }
}

/// A buffer with its device, size, usage bits and handle.
pub struct GpuBuffer {
    raw: wgpu::Buffer,
    device: wgpu::Device,
    size: u64,
    usage: u32,
    mapped_at_creation: bool,
    handle: usize,
}

impl GpuBuffer {
    pub closed spec fn key(&self) -> wgpu::Device {
        self.device
    }

    /// The size and usage bits this buffer was created with.
    pub closed spec fn desc(&self) -> BufferDesc {
        BufferDesc { size: self.size, usage: self.usage, mapped_at_creation: self.mapped_at_creation }
    }

    pub closed spec fn handle(&self) -> usize {
        self.handle
    }

    pub fn size(&self) -> (r: u64)
        ensures
            r == self.desc().size,
    {
        self.size
    }

    pub fn usage(&self) -> (r: u32)
        ensures
            r == self.desc().usage,
    {
        self.usage
    }

    pub fn mapped_at_creation(&self) -> (r: bool)
        ensures
            r == self.desc().mapped_at_creation,
    {
        self.mapped_at_creation
    }

    pub fn get_handle(&self) -> (r: usize)
        ensures
            r == self.handle(),
    {
        self.handle
    }
}

/// Calls `wgpu::Device::create_buffer` with `size`, the usage
/// `BufferUsages::from_bits_truncate(usage)`, `mapped_at_creation` and no
/// label, and keeps what it was given and `handle` beside the buffer.
/// wgpu-core refuses a size above `max_buffer_size`, and usage bits that
/// `usage_acceptable` rejects for the device's limits; `requires` leaves both
/// out. A buffer mapped at creation whose size is not a multiple of 4, and a
/// failure to allocate, are reported to the open error scope.
#[verifier::external_body]
pub(crate) fn make_buffer(
    scope: &ErrorScope,
    size: u64,
    usage: u32,
    mapped_at_creation: bool,
    handle: usize,
) -> (r: GpuBuffer)
    requires
        buffer_acceptable(size, usage, scope.limits()),
    ensures
        r.key() == scope.key(),
        r.desc() == (BufferDesc { size, usage, mapped_at_creation }),
        r.handle() == handle,
{
    let raw = scope.device.device.create_buffer(&wgpu::BufferDescriptor {
        label: None,
        size,
        usage: wgpu::BufferUsages::from_bits_truncate(usage),
        mapped_at_creation,
    });
    GpuBuffer { raw, device: scope.device.device.clone(), size, usage, mapped_at_creation, handle }
}

/// What a queue write was handed: the buffer's handle, the offset and the bytes.
pub struct WriteReceipt {
    buffer: usize,
    offset: u64,
    bytes: Vec<u8>,
}

impl WriteReceipt {
    pub closed spec fn view(&self) -> BufferWrite {
        BufferWrite { buffer: self.buffer as nat, offset: self.offset, bytes: self.bytes@ }
    }
}

/// Calls `wgpu::Queue::write_buffer` on the device's queue: schedules `data`
/// to be written at `offset` into the buffer, and gives back what it was
/// handed; the device's log gains a record of the write. wgpu-core checks
/// that the buffer belongs to the queue's device, ignores an empty write and
/// otherwise checks the copy-destination usage, the 4-byte alignment of
/// offset and length and that the data fits (`write_fits`); `requires` keeps
/// all of these. Running out of memory for the staging copy is reported to
/// the scope.
#[verifier::external_body]
pub(crate) fn queue_write(scope: &mut ErrorScope, buffer: &GpuBuffer, offset: u64, data: &[u8]) -> (r: WriteReceipt)
    requires
        buffer.key() == old(scope).key(),
        write_fits(buffer.desc(), offset as int, data@.len() as int),
    ensures
        r.view() == (BufferWrite { buffer: buffer.handle() as nat, offset, bytes: data@ }),
        final(scope).device().same_device(old(scope).device()),
        final(scope).device().writes() == old(scope).device().writes().push(
            WriteRecord { buffer: buffer.handle(), offset, len: data@.len() as usize },
        ),
        final(scope).device().submissions() == old(scope).device().submissions(),
{
    scope.device.queue.write_buffer(&buffer.raw, offset, data);
    scope.device.writes.push(WriteRecord { buffer: buffer.handle, offset, len: data.len() });
    WriteReceipt { buffer: buffer.handle, offset, bytes: data.to_vec() }
}

/// Calls `u32::to_ne_bytes`: the memory representation of `w` in the
/// machine's byte order, which is little-endian or big-endian.
#[verifier::external_body]
pub(crate) fn ne_bytes(w: u32) -> (r: [u8; 4])
    ensures
        native_bytes(w, r@),
{
    w.to_ne_bytes()
}

/// A texture view with its handle. Nothing in this library makes one.
pub struct GpuTexture {
    raw: wgpu::TextureView,
    device: wgpu::Device,
    handle: usize,
}

impl GpuTexture {
    pub closed spec fn key(&self) -> wgpu::Device {
        self.device
    }

    pub closed spec fn handle(&self) -> usize {
        self.handle
    }
}

/// A sampler with its handle. Nothing in this library makes one.
pub struct GpuSampler {
    raw: wgpu::Sampler,
    device: wgpu::Device,
    handle: usize,
}

impl GpuSampler {
    pub closed spec fn key(&self) -> wgpu::Device {
        self.device
    }

    pub closed spec fn handle(&self) -> usize {
        self.handle
    }
}

/// A resource to bind, by reference.
pub enum Resource<'a> {
    Buffer(&'a GpuBuffer),
    Texture(&'a GpuTexture),
    Sampler(&'a GpuSampler),
}

/// The binding entry that names a resource by its handle.
pub open spec fn resource_entry(r: Resource<'_>) -> BindingEntry {
    match r {
        Resource::Buffer(b) => BindingEntry::Buffer(b.handle() as i64),
        Resource::Texture(t) => BindingEntry::Texture(t.handle() as i64),
        Resource::Sampler(s) => BindingEntry::Sampler(s.handle() as i64),
    }
}

/// The device a resource belongs to.
pub open spec fn resource_key(r: Resource<'_>) -> wgpu::Device {
    match r {
        Resource::Buffer(b) => b.key(),
        Resource::Texture(t) => t.key(),
        Resource::Sampler(s) => s.key(),
    }
}

/// Turns a resource into the `wgpu::BindingResource` that binds it: a whole
/// buffer (`Buffer::as_entire_binding`), a texture view or a sampler.
#[verifier::external_body]
pub(crate) fn binding_resource<'a>(r: &Resource<'a>) -> wgpu::BindingResource<'a> {
    match r {
        Resource::Buffer(b) => b.raw.as_entire_binding(),
        Resource::Texture(t) => wgpu::BindingResource::TextureView(&t.raw),
        Resource::Sampler(s) => wgpu::BindingResource::Sampler(&s.raw),
    }
}

/// A compute pipeline with its device, shader handle, entry point and handle.
pub struct GpuComputePipeline {
    raw: wgpu::ComputePipeline,
    device: wgpu::Device,
    shader: usize,
    entry_point: String,
    handle: usize,
}

impl GpuComputePipeline {
    pub closed spec fn key(&self) -> wgpu::Device {
        self.device
    }

    pub closed spec fn shader(&self) -> usize {
        self.shader
    }

    pub closed spec fn entry_point(&self) -> Seq<char> {
        self.entry_point@
    }

    pub closed spec fn handle(&self) -> usize {
        self.handle
    }
}

/// Calls `wgpu::Device::create_compute_pipeline` with the automatic layout,
/// the shader's module and `entry_point`, default compilation options and no
/// cache, and keeps the shader's handle, the entry point and `handle`. An
/// entry point that the shader does not declare as a compute entry point is
/// reported to the open error scope.
#[verifier::external_body]
pub(crate) fn make_compute_pipeline(
    scope: &ErrorScope,
    shader: &GpuShader,
    entry_point: &str,
    handle: usize,
) -> (r: GpuComputePipeline)
    requires
        shader.key() == scope.key(),
    ensures
        r.key() == scope.key(),
        r.shader() == shader.handle(),
        r.entry_point() == entry_point@,
        r.handle() == handle,
{
    let raw = scope.device.device.create_compute_pipeline(&wgpu::ComputePipelineDescriptor {
        label: None,
        layout: None,
        module: &shader.raw,
        entry_point: Some(entry_point),
        compilation_options: Default::default(),
        cache: None,
    });
    GpuComputePipeline { raw, device: scope.device.device.clone(), shader: shader.handle, entry_point: entry_point.to_string(), handle }
}

/// A vertex stage: shader, entry point, no vertex buffers.
pub struct VertexStage<'a> {
    raw: wgpu::VertexState<'a>,
    device: wgpu::Device,
    shader: usize,
    entry_point: String,
    buffers: usize,
}

impl<'a> VertexStage<'a> {
    pub closed spec fn key(&self) -> wgpu::Device {
        self.device
    }

    pub closed spec fn shader(&self) -> usize {
        self.shader
    }

    pub closed spec fn entry_point(&self) -> Seq<char> {
        self.entry_point@
    }

    /// The number of vertex buffer layouts in the stage.
    pub closed spec fn vertex_buffers(&self) -> usize {
        self.buffers
    }
}

/// Builds a `wgpu::VertexState` with the shader's module, the entry point, no
/// vertex buffers and default compilation options.
#[verifier::external_body]
pub(crate) fn vertex_stage<'a>(shader: &'a GpuShader, entry_point: &'a str) -> (r: VertexStage<'a>)
    ensures
        r.key() == shader.key(),
        r.shader() == shader.handle(),
        r.entry_point() == entry_point@,
        r.vertex_buffers() == 0,
{
    let raw = wgpu::VertexState {
        module: &shader.raw,
        entry_point: Some(entry_point),
        buffers: &[],
        compilation_options: Default::default(),
    };
    let buffers = raw.buffers.len();
    VertexStage { raw, device: shader.device.clone(), shader: shader.handle, entry_point: entry_point.to_string(), buffers }
}

/// One color target: a format, a blend state and a write mask.
pub struct ColorTarget {
    raw: [Option<wgpu::ColorTargetState>; 1],
    format: wgpu::TextureFormat,
    blend: Blend,
    write_mask: ColorMask,
}

impl ColorTarget {
    pub closed spec fn format(&self) -> wgpu::TextureFormat {
        self.format
    }

    pub closed spec fn blend(&self) -> Blend {
        self.blend
    }

    pub closed spec fn write_mask(&self) -> ColorMask {
        self.write_mask
    }
}

/// Builds a `wgpu::ColorTargetState` for `format` with the blend state and
/// write mask that `blend` and `write_mask` name.
#[verifier::external_body]
pub(crate) fn color_target(format: wgpu::TextureFormat, blend: Blend, write_mask: ColorMask) -> (r: ColorTarget)
    ensures
        r.format() == format,
        r.blend() == blend,
        r.write_mask() == write_mask,
{
    let state = match blend {
        Blend::Replace => wgpu::BlendState::REPLACE,
        Blend::AlphaBlending => wgpu::BlendState::ALPHA_BLENDING,
        Blend::PremultipliedAlphaBlending => wgpu::BlendState::PREMULTIPLIED_ALPHA_BLENDING,
    };
    let mask = match write_mask {
        ColorMask::All => wgpu::ColorWrites::ALL,
        ColorMask::Color => wgpu::ColorWrites::COLOR,
        ColorMask::Alpha => wgpu::ColorWrites::ALPHA,
    };
    let raw = [Some(wgpu::ColorTargetState { format, blend: Some(state), write_mask: mask })];
    ColorTarget { raw, format, blend, write_mask }
}

/// A fragment stage: shader, entry point and its one color target.
pub struct FragmentStage<'a> {
    raw: wgpu::FragmentState<'a>,
    shader: usize,
    entry_point: String,
    format: wgpu::TextureFormat,
    blend: Blend,
    write_mask: ColorMask,
}

impl<'a> FragmentStage<'a> {
    pub closed spec fn shader(&self) -> usize {
        self.shader
    }

    pub closed spec fn entry_point(&self) -> Seq<char> {
        self.entry_point@
    }

    pub closed spec fn format(&self) -> wgpu::TextureFormat {
        self.format
    }

    pub closed spec fn blend(&self) -> Blend {
        self.blend
    }

    pub closed spec fn write_mask(&self) -> ColorMask {
        self.write_mask
    }
}

/// Builds a `wgpu::FragmentState` with the shader's module, the entry point,
/// the color target and default compilation options.
#[verifier::external_body]
pub(crate) fn fragment_stage<'a>(
    shader: &'a GpuShader,
    entry_point: &'a str,
    target: &'a ColorTarget,
) -> (r: FragmentStage<'a>)
    ensures
        r.shader() == shader.handle(),
        r.entry_point() == entry_point@,
        r.format() == target.format(),
        r.blend() == target.blend(),
        r.write_mask() == target.write_mask(),
{
    let raw = wgpu::FragmentState {
        module: &shader.raw,
        entry_point: Some(entry_point),
        targets: &target.raw,
        compilation_options: Default::default(),
    };
    FragmentStage { raw, shader: shader.handle, entry_point: entry_point.to_string(), format: target.format, blend: target.blend, write_mask: target.write_mask }
}

/// A render pipeline with what it was built from.
pub struct GpuRenderPipeline {
    raw: wgpu::RenderPipeline,
    device: wgpu::Device,
    vertex_shader: usize,
    vertex_entry: String,
    fragment_shader: usize,
    fragment_entry: String,
    format: wgpu::TextureFormat,
    blend: Blend,
    write_mask: ColorMask,
    vertex_buffers: usize,
    handle: usize,
}

impl GpuRenderPipeline {
    pub closed spec fn key(&self) -> wgpu::Device {
        self.device
    }

    pub closed spec fn vertex_shader(&self) -> usize {
        self.vertex_shader
    }

    pub closed spec fn vertex_entry(&self) -> Seq<char> {
        self.vertex_entry@
    }

    pub closed spec fn fragment_shader(&self) -> usize {
        self.fragment_shader
    }

    pub closed spec fn fragment_entry(&self) -> Seq<char> {
        self.fragment_entry@
    }

    pub closed spec fn format(&self) -> wgpu::TextureFormat {
        self.format
    }

    pub closed spec fn blend(&self) -> Blend {
        self.blend
    }

    pub closed spec fn write_mask(&self) -> ColorMask {
        self.write_mask
    }

    /// The number of vertex buffer layouts of its vertex stage.
    pub closed spec fn vertex_buffers(&self) -> usize {
        self.vertex_buffers
    }

    pub closed spec fn handle(&self) -> usize {
        self.handle
    }
}

/// Calls `wgpu::Device::create_render_pipeline` with the automatic layout,
/// the two stages, default primitive and multisample state, no depth-stencil,
/// no multiview and no cache, and keeps what the stages were built from and
/// `handle`. Entry points that the shader does not declare, or whose
/// interfaces do not match, are reported to the open error scope.
#[verifier::external_body]
pub(crate) fn make_render_pipeline(
    scope: &ErrorScope,
    vertex: VertexStage,
    fragment: FragmentStage,
    handle: usize,
) -> (r: GpuRenderPipeline)
    requires
        vertex.key() == scope.key(),
    ensures
        r.key() == scope.key(),
        r.vertex_shader() == vertex.shader(),
        r.vertex_entry() == vertex.entry_point(),
        r.fragment_shader() == fragment.shader(),
        r.fragment_entry() == fragment.entry_point(),
        r.format() == fragment.format(),
        r.blend() == fragment.blend(),
        r.write_mask() == fragment.write_mask(),
        r.vertex_buffers() == vertex.vertex_buffers(),
        r.handle() == handle,
{
    let (vertex_shader, vertex_entry, vertex_buffers) = (vertex.shader, vertex.entry_point.clone(), vertex.buffers);
    let (fragment_shader, fragment_entry) = (fragment.shader, fragment.entry_point.clone());
    let (format, blend, write_mask) = (fragment.format, fragment.blend, fragment.write_mask);
    let raw = scope.device.device.create_render_pipeline(&wgpu::RenderPipelineDescriptor {
        label: None, layout: None, vertex: vertex.raw, fragment: Some(fragment.raw),
        primitive: wgpu::PrimitiveState::default(), depth_stencil: None,
        multisample: wgpu::MultisampleState::default(), multiview: None, cache: None,
    });
    GpuRenderPipeline { raw, device: scope.device.device.clone(), vertex_shader, vertex_entry, fragment_shader, fragment_entry, format, blend, write_mask, vertex_buffers, handle }
}

/// A bind group layout with the pipeline and group index it came from.
pub struct GpuLayout {
    raw: wgpu::BindGroupLayout,
    device: wgpu::Device,
    compute: bool,
    pipeline: usize,
    group: u32,
}

impl GpuLayout {
    pub closed spec fn key(&self) -> wgpu::Device {
        self.device
    }

    pub closed spec fn compute(&self) -> bool {
        self.compute
    }

    pub closed spec fn pipeline(&self) -> usize {
        self.pipeline
    }

    pub closed spec fn group(&self) -> u32 {
        self.group
    }
}

/// Calls `wgpu::ComputePipeline::get_bind_group_layout` and keeps the
/// pipeline's handle and `index`. An index at which the shader declares no
/// bind group is reported to the open error scope.
#[verifier::external_body]
pub(crate) fn compute_layout(scope: &ErrorScope, p: &GpuComputePipeline, index: u32) -> (r: GpuLayout)
    requires
        scope.key() == p.key(),
    ensures
        r.key() == p.key(),
        r.compute(),
        r.pipeline() == p.handle(),
        r.group() == index,
{
    let raw = p.raw.get_bind_group_layout(index);
    GpuLayout { raw, device: p.device.clone(), compute: true, pipeline: p.handle, group: index }
}

/// Calls `wgpu::RenderPipeline::get_bind_group_layout` and keeps the
/// pipeline's handle and `index`. An index at which the shader declares no
/// bind group is reported to the open error scope.
#[verifier::external_body]
pub(crate) fn render_layout(scope: &ErrorScope, p: &GpuRenderPipeline, index: u32) -> (r: GpuLayout)
    requires
        scope.key() == p.key(),
    ensures
        r.key() == p.key(),
        !r.compute(),
        r.pipeline() == p.handle(),
        r.group() == index,
{
    let raw = p.raw.get_bind_group_layout(index);
    GpuLayout { raw, device: p.device.clone(), compute: false, pipeline: p.handle, group: index }
}

/// A bind group with its layout's origin, its entries and its handle.
pub struct GpuBindGroup {
    raw: wgpu::BindGroup,
    device: wgpu::Device,
    compute: bool,
    pipeline: usize,
    group: u32,
    entries: Vec<BindingEntry>,
    handle: usize,
}

impl GpuBindGroup {
    pub closed spec fn key(&self) -> wgpu::Device {
        self.device
    }

    pub closed spec fn compute(&self) -> bool {
        self.compute
    }

    pub closed spec fn pipeline(&self) -> usize {
        self.pipeline
    }

    pub closed spec fn group(&self) -> u32 {
        self.group
    }

    pub closed spec fn entries(&self) -> Seq<BindingEntry> {
        self.entries@
    }

    pub closed spec fn handle(&self) -> usize {
        self.handle
    }

    pub fn layout_origin(&self) -> (r: (bool, usize, u32))
        ensures
            r == (self.compute(), self.pipeline(), self.group()),
    {
        (self.compute, self.pipeline, self.group)
    }
}

/// Calls `wgpu::Device::create_bind_group` with the layout and one entry per
/// resource, entry `i` at binding `i`, no label, and keeps the layout's
/// origin, `entries` (the resources by handle) and `handle`. Resources of a kind or
/// visibility that the layout does not declare are reported to the open
/// error scope.
#[verifier::external_body]
pub(crate) fn make_bind_group(
    scope: &ErrorScope,
    layout: &GpuLayout,
    resources: &[Resource],
    entries: Vec<BindingEntry>,
    handle: usize,
) -> (r: GpuBindGroup)
    requires
        layout.key() == scope.key(),
        resources@.len() <= u32::MAX,
        forall|i: int| 0 <= i < resources@.len() ==> resource_key(#[trigger] resources@[i]) == scope.key(),
        entries@ == resources@.map_values(|x: Resource| resource_entry(x)),
    ensures
        r.key() == scope.key(),
        r.compute() == layout.compute(),
        r.pipeline() == layout.pipeline(),
        r.group() == layout.group(),
        r.entries() == entries@,
        r.handle() == handle,
{
    let raw_entries: Vec<wgpu::BindGroupEntry> = resources.iter().enumerate()
        .map(|(i, x)| wgpu::BindGroupEntry { binding: i as u32, resource: binding_resource(x) }).collect();
    let raw = scope.device.device.create_bind_group(&wgpu::BindGroupDescriptor { label: None, layout: &layout.raw, entries: &raw_entries });
    GpuBindGroup { raw, device: scope.device.device.clone(), compute: layout.compute, pipeline: layout.pipeline, group: layout.group, entries, handle }
}

/// A configured surface's next texture, acquired for one frame, with the
/// texture it presents.
pub struct GpuFrame {
    raw: wgpu::SurfaceTexture,
    texture: wgpu::Texture,
}

impl GpuFrame {
    /// The texture of the frame.
    pub closed spec fn target(&self) -> wgpu::Texture {
        self.texture
    }

    /// The surface texture, to be presented once the frame's commands are
    /// submitted.
    pub fn into_surface_texture(self) -> wgpu::SurfaceTexture {
        self.raw
    }
}

/// Calls `wgpu::Surface::get_current_texture` on a surface whose
/// configuration wgpu accepted: the next texture of the swapchain, with a
/// handle on its texture, or the reason there is none, which depends on the
/// window system. A failure of the surface is reported to the scope.
#[verifier::external_body]
pub(crate) fn current_texture(scope: &ErrorScope, surface: &GpuSurface) -> Result<GpuFrame, wgpu::SurfaceError>
    requires
        scope.key() == surface.key(),
{
    surface.surface.get_current_texture().map(|raw| GpuFrame { texture: raw.texture.clone(), raw })
}

/// Tells the variants of `wgpu::SurfaceError` apart.
#[verifier::external_body]
pub(crate) fn frame_error(e: wgpu::SurfaceError) -> (r: FrameError)
    ensures
        r != FrameError::Rejected,
{
    match e {
        wgpu::SurfaceError::Timeout => FrameError::Timeout,
        wgpu::SurfaceError::Outdated => FrameError::Outdated,
        wgpu::SurfaceError::Lost => FrameError::Lost,
        wgpu::SurfaceError::OutOfMemory => FrameError::OutOfMemory,
        wgpu::SurfaceError::Other => FrameError::Other,
    }
}

/// A view of a frame's texture.
pub struct FrameView {
    raw: wgpu::TextureView,
    texture: wgpu::Texture,
}

impl FrameView {
    /// The texture the view shows.
    pub closed spec fn target(&self) -> wgpu::Texture {
        self.texture
    }
}

/// Calls `wgpu::Texture::create_view` with the default descriptor on the
/// frame's texture.
#[verifier::external_body]
pub(crate) fn frame_view(frame: &GpuFrame) -> (r: FrameView)
    ensures
        r.target() == frame.target(),
{
    FrameView { raw: frame.raw.texture.create_view(&Default::default()), texture: frame.texture.clone() }
}

/// A pass as recorded: its kind, the target of a render pass, and its
/// commands. Only ending a pass builds one.
pub struct PassLog {
    kind: PassKind,
    target: Option<(wgpu::Texture, wgpu::Color, bool)>,
    commands: Vec<PassCommand>,
}

impl PassLog {
    pub closed spec fn view(&self) -> PassRecord {
        PassRecord {
            kind: self.kind,
            target: match self.target {
                Some((texture, clear, store)) => Some(RenderTarget { texture, clear, store }),
                None => None,
            },
            commands: self.commands@,
        }
    }
}

/// A command encoder with the passes recorded in it, in order. It borrows
/// the error scope it was made under, so the scope stays open while passes
/// are recorded and ended.
pub struct GpuEncoder<'a> {
    raw: wgpu::CommandEncoder,
    scope: &'a ErrorScope,
    passes: Vec<PassLog>,
}

impl<'a> GpuEncoder<'a> {
    pub closed spec fn key(&self) -> wgpu::Device {
        self.scope.key()
    }

    pub closed spec fn passes(&self) -> Seq<PassRecord> {
        self.passes@.map_values(|p: PassLog| p.view())
    }

    /// Appends an ended pass to the encoder's record.
    pub fn record(&mut self, pass: PassLog)
        ensures
            final(self).key() == old(self).key(),
            final(self).passes() == old(self).passes().push(pass.view()),
    {
        let ghost v = pass.view();
        self.passes.push(pass);
        assert(self.passes@.map_values(|p: PassLog| p.view()) =~= old(self).passes@.map_values(
            |p: PassLog| p.view(),
        ).push(v));
    }
}

/// Calls `wgpu::Device::create_command_encoder` with the default
/// descriptor, on the scope's device.
#[verifier::external_body]
pub(crate) fn command_encoder<'a>(scope: &'a ErrorScope) -> (r: GpuEncoder<'a>)
    ensures
        r.key() == scope.key(),
        r.passes().len() == 0,
{
    GpuEncoder { raw: scope.device.device.create_command_encoder(&Default::default()), scope, passes: Vec::new() }
}

/// A compute pass being recorded, with the commands given so far.
pub struct ComputePassRec<'e> {
    raw: wgpu::ComputePass<'e>,
    device: wgpu::Device,
    commands: Vec<PassCommand>,
}

impl<'e> ComputePassRec<'e> {
    pub closed spec fn key(&self) -> wgpu::Device {
        self.device
    }

    pub closed spec fn commands(&self) -> Seq<PassCommand> {
        self.commands@
    }
}

/// Calls `wgpu::CommandEncoder::begin_compute_pass` with the default descriptor.
#[verifier::external_body]
pub(crate) fn begin_compute<'e>(encoder: &'e mut GpuEncoder) -> (r: ComputePassRec<'e>)
    ensures
        r.key() == old(encoder).key(),
        r.commands().len() == 0,
        final(encoder).key() == old(encoder).key(),
        final(encoder).passes() == old(encoder).passes(),
{
    let device = encoder.scope.device.device.clone();
    ComputePassRec { raw: encoder.raw.begin_compute_pass(&Default::default()), device, commands: Vec::new() }
}

/// Calls `wgpu::ComputePass::set_pipeline` and records it.
#[verifier::external_body]
pub(crate) fn compute_set_pipeline(pass: &mut ComputePassRec, pipeline: &GpuComputePipeline)
    requires
        pipeline.key() == old(pass).key(),
    ensures
        final(pass).key() == old(pass).key(),
        final(pass).commands() == old(pass).commands().push(PassCommand::SetPipeline(pipeline.handle())),
{
    pass.raw.set_pipeline(&pipeline.raw);
    pass.commands.push(PassCommand::SetPipeline(pipeline.handle));
}

/// Calls `wgpu::ComputePass::set_bind_group` with no dynamic offsets and
/// records it. A bind group whose layout does not fit the pipeline's is
/// reported when the pass ends, to the encoder's error scope.
#[verifier::external_body]
pub(crate) fn compute_set_bind_group(pass: &mut ComputePassRec, index: u32, group: &GpuBindGroup)
    requires
        group.key() == old(pass).key(),
    ensures
        final(pass).key() == old(pass).key(),
        final(pass).commands() == old(pass).commands().push(PassCommand::SetBindGroup(index, group.handle())),
{
    pass.raw.set_bind_group(index, &group.raw, &[]);
    pass.commands.push(PassCommand::SetBindGroup(index, group.handle));
}

/// Calls `wgpu::ComputePass::dispatch_workgroups` and records it. Counts
/// above the device's `max_compute_workgroups_per_dimension` are reported
/// when the pass ends, to the encoder's error scope.
#[verifier::external_body]
pub(crate) fn dispatch(pass: &mut ComputePassRec, x: u32, y: u32, z: u32)
    ensures
        final(pass).key() == old(pass).key(),
        final(pass).commands() == old(pass).commands().push(PassCommand::Dispatch(x, y, z)),
{
    pass.raw.dispatch_workgroups(x, y, z);
    pass.commands.push(PassCommand::Dispatch(x, y, z));
}

/// Ends a compute pass (dropping it ends it in wgpu) and gives back its record.
#[verifier::external_body]
pub(crate) fn end_compute(pass: ComputePassRec) -> (r: PassLog)
    ensures
        r.view() == (PassRecord { kind: PassKind::Compute, target: None, commands: pass.commands() }),
{
    let ComputePassRec { raw, device: _, commands } = pass;
    drop(raw);
    PassLog { kind: PassKind::Compute, target: None, commands }
}

/// A render pass being recorded, with its target and the commands given so far.
pub struct RenderPassRec<'e> {
    raw: wgpu::RenderPass<'e>,
    device: wgpu::Device,
    texture: wgpu::Texture,
    clear: wgpu::Color,
    store: bool,
    commands: Vec<PassCommand>,
}

impl<'e> RenderPassRec<'e> {
    pub closed spec fn key(&self) -> wgpu::Device {
        self.device
    }

    /// The texture the pass draws into, the color it clears it to, and
    /// whether it stores what it drew.
    pub closed spec fn target(&self) -> RenderTarget {
        RenderTarget { texture: self.texture, clear: self.clear, store: self.store }
    }

    pub closed spec fn commands(&self) -> Seq<PassCommand> {
        self.commands@
    }
}

/// Calls `wgpu::CommandEncoder::begin_render_pass` with one color attachment:
/// `view`, cleared to `clear`, then stored (`StoreOp::Store`) when `store` and
/// discarded otherwise; no resolve target, everything else default.
#[verifier::external_body]
pub(crate) fn begin_render<'e>(
    encoder: &'e mut GpuEncoder,
    view: &FrameView,
    clear: wgpu::Color,
    store: bool,
) -> (r: RenderPassRec<'e>)
    ensures
        r.key() == old(encoder).key(),
        r.target() == (RenderTarget { texture: view.target(), clear, store }),
        r.commands().len() == 0,
        final(encoder).key() == old(encoder).key(),
        final(encoder).passes() == old(encoder).passes(),
{
    let device = encoder.scope.device.device.clone();
    let store_op = if store { wgpu::StoreOp::Store } else { wgpu::StoreOp::Discard };
    let raw = encoder.raw.begin_render_pass(&wgpu::RenderPassDescriptor {
        color_attachments: &[Some(wgpu::RenderPassColorAttachment {
            view: &view.raw,
            resolve_target: None,
            ops: wgpu::Operations { load: wgpu::LoadOp::Clear(clear), store: store_op },
        })],
        ..Default::default()
    });
    RenderPassRec { raw, device, texture: view.texture.clone(), clear, store, commands: Vec::new() }
}

/// Calls `wgpu::RenderPass::set_pipeline` and records it.
#[verifier::external_body]
pub(crate) fn render_set_pipeline(pass: &mut RenderPassRec, pipeline: &GpuRenderPipeline)
    requires
        pipeline.key() == old(pass).key(),
    ensures
        final(pass).key() == old(pass).key(),
        final(pass).target() == old(pass).target(),
        final(pass).commands() == old(pass).commands().push(PassCommand::SetPipeline(pipeline.handle())),
{
    pass.raw.set_pipeline(&pipeline.raw);
    pass.commands.push(PassCommand::SetPipeline(pipeline.handle));
}

/// Calls `wgpu::RenderPass::set_bind_group` with no dynamic offsets and
/// records it. A bind group whose layout does not fit the pipeline's is
/// reported when the pass ends, to the encoder's error scope.
#[verifier::external_body]
pub(crate) fn render_set_bind_group(pass: &mut RenderPassRec, index: u32, group: &GpuBindGroup)
    requires
        group.key() == old(pass).key(),
    ensures
        final(pass).key() == old(pass).key(),
        final(pass).target() == old(pass).target(),
        final(pass).commands() == old(pass).commands().push(PassCommand::SetBindGroup(index, group.handle())),
{
    pass.raw.set_bind_group(index, &group.raw, &[]);
    pass.commands.push(PassCommand::SetBindGroup(index, group.handle));
}

/// Calls `wgpu::RenderPass::draw` with vertices `first_vertex..end_vertex`
/// and instances `first_instance..end_instance`, and records it. wgpu takes
/// the lengths of the ranges, so `requires` keeps them non-negative.
#[verifier::external_body]
pub(crate) fn draw(pass: &mut RenderPassRec, first_vertex: u32, end_vertex: u32, first_instance: u32, end_instance: u32)
    requires
        first_vertex <= end_vertex,
        first_instance <= end_instance,
    ensures
        final(pass).key() == old(pass).key(),
        final(pass).target() == old(pass).target(),
        final(pass).commands() == old(pass).commands().push(
            PassCommand::Draw(first_vertex, end_vertex, first_instance, end_instance),
        ),
{
    pass.raw.draw(first_vertex..end_vertex, first_instance..end_instance);
    pass.commands.push(PassCommand::Draw(first_vertex, end_vertex, first_instance, end_instance));
}

/// Ends a render pass (dropping it ends it in wgpu) and gives back its record.
#[verifier::external_body]
pub(crate) fn end_render(pass: RenderPassRec) -> (r: PassLog)
    ensures
        r.view() == (PassRecord { kind: PassKind::Render, target: Some(pass.target()), commands: pass.commands() }),
{
    let RenderPassRec { raw, device: _, texture, clear, store, commands } = pass;
    drop(raw);
    PassLog { kind: PassKind::Render, target: Some((texture, clear, store)), commands }
}

/// A finished command buffer with the passes recorded in it.
pub struct GpuCommands {
    raw: wgpu::CommandBuffer,
    device: wgpu::Device,
    passes: Vec<PassLog>,
}

impl GpuCommands {
    pub closed spec fn key(&self) -> wgpu::Device {
        self.device
    }

    pub closed spec fn passes(&self) -> Seq<PassRecord> {
        self.passes@.map_values(|p: PassLog| p.view())
    }
}

/// Calls `wgpu::CommandEncoder::finish`, keeping the passes. Errors of the
/// encoding are reported to the encoder's error scope.
#[verifier::external_body]
pub(crate) fn finish(encoder: GpuEncoder) -> (r: GpuCommands)
    ensures
        r.key() == encoder.key(),
        r.passes() == encoder.passes(),
{
    GpuCommands { raw: encoder.raw.finish(), device: encoder.scope.device.device.clone(), passes: encoder.passes }
}

/// What a submission carried: the passes of its one command buffer.
pub struct Submitted {
    passes: Vec<PassLog>,
}

impl Submitted {
    pub closed spec fn passes(&self) -> Seq<PassRecord> {
        self.passes@.map_values(|p: PassLog| p.view())
    }
}

/// Calls `wgpu::Queue::submit` on the scope's device's queue with one
/// command buffer, gives back what it carried, and counts the submission in
/// the device's log. A command buffer whose passes failed validation is
/// reported to the scope.
#[verifier::external_body]
pub(crate) fn submit(scope: &mut ErrorScope, commands: GpuCommands) -> (r: Submitted)
    requires
        commands.key() == old(scope).key(),
    ensures
        r.passes() == commands.passes(),
        final(scope).device().same_device(old(scope).device()),
        final(scope).device().writes() == old(scope).device().writes(),
        final(scope).device().submissions() == old(scope).device().submissions() + 1,
{
    scope.device.queue.submit(std::iter::once(commands.raw));
    scope.device.submissions.push(());
    Submitted { passes: commands.passes }
}

} // verus!
