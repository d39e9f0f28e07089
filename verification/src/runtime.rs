//! The GPU runtime: tables of wgpu objects addressed by integer handles.
//! A handle is the index at which the object was pushed into its table.
use vstd::prelude::*;
use crate::gpu_calls::{
    self, ColorTarget, ErrorScope, GpuBindGroup, GpuBuffer, GpuComputePipeline, GpuDevice,
    GpuFrame, GpuRenderPipeline, GpuSampler, GpuShader, GpuSurface, GpuTexture, Resource,
    Submitted, WriteReceipt, resource_entry, resource_key,
};
use crate::model::{
    BindGroupOrigin, BindingEntry, Blend, PassCommand, PassKind, RenderTarget, BufferDesc, ColorMask, BufferWrite, ComputeOrigin, DeviceLimits,
    FrameError, GpuError, InitError, PipelineRef, RenderOrigin, RuntimeState, at_least_one,
    buffer_acceptable, frame_passes, handle_in, low_word, usage_acceptable,
    word_bytes, words_bytes, write_fits, USAGE_COPY_DST, USAGE_COPY_SRC, USAGE_INDEX,
    USAGE_INDIRECT, USAGE_KNOWN_BITS, USAGE_MAP_READ, USAGE_MAP_WRITE, USAGE_SHARED_WITH_INDEX,
};

verus! {

/// Tables of shader modules, buffers, pipelines and bind groups, each
/// addressed by the handle it was given when it was made; a builder for
/// bind groups and a stream of 32-bit words for filling buffers.
pub struct GpuRuntime {
    device: Option<GpuDevice>,
    surface: Option<GpuSurface>,
    format: Option<wgpu::TextureFormat>,
    little_endian: bool,
    shaders: Vec<GpuShader>,
    buffers: Vec<GpuBuffer>,
    compute_pipelines: Vec<GpuComputePipeline>,
    render_pipelines: Vec<GpuRenderPipeline>,
    bind_groups: Vec<GpuBindGroup>,
    textures: Vec<GpuTexture>,
    samplers: Vec<GpuSampler>,
    pending_bindings: Vec<BindingEntry>,
    data_chunks: Vec<u32>,
    data_is_f32: Vec<bool>,
    shader_sources: Vec<String>,
    offered: Option<DeviceLimits>,
    found_configuration: bool,
    configuration_caught: Option<(bool, bool)>,
    last_scope: (bool, bool),
}

/// One drawn frame: the acquired frame, to be presented, and the one
/// submission that drew it.
pub struct FrameReceipt {
    pub frame: GpuFrame,
    pub submitted: Submitted,
}

impl FrameReceipt {
    /// The passes of the submission that drew the frame.
    pub open spec fn passes(&self) -> Seq<crate::model::PassRecord> {
        self.submitted.passes()
    }
}

/// The error that a pair of closed error scopes reports: validation first,
/// then out of memory, or none.
pub open spec fn scope_error(caught: (bool, bool)) -> Option<GpuError> {
    if caught.0 {
        Some(GpuError::Validation)
    } else if caught.1 {
        Some(GpuError::OutOfMemory)
    } else {
        None
    }
}

/// What a creation answers once its error scopes are closed: the new
/// object's handle `h`, or the error they caught.
pub open spec fn scope_result(caught: (bool, bool), h: i64) -> Result<i64, GpuError> {
    match scope_error(caught) {
        Some(e) => Err(e),
        None => Ok(h),
    }
}

/// The surface size for a request of `width` by `height`: each raised to at
/// least 1, or `SurfaceTooLarge` when either exceeds the device's largest 2D
/// texture.
pub open spec fn surface_size_for(limits: DeviceLimits, width: u32, height: u32) -> Result<(u32, u32), InitError> {
    if at_least_one(width) > limits.max_texture_dimension_2d || at_least_one(height)
        > limits.max_texture_dimension_2d {
        Err(InitError::SurfaceTooLarge)
    } else {
        Ok((at_least_one(width), at_least_one(height)))
    }
}

/// The surface size that `init` configures for a request of `width` by
/// `height` on a device with `limits`.
pub fn surface_size(limits: DeviceLimits, width: u32, height: u32) -> (r: Result<(u32, u32), InitError>)
    ensures
        r == surface_size_for(limits, width, height),
{
    let w = if width >= 1 { width } else { 1 };
    let h = if height >= 1 { height } else { 1 };
    if w > limits.max_texture_dimension_2d || h > limits.max_texture_dimension_2d {
        Err(InitError::SurfaceTooLarge)
    } else {
        Ok((w, h))
    }
}

/// The error, if any, that the closed error scopes report.
pub fn scope_outcome(caught: (bool, bool)) -> (r: Option<GpuError>)
    ensures
        r == scope_error(caught),
{
    if caught.0 {
        Some(GpuError::Validation)
    } else if caught.1 {
        Some(GpuError::OutOfMemory)
    } else {
        None
    }
}

/// What a queue write answers once its error scopes are closed: what the
/// queue was handed, unless a scope caught an error.
pub fn write_outcome(receipt: WriteReceipt, caught: (bool, bool)) -> (r: Result<WriteReceipt, GpuError>)
    ensures
        scope_error(caught) is None ==> r == Ok::<WriteReceipt, GpuError>(receipt),
        scope_error(caught) matches Some(e) ==> r == Err::<WriteReceipt, GpuError>(e),
{
    match scope_outcome(caught) {
        Some(e) => Err(e),
        None => Ok(receipt),
    }
}

/// What a frame answers once its error scopes are closed: what drawing it
/// gave, unless a scope caught an error, which makes it `Rejected`.
pub fn frame_outcome(drawn: Result<FrameReceipt, FrameError>, caught: (bool, bool)) -> (r: Result<
    FrameReceipt,
    FrameError,
>)
    ensures
        (caught.0 || caught.1) ==> r == Err::<FrameReceipt, FrameError>(FrameError::Rejected),
        !(caught.0 || caught.1) ==> r == drawn,
{
    if caught.0 || caught.1 {
        Err(FrameError::Rejected)
    } else {
        drawn
    }
}

pub open spec fn no_limits() -> DeviceLimits {
    DeviceLimits {
        max_buffer_size: 0,
        max_texture_dimension_2d: 0,
        unrestricted_index_buffer: false,
        indirect_execution: false,
    }
}

pub open spec fn compute_origin(p: GpuComputePipeline) -> ComputeOrigin {
    ComputeOrigin { shader: p.shader() as nat, entry_point: p.entry_point() }
}

pub open spec fn render_origin(p: GpuRenderPipeline) -> RenderOrigin {
    RenderOrigin {
        shader: p.vertex_shader() as nat,
        vertex_entry: p.vertex_entry(),
        fragment_entry: p.fragment_entry(),
        format: p.format(),
        blend: p.blend(),
        write_mask: p.write_mask(),
        vertex_buffers: p.vertex_buffers() as nat,
    }
}

pub open spec fn group_origin(g: GpuBindGroup) -> BindGroupOrigin {
    BindGroupOrigin {
        pipeline: if g.compute() {
            PipelineRef::Compute(g.pipeline() as nat)
        } else {
            PipelineRef::Render(g.pipeline() as nat)
        },
        group: g.group(),
        entries: g.entries(),
    }
}

impl View for GpuRuntime {
    type V = RuntimeState;

    closed spec fn view(&self) -> RuntimeState {
        RuntimeState {
            ready: self.device.is_some(),
            limits: match self.device {
                Some(d) => d.limits(),
                None => no_limits(),
            },
            little_endian: self.little_endian,
            has_surface: self.surface.is_some(),
            format: self.format,
            surface_size: match self.surface {
                Some(s) => Some(s.size()),
                None => None,
            },
            sources: self.shader_sources@.map_values(|s: String| s@),
            shaders: self.shaders@.map_values(|s: GpuShader| s.source()),
            buffers: self.buffers@.map_values(|b: GpuBuffer| b.desc()),
            compute_pipelines: self.compute_pipelines@.map_values(|p: GpuComputePipeline| compute_origin(p)),
            render_pipelines: self.render_pipelines@.map_values(|p: GpuRenderPipeline| render_origin(p)),
            bind_groups: self.bind_groups@.map_values(|g: GpuBindGroup| group_origin(g)),
            textures: self.textures@.len(),
            samplers: self.samplers@.len(),
            pending: self.pending_bindings@,
            data: self.data_chunks@,
            data_is_f32: self.data_is_f32@,
            writes: match self.device {
                Some(d) => d.writes(),
                None => Seq::empty(),
            },
            submissions: match self.device {
                Some(d) => d.submissions(),
                None => 0,
            },
        }
    }
}

impl GpuRuntime {
    /// The installed device.
    pub closed spec fn device_key(&self) -> wgpu::Device {
        self.device->0.key()
    }

    /// The limits of the device that the last `init` obtained from the
    /// adapter, if it obtained one.
    pub closed spec fn offered_limits(&self) -> Option<DeviceLimits> {
        self.offered
    }

    /// The last `init` obtained a default configuration for the surface.
    pub closed spec fn found_configuration(&self) -> bool {
        self.found_configuration
    }

    /// What the error scopes around the surface configuration of the last
    /// `init` caught, if it got that far.
    pub closed spec fn configuration_caught(&self) -> Option<(bool, bool)> {
        self.configuration_caught
    }

    /// What the error scopes of the last scoped operation caught: a
    /// validation error, an out-of-memory error.
    pub closed spec fn last_scope(&self) -> (bool, bool) {
        self.last_scope
    }

    /// Every object sits at the index of its handle, and a render pipeline
    /// uses one shader for both stages.
    pub closed spec fn tables_wf(&self) -> bool {
        &&& self.textures@.len() == 0
        &&& self.samplers@.len() == 0
        &&& self.shaders@.len() <= i64::MAX
        &&& self.buffers@.len() <= i64::MAX
        &&& self.compute_pipelines@.len() <= i64::MAX
        &&& self.render_pipelines@.len() <= i64::MAX
        &&& self.bind_groups@.len() <= i64::MAX
        &&& forall|i: int| 0 <= i < self.shaders@.len() ==> (#[trigger] self.shaders@[i]).handle() == i
        &&& forall|i: int| 0 <= i < self.buffers@.len() ==> (#[trigger] self.buffers@[i]).handle() == i
        &&& forall|i: int|
            0 <= i < self.compute_pipelines@.len() ==> (#[trigger] self.compute_pipelines@[i]).handle() == i
        &&& forall|i: int|
            0 <= i < self.render_pipelines@.len() ==> {
                &&& (#[trigger] self.render_pipelines@[i]).handle() == i
                &&& self.render_pipelines@[i].fragment_shader() == self.render_pipelines@[i].vertex_shader()
            }
        &&& forall|i: int| 0 <= i < self.bind_groups@.len() ==> (#[trigger] self.bind_groups@[i]).handle() == i
    }

    /// Every object belongs to device `key`.
    pub closed spec fn objects_belong(&self, key: wgpu::Device) -> bool {
        &&& forall|i: int| 0 <= i < self.shaders@.len() ==> (#[trigger] self.shaders@[i]).key() == key
        &&& forall|i: int| 0 <= i < self.buffers@.len() ==> (#[trigger] self.buffers@[i]).key() == key
        &&& forall|i: int|
            0 <= i < self.compute_pipelines@.len() ==> (#[trigger] self.compute_pipelines@[i]).key() == key
        &&& forall|i: int|
            0 <= i < self.render_pipelines@.len() ==> (#[trigger] self.render_pipelines@[i]).key() == key
        &&& forall|i: int| 0 <= i < self.bind_groups@.len() ==> (#[trigger] self.bind_groups@[i]).key() == key
    }

    /// Every object sits at the index of its handle and belongs to the
    /// installed device, as does the surface; there are none before a device
    /// is installed.
    pub closed spec fn wf(&self) -> bool {
        &&& self.tables_wf()
        &&& self.surface is Some ==> self.device is Some && self.surface->0.key() == self.device->0.key()
        &&& match self.device {
            None => {
                &&& self.shaders@.len() == 0
                &&& self.buffers@.len() == 0
                &&& self.compute_pipelines@.len() == 0
                &&& self.render_pipelines@.len() == 0
                &&& self.bind_groups@.len() == 0
            },
            Some(d) => self.objects_belong(d.key()),
        }
    }

    /// An empty runtime: no device, no surface, every table empty. It finds
    /// out the machine's byte order, in which it will write words.
    pub fn new() -> (r: Self)
        ensures
            r.wf(),
            r@.is_fresh(),
    {
        let probe = gpu_calls::ne_bytes(1);
        let little_endian = probe[0] == 1;
        GpuRuntime {
            device: None,
            surface: None,
            format: None,
            little_endian,
            shaders: Vec::new(),
            buffers: Vec::new(),
            compute_pipelines: Vec::new(),
            render_pipelines: Vec::new(),
            bind_groups: Vec::new(),
            textures: Vec::new(),
            samplers: Vec::new(),
            pending_bindings: Vec::new(),
            data_chunks: Vec::new(),
            data_is_f32: Vec::new(),
            shader_sources: Vec::new(),
            offered: None,
            found_configuration: false,
            configuration_caught: None,
            last_scope: (false, false),
        }
    }
}

impl Default for GpuRuntime {
    fn default() -> (r: Self)
        ensures
            r.wf(),
            r@.is_fresh(),
    {
        GpuRuntime::new()
    }
}

impl GpuRuntime {
    /// Connects the runtime to a surface: asks the adapter for a device,
    /// configures the surface with the adapter's default configuration for
    /// `width` by `height` (each raised to at least 1), and installs it all.
    /// It fails, changing nothing, when the runtime already holds a device,
    /// when the adapter gives no device or no configuration for the surface,
    /// when the size exceeds the device's largest 2D texture (`surface_size`),
    /// and when wgpu refuses the configuration.
    pub fn init(
        &mut self,
        surface: wgpu::Surface<'static>,
        adapter: &wgpu::Adapter,
        width: u32,
        height: u32,
    ) -> (r: Result<(), InitError>)
        requires
            old(self).wf(),
        ensures
            r == Err::<(), InitError>(InitError::SurfaceTooLarge) <==> {
                &&& !old(self)@.ready
                &&& final(self).offered_limits() matches Some(l)
                &&& (at_least_one(width) > l.max_texture_dimension_2d || at_least_one(height)
                    > l.max_texture_dimension_2d)
            },
            r is Ok ==> final(self).offered_limits() == Some(final(self)@.limits),
            r == Err::<(), InitError>(InitError::NoDevice) <==> !old(self)@.ready && final(self).offered_limits()
                is None,
            r == Err::<(), InitError>(InitError::SurfaceUnsupported) <==> {
                &&& !old(self)@.ready
                &&& final(self).offered_limits() matches Some(l)
                &&& at_least_one(width) <= l.max_texture_dimension_2d
                &&& at_least_one(height) <= l.max_texture_dimension_2d
                &&& !final(self).found_configuration()
            },
            r == Err::<(), InitError>(InitError::ConfigurationRejected) <==> {
                &&& !old(self)@.ready
                &&& final(self).configuration_caught() matches Some(c)
                &&& (c.0 || c.1)
            },
            r is Ok ==> final(self).found_configuration() && final(self).configuration_caught() == Some(
                (false, false),
            ),
            final(self).wf(),
            r == Err::<(), InitError>(InitError::AlreadyConnected) <==> old(self)@.ready,
            r is Err ==> final(self)@ == old(self)@,
            r is Ok ==> final(self)@.format is Some,
            r is Ok ==> final(self)@ == (RuntimeState {
                ready: true,
                limits: final(self)@.limits,
                has_surface: true,
                format: final(self)@.format,
                surface_size: Some((at_least_one(width), at_least_one(height))),
                ..old(self)@
            }),
            r is Ok ==> surface_size_for(final(self)@.limits, width, height) == Ok::<(u32, u32), InitError>(
                (at_least_one(width), at_least_one(height)),
            ),
    {
        if self.device.is_some() {
            return Err(InitError::AlreadyConnected);
        }
        self.offered = None;
        self.found_configuration = false;
        self.configuration_caught = None;
        let device = match gpu_calls::request_device(adapter) {
            Some(d) => d,
            None => {
                return Err(InitError::NoDevice);
            },
        };
        self.offered = Some(device.get_limits());
        let (w, h) = match surface_size(device.get_limits(), width, height) {
            Ok(size) => size,
            Err(e) => {
                return Err(e);
            },
        };
        let setup = match gpu_calls::default_config(&surface, adapter, w, h) {
            Some(setup) => setup,
            None => {
                return Err(InitError::SurfaceUnsupported);
            },
        };
        self.found_configuration = true;
        let pending = gpu_calls::configure(surface, gpu_calls::push_error_scope(device), &setup);
        let (device, configured, caught) = gpu_calls::settle_configuration(pending);
        self.configuration_caught = Some(caught);
        self.install(device, configured)
    }

    /// Installs a fresh device and the surface configured on it, if wgpu
    /// accepted the configuration; if it did not (`None`), nothing changes.
    pub fn install(&mut self, device: GpuDevice, surface: Option<GpuSurface>) -> (r: Result<(), InitError>)
        requires
            old(self).wf(),
            !old(self)@.ready,
            device.writes().len() == 0,
            device.submissions() == 0,
            surface matches Some(s) ==> s.key() == device.key(),
        ensures
            final(self).offered_limits() == old(self).offered_limits(),
            final(self).found_configuration() == old(self).found_configuration(),
            final(self).configuration_caught() == old(self).configuration_caught(),
            final(self).wf(),
            surface is None ==> r == Err::<(), InitError>(InitError::ConfigurationRejected),
            surface is None ==> final(self)@ == old(self)@,
            surface matches Some(s) ==> r is Ok && final(self)@ == (RuntimeState {
                ready: true,
                limits: device.limits(),
                has_surface: true,
                format: Some(s.format()),
                surface_size: Some(s.size()),
                ..old(self)@
            }),
    {
        match surface {
            None => Err(InitError::ConfigurationRejected),
            Some(s) => {
                self.format = Some(s.get_format());
                self.surface = Some(s);
                self.device = Some(device);
                assert(self@.writes =~= old(self)@.writes);
                Ok(())
            },
        }
    }

    /// The canvas is configured by `init`; this answers the handle 0 and changes nothing.
    pub fn configure_canvas(&mut self, _format_handle: i64) -> (r: i64)
        requires
            old(self).wf(),
        ensures
            final(self).wf(),
            r == 0,
            final(self)@ == old(self)@,
    {
        0
    }

    /// The format is kept inside the runtime; this answers the handle 0.
    pub fn get_preferred_format(&self) -> (r: i64)
        ensures
            r == 0,
    {
        0
    }

    /// Registers WGSL source text; the result is its source handle.
    pub fn register_shader_source(&mut self, source: String) -> (r: i64)
        requires
            old(self).wf(),
            old(self)@.sources.len() < i64::MAX,
        ensures
            final(self).wf(),
            r == old(self)@.sources.len(),
            final(self)@ == old(self)@.with_source(source@),
    {
        let ghost text = source@;
        let h = self.shader_sources.len();
        self.shader_sources.push(source);
        proof {
            assert(self.shader_sources@.map_values(|s: String| s@)
                =~= old(self).shader_sources@.map_values(|s: String| s@).push(text));
        }
        h as i64
    }

    /// Compiles the registered source `code_idx` into a shader module; the
    /// result is the module's shader handle, or the error wgpu reported for
    /// the source, in which case nothing changes.
    pub fn create_shader(&mut self, code_idx: i64) -> (r: Result<i64, GpuError>)
        requires
            old(self).wf(),
            old(self)@.ready,
            handle_in(code_idx, old(self)@.sources.len()),
            old(self)@.shaders.len() < i64::MAX,
        ensures
            !(final(self).last_scope().0 || final(self).last_scope().1) ==> r == Ok::<i64, GpuError>(
                old(self)@.shaders.len() as i64,
            ),
            final(self).last_scope().0 ==> r == Err::<i64, GpuError>(GpuError::Validation),
            !final(self).last_scope().0 && final(self).last_scope().1 ==> r == Err::<i64, GpuError>(
                GpuError::OutOfMemory,
            ),
            final(self).wf(),
            r matches Ok(h) ==> h == old(self)@.shaders.len(),
            r is Ok ==> final(self)@ == old(self)@.with_shader(old(self)@.sources[code_idx as int]),
            r is Err ==> final(self)@ == old(self)@,
    {
        assert(code_idx < self.shader_sources.len());
        let h = self.shaders.len();
        let scope = gpu_calls::push_error_scope(self.device.take().unwrap());
        let module = gpu_calls::make_shader_module(&scope, self.shader_sources[code_idx as usize].as_str(), h);
        let (device, caught) = gpu_calls::pop_error_scope(scope);
        self.device = Some(device);
        self.last_scope = caught;
        self.add_shader(module, caught)
    }

    /// Adds a shader module, made for the next shader handle, once the error
    /// scopes around its creation are closed: if they caught an error the
    /// module is dropped, nothing changes and the error comes back.
    pub fn add_shader(&mut self, module: GpuShader, caught: (bool, bool)) -> (r: Result<i64, GpuError>)
        requires
            old(self).wf(),
            old(self)@.ready,
            module.key() == old(self).device_key(),
            module.handle() == old(self)@.shaders.len(),
            old(self)@.shaders.len() < i64::MAX,
        ensures
            final(self).last_scope() == old(self).last_scope(),
            final(self).wf(),
            r == scope_result(caught, old(self)@.shaders.len() as i64),
            r is Ok ==> final(self)@ == old(self)@.with_shader(module.source()),
            r is Err ==> final(self)@ == old(self)@,
    {
        if let Some(e) = scope_outcome(caught) {
            return Err(e);
        }
        let ghost text = module.source();
        let h = self.shaders.len();
        self.shaders.push(module);
        proof {
            assert(self.shaders@.map_values(|s: GpuShader| s.source()) =~= old(self).shaders@.map_values(
                |s: GpuShader| s.source(),
            ).push(text));
        }
        Ok(h as i64)
    }

    /// Creates a buffer of `size` bytes with the usage bits `usage`, not
    /// mapped at creation; the result is its buffer handle, or the error wgpu
    /// reported (it ran out of memory), in which case nothing changes.
    pub fn create_buffer(&mut self, size: i64, usage: i64) -> (r: Result<i64, GpuError>)
        requires
            old(self).wf(),
            old(self)@.ready,
            0 <= size,
            buffer_acceptable(size as u64, usage as u32, old(self)@.limits),
            old(self)@.buffers.len() < i64::MAX,
        ensures
            !(final(self).last_scope().0 || final(self).last_scope().1) ==> r == Ok::<i64, GpuError>(
                old(self)@.buffers.len() as i64,
            ),
            final(self).last_scope().0 ==> r == Err::<i64, GpuError>(GpuError::Validation),
            !final(self).last_scope().0 && final(self).last_scope().1 ==> r == Err::<i64, GpuError>(
                GpuError::OutOfMemory,
            ),
            final(self).wf(),
            r matches Ok(h) ==> h == old(self)@.buffers.len(),
            r is Ok ==> final(self)@ == old(self)@.with_buffer(
                BufferDesc { size: size as u64, usage: usage as u32, mapped_at_creation: false },
            ),
            r is Err ==> final(self)@ == old(self)@,
    {
        let h = self.buffers.len();
        let scope = gpu_calls::push_error_scope(self.device.take().unwrap());
        let buf = gpu_calls::make_buffer(&scope, size as u64, usage as u32, false, h);
        let (device, caught) = gpu_calls::pop_error_scope(scope);
        self.device = Some(device);
        self.last_scope = caught;
        self.add_buffer(buf, caught)
    }

    /// Adds a buffer, made for the next buffer handle, once the error scopes
    /// around its creation are closed: if they caught an error the buffer is
    /// dropped, nothing changes and the error comes back.
    pub fn add_buffer(&mut self, buf: GpuBuffer, caught: (bool, bool)) -> (r: Result<i64, GpuError>)
        requires
            old(self).wf(),
            old(self)@.ready,
            buf.key() == old(self).device_key(),
            buf.handle() == old(self)@.buffers.len(),
            old(self)@.buffers.len() < i64::MAX,
        ensures
            final(self).last_scope() == old(self).last_scope(),
            final(self).wf(),
            r == scope_result(caught, old(self)@.buffers.len() as i64),
            r is Ok ==> final(self)@ == old(self)@.with_buffer(buf.desc()),
            r is Err ==> final(self)@ == old(self)@,
    {
        if let Some(e) = scope_outcome(caught) {
            return Err(e);
        }
        let ghost desc = buf.desc();
        let h = self.buffers.len();
        self.buffers.push(buf);
        proof {
            assert(self.buffers@.map_values(|b: GpuBuffer| b.desc())
                =~= old(self).buffers@.map_values(|b: GpuBuffer| b.desc()).push(desc));
        }
        Ok(h as i64)
    }

    /// Schedules `data` to be written at the start of buffer `buf_handle`;
    /// the result is what the queue was handed, or the error wgpu reported
    /// (it ran out of memory for the copy).
    pub fn write_buffer(&mut self, buf_handle: i64, data: &[u8]) -> (r: Result<WriteReceipt, GpuError>)
        requires
            old(self).wf(),
            old(self)@.ready,
            old(self)@.write_allowed(buf_handle, 0, data@.len() as int),
        ensures
            !(final(self).last_scope().0 || final(self).last_scope().1) ==> r is Ok,
            final(self).last_scope().0 ==> r == Err::<WriteReceipt, GpuError>(GpuError::Validation),
            !final(self).last_scope().0 && final(self).last_scope().1 ==> r == Err::<WriteReceipt, GpuError>(
                GpuError::OutOfMemory,
            ),
            final(self).wf(),
            final(self)@ == old(self)@.with_write(buf_handle, 0, data@.len()),
            r matches Ok(w) ==> w.view() == (BufferWrite { buffer: buf_handle as nat, offset: 0, bytes: data@ }),
    {
        self.write_scoped(buf_handle, 0, data)
    }

    /// Hands `data` to the queue for buffer `buf_handle` at `offset`, under
    /// error scopes of the device.
    fn write_scoped(&mut self, buf_handle: i64, offset: u64, data: &[u8]) -> (r: Result<WriteReceipt, GpuError>)
        requires
            old(self).wf(),
            old(self)@.ready,
            old(self)@.write_allowed(buf_handle, offset as int, data@.len() as int),
        ensures
            !(final(self).last_scope().0 || final(self).last_scope().1) ==> r is Ok,
            final(self).last_scope().0 ==> r == Err::<WriteReceipt, GpuError>(GpuError::Validation),
            !final(self).last_scope().0 && final(self).last_scope().1 ==> r == Err::<WriteReceipt, GpuError>(
                GpuError::OutOfMemory,
            ),
            final(self).wf(),
            final(self)@ == old(self)@.with_write(buf_handle, offset, data@.len()),
            r matches Ok(w) ==> w.view() == (BufferWrite { buffer: buf_handle as nat, offset, bytes: data@ }),
    {
        assert(buf_handle < self.buffers.len());
        assert(self@.buffers[buf_handle as int] == self.buffers@[buf_handle as int].desc());
        let mut scope = gpu_calls::push_error_scope(self.device.take().unwrap());
        let receipt = gpu_calls::queue_write(&mut scope, &self.buffers[buf_handle as usize], offset, data);
        let (device, caught) = gpu_calls::pop_error_scope(scope);
        self.device = Some(device);
        self.last_scope = caught;
        assert(self@ =~= old(self)@.with_write(buf_handle, offset, data@.len()));
        write_outcome(receipt, caught)
    }
}

impl GpuRuntime {
    /// Builds a render pipeline from shader `shader_handle`: vertex entry
    /// point `vs_fullscreen` with no vertex buffers, fragment entry point
    /// `fs_fullscreen`, one color target in the surface format that replaces
    /// what it draws over and writes all channels. The format handle is not
    /// read. The result is the pipeline's handle, or the error wgpu reported
    /// (the shader does not declare those entry points, or their interfaces
    /// do not match), in which case nothing changes.
    pub fn create_render_pipeline(&mut self, shader_handle: i64, _format_handle: i64) -> (r: Result<i64, GpuError>)
        requires
            old(self).wf(),
            old(self)@.ready,
            old(self)@.format is Some,
            handle_in(shader_handle, old(self)@.shaders.len()),
            old(self)@.render_pipelines.len() < i64::MAX,
        ensures
            !(final(self).last_scope().0 || final(self).last_scope().1) ==> r == Ok::<i64, GpuError>(
                old(self)@.render_pipelines.len() as i64,
            ),
            final(self).last_scope().0 ==> r == Err::<i64, GpuError>(GpuError::Validation),
            !final(self).last_scope().0 && final(self).last_scope().1 ==> r == Err::<i64, GpuError>(
                GpuError::OutOfMemory,
            ),
            final(self).wf(),
            r matches Ok(h) ==> h == old(self)@.render_pipelines.len(),
            r is Ok ==> final(self)@ == old(self)@.with_render_pipeline(
                RenderOrigin {
                    shader: shader_handle as nat,
                    vertex_entry: "vs_fullscreen"@,
                    fragment_entry: "fs_fullscreen"@,
                    format: old(self)@.format->0,
                    blend: Blend::Replace,
                    write_mask: ColorMask::All,
                    vertex_buffers: 0,
                },
            ),
            r is Err ==> final(self)@ == old(self)@,
    {
        let format = self.format.unwrap();
        assert(shader_handle < self.shaders.len());
        let h = self.render_pipelines.len();
        let scope = gpu_calls::push_error_scope(self.device.take().unwrap());
        let pipeline = {
            let shader = &self.shaders[shader_handle as usize];
            let target: ColorTarget = gpu_calls::color_target(format, Blend::Replace, ColorMask::All);
            let vertex = gpu_calls::vertex_stage(shader, "vs_fullscreen");
            let fragment = gpu_calls::fragment_stage(shader, "fs_fullscreen", &target);
            gpu_calls::make_render_pipeline(&scope, vertex, fragment, h)
        };
        let (device, caught) = gpu_calls::pop_error_scope(scope);
        self.device = Some(device);
        self.last_scope = caught;
        self.add_render_pipeline(pipeline, caught)
    }

    /// Adds a render pipeline, made for the next render pipeline handle with
    /// one shader for both stages, once the error scopes around its creation
    /// are closed: if they caught an error the pipeline is dropped, nothing
    /// changes and the error comes back.
    pub fn add_render_pipeline(&mut self, pipeline: GpuRenderPipeline, caught: (bool, bool)) -> (r: Result<i64, GpuError>)
        requires
            old(self).wf(),
            old(self)@.ready,
            pipeline.key() == old(self).device_key(),
            pipeline.handle() == old(self)@.render_pipelines.len(),
            pipeline.fragment_shader() == pipeline.vertex_shader(),
            old(self)@.render_pipelines.len() < i64::MAX,
        ensures
            final(self).last_scope() == old(self).last_scope(),
            final(self).wf(),
            r == scope_result(caught, old(self)@.render_pipelines.len() as i64),
            r is Ok ==> final(self)@ == old(self)@.with_render_pipeline(render_origin(pipeline)),
            r is Err ==> final(self)@ == old(self)@,
    {
        if let Some(e) = scope_outcome(caught) {
            return Err(e);
        }
        let ghost origin = render_origin(pipeline);
        let h = self.render_pipelines.len();
        self.render_pipelines.push(pipeline);
        proof {
            assert(self.render_pipelines@.map_values(|p: GpuRenderPipeline| render_origin(p))
                =~= old(self).render_pipelines@.map_values(|p: GpuRenderPipeline| render_origin(p)).push(origin));
        }
        Ok(h as i64)
    }

    /// Builds a compute pipeline from shader `shader_handle` with entry point
    /// `fine` and the layout derived from the shader; the result is the
    /// pipeline's handle, or the error wgpu reported (the shader declares no
    /// compute entry point `fine`), in which case nothing changes.
    pub fn create_compute_pipeline(&mut self, shader_handle: i64) -> (r: Result<i64, GpuError>)
        requires
            old(self).wf(),
            old(self)@.ready,
            handle_in(shader_handle, old(self)@.shaders.len()),
            old(self)@.compute_pipelines.len() < i64::MAX,
        ensures
            !(final(self).last_scope().0 || final(self).last_scope().1) ==> r == Ok::<i64, GpuError>(
                old(self)@.compute_pipelines.len() as i64,
            ),
            final(self).last_scope().0 ==> r == Err::<i64, GpuError>(GpuError::Validation),
            !final(self).last_scope().0 && final(self).last_scope().1 ==> r == Err::<i64, GpuError>(
                GpuError::OutOfMemory,
            ),
            final(self).wf(),
            r matches Ok(h) ==> h == old(self)@.compute_pipelines.len(),
            r is Ok ==> final(self)@ == old(self)@.with_compute_pipeline(
                ComputeOrigin { shader: shader_handle as nat, entry_point: "fine"@ },
            ),
            r is Err ==> final(self)@ == old(self)@,
    {
        assert(shader_handle < self.shaders.len());
        let h = self.compute_pipelines.len();
        let scope = gpu_calls::push_error_scope(self.device.take().unwrap());
        let pipeline = gpu_calls::make_compute_pipeline(&scope, &self.shaders[shader_handle as usize], "fine", h);
        let (device, caught) = gpu_calls::pop_error_scope(scope);
        self.device = Some(device);
        self.last_scope = caught;
        self.add_compute_pipeline(pipeline, caught)
    }

    /// Adds a compute pipeline, made for the next compute pipeline handle,
    /// once the error scopes around its creation are closed: if they caught
    /// an error the pipeline is dropped, nothing changes and the error comes
    /// back.
    pub fn add_compute_pipeline(&mut self, pipeline: GpuComputePipeline, caught: (bool, bool)) -> (r: Result<i64, GpuError>)
        requires
            old(self).wf(),
            old(self)@.ready,
            pipeline.key() == old(self).device_key(),
            pipeline.handle() == old(self)@.compute_pipelines.len(),
            old(self)@.compute_pipelines.len() < i64::MAX,
        ensures
            final(self).last_scope() == old(self).last_scope(),
            final(self).wf(),
            r == scope_result(caught, old(self)@.compute_pipelines.len() as i64),
            r is Ok ==> final(self)@ == old(self)@.with_compute_pipeline(compute_origin(pipeline)),
            r is Err ==> final(self)@ == old(self)@,
    {
        if let Some(e) = scope_outcome(caught) {
            return Err(e);
        }
        let ghost origin = compute_origin(pipeline);
        let h = self.compute_pipelines.len();
        self.compute_pipelines.push(pipeline);
        proof {
            assert(self.compute_pipelines@.map_values(|p: GpuComputePipeline| compute_origin(p))
                =~= old(self).compute_pipelines@.map_values(|p: GpuComputePipeline| compute_origin(p)).push(origin));
        }
        Ok(h as i64)
    }

    /// Starts a new bind group: the pending bindings become empty.
    pub fn begin_bindings(&mut self)
        requires
            old(self).wf(),
        ensures
            final(self).wf(),
            final(self)@ == old(self)@.with_bindings_cleared(),
    {
        self.pending_bindings.clear();
    }

    /// Appends buffer `buf_handle` to the pending bindings.
    pub fn add_buffer_binding(&mut self, buf_handle: i64)
        requires
            old(self).wf(),
        ensures
            final(self).wf(),
            final(self)@ == old(self)@.with_binding(BindingEntry::Buffer(buf_handle)),
    {
        self.pending_bindings.push(BindingEntry::Buffer(buf_handle));
    }

    /// Appends texture view `tex_handle` to the pending bindings.
    pub fn add_texture_binding(&mut self, tex_handle: i64)
        requires
            old(self).wf(),
        ensures
            final(self).wf(),
            final(self)@ == old(self)@.with_binding(BindingEntry::Texture(tex_handle)),
    {
        self.pending_bindings.push(BindingEntry::Texture(tex_handle));
    }

    /// Appends sampler `samp_handle` to the pending bindings.
    pub fn add_sampler_binding(&mut self, samp_handle: i64)
        requires
            old(self).wf(),
        ensures
            final(self).wf(),
            final(self)@ == old(self)@.with_binding(BindingEntry::Sampler(samp_handle)),
    {
        self.pending_bindings.push(BindingEntry::Sampler(samp_handle));
    }

    /// The objects that the pending bindings name, in order, and the
    /// pending bindings themselves.
    fn pending_resources(&self, Ghost(key): Ghost<wgpu::Device>) -> (r: (Vec<Resource<'_>>, Vec<BindingEntry>))
        requires
            self.tables_wf(),
            self.objects_belong(key),
            self@.bindings_resolvable(),
        ensures
            r.0@.map_values(|x: Resource| resource_entry(x)) == self@.pending,
            r.1@ == self@.pending,
            forall|i: int| 0 <= i < r.0@.len() ==> resource_key(#[trigger] r.0@[i]) == key,
    {
        let mut resources: Vec<Resource<'_>> = Vec::new();
        let mut entries: Vec<BindingEntry> = Vec::new();
        let n = self.pending_bindings.len();
        let mut i: usize = 0;
        while i < n
            invariant
                self.tables_wf(),
                self.objects_belong(key),
                n == self@.pending.len(),
                i <= n,
                resources@.len() == i,
                entries@ == self@.pending.take(i as int),
                self@.bindings_resolvable(),
                forall|j: int| 0 <= j < i ==> resource_entry(#[trigger] resources@[j]) == self@.pending[j],
                forall|j: int| 0 <= j < i ==> resource_key(#[trigger] resources@[j]) == key,
            decreases n - i,
        {
            let entry = self.pending_bindings[i];
            assert(self@.binding_valid(self@.pending[i as int]));
            let resource = match entry {
                BindingEntry::Buffer(h) => {
                    assert(h < self.buffers.len());
                    assert(self.buffers@[h as int].handle() == h);
                    Resource::Buffer(&self.buffers[h as usize])
                },
                BindingEntry::Texture(h) => {
                    assert(h < self.textures.len());
                    Resource::Texture(&self.textures[h as usize])
                },
                BindingEntry::Sampler(h) => {
                    assert(h < self.samplers.len());
                    Resource::Sampler(&self.samplers[h as usize])
                },
            };
            resources.push(resource);
            entries.push(entry);
            assert(self@.pending.take(i as int + 1) =~= self@.pending.take(i as int).push(entry));
            i += 1;
        }
        assert(resources@.map_values(|x: Resource| resource_entry(x)) =~= self@.pending);
        assert(self@.pending.take(n as int) =~= self@.pending);
        (resources, entries)
    }

    /// Builds a bind group from the pending bindings, binding `i` for the
    /// `i`-th of them, in layout `group_idx` of compute pipeline
    /// `pipeline_handle`. The pending bindings stay as they are. The result is
    /// the bind group's handle, or the error wgpu reported (the layout has no
    /// such group, or the resources do not fit it), in which case nothing
    /// changes.
    pub fn create_bind_group_for_compute(&mut self, pipeline_handle: i64, group_idx: u32) -> (r: Result<i64, GpuError>)
        requires
            old(self).wf(),
            old(self)@.ready,
            handle_in(pipeline_handle, old(self)@.compute_pipelines.len()),
            old(self)@.bindings_resolvable(),
            old(self)@.pending.len() <= u32::MAX,
            old(self)@.bind_groups.len() < i64::MAX,
        ensures
            r is Ok ==> final(self)@.bind_groups.len() == old(self)@.bind_groups.len() + 1,
            r is Ok ==> final(self)@.bind_groups[old(self)@.bind_groups.len() as int] == (BindGroupOrigin {
                pipeline: PipelineRef::Compute(pipeline_handle as nat),
                group: group_idx,
                entries: old(self)@.pending,
            }),
            !(final(self).last_scope().0 || final(self).last_scope().1) ==> r == Ok::<i64, GpuError>(
                old(self)@.bind_groups.len() as i64,
            ),
            final(self).last_scope().0 ==> r == Err::<i64, GpuError>(GpuError::Validation),
            !final(self).last_scope().0 && final(self).last_scope().1 ==> r == Err::<i64, GpuError>(
                GpuError::OutOfMemory,
            ),
            final(self).wf(),
            r matches Ok(h) ==> h == old(self)@.bind_groups.len(),
            r is Ok ==> final(self)@ == old(self)@.with_bind_group(
                old(self)@.pending_group(PipelineRef::Compute(pipeline_handle as nat), group_idx),
            ),
            r is Err ==> final(self)@ == old(self)@,
    {
        let h = self.bind_groups.len();
        let ghost key = self.device_key();
        let scope = gpu_calls::push_error_scope(self.device.take().unwrap());
        let bg = {
            assert(pipeline_handle < self.compute_pipelines.len());
            let pipeline = &self.compute_pipelines[pipeline_handle as usize];
            let layout = gpu_calls::compute_layout(&scope, pipeline, group_idx);
            let (resources, entries) = self.pending_resources(Ghost(key));
            gpu_calls::make_bind_group(&scope, &layout, resources.as_slice(), entries, h)
        };
        let (device, caught) = gpu_calls::pop_error_scope(scope);
        self.device = Some(device);
        self.last_scope = caught;
        assert(group_origin(bg) == old(self)@.pending_group(PipelineRef::Compute(pipeline_handle as nat), group_idx));
        self.add_bind_group(bg, caught)
    }

    /// As `create_bind_group_for_compute`, for render pipeline `pipeline_handle`.
    pub fn create_bind_group_for_render(&mut self, pipeline_handle: i64, group_idx: u32) -> (r: Result<i64, GpuError>)
        requires
            old(self).wf(),
            old(self)@.ready,
            handle_in(pipeline_handle, old(self)@.render_pipelines.len()),
            old(self)@.bindings_resolvable(),
            old(self)@.pending.len() <= u32::MAX,
            old(self)@.bind_groups.len() < i64::MAX,
        ensures
            r is Ok ==> final(self)@.bind_groups.len() == old(self)@.bind_groups.len() + 1,
            r is Ok ==> final(self)@.bind_groups[old(self)@.bind_groups.len() as int] == (BindGroupOrigin {
                pipeline: PipelineRef::Render(pipeline_handle as nat),
                group: group_idx,
                entries: old(self)@.pending,
            }),
            !(final(self).last_scope().0 || final(self).last_scope().1) ==> r == Ok::<i64, GpuError>(
                old(self)@.bind_groups.len() as i64,
            ),
            final(self).last_scope().0 ==> r == Err::<i64, GpuError>(GpuError::Validation),
            !final(self).last_scope().0 && final(self).last_scope().1 ==> r == Err::<i64, GpuError>(
                GpuError::OutOfMemory,
            ),
            final(self).wf(),
            r matches Ok(h) ==> h == old(self)@.bind_groups.len(),
            r is Ok ==> final(self)@ == old(self)@.with_bind_group(
                old(self)@.pending_group(PipelineRef::Render(pipeline_handle as nat), group_idx),
            ),
            r is Err ==> final(self)@ == old(self)@,
    {
        let h = self.bind_groups.len();
        let ghost key = self.device_key();
        let scope = gpu_calls::push_error_scope(self.device.take().unwrap());
        let bg = {
            assert(pipeline_handle < self.render_pipelines.len());
            let pipeline = &self.render_pipelines[pipeline_handle as usize];
            let layout = gpu_calls::render_layout(&scope, pipeline, group_idx);
            let (resources, entries) = self.pending_resources(Ghost(key));
            gpu_calls::make_bind_group(&scope, &layout, resources.as_slice(), entries, h)
        };
        let (device, caught) = gpu_calls::pop_error_scope(scope);
        self.device = Some(device);
        self.last_scope = caught;
        assert(group_origin(bg) == old(self)@.pending_group(PipelineRef::Render(pipeline_handle as nat), group_idx));
        self.add_bind_group(bg, caught)
    }

    /// Adds a bind group, made for the next bind group handle, once the
    /// error scopes around its creation are closed: if they caught an error
    /// the bind group is dropped, nothing changes and the error comes back.
    pub fn add_bind_group(&mut self, bg: GpuBindGroup, caught: (bool, bool)) -> (r: Result<i64, GpuError>)
        requires
            old(self).wf(),
            old(self)@.ready,
            bg.key() == old(self).device_key(),
            bg.handle() == old(self)@.bind_groups.len(),
            old(self)@.bind_groups.len() < i64::MAX,
        ensures
            final(self).last_scope() == old(self).last_scope(),
            final(self).wf(),
            r == scope_result(caught, old(self)@.bind_groups.len() as i64),
            r is Ok ==> final(self)@ == old(self)@.with_bind_group(group_origin(bg)),
            r is Err ==> final(self)@ == old(self)@,
    {
        if let Some(e) = scope_outcome(caught) {
            return Err(e);
        }
        let ghost origin = group_origin(bg);
        let h = self.bind_groups.len();
        self.bind_groups.push(bg);
        proof {
            assert(self.bind_groups@.map_values(|g: GpuBindGroup| group_origin(g))
                =~= old(self).bind_groups@.map_values(|g: GpuBindGroup| group_origin(g)).push(origin));
        }
        Ok(h as i64)
    }
}

/// Appends the four bytes of `w` in the given byte order.
fn push_word_bytes(bytes: &mut Vec<u8>, w: u32, little_endian: bool)
    ensures
        final(bytes)@ == old(bytes)@ + word_bytes(w, little_endian),
{
    let b0 = (w % 256) as u8;
    let b1 = ((w / 256) % 256) as u8;
    let b2 = ((w / 65536) % 256) as u8;
    let b3 = (w / 16777216) as u8;
    if little_endian {
        bytes.push(b0);
        bytes.push(b1);
        bytes.push(b2);
        bytes.push(b3);
    } else {
        bytes.push(b3);
        bytes.push(b2);
        bytes.push(b1);
        bytes.push(b0);
    }
    assert(bytes@ =~= old(bytes)@ + word_bytes(w, little_endian));
}

impl GpuRuntime {
    /// Starts a new data stream: the stream becomes empty.
    pub fn begin_data(&mut self)
        requires
            old(self).wf(),
        ensures
            final(self).wf(),
            final(self)@ == old(self)@.with_data_cleared(),
    {
        self.data_chunks.clear();
        self.data_is_f32.clear();
    }

    /// Appends a 32-bit float, given by its bit pattern, to the data stream.
    pub fn push_f32(&mut self, value_bits: u32)
        requires
            old(self).wf(),
        ensures
            final(self).wf(),
            final(self)@ == old(self)@.with_word(value_bits, true),
    {
        self.data_chunks.push(value_bits);
        self.data_is_f32.push(true);
    }

    /// Appends the low 32 bits of `value` to the data stream.
    pub fn push_u32(&mut self, value: i64)
        requires
            old(self).wf(),
        ensures
            final(self).wf(),
            final(self)@ == old(self)@.with_word(low_word(value), false),
    {
        let word = value as u32;
        proof {
            lemma_low_word(value);
        }
        self.data_chunks.push(word);
        self.data_is_f32.push(false);
    }

    /// The data stream as bytes, four per word in the runtime's byte order:
    /// what `flush_to_buffer` writes.
    pub fn data_bytes(&self) -> (r: Vec<u8>)
        ensures
            r@ == self@.bytes_of(self@.data),
    {
        let mut bytes: Vec<u8> = Vec::new();
        let n = self.data_chunks.len();
        let mut i: usize = 0;
        while i < n
            invariant
                n == self@.data.len(),
                i <= n,
                bytes@ == words_bytes(self@.data.take(i as int), self.little_endian),
            decreases n - i,
        {
            push_word_bytes(&mut bytes, self.data_chunks[i], self.little_endian);
            assert(self@.data.take(i as int + 1).drop_last() =~= self@.data.take(i as int));
            i += 1;
        }
        assert(self@.data.take(n as int) =~= self@.data);
        bytes
    }

    /// Schedules the data stream, as bytes, to be written at the start of
    /// buffer `buf_handle`; the queue's log gains the write. The stream stays
    /// as it is. The result is what the queue was handed, or the error wgpu
    /// reported (it ran out of memory for the copy).
    pub fn flush_to_buffer(&mut self, buf_handle: i64) -> (r: Result<WriteReceipt, GpuError>)
        requires
            old(self).wf(),
            old(self)@.ready,
            old(self)@.write_allowed(buf_handle, 0, 4 * old(self)@.data.len() as int),
        ensures
            !(final(self).last_scope().0 || final(self).last_scope().1) ==> r is Ok,
            final(self).last_scope().0 ==> r == Err::<WriteReceipt, GpuError>(GpuError::Validation),
            !final(self).last_scope().0 && final(self).last_scope().1 ==> r == Err::<WriteReceipt, GpuError>(
                GpuError::OutOfMemory,
            ),
            final(self).wf(),
            final(self)@ == old(self)@.with_write(buf_handle, 0, 4 * old(self)@.data.len()),
            r matches Ok(w) ==> w.view() == (BufferWrite {
                buffer: buf_handle as nat,
                offset: 0,
                bytes: old(self)@.bytes_of(old(self)@.data),
            }),
    {
        let bytes = self.data_bytes();
        proof {
            lemma_words_bytes_len(self@.data, self.little_endian);
        }
        self.write_scoped(buf_handle, 0, bytes.as_slice())
    }

    /// Schedules a 32-bit float, given by its bit pattern, to be written at
    /// `byte_offset` into buffer `buf_handle`, in the runtime's byte order;
    /// the queue's log gains the write.
    pub fn write_f32_at(&mut self, buf_handle: i64, byte_offset: i64, value_bits: u32) -> (r: Result<
        WriteReceipt,
        GpuError,
    >)
        requires
            old(self).wf(),
            old(self)@.ready,
            old(self)@.write_allowed(buf_handle, byte_offset as int, 4),
        ensures
            !(final(self).last_scope().0 || final(self).last_scope().1) ==> r is Ok,
            final(self).last_scope().0 ==> r == Err::<WriteReceipt, GpuError>(GpuError::Validation),
            !final(self).last_scope().0 && final(self).last_scope().1 ==> r == Err::<WriteReceipt, GpuError>(
                GpuError::OutOfMemory,
            ),
            final(self).wf(),
            final(self)@ == old(self)@.with_write(buf_handle, byte_offset as u64, 4),
            r matches Ok(w) ==> w.view() == (BufferWrite {
                buffer: buf_handle as nat,
                offset: byte_offset as u64,
                bytes: word_bytes(value_bits, old(self)@.little_endian),
            }),
    {
        self.write_word_at(buf_handle, byte_offset, value_bits)
    }

    /// Schedules the low 32 bits of `value` to be written at `byte_offset`
    /// into buffer `buf_handle`, in the runtime's byte order; the queue's log
    /// gains the write.
    pub fn write_u32_at(&mut self, buf_handle: i64, byte_offset: i64, value: i64) -> (r: Result<
        WriteReceipt,
        GpuError,
    >)
        requires
            old(self).wf(),
            old(self)@.ready,
            old(self)@.write_allowed(buf_handle, byte_offset as int, 4),
        ensures
            !(final(self).last_scope().0 || final(self).last_scope().1) ==> r is Ok,
            final(self).last_scope().0 ==> r == Err::<WriteReceipt, GpuError>(GpuError::Validation),
            !final(self).last_scope().0 && final(self).last_scope().1 ==> r == Err::<WriteReceipt, GpuError>(
                GpuError::OutOfMemory,
            ),
            final(self).wf(),
            final(self)@ == old(self)@.with_write(buf_handle, byte_offset as u64, 4),
            r matches Ok(w) ==> w.view() == (BufferWrite {
                buffer: buf_handle as nat,
                offset: byte_offset as u64,
                bytes: word_bytes(low_word(value), old(self)@.little_endian),
            }),
    {
        proof {
            lemma_low_word(value);
        }
        self.write_word_at(buf_handle, byte_offset, value as u32)
    }

    fn write_word_at(&mut self, buf_handle: i64, byte_offset: i64, word: u32) -> (r: Result<WriteReceipt, GpuError>)
        requires
            old(self).wf(),
            old(self)@.ready,
            old(self)@.write_allowed(buf_handle, byte_offset as int, 4),
        ensures
            !(final(self).last_scope().0 || final(self).last_scope().1) ==> r is Ok,
            final(self).last_scope().0 ==> r == Err::<WriteReceipt, GpuError>(GpuError::Validation),
            !final(self).last_scope().0 && final(self).last_scope().1 ==> r == Err::<WriteReceipt, GpuError>(
                GpuError::OutOfMemory,
            ),
            final(self).wf(),
            final(self)@ == old(self)@.with_write(buf_handle, byte_offset as u64, 4),
            r matches Ok(w) ==> w.view() == (BufferWrite {
                buffer: buf_handle as nat,
                offset: byte_offset as u64,
                bytes: word_bytes(word, old(self)@.little_endian),
            }),
    {
        let mut bytes: Vec<u8> = Vec::new();
        push_word_bytes(&mut bytes, word, self.little_endian);
        assert(bytes@ =~= word_bytes(word, self.little_endian));
        self.write_scoped(buf_handle, byte_offset as u64, bytes.as_slice())
    }
}

impl GpuRuntime {
    /// Encodes and submits one frame on an acquired surface texture, under
    /// the open error scope `scope`: a compute pass that dispatches `tiles_x`
    /// by `tiles_y` by 1 workgroups of `compute_pipeline` with bind group
    /// `compute_bg`, then a render pass into the frame's texture, cleared to
    /// `clear` and stored, that draws vertices 0..6 of one instance with
    /// `render_pipeline` and `render_bg`; one submission of both. The result
    /// is what was submitted.
    pub fn encode_frame(
        &self,
        scope: &mut ErrorScope,
        frame: &GpuFrame,
        compute_pipeline: i64,
        compute_bg: i64,
        render_pipeline: i64,
        render_bg: i64,
        tiles_x: u32,
        tiles_y: u32,
        clear: wgpu::Color,
    ) -> (r: Submitted)
        requires
            self.tables_wf(),
            self.objects_belong(old(scope).key()),
            handle_in(compute_pipeline, self@.compute_pipelines.len()),
            handle_in(render_pipeline, self@.render_pipelines.len()),
            self@.fits_group0(compute_bg, PipelineRef::Compute(compute_pipeline as nat)),
            self@.fits_group0(render_bg, PipelineRef::Render(render_pipeline as nat)),
        ensures
            r.passes().len() == 2,
            r.passes()[0].kind == PassKind::Compute,
            r.passes()[0].commands[2] == PassCommand::Dispatch(tiles_x, tiles_y, 1),
            r.passes()[1].kind == PassKind::Render,
            r.passes()[1].target == Some(RenderTarget { texture: frame.target(), clear, store: true }),
            r.passes()[1].commands[2] == PassCommand::Draw(0, 6, 0, 1),
            r.passes() == frame_passes(
                compute_pipeline as usize,
                compute_bg as usize,
                render_pipeline as usize,
                render_bg as usize,
                tiles_x,
                tiles_y,
                clear,
                frame.target(),
            ),
            final(scope).device().same_device(old(scope).device()),
            final(scope).device().writes() == old(scope).device().writes(),
            final(scope).device().submissions() == old(scope).device().submissions() + 1,
    {
        assert(compute_pipeline < self.compute_pipelines.len());
        assert(render_pipeline < self.render_pipelines.len());
        assert(compute_bg < self.bind_groups.len());
        assert(render_bg < self.bind_groups.len());
        let cp = &self.compute_pipelines[compute_pipeline as usize];
        let cbg = &self.bind_groups[compute_bg as usize];
        let rp = &self.render_pipelines[render_pipeline as usize];
        let rbg = &self.bind_groups[render_bg as usize];
        let view = gpu_calls::frame_view(frame);
        let commands = {
            let mut encoder = gpu_calls::command_encoder(&*scope);
            let mut pass = gpu_calls::begin_compute(&mut encoder);
            gpu_calls::compute_set_pipeline(&mut pass, cp);
            gpu_calls::compute_set_bind_group(&mut pass, 0, cbg);
            gpu_calls::dispatch(&mut pass, tiles_x, tiles_y, 1);
            let compute_log = gpu_calls::end_compute(pass);
            encoder.record(compute_log);
            let mut rpass = gpu_calls::begin_render(&mut encoder, &view, clear, true);
            gpu_calls::render_set_pipeline(&mut rpass, rp);
            gpu_calls::render_set_bind_group(&mut rpass, 0, rbg);
            gpu_calls::draw(&mut rpass, 0, 6, 0, 1);
            let render_log = gpu_calls::end_render(rpass);
            encoder.record(render_log);
            let ghost expected = frame_passes(
                compute_pipeline as usize,
                compute_bg as usize,
                render_pipeline as usize,
                render_bg as usize,
                tiles_x,
                tiles_y,
                clear,
                frame.target(),
            );
            assert(cp.handle() == compute_pipeline as usize);
            assert(rp.handle() == render_pipeline as usize);
            assert(cbg.handle() == compute_bg as usize);
            assert(rbg.handle() == render_bg as usize);
            assert(compute_log.view().commands =~= expected[0].commands);
            assert(render_log.view().commands =~= expected[1].commands);
            assert(compute_log.view() == expected[0]);
            assert(render_log.view() == expected[1]);
            assert(encoder.passes() =~= expected);
            gpu_calls::finish(encoder)
        };
        gpu_calls::submit(scope, commands)
    }

    /// Draws one frame under error scopes of the device: acquires the
    /// surface's next texture and, if there is one, does what `encode_frame`
    /// does with it, and hands the frame back to be presented. If the surface
    /// hands out none, nothing is submitted and the reason comes back; if
    /// the scopes caught an error on the way, the answer is `Rejected`.
    /// Nothing changes but the count of submissions.
    pub fn render_frame(
        &mut self,
        compute_pipeline: i64,
        compute_bg: i64,
        render_pipeline: i64,
        render_bg: i64,
        tiles_x: u32,
        tiles_y: u32,
        clear: wgpu::Color,
    ) -> (r: Result<FrameReceipt, FrameError>)
        requires
            old(self).wf(),
            old(self)@.ready,
            old(self)@.has_surface,
            handle_in(compute_pipeline, old(self)@.compute_pipelines.len()),
            handle_in(render_pipeline, old(self)@.render_pipelines.len()),
            old(self)@.fits_group0(compute_bg, PipelineRef::Compute(compute_pipeline as nat)),
            old(self)@.fits_group0(render_bg, PipelineRef::Render(render_pipeline as nat)),
        ensures
            r matches Ok(f) ==> {
                &&& f.passes().len() == 2
                &&& f.passes()[0].kind == PassKind::Compute
                &&& f.passes()[0].commands[2] == PassCommand::Dispatch(tiles_x, tiles_y, 1)
                &&& f.passes()[1].kind == PassKind::Render
                &&& f.passes()[1].target == Some(RenderTarget { texture: f.frame.target(), clear, store: true })
                &&& f.passes()[1].commands[2] == PassCommand::Draw(0, 6, 0, 1)
            },
            r == Err::<FrameReceipt, FrameError>(FrameError::Rejected) <==> (final(self).last_scope().0
                || final(self).last_scope().1),
            final(self).wf(),
            final(self)@ == old(self)@ || final(self)@ == old(self)@.with_submission(),
            r matches Ok(f) ==> final(self)@ == old(self)@.with_submission(),
            r matches Ok(f) ==> f.passes() == frame_passes(
                compute_pipeline as usize,
                compute_bg as usize,
                render_pipeline as usize,
                render_bg as usize,
                tiles_x,
                tiles_y,
                clear,
                f.frame.target(),
            ),
    {
        let ghost key = self.device_key();
        let mut scope = gpu_calls::push_error_scope(self.device.take().unwrap());
        let drawn = match gpu_calls::current_texture(&scope, self.surface.as_ref().unwrap()) {
            Ok(frame) => {
                let submitted = self.encode_frame(
                    &mut scope,
                    &frame,
                    compute_pipeline,
                    compute_bg,
                    render_pipeline,
                    render_bg,
                    tiles_x,
                    tiles_y,
                    clear,
                );
                Ok(FrameReceipt { frame, submitted })
            },
            Err(e) => Err(gpu_calls::frame_error(e)),
        };
        let ghost drew = drawn is Ok;
        let (device, caught) = gpu_calls::pop_error_scope(scope);
        self.device = Some(device);
        self.last_scope = caught;
        proof {
            if drew {
                assert(self@ =~= old(self)@.with_submission());
            } else {
                assert(self@ =~= old(self)@);
            }
        }
        frame_outcome(drawn, caught)
    }

    /// The configured surface width, or 1 before `init`.
    pub fn width(&self) -> (r: u32)
        ensures
            r == self@.width(),
    {
        match &self.surface {
            Some(s) => s.get_width(),
            None => 1,
        }
    }

    /// The configured surface height, or 1 before `init`.
    pub fn height(&self) -> (r: u32)
        ensures
            r == self@.height(),
    {
        match &self.surface {
            Some(s) => s.get_height(),
            None => 1,
        }
    }
}

/// Queries that let a caller test a precondition before it calls.
impl GpuRuntime {
    /// A device and its queue are installed.
    pub fn is_ready(&self) -> (r: bool)
        ensures
            r == self@.ready,
    {
        self.device.is_some()
    }

    /// The installed device's limits, if a device is installed.
    pub fn device_limits(&self) -> (r: Option<DeviceLimits>)
        ensures
            r == (if self@.ready {
                Some(self@.limits)
            } else {
                None
            }),
    {
        match &self.device {
            Some(d) => Some(d.get_limits()),
            None => None,
        }
    }

    /// A surface is installed.
    pub fn has_surface(&self) -> (r: bool)
        ensures
            r == self@.has_surface,
    {
        self.surface.is_some()
    }

    /// A surface texture format is installed.
    pub fn has_format(&self) -> (r: bool)
        ensures
            r == self@.format is Some,
    {
        self.format.is_some()
    }

    pub fn source_count(&self) -> (r: usize)
        ensures
            r == self@.sources.len(),
    {
        self.shader_sources.len()
    }

    pub fn shader_count(&self) -> (r: usize)
        ensures
            r == self@.shaders.len(),
    {
        self.shaders.len()
    }

    pub fn buffer_count(&self) -> (r: usize)
        ensures
            r == self@.buffers.len(),
    {
        self.buffers.len()
    }

    pub fn compute_pipeline_count(&self) -> (r: usize)
        ensures
            r == self@.compute_pipelines.len(),
    {
        self.compute_pipelines.len()
    }

    pub fn render_pipeline_count(&self) -> (r: usize)
        ensures
            r == self@.render_pipelines.len(),
    {
        self.render_pipelines.len()
    }

    pub fn bind_group_count(&self) -> (r: usize)
        ensures
            r == self@.bind_groups.len(),
    {
        self.bind_groups.len()
    }

    /// The number of words in the data stream.
    pub fn data_len(&self) -> (r: usize)
        ensures
            r == self@.data.len(),
    {
        self.data_chunks.len()
    }

    /// The number of pending bindings.
    pub fn pending_len(&self) -> (r: usize)
        ensures
            r == self@.pending.len(),
    {
        self.pending_bindings.len()
    }

    /// The size and usage bits of buffer `h`, if there is one.
    pub fn buffer_desc(&self, h: i64) -> (r: Option<BufferDesc>)
        ensures
            r == (if handle_in(h, self@.buffers.len()) {
                Some(self@.buffers[h as int])
            } else {
                None
            }),
    {
        if handle_below(h, self.buffers.len()) {
            let b = &self.buffers[h as usize];
            Some(BufferDesc { size: b.size(), usage: b.usage(), mapped_at_creation: b.mapped_at_creation() })
        } else {
            None
        }
    }

    /// A write of `len` bytes at `offset` into buffer `h` would pass wgpu's checks.
    pub fn write_allowed(&self, h: i64, offset: i64, len: usize) -> (r: bool)
        ensures
            r == self@.write_allowed(h, offset as int, len as int),
    {
        match self.buffer_desc(h) {
            Some(desc) => write_fits_exec(desc, offset, len),
            None => false,
        }
    }

    /// The installed device would accept a new buffer of `size` bytes with
    /// usage bits `usage`, truncated to 32 bits.
    pub fn buffer_allowed(&self, size: i64, usage: i64) -> (r: bool)
        ensures
            r == (self@.ready && size >= 0 && buffer_acceptable(size as u64, usage as u32, self@.limits)),
    {
        match &self.device {
            Some(d) => {
                let limits = d.get_limits();
                size >= 0 && (size as u64) <= limits.max_buffer_size && buffer_usage_acceptable(usage, limits)
            },
            None => false,
        }
    }

    /// Every pending binding names an existing resource.
    pub fn bindings_resolvable(&self) -> (r: bool)
        ensures
            r == self@.bindings_resolvable(),
    {
        let n = self.pending_bindings.len();
        let mut i: usize = 0;
        while i < n
            invariant
                n == self@.pending.len(),
                i <= n,
                forall|j: int| 0 <= j < i ==> self@.binding_valid(#[trigger] self@.pending[j]),
            decreases n - i,
        {
            let ok = match self.pending_bindings[i] {
                BindingEntry::Buffer(h) => handle_below(h, self.buffers.len()),
                BindingEntry::Texture(h) => handle_below(h, self.textures.len()),
                BindingEntry::Sampler(h) => handle_below(h, self.samplers.len()),
            };
            if !ok {
                assert(!self@.binding_valid(self@.pending[i as int]));
                return false;
            }
            i += 1;
        }
        true
    }

    /// Bind group `bg` was made for layout 0 of compute pipeline `pipeline`
    /// (if `compute`) or of render pipeline `pipeline` (if not).
    pub fn bind_group_fits_group0(&self, bg: i64, pipeline: i64, compute: bool) -> (r: bool)
        ensures
            r == (pipeline >= 0 && self@.fits_group0(
                bg,
                if compute {
                    PipelineRef::Compute(pipeline as nat)
                } else {
                    PipelineRef::Render(pipeline as nat)
                },
            )),
    {
        if handle_below(bg, self.bind_groups.len()) && pipeline >= 0 {
            let (c, p, g) = self.bind_groups[bg as usize].layout_origin();
            c == compute && p as u64 == pipeline as u64 && g == 0
        } else {
            false
        }
    }
}

/// wgpu would accept usage bits `usage`, truncated to 32 bits, for a new
/// buffer on a device with `limits`.
pub fn buffer_usage_acceptable(usage: i64, limits: DeviceLimits) -> (r: bool)
    ensures
        r == usage_acceptable(usage as u32, limits),
{
    let u = (usage as u32) & USAGE_KNOWN_BITS;
    u != 0 && (u & USAGE_MAP_WRITE == 0 || u & !(USAGE_MAP_WRITE | USAGE_COPY_SRC) == 0) && (u
        & USAGE_MAP_READ == 0 || u & !(USAGE_MAP_READ | USAGE_COPY_DST) == 0) && (u & USAGE_INDEX == 0
        || u & USAGE_SHARED_WITH_INDEX == 0 || limits.unrestricted_index_buffer) && (u & USAGE_INDIRECT
        == 0 || limits.indirect_execution)
}

/// `h` is a handle of a table of `len` entries.
fn handle_below(h: i64, len: usize) -> (r: bool)
    ensures
        r == handle_in(h, len as nat),
{
    h >= 0 && (h as u64) < (len as u64)
}

fn write_fits_exec(desc: BufferDesc, offset: i64, len: usize) -> (r: bool)
    ensures
        r == write_fits(desc, offset as int, len as int),
{
    if len == 0 {
        return true;
    }
    desc.usage & USAGE_COPY_DST != 0 && offset >= 0 && offset % 4 == 0 && len % 4 == 0 && (len as u64)
        <= desc.size && (offset as u64) <= desc.size - (len as u64)
}

/// Keeping the low 32 bits of a signed value is reducing it modulo 2^32.
proof fn lemma_low_word(v: i64)
    ensures
        v as u32 == low_word(v),
{
    assert(((v as u32) as int) == (v as int) % 0x1_0000_0000) by (bit_vector);
}

/// The bytes of `n` words are `4 * n` bytes.
pub proof fn lemma_words_bytes_len(words: Seq<u32>, little_endian: bool)
    ensures
        words_bytes(words, little_endian).len() == 4 * words.len(),
    decreases words.len(),
{
    if words.len() > 0 {
        lemma_words_bytes_len(words.drop_last(), little_endian);
    }
}

} // verus!
