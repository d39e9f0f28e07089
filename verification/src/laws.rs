//! Properties of the runtime that span several operations.
use vstd::prelude::*;
use crate::model::{
    BindGroupOrigin, BindingEntry, BufferDesc, ComputeOrigin, PipelineRef, RenderOrigin, RuntimeState,
    handle_in, le_bytes, low_word, word_bytes, words_bytes,
};
use crate::model::{
    DeviceLimits, GpuError, InitError, PassCommand, PassKind, RenderTarget, USAGE_STORAGE, at_least_one, frame_passes,
};
use crate::runtime::{scope_result, surface_size_for};
use crate::scene::{pixel_bytes, scene_buffers};
use crate::tween::{spec_plays_reversed, spec_stagger_half_steps};

verus! {

/// Every operation keeps every handle: after it, each table of the old state
/// is a prefix of the same table of the new one, so a handle stays valid and
/// keeps naming the same object. The relation is reflexive and transitive,
/// so this holds across any sequence of operations.
pub proof fn law_operations_keep_handles(
    s: RuntimeState,
    t: RuntimeState,
    u: RuntimeState,
    source: Seq<char>,
    desc: BufferDesc,
    compute: ComputeOrigin,
    render: RenderOrigin,
    group: BindGroupOrigin,
    entry: BindingEntry,
    word: u32,
    is_f32: bool,
)
    ensures
        s.handles_kept_by(s),
        s.handles_kept_by(s.with_source(source)),
        s.handles_kept_by(s.with_shader(source)),
        s.handles_kept_by(s.with_buffer(desc)),
        s.handles_kept_by(s.with_compute_pipeline(compute)),
        s.handles_kept_by(s.with_render_pipeline(render)),
        s.handles_kept_by(s.with_bind_group(group)),
        s.handles_kept_by(s.with_binding(entry)),
        s.handles_kept_by(s.with_bindings_cleared()),
        s.handles_kept_by(s.with_word(word, is_f32)),
        s.handles_kept_by(s.with_data_cleared()),
        s.handles_kept_by(t) && t.handles_kept_by(u) ==> s.handles_kept_by(u),
{
    assert(s.sources.is_prefix_of(s.sources.push(source)));
    assert(s.shaders.is_prefix_of(s.shaders.push(source)));
    assert(s.buffers.is_prefix_of(s.buffers.push(desc)));
    assert(s.compute_pipelines.is_prefix_of(s.compute_pipelines.push(compute)));
    assert(s.render_pipelines.is_prefix_of(s.render_pipelines.push(render)));
    assert(s.bind_groups.is_prefix_of(s.bind_groups.push(group)));
}

/// A bind group that fits layout 0 of a pipeline keeps fitting it while
/// more objects are made: a scene set up once can be drawn in every frame.
pub proof fn law_fitting_bind_groups_stay_fitting(
    s: RuntimeState,
    t: RuntimeState,
    bg: i64,
    pipeline: PipelineRef,
)
    requires
        s.handles_kept_by(t),
        s.fits_group0(bg, pipeline),
    ensures
        t.fits_group0(bg, pipeline),
{
    assert(s.bind_groups[bg as int] == t.bind_groups[bg as int]);
}

/// A new object gets the handle equal to the old size of its table; in the
/// new state that handle is valid and names the object, and no other handle
/// changes what it names.
pub proof fn law_new_handle_names_new_object(s: RuntimeState, desc: BufferDesc, group: BindGroupOrigin)
    requires
        s.buffers.len() < i64::MAX,
        s.bind_groups.len() < i64::MAX,
    ensures
        handle_in(s.buffers.len() as i64, s.with_buffer(desc).buffers.len()),
        s.with_buffer(desc).buffers[s.buffers.len() as int] == desc,
        !handle_in(s.buffers.len() as i64, s.buffers.len()),
        handle_in(s.bind_groups.len() as i64, s.with_bind_group(group).bind_groups.len()),
        s.with_bind_group(group).bind_groups[s.bind_groups.len() as int] == group,
        !handle_in(s.bind_groups.len() as i64, s.bind_groups.len()),
{
}

/// Starting a bind group and adding entries leaves exactly those entries
/// pending, in the order they were added; nothing else changes.
pub proof fn law_bindings_accumulate_in_order(s: RuntimeState, entries: Seq<BindingEntry>)
    ensures
        s.with_bindings_cleared().with_bindings(entries).pending == entries,
        s.with_bindings_cleared().with_bindings(entries) == (RuntimeState { pending: entries, ..s }),
    decreases entries.len(),
{
    if entries.len() > 0 {
        law_bindings_accumulate_in_order(s, entries.drop_last());
        assert(entries.drop_last().push(entries.last()) =~= entries);
    }
}

/// Starting the data stream and pushing words leaves exactly those words in
/// the stream, in order, each with its float flag; nothing else changes.
pub proof fn law_data_stream_accumulates_in_order(s: RuntimeState, words: Seq<(u32, bool)>)
    ensures
        s.with_data_cleared().with_words(words).data == words.map_values(|w: (u32, bool)| w.0),
        s.with_data_cleared().with_words(words).data_is_f32 == words.map_values(|w: (u32, bool)| w.1),
        s.with_data_cleared().with_words(words) == (RuntimeState {
            data: words.map_values(|w: (u32, bool)| w.0),
            data_is_f32: words.map_values(|w: (u32, bool)| w.1),
            ..s
        }),
    decreases words.len(),
{
    if words.len() > 0 {
        law_data_stream_accumulates_in_order(s, words.drop_last());
        assert(words.drop_last().map_values(|w: (u32, bool)| w.0).push(words.last().0)
            =~= words.map_values(|w: (u32, bool)| w.0));
        assert(words.drop_last().map_values(|w: (u32, bool)| w.1).push(words.last().1)
            =~= words.map_values(|w: (u32, bool)| w.1));
    }
}

/// What `flush_to_buffer` writes after `begin_data` and a run of pushes is
/// exactly the pushed words, in order, four bytes each, all in the
/// runtime's one byte order; so two flushes of one stream write the same bytes.
pub proof fn law_flush_writes_the_pushed_words(s: RuntimeState, words: Seq<(u32, bool)>)
    ensures
        s.bytes_of(s.with_data_cleared().with_words(words).data) == words_bytes(
            words.map_values(|w: (u32, bool)| w.0),
            s.little_endian,
        ),
        s.with_data_cleared().with_words(words).little_endian == s.little_endian,
{
    law_data_stream_accumulates_in_order(s, words);
}

/// The bytes of a run of words are the bytes of each word in turn: the
/// bytes of word `i` sit at `4 * i .. 4 * i + 4`.
pub proof fn law_word_bytes_in_place(words: Seq<u32>, little_endian: bool, i: int)
    requires
        0 <= i < words.len(),
    ensures
        words_bytes(words, little_endian).len() == 4 * words.len(),
        words_bytes(words, little_endian).subrange(4 * i, 4 * i + 4) == word_bytes(words[i], little_endian),
    decreases words.len(),
{
    crate::runtime::lemma_words_bytes_len(words, little_endian);
    crate::runtime::lemma_words_bytes_len(words.drop_last(), little_endian);
    let prefix = words_bytes(words.drop_last(), little_endian);
    if i < words.len() - 1 {
        law_word_bytes_in_place(words.drop_last(), little_endian, i);
        assert(words_bytes(words, little_endian).subrange(4 * i, 4 * i + 4) =~= prefix.subrange(4 * i, 4 * i + 4));
    } else {
        assert(words_bytes(words, little_endian).subrange(4 * i, 4 * i + 4) =~= word_bytes(words.last(), little_endian));
    }
}

/// Making an object leaves the pending bindings and the data stream as they
/// were: a bind group can be made twice from the same bindings, and a
/// stream can be flushed, or more objects made, before it is restarted.
pub proof fn law_objects_leave_builders_alone(
    s: RuntimeState,
    source: Seq<char>,
    desc: BufferDesc,
    compute: ComputeOrigin,
    render: RenderOrigin,
    group: BindGroupOrigin,
)
    ensures
        s.with_source(source).pending == s.pending && s.with_source(source).data == s.data,
        s.with_shader(source).pending == s.pending && s.with_shader(source).data == s.data,
        s.with_buffer(desc).pending == s.pending && s.with_buffer(desc).data == s.data,
        s.with_compute_pipeline(compute).pending == s.pending && s.with_compute_pipeline(compute).data
            == s.data,
        s.with_render_pipeline(render).pending == s.pending && s.with_render_pipeline(render).data
            == s.data,
        s.with_bind_group(group).pending == s.pending && s.with_bind_group(group).data == s.data,
{
}

/// Compute and render bind groups come from one table, and making one keeps
/// the pending bindings: two bind groups made in a row from the pending
/// bindings, of either kind, get consecutive handles and both hold the
/// pending bindings; made for the same pipeline and group, they are equal.
pub proof fn law_bind_groups_share_one_table(
    s: RuntimeState,
    first: PipelineRef,
    first_group: u32,
    second: PipelineRef,
    second_group: u32,
)
    ensures
        ({
            let s1 = s.with_bind_group(s.pending_group(first, first_group));
            let s2 = s1.with_bind_group(s1.pending_group(second, second_group));
            let h = s.bind_groups.len() as int;
            &&& s1.bind_groups.len() == h + 1
            &&& s2.bind_groups.len() == h + 2
            &&& s2.bind_groups[h] == s.pending_group(first, first_group)
            &&& s2.bind_groups[h + 1] == s.pending_group(second, second_group)
            &&& s2.pending == s.pending
            &&& (first == second && first_group == second_group) ==> s2.bind_groups[h] == s2.bind_groups[h + 1]
        }),
{
}

/// Before `init` the runtime reports a 1 by 1 surface.
pub proof fn law_fresh_size_is_one(s: RuntimeState)
    requires
        s.is_fresh(),
    ensures
        s.width() == 1,
        s.height() == 1,
{
}

/// The little-endian bytes of a word give the word back.
pub proof fn law_le_bytes_value(w: u32)
    ensures
        le_bytes(w).len() == 4,
        le_bytes(w)[0] + 256 * le_bytes(w)[1] + 65536 * le_bytes(w)[2] + 16777216 * le_bytes(w)[3]
            == w,
{
    let b = le_bytes(w);
    assert(b[0] == w % 256);
    assert(b[1] == (w / 256) % 256);
    assert(b[2] == (w / 65536) % 256);
    assert(b[3] == w / 16777216);
    assert(w % 256 + 256 * ((w / 256) % 256) + 65536 * ((w / 65536) % 256) + 16777216 * (w
        / 16777216) == w) by (nonlinear_arith);
}

/// A value that fits in 32 bits is stored unchanged by `push_u32`; a
/// negative one wraps around: -1 becomes `u32::MAX`.
pub proof fn law_low_word_of_small_values(v: i64)
    ensures
        0 <= v <= u32::MAX ==> low_word(v) == v,
        -0x1_0000_0000 <= v < 0 ==> low_word(v) == v + 0x1_0000_0000,
{
}

/// Staggering from the centre is symmetric: item `i` and item `total - 1 - i`
/// get the same delay, and with an odd count the middle item gets none.
pub proof fn law_stagger_symmetric(index: int, total: int)
    requires
        0 <= index < total,
    ensures
        spec_stagger_half_steps(index, total) == spec_stagger_half_steps(total - 1 - index, total),
        total % 2 == 1 ==> spec_stagger_half_steps((total - 1) / 2, total) == 0,
        spec_stagger_half_steps(index, total) >= 0,
{
}

/// An alternating tween changes direction at every loop: from loop 0 on,
/// it runs forwards in even loops and backwards in odd ones; a tween that
/// does not alternate always runs forwards.
pub proof fn law_direction_alternates(n: int)
    requires
        0 <= n,
    ensures
        !spec_plays_reversed(true, 0),
        spec_plays_reversed(true, n + 1) == !spec_plays_reversed(true, n),
        !spec_plays_reversed(false, n),
{
}

/// The frame that is drawn is kept: of the two passes of a frame, the
/// compute pass dispatches `tiles_x` by `tiles_y` by 1 workgroups, and the
/// render pass draws into the frame's texture, clears it to `clear` first
/// and stores what it drew, with one fullscreen draw of six vertices.
pub proof fn law_drawn_frame_is_stored(
    compute_pipeline: usize,
    compute_bg: usize,
    render_pipeline: usize,
    render_bg: usize,
    tiles_x: u32,
    tiles_y: u32,
    clear: wgpu::Color,
    texture: wgpu::Texture,
)
    ensures
        ({
            let p = frame_passes(compute_pipeline, compute_bg, render_pipeline, render_bg, tiles_x, tiles_y, clear, texture);
            &&& p.len() == 2
            &&& p[0].kind == PassKind::Compute
            &&& p[0].target is None
            &&& p[0].commands.contains(PassCommand::Dispatch(tiles_x, tiles_y, 1))
            &&& p[1].kind == PassKind::Render
            &&& p[1].target == Some(RenderTarget { texture, clear, store: true })
            &&& p[1].commands.contains(PassCommand::Draw(0, 6, 0, 1))
        }),
{
    let p = frame_passes(compute_pipeline, compute_bg, render_pipeline, render_bg, tiles_x, tiles_y, clear, texture);
    assert(p[0].commands[2] == PassCommand::Dispatch(tiles_x, tiles_y, 1));
    assert(p[1].commands[2] == PassCommand::Draw(0, 6, 0, 1));
}

/// The scene's pixel buffer has four bytes for every pixel of the surface,
/// and is a storage buffer: its size divided by 4 is the number of pixels.
pub proof fn law_pixel_buffer_holds_every_pixel(s: RuntimeState)
    requires
        4 * s.width() * s.height() <= u32::MAX,
    ensures
        scene_buffers(s)[0].size == 4 * s.width() * s.height(),
        scene_buffers(s)[0].size / 4 == s.width() * s.height(),
        scene_buffers(s)[0].usage == USAGE_STORAGE,
{
    assert(pixel_bytes(s) == 4 * s.width() * s.height()) by (nonlinear_arith)
        requires
            pixel_bytes(s) == s.width() * s.height() * 4,
    ;
}

/// A bind group made from the pending bindings follows the layout group it
/// was asked for, of the pipeline it was asked for, and holds exactly the
/// pending bindings; it is the newest bind group.
pub proof fn law_bind_group_follows_requested_group(s: RuntimeState, pipeline: PipelineRef, group: u32)
    ensures
        s.pending_group(pipeline, group).group == group,
        s.pending_group(pipeline, group).pipeline == pipeline,
        s.pending_group(pipeline, group).entries == s.pending,
        s.with_bind_group(s.pending_group(pipeline, group)).bind_groups.last().group == group,
{
}

/// A creation succeeds exactly when its error scopes caught nothing, with
/// the next handle of its table; a caught validation error wins over a
/// caught out-of-memory error.
pub proof fn law_creation_follows_its_error_scopes(caught: (bool, bool), h: i64)
    ensures
        !caught.0 && !caught.1 ==> scope_result(caught, h) == Ok::<i64, GpuError>(h),
        caught.0 ==> scope_result(caught, h) == Err::<i64, GpuError>(GpuError::Validation),
        !caught.0 && caught.1 ==> scope_result(caught, h) == Err::<i64, GpuError>(GpuError::OutOfMemory),
        scope_result(caught, h) is Ok <==> !(caught.0 || caught.1),
{
}

/// A surface size within the device's largest 2D texture is kept as asked,
/// 0 being raised to 1; only a side larger than that texture is refused,
/// and a refused size stays refused when it grows.
pub proof fn law_surface_size_refuses_only_oversized_sides(limits: DeviceLimits, width: u32, height: u32, w2: u32, h2: u32)
    ensures
        at_least_one(width) <= limits.max_texture_dimension_2d && at_least_one(height)
            <= limits.max_texture_dimension_2d ==> surface_size_for(limits, width, height) == Ok::<(u32, u32), InitError>(
            (at_least_one(width), at_least_one(height)),
        ),
        surface_size_for(limits, width, height) is Err ==> at_least_one(width) > limits.max_texture_dimension_2d
            || at_least_one(height) > limits.max_texture_dimension_2d,
        surface_size_for(limits, width, height) is Err && width <= w2 && height <= h2 ==> surface_size_for(
            limits,
            w2,
            h2,
        ) is Err,
{
}

} // verus!
