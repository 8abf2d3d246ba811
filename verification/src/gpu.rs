//! Bookkeeping of the GPU resize pipeline: which device resources a frame can
//! reuse, how the read-back buffer is laid out, and how the bytes that come
//! back are turned into a tightly packed RGBA image.
//!
//! The device itself is driven by the caller; nothing here touches it.

use vstd::prelude::*;
use vstd::arithmetic::div_mod::*;
use vstd::arithmetic::mul::*;

verus! {

/// Pixels along one side of a compute workgroup.
pub const WORKGROUP_SIZE: u32 = 16;

/// Longest wait for the device, in milliseconds, before a frame is given up.
pub const GPU_TIMEOUT_MS: u64 = 1000;

/// Longest wait for the shared pipeline, in milliseconds, before the frame is
/// resized on the CPU instead.
pub const GPU_LOCK_WAIT_MS: u64 = 100;

/// Bytes of one tightly packed RGBA row.
pub open spec fn tight_row_bytes(width: int) -> int {
    4 * width
}

/// Bytes added to a row so that its length is a multiple of `align`.
pub open spec fn row_padding(row_bytes: int, align: int) -> int {
    (align - row_bytes % align) % align
}

/// Bytes of one row of the read-back buffer.
pub open spec fn padded_row_bytes(width: int, align: int) -> int {
    tight_row_bytes(width) + row_padding(tight_row_bytes(width), align)
}

/// Workgroups needed to cover `extent` pixels.
pub open spec fn workgroups_for(extent: int) -> int {
    (extent + WORKGROUP_SIZE as int - 1) / (WORKGROUP_SIZE as int)
}

/// Bytes of a tightly packed RGBA image.
pub open spec fn packed_len(width: int, height: int) -> int {
    4 * width * height
}

/// Byte `i` of the tightly packed image read out of a padded buffer whose
/// rows are `stride` bytes apart. A row that the buffer does not hold
/// completely is black.
pub open spec fn unpadded_byte(data: Seq<u8>, width: int, stride: int, i: int) -> u8 {
    let row = i / tight_row_bytes(width);
    let col = i % tight_row_bytes(width);
    if row * stride + tight_row_bytes(width) <= data.len() {
        data[row * stride + col]
    } else {
        0u8
    }
}

/// The tightly packed image read out of a padded buffer.
pub open spec fn unpadded_rows(data: Seq<u8>, width: int, height: int, stride: int) -> Seq<u8> {
    Seq::new(packed_len(width, height) as nat, |i: int| unpadded_byte(data, width, stride, i))
}

/// An all-black, fully transparent image.
pub open spec fn black_pixels(width: int, height: int) -> Seq<u8> {
    Seq::new(packed_len(width, height) as nat, |i: int| 0u8)
}

/// The padded row is the least multiple of `align` that holds a tight row.
pub proof fn lemma_padded_row_aligned(width: int, align: int)
    requires
        width >= 0,
        align > 0,
    ensures
        padded_row_bytes(width, align) % align == 0,
        tight_row_bytes(width) <= padded_row_bytes(width, align) < tight_row_bytes(width) + align,
        0 <= row_padding(tight_row_bytes(width), align) < align,
        tight_row_bytes(width) % align == 0 ==> row_padding(tight_row_bytes(width), align) == 0,
{
    let row = tight_row_bytes(width);
    let rem = row % align;
    lemma_fundamental_div_mod(row, align);
    lemma_mod_bound(row, align);
    if rem == 0 {
        lemma_mod_self_0(align);
        assert(row_padding(row, align) == 0);
    } else {
        lemma_small_mod((align - rem) as nat, align as nat);
        assert(row_padding(row, align) == align - rem);
        assert(row + (align - rem) == align * (row / align + 1)) by (nonlinear_arith)
            requires
                row == align * (row / align) + rem,
        ;
        lemma_mod_multiples_basic(row / align + 1, align);
        assert((align * (row / align + 1)) % align == 0) by {
            lemma_mul_is_commutative(align, row / align + 1);
        }
    }
}

/// How the read-back buffer of one target size is laid out.
#[derive(Clone, Copy, Debug, PartialEq, Eq, Structural)]
pub struct ReadbackLayout {
    /// Bytes of a tight row.
    pub bytes_per_row: u32,
    /// Bytes added to each row.
    pub padding: u32,
    /// Bytes of a row in the buffer.
    pub padded_bytes_per_row: u32,
    /// Bytes of the whole buffer.
    pub buffer_size: u64,
}

impl ReadbackLayout {
    /// The layout is the one that `width`, `height` and `align` determine.
    pub open spec fn describes(self, width: u32, height: u32, align: u32) -> bool {
        &&& self.bytes_per_row == tight_row_bytes(width as int)
        &&& self.padding == row_padding(tight_row_bytes(width as int), align as int)
        &&& self.padded_bytes_per_row == padded_row_bytes(width as int, align as int)
        &&& self.buffer_size == padded_row_bytes(width as int, align as int) * height
    }

    /// Lays out the read-back buffer for a `width` x `height` target on a
    /// device that wants rows aligned to `align` bytes. `None` when a padded
    /// row does not fit 32 bits.
    pub fn new(width: u32, height: u32, align: u32) -> (out: Option<ReadbackLayout>)
        requires
            align > 0,
        ensures
            out.is_some() <==> padded_row_bytes(width as int, align as int) <= u32::MAX,
            out matches Some(layout) ==> {
                &&& layout.describes(width, height, align)
                &&& layout.padded_bytes_per_row % align == 0
                &&& layout.padding < align
            },
    {
        proof {
            lemma_padded_row_aligned(width as int, align as int);
        }
        let row: u64 = 4 * (width as u64);
        let rem: u64 = row % (align as u64);
        let padding: u64 = if rem == 0 {
            0
        } else {
            align as u64 - rem
        };
        proof {
            lemma_mod_bound(row as int, align as int);
            if rem == 0 {
                lemma_mod_self_0(align as int);
            } else {
                lemma_small_mod((align - rem) as nat, align as nat);
            }
            assert(padding == row_padding(tight_row_bytes(width as int), align as int));
        }
        let padded: u64 = row + padding;
        if padded > u32::MAX as u64 {
            return None;
        }
        assert(padded * height <= u64::MAX) by (nonlinear_arith)
            requires
                padded <= u32::MAX,
                height <= u32::MAX,
        ;
        Some(
            ReadbackLayout {
                bytes_per_row: row as u32,
                padding: padding as u32,
                padded_bytes_per_row: padded as u32,
                buffer_size: padded * (height as u64),
            },
        )
    }
}

/// Workgroups needed along one axis of the target.
pub fn workgroup_count(extent: u32) -> (out: u32)
    ensures
        out == workgroups_for(extent as int),
        out as int * WORKGROUP_SIZE as int >= extent,
{
    ((extent as u64 + WORKGROUP_SIZE as u64 - 1) / (WORKGROUP_SIZE as u64)) as u32
}

/// An all-black image of the given size.
pub fn black_frame(width: u32, height: u32) -> (out: Vec<u8>)
    requires
        packed_len(width as int, height as int) <= usize::MAX,
    ensures
        out@ == black_pixels(width as int, height as int),
{
    assert(4 * width * height == 4 * (width * height)) by (nonlinear_arith);
    assert(width * height <= 4 * (width * height)) by (nonlinear_arith);
    let len: usize = 4 * (width as usize * height as usize);
    let out = vec![0u8; len];
    assert(out@ =~= black_pixels(width as int, height as int));
    out
}

/// Copies the rows of a padded read-back buffer into a tightly packed image,
/// dropping the padding. A row that `data` does not hold completely comes out
/// black.
pub fn strip_row_padding(data: &Vec<u8>, width: u32, height: u32, stride: u32) -> (out: Vec<u8>)
    requires
        packed_len(width as int, height as int) <= usize::MAX,
        stride >= tight_row_bytes(width as int),
    ensures
        out@ == unpadded_rows(data@, width as int, height as int, stride as int),
        out.len() == packed_len(width as int, height as int),
{
    let row_bytes: usize = 4 * (width as usize);
    let mut out: Vec<u8> = Vec::new();
    let mut row: usize = 0;
    while row < height as usize
        invariant
            row <= height,
            row_bytes == tight_row_bytes(width as int),
            stride >= row_bytes,
            packed_len(width as int, height as int) <= usize::MAX,
            out.len() == row * row_bytes,
            forall|i: int|
                0 <= i < out.len() ==> #[trigger] out[i] == unpadded_byte(
                    data@,
                    width as int,
                    stride as int,
                    i,
                ),
        decreases height - row,
    {
        assert((row + 1) * row_bytes <= packed_len(width as int, height as int)) by (nonlinear_arith)
            requires
                row < height,
                row_bytes == 4 * width,
        ;
        assert(row * stride <= 0xffff_ffff * 0xffff_ffff) by (nonlinear_arith)
            requires
                row <= 0xffff_ffff,
                stride <= 0xffff_ffff,
        ;
        let start: u64 = (row as u64) * (stride as u64);
        let complete = start + row_bytes as u64 <= data.len() as u64;
        let mut col: usize = 0;
        while col < row_bytes
            invariant
                col <= row_bytes,
                row < height,
                row_bytes == tight_row_bytes(width as int),
                stride >= row_bytes,
                start == row * stride,
                complete == (start + row_bytes <= data.len()),
                (row + 1) * row_bytes <= packed_len(width as int, height as int),
                packed_len(width as int, height as int) <= usize::MAX,
                out.len() == row * row_bytes + col,
                forall|i: int|
                    0 <= i < out.len() ==> #[trigger] out[i] == unpadded_byte(
                        data@,
                        width as int,
                        stride as int,
                        i,
                    ),
            decreases row_bytes - col,
        {
            let byte = if complete {
                data[(start as usize) + col]
            } else {
                0u8
            };
            proof {
                let i = row * row_bytes + col;
                assert(i < packed_len(width as int, height as int)) by (nonlinear_arith)
                    requires
                        i == row * row_bytes + col,
                        col < row_bytes,
                        (row + 1) * row_bytes <= packed_len(width as int, height as int),
                ;
                lemma_fundamental_div_mod_converse(i, row_bytes as int, row as int, col as int);
            }
            out.push(byte);
            col += 1;
        }
        row += 1;
        assert(out.len() == row * row_bytes) by (nonlinear_arith)
            requires
                out.len() == (row - 1) * row_bytes + row_bytes,
        ;
    }
    assert(out.len() == packed_len(width as int, height as int)) by (nonlinear_arith)
        requires
            out.len() == row * row_bytes,
            row == height,
            row_bytes == 4 * width,
    ;
    assert(out@ =~= unpadded_rows(data@, width as int, height as int, stride as int));
    out
}

/// What came back from the device for one frame.
pub enum Readback {
    /// No device is available.
    DeviceUnavailable,
    /// The device did not finish within the time limit.
    TimedOut,
    /// The buffer could not be mapped for reading.
    MapFailed,
    /// The mapped contents of the read-back buffer.
    Mapped(Vec<u8>),
}

/// The image that one outcome of the device yields for a target of
/// `width` x `height` read back with rows of `stride` bytes.
pub open spec fn readback_pixels(outcome: Readback, width: int, height: int, stride: int) -> Seq<
    u8,
> {
    match outcome {
        Readback::Mapped(data) => unpadded_rows(data@, width, height, stride),
        _ => black_pixels(width, height),
    }
}

/// Turns the outcome of the device into the resized image. Whatever went
/// wrong on the device, the result has the requested size: a black image
/// stands in for a frame that could not be read.
pub fn finish_readback(outcome: Readback, width: u32, height: u32, layout: &ReadbackLayout) -> (out:
    Vec<u8>)
    requires
        packed_len(width as int, height as int) <= usize::MAX,
        layout.bytes_per_row == tight_row_bytes(width as int),
        layout.padded_bytes_per_row >= layout.bytes_per_row,
    ensures
        out@ == readback_pixels(
            outcome,
            width as int,
            height as int,
            layout.padded_bytes_per_row as int,
        ),
        out.len() == packed_len(width as int, height as int),
{
    match outcome {
        Readback::Mapped(data) => strip_row_padding(
            &data,
            width,
            height,
            layout.padded_bytes_per_row,
        ),
        _ => black_frame(width, height),
    }
}

/// The sizes that the cached device resources were made for.
#[derive(Clone, Copy, Debug)]
pub struct GpuCache {
    /// Size of the cached input texture.
    pub input_texture: Option<(u32, u32)>,
    /// Size of the cached output texture.
    pub output_texture: Option<(u32, u32)>,
    /// Target size of the cached read-back buffer.
    pub output_buffer: Option<(u32, u32)>,
    /// Whether the parameter buffer exists.
    pub uniform_buffer: bool,
    /// Input and output size of the cached bind group.
    pub bind_group: Option<(u32, u32, u32, u32)>,
}

/// What has to be made anew on the device before a frame is dispatched.
#[derive(Clone, Copy, Debug, PartialEq, Eq, Structural)]
pub struct GpuPlan {
    /// Make a new input texture.
    pub create_input_texture: bool,
    /// Make a new output texture.
    pub create_output_texture: bool,
    /// Make a new read-back buffer.
    pub create_output_buffer: bool,
    /// Make the parameter buffer; otherwise overwrite the one that exists.
    pub create_uniform_buffer: bool,
    /// Make a new bind group.
    pub create_bind_group: bool,
    /// Workgroups to dispatch along x.
    pub workgroups_x: u32,
    /// Workgroups to dispatch along y.
    pub workgroups_y: u32,
}

impl GpuCache {
    /// The cache when every resource was made for the given sizes.
    pub open spec fn primed(input: (u32, u32), output: (u32, u32)) -> GpuCache {
        GpuCache {
            input_texture: Some(input),
            output_texture: Some(output),
            output_buffer: Some(output),
            uniform_buffer: true,
            bind_group: Some((input.0, input.1, output.0, output.1)),
        }
    }

    /// What a frame of size `input` resized to `output` has to make anew.
    pub open spec fn plan_for(self, input: (u32, u32), output: (u32, u32)) -> GpuPlan {
        GpuPlan {
            create_input_texture: self.input_texture != Some(input),
            create_output_texture: self.output_texture != Some(output),
            create_output_buffer: self.output_buffer != Some(output),
            create_uniform_buffer: !self.uniform_buffer,
            create_bind_group: self.bind_group != Some((input.0, input.1, output.0, output.1)),
            workgroups_x: workgroups_for(output.0 as int) as u32,
            workgroups_y: workgroups_for(output.1 as int) as u32,
        }
    }

    /// A cache that holds nothing.
    pub fn new() -> (out: GpuCache)
        ensures
            out == (GpuCache {
                input_texture: None,
                output_texture: None,
                output_buffer: None,
                uniform_buffer: false,
                bind_group: None,
            }),
    {
        GpuCache {
            input_texture: None,
            output_texture: None,
            output_buffer: None,
            uniform_buffer: false,
            bind_group: None,
        }
    }

    /// Decides what a frame has to make anew and records that it will exist
    /// afterwards. A resource is kept exactly when it was made for the same
    /// sizes.
    pub fn prepare(&mut self, input: (u32, u32), output: (u32, u32)) -> (plan: GpuPlan)
        ensures
            plan == old(self).plan_for(input, output),
            *final(self) == GpuCache::primed(input, output),
    {
        let plan = GpuPlan {
            create_input_texture: !same_size(self.input_texture, input),
            create_output_texture: !same_size(self.output_texture, output),
            create_output_buffer: !same_size(self.output_buffer, output),
            create_uniform_buffer: !self.uniform_buffer,
            create_bind_group: match self.bind_group {
                Some(key) => !(key.0 == input.0 && key.1 == input.1 && key.2 == output.0 && key.3
                    == output.1),
                None => true,
            },
            workgroups_x: workgroup_count(output.0),
            workgroups_y: workgroup_count(output.1),
        };
        self.input_texture = Some(input);
        self.output_texture = Some(output);
        self.output_buffer = Some(output);
        self.uniform_buffer = true;
        self.bind_group = Some((input.0, input.1, output.0, output.1));
        plan
    }
}

fn same_size(cached: Option<(u32, u32)>, wanted: (u32, u32)) -> (out: bool)
    ensures
        out == (cached == Some(wanted)),
{
    match cached {
        Some(size) => size.0 == wanted.0 && size.1 == wanted.1,
        None => false,
    }
}

/// What one frame needs from the device: the resources to make anew, and the
/// layout of the buffer that the result is read back from.
#[derive(Clone, Copy, Debug)]
pub struct GpuPass {
    /// Width of the target.
    pub width: u32,
    /// Height of the target.
    pub height: u32,
    /// What to make anew, and how many workgroups to dispatch.
    pub plan: GpuPlan,
    /// The layout of the read-back buffer.
    pub layout: ReadbackLayout,
}

impl GpuPass {
    /// The packed image fits a buffer, and the layout has room for its rows.
    pub open spec fn wf(self) -> bool {
        &&& packed_len(self.width as int, self.height as int) <= usize::MAX
        &&& self.layout.bytes_per_row == tight_row_bytes(self.width as int)
        &&& self.layout.padded_bytes_per_row >= self.layout.bytes_per_row
    }
}

/// The bookkeeping of the GPU resize pipeline for one device.
#[derive(Clone, Copy, Debug)]
pub struct GpuProcessor {
    cache: GpuCache,
    alignment: u32,
}

impl GpuProcessor {
    /// The sizes that the resources of the device were made for.
    pub closed spec fn cached(&self) -> GpuCache {
        self.cache
    }

    /// The multiple that the rows of a read-back buffer must be of.
    pub closed spec fn row_alignment(&self) -> u32 {
        self.alignment
    }

    /// The alignment is not zero.
    pub open spec fn wf(&self) -> bool {
        self.row_alignment() > 0
    }

    /// A target that can be read back: a padded row fits 32 bits, and the
    /// packed image fits a buffer.
    pub open spec fn can_read_back(&self, target: (u32, u32)) -> bool {
        &&& padded_row_bytes(target.0 as int, self.row_alignment() as int) <= u32::MAX
        &&& packed_len(target.0 as int, target.1 as int) <= usize::MAX
    }

    /// The bookkeeping for a device that wants rows aligned to `alignment`
    /// bytes. `None` for an alignment of zero.
    pub fn new(alignment: u32) -> (out: Option<GpuProcessor>)
        ensures
            out is Some <==> alignment > 0,
            out matches Some(processor) ==> processor.wf() && processor.row_alignment()
                == alignment && processor.cached() == (GpuCache {
                input_texture: None,
                output_texture: None,
                output_buffer: None,
                uniform_buffer: false,
                bind_group: None,
            }),
    {
        if alignment == 0 {
            None
        } else {
            Some(GpuProcessor { cache: GpuCache::new(), alignment })
        }
    }

    /// Prepares the pass that resizes a frame of size `input` to `target`:
    /// what the device has to make anew, and how the result is read back.
    /// `None`, and nothing changes, where the target cannot be read back.
    pub fn begin_frame(&mut self, input: (u32, u32), target: (u32, u32)) -> (out: Option<GpuPass>)
        requires
            old(self).wf(),
        ensures
            final(self).wf(),
            final(self).row_alignment() == old(self).row_alignment(),
            out is Some <==> old(self).can_read_back(target),
            out is None ==> final(self).cached() == old(self).cached(),
            out matches Some(pass) ==> {
                &&& pass.wf()
                &&& pass.width == target.0
                &&& pass.height == target.1
                &&& pass.plan == old(self).cached().plan_for(input, target)
                &&& pass.layout.describes(target.0, target.1, old(self).row_alignment())
                &&& final(self).cached() == GpuCache::primed(input, target)
            },
    {
        let layout = match ReadbackLayout::new(target.0, target.1, self.alignment) {
            Some(layout) => layout,
            None => {
                return None;
            },
        };
        assert(4 * target.0 * target.1 == 4 * (target.0 * target.1)) by (nonlinear_arith);
        assert(target.0 * target.1 <= 0xffff_ffff * 0xffff_ffff) by (nonlinear_arith)
            requires
                target.0 <= 0xffff_ffff,
                target.1 <= 0xffff_ffff,
        ;
        let packed: u128 = 4 * ((target.0 as u128) * (target.1 as u128));
        if packed > usize::MAX as u128 {
            return None;
        }
        proof {
            lemma_padded_row_aligned(target.0 as int, self.alignment as int);
        }
        let plan = self.cache.prepare(input, target);
        Some(GpuPass { width: target.0, height: target.1, plan, layout })
    }

    /// The resized image of a pass, given what came back from the device:
    /// the read-back buffer without its padding, or a black image of the
    /// target size where the device was not there, took too long, or gave a
    /// buffer that could not be read.
    pub fn process_frame(&self, pass: &GpuPass, outcome: Readback) -> (out: Vec<u8>)
        requires
            pass.wf(),
        ensures
            out@ == readback_pixels(
                outcome,
                pass.width as int,
                pass.height as int,
                pass.layout.padded_bytes_per_row as int,
            ),
            out.len() == packed_len(pass.width as int, pass.height as int),
    {
        finish_readback(outcome, pass.width, pass.height, &pass.layout)
    }
}

/// Two frames of the same sizes in a row: the second makes nothing anew.
pub proof fn lemma_same_sizes_reuse_everything(input: (u32, u32), output: (u32, u32))
    ensures
        ({
            let plan = GpuCache::primed(input, output).plan_for(input, output);
            &&& !plan.create_input_texture
            &&& !plan.create_output_texture
            &&& !plan.create_output_buffer
            &&& !plan.create_uniform_buffer
            &&& !plan.create_bind_group
        }),
{
}

} // verus!
