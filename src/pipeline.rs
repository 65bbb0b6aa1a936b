use vstd::prelude::*;
use vstd::slice::slice_to_vec;

use crate::error::{Error, Result};
use crate::flags::{TEX_COMPRESS_FLAGS, TEX_FILTER_FLAGS, TEX_FR_FLAGS, TEX_PMALPHA_FLAGS};
use crate::format::{is_compressed, spec_is_compressed, DXGI_FORMAT};
use crate::metadata::TEX_DIMENSION_TEXTURE2D;
use crate::scratch::{allocation, filled, ScratchImage, ScratchView};

verus! {

/// One native pixel operation, which reads a container and gives a new one.
#[derive(Clone, Copy, Debug, PartialEq, Eq, Structural)]
pub enum Operation {
    GenerateMipmaps { levels: usize, filter: TEX_FILTER_FLAGS },
    Compress { format: DXGI_FORMAT, flags: TEX_COMPRESS_FLAGS },
    Decompress,
    Convert { format: DXGI_FORMAT, filter: TEX_FILTER_FLAGS },
    Resize { width: usize, height: usize, filter: TEX_FILTER_FLAGS },
    PremultiplyAlpha { flags: TEX_PMALPHA_FLAGS },
    FlipRotate { flags: TEX_FR_FLAGS },
}

/// The next operation on the way from one format to another.
#[derive(Clone, Copy, Debug, PartialEq, Eq, Structural)]
pub enum FormatStep {
    /// The container is already in the target format.
    Done,
    Decompress,
    Compress(DXGI_FORMAT),
    Convert(DXGI_FORMAT),
}

/// The step from `current` towards `target`: decompress a compressed
/// container first, then compress or convert straight to the target.
pub open spec fn spec_format_step(current: DXGI_FORMAT, target: DXGI_FORMAT) -> FormatStep {
    if current == target {
        FormatStep::Done
    } else if spec_is_compressed(current) {
        FormatStep::Decompress
    } else if spec_is_compressed(target) {
        FormatStep::Compress(target)
    } else {
        FormatStep::Convert(target)
    }
}

/// Chooses the step from `current` towards `target`.
pub fn format_step(current: DXGI_FORMAT, target: DXGI_FORMAT) -> (r: FormatStep)
    ensures
        r == spec_format_step(current, target),
{
    if current == target {
        FormatStep::Done
    } else if is_compressed(current) {
        FormatStep::Decompress
    } else if is_compressed(target) {
        FormatStep::Compress(target)
    } else {
        FormatStep::Convert(target)
    }
}

/// Decompresses a compressed container; leaves any other as it is.
pub fn decompress_step(current: DXGI_FORMAT) -> (r: FormatStep)
    ensures
        r == (if spec_is_compressed(current) {
            FormatStep::Decompress
        } else {
            FormatStep::Done
        }),
{
    if is_compressed(current) {
        FormatStep::Decompress
    } else {
        FormatStep::Done
    }
}

/// Reaches `target` from an uncompressed container in one operation:
/// compression for a compressed target, conversion otherwise.
pub fn convert_or_compress_step(current: DXGI_FORMAT, target: DXGI_FORMAT) -> (r: FormatStep)
    ensures
        r == (if current == target {
            FormatStep::Done
        } else if spec_is_compressed(target) {
            FormatStep::Compress(target)
        } else {
            FormatStep::Convert(target)
        }),
{
    if current == target {
        FormatStep::Done
    } else if is_compressed(target) {
        FormatStep::Compress(target)
    } else {
        FormatStep::Convert(target)
    }
}

/// Whether `next` is a format that step `spec_format_step(current, target)`
/// can give: decompression gives some uncompressed format, compression and
/// conversion give the format asked for, and no step keeps the format.
pub open spec fn step_yields(current: DXGI_FORMAT, target: DXGI_FORMAT, next: DXGI_FORMAT) -> bool {
    match spec_format_step(current, target) {
        FormatStep::Done => next == current,
        FormatStep::Decompress => !spec_is_compressed(next),
        FormatStep::Compress(f) => next == f,
        FormatStep::Convert(f) => next == f,
    }
}

/// Stepping towards a format does nothing once it is reached, and reaches it
/// within two steps from any start, whichever uncompressed format
/// decompression picks.
pub proof fn lemma_format_steps_converge(
    start: DXGI_FORMAT,
    target: DXGI_FORMAT,
    after_one: DXGI_FORMAT,
    after_two: DXGI_FORMAT,
)
    requires
        step_yields(start, target, after_one),
        step_yields(after_one, target, after_two),
    ensures
        spec_format_step(target, target) == FormatStep::Done,
        after_two == target,
        spec_format_step(after_two, target) == FormatStep::Done,
{
}

/// What a job holds: the current container, the operations to run on it in
/// order, and how many of them have run.
pub ghost struct JobView {
    pub image: ScratchView,
    pub operations: Seq<Operation>,
    pub done: nat,
}

/// A chain of native operations on one container. The caller runs each
/// operation that `next_operation` names on `image` and hands the outcome to
/// `advance`; the first failure ends the chain.
pub struct TextureJob {
    image: ScratchImage,
    operations: Vec<Operation>,
    done: usize,
}

impl View for TextureJob {
    type V = JobView;

    closed spec fn view(&self) -> JobView {
        JobView { image: self.image@, operations: self.operations@, done: self.done as nat }
    }
}

impl TextureJob {
    #[verifier::type_invariant]
    spec fn inv(self) -> bool {
        self.done <= self.operations@.len()
    }

    /// The container that the next operation reads, or the result once all
    /// operations have run.
    pub fn image(&self) -> (r: &ScratchImage)
        ensures
            r@ == self@.image,
    {
        &self.image
    }

    /// The operation to run next, or `None` when the chain is complete.
    pub fn next_operation(&self) -> (r: Option<Operation>)
        ensures
            self@.done <= self@.operations.len(),
            self@.done < self@.operations.len() ==> r == Some(self@.operations[self@.done as int]),
            self@.done == self@.operations.len() ==> r is None,
    {
        proof {
            use_type_invariant(self);
        }
        if self.done < self.operations.len() {
            Some(self.operations[self.done])
        } else {
            None
        }
    }

    /// Records the outcome of the operation that `next_operation` named: its
    /// output becomes the current container, or its error ends the job.
    pub fn advance(self, outcome: Result<ScratchImage>) -> (r: Result<TextureJob>)
        requires
            self@.done < self@.operations.len(),
        ensures
            match outcome {
                Ok(img) => r is Ok && r->Ok_0@ == (JobView {
                    image: img@,
                    done: self@.done + 1,
                    ..self@
                }),
                Err(e) => r == Err::<TextureJob, Error>(e),
            },
    {
        let img = outcome?;
        let TextureJob { image: _, operations, done } = self;
        let n = operations.len();
        assert(done < n);
        Ok(TextureJob { image: img, operations, done: done + 1 })
    }

    /// Whether every operation has run.
    pub fn is_complete(&self) -> (r: bool)
        ensures
            r == (self@.done == self@.operations.len()),
    {
        self.done == self.operations.len()
    }

    /// The arena of the final container.
    pub fn finish(self) -> (r: Vec<u8>)
        requires
            self@.done == self@.operations.len(),
        ensures
            r@ == self@.image.memory,
    {
        slice_to_vec(self.image.buffer())
    }
}

/// The operations that `compress_texture` runs: mipmap generation when more
/// than one level is asked for, then compression to `format`.
pub open spec fn compress_operations(
    format: DXGI_FORMAT,
    mipmaps: usize,
    flags: TEX_COMPRESS_FLAGS,
) -> Seq<Operation> {
    if mipmaps > 1 {
        seq![
            Operation::GenerateMipmaps { levels: mipmaps, filter: TEX_FILTER_FLAGS(0) },
            Operation::Compress { format, flags },
        ]
    } else {
        seq![Operation::Compress { format, flags }]
    }
}

/// Whether `r` is a job that starts on container outcome `a` with `operations`.
pub open spec fn job_matches(
    r: Result<TextureJob>,
    a: core::result::Result<ScratchView, Error>,
    operations: Seq<Operation>,
) -> bool {
    match a {
        Ok(v) => r is Ok && r->Ok_0@ == (JobView { image: v, operations, done: 0 }),
        Err(e) => r == Err::<TextureJob, Error>(e),
    }
}

/// Starts compressing `data`, a single-level 2D texture (or array of them)
/// of `format`: `data` must be exactly as long as that container's arena.
/// The job generates `mipmaps` levels when more than one is asked for, then
/// compresses to `format`; its final arena is the result.
pub fn compress_texture(
    format: DXGI_FORMAT,
    width: usize,
    height: usize,
    array_size: usize,
    mipmaps: usize,
    data: &[u8],
    flags: TEX_COMPRESS_FLAGS,
) -> (r: Result<TextureJob>)
    ensures
        job_matches(
            r,
            filled(
                allocation(
                    format,
                    width as nat,
                    height as nat,
                    array_size as nat,
                    1,
                    TEX_DIMENSION_TEXTURE2D,
                ),
                data@,
            ),
            compress_operations(format, mipmaps, flags),
        ),
{
    let uncompressed = ScratchImage::new_2d(format, width, height, array_size, 1, data)?;
    let mut operations: Vec<Operation> = Vec::new();
    if mipmaps > 1 {
        operations.push(Operation::GenerateMipmaps { levels: mipmaps, filter: TEX_FILTER_FLAGS(0) });
    }
    operations.push(Operation::Compress { format, flags });
    proof {
        assert(operations@ =~= compress_operations(format, mipmaps, flags));
    }
    Ok(TextureJob { image: uncompressed, operations, done: 0 })
}

/// Starts decompressing `data`, a 2D texture (or array of them) of `format`
/// with `mipmaps` levels: `data` must be exactly as long as that container's
/// arena. The job decompresses once; its final arena is the result.
pub fn decompress_texture(
    format: DXGI_FORMAT,
    width: usize,
    height: usize,
    array_size: usize,
    mipmaps: usize,
    data: &[u8],
) -> (r: Result<TextureJob>)
    ensures
        job_matches(
            r,
            filled(
                allocation(
                    format,
                    width as nat,
                    height as nat,
                    array_size as nat,
                    mipmaps as nat,
                    TEX_DIMENSION_TEXTURE2D,
                ),
                data@,
            ),
            seq![Operation::Decompress],
        ),
{
    let compressed = ScratchImage::new_2d(format, width, height, array_size, mipmaps, data)?;
    let operations: Vec<Operation> = vec![Operation::Decompress];
    proof {
        assert(operations@ =~= seq![Operation::Decompress]);
    }
    Ok(TextureJob { image: compressed, operations, done: 0 })
}

} // verus!
