//! Parallel dispatcher: buffer layout and launch configuration for the
//! device path. The device calls themselves (buffer upload, kernel build,
//! enqueue, readback) live outside the library; everything the device
//! path computes on the host side is laid out and checked here.

use vstd::prelude::*;

verus! {

/// Fixed number of work-items per work-group on the device.
pub const WORK_GROUP_WIDTH: usize = 32;

/// Byte width of one sample message; the kernel's message-length argument
/// must equal this.
pub const MESSAGE_WIDTH: u32 = 4;

/// Byte width of one Keccak-256 digest.
pub const DIGEST_WIDTH: usize = 32;

/// The flat message buffer: every sample of the batch concatenated in
/// batch order, 4 bytes per sample.
pub open spec fn flat_messages(samples: Seq<[u8; 4]>) -> Seq<u8> {
    Seq::new((samples.len() * 4) as nat, |b: int| samples[b / 4]@[b % 4])
}

/// A configuration fault found before any device submission.
pub enum ConfigError {
    /// The batch holds no samples, so there is nothing to launch.
    EmptyBatch,
    /// The batch size is not a multiple of the work-group width.
    UnalignedBatch,
}

/// Everything the device path needs for one launch: the input buffer
/// contents, the kernel's scalar message-length argument, the output
/// buffer size, and the two work sizes.
pub struct LaunchPlan {
    /// Contents of the read-only device input buffer.
    pub messages: Vec<u8>,
    /// Scalar kernel argument: bytes per message.
    pub message_width: u32,
    /// Size in bytes of the write-only device output buffer.
    pub output_len: usize,
    /// Total number of work-items: one per sample.
    pub global_work_size: usize,
    /// Work-items per work-group.
    pub local_work_size: usize,
}

/// Concatenate the batch into the flat message buffer uploaded to the
/// device: byte `b` of the buffer is byte `b % 4` of sample `b / 4`.
pub fn flatten_samples(samples: &Vec<[u8; 4]>) -> (r: Vec<u8>)
    requires
        samples@.len() * 4 <= usize::MAX,
    ensures
        r@ == flat_messages(samples@),
{
    let mut flat: Vec<u8> = Vec::new();
    let mut idx: usize = 0;
    while idx < samples.len()
        invariant
            idx <= samples@.len(),
            samples@.len() * 4 <= usize::MAX,
            flat@.len() == idx * 4,
            forall|b: int| 0 <= b < flat@.len() ==> flat@[b] == samples@[b / 4]@[b % 4],
        decreases samples@.len() - idx,
    {
        let sample: [u8; 4] = samples[idx];
        flat.push(sample[0]);
        flat.push(sample[1]);
        flat.push(sample[2]);
        flat.push(sample[3]);
        idx = idx + 1;
    }
    assert(flat@ =~= flat_messages(samples@));
    flat
}

/// Lay out one device launch for the batch, or report the configuration
/// fault. A plan is produced exactly when the batch is non-empty and its
/// size is a multiple of the work-group width; the plan's input buffer is
/// the flat message buffer (batch size x 4 bytes), its output buffer is
/// sized batch size x 32 bytes, and one work-item is launched per sample.
pub fn plan_dispatch(samples: &Vec<[u8; 4]>) -> (r: Result<LaunchPlan, ConfigError>)
    requires
        samples@.len() * (DIGEST_WIDTH as int) <= usize::MAX,
    ensures
        r is Ok <==> (samples@.len() > 0 && samples@.len() as int % (WORK_GROUP_WIDTH as int) == 0),
        r matches Err(e) ==> (e is EmptyBatch <==> samples@.len() == 0),
        r matches Ok(p) ==> {
            &&& p.messages@ == flat_messages(samples@)
            &&& p.messages@.len() == samples@.len() * 4
            &&& p.message_width == MESSAGE_WIDTH
            &&& p.output_len == samples@.len() * (DIGEST_WIDTH as int)
            &&& p.global_work_size == samples@.len()
            &&& p.local_work_size == WORK_GROUP_WIDTH
        },
{
    let batch_size = samples.len();
    if batch_size == 0 {
        return Err(ConfigError::EmptyBatch);
    }
    if batch_size % WORK_GROUP_WIDTH != 0 {
        return Err(ConfigError::UnalignedBatch);
    }
    let messages = flatten_samples(samples);
    let output_len = batch_size * DIGEST_WIDTH;
    Ok(LaunchPlan {
        messages,
        message_width: MESSAGE_WIDTH,
        output_len,
        global_work_size: batch_size,
        local_work_size: WORK_GROUP_WIDTH,
    })
}

} // verus!
