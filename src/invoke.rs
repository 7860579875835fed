use vstd::prelude::*;

use crate::dispatch::KernelHandle;

verus! {

/// The three operands of a kernel call.
#[derive(Clone, Copy, Debug, PartialEq, Eq, Structural, Hash)]
pub enum Operand {
    Left,
    Right,
    Output,
}

/// An error of the checked invocation.
#[derive(Clone, Copy, Debug, PartialEq, Eq, Structural, Hash)]
pub enum InvokeError {
    /// The buffer of `side` holds fewer elements than the descriptor spans.
    BufferTooSmall { side: Operand },
}

/// The outcome of checking buffer lengths, in elements, against a handle's
/// descriptor; operands are checked left, right, then output.
pub open spec fn spec_check_buffers(h: KernelHandle, left: int, right: int, output: int) -> Result<
    (),
    InvokeError,
> {
    if left < h.descriptor.left_elems() {
        Err(InvokeError::BufferTooSmall { side: Operand::Left })
    } else if right < h.descriptor.right_elems() {
        Err(InvokeError::BufferTooSmall { side: Operand::Right })
    } else if output < h.descriptor.output_elems() {
        Err(InvokeError::BufferTooSmall { side: Operand::Output })
    } else {
        Ok(())
    }
}

/// Checks that buffers of the given lengths, in elements, hold every operand
/// that a call of the handle reads or writes.
pub fn check_buffers(h: &KernelHandle, left: usize, right: usize, output: usize) -> (r: Result<
    (),
    InvokeError,
>)
    requires
        h.descriptor.valid(),
    ensures
        r == spec_check_buffers(*h, left as int, right as int, output as int),
{
    if (left as u64) < h.descriptor.left_len() {
        Err(InvokeError::BufferTooSmall { side: Operand::Left })
    } else if (right as u64) < h.descriptor.right_len() {
        Err(InvokeError::BufferTooSmall { side: Operand::Right })
    } else if (output as u64) < h.descriptor.output_len() {
        Err(InvokeError::BufferTooSmall { side: Operand::Output })
    } else {
        Ok(())
    }
}

/// Whether a call of the handle reads the output as an accumulation target:
/// it does unless the beta-is-zero hint was set.
pub fn reads_output(h: &KernelHandle) -> (r: bool)
    ensures
        r == !h.flags.beta_zero,
{
    !h.flags.beta_zero
}

} // verus!
