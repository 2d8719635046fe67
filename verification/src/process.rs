//! Scaling a block of samples by one gain.
//!
//! The sample type is left open: the host's single- and double-precision
//! blocks go through the same code, and what a product is, is the sample
//! type's own business. The gain comes in as a sample: the caller loads the
//! amplitude once for the block and decodes it.

use core::ops::Mul;
use vstd::prelude::*;

verus! {

/// Scales one channel: for every index that both blocks have, the output
/// sample becomes the product of the input sample and `gain`, the same gain
/// for the whole block. Output samples beyond the end of the input keep their
/// values; nothing else is touched, allocated or waited for.
///
/// The product is stated the way the sample type states it: the value written
/// is one that `input[i] * gain` may return. For integers that is the exact
/// product; for floating point it is the rounded product the machine gives.
/// The precondition is the multiplication's own, which rules out overflow for
/// integers and nothing for floating point.
pub fn scale_block<T: Copy + Mul<Output = T>>(gain: T, input: &[T], output: &mut [T])
    requires
        forall|i: int|
            0 <= i < input@.len() && i < old(output)@.len() ==> #[trigger] T::mul.requires(
                (input@[i], gain),
            ),
    ensures
        final(output)@.len() == old(output)@.len(),
        forall|i: int|
            0 <= i < input@.len() && i < old(output)@.len() ==> T::mul.ensures(
                (input@[i], gain),
                #[trigger] final(output)@[i],
            ),
        forall|i: int|
            input@.len() <= i < old(output)@.len() ==> #[trigger] final(output)@[i] == old(
                output,
            )@[i],
{
    let shared: usize = if input.len() < output.len() {
        input.len()
    } else {
        output.len()
    };
    let mut i: usize = 0;
    while i < shared
        invariant
            i <= shared,
            shared <= input@.len(),
            shared <= output@.len(),
            output@.len() == old(output)@.len(),
            forall|k: int| 0 <= k < shared ==> #[trigger] T::mul.requires((input@[k], gain)),
            forall|k: int| 0 <= k < i ==> T::mul.ensures((input@[k], gain), #[trigger] output@[k]),
            forall|k: int| i <= k < output@.len() ==> #[trigger] output@[k] == old(output)@[k],
        decreases shared - i,
    {
        output[i] = input[i] * gain;
        i += 1;
    }
}

/// Scales a whole block: channel by channel, input `c` goes to output `c`
/// through `scale_block`, all with the one `gain` the caller loaded for the
/// block. Channels are paired as far as both sides have them, samples as far
/// as both channels of a pair have them; every other output sample keeps its
/// value, and no output channel changes its length.
pub fn process<T: Copy + Mul<Output = T>>(gain: T, inputs: &[&[T]], outputs: &mut [&mut [T]])
    requires
        forall|c: int, i: int|
            0 <= c < inputs@.len() && c < old(outputs)@.len() && 0 <= i < inputs@[c]@.len() && i
                < old(outputs)@[c]@.len() ==> #[trigger] T::mul.requires((inputs@[c]@[i], gain)),
    ensures
        final(outputs)@.len() == old(outputs)@.len(),
        forall|c: int|
            0 <= c < old(outputs)@.len() ==> #[trigger] final(outputs)@[c]@.len() == old(
                outputs,
            )@[c]@.len(),
        forall|c: int, i: int|
            0 <= c < inputs@.len() && c < old(outputs)@.len() && 0 <= i < inputs@[c]@.len() && i
                < old(outputs)@[c]@.len() ==> T::mul.ensures(
                (inputs@[c]@[i], gain),
                #[trigger] final(outputs)@[c]@[i],
            ),
        forall|c: int, i: int|
            0 <= c < old(outputs)@.len() && 0 <= i < old(outputs)@[c]@.len() && !(c
                < inputs@.len() && i < inputs@[c]@.len()) ==> #[trigger] final(outputs)@[c]@[i]
                == old(outputs)@[c]@[i],
{
    let channels: usize = if inputs.len() < outputs.len() {
        inputs.len()
    } else {
        outputs.len()
    };
    let mut c: usize = 0;
    while c < channels
        invariant
            c <= channels,
            channels <= inputs@.len(),
            channels <= outputs@.len(),
            outputs@.len() == old(outputs)@.len(),
            forall|k: int|
                0 <= k < outputs@.len() ==> #[trigger] outputs@[k]@.len() == old(
                    outputs,
                )@[k]@.len(),
            forall|k: int, i: int|
                0 <= k < channels && 0 <= i < inputs@[k]@.len() && i < old(outputs)@[k]@.len()
                    ==> #[trigger] T::mul.requires((inputs@[k]@[i], gain)),
            forall|k: int, i: int|
                0 <= k < c && 0 <= i < inputs@[k]@.len() && i < old(outputs)@[k]@.len()
                    ==> T::mul.ensures((inputs@[k]@[i], gain), #[trigger] outputs@[k]@[i]),
            forall|k: int, i: int|
                0 <= k < c && inputs@[k]@.len() <= i < old(outputs)@[k]@.len()
                    ==> #[trigger] outputs@[k]@[i] == old(outputs)@[k]@[i],
            forall|k: int, i: int|
                c <= k < outputs@.len() && 0 <= i < old(outputs)@[k]@.len()
                    ==> #[trigger] outputs@[k]@[i] == old(outputs)@[k]@[i],
        decreases channels - c,
    {
        scale_block(gain, inputs[c], &mut *outputs[c]);
        c += 1;
    }
}

} // verus!
