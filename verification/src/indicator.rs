//! Shape checks shared by every indicator, and the buffer bookkeeping done by
//! the single-output and in-place convenience paths.

use vstd::prelude::*;

use crate::error::IndicatorError;
use crate::types::IndicatorMetadata;

verus! {

/// Rows produced for `input_len` samples when `lookback` leading samples are consumed.
pub open spec fn spec_output_len(input_len: int, lookback: int) -> int {
    if input_len >= lookback {
        input_len - lookback
    } else {
        0
    }
}

/// Return the number of output rows produced for a given input length and lookback.
pub fn output_len_for_input(input_len: usize, lookback: usize) -> (r: usize)
    ensures
        r == spec_output_len(input_len as int, lookback as int),
{
    if input_len >= lookback {
        input_len - lookback
    } else {
        0
    }
}

/// Validate that the caller provided the expected number of output buffers.
pub fn validate_output_slices<T>(
    metadata: &IndicatorMetadata,
    outputs: &[T],
    expected: usize,
) -> (r: Result<(), IndicatorError>)
    ensures
        outputs@.len() == expected ==> r is Ok,
        outputs@.len() != expected ==> r == Err::<(), IndicatorError>(
            IndicatorError::WrongOutputCount {
                indicator: metadata.name,
                expected,
                actual: outputs@.len() as usize,
            },
        ),
{
    if outputs.len() != expected {
        return Err(
            IndicatorError::WrongOutputCount {
                indicator: metadata.name,
                expected,
                actual: outputs.len(),
            },
        );
    }
    Ok(())
}

/// Validate that the indicator is single-output before using a single-output helper.
pub fn validate_single_output(metadata: &IndicatorMetadata) -> (r: Result<(), IndicatorError>)
    ensures
        metadata.output_names@.len() == 1 ==> r is Ok,
        metadata.output_names@.len() != 1 ==> r == Err::<(), IndicatorError>(
            IndicatorError::WrongOutputCount {
                indicator: metadata.name,
                expected: 1,
                actual: metadata.output_names@.len() as usize,
            },
        ),
{
    if metadata.output_names.len() != 1 {
        return Err(
            IndicatorError::WrongOutputCount {
                indicator: metadata.name,
                expected: 1,
                actual: metadata.output_names.len(),
            },
        );
    }
    Ok(())
}

/// The error reported when an indicator's computed outputs disagree with its metadata.
pub open spec fn shape_invariant_error(metadata: IndicatorMetadata) -> IndicatorError {
    IndicatorError::InternalInvariant {
        indicator: metadata.name,
        reason: "indicator returned an unexpected number of output series",
    }
}

/// Validate that the computed output shape matches the indicator metadata.
pub fn validate_computed_outputs<T>(
    metadata: &IndicatorMetadata,
    computed: &[Vec<T>],
) -> (r: Result<(), IndicatorError>)
    ensures
        computed@.len() == metadata.output_names@.len() ==> r is Ok,
        computed@.len() != metadata.output_names@.len() ==> r == Err::<(), IndicatorError>(
            shape_invariant_error(*metadata),
        ),
{
    let expected = metadata.output_names.len();
    if computed.len() != expected {
        return Err(
            IndicatorError::InternalInvariant {
                indicator: metadata.name,
                reason: "indicator returned an unexpected number of output series",
            },
        );
    }
    Ok(())
}

/// Validate that an output buffer is large enough for the computed values.
pub fn ensure_output_len(
    metadata: &IndicatorMetadata,
    actual: usize,
    expected: usize,
    output_index: usize,
) -> (r: Result<(), IndicatorError>)
    ensures
        actual >= expected ==> r is Ok,
        actual < expected ==> r == Err::<(), IndicatorError>(
            IndicatorError::OutputTooSmall {
                indicator: metadata.name,
                output_index,
                expected,
                actual,
            },
        ),
{
    if actual < expected {
        return Err(IndicatorError::OutputTooSmall { indicator: metadata.name, output_index, expected, actual });
    }
    Ok(())
}


/// Finish a single-output call: check the computed shape against the metadata
/// and hand back the one output series.
///
/// This is the tail of the single-output convenience path, run on what the
/// indicator computed (the metadata itself is checked with
/// [`validate_single_output`] before computing).
pub fn take_single_output<T>(
    metadata: &IndicatorMetadata,
    computed: Vec<Vec<T>>,
) -> (r: Result<Vec<T>, IndicatorError>)
    ensures
        computed@.len() != metadata.output_names@.len() ==> r == Err::<Vec<T>, IndicatorError>(
            shape_invariant_error(*metadata),
        ),
        computed@.len() == metadata.output_names@.len() && computed@.len() > 0 ==> r == Ok::<
            Vec<T>,
            IndicatorError,
        >(computed@.last()),
        computed@.len() == metadata.output_names@.len() && computed@.len() == 0 ==> (r matches Ok(
            v,
        ) && v@.len() == 0),
{
    let mut computed = computed;
    validate_computed_outputs(metadata, computed.as_slice())?;
    match computed.pop() {
        Some(v) => Ok(v),
        None => Ok(Vec::new()),
    }
}

/// `buffer` after its first `values.len()` entries were overwritten by `values`.
pub open spec fn overwrite_prefix<T>(buffer: Seq<T>, values: Seq<T>) -> Seq<T> {
    values + buffer.skip(values.len() as int)
}

/// The first output index whose buffer cannot hold its computed series, if any.
pub open spec fn fits_up_to<T>(outputs: Seq<Vec<T>>, computed: Seq<Vec<T>>, k: int) -> bool {
    forall|j: int| 0 <= j < k ==> computed[j]@.len() <= #[trigger] outputs[j]@.len()
}

/// Copy computed series into caller-provided output buffers.
///
/// This is the in-place path: the buffer count must match the metadata, the
/// computed count must match the metadata, and then each buffer in order must
/// be long enough for its series; the first one that is too short stops the
/// copy with `OutputTooSmall` (earlier buffers are already written). On
/// success the number of rows of the first series is returned.
pub fn write_outputs<T: Copy>(
    metadata: &IndicatorMetadata,
    computed: &Vec<Vec<T>>,
    outputs: &mut Vec<Vec<T>>,
) -> (r: Result<usize, IndicatorError>)
    ensures
        final(outputs)@.len() == old(outputs)@.len(),
        old(outputs)@.len() != metadata.output_names@.len() ==> {
            &&& r == Err::<usize, IndicatorError>(
                IndicatorError::WrongOutputCount {
                    indicator: metadata.name,
                    expected: metadata.output_names@.len() as usize,
                    actual: old(outputs)@.len() as usize,
                },
            )
            &&& final(outputs)@ == old(outputs)@
        },
        old(outputs)@.len() == metadata.output_names@.len() && computed@.len()
            != metadata.output_names@.len() ==> {
            &&& r == Err::<usize, IndicatorError>(shape_invariant_error(*metadata))
            &&& final(outputs)@ == old(outputs)@
        },
        old(outputs)@.len() == metadata.output_names@.len() && computed@.len()
            == metadata.output_names@.len() ==> {
            let n = computed@.len() as int;
            &&& r is Ok <==> fits_up_to(old(outputs)@, computed@, n)
            &&& r is Ok ==> r == Ok::<usize, IndicatorError>(
                if n > 0 {
                    computed@[0]@.len() as usize
                } else {
                    0
                },
            )
            &&& r is Ok ==> forall|j: int|
                0 <= j < n ==> #[trigger] final(outputs)@[j]@ == overwrite_prefix(
                    old(outputs)@[j]@,
                    computed@[j]@,
                )
            &&& r is Err ==> exists|k: int|
                {
                    &&& 0 <= k < n
                    &&& fits_up_to(old(outputs)@, computed@, k)
                    &&& old(outputs)@[k]@.len() < computed@[k]@.len()
                    &&& r == Err::<usize, IndicatorError>(
                        IndicatorError::OutputTooSmall {
                            indicator: metadata.name,
                            output_index: k as usize,
                            expected: computed@[k]@.len() as usize,
                            actual: old(outputs)@[k]@.len() as usize,
                        },
                    )
                    &&& forall|j: int|
                        0 <= j < k ==> #[trigger] final(outputs)@[j]@ == overwrite_prefix(
                            old(outputs)@[j]@,
                            computed@[j]@,
                        )
                    &&& forall|j: int| k <= j < n ==> #[trigger] final(outputs)@[j] == old(outputs)@[j]
                }
        },
{
    let expected = metadata.output_names.len();
    validate_output_slices(metadata, outputs.as_slice(), expected)?;
    validate_computed_outputs(metadata, computed.as_slice())?;
    let n = computed.len();
    let ghost before = outputs@;
    let mut i: usize = 0;
    while i < n
        invariant
            n == computed@.len(),
            n == outputs@.len(),
            n == metadata.output_names@.len(),
            before == old(outputs)@,
            before.len() == n,
            0 <= i <= n,
            fits_up_to(before, computed@, i as int),
            forall|j: int|
                0 <= j < i ==> #[trigger] outputs@[j]@ == overwrite_prefix(
                    before[j]@,
                    computed@[j]@,
                ),
            forall|j: int| i <= j < n ==> #[trigger] outputs@[j] == before[j],
        decreases n - i,
    {
        let values = &computed[i];
        let out_len = outputs[i].len();
        if out_len < values.len() {
            return Err(
                IndicatorError::OutputTooSmall {
                    indicator: metadata.name,
                    output_index: i,
                    expected: values.len(),
                    actual: out_len,
                },
            );
        }
        let mut buffer: Vec<T> = Vec::new();
        std::mem::swap(&mut buffer, &mut outputs[i]);
        let mut t: usize = 0;
        while t < values.len()
            invariant
                0 <= t <= values@.len(),
                values@.len() <= buffer@.len(),
                buffer@.len() == before[i as int]@.len(),
                forall|u: int| 0 <= u < t ==> buffer@[u] == values@[u],
                forall|u: int| t <= u < buffer@.len() ==> buffer@[u] == before[i as int]@[u],
            decreases values@.len() - t,
        {
            buffer.set(t, values[t]);
            t = t + 1;
        }
        assert(buffer@ =~= overwrite_prefix(before[i as int]@, computed@[i as int]@));
        outputs.set(i, buffer);
        i = i + 1;
    }
    if n > 0 {
        Ok(computed[0].len())
    } else {
        Ok(0)
    }
}

/// Validate that the caller passed the number of option values the indicator takes.
pub fn expect_option_count<T>(
    indicator: &'static str,
    options: &[T],
    expected: usize,
) -> (r: Result<(), IndicatorError>)
    ensures
        options@.len() == expected ==> r is Ok,
        options@.len() != expected ==> r == Err::<(), IndicatorError>(
            IndicatorError::WrongOptionCount {
                indicator,
                expected,
                actual: options@.len() as usize,
            },
        ),
{
    if options.len() != expected {
        return Err(IndicatorError::WrongOptionCount { indicator, expected, actual: options.len() });
    }
    Ok(())
}

/// Check that the caller passed `expected` input series, all as long as the
/// first, and return that common length (zero when no series is expected).
///
/// Errors, in the order they are checked: the wrong number of series; a
/// series whose length differs from the first one (the first such series is
/// reported).
pub fn check_aligned_inputs<T>(
    indicator: &'static str,
    inputs: &[&[T]],
    expected: usize,
) -> (r: Result<usize, IndicatorError>)
    ensures
        inputs@.len() != expected ==> r == Err::<usize, IndicatorError>(
            IndicatorError::WrongInputCount { indicator, expected, actual: inputs@.len() as usize },
        ),
        inputs@.len() == expected && expected == 0 ==> r == Ok::<usize, IndicatorError>(0),
        inputs@.len() == expected && expected > 0 ==> {
            let size = inputs@[0]@.len();
            let mismatch = exists|k: int| 1 <= k < expected && #[trigger] inputs@[k]@.len() != size;
            &&& mismatch ==> exists|k: int|
                {
                    &&& 1 <= k < expected
                    &&& inputs@[k]@.len() != size
                    &&& forall|j: int| 1 <= j < k ==> #[trigger] inputs@[j]@.len() == size
                    &&& r == Err::<usize, IndicatorError>(
                        IndicatorError::InputLengthMismatch {
                            indicator,
                            expected: size as usize,
                            actual: inputs@[k]@.len() as usize,
                            input_index: k as usize,
                        },
                    )
                }
            &&& !mismatch ==> match r {
                Ok(n) => n == size,
                Err(_) => false,
            }
        },
{
    if inputs.len() != expected {
        return Err(IndicatorError::WrongInputCount { indicator, expected, actual: inputs.len() });
    }
    if expected == 0 {
        return Ok(0);
    }
    let size = inputs[0].len();
    let mut index: usize = 1;
    while index < expected
        invariant
            inputs@.len() == expected,
            expected > 0,
            size == inputs@[0]@.len(),
            1 <= index <= expected,
            forall|j: int| 1 <= j < index ==> #[trigger] inputs@[j]@.len() == size,
        decreases expected - index,
    {
        let len = inputs[index].len();
        if len != size {
            return Err(IndicatorError::InputLengthMismatch { indicator, expected: size, actual: len, input_index: index });
        }
        index = index + 1;
    }
    Ok(size)
}

/// An input at least as long as the lookback yields one output row per
/// sample beyond the lookback; a shorter input yields none.
pub proof fn lemma_output_len(input_len: nat, lookback: nat)
    ensures
        input_len >= lookback ==> spec_output_len(input_len as int, lookback as int) + lookback == input_len,
        input_len < lookback ==> spec_output_len(input_len as int, lookback as int) == 0,
        spec_output_len(input_len as int, lookback as int) <= input_len,
{
}

} // verus!
