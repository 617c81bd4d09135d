//! Single conversions and the batch engine.
//!
//! The codec is an external capability handed in as two callables: `decode`
//! turns an input path into an in-memory raster, `encode` writes a raster to
//! an output path in a target format.  Nothing is assumed of either beyond
//! what their own contracts say; the verified code decides the sequencing,
//! the output naming, the error taxonomy and the aggregation.

use vstd::prelude::*;
use vstd::string::StringExecFns;

use crate::formats::ConvertFormat;
use crate::namer::compute_output_path;
use crate::namer::spec_fresh_output_path;
use crate::namer::spec_overwrite_output_path;
use crate::outcome::count_failures;
use crate::outcome::count_successes;
use crate::outcome::failure_line;
use crate::outcome::failure_messages;
use crate::outcome::lemma_outcome_counts;
use crate::outcome::spec_error_description;
use crate::outcome::BatchResult;
use crate::outcome::ConversionError;
use crate::outcome::ConversionOutcome;
use crate::paths::dir_prefix_part;

verus! {

/// The running aggregate of a batch: how many files succeeded, how many
/// failed, the rendered error lines, and how many files have been processed
/// so far out of the total submitted.
pub struct BatchState {
    pub success_count: usize,
    pub failure_count: usize,
    pub errors: Vec<String>,
    pub processed: usize,
    pub total: usize,
}

impl BatchState {
    /// The aggregate invariant: every processed file was counted exactly
    /// once, and every failure left exactly one error line.
    pub open spec fn wf(self) -> bool {
        &&& self.processed == self.success_count + self.failure_count
        &&& self.processed <= self.total
        &&& self.errors@.len() == self.failure_count
    }

    /// A fresh aggregate for a batch of `total` files.
    pub fn new(total: usize) -> (s: BatchState)
        ensures
            s.wf(),
            s.total == total,
            s.processed == 0,
            s.success_count == 0,
            s.failure_count == 0,
            s.errors@ == Seq::<String>::empty(),
    {
        BatchState { success_count: 0, failure_count: 0, errors: Vec::new(), processed: 0, total }
    }

    /// Records one file's success.  The processed counter advances by
    /// exactly one, so each completion observes a fresh progress value.
    pub fn record_success(&mut self)
        requires
            old(self).wf(),
            old(self).processed < old(self).total,
        ensures
            final(self).wf(),
            final(self).success_count == old(self).success_count + 1,
            final(self).failure_count == old(self).failure_count,
            final(self).errors@ == old(self).errors@,
            final(self).processed == old(self).processed + 1,
            final(self).total == old(self).total,
    {
        self.success_count += 1;
        self.processed += 1;
    }

    /// Records one file's failure together with its rendered error line.
    /// The processed counter advances by exactly one.
    pub fn record_failure(&mut self, line: String)
        requires
            old(self).wf(),
            old(self).processed < old(self).total,
        ensures
            final(self).wf(),
            final(self).success_count == old(self).success_count,
            final(self).failure_count == old(self).failure_count + 1,
            final(self).errors@ == old(self).errors@.push(line),
            final(self).processed == old(self).processed + 1,
            final(self).total == old(self).total,
    {
        self.failure_count += 1;
        self.errors.push(line);
        self.processed += 1;
    }

    /// Freezes the aggregate into an immutable result.
    pub fn into_result(self) -> (r: BatchResult)
        ensures
            r.success_count == self.success_count,
            r.failure_count == self.failure_count,
            r.errors@ == self.errors@,
    {
        BatchResult {
            success_count: self.success_count,
            failure_count: self.failure_count,
            errors: self.errors,
        }
    }
}

/// Progress values grow strictly along any chain of recordings: each
/// completed file advances the processed counter by exactly one, so no two
/// completions ever observe the same progress value.
pub proof fn lemma_progress_strictly_increasing(states: Seq<BatchState>)
    requires
        forall|i: int|
            0 <= i < states.len() - 1 ==> states[i + 1].processed == #[trigger] states[i].processed
                + 1,
    ensures
        forall|i: int, j: int|
            0 <= i < j < states.len() ==> states[i].processed < states[j].processed,
    decreases states.len(),
{
    if states.len() > 1 {
        let front = states.drop_last();
        assert(forall|i: int|
            0 <= i < front.len() - 1 ==> front[i + 1].processed == #[trigger] front[i].processed
                + 1);
        lemma_progress_strictly_increasing(front);
        assert forall|i: int, j: int|
            0 <= i < j < states.len() implies states[i].processed < states[j].processed by {
            if j < states.len() - 1 {
                assert(front[i].processed < front[j].processed);
            } else {
                assert(states[j - 1].processed == states[j].processed - 1);
                if i < j - 1 {
                    assert(front[i].processed < front[j - 1].processed);
                }
            }
        }
    }
}

/// How a single conversion's result relates to what the codec callables
/// returned: success exactly when a decode and an encode call both
/// succeeded; a `Decode` error only carries a message the decode call
/// produced for this input; an `Encode` error only carries a message the
/// encode call produced for the decoded raster and this output path.
pub open spec fn codec_outcome<
    Img,
    D: Fn(String) -> Result<Img, String>,
    E: Fn(Img, String, ConvertFormat) -> Result<(), String>,
>(
    decode: D,
    encode: E,
    input: String,
    output: String,
    format: ConvertFormat,
    r: Result<(), ConversionError>,
) -> bool {
    match r {
        Ok(_) => exists|img: Img|
            #[trigger] call_ensures(decode, (input,), Ok(img)) && call_ensures(
                encode,
                (img, output, format),
                Ok(()),
            ),
        Err(e) => match e {
            ConversionError::Decode(m) => call_ensures(decode, (input,), Err(m)),
            ConversionError::Encode(m) => exists|img: Img|
                #[trigger] call_ensures(decode, (input,), Ok(img)) && call_ensures(
                    encode,
                    (img, output, format),
                    Err(m),
                ),
        },
    }
}

/// Converts one file: decodes `input_path` and, if that succeeds, encodes
/// the raster to `output_path` in `format`.  A decode failure is reported as
/// `Decode`, an encode failure as `Encode`; an encode failure is never
/// reported as success.
pub fn convert_image<Img, D, E>(
    input_path: &String,
    output_path: &String,
    format: ConvertFormat,
    decode: &D,
    encode: &E,
) -> (r: Result<(), ConversionError>) where
    D: Fn(String) -> Result<Img, String>,
    E: Fn(Img, String, ConvertFormat) -> Result<(), String>,

    requires
        call_requires(*decode, (*input_path,)),
        forall|img: Img| call_requires(*encode, (img, *output_path, format)),
    ensures
        codec_outcome::<Img, D, E>(*decode, *encode, *input_path, *output_path, format, r),
{
    match decode(input_path.clone()) {
        Ok(img) => {
            let ghost g_img = img;
            let out_copy = output_path.clone();
            let encoded = encode(img, out_copy, format);
            let ghost g_encoded = encoded;
            match encoded {
                Ok(_) => {
                    proof {
                        // The unit payload pins the encode result to `Ok(())`.
                        assert(g_encoded->Ok_0 == ());
                        assert(call_ensures(*decode, (*input_path,), Ok(g_img)));
                        assert(call_ensures(*encode, (g_img, *output_path, format), Ok(())));
                    }
                    Ok(())
                },
                Err(m) => {
                    let ghost g_m = m;
                    proof {
                        assert(call_ensures(*decode, (*input_path,), Ok(g_img)));
                        assert(call_ensures(*encode, (g_img, *output_path, format), Err(g_m)));
                    }
                    Err(ConversionError::Encode(m))
                },
            }
        },
        Err(m) => Err(ConversionError::Decode(m)),
    }
}

/// Converts one file to JPEG.
pub fn anything_to_jpg<Img, D, E>(
    path: &String,
    output_path: &String,
    decode: &D,
    encode: &E,
) -> (r: Result<(), ConversionError>) where
    D: Fn(String) -> Result<Img, String>,
    E: Fn(Img, String, ConvertFormat) -> Result<(), String>,

    requires
        call_requires(*decode, (*path,)),
        forall|img: Img| call_requires(*encode, (img, *output_path, ConvertFormat::Jpeg)),
    ensures
        codec_outcome::<Img, D, E>(*decode, *encode, *path, *output_path, ConvertFormat::Jpeg, r),
{
    convert_image(path, output_path, ConvertFormat::Jpeg, decode, encode)
}

/// Whether `out` is an output path the namer can have chosen for `file`:
/// the file's directory, its stem, and either the plain overwrite name or a
/// counted collision-avoidance name.
pub open spec fn output_path_ok(
    out: String,
    file: String,
    format: ConvertFormat,
    overwrite: bool,
) -> bool {
    if overwrite {
        out@ == spec_overwrite_output_path(file@, format)
    } else {
        exists|n: nat| n >= 1 && out@ == #[trigger] spec_fresh_output_path(file@, format, n)
    }
}

/// What the batch engine guarantees of one file's outcome.  A success names
/// an output path of the shape the namer computes, and both codec steps
/// succeeded for it.  A failure names the file it came from and carries the
/// rendered description of an error the codec really produced for it.
pub open spec fn outcome_for_file<
    Img,
    D: Fn(String) -> Result<Img, String>,
    E: Fn(Img, String, ConvertFormat) -> Result<(), String>,
>(
    oc: ConversionOutcome,
    file: String,
    format: ConvertFormat,
    overwrite: bool,
    decode: D,
    encode: E,
) -> bool {
    match oc {
        ConversionOutcome::Success(out) => {
            &&& output_path_ok(out, file, format, overwrite)
            &&& codec_outcome::<Img, D, E>(decode, encode, file, out, format, Ok(()))
        },
        ConversionOutcome::Failure(input, desc) => {
            &&& input == file
            &&& exists|e: ConversionError, out: String|
                {
                    &&& desc@ == spec_error_description(e)
                    &&& output_path_ok(out, file, format, overwrite)
                    &&& #[trigger] codec_outcome::<Img, D, E>(
                        decode,
                        encode,
                        file,
                        out,
                        format,
                        Err(e),
                    )
                }
        },
    }
}

/// How a batch result relates to a sequence of per-file outcomes: one
/// outcome per file, in order; the counts count them; the error lines are
/// exactly the failures' lines.
pub open spec fn batch_outcomes_consistent<
    Img,
    D: Fn(String) -> Result<Img, String>,
    E: Fn(Img, String, ConvertFormat) -> Result<(), String>,
>(
    outs: Seq<ConversionOutcome>,
    files: Seq<String>,
    format: ConvertFormat,
    overwrite: bool,
    decode: D,
    encode: E,
    r: BatchResult,
) -> bool {
    &&& outs.len() == files.len()
    &&& r.success_count == count_successes(outs)
    &&& r.failure_count == count_failures(outs)
    &&& r.errors.deep_view() == failure_messages(outs)
    &&& forall|i: int|
        0 <= i < outs.len() ==> #[trigger] outcome_for_file::<Img, D, E>(
            outs[i],
            files[i],
            format,
            overwrite,
            decode,
            encode,
        )
}

/// Converts a batch of files to `format`, aggregating one outcome per file.
///
/// For each file in order, the engine asks `list_existing` for the file
/// names currently present in the file's directory (handing it the file's
/// directory prefix, empty for a bare file name), computes the output path,
/// converts through `decode` and `encode`, records the outcome, and hands
/// `progress` the pair (files processed so far, total) — a strictly
/// increasing processed value that reaches the total exactly when the batch
/// completes.  One file's failure never affects the others: every file
/// yields exactly one outcome, and the call always returns an aggregate.
pub fn convert_batch<Img, D, E, X, P>(
    files: &Vec<String>,
    format: ConvertFormat,
    overwrite: bool,
    decode: &D,
    encode: &E,
    list_existing: &X,
    progress: &P,
) -> (r: BatchResult) where
    D: Fn(String) -> Result<Img, String>,
    E: Fn(Img, String, ConvertFormat) -> Result<(), String>,
    X: Fn(String) -> Vec<String>,
    P: Fn(usize, usize) -> (),

    requires
        forall|p: String| call_requires(*decode, (p,)),
        forall|img: Img, out: String| call_requires(*encode, (img, out, format)),
        forall|d: String| call_requires(*list_existing, (d,)),
        forall|d: String, ret: Vec<String>|
            call_ensures(*list_existing, (d,), ret) ==> ret@.len() < usize::MAX,
        forall|done: usize, total: usize| call_requires(*progress, (done, total)),
    ensures
        r.success_count + r.failure_count == files@.len(),
        r.errors@.len() == r.failure_count,
        exists|outs: Seq<ConversionOutcome>|
            #[trigger] batch_outcomes_consistent::<Img, D, E>(
                outs,
                files@,
                format,
                overwrite,
                *decode,
                *encode,
                r,
            ),
{
    let total = files.len();
    let mut state = BatchState::new(total);
    let ghost mut outs: Seq<ConversionOutcome> = Seq::empty();
    let mut i: usize = 0;
    while i < total
        invariant
            total == files@.len(),
            i <= total,
            state.wf(),
            state.total == total,
            state.processed == i,
            outs.len() == i,
            state.success_count == count_successes(outs),
            state.failure_count == count_failures(outs),
            state.errors.deep_view() == failure_messages(outs),
            forall|j: int|
                0 <= j < i ==> #[trigger] outcome_for_file::<Img, D, E>(
                    outs[j],
                    files@[j],
                    format,
                    overwrite,
                    *decode,
                    *encode,
                ),
            forall|p: String| call_requires(*decode, (p,)),
            forall|img: Img, out: String| call_requires(*encode, (img, out, format)),
            forall|d: String| call_requires(*list_existing, (d,)),
            forall|d: String, ret: Vec<String>|
                call_ensures(*list_existing, (d,), ret) ==> ret@.len() < usize::MAX,
            forall|done: usize, tot: usize| call_requires(*progress, (done, tot)),
        decreases total - i,
    {
        let file = &files[i];
        let existing: Vec<String> = if overwrite {
            Vec::new()
        } else {
            let dir = dir_prefix_part(file.as_str());
            list_existing(String::from_str(dir))
        };
        let out_path = compute_output_path(file.as_str(), format, overwrite, &existing);
        let ghost pre_outs = outs;
        let ghost g_out_path = out_path;
        let converted = convert_image(file, &out_path, format, decode, encode);
        let ghost g_converted = converted;
        match converted {
            Ok(_) => {
                state.record_success();
                proof {
                    // The unit payload pins the result to `Ok(())`.
                    assert(g_converted->Ok_0 == ());
                    outs = outs.push(ConversionOutcome::Success(out_path));
                }
            },
            Err(e) => {
                let desc = e.description();
                let line = failure_line(file.as_str(), desc.as_str());
                let ghost g_desc = desc;
                let ghost g_e = e;
                state.record_failure(line);
                proof {
                    outs = outs.push(ConversionOutcome::Failure(*file, g_desc));
                    assert(g_desc@ == spec_error_description(g_e));
                    assert(codec_outcome::<Img, D, E>(
                        *decode,
                        *encode,
                        files@[i as int],
                        g_out_path,
                        format,
                        Err(g_e),
                    ));
                }
            },
        }
        proof {
            assert(outs.drop_last() == pre_outs);
            assert(outcome_for_file::<Img, D, E>(
                outs.last(),
                files@[i as int],
                format,
                overwrite,
                *decode,
                *encode,
            ));
            assert(state.errors.deep_view() =~= failure_messages(outs));
        }
        progress(state.processed, total);
        i += 1;
    }
    let r = state.into_result();
    proof {
        assert(r.errors.deep_view() =~= failure_messages(outs));
        lemma_outcome_counts(outs);
        assert(batch_outcomes_consistent::<Img, D, E>(
            outs,
            files@,
            format,
            overwrite,
            *decode,
            *encode,
            r,
        ));
    }
    r
}

} // verus!
