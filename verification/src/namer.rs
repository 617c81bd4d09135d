//! The output namer: given an input path, a target format and an overwrite
//! flag, it computes the output path.
//!
//! The output lives in the input's directory.  With `overwrite` set the name
//! is `<stem>.<ext>` regardless of what exists; without it the name is
//! `<stem>_converted_<n>.<ext>` for the least `n >= 1` whose name is not
//! among the file names already present in that directory.

use vstd::prelude::*;
use vstd::seq_lib::seq_to_set_is_finite;
use vstd::set_lib::lemma_len_subset;
use vstd::string::StringExecFns;

use crate::decimal::dec_rep;
use crate::decimal::lemma_dec_rep_injective;
use crate::decimal::lemma_dec_rep_len;
use crate::decimal::u64_to_decimal;
use crate::formats::spec_extension;
use crate::formats::ConvertFormat;
use crate::paths::dir_prefix_part;
use crate::paths::spec_dir_prefix;
use crate::paths::spec_stem;
use crate::paths::stem_part;

verus! {

/// The marker between a stem and the collision-avoidance counter.
pub open spec fn converted_infix() -> Seq<char> {
    seq!['_', 'c', 'o', 'n', 'v', 'e', 'r', 't', 'e', 'd', '_']
}

/// The output file name used when overwriting is allowed.
pub open spec fn overwrite_name(stem: Seq<char>, format: ConvertFormat) -> Seq<char> {
    stem + seq!['.'] + spec_extension(format)
}

/// The `n`-th candidate file name tried when overwriting is not allowed.
pub open spec fn candidate_name(stem: Seq<char>, format: ConvertFormat, n: nat) -> Seq<char> {
    stem + converted_infix() + dec_rep(n) + seq!['.'] + spec_extension(format)
}

/// Whether `name` occurs among the file names `existing`.
pub open spec fn taken(existing: Seq<String>, name: Seq<char>) -> bool {
    existing.map_values(|s: String| s@).contains(name)
}

/// Distinct candidate indices always yield distinct candidate names; this is
/// what makes the collision-avoidance search terminate.
pub proof fn lemma_candidate_injective(stem: Seq<char>, format: ConvertFormat, a: nat, b: nat)
    requires
        candidate_name(stem, format, a) == candidate_name(stem, format, b),
    ensures
        a == b,
{
    let ca = candidate_name(stem, format, a);
    let cb = candidate_name(stem, format, b);
    let pre = (stem.len() + converted_infix().len()) as int;
    lemma_dec_rep_len(a);
    lemma_dec_rep_len(b);
    assert(ca.len() == pre + dec_rep(a).len() + 1 + spec_extension(format).len());
    assert(cb.len() == pre + dec_rep(b).len() + 1 + spec_extension(format).len());
    let k = dec_rep(a).len() as int;
    assert(dec_rep(b).len() == k);
    assert(ca.subrange(pre, pre + k) =~= dec_rep(a));
    assert(cb.subrange(pre, pre + k) =~= dec_rep(b));
    lemma_dec_rep_injective(a, b);
}

/// Whether `name` is among the file names `existing`.
pub fn name_taken(existing: &Vec<String>, name: &String) -> (r: bool)
    ensures
        r == taken(existing@, name@),
{
    let ghost views = existing@.map_values(|s: String| s@);
    let mut i: usize = 0;
    while i < existing.len()
        invariant
            i <= existing@.len(),
            views == existing@.map_values(|s: String| s@),
            forall|j: int| 0 <= j < i ==> views[j] != name@,
        decreases existing@.len() - i,
    {
        if existing[i] == *name {
            proof {
                assert(views[i as int] == name@);
            }
            return true;
        }
        i += 1;
    }
    proof {
        if taken(existing@, name@) {
            let j = choose|j: int| 0 <= j < views.len() && views[j] == name@;
            assert(views[j] != name@);
        }
    }
    false
}

/// Builds `<stem>.<ext>`.
pub fn overwrite_file_name(stem: &str, format: ConvertFormat) -> (r: String)
    ensures
        r@ == overwrite_name(stem@, format),
{
    let mut r = String::from_str(stem);
    r.append(".");
    r.append(format.extension());
    proof {
        reveal_strlit(".");
        assert(r@ =~= overwrite_name(stem@, format));
    }
    r
}

/// Builds `<stem>_converted_<n>.<ext>`.
fn candidate_file_name(stem: &str, format: ConvertFormat, n: u64) -> (r: String)
    ensures
        r@ == candidate_name(stem@, format, n as nat),
{
    let mut r = String::from_str(stem);
    r.append("_converted_");
    let digits = u64_to_decimal(n);
    r.append(digits.as_str());
    r.append(".");
    r.append(format.extension());
    proof {
        reveal_strlit("_converted_");
        reveal_strlit(".");
        assert(r@ =~= candidate_name(stem@, format, n as nat));
    }
    r
}

/// Builds `<stem>_converted_<n>.<ext>` for the least `n >= 1` that does not
/// collide with any of the file names in `existing`.
pub fn fresh_file_name(stem: &str, format: ConvertFormat, existing: &Vec<String>) -> (r: String)
    requires
        existing@.len() < usize::MAX,
    ensures
        exists|n: int|
            1 <= n <= existing@.len() + 1 && r@ == #[trigger] candidate_name(
                stem@,
                format,
                n as nat,
            ) && !taken(existing@, r@) && (forall|m: int|
                1 <= m < n ==> #[trigger] taken(
                    existing@,
                    candidate_name(stem@, format, m as nat),
                )),
{
    let bound: usize = existing.len() + 1;
    let mut i: usize = 0;
    while i < bound
        invariant
            existing@.len() + 1 == bound,
            i <= bound,
            forall|m: int|
                1 <= m <= i ==> #[trigger] taken(
                    existing@,
                    candidate_name(stem@, format, m as nat),
                ),
        decreases bound - i,
    {
        let n: usize = i + 1;
        let cand = candidate_file_name(stem, format, n as u64);
        if !name_taken(existing, &cand) {
            proof {
                let k = n as int;
                assert(1 <= k <= existing@.len() + 1);
                assert(cand@ == candidate_name(stem@, format, k as nat));
            }
            return cand;
        }
        i = n;
    }
    // Unreachable: among `existing.len() + 1` pairwise-distinct candidate
    // names, at least one is not in `existing`.
    proof {
        broadcast use seq_to_set_is_finite;

        let views = existing@.map_values(|s: String| s@);
        let cands = Seq::new(bound as nat, |j: int| candidate_name(stem@, format, (j + 1) as nat));
        assert forall|i: int, j: int| 0 <= i < j < cands.len() implies cands[i] != cands[j] by {
            if cands[i] == cands[j] {
                lemma_candidate_injective(stem@, format, (i + 1) as nat, (j + 1) as nat);
            }
        }
        assert(cands.no_duplicates());
        assert forall|x: Seq<char>| cands.to_set().contains(x) implies views.to_set().contains(
            x,
        ) by {
            let j = choose|j: int| 0 <= j < cands.len() && cands[j] == x;
            assert(taken(existing@, candidate_name(stem@, format, (j + 1) as nat)));
        }
        cands.unique_seq_to_set();
        views.lemma_cardinality_of_set();
        lemma_len_subset(cands.to_set(), views.to_set());
        assert(false);
    }
    vstd::pervasive::unreached()
}

/// The output path chosen when overwriting is allowed: the input's directory
/// prefix followed by `<stem>.<ext>`.
pub open spec fn spec_overwrite_output_path(path: Seq<char>, format: ConvertFormat) -> Seq<char> {
    spec_dir_prefix(path) + overwrite_name(spec_stem(path), format)
}

/// The output path chosen when overwriting is not allowed and `n` is the
/// selected candidate index.
pub open spec fn spec_fresh_output_path(path: Seq<char>, format: ConvertFormat, n: nat) -> Seq<
    char,
> {
    spec_dir_prefix(path) + candidate_name(spec_stem(path), format, n)
}

/// Computes the output path for `input_path`: same directory, stem kept,
/// extension replaced.  With `overwrite` set the name is `<stem>.<ext>`,
/// independent of what exists; otherwise it is `<stem>_converted_<n>.<ext>`
/// for the least `n >= 1` not colliding with the file names in `existing`
/// (the names currently present in the input's directory).
pub fn compute_output_path(
    input_path: &str,
    format: ConvertFormat,
    overwrite: bool,
    existing: &Vec<String>,
) -> (r: String)
    requires
        existing@.len() < usize::MAX,
    ensures
        overwrite ==> r@ == spec_overwrite_output_path(input_path@, format),
        !overwrite ==> exists|n: int|
            1 <= n <= existing@.len() + 1 && r@ == #[trigger] spec_fresh_output_path(
                input_path@,
                format,
                n as nat,
            ) && !taken(existing@, candidate_name(spec_stem(input_path@), format, n as nat)) && (
            forall|m: int|
                1 <= m < n ==> #[trigger] taken(
                    existing@,
                    candidate_name(spec_stem(input_path@), format, m as nat),
                )),
{
    let dir = dir_prefix_part(input_path);
    let stem = stem_part(input_path);
    let name = if overwrite {
        overwrite_file_name(stem, format)
    } else {
        fresh_file_name(stem, format, existing)
    };
    let mut r = String::from_str(dir);
    r.append(name.as_str());
    proof {
        if !overwrite {
            let k = choose|n: int|
                1 <= n <= existing@.len() + 1 && name@ == #[trigger] candidate_name(
                    stem@,
                    format,
                    n as nat,
                ) && !taken(existing@, name@) && (forall|m: int|
                    1 <= m < n ==> #[trigger] taken(
                        existing@,
                        candidate_name(stem@, format, m as nat),
                    ));
            assert(r@ == spec_fresh_output_path(input_path@, format, k as nat));
        } else {
            assert(r@ == spec_overwrite_output_path(input_path@, format));
        }
    }
    r
}

} // verus!
