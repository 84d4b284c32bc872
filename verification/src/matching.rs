//! Best-fit format matching: which of a device's formats comes closest to
//! the one a caller asks for.
//!
//! The match walks the candidates in list order and keeps a running best,
//! which starts as the all-zero format at position 0. A candidate replaces
//! the running best exactly when its error is strictly lower. Both errors are
//! sums of squared differences to the request, but they are not formed alike:
//! the running best always pays for its frame rate once a rate is requested,
//! a candidate only when its rate falls short of the request.

use vstd::prelude::*;
use crate::format::Format;

verus! {

/// The square of the difference of two values.
pub open spec fn squared_difference(a: u32, b: u32) -> int {
    (a - b) * (a - b)
}

/// The error in width and height, which every score includes.
pub open spec fn geometry_error(f: Format, desired: Format) -> int {
    squared_difference(f.width, desired.width) + squared_difference(f.height, desired.height)
}

/// The error in the pixelformat, counted only where one is requested.
pub open spec fn fourcc_error(f: Format, desired: Format) -> int {
    if desired.fourcc.code() > 0 {
        squared_difference(f.fourcc.code(), desired.fourcc.code())
    } else {
        0
    }
}

/// The score of the running best: once a frame rate is requested its
/// distance to the request counts, whether the rate is below or above it.
pub open spec fn incumbent_score(best: Format, desired: Format) -> int {
    geometry_error(best, desired) + (if desired.fps > 0 {
        squared_difference(best.fps, desired.fps)
    } else {
        0
    }) + fourcc_error(best, desired)
}

/// The score of a candidate: a requested frame rate counts only where the
/// candidate falls short of it.
pub open spec fn candidate_score(candidate: Format, desired: Format) -> int {
    geometry_error(candidate, desired) + (if desired.fps > 0 && candidate.fps < desired.fps {
        squared_difference(candidate.fps, desired.fps)
    } else {
        0
    }) + fourcc_error(candidate, desired)
}

/// The position and the format that the match settles on after walking
/// `formats` from front to back.
pub open spec fn best_fit(formats: Seq<Format>, desired: Format) -> (int, Format)
    decreases formats.len(),
{
    if formats.len() == 0 {
        (0, Format::zero())
    } else {
        let earlier = best_fit(formats.drop_last(), desired);
        let candidate = formats.last();
        if candidate_score(candidate, desired) < incumbent_score(earlier.1, desired) {
            (formats.len() - 1, candidate)
        } else {
            earlier
        }
    }
}

/// The match either stays with the all-zero format at position 0 or picks
/// a format of the list, at the position where it stands.
pub proof fn lemma_best_fit_in_list(formats: Seq<Format>, desired: Format)
    ensures
        ({
            let fit = best_fit(formats, desired);
            ||| (fit.0 == 0 && fit.1 == Format::zero())
            ||| (0 <= fit.0 < formats.len() && fit.1 == formats[fit.0])
        }),
    decreases formats.len(),
{
    if formats.len() > 0 {
        lemma_best_fit_in_list(formats.drop_last(), desired);
    }
}

/// Whether two requests ask for the same: equal width, height, frame rate
/// and pixelformat. The bits per pixel of a request play no part.
pub open spec fn same_request(a: Format, b: Format) -> bool {
    &&& a.width == b.width
    &&& a.height == b.height
    &&& a.fps == b.fps
    &&& a.fourcc.code() == b.fourcc.code()
}

/// The match depends on nothing but the candidates, their order and what
/// the request asks for: two lists that hold the same formats at the same
/// positions, matched against requests that ask for the same, give the same
/// position and the same format.
pub proof fn lemma_best_fit_deterministic(
    a: Seq<Format>,
    b: Seq<Format>,
    desired_a: Format,
    desired_b: Format,
)
    requires
        a.len() == b.len(),
        forall|i: int| 0 <= i < a.len() ==> a[i] == b[i],
        same_request(desired_a, desired_b),
    ensures
        best_fit(a, desired_a) == best_fit(b, desired_b),
    decreases a.len(),
{
    assert(a =~= b);
    if a.len() > 0 {
        lemma_best_fit_deterministic(a.drop_last(), b.drop_last(), desired_a, desired_b);
    }
}

/// Whether the two scores cannot differ on any candidate: no frame rate is
/// requested, or no candidate is faster than the request.
pub open spec fn no_rate_above_request(formats: Seq<Format>, desired: Format) -> bool {
    desired.fps > 0 ==> forall|i: int| 0 <= i < formats.len() ==> formats[i].fps <= desired.fps
}

/// A format that is not faster than the request scores the same as a
/// candidate and as the running best.
pub proof fn lemma_scores_agree(f: Format, desired: Format)
    requires
        desired.fps > 0 ==> f.fps <= desired.fps,
    ensures
        candidate_score(f, desired) == incumbent_score(f, desired),
{
    if f.fps == desired.fps {
        assert(squared_difference(f.fps, desired.fps) == 0);
    }
}

/// Where no candidate is faster than the request, the chosen format has the
/// least score of all: no candidate of the list scores lower.
pub proof fn lemma_fit_is_least(formats: Seq<Format>, desired: Format, i: int)
    requires
        no_rate_above_request(formats, desired),
        0 <= i < formats.len(),
    ensures
        incumbent_score(best_fit(formats, desired).1, desired) <= incumbent_score(
            formats[i],
            desired,
        ),
    decreases formats.len(),
{
    let earlier = formats.drop_last();
    assert(no_rate_above_request(earlier, desired)) by {
        assert forall|k: int| 0 <= k < earlier.len() implies earlier[k] == formats[k] by {}
    }
    assert(formats.last() == formats[formats.len() - 1]);
    lemma_scores_agree(formats.last(), desired);
    if i < formats.len() - 1 {
        lemma_fit_is_least(earlier, desired, i);
        assert(earlier[i] == formats[i]);
    }
}

/// Where no candidate is faster than the request, the chosen format is the
/// first with the least score: every candidate before it scores strictly
/// higher.
pub proof fn lemma_fit_is_first(formats: Seq<Format>, desired: Format, j: int)
    requires
        no_rate_above_request(formats, desired),
        0 <= j < best_fit(formats, desired).0,
    ensures
        j < formats.len(),
        incumbent_score(formats[j], desired) > incumbent_score(
            best_fit(formats, desired).1,
            desired,
        ),
    decreases formats.len(),
{
    lemma_best_fit_in_list(formats, desired);
    let earlier = formats.drop_last();
    assert(no_rate_above_request(earlier, desired)) by {
        assert forall|k: int| 0 <= k < earlier.len() implies earlier[k] == formats[k] by {}
    }
    assert(formats.last() == formats[formats.len() - 1]);
    lemma_scores_agree(formats.last(), desired);
    assert(earlier[j] == formats[j]);
    if best_fit(formats, desired).0 == formats.len() - 1 && best_fit(formats, desired)
        != best_fit(earlier, desired) {
        lemma_fit_is_least(earlier, desired, j);
    } else {
        lemma_fit_is_first(earlier, desired, j);
    }
}

/// Where neither a frame rate nor a pixelformat is requested and a candidate
/// has exactly the requested width and height, the chosen format has them
/// too; unless the request is for width and height zero, it is the first
/// such candidate of the list.
pub proof fn lemma_exact_geometry_is_chosen(formats: Seq<Format>, desired: Format, i: int)
    requires
        desired.fps == 0,
        desired.fourcc.code() == 0,
        0 <= i < formats.len(),
        formats[i].width == desired.width,
        formats[i].height == desired.height,
    ensures
        best_fit(formats, desired).1.width == desired.width,
        best_fit(formats, desired).1.height == desired.height,
        desired.width != 0 || desired.height != 0 ==> {
            let fit = best_fit(formats, desired);
            &&& 0 <= fit.0 <= i
            &&& fit.1 == formats[fit.0]
            &&& forall|j: int|
                0 <= j < fit.0 ==> formats[j].width != desired.width || formats[j].height
                    != desired.height
        },
{
    let fit = best_fit(formats, desired);
    lemma_fit_is_least(formats, desired, i);
    lemma_best_fit_in_list(formats, desired);
    assert(geometry_error(formats[i], desired) == 0);
    lemma_zero_error_is_exact(fit.1, desired);
    if fit.0 > i {
        lemma_fit_is_first(formats, desired, i);
    }
    assert forall|j: int| 0 <= j < fit.0 implies formats[j].width != desired.width
        || formats[j].height != desired.height by {
        lemma_fit_is_first(formats, desired, j);
        if formats[j].width == desired.width && formats[j].height == desired.height {
            assert(geometry_error(formats[j], desired) == 0);
        }
    }
}

/// The error in width and height is never negative, and is zero only for
/// exactly the requested width and height.
pub proof fn lemma_zero_error_is_exact(f: Format, desired: Format)
    ensures
        geometry_error(f, desired) >= 0,
        geometry_error(f, desired) == 0 <==> f.width == desired.width && f.height
            == desired.height,
{
    let dw: int = f.width - desired.width;
    let dh: int = f.height - desired.height;
    assert(dw * dw >= 0 && (dw * dw == 0 <==> dw == 0)) by (nonlinear_arith);
    assert(dh * dh >= 0 && (dh * dh == 0 <==> dh == 0)) by (nonlinear_arith);
}

fn squared_difference_of(a: u32, b: u32) -> (square: u128)
    ensures
        square == squared_difference(a, b),
        square <= 0xffff_ffff_0000_0000,
{
    let d: u64 = if a >= b {
        (a - b) as u64
    } else {
        (b - a) as u64
    };
    assert(d * d <= 0xffff_ffff * 0xffff_ffff) by (nonlinear_arith)
        requires
            d <= 0xffff_ffff,
    ;
    assert(d * d == (a - b) * (a - b)) by (nonlinear_arith)
        requires
            d == a - b || d == b - a,
    ;
    (d as u128) * (d as u128)
}

fn fourcc_error_of(f: &Format, desired: &Format) -> (error: u128)
    ensures
        error == fourcc_error(*f, *desired),
        error <= 0xffff_ffff_0000_0000,
{
    let wanted = desired.fourcc.as_u32();
    if wanted > 0 {
        squared_difference_of(f.fourcc.as_u32(), wanted)
    } else {
        0
    }
}

fn incumbent_score_of(best: &Format, desired: &Format) -> (score: u128)
    ensures
        score == incumbent_score(*best, *desired),
{
    let mut score: u128 = squared_difference_of(best.width, desired.width) + squared_difference_of(
        best.height,
        desired.height,
    );
    if desired.fps > 0 {
        score = score + squared_difference_of(best.fps, desired.fps);
    }
    score + fourcc_error_of(best, desired)
}

fn candidate_score_of(candidate: &Format, desired: &Format) -> (score: u128)
    ensures
        score == candidate_score(*candidate, *desired),
{
    let mut score: u128 = squared_difference_of(candidate.width, desired.width)
        + squared_difference_of(candidate.height, desired.height);
    if desired.fps > 0 {
        // only a shortfall in frame rate is penalized
        if candidate.fps < desired.fps {
            score = score + squared_difference_of(candidate.fps, desired.fps);
        }
    }
    score + fourcc_error_of(candidate, desired)
}

/// Looks for the best match of `desired` among `formats`.
///
/// Returns the position of the chosen format in `formats` together with the
/// format itself. Where no candidate scores strictly lower than the all-zero
/// format, which an empty list is one case of, the all-zero format at
/// position 0 comes back.
pub fn best_match(formats: &Vec<Format>, desired: &Format) -> (fit: (usize, Format))
    ensures
        (fit.0 as int, fit.1) == best_fit(formats@, *desired),
        fit.0 == 0 && fit.1 == Format::zero() || fit.0 < formats.len() && fit.1 == formats@[
            fit.0 as int],
{
    let mut position: usize = 0;
    let mut best = Format::default();
    let mut i: usize = 0;
    while i < formats.len()
        invariant
            i <= formats.len(),
            (position as int, best) == best_fit(formats@.take(i as int), *desired),
        decreases formats.len() - i,
    {
        let candidate = formats[i];
        proof {
            assert(formats@.take(i + 1).drop_last() =~= formats@.take(i as int));
        }
        if candidate_score_of(&candidate, desired) < incumbent_score_of(&best, desired) {
            position = i;
            best = candidate;
        }
        i += 1;
    }
    proof {
        assert(formats@.take(i as int) =~= formats@);
        lemma_best_fit_in_list(formats@, *desired);
    }
    (position, best)
}

} // verus!
