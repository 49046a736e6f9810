//! The waveform downsampler: renders an arbitrarily long pulse-code
//! buffer into a fixed-width min/max envelope for pixel display.
//!
//! Two passes on purpose: global extremes first, then each column is
//! normalized against them, so relative amplitude across the whole buffer
//! is preserved rather than flattened per column.

use vstd::prelude::*;
use vstd::arithmetic::div_mod::lemma_div_is_ordered;
use vstd::arithmetic::div_mod::lemma_div_multiples_vanish;
use vstd::arithmetic::div_mod::lemma_fundamental_div_mod;

verus! {

/// One pulse-code sample, in whatever fixed-point scale the caller chose.
/// A value that was not a finite number is kept as such, so the policy on
/// bad input can be decided here rather than hidden by a silent default.
#[derive(Clone, Copy, Debug, PartialEq, Eq, Structural)]
pub enum PcmSample {
    Finite(i64),
    NonFinite,
}

/// The numeric value of a sample (zero for a non-finite one, which every
/// consumer below rules out first).
pub open spec fn val(p: PcmSample) -> int {
    match p {
        PcmSample::Finite(v) => v as int,
        PcmSample::NonFinite => 0,
    }
}

pub open spec fn all_finite(s: Seq<PcmSample>) -> bool {
    forall|i: int| 0 <= i < s.len() ==> s[i] is Finite
}

/// Smallest value in a non-empty sequence.
pub open spec fn min_val(s: Seq<PcmSample>) -> int
    recommends
        s.len() > 0,
    decreases s.len(),
{
    if s.len() <= 1 {
        val(s[0])
    } else {
        let m = min_val(s.drop_last());
        if val(s.last()) < m {
            val(s.last())
        } else {
            m
        }
    }
}

/// Largest value in a non-empty sequence.
pub open spec fn max_val(s: Seq<PcmSample>) -> int
    recommends
        s.len() > 0,
    decreases s.len(),
{
    if s.len() <= 1 {
        val(s[0])
    } else {
        let m = max_val(s.drop_last());
        if val(s.last()) > m {
            val(s.last())
        } else {
            m
        }
    }
}

pub proof fn lemma_min_le_all(s: Seq<PcmSample>)
    requires
        s.len() > 0,
    ensures
        forall|i: int| 0 <= i < s.len() ==> min_val(s) <= val(s[i]),
    decreases s.len(),
{
    if s.len() > 1 {
        lemma_min_le_all(s.drop_last());
        assert forall|i: int| 0 <= i < s.len() implies min_val(s) <= val(s[i]) by {
            if i < s.len() - 1 {
                assert(s.drop_last()[i] == s[i]);
            }
        }
    }
}

pub proof fn lemma_max_ge_all(s: Seq<PcmSample>)
    requires
        s.len() > 0,
    ensures
        forall|i: int| 0 <= i < s.len() ==> val(s[i]) <= max_val(s),
    decreases s.len(),
{
    if s.len() > 1 {
        lemma_max_ge_all(s.drop_last());
        assert forall|i: int| 0 <= i < s.len() implies val(s[i]) <= max_val(s) by {
            if i < s.len() - 1 {
                assert(s.drop_last()[i] == s[i]);
            }
        }
    }
}

pub proof fn lemma_min_attained(s: Seq<PcmSample>)
    requires
        s.len() > 0,
    ensures
        exists|i: int| 0 <= i < s.len() && min_val(s) == val(s[i]),
    decreases s.len(),
{
    if s.len() <= 1 {
        assert(min_val(s) == val(s[0]));
    } else {
        lemma_min_attained(s.drop_last());
        if val(s.last()) < min_val(s.drop_last()) {
            assert(min_val(s) == val(s[s.len() - 1]));
        } else {
            let j = choose|j: int|
                0 <= j < s.drop_last().len() && min_val(s.drop_last()) == val(s.drop_last()[j]);
            assert(s.drop_last()[j] == s[j]);
            assert(min_val(s) == val(s[j]));
        }
    }
}

pub proof fn lemma_max_attained(s: Seq<PcmSample>)
    requires
        s.len() > 0,
    ensures
        exists|i: int| 0 <= i < s.len() && max_val(s) == val(s[i]),
    decreases s.len(),
{
    if s.len() <= 1 {
        assert(max_val(s) == val(s[0]));
    } else {
        lemma_max_attained(s.drop_last());
        if val(s.last()) > max_val(s.drop_last()) {
            assert(max_val(s) == val(s[s.len() - 1]));
        } else {
            let j = choose|j: int|
                0 <= j < s.drop_last().len() && max_val(s.drop_last()) == val(s.drop_last()[j]);
            assert(s.drop_last()[j] == s[j]);
            assert(max_val(s) == val(s[j]));
        }
    }
}

/// Inverse linear interpolation of `v` between the global extremes,
/// scaled to the pixel height and truncated. A flat signal (equal
/// extremes) maps everything to row zero rather than dividing by zero.
pub open spec fn norm(v: int, gmin: int, gmax: int, height: nat) -> int {
    if gmax == gmin {
        0
    } else {
        (v - gmin) * height / (gmax - gmin)
    }
}

/// The samples of the column at index `i`, for chunks of length `clen`.
pub open spec fn chunk_of(data: Seq<PcmSample>, clen: nat, i: int) -> Seq<PcmSample> {
    data.subrange(i * clen, (i + 1) * clen)
}

/// The top and bottom pixel rows of the column at index `i`.
pub open spec fn spec_column(data: Seq<PcmSample>, clen: nat, i: int, height: nat) -> (int, int) {
    let gmin = min_val(data);
    let gmax = max_val(data);
    (
        norm(min_val(chunk_of(data, clen, i)), gmin, gmax, height),
        norm(max_val(chunk_of(data, clen, i)), gmin, gmax, height),
    )
}

fn value_of(p: &PcmSample) -> (v: i64)
    requires
        *p is Finite,
    ensures
        v as int == val(*p),
{
    match p {
        PcmSample::Finite(v) => *v,
        PcmSample::NonFinite => 0,
    }
}

/// Smallest and largest sample in `data[start..end]`.
fn min_max(data: &Vec<PcmSample>, start: usize, end: usize) -> (r: (i64, i64))
    requires
        start < end <= data@.len(),
        forall|i: int| start <= i < end ==> data@[i] is Finite,
    ensures
        r.0 as int == min_val(data@.subrange(start as int, end as int)),
        r.1 as int == max_val(data@.subrange(start as int, end as int)),
{
    let first = value_of(&data[start]);
    let mut cur_min: i64 = first;
    let mut cur_max: i64 = first;
    let mut i: usize = start + 1;
    proof {
        assert(data@.subrange(start as int, start + 1) =~= seq![data@[start as int]]);
    }
    while i < end
        invariant
            start < i <= end <= data@.len(),
            forall|j: int| start <= j < end ==> data@[j] is Finite,
            cur_min as int == min_val(data@.subrange(start as int, i as int)),
            cur_max as int == max_val(data@.subrange(start as int, i as int)),
        decreases end - i,
    {
        let v = value_of(&data[i]);
        proof {
            let prev = data@.subrange(start as int, i as int);
            let cur = data@.subrange(start as int, i + 1);
            assert(cur.drop_last() =~= prev);
            assert(cur.last() == data@[i as int]);
        }
        if v < cur_min {
            cur_min = v;
        }
        if v > cur_max {
            cur_max = v;
        }
        i = i + 1;
    }
    (cur_min, cur_max)
}

/// One normalized pixel row.
fn scale_value(v: i64, gmin: i64, gmax: i64, height: usize) -> (r: usize)
    requires
        gmin <= v <= gmax,
        height <= 0x1_0000_0000,
    ensures
        r as int == norm(v as int, gmin as int, gmax as int, height as nat),
        r <= height,
{
    if gmax == gmin {
        return 0;
    }
    let num_i: i128 = v as i128 - gmin as i128;
    let den_i: i128 = gmax as i128 - gmin as i128;
    let num: u128 = num_i as u128;
    let den: u128 = den_i as u128;
    proof {
        assert(0 <= num_i <= u64::MAX);
        assert(0 < den_i <= u64::MAX);
        assert(num as int == v - gmin);
        assert(den as int == gmax - gmin);
        assert(num as int * (height as int) <= u64::MAX as int * 0x1_0000_0000)
            by (nonlinear_arith)
            requires
                0 <= num as int <= u64::MAX as int,
                0 <= height as int <= 0x1_0000_0000,
        ;
    }
    let prod: u128 = num * (height as u128);
    let q: u128 = prod / den;
    proof {
        assert(num as int == v - gmin);
        assert(den as int == gmax - gmin);
        assert(prod as int == (v - gmin) * height) by (nonlinear_arith)
            requires
                num as int == v - gmin,
                prod as int == num as int * height as int,
        ;
        assert((v - gmin) * height <= (gmax - gmin) * height) by (nonlinear_arith)
            requires
                0 <= v - gmin <= gmax - gmin,
                height >= 0,
        ;
        lemma_div_is_ordered((v - gmin) * height, (gmax - gmin) * height, gmax - gmin);
        lemma_div_multiples_vanish(height as int, gmax - gmin);
        assert((gmax - gmin) * (height as int) == (gmax - gmin) * height);
        assert(q as int <= height);
    }
    q as usize
}

/// The min/max columns of the whole buffer: `width` chunks of length
/// `len / width`, each normalized against the global extremes. Fewer
/// samples than columns means nothing to draw.
pub fn to_waveform(data: &Vec<PcmSample>, width: usize, height: usize) -> (points: Vec<
    (usize, usize),
>)
    requires
        data@.len() > 0,
        all_finite(data@),
        width >= 1,
        height <= 0x1_0000_0000,
    ensures
        data@.len() / (width as nat) == 0 ==> points@.len() == 0,
        data@.len() / (width as nat) > 0 ==> {
            &&& points@.len() == width
            &&& forall|i: int|
                0 <= i < width ==> (points@[i].0 as int, points@[i].1 as int) == spec_column(
                    data@,
                    (data@.len() / (width as nat)) as nat,
                    i,
                    height as nat,
                )
        },
{
    let len: usize = data.len();
    let clen: usize = len / width;
    let mut points: Vec<(usize, usize)> = Vec::new();
    if clen == 0 {
        return points;
    }
    let gpair = min_max(data, 0, len);
    let gmin: i64 = gpair.0;
    let gmax: i64 = gpair.1;
    proof {
        assert(data@.subrange(0, data@.len() as int) =~= data@);
        lemma_fundamental_div_mod(len as int, width as int);
        assert(width * clen <= len) by (nonlinear_arith)
            requires
                len as int == (width as int) * (clen as int) + len as int % width as int,
                len as int % width as int >= 0,
        ;
    }
    let mut x: usize = 0;
    while x < width
        invariant
            x <= width,
            len == data@.len(),
            clen == data@.len() as int / width as int,
            clen >= 1,
            width * clen <= len,
            data@.len() > 0,
            all_finite(data@),
            height <= 0x1_0000_0000,
            gmin as int == min_val(data@),
            gmax as int == max_val(data@),
            points@.len() == x,
            forall|i: int|
                0 <= i < x ==> (points@[i].0 as int, points@[i].1 as int) == spec_column(
                    data@,
                    clen as nat,
                    i,
                    height as nat,
                ),
        decreases width - x,
    {
        proof {
            assert((x + 1) * clen <= width * clen) by (nonlinear_arith)
                requires
                    x as int + 1 <= width as int,
                    clen as int >= 0,
            ;
            assert(x * clen < (x + 1) * clen) by (nonlinear_arith)
                requires
                    clen as int >= 1,
                    x as int >= 0,
            ;
            assert((x + 1) * clen == x * clen + clen) by (nonlinear_arith);
        }
        let lo: usize = x * clen;
        let hi: usize = lo + clen;
        let cpair = min_max(data, lo, hi);
        let lmin: i64 = cpair.0;
        let lmax: i64 = cpair.1;
        proof {
            let chunk = data@.subrange(lo as int, hi as int);
            lemma_min_attained(chunk);
            lemma_max_attained(chunk);
            let jn = choose|j: int| 0 <= j < chunk.len() && min_val(chunk) == val(chunk[j]);
            let jx = choose|j: int| 0 <= j < chunk.len() && max_val(chunk) == val(chunk[j]);
            lemma_min_le_all(data@);
            lemma_max_ge_all(data@);
            assert(chunk[jn] == data@[lo + jn]);
            assert(chunk[jx] == data@[lo + jx]);
            assert(gmin as int <= lmin as int <= gmax as int);
            assert(gmin as int <= lmax as int <= gmax as int);
        }
        let top = scale_value(lmin, gmin, gmax, height);
        let bottom = scale_value(lmax, gmin, gmax, height);
        points.push((top, bottom));
        proof {
            assert(data@.subrange(lo as int, hi as int) =~= chunk_of(data@, clen as nat, x as int));
        }
        x = x + 1;
    }
    points
}

/// A rendered preview: the duration inputs (always reported, whatever
/// else happened) plus one `(top, bottom)` row pair per pixel column, or
/// an error marker when the input was empty or not finite throughout.
#[derive(Clone, Debug, PartialEq)]
pub struct Waveform {
    pub sample_count: usize,
    pub sample_rate: usize,
    pub points: Vec<(usize, usize)>,
    pub error: bool,
}

impl Waveform {
    /// Downsamples `data` to `width` columns of `height` rows. An empty
    /// buffer or any non-finite sample yields the explicit error state —
    /// a visible placeholder beats silently drawing garbage.
    pub fn new(data: Vec<PcmSample>, sample_rate: usize, width: usize, height: usize) -> (w:
        Waveform)
        requires
            sample_rate >= 1,
            width >= 1,
            height <= 0x1_0000_0000,
        ensures
            w.sample_count == data@.len(),
            w.sample_rate == sample_rate,
            w.error == (data@.len() == 0 || !all_finite(data@)),
            w.error ==> w.points@.len() == 0,
            !w.error && data@.len() / (width as nat) == 0 ==> w.points@.len() == 0,
            !w.error && data@.len() / (width as nat) > 0 ==> {
                &&& w.points@.len() == width
                &&& forall|i: int|
                    0 <= i < width ==> (w.points@[i].0 as int, w.points@[i].1 as int)
                        == spec_column(
                        data@,
                        (data@.len() / (width as nat)) as nat,
                        i,
                        height as nat,
                    )
            },
    {
        let len: usize = data.len();
        let mut finite = true;
        let mut i: usize = 0;
        while i < len
            invariant
                i <= len == data@.len(),
                finite == all_finite(data@.subrange(0, i as int)),
            decreases len - i,
        {
            let is_fin = match data[i] {
                PcmSample::Finite(_) => true,
                PcmSample::NonFinite => false,
            };
            proof {
                let prev = data@.subrange(0, i as int);
                let cur = data@.subrange(0, i + 1);
                assert(forall|j: int| 0 <= j < i ==> cur[j] == prev[j]);
                assert(cur[i as int] == data@[i as int]);
                if finite && is_fin {
                    assert forall|j: int| 0 <= j < cur.len() implies cur[j] is Finite by {
                        if j < i {
                            assert(prev[j] is Finite);
                        }
                    }
                    assert(all_finite(cur));
                }
                if !finite {
                    let j = choose|j: int| 0 <= j < prev.len() && !(prev[j] is Finite);
                    assert(cur[j] == prev[j]);
                    assert(!all_finite(cur));
                }
                if !is_fin {
                    assert(!(cur[i as int] is Finite));
                    assert(!all_finite(cur));
                }
            }
            if !is_fin {
                finite = false;
            }
            i = i + 1;
        }
        proof {
            assert(data@.subrange(0, data@.len() as int) =~= data@);
        }
        if len == 0 || !finite {
            Waveform { sample_count: len, sample_rate, points: Vec::new(), error: true }
        } else {
            let points = to_waveform(&data, width, height);
            Waveform { sample_count: len, sample_rate, points, error: false }
        }
    }

    /// The duration in milliseconds: sample count over sample rate,
    /// unaffected by the error and degenerate paths.
    pub fn duration_millis(&self) -> (r: u128)
        requires
            self.sample_rate >= 1,
        ensures
            r as int == self.sample_count as int * 1000 / self.sample_rate as int,
    {
        (self.sample_count as u128) * 1000 / (self.sample_rate as u128)
    }
}

/// Equal samples throughout give equal global extremes.
pub proof fn lemma_constant_input_flat(data: Seq<PcmSample>)
    requires
        data.len() > 0,
        forall|i: int| 0 <= i < data.len() ==> #[trigger] val(data[i]) == val(data[0]),
    ensures
        min_val(data) == max_val(data),
{
    lemma_min_attained(data);
    lemma_max_attained(data);
}

/// A constant-valued buffer maps every column to row zero: no
/// divide-by-zero, nothing out of range.
pub proof fn lemma_constant_input_columns(
    data: Seq<PcmSample>,
    clen: nat,
    i: int,
    height: nat,
)
    requires
        data.len() > 0,
        forall|j: int| 0 <= j < data.len() ==> #[trigger] val(data[j]) == val(data[0]),
    ensures
        spec_column(data, clen, i, height) == (0int, 0int),
{
    lemma_constant_input_flat(data);
}

} // verus!
