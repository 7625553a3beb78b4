//! Sample-rate and format negotiation between a track and the output
//! device's supported configurations.
//!
//! The engine queries the device's supported configurations once per track
//! start and asks [`negotiate_config`] for a [`ChosenConfig`] to open the
//! output stream with. The choice is made in three steps:
//!
//! 1. keep only the ranges with the desired channel count and sample format;
//! 2. if one of them covers the track's rate, play at exactly that rate;
//! 3. otherwise take the range endpoint nearest to the track's rate, provided
//!    it lies within 1% of it (ties go to the lower rate).
//!
//! If no range qualifies, the result is a [`NoMatchingConfig`] listing the
//! endpoints of the ranges kept in step 1, and the engine reports the track
//! as failed with the text of [`NoMatchingConfig::message`].

use vstd::prelude::*;
use crate::text::{decimal, decimal_list, push_decimal, push_decimal_list};

verus! {

/// The sample formats the engine can feed to a device.
#[derive(Debug, Copy, Clone, PartialEq, Eq, Structural)]
pub enum SampleFormat {
    I16,
    F32,
}

/// One supported configuration range of an output device: a channel count,
/// a sample format and an inclusive range of sample rates.
#[derive(Debug, Clone, PartialEq, Eq, Structural)]
pub struct ConfigRange {
    pub channels: u16,
    pub sample_format: SampleFormat,
    pub min_rate_hz: u32,
    pub max_rate_hz: u32,
}

/// A negotiated configuration, ready to open an output stream with.
#[derive(Debug, Clone, PartialEq, Eq, Structural)]
pub struct ChosenConfig {
    pub channels: u16,
    pub sample_format: SampleFormat,
    pub rate_hz: u32,
}

/// Returned by [`negotiate_config`] when no range matches the track.
#[derive(Debug, Clone, PartialEq, Eq)]
pub struct NoMatchingConfig {
    pub track_rate_hz: u32,
    /// Sorted, deduplicated rates at the ends of the ranges that matched the
    /// desired channel count and format (but not the track's rate); shown to
    /// the user as the available rates.
    pub nearby_rates_hz: Vec<u32>,
}

/// The range has the desired channel count and sample format.
pub open spec fn range_fits(r: ConfigRange, format: SampleFormat, channels: u16) -> bool {
    r.channels == channels && r.sample_format == format
}

/// The range's rates include `rate`.
pub open spec fn range_covers(r: ConfigRange, rate: u32) -> bool {
    r.min_rate_hz <= rate && rate <= r.max_rate_hz
}

/// The distance between two rates.
pub open spec fn rate_distance(a: u32, b: u32) -> int {
    if a >= b {
        a - b
    } else {
        b - a
    }
}

/// `e` lies within 1% of `rate`.
pub open spec fn within_one_percent(e: u32, rate: u32) -> bool {
    rate_distance(e, rate) * 100 <= rate
}

/// `e` is the lower or upper end of one of the first `n` ranges that fit.
pub open spec fn is_endpoint_in(
    s: Seq<ConfigRange>,
    n: int,
    format: SampleFormat,
    channels: u16,
    e: u32,
) -> bool {
    exists|i: int|
        0 <= i < n && i < s.len() && range_fits(#[trigger] s[i], format, channels) && (s[i].min_rate_hz
            == e || s[i].max_rate_hz == e)
}

/// `e` is the lower or upper end of a range that fits.
pub open spec fn is_endpoint(s: Seq<ConfigRange>, format: SampleFormat, channels: u16, e: u32) -> bool {
    is_endpoint_in(s, s.len() as int, format, channels, e)
}

/// Some range that fits covers `rate`.
pub open spec fn some_range_covers(
    s: Seq<ConfigRange>,
    rate: u32,
    format: SampleFormat,
    channels: u16,
) -> bool {
    exists|i: int| 0 <= i < s.len() && range_fits(#[trigger] s[i], format, channels) && range_covers(s[i], rate)
}

/// Some endpoint of a range that fits lies within 1% of `rate`.
pub open spec fn some_endpoint_near(s: Seq<ConfigRange>, rate: u32, format: SampleFormat, channels: u16) -> bool {
    exists|e: u32| #[trigger] is_endpoint(s, format, channels, e) && within_one_percent(e, rate)
}

/// `a` is at least as close to `rate` as `b`, and lower when equally close.
pub open spec fn preferred(a: u32, b: u32, rate: u32) -> bool {
    rate_distance(a, rate) < rate_distance(b, rate) || (rate_distance(a, rate) == rate_distance(b, rate)
        && a <= b)
}

/// `e` is the endpoint within 1% of `rate` that is preferred to every other
/// endpoint of the first `n` ranges that fit.
pub open spec fn nearest_endpoint_in(
    s: Seq<ConfigRange>,
    n: int,
    rate: u32,
    format: SampleFormat,
    channels: u16,
    e: u32,
) -> bool {
    &&& is_endpoint_in(s, n, format, channels, e)
    &&& within_one_percent(e, rate)
    &&& forall|b: u32| #[trigger] is_endpoint_in(s, n, format, channels, b) ==> preferred(e, b, rate)
}

/// The nearest endpoint over all ranges.
pub open spec fn nearest_endpoint(s: Seq<ConfigRange>, rate: u32, format: SampleFormat, channels: u16, e: u32) -> bool {
    nearest_endpoint_in(s, s.len() as int, rate, format, channels, e)
}

/// The rates of `v` strictly increase.
pub open spec fn strictly_ascending(v: Seq<u32>) -> bool {
    forall|i: int, j: int| 0 <= i < j < v.len() ==> v[i] < v[j]
}

/// What negotiation yields for these inputs: the track's own rate when a
/// fitting range covers it, else the nearest endpoint within 1%, else an
/// error naming the track's rate and listing every endpoint of the fitting
/// ranges once, in increasing order.
pub open spec fn negotiation_result(
    s: Seq<ConfigRange>,
    rate: u32,
    format: SampleFormat,
    channels: u16,
    r: Result<ChosenConfig, NoMatchingConfig>,
) -> bool {
    match r {
        Ok(c) => {
            &&& c.channels == channels
            &&& c.sample_format == format
            &&& if some_range_covers(s, rate, format, channels) {
                c.rate_hz == rate
            } else {
                nearest_endpoint(s, rate, format, channels, c.rate_hz)
            }
        },
        Err(e) => {
            &&& !some_range_covers(s, rate, format, channels)
            &&& !some_endpoint_near(s, rate, format, channels)
            &&& e.track_rate_hz == rate
            &&& strictly_ascending(e.nearby_rates_hz@)
            &&& forall|x: u32| e.nearby_rates_hz@.contains(x) <==> #[trigger] is_endpoint(s, format, channels, x)
        },
    }
}

fn distance(a: u32, b: u32) -> (d: u32)
    ensures
        d == rate_distance(a, b),
{
    if a >= b {
        a - b
    } else {
        b - a
    }
}

fn is_within_one_percent(e: u32, rate: u32) -> (b: bool)
    ensures
        b == within_one_percent(e, rate),
{
    (distance(e, rate) as u64) * 100 <= rate as u64
}

/// Whether a range that fits covers `rate`.
fn find_cover(s: &[ConfigRange], rate: u32, format: SampleFormat, channels: u16) -> (b: bool)
    ensures
        b == some_range_covers(s@, rate, format, channels),
{
    let mut i: usize = 0;
    while i < s.len()
        invariant
            i <= s.len(),
            forall|j: int| 0 <= j < i ==> !(range_fits(#[trigger] s@[j], format, channels) && range_covers(s@[j], rate)),
        decreases s.len() - i,
    {
        let r = &s[i];
        if r.channels == channels && r.sample_format == format && r.min_rate_hz <= rate && rate <= r.max_rate_hz {
            assert(range_fits(s@[i as int], format, channels) && range_covers(s@[i as int], rate));
            return true;
        }
        i = i + 1;
    }
    false
}

/// Replaces `best` by `c` where `c` is within 1% and preferred to it.
fn consider(best: Option<u32>, c: u32, rate: u32) -> (r: Option<u32>)
    ensures
        !within_one_percent(c, rate) ==> r == best,
        within_one_percent(c, rate) ==> match best {
            None => r == Some(c),
            Some(b) => if preferred(c, b, rate) { r == Some(c) } else { r == best },
        },
{
    if !is_within_one_percent(c, rate) {
        return best;
    }
    match best {
        None => Some(c),
        Some(b) => {
            let dc = distance(c, rate);
            let db = distance(b, rate);
            if dc < db || (dc == db && c <= b) {
                Some(c)
            } else {
                best
            }
        },
    }
}

/// The endpoint within 1% of `rate` preferred to every other endpoint of the
/// fitting ranges, if there is one.
fn find_nearest_endpoint(s: &[ConfigRange], rate: u32, format: SampleFormat, channels: u16) -> (r: Option<u32>)
    ensures
        r matches Some(e) ==> nearest_endpoint(s@, rate, format, channels, e),
        r is None ==> !some_endpoint_near(s@, rate, format, channels),
{
    let mut best: Option<u32> = None;
    let mut i: usize = 0;
    while i < s.len()
        invariant
            i <= s.len(),
            best matches Some(b) ==> nearest_endpoint_in(s@, i as int, rate, format, channels, b),
            best is None ==> forall|e: u32| #[trigger] is_endpoint_in(s@, i as int, format, channels, e) ==> !within_one_percent(e, rate),
        decreases s.len() - i,
    {
        let r = &s[i];
        if r.channels == channels && r.sample_format == format {
            let ghost old_best = best;
            let lo = r.min_rate_hz;
            let hi = r.max_rate_hz;
            let mid = consider(best, lo, rate);
            best = consider(mid, hi, rate);
            proof {
                let n = i as int;
                assert(range_fits(s@[n], format, channels));
                assert forall|e: u32| #[trigger] is_endpoint_in(s@, n + 1, format, channels, e)
                    implies is_endpoint_in(s@, n, format, channels, e) || e == lo || e == hi by {
                    let j = choose|j: int| 0 <= j < n + 1 && j < s@.len() && range_fits(#[trigger] s@[j], format, channels)
                        && (s@[j].min_rate_hz == e || s@[j].max_rate_hz == e);
                    if j < n {
                        assert(is_endpoint_in(s@, n, format, channels, e));
                    }
                }
                assert(is_endpoint_in(s@, n + 1, format, channels, lo));
                assert(is_endpoint_in(s@, n + 1, format, channels, hi));
                assert forall|e: u32| #[trigger] is_endpoint_in(s@, n, format, channels, e)
                    implies is_endpoint_in(s@, n + 1, format, channels, e) by {
                    let j = choose|j: int| 0 <= j < n && j < s@.len() && range_fits(#[trigger] s@[j], format, channels)
                        && (s@[j].min_rate_hz == e || s@[j].max_rate_hz == e);
                }
                match best {
                    Some(b) => {
                        assert forall|e: u32| #[trigger] is_endpoint_in(s@, n + 1, format, channels, e)
                            implies preferred(b, e, rate) by {
                            if is_endpoint_in(s@, n, format, channels, e) {
                                match old_best {
                                    Some(ob) => {
                                        assert(preferred(ob, e, rate));
                                    },
                                    None => {
                                        assert(!within_one_percent(e, rate));
                                    },
                                }
                            }
                        }
                    },
                    None => {
                        assert forall|e: u32| #[trigger] is_endpoint_in(s@, n + 1, format, channels, e)
                            implies !within_one_percent(e, rate) by {
                            if is_endpoint_in(s@, n, format, channels, e) {
                            }
                        }
                    },
                }
            }
        } else {
            proof {
                let n = i as int;
                assert forall|e: u32| #[trigger] is_endpoint_in(s@, n + 1, format, channels, e)
                    implies is_endpoint_in(s@, n, format, channels, e) by {
                    let j = choose|j: int| 0 <= j < n + 1 && j < s@.len() && range_fits(#[trigger] s@[j], format, channels)
                        && (s@[j].min_rate_hz == e || s@[j].max_rate_hz == e);
                }
                assert forall|e: u32| #[trigger] is_endpoint_in(s@, n, format, channels, e)
                    implies is_endpoint_in(s@, n + 1, format, channels, e) by {
                    let j = choose|j: int| 0 <= j < n && j < s@.len() && range_fits(#[trigger] s@[j], format, channels)
                        && (s@[j].min_rate_hz == e || s@[j].max_rate_hz == e);
                }
            }
        }
        i = i + 1;
    }
    best
}

/// Adds `x` to a strictly ascending list unless it is already there.
fn insert_ascending(v: &mut Vec<u32>, x: u32)
    requires
        strictly_ascending(old(v)@),
    ensures
        strictly_ascending(final(v)@),
        forall|y: u32| final(v)@.contains(y) <==> (old(v)@.contains(y) || y == x),
{
    let mut p: usize = 0;
    while p < v.len() && v[p] < x
        invariant
            p <= v.len(),
            v@ == old(v)@,
            strictly_ascending(v@),
            forall|j: int| 0 <= j < p ==> v@[j] < x,
        decreases v.len() - p,
    {
        p = p + 1;
    }
    if p < v.len() && v[p] == x {
        assert(v@.contains(x)) by {
            assert(v@[p as int] == x);
        }
        return;
    }
    let ghost before = v@;
    v.insert(p, x);
    proof {
        assert(v@ =~= before.insert(p as int, x));
        assert forall|i: int, j: int| 0 <= i < j < v@.len() implies v@[i] < v@[j] by {
            if j < p {
            } else if j == p {
            } else if i < p {
                assert(before[j - 1] >= x);
            } else if i == p {
                assert(before[j - 1] > x);
            } else {
            }
        }
        assert(before == old(v)@);
        assert forall|y: u32| v@.contains(y) <==> (old(v)@.contains(y) || y == x) by {
            if v@.contains(y) {
                let k = choose|k: int| 0 <= k < v@.len() && v@[k] == y;
                if k < p {
                    assert(before[k] == y);
                } else if k > p {
                    assert(before[k - 1] == y);
                }
            }
            if before.contains(y) {
                let k = choose|k: int| 0 <= k < before.len() && before[k] == y;
                if k < p {
                    assert(v@[k] == y);
                } else {
                    assert(v@[k + 1] == y);
                }
            }
            if y == x {
                assert(v@[p as int] == x);
            }
        }
    }
}

/// Every endpoint of the fitting ranges, once each, in increasing order.
fn collect_endpoints(s: &[ConfigRange], format: SampleFormat, channels: u16) -> (v: Vec<u32>)
    ensures
        strictly_ascending(v@),
        forall|x: u32| v@.contains(x) <==> #[trigger] is_endpoint(s@, format, channels, x),
{
    let mut v: Vec<u32> = Vec::new();
    let mut i: usize = 0;
    while i < s.len()
        invariant
            i <= s.len(),
            strictly_ascending(v@),
            forall|x: u32| v@.contains(x) <==> #[trigger] is_endpoint_in(s@, i as int, format, channels, x),
        decreases s.len() - i,
    {
        let r = &s[i];
        let ghost prev = v@;
        if r.channels == channels && r.sample_format == format {
            insert_ascending(&mut v, r.min_rate_hz);
            insert_ascending(&mut v, r.max_rate_hz);
        }
        proof {
            let n = i as int;
            assert forall|x: u32| v@.contains(x) <==> #[trigger] is_endpoint_in(s@, n + 1, format, channels, x) by {
                if is_endpoint_in(s@, n + 1, format, channels, x) {
                    let j = choose|j: int| 0 <= j < n + 1 && j < s@.len() && range_fits(#[trigger] s@[j], format, channels)
                        && (s@[j].min_rate_hz == x || s@[j].max_rate_hz == x);
                    if j < n {
                        assert(is_endpoint_in(s@, n, format, channels, x));
                    }
                }
                if is_endpoint_in(s@, n, format, channels, x) {
                    let j = choose|j: int| 0 <= j < n && j < s@.len() && range_fits(#[trigger] s@[j], format, channels)
                        && (s@[j].min_rate_hz == x || s@[j].max_rate_hz == x);
                    assert(is_endpoint_in(s@, n + 1, format, channels, x));
                }
                if range_fits(s@[n], format, channels) && (x == s@[n].min_rate_hz || x == s@[n].max_rate_hz) {
                    assert(is_endpoint_in(s@, n + 1, format, channels, x));
                }
            }
        }
        i = i + 1;
    }
    v
}

/// Picks a configuration for a track of `track_rate_hz` from the device's
/// supported ranges, as the module documentation describes.
pub fn negotiate_config(
    supported: &[ConfigRange],
    track_rate_hz: u32,
    desired_format: SampleFormat,
    desired_channels: u16,
) -> (r: Result<ChosenConfig, NoMatchingConfig>)
    ensures
        negotiation_result(supported@, track_rate_hz, desired_format, desired_channels, r),
        r is Ok <==> (some_range_covers(supported@, track_rate_hz, desired_format, desired_channels)
            || some_endpoint_near(supported@, track_rate_hz, desired_format, desired_channels)),
{
    if find_cover(supported, track_rate_hz, desired_format, desired_channels) {
        return Ok(ChosenConfig { channels: desired_channels, sample_format: desired_format, rate_hz: track_rate_hz });
    }
    match find_nearest_endpoint(supported, track_rate_hz, desired_format, desired_channels) {
        Some(e) => {
            proof {
                assert(is_endpoint(supported@, desired_format, desired_channels, e));
            }
            Ok(ChosenConfig { channels: desired_channels, sample_format: desired_format, rate_hz: e })
        },
        None => {
            let nearby = collect_endpoints(supported, desired_format, desired_channels);
            Err(NoMatchingConfig { track_rate_hz, nearby_rates_hz: nearby })
        },
    }
}

impl NoMatchingConfig {
    /// The reason shown to the user when a track is skipped.
    pub open spec fn message_spec(&self) -> Seq<char> {
        "no cpal config supports rate "@ + decimal(self.track_rate_hz as nat) + " Hz; available rates: "@
            + decimal_list(self.nearby_rates_hz@) + "; track skipped"@
    }

    /// The reason text: the track's rate, the available rates and the fact
    /// that the track is skipped.
    pub fn message(&self) -> (m: String)
        ensures
            m@ == self.message_spec(),
    {
        let mut m = String::from_str("no cpal config supports rate ");
        push_decimal(&mut m, self.track_rate_hz as u64);
        m.append(" Hz; available rates: ");
        push_decimal_list(&mut m, &self.nearby_rates_hz);
        m.append("; track skipped");
        m
    }
}

} // verus!
