use crate::frame_format::FrameFormat;
use crate::ranges::{abs, Range, ValidatableRange};
use crate::types::{CameraFormat, FrameRate, Resolution};
use vstd::prelude::*;
use vstd::set_lib::{lemma_int_range, lemma_len_subset, set_int_range};

verus! {

/// A strategy for choosing a [`CameraFormat`].
#[allow(inconsistent_fields)]
#[derive(Copy, Clone, Debug, PartialEq, Eq)]
pub enum FormatRequestType {
    /// The formats closest to a preferred resolution and frame rate come first.
    /// A preference left out adds nothing to the distance; a range left out keeps
    /// every format.
    Closest {
        resolution: Option<Resolution>,
        resolution_range: Option<Range<Resolution>>,
        frame_rate: Option<FrameRate>,
        frame_rate_range: Option<Range<FrameRate>>,
    },
    /// Formats within the range, by ascending frame rate.
    HighestFrameRate { frame_rate: Range<FrameRate> },
    /// Formats within the range, by ascending resolution.
    HighestResolution { resolution: Range<Resolution> },
    /// Formats with exactly this resolution and frame rate.
    Exact { resolution: Resolution, frame_rate: FrameRate },
    /// Every format, as given.
    Any,
}

/// A helper for choosing a [`CameraFormat`]: a strategy, and the frame formats
/// that are acceptable (every strategy but `Any` drops the others).
#[derive(Clone, Debug)]
pub struct FormatRequest {
    pub request_type: FormatRequestType,
    pub allowed_frame_formats: Vec<FrameFormat>,
}

/// Whether `(k1, i1)` comes strictly before `(k2, i2)`: by key, then by index.
pub open spec fn pair_lt(k1: int, i1: int, k2: int, i2: int) -> bool {
    k1 < k2 || (k1 == k2 && i1 < i2)
}

/// Distance of a format to the preferred frame rate and resolution: the difference
/// in frame rate plus the sum of the differences in width and height. A preference
/// left out counts as zero.
pub open spec fn closest_distance(
    resolution: Option<Resolution>,
    frame_rate: Option<FrameRate>,
    f: CameraFormat,
) -> int {
    let fr = match frame_rate {
        Some(p) => abs(f.frame_rate - p),
        None => 0,
    };
    let res = match resolution {
        Some(p) => f.resolution.spec_distance(p),
        None => 0,
    };
    fr + res
}

impl FormatRequest {
    /// Whether the request keeps the format.
    pub open spec fn keeps(&self, f: CameraFormat) -> bool {
        let allowed = self.allowed_frame_formats@.contains(f.format);
        match self.request_type {
            FormatRequestType::Closest { resolution_range, frame_rate_range, .. } => {
                &&& allowed
                &&& resolution_range matches Some(r) ==> r.admits(f.resolution)
                &&& frame_rate_range matches Some(r) ==> r.admits(f.frame_rate)
            },
            FormatRequestType::HighestFrameRate { frame_rate } => allowed && frame_rate.admits(
                f.frame_rate,
            ),
            FormatRequestType::HighestResolution { resolution } => allowed && resolution.admits(
                f.resolution,
            ),
            FormatRequestType::Exact { resolution, frame_rate } => allowed && f.resolution
                == resolution && f.frame_rate == frame_rate,
            FormatRequestType::Any => true,
        }
    }

    /// The key the request sorts by, ascending.
    pub open spec fn key(&self, f: CameraFormat) -> int {
        match self.request_type {
            FormatRequestType::Closest { resolution, frame_rate, .. } => closest_distance(
                resolution,
                frame_rate,
                f,
            ),
            FormatRequestType::HighestFrameRate { .. } => f.frame_rate as int,
            FormatRequestType::HighestResolution { .. } => f.resolution.rank(),
            _ => 0,
        }
    }

    /// `r` holds the formats of `s` that the request keeps, ordered by key, and
    /// formats with equal keys in the order of `s`; `idx` gives their places in `s`.
    pub open spec fn selection(&self, s: Seq<CameraFormat>, idx: Seq<int>, r: Seq<CameraFormat>) -> bool {
        &&& idx.len() == r.len()
        &&& forall|k: int|
            0 <= k < idx.len() ==> 0 <= #[trigger] idx[k] < s.len() && self.keeps(s[idx[k]]) && r[k]
                == s[idx[k]]
        &&& forall|k: int, l: int|
            0 <= k < l < idx.len() ==> pair_lt(
                self.key(s[#[trigger] idx[k]]),
                idx[k],
                self.key(s[#[trigger] idx[l]]),
                idx[l],
            )
        &&& forall|i: int|
            0 <= i < s.len() && #[trigger] self.keeps(s[i]) ==> exists|k: int|
                0 <= k < idx.len() && idx[k] == i
    }

    /// `r` is what sorting and filtering `s` by this request gives.
    pub open spec fn sorted_selection(&self, s: Seq<CameraFormat>, r: Seq<CameraFormat>) -> bool {
        exists|idx: Seq<int>| self.selection(s, idx, r)
    }

    pub fn new(format_request_type: FormatRequestType, allowed_frame_formats: Vec<FrameFormat>) -> (r: Self)
        ensures
            r.request_type == format_request_type,
            r.allowed_frame_formats@ == allowed_frame_formats@,
    {
        FormatRequest { request_type: format_request_type, allowed_frame_formats }
    }

    /// The first format of a list that `sort_foramts` has ordered; `None` for an empty list.
    pub fn best<'a>(&self, camera_formats: &'a Vec<CameraFormat>) -> (r: Option<&'a CameraFormat>)
        ensures
            r is None <==> camera_formats@.len() == 0,
            r matches Some(f) ==> *f == camera_formats@[0],
    {
        if camera_formats.len() == 0 {
            None
        } else {
            Some(&camera_formats[0])
        }
    }

    fn is_allowed(&self, format: FrameFormat) -> (r: bool)
        ensures
            r == self.allowed_frame_formats@.contains(format),
    {
        let mut i: usize = 0;
        while i < self.allowed_frame_formats.len()
            invariant
                i <= self.allowed_frame_formats.len(),
                forall|k: int| 0 <= k < i ==> self.allowed_frame_formats@[k] != format,
            decreases self.allowed_frame_formats.len() - i,
        {
            if self.allowed_frame_formats[i] == format {
                assert(self.allowed_frame_formats@[i as int] == format);
                return true;
            }
            i = i + 1;
        }
        false
    }

    /// Whether the request keeps the format.
    pub fn keeps_format(&self, f: &CameraFormat) -> (r: bool)
        ensures
            r == self.keeps(*f),
    {
        match self.request_type {
            FormatRequestType::Closest { resolution_range, frame_rate_range, .. } => {
                if !self.is_allowed(f.format) {
                    return false;
                }
                let res_ok = match resolution_range {
                    Some(r) => r.validate(&f.resolution),
                    None => true,
                };
                let fr_ok = match frame_rate_range {
                    Some(r) => r.validate(&f.frame_rate),
                    None => true,
                };
                res_ok && fr_ok
            },
            FormatRequestType::HighestFrameRate { frame_rate } => self.is_allowed(f.format)
                && frame_rate.validate(&f.frame_rate),
            FormatRequestType::HighestResolution { resolution } => self.is_allowed(f.format)
                && resolution.validate(&f.resolution),
            FormatRequestType::Exact { resolution, frame_rate } => self.is_allowed(f.format)
                && f.resolution == resolution && f.frame_rate == frame_rate,
            FormatRequestType::Any => true,
        }
    }

    /// The sort key of a format.
    pub fn key_of(&self, f: &CameraFormat) -> (r: u64)
        ensures
            r as int == self.key(*f),
    {
        match self.request_type {
            FormatRequestType::Closest { resolution, frame_rate, .. } => format_distance_to_point(
                &resolution,
                &frame_rate,
                f,
            ),
            FormatRequestType::HighestFrameRate { .. } => f.frame_rate as u64,
            FormatRequestType::HighestResolution { .. } => {
                (f.resolution.width_x as u64) * 0x1_0000_0000u64 + (f.resolution.height_y as u64)
            },
            _ => 0,
        }
    }

    /// Sorts and filters formats by the request: the kept formats, by ascending key;
    /// formats with equal keys keep their order.
    pub fn sort_foramts(&self, camera_formats: Vec<CameraFormat>) -> (r: Vec<CameraFormat>)
        ensures
            self.sorted_selection(camera_formats@, r@),
    {
        let s: &Vec<CameraFormat> = &camera_formats;
        let n = s.len();
        let mut keys: Vec<u64> = Vec::new();
        let mut kept: Vec<bool> = Vec::new();
        let mut i: usize = 0;
        while i < n
            invariant
                n == s.len(),
                i <= n,
                keys@.len() == i,
                kept@.len() == i,
                forall|k: int| 0 <= k < i ==> keys@[k] as int == self.key(#[trigger] s@[k]),
                forall|k: int| 0 <= k < i ==> kept@[k] == self.keeps(#[trigger] s@[k]),
            decreases n - i,
        {
            keys.push(self.key_of(&s[i]));
            kept.push(self.keeps_format(&s[i]));
            i = i + 1;
        }
        let mut result: Vec<CameraFormat> = Vec::new();
        let ghost mut idx: Seq<int> = Seq::empty();
        let mut prev: Option<(u64, usize)> = None;
        loop
            invariant
                n == s.len(),
                s@ == camera_formats@,
                keys@.len() == n,
                kept@.len() == n,
                forall|k: int| 0 <= k < n ==> keys@[k] as int == self.key(#[trigger] s@[k]),
                forall|k: int| 0 <= k < n ==> kept@[k] == self.keeps(#[trigger] s@[k]),
                idx.len() == result@.len(),
                idx.len() <= n,
                forall|k: int|
                    0 <= k < idx.len() ==> 0 <= #[trigger] idx[k] < s@.len() && self.keeps(s@[idx[k]])
                        && result@[k] == s@[idx[k]],
                forall|k: int, l: int|
                    0 <= k < l < idx.len() ==> pair_lt(
                        self.key(s@[#[trigger] idx[k]]),
                        idx[k],
                        self.key(s@[#[trigger] idx[l]]),
                        idx[l],
                    ),
                prev is None <==> idx.len() == 0,
                prev matches Some(p) ==> p.1 as int == idx.last() && p.0 as int == self.key(
                    s@[idx.last()],
                ),
                forall|j: int|
                    0 <= j < n && #[trigger] self.keeps(s@[j]) && (prev matches Some(p) && !pair_lt(
                        p.0 as int,
                        p.1 as int,
                        self.key(s@[j]),
                        j,
                    )) ==> exists|k: int| 0 <= k < idx.len() && idx[k] == j,
            decreases n - idx.len(),
        {
            let mut best: Option<(u64, usize)> = None;
            let mut j: usize = 0;
            while j < n
                invariant
                    n == s.len(),
                    keys@.len() == n,
                    kept@.len() == n,
                    j <= n,
                    best matches Some(b) ==> {
                        &&& b.1 < j
                        &&& kept@[b.1 as int]
                        &&& b.0 == keys@[b.1 as int]
                        &&& prev matches Some(p) ==> pair_lt(p.0 as int, p.1 as int, b.0 as int, b.1 as int)
                    },
                    forall|m: int|
                        0 <= m < j && #[trigger] kept@[m] && (prev matches Some(p) ==> pair_lt(
                            p.0 as int,
                            p.1 as int,
                            keys@[m] as int,
                            m,
                        )) ==> (best matches Some(b) && !pair_lt(keys@[m] as int, m, b.0 as int, b.1 as int)),
                decreases n - j,
            {
                let after_prev = match prev {
                    Some(p) => p.0 < keys[j] || (p.0 == keys[j] && p.1 < j),
                    None => true,
                };
                if kept[j] && after_prev {
                    let better = match best {
                        Some(b) => keys[j] < b.0 || (keys[j] == b.0 && j < b.1),
                        None => true,
                    };
                    if better {
                        best = Some((keys[j], j));
                    }
                }
                j = j + 1;
            }
            match best {
                None => {
                    proof {
                        assert forall|m: int|
                            0 <= m < n && #[trigger] self.keeps(s@[m]) implies exists|k: int|
                                0 <= k < idx.len() && idx[k] == m by {
                            assert(kept@[m]);
                        }
                        assert(self.selection(s@, idx, result@));
                        assert(self.sorted_selection(s@, result@));
                    }
                    return result;
                },
                Some(b) => {
                    let ghost old_idx = idx;
                    proof {
                        let bi = b.1 as int;
                        assert forall|k: int| 0 <= k < old_idx.len() implies old_idx[k] != bi by {
                            let last = old_idx.len() - 1;
                            if k < last {
                                assert(pair_lt(
                                    self.key(s@[old_idx[k]]),
                                    old_idx[k],
                                    self.key(s@[old_idx[last]]),
                                    old_idx[last],
                                ));
                            }
                        }
                        idx = idx.push(bi);
                        assert(idx.no_duplicates()) by {
                            assert forall|a: int, c: int| 0 <= a < idx.len() && 0 <= c < idx.len() && a != c implies idx[a] != idx[c] by {
                                if a < idx.len() - 1 && c < idx.len() - 1 {
                                    if a < c {
                                        assert(pair_lt(self.key(s@[idx[a]]), idx[a], self.key(s@[idx[c]]), idx[c]));
                                    } else {
                                        assert(pair_lt(self.key(s@[idx[c]]), idx[c], self.key(s@[idx[a]]), idx[a]));
                                    }
                                }
                            }
                        }
                        idx.unique_seq_to_set();
                        lemma_int_range(0, n as int);
                        assert(idx.to_set().subset_of(set_int_range(0, n as int)));
                        lemma_len_subset(idx.to_set(), set_int_range(0, n as int));
                    }
                    result.push(s[b.1]);
                    prev = best;
                    proof {
                        let bi = b.1 as int;
                        assert forall|k: int, l: int| 0 <= k < l < idx.len() implies pair_lt(
                            self.key(s@[#[trigger] idx[k]]),
                            idx[k],
                            self.key(s@[#[trigger] idx[l]]),
                            idx[l],
                        ) by {
                            if l == idx.len() - 1 && k < l - 1 {
                                let last = old_idx.len() - 1;
                                assert(pair_lt(
                                    self.key(s@[old_idx[k]]),
                                    old_idx[k],
                                    self.key(s@[old_idx[last]]),
                                    old_idx[last],
                                ));
                            }
                        }
                        assert forall|m: int|
                            0 <= m < n && #[trigger] self.keeps(s@[m]) && (prev matches Some(p) && !pair_lt(
                                p.0 as int,
                                p.1 as int,
                                self.key(s@[m]),
                                m,
                            )) implies exists|k: int| 0 <= k < idx.len() && idx[k] == m by {
                            assert(kept@[m]);
                            if m == bi {
                                assert(idx[idx.len() - 1] == m);
                            } else if old_idx.len() > 0 && !pair_lt(
                                self.key(s@[old_idx.last()]),
                                old_idx.last(),
                                self.key(s@[m]),
                                m,
                            ) {
                                let k = choose|k: int| 0 <= k < old_idx.len() && old_idx[k] == m;
                                assert(idx[k] == m);
                            }
                        }
                    }
                },
            }
        }
    }
}

/// The distance of a format to a preferred resolution and frame rate: the difference
/// in frame rate plus the sum of the differences in width and height.
pub fn format_distance_to_point(
    resolution: &Option<Resolution>,
    frame_rate: &Option<FrameRate>,
    format: &CameraFormat,
) -> (r: u64)
    ensures
        r as int == closest_distance(*resolution, *frame_rate, *format),
{
    let frame_rate_distance: u64 = match frame_rate {
        Some(p) => {
            if format.frame_rate >= *p {
                (format.frame_rate - *p) as u64
            } else {
                (*p - format.frame_rate) as u64
            }
        },
        None => 0,
    };
    let resolution_distance: u64 = match resolution {
        Some(p) => format.resolution.distance_from(p),
        None => 0,
    };
    frame_rate_distance + resolution_distance
}

} // verus!
