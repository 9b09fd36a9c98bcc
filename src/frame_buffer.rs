use crate::control::{same_value, ControlValue};
use crate::frame_format::FrameFormat;
use crate::types::Resolution;
use vstd::prelude::*;
use vstd::seq_lib::seq_to_set_is_finite;
use vstd::set_lib::lemma_subset_equality;

verus! {

/// A backend-specific flag key of frame metadata.
pub type PlatformSpecificFlag = u32;

/// Per-frame information from a backend: a small map from flag key to value.
#[verifier::external_body]
#[derive(Debug, Default)]
pub struct Metadata {
    flags: small_map::FxSmallMap<8, u32, ControlValue>,
}

/// What a [`Metadata`] holds.
pub uninterp spec fn metadata_entries(m: Metadata) -> Map<u32, ControlValue>;

impl Metadata {
    /// Relies on `SmallMap`'s `Default`: a map with no entries.
    #[verifier::external_body]
    pub fn new() -> (r: Metadata)
        ensures
            metadata_entries(r).dom() == Set::<u32>::empty(),
    {
        Metadata { flags: Default::default() }
    }

    /// Relies on `SmallMap::get`: the value stored under the key, if any.
    #[verifier::external_body]
    pub fn get(&self, key: u32) -> (r: Option<&ControlValue>)
        ensures
            r is Some <==> metadata_entries(*self).contains_key(key),
            r matches Some(v) ==> *v == metadata_entries(*self)[key],
    {
        self.flags.get(&key)
    }

    /// Relies on `SmallMap::insert`: stores the value under the key, replacing any other.
    #[verifier::external_body]
    pub fn insert(&mut self, key: u32, value: ControlValue)
        ensures
            metadata_entries(*final(self)) == metadata_entries(*old(self)).insert(key, value),
    {
        self.flags.insert(key, value);
    }

    /// Relies on `SmallMap::iter`: every key of the map, once each.
    #[verifier::external_body]
    pub fn keys(&self) -> (r: Vec<u32>)
        ensures
            r@.no_duplicates(),
            r@.to_set() == metadata_entries(*self).dom(),
    {
        self.flags.iter().map(|(k, _)| *k).collect()
    }
}

/// Whether two metadata maps have the same keys, with equal values under each.
pub open spec fn same_entries(a: Map<u32, ControlValue>, b: Map<u32, ControlValue>) -> bool {
    &&& a.dom() == b.dom()
    &&& forall|k: u32| #[trigger] a.contains_key(k) ==> same_value(a[k], b[k])
}

impl Metadata {
    /// Whether both hold the same keys with equal values.
    pub fn equals(&self, other: &Metadata) -> (r: bool)
        ensures
            r == same_entries(metadata_entries(*self), metadata_entries(*other)),
    {
        let mine = self.keys();
        let theirs = other.keys();
        let ghost a = metadata_entries(*self);
        let ghost b = metadata_entries(*other);
        proof {
            broadcast use seq_to_set_is_finite;
            mine@.unique_seq_to_set();
            theirs@.unique_seq_to_set();
        }
        if mine.len() != theirs.len() {
            proof {
                broadcast use seq_to_set_is_finite;
                assert(a.dom().len() != b.dom().len());
            }
            return false;
        }
        let mut i: usize = 0;
        while i < mine.len()
            invariant
                i <= mine.len(),
                mine@.to_set() == a.dom(),
                a == metadata_entries(*self),
                b == metadata_entries(*other),
                forall|k: int| 0 <= k < i ==> b.contains_key(#[trigger] mine@[k]) && same_value(a[mine@[k]], b[mine@[k]]),
            decreases mine.len() - i,
        {
            let key = mine[i];
            assert(mine@.contains(key));
            match (self.get(key), other.get(key)) {
                (Some(x), Some(y)) => {
                    if !x.equals(y) {
                        return false;
                    }
                },
                _ => {
                    return false;
                },
            }
            i = i + 1;
        }
        proof {
            broadcast use seq_to_set_is_finite;
            assert forall|k: u32| #[trigger] a.contains_key(k) implies b.contains_key(k) && same_value(a[k], b[k]) by {
                assert(mine@.to_set().contains(k));
                let j = choose|j: int| 0 <= j < mine@.len() && mine@[j] == k;
                assert(b.contains_key(mine@[j]));
            }
            assert(a.dom().subset_of(b.dom()));
            lemma_subset_equality(a.dom(), b.dom());
        }
        true
    }
}

/// A frame as a backend delivered it: its resolution, its bytes, their encoding and
/// optional metadata. It does not change once built.
#[derive(Debug)]
pub struct FrameBuffer {
    resolution: Resolution,
    buffer: Vec<u8>,
    source_frame_format: FrameFormat,
    metadata: Option<Metadata>,
}

impl FrameBuffer {
    pub closed spec fn spec_resolution(&self) -> Resolution {
        self.resolution
    }

    pub closed spec fn spec_buffer(&self) -> Seq<u8> {
        self.buffer@
    }

    pub closed spec fn spec_frame_format(&self) -> FrameFormat {
        self.source_frame_format
    }

    pub closed spec fn spec_metadata(&self) -> Option<Metadata> {
        self.metadata
    }

    pub fn new(
        resolution: Resolution,
        buffer: Vec<u8>,
        source_frame_format: FrameFormat,
        metadata: Option<Metadata>,
    ) -> (r: Self)
        ensures
            r.spec_resolution() == resolution,
            r.spec_buffer() == buffer@,
            r.spec_frame_format() == source_frame_format,
            r.spec_metadata() == metadata,
    {
        FrameBuffer { resolution, buffer, source_frame_format, metadata }
    }

    pub fn resolution(&self) -> (r: Resolution)
        ensures
            r == self.spec_resolution(),
    {
        self.resolution
    }

    /// The bytes of the frame.
    pub fn buffer(&self) -> (r: &[u8])
        ensures
            r@ == self.spec_buffer(),
    {
        self.buffer.as_slice()
    }

    /// Takes the bytes of the frame.
    pub fn consume(self) -> (r: Vec<u8>)
        ensures
            r@ == self.spec_buffer(),
    {
        self.buffer
    }

    pub fn metadata(&self) -> (r: Option<&Metadata>)
        ensures
            r is Some <==> self.spec_metadata() is Some,
            r matches Some(m) ==> self.spec_metadata() == Some(*m),
    {
        match &self.metadata {
            Some(m) => Some(m),
            None => None,
        }
    }

    pub fn source_frame_format(&self) -> (r: FrameFormat)
        ensures
            r == self.spec_frame_format(),
    {
        self.source_frame_format
    }
}

} // verus!
