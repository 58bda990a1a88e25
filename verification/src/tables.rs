//! Lookup tables that a caller fills in and the effects read.
//!
//! Everything an effect needs from real arithmetic reaches it through one of
//! these: what a scaling factor does to each of the 256 sample values, and
//! where along one axis of the source each output coordinate samples.

use vstd::prelude::*;

verus! {

/// A function from sample values to sample values, tabulated.
#[derive(Clone, Copy, Debug, PartialEq, Eq)]
pub struct ByteMap {
    pub entries: [u8; 256],
}

impl ByteMap {
    /// The value that `v` is sent to.
    pub open spec fn apply(&self, v: u8) -> u8 {
        self.entries@[v as int]
    }

    /// Whether every value is sent to itself.
    pub open spec fn is_identity(&self) -> bool {
        forall|v: u8| #[trigger] self.apply(v) == v
    }

    /// Whether every value is sent to `value`.
    pub open spec fn is_constant(&self, value: u8) -> bool {
        forall|v: u8| #[trigger] self.apply(v) == value
    }

    pub fn new(entries: [u8; 256]) -> (r: ByteMap)
        ensures
            r.entries == entries,
    {
        ByteMap { entries }
    }

    /// The table that changes nothing.
    pub fn identity() -> (r: ByteMap)
        ensures
            r.is_identity(),
    {
        let mut entries: [u8; 256] = [0u8; 256];
        let mut i: usize = 0;
        while i < 256
            invariant
                i <= 256,
                forall|k: int| 0 <= k < i ==> #[trigger] entries@[k] == k,
            decreases 256 - i,
        {
            entries[i] = i as u8;
            i += 1;
        }
        ByteMap { entries }
    }

    /// The table that sends every value to `value`.
    pub fn constant(value: u8) -> (r: ByteMap)
        ensures
            r.is_constant(value),
    {
        ByteMap { entries: [value; 256] }
    }

    /// Looks one value up.
    pub fn map(&self, v: u8) -> (r: u8)
        ensures
            r == self.apply(v),
    {
        self.entries[v as usize]
    }
}

/// For each coordinate along one axis of the output, the coordinate of the
/// source that it samples, or nothing where the stretched picture does not
/// reach.
#[derive(Clone, Debug, PartialEq, Eq)]
pub struct AxisMap {
    pub(crate) entries: Vec<Option<u32>>,
}

/// Whether a list of entries may serve as an axis map: it is no longer than
/// an axis can be, and every sampled coordinate lies on the same axis.
pub open spec fn axis_valid(entries: Seq<Option<u32>>) -> bool {
    &&& entries.len() <= u32::MAX
    &&& forall|i: int|
        0 <= i < entries.len() ==> (#[trigger] entries[i] matches Some(s) ==> s < entries.len())
}

impl View for AxisMap {
    type V = Seq<Option<u32>>;

    closed spec fn view(&self) -> Seq<Option<u32>> {
        self.entries@
    }
}

impl AxisMap {
    pub open spec fn wf(&self) -> bool {
        axis_valid(self@)
    }

    /// The number of output coordinates that the map covers.
    pub open spec fn extent(&self) -> nat {
        self@.len()
    }

    /// Whether each coordinate samples itself.
    pub open spec fn is_identity(&self) -> bool {
        forall|i: int| 0 <= i < self@.len() ==> #[trigger] self@[i] == Some(i as u32)
    }

    /// Whether no coordinate samples anything.
    pub open spec fn is_blank(&self) -> bool {
        forall|i: int| 0 <= i < self@.len() ==> #[trigger] self@[i] is None
    }

    /// Accepts the entries if they are valid, and only then.
    pub fn new(entries: Vec<Option<u32>>) -> (r: Option<AxisMap>)
        ensures
            r.is_some() <==> axis_valid(entries@),
            r matches Some(map) ==> map@ == entries@,
    {
        let n: usize = entries.len();
        if n > u32::MAX as usize {
            return None;
        }
        let mut i: usize = 0;
        while i < n
            invariant
                i <= n,
                n == entries@.len(),
                n <= u32::MAX,
                forall|k: int| 0 <= k < i ==> (#[trigger] entries@[k] matches Some(s) ==> s < n),
            decreases n - i,
        {
            match entries[i] {
                Some(s) => {
                    if s as usize >= n {
                        return None;
                    }
                },
                None => {},
            }
            i += 1;
        }
        Some(AxisMap { entries })
    }

    /// The map of the given extent in which each coordinate samples itself.
    pub fn identity(extent: u32) -> (r: AxisMap)
        ensures
            r.wf(),
            r.extent() == extent,
            r.is_identity(),
    {
        let mut entries: Vec<Option<u32>> = Vec::new();
        let mut i: u32 = 0;
        while i < extent
            invariant
                i <= extent,
                entries@.len() == i,
                forall|k: int| 0 <= k < i ==> #[trigger] entries@[k] == Some(k as u32),
            decreases extent - i,
        {
            entries.push(Some(i));
            i += 1;
        }
        AxisMap { entries }
    }

    /// The map of the given extent in which no coordinate samples anything.
    pub fn blank(extent: u32) -> (r: AxisMap)
        ensures
            r.wf(),
            r.extent() == extent,
            r.is_blank(),
    {
        let mut entries: Vec<Option<u32>> = Vec::new();
        let mut i: u32 = 0;
        while i < extent
            invariant
                i <= extent,
                entries@.len() == i,
                forall|k: int| 0 <= k < i ==> #[trigger] entries@[k] is None,
            decreases extent - i,
        {
            entries.push(None);
            i += 1;
        }
        AxisMap { entries }
    }

    /// The number of output coordinates that the map covers.
    pub fn len(&self) -> (n: usize)
        ensures
            n == self.extent(),
    {
        self.entries.len()
    }

    /// The source coordinate that output coordinate `i` samples, if any.
    pub fn get(&self, i: u32) -> (r: Option<u32>)
        requires
            self.wf(),
            i < self.extent(),
        ensures
            r == self@[i as int],
            r matches Some(s) ==> s < self.extent(),
    {
        self.entries[i as usize]
    }
}

} // verus!
