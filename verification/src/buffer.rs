//! Capacity model of a GPU buffer allocation.
//!
//! The verified core tracks each device buffer's byte capacity and growth
//! policy; the unverified layer owns the matching native allocation and
//! recreates it whenever [`GpuBuffer::expand_to_fit`] reports a
//! reallocation.

use vstd::prelude::*;

verus! {

/// Where the allocation should live.
#[derive(Clone, Copy, PartialEq, Eq, Structural, Debug)]
pub enum MemoryKind {
    /// Device-local memory, filled through the staging buffer.
    PreferDevice,
    /// Host-visible memory that the CPU maps directly.
    PreferHost,
}

/// Descriptor-write source: a byte range of a buffer.
#[derive(Clone, Copy, PartialEq, Eq, Structural, Debug)]
pub struct DescBufferInfo {
    pub offset: usize,
    pub range: usize,
}

/// Capacity after asking a buffer of capacity `cap` to fit `n` bytes: no
/// change when it already fits, otherwise the larger of `n` and double the
/// old capacity (clamped to the machine word).
pub open spec fn spec_expanded(cap: nat, n: nat) -> nat {
    if n <= cap {
        cap
    } else {
        let doubled: nat = if 2 * cap <= usize::MAX {
            2 * cap
        } else {
            usize::MAX as nat
        };
        if n >= doubled {
            n
        } else {
            doubled
        }
    }
}

/// A GPU buffer allocation: byte capacity plus the usage and memory kind it
/// was created with.
#[derive(Clone, Copy, PartialEq, Eq, Structural, Debug)]
pub struct GpuBuffer {
    pub capacity: usize,
    pub usage: u32,
    pub mem_kind: MemoryKind,
}

impl GpuBuffer {
    /// Creates a buffer of the given capacity, usage flag set and memory
    /// kind.
    pub fn new(capacity: usize, usage: u32, mem_kind: MemoryKind) -> (r: GpuBuffer)
        ensures
            r == (GpuBuffer { capacity, usage, mem_kind }),
    {
        GpuBuffer { capacity, usage, mem_kind }
    }

    /// Grows the buffer so that `n` bytes fit: a no-op when the capacity is
    /// already enough, otherwise the capacity becomes the larger of `n` and
    /// double the old capacity.  Capacity never shrinks.  Returns whether a
    /// reallocation happened (the old allocation must then be retired
    /// through the frame's destroy queue before reuse).
    pub fn expand_to_fit(&mut self, n: usize) -> (reallocated: bool)
        ensures
            final(self).capacity == spec_expanded(old(self).capacity as nat, n as nat),
            final(self).capacity >= n,
            final(self).capacity >= old(self).capacity,
            final(self).usage == old(self).usage,
            final(self).mem_kind == old(self).mem_kind,
            reallocated <==> n > old(self).capacity,
            n <= old(self).capacity ==> *final(self) == *old(self),
    {
        if n <= self.capacity {
            false
        } else {
            let doubled = if self.capacity <= usize::MAX / 2 {
                self.capacity * 2
            } else {
                usize::MAX
            };
            self.capacity = if n >= doubled {
                n
            } else {
                doubled
            };
            true
        }
    }

    /// Descriptor source covering the whole buffer.
    pub fn desc_whole_buffer_info(&self) -> (r: DescBufferInfo)
        ensures
            r.offset == 0,
            r.range == self.capacity,
    {
        DescBufferInfo { offset: 0, range: self.capacity }
    }

    /// Descriptor source covering `len` bytes starting at `start`.
    pub fn desc_partial_buffer_info(&self, start: usize, len: usize) -> (r: DescBufferInfo)
        ensures
            r.offset == start,
            r.range == len,
    {
        DescBufferInfo { offset: start, range: len }
    }
}

/// Growth leaves room for `n` and never shrinks; asking again for the same
/// or a smaller amount changes nothing, so capacity is monotonic over any
/// sequence of requests.
pub proof fn lemma_expand_to_fit_monotonic(cap: nat, n: nat, m: nat)
    requires
        cap <= usize::MAX,
        n <= usize::MAX,
        m <= n,
    ensures
        spec_expanded(cap, n) >= n,
        spec_expanded(cap, n) >= cap,
        spec_expanded(spec_expanded(cap, n), m) == spec_expanded(cap, n),
{
}

} // verus!
