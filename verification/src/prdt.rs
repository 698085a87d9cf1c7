//! Physical region descriptor tables: where a command's data lies in memory.

use vstd::prelude::*;

use crate::block::dma_map_iter::{DmaMapIterMapped, DmaVector};
use crate::block::DataDirection;
use crate::error::Error;
use crate::hci::{PrdEntry, MAX_PRD_ENTRIES, PRDT_DATA_BYTE_COUNT_MAX};
use crate::scsi::{self, UfsSCSICmd, UfsScsiDataDirection, UNMAP_PARAM_LIST_SIZE};

verus! {

/// Segments are multiples of this many bytes.
pub const PRDT_DATA_BYTE_COUNT_PAD: u32 = 4;

/// A mapped scatterlist.
#[derive(Clone, Copy, Debug, PartialEq, Eq, Structural)]
pub struct UfsSgMapping {
    /// Number of entries that were mapped.
    pub nents: i32,
    /// Direction of the mapping.
    pub direction: DataDirection,
}

/// Memory that holds the parameter list of an UNMAP command.
#[derive(Clone, Copy, Debug, PartialEq, Eq, Structural)]
pub struct UfsUnmapMapping {
    /// Address at which the device sees it.
    pub dma_addr: u64,
}

/// What has to be released when a command is over.
pub enum UfsPrdtMapping {
    /// A mapped scatterlist.
    Sg(UfsSgMapping),
    /// Segments that were mapped one by one.
    Iter(DmaMapIterMapped<MAX_PRD_ENTRIES>),
    /// The parameter list of an UNMAP command.
    Unmap(UfsUnmapMapping),
}

/// A table and what its entries rest on.
pub struct UfsPrdt {
    pub mapping: Option<UfsPrdtMapping>,
    pub entries: Vec<PrdEntry>,
}

/// How a command's data gets into a table.
pub enum PrdtPlan {
    /// The command has no data.
    NoData,
    /// The data is this parameter list, which goes into memory of its own.
    Unmap([u8; UNMAP_PARAM_LIST_SIZE]),
    /// The data is the request's segments, to be mapped in this direction.
    Scatter { nr_segments: usize, direction: DataDirection },
    /// The data is the request's segments, to be mapped and added one by one.
    Segments(PrdtBuilder),
}

/// The direction in which a command's data is mapped.
pub open spec fn dma_direction(direction: UfsScsiDataDirection) -> DataDirection {
    match direction {
        UfsScsiDataDirection::Read => DataDirection::FromDevice,
        UfsScsiDataDirection::Write => DataDirection::ToDevice,
        UfsScsiDataDirection::NoData => DataDirection::NoTransfer,
    }
}

/// The direction in which a command's data is mapped.
pub fn mapping_direction(direction: UfsScsiDataDirection) -> (r: DataDirection)
    ensures
        r == dma_direction(direction),
{
    match direction {
        UfsScsiDataDirection::Read => DataDirection::FromDevice,
        UfsScsiDataDirection::Write => DataDirection::ToDevice,
        UfsScsiDataDirection::NoData => DataDirection::NoTransfer,
    }
}

/// Number of bytes that a table covers.
pub open spec fn covered(entries: Seq<PrdEntry>) -> nat
    decreases entries.len(),
{
    if entries.len() == 0 {
        0
    } else {
        covered(entries.drop_last()) + entries.last().size as nat + 1
    }
}

/// Number of entries that a segment takes.
pub open spec fn chunk_count(length: u32) -> nat {
    ((length + (PRDT_DATA_BYTE_COUNT_MAX - 1)) / PRDT_DATA_BYTE_COUNT_MAX as int) as nat
}

/// Number of bytes of a segment that its entry `i` covers.
pub open spec fn chunk_length(length: u32, i: int) -> u32 {
    let left = length - i * PRDT_DATA_BYTE_COUNT_MAX;
    if left < PRDT_DATA_BYTE_COUNT_MAX {
        left as u32
    } else {
        PRDT_DATA_BYTE_COUNT_MAX
    }
}

/// The entries of a segment: as large as they can be, one after the other.
pub open spec fn chunks(address: u64, length: u32) -> Seq<PrdEntry> {
    Seq::new(
        chunk_count(length),
        |i: int|
            PrdEntry::of(
                (address + i * PRDT_DATA_BYTE_COUNT_MAX) as u64,
                chunk_length(length, i),
            ),
    )
}

/// Entry `i` of a segment starts beyond the last address.
pub open spec fn chunk_overflows(address: u64, i: int) -> bool {
    address + i * PRDT_DATA_BYTE_COUNT_MAX > u64::MAX
}

/// The entries of a segment cover the segment.
pub proof fn law_chunks_cover(address: u64, length: u32)
    ensures
        covered(chunks(address, length)) == length,
{
    lemma_chunks_cover_prefix(address, length, chunk_count(length));
    assert(chunks(address, length).take(chunk_count(length) as int) =~= chunks(address, length));
}

/// The first entries of a segment cover as much as they can.
proof fn lemma_chunks_cover_prefix(address: u64, length: u32, n: nat)
    requires
        n <= chunk_count(length),
    ensures
        covered(chunks(address, length).take(n as int)) == if n * PRDT_DATA_BYTE_COUNT_MAX
            < length {
            (n * PRDT_DATA_BYTE_COUNT_MAX) as nat
        } else {
            length as nat
        },
    decreases n,
{
    let s = chunks(address, length);
    if n > 0 {
        lemma_chunks_cover_prefix(address, length, (n - 1) as nat);
        assert(s.take(n as int).drop_last() =~= s.take(n - 1));
        assert(s.take(n as int).last() == s[n - 1]);
    }
}

/// Covering entries one after the other covers the sum.
pub proof fn lemma_covered_concat(a: Seq<PrdEntry>, b: Seq<PrdEntry>)
    ensures
        covered(a + b) == covered(a) + covered(b),
    decreases b.len(),
{
    if b.len() == 0 {
        assert(a + b =~= a);
    } else {
        lemma_covered_concat(a, b.drop_last());
        assert((a + b).drop_last() =~= a + b.drop_last());
    }
}

/// The table after a segment could only be added in part: the chunks before the
/// first one whose address overflows or for which there is no room.
pub open spec fn added_in_part(
    before: Seq<PrdEntry>,
    after: Seq<PrdEntry>,
    segment_address: u64,
    segment_length: u32,
) -> bool {
    exists|n: int|
        {
            &&& 0 <= n < chunk_count(segment_length)
            &&& after == before + #[trigger] chunks(segment_address, segment_length).take(n)
            &&& forall|i: int| 0 <= i < n ==> !#[trigger] chunk_overflows(segment_address, i)
            &&& chunk_overflows(segment_address, n) || before.len() + n == MAX_PRD_ENTRIES
        }
}

/// Adds the entries of a segment to a table.
pub fn append_entries(entries: &mut Vec<PrdEntry>, segment_address: u64, segment_length: u32) -> (r:
    Result<(), Error>)
    requires
        old(entries).len() <= MAX_PRD_ENTRIES,
    ensures
        final(entries).len() <= MAX_PRD_ENTRIES,
        match r {
            Ok(()) => {
                &&& segment_length > 0
                &&& segment_length % 4 == 0
                &&& final(entries)@ == old(entries)@ + chunks(segment_address, segment_length)
                &&& old(entries).len() + chunk_count(segment_length) <= MAX_PRD_ENTRIES
                &&& !chunk_overflows(segment_address, chunk_count(segment_length) - 1)
            },
            Err(e) => if segment_length == 0 || segment_length % 4 != 0 {
                e == Error::EINVAL && final(entries)@ == old(entries)@
            } else if exists|i: int|
                0 <= i < chunk_count(segment_length) && i < MAX_PRD_ENTRIES - old(entries).len()
                    && #[trigger] chunk_overflows(segment_address, i) {
                &&& e == Error::EOVERFLOW
                &&& added_in_part(old(entries)@, final(entries)@, segment_address, segment_length)
            } else {
                &&& e == Error::EINVAL
                &&& old(entries).len() + chunk_count(segment_length) > MAX_PRD_ENTRIES
                &&& added_in_part(old(entries)@, final(entries)@, segment_address, segment_length)
            },
        },
{
    if segment_length == 0 || segment_length % PRDT_DATA_BYTE_COUNT_PAD != 0 {
        return Err(Error::EINVAL);
    }
    let mut segment_offset: u32 = 0;
    let ghost mut n: nat = 0;
    let ghost all = chunks(segment_address, segment_length);
    let ghost before = entries@;
    while segment_offset < segment_length
        invariant
            segment_length > 0,
            segment_length % 4 == 0,
            before == old(entries)@,
            all == chunks(segment_address, segment_length),
            before.len() <= MAX_PRD_ENTRIES,
            n <= chunk_count(segment_length),
            segment_offset <= segment_length,
            segment_offset == if n * PRDT_DATA_BYTE_COUNT_MAX < segment_length {
                n * PRDT_DATA_BYTE_COUNT_MAX
            } else {
                segment_length as int
            },
            segment_offset < segment_length ==> n < chunk_count(segment_length),
            segment_offset == segment_length ==> n == chunk_count(segment_length),
            before.len() + n <= MAX_PRD_ENTRIES,
            entries@ == before + all.take(n as int),
            forall|i: int| 0 <= i < n ==> !#[trigger] chunk_overflows(segment_address, i),
        decreases segment_length - segment_offset,
    {
        if entries.len() == MAX_PRD_ENTRIES {
            return Err(Error::EINVAL);
        }
        let left = segment_length - segment_offset;
        let length = if left < PRDT_DATA_BYTE_COUNT_MAX {
            left
        } else {
            PRDT_DATA_BYTE_COUNT_MAX
        };
        let address = match segment_address.checked_add(segment_offset as u64) {
            Some(address) => address,
            None => {
                assert(chunk_overflows(segment_address, n as int));
                return Err(Error::EOVERFLOW);
            },
        };
        let entry = match PrdEntry::new(address, length) {
            Ok(entry) => entry,
            Err(e) => return Err(e),
        };
        entries.push(entry);
        segment_offset = segment_offset + length;
        proof {
            assert(entry == all[n as int]);
            assert(entries@ =~= before + all.take((n + 1) as int));
            n = n + 1;
        }
    }
    assert(all.take(n as int) =~= all);
    Ok(())
}

impl UfsPrdt {
    /// The table fits in a command descriptor.
    pub open spec fn wf(self) -> bool {
        self.entries.len() <= MAX_PRD_ENTRIES
    }

    /// The table of a command without data.
    pub fn empty() -> (r: Self)
        ensures
            r.wf(),
            r.mapping is None,
            r.entries@ == Seq::<PrdEntry>::empty(),
    {
        UfsPrdt { mapping: None, entries: Vec::new() }
    }

    /// The table of an UNMAP command, given where its parameter list was put;
    /// `None` when there was no memory for it.
    pub fn for_unmap(dma_addr: Option<u64>) -> (r: Result<Self, Error>)
        ensures
            match dma_addr {
                Some(addr) => r matches Ok(p) && p.wf() && p.mapping == Some(
                    UfsPrdtMapping::Unmap(UfsUnmapMapping { dma_addr: addr }),
                ) && p.entries@ == seq![PrdEntry { addr, reserved: 0, size: 23 }],
                None => r == Err::<Self, Error>(Error::ENOMEM),
            },
    {
        let dma_addr = match dma_addr {
            Some(dma_addr) => dma_addr,
            None => return Err(Error::ENOMEM),
        };
        let mut entries: Vec<PrdEntry> = Vec::new();
        match PrdEntry::new(dma_addr, UNMAP_PARAM_LIST_SIZE as u32) {
            Ok(entry) => entries.push(entry),
            Err(e) => return Err(e),
        }
        assert(entries@ =~= seq![PrdEntry { addr: dma_addr, reserved: 0, size: 23 }]);
        Ok(
            UfsPrdt { mapping: Some(UfsPrdtMapping::Unmap(UfsUnmapMapping { dma_addr })), entries },
        )
    }

    /// The table of a mapped scatterlist. `mapped` is the number of segments
    /// that the platform says it mapped, `segments` are those that it lists.
    pub fn from_segments(
        sg: UfsSgMapping,
        mapped: usize,
        segments: &Vec<DmaVector>,
    ) -> (r: Result<Self, Error>)
        requires
            mapped <= MAX_PRD_ENTRIES,
        ensures
            match r {
                Ok(p) => {
                    &&& p.wf()
                    &&& mapped <= segments.len()
                    &&& p.mapping == Some(UfsPrdtMapping::Sg(sg))
                    &&& p.entries.len() == mapped
                    &&& forall|i: int|
                        0 <= i < mapped ==> PrdEntry::covers((#[trigger] segments@[i]).length)
                            && p.entries@[i] == PrdEntry::of(
                            segments@[i].address,
                            segments@[i].length,
                        )
                },
                Err(e) => if exists|i: int|
                    0 <= i < mapped && i < segments.len() && !PrdEntry::covers(
                        (#[trigger] segments@[i]).length,
                    ) {
                    e == Error::EINVAL
                } else {
                    mapped > segments.len() && e == Error::EIO
                },
            },
    {
        let mut entries: Vec<PrdEntry> = Vec::new();
        for i in 0..mapped
            invariant
                i <= segments.len(),
                entries.len() == i,
                forall|j: int|
                    0 <= j < i ==> PrdEntry::covers((#[trigger] segments@[j]).length)
                        && entries@[j] == PrdEntry::of(segments@[j].address, segments@[j].length),
        {
            if i >= segments.len() {
                return Err(Error::EIO);
            }
            let segment = segments[i];
            match PrdEntry::new(segment.address, segment.length) {
                Ok(entry) => entries.push(entry),
                Err(e) => {
                    assert(!PrdEntry::covers(segments@[i as int].length));
                    return Err(e);
                },
            }
        }
        Ok(UfsPrdt { mapping: Some(UfsPrdtMapping::Sg(sg)), entries })
    }

    /// The entries of the table.
    pub fn entries(&self) -> (r: &Vec<PrdEntry>)
        ensures
            r@ == self.entries@,
    {
        &self.entries
    }

    /// What the entries rest on.
    pub fn into_mapping(self) -> (r: Option<UfsPrdtMapping>)
        ensures
            r == self.mapping,
    {
        self.mapping
    }
}

/// Number of scatterlist entries that the platform filled.
pub fn filled_entries(nents: i32) -> (r: Result<i32, Error>)
    ensures
        r == (if nents <= 0 {
            Err::<i32, Error>(Error::EIO)
        } else {
            Ok(nents)
        }),
{
    if nents <= 0 {
        return Err(Error::EIO);
    }
    Ok(nents)
}

/// Number of segments that the platform mapped.
pub fn mapped_segments(mapped: i32) -> (r: Result<usize, Error>)
    ensures
        r == (if mapped <= 0 {
            Err::<usize, Error>(Error::ENOMEM)
        } else {
            Ok(mapped as usize)
        }),
{
    if mapped <= 0 {
        return Err(Error::ENOMEM);
    }
    Ok(mapped as usize)
}

/// A table that grows segment by segment until it covers a command's data.
pub struct PrdtBuilder {
    remaining: u32,
    entries: Vec<PrdEntry>,
}

impl PrdtBuilder {
    /// Number of bytes that are not covered yet.
    pub closed spec fn left(self) -> u32 {
        self.remaining
    }

    /// The entries so far.
    pub closed spec fn table(self) -> Seq<PrdEntry> {
        self.entries@
    }

    /// The table covers what is not left of the data.
    pub closed spec fn wf(self, data_len: u32) -> bool {
        &&& self.entries.len() <= MAX_PRD_ENTRIES
        &&& covered(self.entries@) + self.remaining == data_len
    }

    /// A table that is to cover a command's data.
    pub fn new(data_len: u32) -> (r: Self)
        ensures
            r.wf(data_len),
            r.left() == data_len,
            r.table() == Seq::<PrdEntry>::empty(),
    {
        PrdtBuilder { remaining: data_len, entries: Vec::new() }
    }

    /// The segment can be added.
    pub open spec fn accepts(self, segment: DmaVector) -> bool {
        &&& 0 < segment.length <= self.left()
        &&& segment.length % 4 == 0
        &&& self.table().len() + chunk_count(segment.length) <= MAX_PRD_ENTRIES
        &&& !chunk_overflows(segment.address, chunk_count(segment.length) - 1)
    }

    /// Adds a segment. The result says whether the table covers all the data.
    pub fn push_segment(&mut self, data_len: u32, segment: DmaVector) -> (r: Result<bool, Error>)
        requires
            old(self).wf(data_len),
        ensures
            r is Ok <==> old(self).accepts(segment),
            match r {
                Ok(done) => {
                    &&& final(self).wf(data_len)
                    &&& final(self).left() == old(self).left() - segment.length
                    &&& final(self).table() == old(self).table() + chunks(
                        segment.address,
                        segment.length,
                    )
                    &&& done == (final(self).left() == 0)
                },
                Err(e) => if segment.length == 0 || segment.length > old(self).left()
                    || segment.length % 4 != 0 {
                    &&& e == Error::EINVAL
                    &&& final(self).left() == old(self).left()
                    &&& final(self).table() == old(self).table()
                } else {
                    &&& e == (if exists|i: int|
                        0 <= i < chunk_count(segment.length) && i < MAX_PRD_ENTRIES - old(
                            self,
                        ).table().len() && #[trigger] chunk_overflows(segment.address, i) {
                        Error::EOVERFLOW
                    } else {
                        Error::EINVAL
                    })
                    &&& final(self).left() == old(self).left()
                    &&& added_in_part(
                        old(self).table(),
                        final(self).table(),
                        segment.address,
                        segment.length,
                    )
                },
            },
    {
        if segment.length == 0 || segment.length > self.remaining {
            return Err(Error::EINVAL);
        }
        match append_entries(&mut self.entries, segment.address, segment.length) {
            Ok(()) => {},
            Err(e) => {
                proof {
                    let last = chunk_count(segment.length) - 1;
                    if exists|i: int|
                        0 <= i < chunk_count(segment.length) && i < MAX_PRD_ENTRIES - old(
                            self,
                        ).table().len() && #[trigger] chunk_overflows(segment.address, i) {
                        let i = choose|i: int|
                            0 <= i < chunk_count(segment.length) && i < MAX_PRD_ENTRIES - old(
                                self,
                            ).table().len() && #[trigger] chunk_overflows(segment.address, i);
                        assert(chunk_overflows(segment.address, last));
                    }
                }
                return Err(e);
            },
        }
        proof {
            lemma_covered_concat(old(self).entries@, chunks(segment.address, segment.length));
            law_chunks_cover(segment.address, segment.length);
        }
        self.remaining = self.remaining - segment.length;
        Ok(self.remaining == 0)
    }

    /// The finished table, over the mapping that its segments belong to.
    pub fn finish(self, data_len: u32, mapping: DmaMapIterMapped<MAX_PRD_ENTRIES>) -> (r: UfsPrdt)
        requires
            self.wf(data_len),
            self.left() == 0,
        ensures
            r.wf(),
            r.mapping == Some(UfsPrdtMapping::Iter(mapping)),
            r.entries@ == self.table(),
            covered(r.entries@) == data_len,
    {
        UfsPrdt { mapping: Some(UfsPrdtMapping::Iter(mapping)), entries: self.entries }
    }
}

impl PrdtPlan {
    /// The plan for an UNMAP command with blocks to unmap.
    pub open spec fn is_unmap_of(self, cmd: UfsSCSICmd) -> bool {
        self matches PrdtPlan::Unmap(data) && data@ == scsi::unmap_params(
            cmd.unmap_lba,
            cmd.unmap_blocks,
        )
    }

    /// The plan for an UNMAP command, which must have blocks to unmap.
    fn for_unmap(cmd: UfsSCSICmd) -> (r: Result<Self, Error>)
        ensures
            match r {
                Ok(plan) => cmd.unmap_blocks != 0 && plan.is_unmap_of(cmd),
                Err(e) => cmd.unmap_blocks == 0 && e == Error::EINVAL,
            },
    {
        if cmd.unmap_blocks() == 0 {
            return Err(Error::EINVAL);
        }
        Ok(PrdtPlan::Unmap(cmd.unmap_param_list()))
    }

    /// How a command's data gets into a table by way of a scatterlist, given the
    /// number of physical segments of the block request; `None` when there is no
    /// block request.
    pub fn for_request(
        transfer_slots: usize,
        tag: usize,
        cmd: UfsSCSICmd,
        nr_segments: Option<usize>,
    ) -> (r: Result<Self, Error>)
        ensures
            if cmd.data_len == 0 {
                r matches Ok(plan) && plan is NoData
            } else if tag >= transfer_slots {
                r == Err::<Self, Error>(Error::EINVAL)
            } else if cmd.cdb@[0] == scsi::UNMAP {
                if cmd.unmap_blocks == 0 {
                    r == Err::<Self, Error>(Error::EINVAL)
                } else {
                    r matches Ok(plan) && plan.is_unmap_of(cmd)
                }
            } else {
                match nr_segments {
                    Some(n) => if 0 < n <= MAX_PRD_ENTRIES {
                        r == Ok::<Self, Error>(
                            PrdtPlan::Scatter {
                                nr_segments: n,
                                direction: dma_direction(cmd.direction),
                            },
                        )
                    } else {
                        r == Err::<Self, Error>(Error::EINVAL)
                    },
                    None => r == Err::<Self, Error>(Error::EINVAL),
                }
            },
    {
        if cmd.data_len() == 0 {
            return Ok(PrdtPlan::NoData);
        }
        if tag >= transfer_slots {
            return Err(Error::EINVAL);
        }
        if cmd.is_unmap() {
            return Self::for_unmap(cmd);
        }
        let nr_segments = match nr_segments {
            Some(nr_segments) => nr_segments,
            None => return Err(Error::EINVAL),
        };
        if nr_segments == 0 || nr_segments > MAX_PRD_ENTRIES {
            return Err(Error::EINVAL);
        }
        Ok(PrdtPlan::Scatter { nr_segments, direction: mapping_direction(cmd.direction()) })
    }

    /// How a command's data gets into a table segment by segment.
    pub fn for_segments(cmd: UfsSCSICmd) -> (r: Result<Self, Error>)
        ensures
            if cmd.data_len == 0 {
                r matches Ok(plan) && plan is NoData
            } else if cmd.cdb@[0] == scsi::UNMAP {
                if cmd.unmap_blocks == 0 {
                    r == Err::<Self, Error>(Error::EINVAL)
                } else {
                    r matches Ok(plan) && plan.is_unmap_of(cmd)
                }
            } else {
                r matches Ok(PrdtPlan::Segments(b)) && b.wf(cmd.data_len) && b.left()
                    == cmd.data_len && b.table() == Seq::<PrdEntry>::empty()
            },
    {
        if cmd.data_len() == 0 {
            return Ok(PrdtPlan::NoData);
        }
        if cmd.is_unmap() {
            return Self::for_unmap(cmd);
        }
        Ok(PrdtPlan::Segments(PrdtBuilder::new(cmd.data_len())))
    }
}

/// The address of byte `k` of the data that a table describes, if the table
/// reaches that far. An entry describes one byte more than its size field holds.
pub open spec fn byte_address(entries: Seq<PrdEntry>, k: int) -> Option<int>
    decreases entries.len(),
{
    if entries.len() == 0 {
        None
    } else if k <= entries[0].size {
        Some(entries[0].addr + k)
    } else {
        byte_address(entries.drop_first(), k - entries[0].size - 1)
    }
}

/// What a table covers, counted from its first entry.
proof fn lemma_covered_front(entries: Seq<PrdEntry>)
    requires
        entries.len() > 0,
    ensures
        covered(entries) == entries[0].size + 1 + covered(entries.drop_first()),
{
    let first = seq![entries[0]];
    reveal_with_fuel(covered, 2);
    lemma_covered_concat(first, entries.drop_first());
    assert(first + entries.drop_first() =~= entries);
    assert(first.drop_last() =~= Seq::<PrdEntry>::empty());
}

/// A table describes as many bytes as it covers.
pub proof fn law_table_reaches_what_it_covers(entries: Seq<PrdEntry>, k: int)
    requires
        0 <= k,
    ensures
        byte_address(entries, k) is Some <==> k < covered(entries),
    decreases entries.len(),
{
    if entries.len() > 0 {
        lemma_covered_front(entries);
        if k > entries[0].size {
            law_table_reaches_what_it_covers(entries.drop_first(), k - entries[0].size - 1);
        }
    }
}

/// The bytes of a table that is put behind another follow those of the other.
pub proof fn law_tables_join(a: Seq<PrdEntry>, b: Seq<PrdEntry>, k: int)
    requires
        0 <= k,
    ensures
        byte_address(a + b, k) == if k < covered(a) {
            byte_address(a, k)
        } else {
            byte_address(b, k - covered(a))
        },
    decreases a.len(),
{
    if a.len() == 0 {
        assert(a + b =~= b);
    } else {
        lemma_covered_front(a);
        assert((a + b).drop_first() =~= a.drop_first() + b);
        if k > a[0].size {
            law_tables_join(a.drop_first(), b, k - a[0].size - 1);
        }
    }
}

/// Where the bytes of a segment are found from entry `i` on.
proof fn lemma_segment_bytes(address: u64, length: u32, i: int, k: int)
    requires
        0 < length,
        address + k / 0x4_0000 * 0x4_0000 <= u64::MAX,
        0 <= i < chunk_count(length),
        i * PRDT_DATA_BYTE_COUNT_MAX <= k < length,
    ensures
        byte_address(chunks(address, length).skip(i), k - i * PRDT_DATA_BYTE_COUNT_MAX) == Some(
            address + k,
        ),
    decreases chunk_count(length) - i,
{
    let s = chunks(address, length);
    let rest = s.skip(i);
    assert(rest[0] == s[i]);
    if k - i * PRDT_DATA_BYTE_COUNT_MAX > rest[0].size {
        assert(rest.drop_first() =~= s.skip(i + 1));
        lemma_segment_bytes(address, length, i + 1, k);
    }
}

/// The entries of a segment describe the bytes of the segment, each at its own
/// address, and no others.
pub proof fn law_segment_bytes(address: u64, length: u32, k: int)
    requires
        0 < length,
        !chunk_overflows(address, chunk_count(length) - 1),
        0 <= k,
    ensures
        byte_address(chunks(address, length), k) == if k < length {
            Some(address + k)
        } else {
            None
        },
{
    let s = chunks(address, length);
    law_chunks_cover(address, length);
    law_table_reaches_what_it_covers(s, k);
    if k < length {
        lemma_segment_bytes(address, length, 0, k);
        assert(s.skip(0) =~= s);
    }
}

/// A table to which a segment is added describes the bytes that it described
/// before, and behind them those of the segment, each at its own address.
pub proof fn law_added_segment_bytes(before: Seq<PrdEntry>, address: u64, length: u32, k: int)
    requires
        0 < length,
        !chunk_overflows(address, chunk_count(length) - 1),
        0 <= k,
    ensures
        ({
            let after = before + chunks(address, length);
            let done = covered(before);
            &&& covered(after) == done + length
            &&& k < done ==> byte_address(after, k) == byte_address(before, k)
            &&& done <= k < done + length ==> byte_address(after, k) == Some(address + (k - done))
        }),
{
    law_tables_join(before, chunks(address, length), k);
    lemma_covered_concat(before, chunks(address, length));
    law_chunks_cover(address, length);
    if covered(before) <= k {
        law_segment_bytes(address, length, k - covered(before));
    }
}

/// No entry of a segment is larger than 256 KiB, every one describes whole
/// double words, and only the last one is smaller than it could be.
pub proof fn law_entries_are_as_large_as_they_can_be(address: u64, length: u32, i: int)
    requires
        0 < length,
        length % 4 == 0,
        0 <= i < chunks(address, length).len(),
    ensures
        ({
            let bytes = chunks(address, length)[i].size + 1;
            &&& bytes % 4 == 0
            &&& i + 1 < chunks(address, length).len() ==> bytes == 0x4_0000
            &&& 0 < bytes <= 0x4_0000
        }),
{
}

/// Data that the device sends is mapped for the device to write, data that it
/// takes is mapped for it to read, and nothing is mapped where no data moves.
pub proof fn law_mapping_follows_transfer(direction: UfsScsiDataDirection)
    ensures
        dma_direction(direction) is FromDevice <==> direction is Read,
        dma_direction(direction) is ToDevice <==> direction is Write,
        dma_direction(direction) is NoTransfer <==> direction is NoData,
{
}

/// When a segment can be added to a table: it is not empty, is made of whole double
/// words, is no longer than what is not covered yet, and its entries, one for every
/// 256 KiB or part of it, have room and addresses.
pub proof fn law_what_segment_is_taken(b: PrdtBuilder, segment: DmaVector)
    ensures
        ({
            let entries = (segment.length + 0x3_ffff) / 0x4_0000;
            &&& chunk_count(segment.length) == entries
            &&& chunks(segment.address, segment.length).len() == entries
            &&& b.accepts(segment) <==> {
                &&& 0 < segment.length <= b.left()
                &&& segment.length % 4 == 0
                &&& b.table().len() + entries <= 256
                &&& segment.address + (entries - 1) * 0x4_0000 <= u64::MAX
            }
        }),
{
}

/// A segment that is added only in part leaves a table that begins with the one
/// from before and describes the first bytes of the segment, each at its own
/// address, but not all of them: the table is full, or the next byte has no
/// address.
pub proof fn law_part_of_segment_bytes(
    before: Seq<PrdEntry>,
    after: Seq<PrdEntry>,
    address: u64,
    length: u32,
    k: int,
)
    requires
        before.len() <= 256,
        added_in_part(before, after, address, length),
        0 <= k < covered(after),
    ensures
        before.is_prefix_of(after),
        after.len() == 256 || address + (covered(after) - covered(before)) > u64::MAX,
        covered(before) <= covered(after) < covered(before) + length,
        k < covered(before) ==> byte_address(after, k) == byte_address(before, k),
        covered(before) <= k ==> byte_address(after, k) == Some(address + (k - covered(before))),
{
    let all = chunks(address, length);
    let n = choose|n: int|
        {
            &&& 0 <= n < chunk_count(length)
            &&& after == before + #[trigger] all.take(n)
            &&& forall|i: int| 0 <= i < n ==> !#[trigger] chunk_overflows(address, i)
            &&& chunk_overflows(address, n) || before.len() + n == MAX_PRD_ENTRIES
        };
    let part = all.take(n);
    lemma_chunks_cover_prefix(address, length, n as nat);
    lemma_covered_concat(before, part);
    law_tables_join(before, part, k);
    assert(covered(part) == n * 0x4_0000 && n * 0x4_0000 < length);
    assert(after.take(before.len() as int) =~= before);
    if covered(before) <= k {
        let j = k - covered(before);
        assert(part + all.skip(n) =~= all);
        law_tables_join(part, all.skip(n), j);
        assert(!chunk_overflows(address, j / 0x4_0000));
        lemma_segment_bytes(address, length, 0, j);
        assert(all.skip(0) =~= all);
    }
}

/// The plan for an unmap holds the bytes in which the device finds the range.
pub proof fn law_planned_unmap_holds_range(plan: PrdtPlan, cmd: UfsSCSICmd)
    requires
        plan.is_unmap_of(cmd),
    ensures
        plan matches PrdtPlan::Unmap(data) && {
            &&& data@.len() == 24
            &&& crate::endian::be_value(data@.subrange(0, 2)) == 22
            &&& crate::endian::be_value(data@.subrange(2, 4)) == 16
            &&& crate::endian::be_value(data@.subrange(8, 16)) == cmd.unmap_lba
            &&& crate::endian::be_value(data@.subrange(16, 20)) == cmd.unmap_blocks
        },
{
    scsi::law_unmap_params_carry_range(cmd.unmap_lba, cmd.unmap_blocks);
}

/// What adding a segment does: the table describes the bytes that it described
/// before, and behind them the bytes of the segment, each at its own address. It is
/// done when it covers all the data.
pub proof fn law_pushed_segment_is_described(
    b: &mut PrdtBuilder,
    data_len: u32,
    segment: DmaVector,
    r: Result<bool, Error>,
    k: int,
)
    requires
        old(b).wf(data_len),
        call_ensures(PrdtBuilder::push_segment, (b, data_len, segment), r),
        0 <= k,
    ensures
        ({
            let entries = (segment.length + 0x3_ffff) / 0x4_0000;
            let before = old(b).table();
            let after = final(b).table();
            let done = covered(before);
            &&& r is Ok <==> {
                &&& 0 < segment.length <= old(b).left()
                &&& segment.length % 4 == 0
                &&& before.len() + entries <= 256
                &&& segment.address + (entries - 1) * 0x4_0000 <= u64::MAX
            }
            &&& r matches Ok(complete) ==> {
                &&& covered(after) == done + segment.length
                &&& final(b).left() == old(b).left() - segment.length
                &&& complete <==> final(b).left() == 0
                &&& k < done ==> byte_address(after, k) == byte_address(before, k)
                &&& done <= k < done + segment.length ==> byte_address(after, k) == Some(
                    segment.address + (k - done),
                )
            }
        }),
{
    law_what_segment_is_taken(*old(b), segment);
    if r is Ok {
        law_added_segment_bytes(old(b).table(), segment.address, segment.length, k);
    }
}

/// The table of a mapped scatterlist describes the bytes of each segment at the
/// segment's own address, one entry for each.
pub proof fn law_scatterlist_is_described(
    sg: UfsSgMapping,
    mapped: usize,
    segments: Vec<DmaVector>,
    p: UfsPrdt,
    i: int,
)
    requires
        mapped <= 256,
        call_ensures(UfsPrdt::from_segments, (sg, mapped, &segments), Ok::<UfsPrdt, Error>(p)),
        0 <= i < mapped,
    ensures
        p.entries@.len() == mapped,
        mapped <= segments@.len(),
        p.entries@[i].addr == segments@[i].address,
        p.entries@[i].size + 1 == segments@[i].length,
        0 < segments@[i].length <= 0x4_0000,
{
    assert(PrdEntry::covers(segments@[i].length));
}

/// The table of an unmap describes the 24 bytes of its parameter list.
pub proof fn law_unmap_table_describes_list(
    dma_addr: Option<u64>,
    r: Result<UfsPrdt, Error>,
    k: int,
)
    requires
        call_ensures(UfsPrdt::for_unmap, (dma_addr,), r),
        0 <= k < 24,
    ensures
        dma_addr is None ==> r == Err::<UfsPrdt, Error>(Error::ENOMEM),
        dma_addr matches Some(addr) ==> (r matches Ok(p) && covered(p.entries@) == 24
            && byte_address(p.entries@, k) == Some(addr + k)),
{
    if let Ok(p) = r {
        lemma_covered_front(p.entries@);
        assert(p.entries@.drop_first().len() == 0);
    }
}

/// How a command's data is mapped: not at all where there is none; its parameter
/// list for an unmap; and the request's segments, of which there may be 256,
/// otherwise.
pub proof fn law_how_data_is_mapped(
    transfer_slots: usize,
    tag: usize,
    cmd: UfsSCSICmd,
    nr_segments: Option<usize>,
    r: Result<PrdtPlan, Error>,
)
    requires
        call_ensures(PrdtPlan::for_request, (transfer_slots, tag, cmd, nr_segments), r),
    ensures
        r matches Ok(PrdtPlan::NoData) <==> cmd.data_len == 0,
        r matches Ok(PrdtPlan::Unmap(_)) <==> cmd.data_len > 0 && tag < transfer_slots
            && cmd.cdb@[0] == 0x42 && cmd.unmap_blocks > 0,
        r matches Ok(PrdtPlan::Scatter { nr_segments: n, direction }) ==> {
            &&& nr_segments == Some(n)
            &&& 1 <= n <= 256
            &&& cmd.direction is Read ==> direction is FromDevice
            &&& cmd.direction is Write ==> direction is ToDevice
            &&& cmd.cdb@[0] != 0x42
            &&& tag < transfer_slots
        },
        cmd.data_len > 0 && tag < transfer_slots && cmd.cdb@[0] != 0x42 ==> (r is Ok <==> (
        nr_segments matches Some(n) && 1 <= n <= 256)),
        r is Err ==> r == Err::<PrdtPlan, Error>(Error::EINVAL),
{
}

/// A segment that was added is described byte for byte behind what the table
/// described before. One that is empty or does not end on a double word is refused.
pub proof fn law_appended_segment(
    entries: &mut Vec<PrdEntry>,
    address: u64,
    length: u32,
    r: Result<(), Error>,
    k: int,
)
    requires
        old(entries).len() <= 256,
        call_ensures(append_entries, (entries, address, length), r),
        0 <= k,
    ensures
        final(entries).len() <= 256,
        r is Ok ==> length > 0 && length % 4 == 0,
        length == 0 || length % 4 != 0 ==> r == Err::<(), Error>(Error::EINVAL) && final(entries)@
            == old(entries)@,
        r is Ok ==> {
            let done = covered(old(entries)@);
            &&& covered(final(entries)@) == done + length
            &&& k < done ==> byte_address(final(entries)@, k) == byte_address(old(entries)@, k)
            &&& done <= k < done + length ==> byte_address(final(entries)@, k) == Some(
                address + (k - done),
            )
        },
{
    if r is Ok {
        law_added_segment_bytes(old(entries)@, address, length, k);
    }
}

/// A command without data needs no table. One that unmaps no block is refused; one
/// that moves data starts with an empty table and all of its data before it.
pub proof fn law_planned_table(cmd: UfsSCSICmd, r: Result<PrdtPlan, Error>)
    requires
        call_ensures(PrdtPlan::for_segments, (cmd,), r),
    ensures
        cmd.data_len == 0 ==> (r matches Ok(plan) && plan is NoData),
        r is Err <==> cmd.data_len > 0 && cmd.cdb@[0] == 0x42 && cmd.unmap_blocks == 0,
        cmd.data_len > 0 && cmd.cdb@[0] == 0x42 && cmd.unmap_blocks > 0 ==> (r matches Ok(plan)
            && plan.is_unmap_of(cmd)),
        cmd.data_len > 0 && cmd.cdb@[0] != 0x42 ==> (r matches Ok(PrdtPlan::Segments(b))
            && b.left() == cmd.data_len && b.table().len() == 0),
{
}

} // verus!
