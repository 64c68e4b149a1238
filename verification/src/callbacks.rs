//! The callback-dispatch protocol: the decisions the wrapper's handlers take
//! for each probe firing, each data record, each buffered text chunk, and
//! each aggregation bucket.  The engine drives these handlers on the calling
//! thread during a drain; everything here is the pure decision and
//! data-interpretation part of that protocol.

use vstd::prelude::*;
use crate::DTRACEACT_EXIT;
use crate::DTRACE_AGGWALK_NEXT;
use crate::DTRACE_CONSUME_NEXT;
use crate::DTRACE_CONSUME_THIS;
use crate::DTRACE_HANDLE_OK;

verus! {

/// Read-only descriptor of one data record inside a raw buffer: the action
/// tag and where the record's bytes lie.
#[derive(Clone, Copy, PartialEq, Eq, Structural, Debug)]
pub struct RecDesc {
    /// Action tag of the record (`DTRACEACT_EXIT` marks an exit record).
    pub action: u16,
    /// Offset of the record's data inside the buffer.
    pub offset: u32,
    /// Size in bytes of the record's data.
    pub size: u32,
}

/// One data record of a probe firing, with the text the engine rendered
/// for it.
#[derive(Debug)]
pub struct Record {
    /// Action tag of the record.
    pub action: u16,
    /// The rendered output bytes this record contributes.
    pub payload: Vec<u8>,
}

/// Mathematical view of a `Record`.
pub ghost struct RecordView {
    /// Action tag of the record.
    pub action: u16,
    /// The rendered output bytes this record contributes.
    pub payload: Seq<u8>,
}

impl View for Record {
    type V = RecordView;

    open spec fn view(&self) -> RecordView {
        RecordView { action: self.action, payload: self.payload@ }
    }
}

/// One probe firing as read from a principal buffer: the records of its
/// enabling control block, in delivery order.
#[derive(Debug)]
pub struct ProbeData {
    /// The records the firing carries, one per traced expression.
    pub records: Vec<Record>,
}

impl View for ProbeData {
    type V = Seq<RecordView>;

    open spec fn view(&self) -> Seq<RecordView> {
        self.records@.map_values(|r: Record| r@)
    }
}

/// Probe handler ("chew"): called once per enabled-probe firing before its
/// records are examined.  The wrapper's policy consumes every firing.
pub fn chew(_data: &ProbeData) -> (c: i32)
    ensures
        c == DTRACE_CONSUME_THIS,
{
    DTRACE_CONSUME_THIS
}

/// The record handler's decision for one record: no record descriptor ends
/// the probe's record list, an exit record ends the probe's output, and any
/// other record is consumed.
pub open spec fn chew_rec_decision(record: Option<RecordView>) -> i32 {
    match record {
        Option::None => DTRACE_CONSUME_NEXT,
        Option::Some(r) => if r.action == DTRACEACT_EXIT {
            DTRACE_CONSUME_NEXT
        } else {
            DTRACE_CONSUME_THIS
        },
    }
}

/// Record handler ("chew-record"): called once per data record of a firing.
/// With no record descriptor, or with an exit record, it moves to the next
/// probe; otherwise it consumes the record.
pub fn chew_rec(record: Option<&Record>) -> (c: i32)
    ensures
        c == chew_rec_decision(
            match record {
                Option::Some(r) => Option::Some(r@),
                Option::None => Option::None,
            },
        ),
{
    match record {
        Option::None => DTRACE_CONSUME_NEXT,
        Option::Some(r) => {
            if r.action == DTRACEACT_EXIT {
                DTRACE_CONSUME_NEXT
            } else {
                DTRACE_CONSUME_THIS
            }
        },
    }
}

/// A record-handler invocation with a null record descriptor always yields
/// "move to next probe", regardless of any other state.
pub proof fn lemma_chew_rec_null_moves_next()
    ensures
        chew_rec_decision(Option::None) == DTRACE_CONSUME_NEXT,
{
}

/// A record-handler invocation whose action tag is the exit action always
/// yields "move to next probe".
pub proof fn lemma_chew_rec_exit_moves_next(r: RecordView)
    requires
        r.action == DTRACEACT_EXIT,
    ensures
        chew_rec_decision(Option::Some(r)) == DTRACE_CONSUME_NEXT,
{
}

/// Buffered-output handler: delivers one buffered text chunk into `sink` and
/// reports the chunk consumed.
pub fn buffered(sink: &mut Vec<Vec<u8>>, bufdata: &Vec<u8>) -> (c: i32)
    ensures
        final(sink).deep_view() == old(sink).deep_view().push(bufdata@),
        c == DTRACE_HANDLE_OK,
{
    let chunk = bufdata.clone();
    assert(chunk@ =~= bufdata@);
    sink.push(chunk);
    assert(sink.deep_view() =~~= old(sink).deep_view().push(bufdata@));
    DTRACE_HANDLE_OK
}

/// Index of the first exit record in `records`, or `records.len()` when
/// there is none: the records of a probe firing that are delivered are
/// exactly those before this index.
pub open spec fn first_exit(records: Seq<RecordView>) -> int
    decreases records.len(),
{
    if records.len() == 0 {
        0
    } else if records[0].action == DTRACEACT_EXIT {
        0
    } else {
        1 + first_exit(records.skip(1))
    }
}

/// `first_exit` is the unique index with no exit record before it that
/// either sits on an exit record or ends the list.
pub proof fn lemma_first_exit_at(records: Seq<RecordView>, j: int)
    requires
        0 <= j <= records.len(),
        forall|k: int| 0 <= k < j ==> records[k].action != DTRACEACT_EXIT,
        j == records.len() || records[j].action == DTRACEACT_EXIT,
    ensures
        first_exit(records) == j,
    decreases records.len(),
{
    if records.len() != 0 && records[0].action != DTRACEACT_EXIT {
        lemma_first_exit_at(records.skip(1), j - 1);
    }
}

/// The payloads one probe firing delivers: its records in order, cut at the
/// first exit record.
pub open spec fn probe_payloads(records: Seq<RecordView>) -> Seq<Seq<u8>> {
    records.take(first_exit(records)).map_values(|r: RecordView| r.payload)
}

/// The record views of a sequence of probe firings.
pub open spec fn probes_view(probes: Seq<ProbeData>) -> Seq<Seq<RecordView>> {
    probes.map_values(|p: ProbeData| p@)
}

/// The payloads a whole drain delivers: each firing's payloads, firings in
/// buffer order.
pub open spec fn consume_payloads(probes: Seq<Seq<RecordView>>) -> Seq<Seq<u8>>
    decreases probes.len(),
{
    if probes.len() == 0 {
        Seq::empty()
    } else {
        consume_payloads(probes.drop_last()) + probe_payloads(probes.last())
    }
}

/// Drains one probe firing: gates it through the probe handler, then feeds
/// each record to the record handler, delivering consumed payloads to `sink`
/// through the buffered-output handler until the record list ends or an exit
/// record is met.
pub fn consume_probe(probe: &ProbeData, sink: &mut Vec<Vec<u8>>)
    ensures
        final(sink).deep_view() == old(sink).deep_view() + probe_payloads(probe@),
{
    let gate = chew(probe);
    if gate != DTRACE_CONSUME_THIS {
        assert(final(sink).deep_view() =~= old(sink).deep_view() + probe_payloads(probe@));
        return ;
    }
    let ghost recs = probe@;
    let n = probe.records.len();
    let mut j: usize = 0;
    loop
        invariant
            j <= n,
            n == probe.records.len(),
            recs == probe@,
            recs.len() == n,
            forall|k: int| 0 <= k < j ==> recs[k].action != DTRACEACT_EXIT,
            sink.deep_view() == old(sink).deep_view() + recs.take(j as int).map_values(
                |r: RecordView| r.payload,
            ),
        ensures
            sink.deep_view() == old(sink).deep_view() + recs.take(first_exit(recs)).map_values(
                |r: RecordView| r.payload,
            ),
        decreases n - j,
    {
        if j >= n {
            proof {
                lemma_first_exit_at(recs, j as int);
            }
            break ;
        }
        let rec = &probe.records[j];
        assert(rec@ == recs[j as int]);
        let c = chew_rec(Some(rec));
        if c == DTRACE_CONSUME_NEXT {
            proof {
                lemma_first_exit_at(recs, j as int);
            }
            break ;
        }
        buffered(sink, &rec.payload);
        proof {
            let f = |r: RecordView| r.payload;
            assert(recs.take(j + 1).map_values(f) =~= recs.take(j as int).map_values(f).push(
                recs[j as int].payload,
            ));
            assert(sink.deep_view() =~= old(sink).deep_view() + recs.take(j + 1).map_values(f));
        }
        j = j + 1;
    }
}

/// Offset where the name field of an aggregation bucket starts, given the
/// bucket's first record descriptor.
pub open spec fn field_start(rec: RecDesc) -> int {
    rec.offset + rec.size
}

/// The bytes of the NUL-terminated name starting at `start` in `buf`:
/// everything up to, and not including, the first NUL byte.
pub open spec fn name_bytes(buf: Seq<u8>, start: int) -> Seq<u8>
    decreases buf.len() - start,
{
    if start < 0 || start >= buf.len() || buf[start] == 0 {
        Seq::empty()
    } else {
        seq![buf[start]] + name_bytes(buf, start + 1)
    }
}

/// Whether a NUL byte terminates the name starting at `start`.
pub open spec fn has_nul(buf: Seq<u8>, start: int) -> bool {
    exists|i: int| start <= i < buf.len() && buf[i] == 0
}

/// The unsigned 32-bit value stored little-endian at `i` in `buf`.
pub open spec fn le_u32_at(buf: Seq<u8>, i: int) -> int {
    buf[i] + buf[i + 1] * 0x100 + buf[i + 2] * 0x10000 + buf[i + 3] * 0x1000000
}

/// The signed 32-bit value stored little-endian (two's complement) at `i`.
pub open spec fn le_i32_at(buf: Seq<u8>, i: int) -> int {
    if le_u32_at(buf, i) < 0x8000_0000 {
        le_u32_at(buf, i)
    } else {
        le_u32_at(buf, i) - 0x1_0000_0000
    }
}

/// Aggregate-walk handler for the common "count by key" layout: reads the
/// bucket's NUL-terminated name (the key) after the first record and the
/// 32-bit instance value after the second record, both from the bucket's raw
/// buffer.  Returns the decoded pair and the control code to continue the
/// walk, or `None` when the buffer does not hold the described fields.
pub fn walk(buf: &Vec<u8>, nrec: RecDesc, irec: RecDesc) -> (r: Option<(Vec<u8>, i32, i32)>)
    ensures
        match r {
            Option::Some((name, instance, c)) => {
                &&& has_nul(buf@, field_start(nrec))
                &&& field_start(irec) + 4 <= buf@.len()
                &&& name@ == name_bytes(buf@, field_start(nrec))
                &&& instance == le_i32_at(buf@, field_start(irec))
                &&& c == DTRACE_AGGWALK_NEXT
            },
            Option::None => !has_nul(buf@, field_start(nrec)) || field_start(irec) + 4
                > buf@.len(),
        },
{
    let nstart_u: u64 = nrec.offset as u64 + nrec.size as u64;
    let istart_u: u64 = irec.offset as u64 + irec.size as u64;
    if nstart_u >= buf.len() as u64 || istart_u + 4 > buf.len() as u64 {
        proof {
            if nstart_u >= buf.len() as u64 {
                assert(!has_nul(buf@, field_start(nrec)));
            }
        }
        return None;
    }
    let nstart = nstart_u as usize;
    let istart = istart_u as usize;

    // scan for the NUL terminator of the name
    let mut end: usize = nstart;
    loop
        invariant
            nstart <= end <= buf.len(),
            nstart < buf.len(),
            forall|k: int| nstart <= k < end ==> buf@[k] != 0,
        ensures
            end == buf.len() || (end < buf.len() && buf@[end as int] == 0),
            forall|k: int| nstart <= k < end ==> buf@[k] != 0,
        decreases buf.len() - end,
    {
        if end >= buf.len() {
            break ;
        }
        if buf[end] == 0 {
            break ;
        }
        end = end + 1;
    }
    if end == buf.len() {
        assert(!has_nul(buf@, field_start(nrec)));
        return None;
    }

    let mut name: Vec<u8> = Vec::new();
    let mut k: usize = nstart;
    while k < end
        invariant
            nstart <= k <= end,
            end < buf.len(),
            buf@[end as int] == 0,
            forall|j: int| nstart <= j < end ==> buf@[j] != 0,
            name@ =~= buf@.subrange(nstart as int, k as int),
        decreases end - k,
    {
        name.push(buf[k]);
        k = k + 1;
    }
    proof {
        lemma_name_bytes_is_prefix(buf@, nstart as int, end as int);
    }

    let b0 = buf[istart] as u32;
    let b1 = buf[istart + 1] as u32;
    let b2 = buf[istart + 2] as u32;
    let b3 = buf[istart + 3] as u32;
    let u: u32 = b0 + b1 * 0x100 + b2 * 0x10000 + b3 * 0x1000000;
    let instance: i32 = if u < 0x8000_0000 {
        u as i32
    } else {
        -((0xFFFF_FFFFu32 - u) as i32) - 1
    };
    Some((name, instance, crate::DTRACE_AGGWALK_NEXT))
}

/// The name field is exactly the bytes from `start` to the first NUL at
/// `end`.
proof fn lemma_name_bytes_is_prefix(buf: Seq<u8>, start: int, end: int)
    requires
        0 <= start <= end < buf.len(),
        buf[end] == 0,
        forall|j: int| start <= j < end ==> buf[j] != 0,
    ensures
        name_bytes(buf, start) == buf.subrange(start, end),
    decreases end - start,
{
    if start == end {
        assert(name_bytes(buf, start) =~= buf.subrange(start, end));
    } else {
        lemma_name_bytes_is_prefix(buf, start + 1, end);
        assert(name_bytes(buf, start) =~= buf.subrange(start, end));
    }
}

} // verus!
