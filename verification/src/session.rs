//! The ephemeral OS-capability bootstrap state of one call: the program
//! name and argument vector, flattened into the system interface's
//! argument wire format. Entry 0 is the program name; every entry's bytes
//! are NUL-terminated and concatenated into one buffer, and each entry's
//! offset within that buffer stands alongside. The host functions that a
//! module's bootstrap imports resolve to only copy these precomputed
//! bytes into guest memory.

use vstd::prelude::*;

verus! {

/// One entry's wire bytes: the entry's bytes with a terminating NUL.
pub open spec fn entry_wire(b: Seq<u8>) -> Seq<u8> {
    b + seq![0u8]
}

/// The argument buffer: every entry's wire bytes, in order.
pub open spec fn wire_buffer(entries: Seq<Seq<u8>>) -> Seq<u8>
    decreases entries.len(),
{
    if entries.len() == 0 {
        Seq::empty()
    } else {
        wire_buffer(entries.drop_last()) + entry_wire(entries.last())
    }
}

/// Offset of entry k within the buffer: the joint wire length of the
/// entries before it.
pub open spec fn wire_offset(entries: Seq<Seq<u8>>, k: int) -> int {
    wire_buffer(entries.take(k)).len() as int
}

/// Ephemeral per-call capability-session state: the flattened argument
/// buffer and the offset of each entry within it. Discarded when the call
/// returns; never cached or shared.
pub struct CapabilitySession {
    pub buf: Vec<u8>,
    pub offsets: Vec<u32>,
}

pub proof fn lemma_wire_buffer_extend(entries: Seq<Seq<u8>>, k: int)
    requires
        0 <= k < entries.len(),
    ensures
        wire_buffer(entries.take(k + 1)) == wire_buffer(entries.take(k)) + entry_wire(entries[k]),
{
    let cur = entries.take(k + 1);
    assert(cur.drop_last() =~= entries.take(k));
    assert(cur.last() == entries[k]);
}

/// Builds the session's wire image from the entries — the program name
/// first, then the arguments. Nothing is built when the image would not
/// fit the system interface's 32-bit sizes.
pub fn build_session(entries: &Vec<Vec<u8>>) -> (r: Option<CapabilitySession>)
    ensures
        match r {
            Some(s) => s.offsets@.len() == entries@.len() && s.buf@ == wire_buffer(
                entries.deep_view(),
            ) && wire_buffer(entries.deep_view()).len() <= u32::MAX && (forall|k: int|
                0 <= k < entries@.len() ==> s.offsets@[k] as int == wire_offset(
                    entries.deep_view(),
                    k,
                )),
            None => wire_buffer(entries.deep_view()).len() > u32::MAX,
        },
{
    let mut buf: Vec<u8> = Vec::new();
    let mut offsets: Vec<u32> = Vec::new();
    let limit: usize = 0xffff_ffffu32 as usize;
    let mut i: usize = 0;
    while i < entries.len()
        invariant
            i <= entries@.len(),
            limit == 0xffff_ffff,
            offsets@.len() == i,
            buf@ == wire_buffer(entries.deep_view().take(i as int)),
            buf@.len() <= limit,
            forall|k: int|
                0 <= k < i ==> offsets@[k] as int == wire_offset(entries.deep_view(), k),
        decreases entries@.len() - i,
    {
        let e: &Vec<u8> = &entries[i];
        let remaining = limit - buf.len();
        if e.len() >= remaining {
            proof {
                let dv = entries.deep_view();
                lemma_wire_buffer_extend(dv, i as int);
                assert(wire_buffer(dv.take(i + 1)).len() > limit);
                lemma_wire_buffer_prefix_len(dv, i + 1);
            }
            return None;
        }
        let off = buf.len() as u32;
        offsets.push(off);
        buf.extend_from_slice(e.as_slice());
        buf.push(0u8);
        proof {
            let dv = entries.deep_view();
            assert(dv[i as int] == entries@[i as int]@);
            lemma_wire_buffer_extend(dv, i as int);
            assert(buf@ =~= wire_buffer(dv.take(i as int)) + entry_wire(dv[i as int]));
        }
        i += 1;
    }
    proof {
        assert(entries.deep_view().take(entries@.len() as int) =~= entries.deep_view());
    }
    Some(CapabilitySession { buf, offsets })
}

/// A longer entry list never has a shorter wire image than its prefix.
pub proof fn lemma_wire_buffer_prefix_len(entries: Seq<Seq<u8>>, k: int)
    requires
        0 <= k <= entries.len(),
    ensures
        wire_buffer(entries).len() >= wire_buffer(entries.take(k)).len(),
    decreases entries.len() - k,
{
    if k < entries.len() {
        lemma_wire_buffer_prefix_len(entries, k + 1);
        lemma_wire_buffer_extend(entries, k);
    } else {
        assert(entries.take(k) =~= entries);
    }
}

} // verus!
