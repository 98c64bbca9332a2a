//! Reassembly of server messages from blob fragments, and the raw messages
//! they yield.

use vstd::prelude::*;
use std::collections::HashMap;
use crate::wire::{u32_le, read_u32_at};

verus! {

broadcast use vstd::std_specs::hash::group_hash_axioms;

/// The size of one fragment chunk within a reassembly buffer.
pub const FRAGMENT_CHUNK_SIZE: usize = 448;

/// `buf` with `chunk` copied in at `start`, when it fits; else `buf`.
pub open spec fn with_chunk(buf: Seq<u8>, chunk: Seq<u8>, start: int) -> Seq<u8> {
    if start + chunk.len() <= buf.len() {
        buf.subrange(0, start) + chunk + buf.subrange(start + chunk.len(), buf.len() as int)
    } else {
        buf
    }
}

/// Which chunks have arrived, after a chunk of `len` bytes at chunk `index`
/// of a buffer of `buf_len` bytes: it counts only where it fits.
pub open spec fn with_arrival(received: Seq<bool>, buf_len: nat, len: nat, index: int) -> Seq<bool> {
    if index * 448 + len <= buf_len {
        received.update(index, true)
    } else {
        received
    }
}

/// Whether every chunk has arrived.
pub open spec fn all_arrived(received: Seq<bool>) -> bool {
    forall|i: int| 0 <= i < received.len() ==> #[trigger] received[i]
}

/// One message under reassembly: a buffer of 448-byte chunks, and which of
/// them have arrived. This is what `asheron_rs::network::Fragment` keeps,
/// held here per message rather than in that crate's store shared by the
/// whole process, whose entries are keyed by sequence alone.
pub struct Reassembly {
    data: Vec<u8>,
    received: Vec<bool>,
}

impl Reassembly {
    pub closed spec fn buffer(self) -> Seq<u8> { self.data@ }
    pub closed spec fn arrived(self) -> Seq<bool> { self.received@ }

    /// The buffer holds one chunk for each chunk the message has.
    pub closed spec fn wf(self) -> bool {
        self.data@.len() == self.received@.len() * 448 && self.received@.len() <= u16::MAX
    }

    /// A message of `count` chunks, none arrived: `count` zeroed chunks.
    fn new(count: u16) -> (r: Reassembly)
        ensures
            r.wf(),
            r.buffer() == Seq::new((count as nat) * 448, |i: int| 0u8),
            r.arrived() == Seq::new(count as nat, |i: int| false),
    {
        let n: usize = (count as usize) * 448;
        let mut data: Vec<u8> = Vec::new();
        while data.len() < n
            invariant
                data@.len() <= n,
                forall|i: int| 0 <= i < data@.len() ==> data@[i] == 0u8,
            decreases n - data.len(),
        {
            data.push(0u8);
        }
        let mut received: Vec<bool> = Vec::new();
        while received.len() < count as usize
            invariant
                received@.len() <= count,
                forall|i: int| 0 <= i < received@.len() ==> received@[i] == false,
            decreases count as usize - received.len(),
        {
            received.push(false);
        }
        let r = Reassembly { data, received };
        assert(r.buffer() =~= Seq::new((count as nat) * 448, |i: int| 0u8));
        assert(r.arrived() =~= Seq::new(count as nat, |i: int| false));
        r
    }

    /// Copy `chunk` in as chunk `index`, when it fits, and count that chunk
    /// as arrived.
    fn add_chunk(&mut self, chunk: &[u8], index: usize)
        requires
            old(self).wf(),
            chunk@.len() < 0x1000_0000,
            index <= u16::MAX,
            index * 448 + chunk@.len() <= old(self).buffer().len() ==> index < old(self).arrived().len(),
        ensures
            final(self).wf(),
            final(self).buffer() == with_chunk(old(self).buffer(), chunk@, index * 448),
            final(self).arrived() == with_arrival(old(self).arrived(), old(self).buffer().len(), chunk@.len(), index as int),
    {
        let start: usize = index * 448;
        if start + chunk.len() <= self.data.len() {
            let ghost buf = self.data@;
            let mut j: usize = 0;
            while j < chunk.len()
                invariant
                    j <= chunk@.len(),
                    start + chunk@.len() <= buf.len(),
                    buf.len() <= usize::MAX,
                    self.data@.len() == buf.len(),
                    forall|k: int| 0 <= k < start ==> self.data@[k] == buf[k],
                    forall|k: int| 0 <= k < j ==> self.data@[start + k] == chunk@[k],
                    forall|k: int| start + j <= k < buf.len() ==> self.data@[k] == buf[k],
                    self.received@ == old(self).received@,
                    buf == old(self).data@,
                decreases chunk.len() - j,
            {
                self.data.set(start + j, chunk[j]);
                j = j + 1;
            }
            assert(self.data@ =~= with_chunk(buf, chunk@, start as int));
            self.received.set(index, true);
        }
    }

    /// Whether every chunk has arrived.
    fn is_complete(&self) -> (r: bool)
        ensures
            r == all_arrived(self.arrived()),
    {
        let mut i: usize = 0;
        while i < self.received.len()
            invariant
                i <= self.received@.len(),
                forall|k: int| 0 <= k < i ==> self.received@[k],
            decreases self.received.len() - i,
        {
            if !self.received[i] {
                return false;
            }
            i = i + 1;
        }
        true
    }

    /// The reassembled bytes: the whole buffer.
    fn take_data(self) -> (r: Vec<u8>)
        ensures
            r@ == self.buffer(),
    {
        self.data
    }
}

/// A server message: its opcode and its whole data, opcode included.
pub struct RawMessage {
    id: u32,
    opcode: u32,
    data: Vec<u8>,
    sequence: u32,
}

impl RawMessage {
    /// A message always holds its opcode.
    #[verifier::type_invariant]
    spec fn holds_opcode(self) -> bool {
        &&& self.data@.len() >= 4
        &&& u32_le(self.opcode) == self.data@.subrange(0, 4)
    }

    pub closed spec fn id_spec(self) -> u32 { self.id }
    pub closed spec fn opcode_spec(self) -> u32 { self.opcode }
    pub closed spec fn data_spec(self) -> Seq<u8> { self.data@ }
    pub closed spec fn sequence_spec(self) -> u32 { self.sequence }

    /// The message for `data`, whose first four bytes are its opcode
    /// (little-endian); `None` when it is shorter than an opcode. This is what
    /// `asheron_rs::network::RawMessage::from_fragment` keeps of a message;
    /// that constructor also parses the whole message to name it and its
    /// queue, which the client never reads, and its string reader panics on
    /// a negative length, so the opcode is read here.
    pub fn from_data(data: Vec<u8>, sequence: u32, id: u32) -> (r: Option<RawMessage>)
        ensures
            r is Some <==> data@.len() >= 4,
            r matches Some(m) ==> m.data_spec() == data@ && m.sequence_spec() == sequence
                && m.id_spec() == id && u32_le(m.opcode_spec()) == data@.subrange(0, 4),
    {
        if data.len() < 4 {
            return None;
        }
        let opcode = read_u32_at(data.as_slice(), 0);
        Some(RawMessage { id, opcode, data, sequence })
    }

    pub fn id(&self) -> (r: u32)
        ensures r == self.id_spec(),
    {
        self.id
    }

    pub fn opcode(&self) -> (r: u32)
        ensures
            r == self.opcode_spec(),
            u32_le(r) == self.data_spec().subrange(0, 4),
    {
        proof { use_type_invariant(self); }
        self.opcode
    }

    /// The whole data, opcode included.
    pub fn data(&self) -> (r: &Vec<u8>)
        ensures
            r@ == self.data_spec(),
            r@.len() >= 4,
            u32_le(self.opcode_spec()) == r@.subrange(0, 4),
    {
        proof { use_type_invariant(self); }
        &self.data
    }

    pub fn sequence(&self) -> (r: u32)
        ensures r == self.sequence_spec(),
    {
        self.sequence
    }
}

/// Fragments still being reassembled, by fragment sequence.
pub struct PendingFragments {
    entries: HashMap<u32, Reassembly>,
}

impl PendingFragments {
    #[verifier::type_invariant]
    spec fn inv(self) -> bool {
        forall|k: u32| self.entries@.contains_key(k) ==> (#[trigger] self.entries@[k]).wf()
    }

    /// The sequences under reassembly.
    pub closed spec fn keys(self) -> Set<u32> {
        self.entries@.dom()
    }

    /// The buffer of message `sequence` and which of its chunks arrived,
    /// while it is under reassembly.
    pub closed spec fn state_of(self, sequence: u32) -> Option<(Seq<u8>, Seq<bool>)> {
        if self.entries@.contains_key(sequence) {
            Some((self.entries@[sequence].buffer(), self.entries@[sequence].arrived()))
        } else {
            None
        }
    }

    /// The buffer a chunk of message `sequence` (of `count` chunks) is
    /// written into: the one under reassembly, or `count` zeroed chunks.
    pub open spec fn start_buffer(self, sequence: u32, count: u16) -> Seq<u8> {
        match self.state_of(sequence) {
            Some(s) => s.0,
            None => Seq::new((count as nat) * 448, |i: int| 0u8),
        }
    }

    /// Which chunks of message `sequence` (of `count` chunks) have arrived
    /// before this one: as under reassembly, or none.
    pub open spec fn start_arrived(self, sequence: u32, count: u16) -> Seq<bool> {
        match self.state_of(sequence) {
            Some(s) => s.1,
            None => Seq::new(count as nat, |i: int| false),
        }
    }

    pub fn new() -> (r: PendingFragments)
        ensures
            r.keys() == Set::<u32>::empty(),
    {
        PendingFragments { entries: HashMap::new() }
    }

    /// Whether `add` may take this chunk: its length is in range, and it is
    /// not an empty chunk one past the last of its message (whose arrival
    /// would be recorded past the end).
    pub open spec fn chunk_acceptable(self, sequence: u32, count: u16, index: u16, data_len: nat) -> bool {
        &&& data_len < 0x1000_0000
        &&& !(data_len == 0 && index * 448 == self.start_buffer(sequence, count).len())
    }

    /// Decide `chunk_acceptable`.
    pub fn accepts_chunk(&self, sequence: u32, count: u16, index: u16, data_len: usize) -> (r: bool)
        ensures
            r == self.chunk_acceptable(sequence, count, index, data_len as nat),
    {
        proof { use_type_invariant(self); }
        if data_len >= 0x1000_0000 {
            return false;
        }
        let len: usize = match self.entries.get(&sequence) {
            None => (count as usize) * 448,
            Some(f) => {
                proof { assert(self.entries@[sequence].wf()); }
                f.data.len()
            },
        };
        !(data_len == 0 && (index as usize) * 448 == len)
    }

    /// Drop every fragment under reassembly.
    pub fn clear(&mut self)
        ensures
            final(self).keys() == Set::<u32>::empty(),
    {
        self.entries = HashMap::new();
    }

    /// Add one received chunk of message `sequence` (a message of `count`
    /// chunks), starting its reassembly if it is new. When every chunk of
    /// the message has arrived, it leaves and its data is returned.
    pub fn add(&mut self, sequence: u32, count: u16, index: u16, data: &Vec<u8>) -> (r: Option<Vec<u8>>)
        requires
            old(self).chunk_acceptable(sequence, count, index, data@.len()),
        ensures
            r is None <==> final(self).keys().contains(sequence),
            forall|k: u32| k != sequence ==> (#[trigger] old(self).keys().contains(k) <==> final(self).keys().contains(k)),
            forall|k: u32| k != sequence ==> #[trigger] final(self).state_of(k) == old(self).state_of(k),
            r is Some <==> all_arrived(with_arrival(old(self).start_arrived(sequence, count),
                old(self).start_buffer(sequence, count).len(), data@.len(), index as int)),
            r matches Some(bytes) ==> bytes@ == with_chunk(old(self).start_buffer(sequence, count), data@, index * 448),
            r is None ==> final(self).state_of(sequence) == Some((
                with_chunk(old(self).start_buffer(sequence, count), data@, index * 448),
                with_arrival(old(self).start_arrived(sequence, count),
                    old(self).start_buffer(sequence, count).len(), data@.len(), index as int))),
    {
        proof { use_type_invariant(&*self); }
        let mut entries: HashMap<u32, Reassembly> = HashMap::new();
        std::mem::swap(&mut entries, &mut self.entries);
        let ghost before = entries@;
        let mut f = match entries.remove(&sequence) {
            Some(f) => f,
            None => Reassembly::new(count),
        };
        proof {
            assert(f.wf());
            assert(f.buffer() =~= old(self).start_buffer(sequence, count));
            assert(f.arrived() =~= old(self).start_arrived(sequence, count));
            let fb = f.buffer();
            let fa = f.arrived();
            if index as int * 448 + data@.len() <= fb.len() {
                assert(index < fa.len()) by (nonlinear_arith)
                    requires
                        index as int * 448 + data@.len() <= fa.len() * 448,
                        !(data@.len() == 0 && index as int * 448 == fa.len() * 448);
            }
        }
        f.add_chunk(data.as_slice(), index as usize);
        if f.is_complete() {
            let bytes = f.take_data();
            self.entries = entries;
            Some(bytes)
        } else {
            entries.insert(sequence, f);
            self.entries = entries;
            None
        }
    }
}

} // verus!
