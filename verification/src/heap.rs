//! The mocked heaps: every read finds the same word, and at most one write is
//! recorded.
use core::ops::{Index, Range};

use arbitrary::Unstructured;
use vstd::prelude::*;

use crate::mock_array::MockRead;
use crate::numeric::{
    be_value, clear_low_bytes, le_value, lemma_clear_low_bytes_rounds_down, lemma_le_value_digit,
    lemma_pow256_positive, lemma_value_determines_word, lemma_zero_bytes_value, pow256, zero_bytes,
    U256,
};
use crate::source::{arbitrary_bytes, drawn, left_over, remaining_bytes};

verus! {

/// The page number of the first frame's heap.
pub const FIRST_HEAP_PAGE: u32 = 10;

/// Identifies a memory page.
#[derive(Clone, Copy, Debug, PartialEq, Eq, Structural)]
pub struct HeapId {
    pub page: u32,
}

impl HeapId {
    /// The heap of the first frame.
    pub fn first() -> (id: HeapId)
        ensures
            id.page == FIRST_HEAP_PAGE,
    {
        HeapId { page: FIRST_HEAP_PAGE }
    }

    /// The page with number `page`. Nothing checks that such a page exists.
    pub fn from_u32_unchecked(page: u32) -> (id: HeapId)
        ensures
            id.page == page,
    {
        HeapId { page }
    }

    /// The page number.
    pub fn as_u32(self) -> (page: u32)
        ensures
            page == self.page,
    {
        self.page
    }
}

/// What a heap holds: the word that every read finds, and the write, if there was
/// one, as its start address and value.
pub struct HeapView {
    pub word: Seq<u8>,
    pub write: Option<(u32, U256)>,
}

/// What a group of heaps holds: its tag, and the one heap behind every page.
pub struct HeapsView {
    pub heap_id: HeapId,
    pub heap: HeapView,
}

/// The heap that reads as zero and was never written.
pub open spec fn empty_heap() -> HeapView {
    HeapView { word: zero_bytes(32), write: None }
}

/// How many addresses `range` covers.
pub open spec fn range_len(range: Range<u32>) -> nat {
    if range.start < range.end {
        (range.end - range.start) as nat
    } else {
        0
    }
}

/// One heap. It may be read until it is written, and written once.
#[derive(Debug)]
pub struct Heap {
    pub read: MockRead<u32, [u8; 32]>,
    pub write: Option<(u32, U256)>,
}

impl View for Heap {
    type V = HeapView;

    open spec fn view(&self) -> HeapView {
        HeapView { word: self.read.value@, write: self.write }
    }
}

impl Heap {
    /// An empty heap: every read returns zero, no write recorded.
    pub fn empty() -> (heap: Heap)
        ensures
            heap@ == empty_heap(),
    {
        let word = [0u8; 32];
        assert(word@ =~= zero_bytes(32));
        Heap { read: MockRead::new(word), write: None }
    }

    /// A heap whose word is drawn from `u`, with no write recorded.
    pub fn arbitrary(u: &mut Unstructured<'_>) -> (heap: Result<Heap, arbitrary::Error>)
        ensures
            heap is Ok,
            heap->Ok_0@ == (HeapView { word: drawn(remaining_bytes(*old(u)), 32), write: None }),
            heap->Ok_0.read.value@ == drawn(remaining_bytes(*old(u)), 32),
            heap->Ok_0.write is None,
            remaining_bytes(*final(u)) == left_over(remaining_bytes(*old(u)), 32),
    {
        match arbitrary_bytes(u) {
            Ok(word) => Ok(Heap { read: MockRead::new(word), write: None }),
            Err(error) => Err(error),
        }
    }

    /// Records that `value` was written at `start_address`.
    pub fn write_u256(&mut self, start_address: u32, value: U256)
        requires
            old(self)@.write is None,
        ensures
            final(self)@ == (HeapView { write: Some((start_address, value)), ..old(self)@ }),
            final(self).read == old(self).read,
            final(self).write == Some((start_address, value)),
    {
        self.write = Some((start_address, value));
    }

    /// Accepts raw bytes and forgets them: only whole-word writes are recorded.
    pub fn write_bytes(&mut self, start_address: u32, bytes: &[u8])
        ensures
            *final(self) == *old(self),
    {
    }

    /// Reads the word at `start_address`, least significant byte first.
    pub fn read_u256(&self, start_address: u32) -> (word: U256)
        requires
            self@.write is None,
        ensures
            word@ == le_value(self@.word),
    {
        U256::from_little_endian(self.read.get(start_address).as_slice())
    }

    /// Reads the word at `range.start` of which only `range` may be looked at: the
    /// low bytes beyond its length read as zero.
    pub fn read_u256_partially(&self, range: Range<u32>) -> (word: U256)
        requires
            self@.write is None,
            range_len(range) <= 32,
        ensures
            word@ == le_value(clear_low_bytes(self@.word, (32 - range_len(range)) as nat)),
            range.start <= range.end ==> word@ == (le_value(self.read.value@) / pow256(
                (32 - (range.end - range.start)) as nat,
            )) * pow256((32 - (range.end - range.start)) as nat),
    {
        let visible: usize = if range.start < range.end {
            (range.end - range.start) as usize
        } else {
            0
        };
        let mut result: [u8; 32] = *self.read.get(range.start);
        let hidden: usize = 32 - visible;
        let mut i: usize = 0;
        while i < hidden
            invariant
                i <= hidden <= 32,
                result@ == clear_low_bytes(self.read.value@, i as nat),
            decreases hidden - i,
        {
            result[i] = 0;
            i += 1;
            assert(result@ =~= clear_low_bytes(self.read.value@, i as nat));
        }
        proof {
            lemma_clear_low_bytes_rounds_down(self.read.value@, hidden as nat);
        }
        U256::from_little_endian(result.as_slice())
    }

    /// The bytes in `range`. Only a final return value is ever fetched this way, and
    /// no comparison looks at it, so the answer is always empty.
    pub fn read_range_big_endian(&self, range: Range<u32>) -> (bytes: Vec<u8>)
        ensures
            bytes@ == Seq::<u8>::empty(),
    {
        Vec::new()
    }
}

impl Clone for Heap {
    fn clone(&self) -> (heap: Heap)
        ensures
            heap@ == self@,
    {
        Heap { read: MockRead::new(self.read.value), write: self.write }
    }
}

/// All heaps of a machine. Every page leads to the same heap.
#[derive(Debug)]
pub struct Heaps {
    pub heap_id: HeapId,
    pub read: MockRead<HeapId, Heap>,
}

impl View for Heaps {
    type V = HeapsView;

    open spec fn view(&self) -> HeapsView {
        HeapsView { heap_id: self.heap_id, heap: self.read.value@ }
    }
}

impl Heaps {
    /// Empty heaps tagged with the given identifier: all reads return zero.
    pub fn empty(heap_id: HeapId) -> (heaps: Heaps)
        ensures
            heaps@ == (HeapsView { heap_id, heap: empty_heap() }),
    {
        Heaps { heap_id, read: MockRead::new(Heap::empty()) }
    }

    /// Heaps tagged with the given identifier whose word is drawn from `u`.
    pub fn from_id(heap_id: HeapId, u: &mut Unstructured<'_>) -> (heaps: Result<
        Heaps,
        arbitrary::Error,
    >)
        ensures
            heaps is Ok,
            heaps->Ok_0@ == (HeapsView {
                heap_id,
                heap: HeapView { word: drawn(remaining_bytes(*old(u)), 32), write: None },
            }),
            heaps->Ok_0.heap_id == heap_id,
            heaps->Ok_0.read.value.read.value@ == drawn(remaining_bytes(*old(u)), 32),
            heaps->Ok_0.read.value.write is None,
            remaining_bytes(*final(u)) == left_over(remaining_bytes(*old(u)), 32),
    {
        match Heap::arbitrary(u) {
            Ok(heap) => Ok(Heaps { heap_id, read: MockRead::new(heap) }),
            Err(error) => Err(error),
        }
    }

    /// Hands out the page that the heaps are tagged with.
    pub fn allocate(&mut self) -> (page: HeapId)
        ensures
            *final(self) == *old(self),
            page == old(self)@.heap_id,
            page == old(self).heap_id,
    {
        self.heap_id
    }

    /// Hands out `page`.
    pub fn allocate_at(&mut self, page: HeapId) -> (allocated: HeapId)
        ensures
            *final(self) == *old(self),
            allocated == page,
    {
        page
    }

    /// Hands out the page that the heaps are tagged with and records `content`, most
    /// significant byte first, as written to its start.
    pub fn allocate_with_content(&mut self, content: &[u8]) -> (page: HeapId)
        requires
            old(self)@.heap.write is None,
            content@.len() <= 32,
        ensures
            page == old(self)@.heap_id,
            page == old(self).heap_id,
            final(self)@.heap_id == old(self)@.heap_id,
            final(self)@.heap.word == old(self)@.heap.word,
            final(self)@.heap.write matches Some((start_address, value)) && start_address == 0
                && value@ == be_value(content@),
            final(self).heap_id == old(self).heap_id,
            final(self).read.value.read == old(self).read.value.read,
            final(self).read.value.write == final(self)@.heap.write,
    {
        let id = self.allocate();
        self.read.get_mut(id).write_u256(0, U256::from_big_endian(content));
        id
    }

    /// Hands out `page`. Its content goes the way of all raw bytes: unrecorded.
    pub fn allocate_with_content_at(&mut self, page: HeapId, content: &[u8]) -> (allocated: HeapId)
        ensures
            final(self)@ == old(self)@,
            final(self).heap_id == old(self).heap_id,
            final(self).read.value == old(self).read.value,
            allocated == page,
    {
        self.read.get_mut(page).write_bytes(0, content);
        page
    }

    /// Takes back a page, which changes nothing.
    pub fn deallocate(&mut self, page: HeapId)
        ensures
            *final(self) == *old(self),
    {
    }

    /// Records that `value` was written at `start_address` of the page `heap`.
    pub fn write_u256(&mut self, heap: HeapId, start_address: u32, value: U256)
        requires
            old(self)@.heap.write is None,
        ensures
            final(self)@ == (HeapsView {
                heap: HeapView { write: Some((start_address, value)), ..old(self)@.heap },
                ..old(self)@
            }),
            final(self).heap_id == old(self).heap_id,
            final(self).read.value.read == old(self).read.value.read,
            final(self).read.value.write == Some((start_address, value)),
    {
        self.read.get_mut(heap).write_u256(start_address, value);
    }

    /// Accepts raw bytes for the page `heap` and forgets them.
    pub fn write_bytes(&mut self, heap: HeapId, start_address: u32, bytes: &[u8])
        ensures
            final(self)@ == old(self)@,
            final(self).heap_id == old(self).heap_id,
            final(self).read.value == old(self).read.value,
    {
        self.read.get_mut(heap).write_bytes(start_address, bytes);
    }
}

impl Index<HeapId> for Heaps {
    type Output = Heap;

    /// The heap behind the page `index`.
    fn index(&self, index: HeapId) -> (heap: &Heap)
        ensures
            heap@ == self@.heap,
            *heap == self.read.value,
    {
        self.read.get(index)
    }
}

impl vstd::std_specs::core::IndexSpecImpl<HeapId> for Heaps {
    open spec fn index_req(&self, index: &HeapId) -> bool {
        true
    }
}

impl Clone for Heaps {
    fn clone(&self) -> (heaps: Heaps)
        ensures
            heaps@ == self@,
    {
        Heaps { heap_id: self.heap_id, read: MockRead::new(self.read.value.clone()) }
    }
}

impl PartialEq for Heaps {
    /// Heaps never compare equal, not even to themselves.
    fn eq(&self, other: &Self) -> (equal: bool) {
        false
    }
}

impl vstd::std_specs::cmp::PartialEqSpecImpl for Heaps {
    open spec fn obeys_eq_spec() -> bool {
        true
    }

    open spec fn eq_spec(&self, other: &Self) -> bool {
        false
    }
}

/// Empty heaps read as zero, in whole and in any part.
pub proof fn lemma_empty_heap_reads_zero(hidden: nat)
    ensures
        le_value(empty_heap().word) == 0,
        le_value(clear_low_bytes(empty_heap().word, hidden)) == 0,
{
    assert(clear_low_bytes(empty_heap().word, hidden) =~= zero_bytes(32));
    lemma_zero_bytes_value(32);
}

/// A partial read that may look at the whole word is a read, one that may look at
/// nothing gives zero, and in between the number is rounded down to what the visible
/// bytes can tell.
pub proof fn lemma_partial_read(heap: HeapView, visible: nat)
    requires
        heap.word.len() == 32,
        visible <= 32,
    ensures
        le_value(clear_low_bytes(heap.word, 0)) == le_value(heap.word),
        le_value(clear_low_bytes(heap.word, 32)) == 0,
        le_value(clear_low_bytes(heap.word, (32 - visible) as nat)) == (le_value(heap.word)
            / pow256((32 - visible) as nat)) * pow256((32 - visible) as nat),
{
    assert(clear_low_bytes(heap.word, 0) =~= heap.word);
    assert(clear_low_bytes(heap.word, 32) =~= zero_bytes(32));
    lemma_zero_bytes_value(32);
    lemma_clear_low_bytes_rounds_down(heap.word, (32 - visible) as nat);
}

/// What heaps hold is what their fields hold.
pub proof fn lemma_heaps_show_their_fields(heaps: Heaps)
    ensures
        heaps@.heap_id.page == heaps.heap_id.page,
        heaps@.heap.word.len() == 32,
        forall|i: int|
            0 <= i < 32 ==> #[trigger] heaps@.heap.word[i] == heaps.read.value.read.value@[i],
        heaps@.heap.write == heaps.read.value.write,
{
}

/// Reading a word gives a number whose digit worth `256^i` is the heap's byte `i`,
/// whatever the address.
pub proof fn lemma_read_finds_every_byte(heap: Heap, start_address: u32, word: U256, i: nat)
    requires
        call_ensures(Heap::read_u256, (&heap, start_address), word),
        i < 32,
    ensures
        (word@ / pow256(i)) % 256 == heap.read.value@[i as int],
{
    lemma_le_value_digit(heap.read.value@, i);
}

/// Reads at any two addresses give the same word.
pub proof fn lemma_every_address_reads_alike(
    heap: Heap,
    a_address: u32,
    a: U256,
    b_address: u32,
    b: U256,
)
    requires
        call_ensures(Heap::read_u256, (&heap, a_address), a),
        call_ensures(Heap::read_u256, (&heap, b_address), b),
    ensures
        a == b,
{
    lemma_value_determines_word(a, b);
}

/// Of the bytes of the heap, a partial read finds as many as the range has addresses,
/// the most significant ones, and zero in place of the others.
pub proof fn lemma_partial_read_finds_the_high_bytes(
    heap: Heap,
    range: Range<u32>,
    word: U256,
    i: nat,
)
    requires
        call_ensures(Heap::read_u256_partially, (&heap, range), word),
        range.start <= range.end <= range.start + 32,
        i < 32,
    ensures
        (word@ / pow256(i)) % 256 == if i + (range.end - range.start) < 32 {
            0
        } else {
            heap.read.value@[i as int] as int
        },
{
    let hidden = (32 - (range.end - range.start)) as nat;
    lemma_le_value_digit(clear_low_bytes(heap.read.value@, hidden), i);
}

/// A partial read of `end - start` bytes is the whole read rounded down to a multiple
/// of `256^(32 - (end - start))`.
pub proof fn lemma_partial_read_rounds_the_whole_read_down(
    heap: Heap,
    start_address: u32,
    whole: U256,
    range: Range<u32>,
    part: U256,
)
    requires
        call_ensures(Heap::read_u256, (&heap, start_address), whole),
        call_ensures(Heap::read_u256_partially, (&heap, range), part),
        range.start <= range.end <= range.start + 32,
    ensures
        ({
            let unit = pow256((32 - (range.end - range.start)) as nat);
            &&& part@ == (whole@ / unit) * unit
            &&& part@ <= whole@ < part@ + unit
        }),
{
    let hidden = (32 - (range.end - range.start)) as nat;
    let unit = pow256(hidden);
    lemma_clear_low_bytes_rounds_down(heap.read.value@, hidden);
    lemma_pow256_positive(hidden);
    vstd::arithmetic::div_mod::lemma_fundamental_div_mod(whole@ as int, unit as int);
    assert(unit * (whole@ / unit) == (whole@ / unit) * unit) by (nonlinear_arith);
}

/// A partial read depends on how long the range is, not on where it starts.
pub proof fn lemma_partial_read_depends_on_length(
    heap: Heap,
    a_range: Range<u32>,
    a: U256,
    b_range: Range<u32>,
    b: U256,
)
    requires
        call_ensures(Heap::read_u256_partially, (&heap, a_range), a),
        call_ensures(Heap::read_u256_partially, (&heap, b_range), b),
        a_range.start <= a_range.end <= a_range.start + 32,
        b_range.start <= b_range.end <= b_range.start + 32,
        a_range.end - a_range.start == b_range.end - b_range.start,
    ensures
        a == b,
{
    lemma_value_determines_word(a, b);
}

/// A partial read of a range that ends before it starts finds nothing.
pub proof fn lemma_backward_partial_read(heap: Heap, range: Range<u32>, word: U256)
    requires
        call_ensures(Heap::read_u256_partially, (&heap, range), word),
        range.end <= range.start,
    ensures
        word@ == 0,
{
    assert(clear_low_bytes(heap.read.value@, 32) =~= zero_bytes(32));
    lemma_zero_bytes_value(32);
}

/// Empty heaps carry their tag, hold only zero bytes and no write.
pub proof fn lemma_empty_heaps(heap_id: HeapId, heaps: Heaps, i: int)
    requires
        call_ensures(Heaps::empty, (heap_id,), heaps),
        0 <= i < 32,
    ensures
        heaps.heap_id == heap_id,
        heaps.read.value.read.value@[i] == 0,
        heaps.read.value.write is None,
{
    assert(heaps.read.value.read.value@ == zero_bytes(32));
}

/// A copy of heaps has the same tag, the same bytes and the same write.
pub proof fn lemma_copied_heaps(heaps: Heaps, copy: Heaps)
    requires
        call_ensures(Heaps::clone, (&heaps,), copy),
    ensures
        copy.heap_id == heaps.heap_id,
        copy.read.value.read.value@ == heaps.read.value.read.value@,
        copy.read.value.write == heaps.read.value.write,
{
}

/// Page numbers and identifiers stand for each other, and the first heap is page 10.
pub proof fn lemma_heap_ids_are_page_numbers(page: u32, id: HeapId, number: u32, first: HeapId)
    requires
        call_ensures(HeapId::from_u32_unchecked, (page,), id),
        call_ensures(HeapId::as_u32, (id,), number),
        call_ensures(HeapId::first, (), first),
    ensures
        id.page == page,
        number == page,
        first.page == 10,
{
}

/// Every page leads to the same heap.
pub proof fn lemma_every_page_is_the_same_heap(
    heaps: Heaps,
    a_page: HeapId,
    a: &Heap,
    b_page: HeapId,
    b: &Heap,
)
    requires
        call_ensures(Heaps::index, (&heaps, a_page), a),
        call_ensures(Heaps::index, (&heaps, b_page), b),
    ensures
        *a == *b,
        *a == heaps.read.value,
{
}

} // verus!
