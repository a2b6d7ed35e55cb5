//! The wire frame that is sent to the display driver chip: one command byte
//! followed by sixteen bytes of pixel data, and the fixed reordering that the
//! chip's row wiring asks for.

use vstd::prelude::*;

verus! {

/// Bytes in a wire frame.
pub const FRAME_LEN: usize = 17;

/// The command byte that opens a frame: display memory, starting at address 0.
pub const FRAME_COMMAND: u8 = 0x00;

/// The order in which the eight bytes of a half go out: entry `k` is the
/// offset, within the half, of the input byte that ends up at offset `k`.
pub open spec fn interleave_order() -> Seq<int> {
    seq![0, 4, 1, 5, 2, 6, 3, 7]
}

/// Where the byte at offset `k` of a remapped half comes from, as an offset
/// into the same half of the input.
pub open spec fn interleave(k: int) -> int {
    interleave_order()[k]
}

/// The index of the input byte that ends up at index `i` of the remapped
/// frame. The command byte stays; each of the two halves of eight data bytes
/// is interleaved on its own.
pub open spec fn remap_source(i: int) -> int {
    if i <= 0 {
        0
    } else if i <= 8 {
        1 + interleave(i - 1)
    } else {
        9 + interleave(i - 9)
    }
}

/// The frame in the byte order of the chip's wiring.
pub open spec fn remap(frame: Seq<u8>) -> Seq<u8> {
    Seq::new(FRAME_LEN as nat, |i: int| frame[remap_source(i)])
}

/// A frame made of the command byte and the sixteen buffer bytes in order.
pub open spec fn frame_of(buffer: Seq<u8>) -> Seq<u8> {
    seq![FRAME_COMMAND] + buffer
}

/// The frame that goes out for `buffer`: command byte first, then the pixel
/// bytes, all in the chip's byte order.
pub open spec fn wire_frame(buffer: Seq<u8>) -> Seq<u8> {
    remap(frame_of(buffer))
}

/// The array that holds the seventeen bytes of `frame`.
pub open spec fn frame_array(frame: Seq<u8>) -> [u8; 17] {
    [
        frame[0], frame[1], frame[2], frame[3], frame[4], frame[5], frame[6], frame[7], frame[8],
        frame[9], frame[10], frame[11], frame[12], frame[13], frame[14], frame[15], frame[16],
    ]
}

/// The pattern shown at startup: 0x55 at even indices, 0xAA at odd ones.
pub open spec fn checker_byte(i: int) -> u8 {
    if i % 2 == 0 {
        0x55
    } else {
        0xAA
    }
}

/// Reorders a wire frame for the chip. The input is left as it is, and equal
/// inputs give equal outputs.
pub fn swap(buffer: &[u8; 17]) -> (remapped: [u8; 17])
    ensures
        remapped@ == remap(buffer@),
        remapped[0] == buffer[0],
{
    let mut buff = [0u8;17];
    buff[0] = buffer[0];
    let mut i: usize = 0;
    while i < 9
        invariant
            i == 0 || i == 8 || i == 16,
            buff[0] == buffer[0],
            forall|j: int| 1 <= j < 1 + i ==> buff[j] == buffer[remap_source(j)],
        decreases 16 - i,
    {
        buff[1 + i] = buffer[1 + i];
        buff[2 + i] = buffer[5 + i];
        buff[3 + i] = buffer[2 + i];
        buff[4 + i] = buffer[6 + i];

        buff[5 + i] = buffer[3 + i];
        buff[6 + i] = buffer[7 + i];
        buff[7 + i] = buffer[4 + i];
        buff[8 + i] = buffer[8 + i];
        i += 8;
    }
    buff
}

/// Puts the command byte in front of the pixel buffer.
pub fn frame_from_buffer(buffer: &[u8; 16]) -> (frame: [u8; 17])
    ensures
        frame@ == frame_of(buffer@),
{
    let mut frame = [FRAME_COMMAND;17];
    let mut i: usize = 1;
    while i < 17
        invariant
            1 <= i <= 17,
            frame[0] == FRAME_COMMAND,
            forall|j: int| 1 <= j < i ==> frame[j] == buffer[j - 1],
        decreases 17 - i,
    {
        frame[i] = buffer[i - 1];
        i += 1;
    }
    frame
}

/// The checkerboard that is shown at startup.
pub fn checkerboard() -> (pattern: [u8; 16])
    ensures
        forall|i: int| 0 <= i < 16 ==> pattern[i] == checker_byte(i),
{
    [
        0x55, 0xAA, 0x55, 0xAA, 0x55, 0xAA, 0x55, 0xAA,
        0x55, 0xAA, 0x55, 0xAA, 0x55, 0xAA, 0x55, 0xAA,
    ]
}

/// `frame_array` holds exactly the bytes it was given.
pub proof fn lemma_frame_array_view(frame: Seq<u8>)
    requires
        frame.len() == FRAME_LEN,
    ensures
        frame_array(frame)@ == frame,
{
}

/// The index at which the input byte of index `s` ends up: the inverse of
/// `remap_source`.
pub open spec fn remap_target(s: int) -> int {
    remap_source(remap_source(s))
}

/// Remapping only moves bytes: `remap_source` is a permutation of the frame's
/// indices that fixes the command byte and keeps each half to itself, with
/// `remap_target` as its inverse, so every input byte appears exactly once in
/// the output.
pub proof fn lemma_remap_source_is_permutation()
    ensures
        remap_source(0) == 0,
        forall|i: int| 1 <= i <= 8 ==> 1 <= #[trigger] remap_source(i) <= 8,
        forall|i: int| 9 <= i <= 16 ==> 9 <= #[trigger] remap_source(i) <= 16,
        forall|i: int| 0 <= i < FRAME_LEN ==> remap_target(#[trigger] remap_source(i)) == i,
        forall|s: int|
            0 <= s < FRAME_LEN ==> 0 <= #[trigger] remap_target(s) < FRAME_LEN && remap_source(
                remap_target(s),
            ) == s,
{
}

/// In the frame that goes out for a buffer, index 0 holds the command byte and
/// never pixel data, and the sixteen bytes behind it are the buffer's bytes,
/// each of them exactly once.
pub proof fn lemma_wire_frame_layout(buffer: Seq<u8>)
    requires
        buffer.len() == 16,
    ensures
        wire_frame(buffer).len() == FRAME_LEN,
        wire_frame(buffer)[0] == FRAME_COMMAND,
        forall|i: int|
            1 <= i < FRAME_LEN ==> #[trigger] wire_frame(buffer)[i] == buffer[remap_source(i) - 1],
        forall|j: int|
            0 <= j < 16 ==> 1 <= remap_target(j + 1) < FRAME_LEN && wire_frame(
                buffer,
            )[remap_target(j + 1)] == #[trigger] buffer[j],
{
}

/// Remapping moves bytes and neither adds nor drops one: the remapped frame
/// holds the same bytes as the frame, each as often.
pub proof fn lemma_remap_keeps_the_bytes(frame: Seq<u8>)
    requires
        frame.len() == FRAME_LEN,
    ensures
        remap(frame).to_multiset() == frame.to_multiset(),
{
    broadcast use vstd::seq_lib::to_multiset_build;

    let in_order = Seq::<u8>::empty()
        .push(frame[0]).push(frame[1]).push(frame[2]).push(frame[3]).push(frame[4])
        .push(frame[5]).push(frame[6]).push(frame[7]).push(frame[8]).push(frame[9])
        .push(frame[10]).push(frame[11]).push(frame[12]).push(frame[13]).push(frame[14])
        .push(frame[15]).push(frame[16]);
    let moved = Seq::<u8>::empty()
        .push(frame[0]).push(frame[1]).push(frame[5]).push(frame[2]).push(frame[6])
        .push(frame[3]).push(frame[7]).push(frame[4]).push(frame[8]).push(frame[9])
        .push(frame[13]).push(frame[10]).push(frame[14]).push(frame[11]).push(frame[15])
        .push(frame[12]).push(frame[16]);
    assert(in_order =~= frame);
    assert(moved =~= remap(frame));
    assert(moved.to_multiset() =~= in_order.to_multiset());
}

/// Remapping three times gives the frame back, so remapping twice undoes one
/// remapping.
pub proof fn lemma_remap_thrice_is_identity(frame: Seq<u8>)
    requires
        frame.len() == FRAME_LEN,
    ensures
        remap(remap(remap(frame))) == frame,
{
}

/// Frames that remap to the same bytes are the same frame.
pub proof fn lemma_remap_is_injective(a: Seq<u8>, b: Seq<u8>)
    requires
        a.len() == FRAME_LEN,
        b.len() == FRAME_LEN,
        remap(a) == remap(b),
    ensures
        a == b,
{
    lemma_remap_thrice_is_identity(a);
    lemma_remap_thrice_is_identity(b);
}

/// Remapping is not its own inverse: there is a frame that a second remapping
/// does not give back.
pub proof fn lemma_remap_twice_is_not_identity()
    ensures
        exists|frame: Seq<u8>| frame.len() == FRAME_LEN && remap(remap(frame)) != frame,
{
    let frame = Seq::new(FRAME_LEN as nat, |i: int| i as u8);
    assert(frame[2] == 2u8);
    assert(frame.len() == FRAME_LEN && remap(remap(frame)) != frame);
}

/// The same input bytes always remap to the same output bytes.
pub proof fn lemma_remap_is_deterministic(a: [u8; 17], b: [u8; 17])
    requires
        a@ == b@,
    ensures
        remap(a@) == remap(b@),
{
}

} // verus!
