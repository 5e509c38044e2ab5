//! Framing: one item, one line.
//!
//! A line is the item's text in UTF-8 followed by a single line feed, with no
//! other delimiter, length prefix or escaping.

use crate::buffer::{
    buffer_bytes, buffer_capacity, buffer_reserve, buffer_room, buffer_write_str, view_of,
    BufferView,
};
use crate::error::Error;
use bytes::BytesMut;
use vstd::prelude::*;
use vstd::string::StringSliceAdditionalSpecFns;
use vstd::utf8::{encode_utf8, is_ascii_chars, is_ascii_chars_encode_utf8};

verus! {

/// The byte that ends every line.
pub const LINE_FEED: u8 = 0x0A;

/// The line that carries `text`: its UTF-8 encoding, then one line feed.
pub open spec fn line_of(text: Seq<char>) -> Seq<u8> {
    encode_utf8(text).push(LINE_FEED)
}

/// The bytes that a buffer holds after an attempt to write the line that
/// carries `text` to it.
///
/// Where the buffer accepts the line, it holds what it held and then the
/// line. A buffer accepts every line unless it has neither room for it nor
/// can be grown: see [`BufferView::accepts`]. In that last case the text and
/// the line feed are still offered to it one after the other, so a text that
/// fills the room to the last byte arrives without its line feed, and any
/// longer one leaves the buffer as it was.
pub open spec fn after_line(before: BufferView, text: Seq<char>) -> Seq<u8> {
    if before.accepts(line_of(text)) {
        before.bytes + line_of(text)
    } else if before.takes(encode_utf8(text)) {
        before.bytes + encode_utf8(text)
    } else {
        before.bytes
    }
}

/// What rendering an item produced, with a text taken as its characters.
pub open spec fn rendering_view(rendered: Result<String, std::fmt::Error>) -> Result<
    Seq<char>,
    std::fmt::Error,
> {
    match rendered {
        Ok(text) => Ok(text@),
        Err(fault) => Err(fault),
    }
}

/// What one invocation of an encoder amounts to, given what rendering the item
/// produced: `res` is what is returned, `before` is the buffer on entry and
/// `after` the bytes it holds on return.
///
/// A rendering that failed is passed on as [`Error::Fmt`], with its own error
/// value, and the buffer holds what it held. A rendering that gave a text
/// succeeds wherever the buffer accepts the line, and the buffer then holds
/// what it held followed by the line: see [`after_line`].
pub open spec fn encoded(
    rendered: Result<Seq<char>, std::fmt::Error>,
    before: BufferView,
    res: Result<(), Error>,
    after: Seq<u8>,
) -> bool {
    match rendered {
        Ok(text) => {
            &&& res is Ok <==> before.accepts(line_of(text))
            &&& res matches Err(e) ==> e is Fmt
            &&& after == after_line(before, text)
        },
        Err(fault) => res == Err::<(), Error>(Error::Fmt(fault)) && after == before.bytes,
    }
}

/// The UTF-8 encoding of a lone line feed is the single byte [`LINE_FEED`].
proof fn lemma_line_feed_bytes()
    ensures
        "\n".spec_bytes() == seq![LINE_FEED],
{
    reveal_strlit("\n");
    assert(is_ascii_chars("\n"@));
    is_ascii_chars_encode_utf8("\n"@);
    assert("\n".spec_bytes() =~= seq![LINE_FEED]);
}

/// Asks `dst` to make room for a text of `text_len` bytes and its line feed,
/// where `dst` can be grown by that much. The bytes held stay as they are.
fn make_room(dst: &mut BytesMut, text_len: usize)
    ensures
        buffer_bytes(*final(dst)) == buffer_bytes(*old(dst)),
        view_of(*old(dst)).can_grow_by((text_len + 1) as nat) ==> buffer_room(*final(dst))
            >= text_len + 1,
        !view_of(*old(dst)).can_grow_by((text_len + 1) as nat) ==> buffer_room(*final(dst))
            == buffer_room(*old(dst)),
{
    let capacity: usize = buffer_capacity(dst);
    let limit: usize = usize::MAX / 8;
    if capacity <= limit && text_len < limit - capacity {
        buffer_reserve(dst, text_len + 1);
    }
}

/// Appends `text` and a line feed to `dst`, making room for them first.
///
/// Succeeds wherever `dst` accepts the line, and `dst` then holds what it
/// held before, followed by the line. It fails only where `dst` has no room
/// for the line and is too large to be grown; the error is then
/// [`Error::Fmt`] and `dst` holds what [`after_line`] says.
pub fn write_line(text: &str, dst: &mut BytesMut) -> (res: Result<(), Error>)
    ensures
        res is Ok <==> view_of(*old(dst)).accepts(line_of(text@)),
        res matches Err(e) ==> e is Fmt,
        buffer_bytes(*final(dst)) == after_line(view_of(*old(dst)), text@),
{
    proof {
        lemma_line_feed_bytes();
    }
    make_room(dst, text.as_bytes().len());
    match buffer_write_str(dst, text) {
        Err(e) => Err(Error::Fmt(e)),
        Ok(()) => {
            match buffer_write_str(dst, "\n") {
                Err(e) => Err(Error::Fmt(e)),
                Ok(()) => {
                    assert(buffer_bytes(*dst) =~= buffer_bytes(*old(dst)) + line_of(text@));
                    Ok(())
                },
            }
        },
    }
}

/// Finishes an invocation once the item has been rendered: passes a failed
/// rendering on, and writes a rendered text to `dst` as one line.
///
/// The outcome is exactly what [`encoded`] says of `rendered` and `dst`. So
/// success is owed wherever `rendered` is a text and `dst` accepts its line.
pub fn write_rendered(rendered: Result<String, std::fmt::Error>, dst: &mut BytesMut) -> (res:
    Result<(), Error>)
    ensures
        encoded(rendering_view(rendered), view_of(*old(dst)), res, buffer_bytes(*final(dst))),
{
    match rendered {
        Ok(text) => write_line(text.as_str(), dst),
        Err(fault) => Err(Error::Fmt(fault)),
    }
}

/// A line is its text in UTF-8 with the line feed as its last byte, so it is
/// one byte longer than the text.
pub proof fn lemma_line_shape(text: Seq<char>)
    ensures
        line_of(text).len() == encode_utf8(text).len() + 1,
        line_of(text).drop_last() == encode_utf8(text),
        line_of(text).last() == LINE_FEED,
{
    assert(line_of(text).drop_last() =~= encode_utf8(text));
}

/// An invocation only ever appends: what the buffer held stays in front. It
/// never fails with [`Error::Io`], and it fails on a rendered text only where
/// the buffer does not accept the line.
pub proof fn lemma_encoded_appends(
    rendered: Result<Seq<char>, std::fmt::Error>,
    before: BufferView,
    res: Result<(), Error>,
    after: Seq<u8>,
)
    requires
        encoded(rendered, before, res, after),
    ensures
        before.bytes.is_prefix_of(after),
        res matches Err(e) ==> e is Fmt,
        res is Err ==> rendered is Err || !before.accepts(line_of(rendered->Ok_0)),
{
}

/// Encoding into an empty buffer: where the item rendered to `text`, the
/// invocation succeeds and the buffer then holds exactly that line, the text
/// and one line feed. This holds of every buffer that accepts the line.
pub proof fn lemma_encoded_into_empty(
    text: Seq<char>,
    before: BufferView,
    res: Result<(), Error>,
    after: Seq<u8>,
)
    requires
        encoded(Ok(text), before, res, after),
        before.bytes.len() == 0,
        before.accepts(line_of(text)),
    ensures
        res is Ok,
        after == line_of(text),
{
    assert(after =~= line_of(text));
}

/// Encoding twice into one buffer: where the items rendered to `first` and
/// `second`, both invocations succeed and the buffer then holds what it held,
/// the first line and the second line, in that order. Nothing is overwritten.
/// This holds wherever the buffer accepts each line as it is written.
pub proof fn lemma_encoded_twice(
    first: Seq<char>,
    second: Seq<char>,
    before: BufferView,
    res_first: Result<(), Error>,
    between: BufferView,
    res_second: Result<(), Error>,
    after: Seq<u8>,
)
    requires
        encoded(Ok(first), before, res_first, between.bytes),
        encoded(Ok(second), between, res_second, after),
        before.accepts(line_of(first)),
        between.accepts(line_of(second)),
    ensures
        res_first is Ok,
        res_second is Ok,
        after == before.bytes + line_of(first) + line_of(second),
{
}

/// Encoding an item that renders to the empty text: the invocation succeeds
/// and the buffer gains the line feed and nothing else. This holds of every
/// buffer that accepts one more byte.
pub proof fn lemma_encoded_empty_text(
    text: Seq<char>,
    before: BufferView,
    res: Result<(), Error>,
    after: Seq<u8>,
)
    requires
        encoded(Ok(text), before, res, after),
        text.len() == 0,
        before.accepts(seq![LINE_FEED]),
    ensures
        res is Ok,
        after == before.bytes.push(LINE_FEED),
{
    assert(line_of(text) =~= seq![LINE_FEED]);
    assert(after =~= before.bytes.push(LINE_FEED));
}

/// A buffer of ordinary size accepts every line of ordinary size: where the
/// bytes it can hold and the line together stay within an eighth of the
/// address space, an invocation on a rendered text succeeds, whatever room
/// the buffer had.
pub proof fn lemma_encoded_within_reach(
    text: Seq<char>,
    before: BufferView,
    res: Result<(), Error>,
    after: Seq<u8>,
)
    requires
        encoded(Ok(text), before, res, after),
        before.capacity() + line_of(text).len() <= usize::MAX / 8,
    ensures
        res is Ok,
        after == before.bytes + line_of(text),
{
}

} // verus!
