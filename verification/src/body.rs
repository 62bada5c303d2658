//! Materializing the body of an answer: the chunks, in the order in which
//! they arrived, become one text.

use vstd::prelude::*;
use vstd::utf8::{decode_utf8, valid_utf8};
use crate::error::{result_view, ClientResult, Error, ErrorView};

verus! {

/// What the standard library says of bytes that are no UTF-8 text.
pub uninterp spec fn utf8_defect(bytes: Seq<u8>) -> Seq<char>;

/// Turns bytes into text with `String::from_utf8`.
///
/// Trusted: the bytes are accepted exactly when they are valid UTF-8, the
/// text then holds the characters that they encode, and the description of
/// a refusal depends on the bytes alone.
#[verifier::external_body]
fn text_of_bytes(bytes: Vec<u8>) -> (r: Result<String, String>)
    ensures
        match r {
            Ok(text) => valid_utf8(bytes@) && text@ == decode_utf8(bytes@),
            Err(reason) => !valid_utf8(bytes@) && reason@ == utf8_defect(bytes@),
        },
{
    match String::from_utf8(bytes) {
        Ok(text) => Ok(text),
        Err(error) => Err(error.to_string()),
    }
}

/// The bytes of all chunks, in order.
pub open spec fn joined(chunks: Seq<Vec<u8>>) -> Seq<u8> {
    chunks.map_values(|chunk: Vec<u8>| chunk@).flatten()
}

/// The text that bytes make up, or the transport failure that bytes which
/// are no text count as.
pub open spec fn text_of(bytes: Seq<u8>) -> Result<Seq<char>, ErrorView> {
    if valid_utf8(bytes) {
        Ok(decode_utf8(bytes))
    } else {
        Err(ErrorView::Network(utf8_defect(bytes)))
    }
}

/// Joins the chunks into one buffer.
pub fn join_chunks(chunks: &Vec<Vec<u8>>) -> (r: Vec<u8>)
    ensures
        r@ == joined(chunks@),
{
    let mut buffer: Vec<u8> = Vec::new();
    let ghost views = chunks@.map_values(|chunk: Vec<u8>| chunk@);
    let mut i: usize = 0;
    while i < chunks.len()
        invariant
            i <= chunks.len(),
            views == chunks@.map_values(|chunk: Vec<u8>| chunk@),
            buffer@ == views.subrange(0, i as int).flatten(),
        decreases chunks.len() - i,
    {
        let chunk = &chunks[i];
        let ghost before = buffer@;
        let mut j: usize = 0;
        while j < chunk.len()
            invariant
                j <= chunk.len(),
                buffer@ == before + chunk@.subrange(0, j as int),
            decreases chunk.len() - j,
        {
            buffer.push(chunk[j]);
            proof {
                assert(chunk@.subrange(0, j + 1) =~= chunk@.subrange(0, j as int).push(
                    chunk@[j as int],
                ));
            }
            j += 1;
        }
        proof {
            assert(chunk@.subrange(0, j as int) =~= chunk@);
            assert(views.subrange(0, i + 1) =~= views.subrange(0, i as int).push(chunk@));
            views.subrange(0, i as int).lemma_flatten_push(chunk@);
        }
        i += 1;
    }
    proof {
        assert(views.subrange(0, i as int) =~= views);
    }
    buffer
}

/// Reports what became of a buffer: its text, or the refusal as a
/// transport failure.
pub fn body_result(decoded: Result<String, String>) -> (r: ClientResult)
    ensures
        match decoded {
            Ok(text) => result_view(r) == Ok::<Seq<char>, ErrorView>(text@),
            Err(reason) => result_view(r) == Err::<Seq<char>, ErrorView>(
                ErrorView::Network(reason@),
            ),
        },
{
    match decoded {
        Ok(text) => Ok(text),
        Err(reason) => Err(Error::Network(reason)),
    }
}

/// Materializes a body. The chunks are joined in the order in which they
/// arrived and the buffer is read as UTF-8 text; bytes that are no text
/// count as a transport failure.
pub fn read_body(chunks: &Vec<Vec<u8>>) -> (r: ClientResult)
    ensures
        result_view(r) == text_of(joined(chunks@)),
{
    body_result(text_of_bytes(join_chunks(chunks)))
}

} // verus!
