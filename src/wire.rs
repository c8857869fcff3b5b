//! Line framing of the wire protocol: each event travels as one line of
//! text, ended by a newline.
use vstd::prelude::*;

verus! {

/// The byte that ends every message.
pub const NEWLINE: u8 = 0x0A;

/// Whether `s` holds no newline.
pub open spec fn single_line(s: Seq<u8>) -> bool {
    forall|i: int| 0 <= i < s.len() ==> s[i] != NEWLINE
}

/// The bytes that carry payload `p` on the wire.
pub open spec fn framed(p: Seq<u8>) -> Seq<u8> {
    p.push(NEWLINE)
}

/// Whether `buf` splits into the complete line `line` and what follows it.
pub open spec fn splits_into(buf: Seq<u8>, line: Seq<u8>, rest: Seq<u8>) -> bool {
    single_line(line) && buf == framed(line) + rest
}

/// Frames one message for sending.
pub fn frame_line(payload: &Vec<u8>) -> (r: Vec<u8>)
    requires
        single_line(payload@),
    ensures
        r@ == framed(payload@),
{
    let mut out = payload.clone();
    out.push(NEWLINE);
    out
}

/// Takes the first complete line off `buf`: the line without its newline,
/// and the bytes after it. `None` while no newline has arrived.
pub fn split_line(buf: &Vec<u8>) -> (r: Option<(Vec<u8>, Vec<u8>)>)
    ensures
        r is None <==> single_line(buf@),
        r matches Some((line, rest)) ==> splits_into(buf@, line@, rest@),
{
    let mut i: usize = 0;
    while i < buf.len()
        invariant
            0 <= i <= buf@.len(),
            single_line(buf@.subrange(0, i as int)),
        decreases buf@.len() - i,
    {
        if buf[i] == NEWLINE {
            let mut line: Vec<u8> = Vec::new();
            let mut j: usize = 0;
            while j < i
                invariant
                    0 <= j <= i < buf@.len(),
                    line@ == buf@.subrange(0, j as int),
                decreases i - j,
            {
                line.push(buf[j]);
                assert(line@ =~= buf@.subrange(0, j + 1));
                j += 1;
            }
            let mut rest: Vec<u8> = Vec::new();
            let mut k: usize = i + 1;
            while k < buf.len()
                invariant
                    i < k <= buf@.len(),
                    rest@ == buf@.subrange(i + 1, k as int),
                decreases buf@.len() - k,
            {
                rest.push(buf[k]);
                assert(rest@ =~= buf@.subrange(i + 1, k + 1));
                k += 1;
            }
            assert(buf@ =~= framed(line@) + rest@);
            assert(single_line(line@)) by {
                assert(line@ =~= buf@.subrange(0, i as int));
            }
            return Some((line, rest));
        }
        assert(single_line(buf@.subrange(0, i + 1))) by {
            assert forall|k: int| 0 <= k < i + 1 implies #[trigger] buf@.subrange(0, i + 1)[k] != NEWLINE by {
                if k < i {
                    assert(buf@.subrange(0, i + 1)[k] == buf@.subrange(0, i as int)[k]);
                }
            }
        }
        i += 1;
    }
    assert(buf@.subrange(0, buf@.len() as int) =~= buf@);
    None
}

/// A framed message is read back whole: the first line of its bytes,
/// followed by anything, is the message itself, and the rest is what
/// followed.
pub proof fn lemma_frame_round_trip(p: Seq<u8>, rest: Seq<u8>)
    requires
        single_line(p),
    ensures
        splits_into(framed(p) + rest, p, rest),
        forall|line: Seq<u8>, after: Seq<u8>|
            #[trigger] splits_into(framed(p) + rest, line, after) ==> line == p && after == rest,
{
    assert forall|line: Seq<u8>, after: Seq<u8>|
        #[trigger] splits_into(framed(p) + rest, line, after) implies line == p && after
        == rest by {
        let b = framed(p) + rest;
        assert(b == framed(line) + after);
        if line.len() < p.len() {
            assert(b[line.len() as int] == NEWLINE);
            assert(b[line.len() as int] == p[line.len() as int]);
        } else if line.len() > p.len() {
            assert(b[p.len() as int] == NEWLINE);
            assert(b[p.len() as int] == line[p.len() as int]);
        }
        assert(line =~= b.subrange(0, line.len() as int));
        assert(p =~= b.subrange(0, p.len() as int));
        assert(after =~= b.subrange(line.len() as int + 1, b.len() as int));
        assert(rest =~= b.subrange(p.len() as int + 1, b.len() as int));
    }
}

} // verus!
