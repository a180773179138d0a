//! Putting a replacement into the spans of a text. Spans are pairs of byte
//! offsets, as the engine reports them; the result is stated over the text's
//! characters.

use crate::engine::{
    group_spans, regex_accepts, regex_group_spans, spans_in_order, well_placed,
};
use regex::Regex;
use vstd::prelude::*;
use vstd::string::*;
use vstd::utf8::{
    decode_utf8, encode_utf8, encode_utf8_decode_utf8, encode_utf8_valid_utf8, is_char_boundary,
    is_char_boundary_iff_not_is_continuation_byte, is_char_boundary_start_end_of_seq, valid_utf8,
    valid_utf8_split,
};

verus! {

/// The characters between two byte offsets of a text.
pub open spec fn piece(bytes: Seq<u8>, from: int, to: int) -> Seq<char> {
    decode_utf8(bytes.subrange(from, to))
}

/// The text from `from` on, with each span replaced by `replacement` and
/// everything outside the spans left as it is. The replacement is put in
/// character for character. A span that is not well placed behind the one
/// before it is passed over.
pub open spec fn spliced(
    bytes: Seq<u8>,
    spans: Seq<Option<(usize, usize)>>,
    replacement: Seq<char>,
    from: int,
) -> Seq<char>
    decreases spans.len(),
{
    if spans.len() == 0 {
        piece(bytes, from, bytes.len() as int)
    } else {
        match spans[0] {
            Some(span) if well_placed(bytes, from, span) => piece(bytes, from, span.0 as int)
                + replacement + spliced(bytes, spans.drop_first(), replacement, span.1 as int),
            _ => spliced(bytes, spans.drop_first(), replacement, from),
        }
    }
}

/// What a transformation pattern makes of a text: the replacement stands in
/// the span of the written capture group in each of the successive matches,
/// and the rest of the text, the rest of each match included, stays.
pub open spec fn rewritten(re: Regex, text: Seq<char>, replacement: Seq<char>) -> Seq<char> {
    spliced(encode_utf8(text), regex_group_spans(re, text), replacement, 0)
}

/// A text without spans is left as it is.
pub proof fn lemma_spliced_without_spans(text: Seq<char>, replacement: Seq<char>)
    ensures
        spliced(encode_utf8(text), Seq::<Option<(usize, usize)>>::empty(), replacement, 0) == text,
{
    let bytes = encode_utf8(text);
    assert(bytes.subrange(0, bytes.len() as int) =~= bytes);
    encode_utf8_decode_utf8(text);
}

/// One well-placed span: the text before it, the replacement, the text
/// behind it.
pub proof fn lemma_spliced_one_span(
    bytes: Seq<u8>,
    span: (usize, usize),
    replacement: Seq<char>,
)
    requires
        well_placed(bytes, 0, span),
    ensures
        spliced(bytes, seq![Some(span)], replacement, 0) == piece(bytes, 0, span.0 as int)
            + replacement + piece(bytes, span.1 as int, bytes.len() as int),
{
    let spans = seq![Some(span)];
    assert(spans.drop_first() =~= Seq::<Option<(usize, usize)>>::empty());
    reveal_with_fuel(spliced, 2);
}

/// An offset between characters of a text is also between characters of the
/// text's tail from an earlier such offset on.
proof fn lemma_boundary_in_tail(bytes: Seq<u8>, from: int, index: int)
    requires
        valid_utf8(bytes),
        0 <= from <= index <= bytes.len(),
        is_char_boundary(bytes, from),
        is_char_boundary(bytes, index),
    ensures
        valid_utf8(bytes.subrange(from, bytes.len() as int)),
        is_char_boundary(bytes.subrange(from, bytes.len() as int), index - from),
{
    let tail = bytes.subrange(from, bytes.len() as int);
    valid_utf8_split(bytes, from);
    if index == from {
    } else if index == bytes.len() {
        is_char_boundary_start_end_of_seq(tail);
    } else {
        is_char_boundary_iff_not_is_continuation_byte(bytes, index);
        is_char_boundary_iff_not_is_continuation_byte(tail, index - from);
        assert(tail[index - from] == bytes[index]);
    }
}

/// Puts `replacement` into each span of `haystack`, as `spliced` says.
pub fn splice(haystack: &str, spans: &Vec<Option<(usize, usize)>>, replacement: &str) -> (out:
    String)
    ensures
        out@ == spliced(haystack.spec_bytes(), spans@, replacement@, 0),
{
    let ghost bytes = haystack.spec_bytes();
    let total: usize = haystack.as_bytes().len();
    let mut out = String::new();
    let mut rest: &str = haystack;
    let mut cursor: usize = 0;
    let mut i: usize = 0;
    proof {
        encode_utf8_valid_utf8(haystack@);
        assert(bytes.subrange(0, bytes.len() as int) =~= bytes);
        assert(spans@.skip(0) =~= spans@);
        assert(out@ + spliced(bytes, spans@, replacement@, 0) =~= spliced(
            bytes,
            spans@,
            replacement@,
            0,
        ));
    }
    while i < spans.len()
        invariant
            i <= spans.len(),
            bytes == haystack.spec_bytes(),
            total == bytes.len(),
            valid_utf8(bytes),
            cursor <= bytes.len(),
            is_char_boundary(bytes, cursor as int),
            rest.spec_bytes() == bytes.subrange(cursor as int, bytes.len() as int),
            out@ + spliced(bytes, spans@.skip(i as int), replacement@, cursor as int) == spliced(
                bytes,
                spans@,
                replacement@,
                0,
            ),
        decreases spans.len() - i,
    {
        let ghost here = spans@.skip(i as int);
        let ghost before_out = out@;
        proof {
            assert(here[0] == spans@[i as int]);
            assert(here.drop_first() =~= spans@.skip(i + 1));
        }
        match spans[i] {
            Some((start, end)) => {
                if cursor <= start && start <= end && end <= total && haystack.is_char_boundary(
                    start,
                ) && haystack.is_char_boundary(end) {
                    proof {
                        assert(well_placed(bytes, cursor as int, (start, end)));
                        lemma_boundary_in_tail(bytes, cursor as int, start as int);
                    }
                    let (before, tail) = rest.split_at(start - cursor);
                    proof {
                        assert(tail.spec_bytes() =~= bytes.subrange(
                            start as int,
                            bytes.len() as int,
                        ));
                        assert(before.spec_bytes() =~= bytes.subrange(cursor as int, start as int));
                        encode_utf8_decode_utf8(before@);
                        lemma_boundary_in_tail(bytes, start as int, end as int);
                    }
                    let (_, after) = tail.split_at(end - start);
                    proof {
                        assert(after.spec_bytes() =~= bytes.subrange(
                            end as int,
                            bytes.len() as int,
                        ));
                    }
                    out.append(before);
                    out.append(replacement);
                    rest = after;
                    cursor = end;
                    proof {
                        let behind = spliced(bytes, spans@.skip(i + 1), replacement@, end as int);
                        assert(out@ + behind =~= before_out + (before@ + replacement@ + behind));
                    }
                }
            },
            None => {},
        }
        i = i + 1;
    }
    proof {
        assert(spans@.skip(i as int) =~= Seq::<Option<(usize, usize)>>::empty());
        encode_utf8_decode_utf8(rest@);
    }
    out.append(rest);
    out
}

/// Rewrites a text under a transformation pattern: asks the engine where the
/// capture group stands in each match and puts the replacement there. The
/// spans that the engine reports follow each other in order, so each of them
/// is replaced; a text that the pattern does not match is left as it is.
pub fn rewrite(re: &Regex, text: &str, replacement: &str) -> (out: String)
    ensures
        out@ == rewritten(*re, text@, replacement@),
        spans_in_order(encode_utf8(text@), regex_group_spans(*re, text@), 0),
        !regex_accepts(*re, text@) ==> out@ == text@,
{
    let spans = group_spans(re, text);
    proof {
        if !regex_accepts(*re, text@) {
            assert(spans@ =~= Seq::<Option<(usize, usize)>>::empty());
            lemma_spliced_without_spans(text@, replacement@);
        }
    }
    splice(text, &spans, replacement)
}

} // verus!
