use vstd::prelude::*;
use crate::text::{ascii_chars, decode_utf8};

verus! {

/// A byte that may stand in header text: a visible ASCII character or a tab.
pub open spec fn is_visible_ascii(b: u8) -> bool {
    (32 <= b && b < 127) || b == 9
}

/// A header value that decodes as text.
pub open spec fn is_header_text(v: Seq<u8>) -> bool {
    forall|i: int| 0 <= i < v.len() ==> is_visible_ascii(#[trigger] v[i])
}

/// What one raw header becomes: its name and decoded value, or nothing when the
/// value is not text.
pub open spec fn decoded_entry(e: (String, Vec<u8>)) -> Option<(Seq<char>, Seq<char>)> {
    if is_header_text(e.1@) {
        Some((e.0@, ascii_chars(e.1@)))
    } else {
        None
    }
}

/// The headers of an event once normalized: the entries whose value is text, in
/// their order, with repeated names kept.
pub open spec fn normalized(raw: Seq<(String, Vec<u8>)>) -> Seq<(Seq<char>, Seq<char>)> {
    raw.filter_map(|e: (String, Vec<u8>)| decoded_entry(e))
}

/// The abstract value of a list of text headers.
pub open spec fn header_pairs(h: Seq<(String, String)>) -> Seq<(Seq<char>, Seq<char>)> {
    h.map_values(|e: (String, String)| (e.0@, e.1@))
}

/// Whether a header value decodes as text.
pub fn is_text_value(v: &Vec<u8>) -> (r: bool)
    ensures
        r == is_header_text(v@),
{
    let mut i: usize = 0;
    while i < v.len()
        invariant
            i <= v@.len(),
            forall|j: int| 0 <= j < i ==> is_visible_ascii(#[trigger] v@[j]),
        decreases v@.len() - i,
    {
        let b = v[i];
        if !((32 <= b && b < 127) || b == 9) {
            return false;
        }
        i = i + 1;
    }
    true
}

/// Turns the headers of an event into text pairs, dropping each value that is not
/// text and keeping the rest in order.
pub fn normalize_headers(raw: &Vec<(String, Vec<u8>)>) -> (r: Vec<(String, String)>)
    ensures
        header_pairs(r@) == normalized(raw@),
{
    let mut out: Vec<(String, String)> = Vec::new();
    let mut i: usize = 0;
    while i < raw.len()
        invariant
            i <= raw@.len(),
            header_pairs(out@) == normalized(raw@.take(i as int)),
        decreases raw@.len() - i,
    {
        proof {
            raw@.lemma_filter_map_take_succ(|e: (String, Vec<u8>)| decoded_entry(e), i as int);
        }
        let name = &raw[i].0;
        let value = &raw[i].1;
        if is_text_value(value) {
            let text = decode_utf8(value.clone());
            match text {
                Some(t) => {
                    out.push((name.clone(), t));
                },
                None => {},
            }
        }
        i = i + 1;
    }
    proof {
        assert(raw@.take(raw@.len() as int) == raw@);
    }
    out
}

/// Normalizing two runs of headers one after the other gives the two results one
/// after the other: no entry's outcome depends on its neighbours.
pub proof fn lemma_normalize_concat(a: Seq<(String, Vec<u8>)>, b: Seq<(String, Vec<u8>)>)
    ensures
        normalized(a + b) == normalized(a) + normalized(b),
    decreases b.len(),
{
    if b.len() == 0 {
        assert(a + b == a);
        assert(normalized(b) == Seq::<(Seq<char>, Seq<char>)>::empty());
        assert(normalized(a) + normalized(b) == normalized(a));
    } else {
        lemma_normalize_concat(a, b.drop_last());
        assert((a + b).drop_last() == a + b.drop_last());
        assert((a + b).last() == b.last());
        assert(normalized(a) + normalized(b.drop_last()) + seq![decoded_entry(b.last())->0]
            == normalized(a) + (normalized(b.drop_last()) + seq![decoded_entry(b.last())->0]));
    }
}

/// Normalizing a single header gives its decoded pair when the value is text, and
/// nothing otherwise.
pub proof fn lemma_normalize_single(e: (String, Vec<u8>))
    ensures
        is_header_text(e.1@) ==> normalized(seq![e]) == seq![(e.0@, ascii_chars(e.1@))],
        !is_header_text(e.1@) ==> normalized(seq![e]) == Seq::<(Seq<char>, Seq<char>)>::empty(),
{
    let s = seq![e];
    assert(s.drop_last() == Seq::<(String, Vec<u8>)>::empty());
    assert(s.last() == e);
    assert(normalized(s.drop_last()) == Seq::<(Seq<char>, Seq<char>)>::empty());
    assert(Seq::<(Seq<char>, Seq<char>)>::empty() + seq![(e.0@, ascii_chars(e.1@))]
        == seq![(e.0@, ascii_chars(e.1@))]);
}

/// A header whose value is not text is dropped without moving the others: removing
/// it beforehand leaves the normalized headers unchanged.
pub proof fn lemma_normalize_drops_undecodable(raw: Seq<(String, Vec<u8>)>, i: int)
    requires
        0 <= i < raw.len(),
        !is_header_text(raw[i].1@),
    ensures
        normalized(raw.remove(i)) == normalized(raw),
{
    let pre = raw.take(i);
    let post = raw.skip(i + 1);
    assert(raw == pre + seq![raw[i]] + post);
    assert(raw.remove(i) == pre + post);
    lemma_normalize_concat(pre + seq![raw[i]], post);
    lemma_normalize_concat(pre, seq![raw[i]]);
    lemma_normalize_concat(pre, post);
    lemma_normalize_single(raw[i]);
    assert(normalized(pre) + Seq::<(Seq<char>, Seq<char>)>::empty() == normalized(pre));
}

/// A header whose value is text keeps its place: it comes out, decoded, after what
/// the headers before it give and before what the headers after it give.
pub proof fn lemma_normalize_keeps_text(raw: Seq<(String, Vec<u8>)>, i: int)
    requires
        0 <= i < raw.len(),
        is_header_text(raw[i].1@),
    ensures
        normalized(raw) == normalized(raw.take(i)) + seq![(raw[i].0@, ascii_chars(raw[i].1@))]
            + normalized(raw.skip(i + 1)),
{
    let pre = raw.take(i);
    let post = raw.skip(i + 1);
    assert(raw == pre + seq![raw[i]] + post);
    lemma_normalize_concat(pre + seq![raw[i]], post);
    lemma_normalize_concat(pre, seq![raw[i]]);
    lemma_normalize_single(raw[i]);
}

} // verus!
