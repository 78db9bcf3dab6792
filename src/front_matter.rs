use vstd::prelude::*;

verus! {

/// A carriage return or a line feed.
pub open spec fn is_line_break(c: u8) -> bool {
    c == 13u8 || c == 10u8
}

/// `p` is where the opening line ends: at its first line break, or at the
/// last byte when no earlier byte breaks the line.
pub open spec fn opening_line_end(b: Seq<u8>, p: int) -> bool {
    &&& 0 <= p < b.len()
    &&& is_line_break(b[p]) || p == b.len() - 1
    &&& forall|j: int| 0 <= j < p ==> !is_line_break(#[trigger] b[j])
}

/// Where the body starts once the opening line, which ends at `p`, is
/// dropped: a line feed right after it is dropped too.
pub open spec fn body_start(b: Seq<u8>, p: int) -> int {
    if p + 1 < b.len() && b[p + 1] == 10u8 {
        p + 2
    } else {
        p + 1
    }
}

/// `e` ends the body that starts at `s`: the trailing run of `-` is cut,
/// but a body that is not empty keeps at least one byte.
pub open spec fn body_end(b: Seq<u8>, s: int, e: int) -> bool {
    &&& s <= e <= b.len()
    &&& s < b.len() ==> s < e
    &&& forall|k: int| e <= k < b.len() ==> #[trigger] b[k] == 45u8
    &&& e - s <= 1 || b[e - 1] != 45u8
}

/// The bytes between the delimiters of a front-matter block: the opening
/// line is dropped with the line break that ends it (and a line feed right
/// after it), and every trailing `-` is cut from the end, down to one byte.
pub open spec fn front_matter_body(b: Seq<u8>, r: Seq<u8>) -> bool {
    if b.len() == 0 {
        r.len() == 0
    } else {
        exists|p: int, e: int|
            opening_line_end(b, p) && body_end(b, body_start(b, p), e) && r == b.subrange(
                body_start(b, p),
                e,
            )
    }
}

/// Strips the front-matter delimiters from the raw bytes of a template note,
/// leaving the YAML document between them. An input without a byte gives
/// nothing back.
pub fn clean_yaml_md_file(bytes: &[u8]) -> (r: &[u8])
    ensures
        front_matter_body(bytes@, r@),
{
    let n = bytes.len();
    if n == 0 {
        return bytes;
    }
    let mut p: usize = 0;
    while p + 1 < n && bytes[p] != 13u8 && bytes[p] != 10u8
        invariant
            n == bytes@.len(),
            0 <= p < n,
            forall|j: int| 0 <= j < p ==> !is_line_break(#[trigger] bytes@[j]),
        decreases n - p,
    {
        p = p + 1;
    }
    assert(opening_line_end(bytes@, p as int));
    let mut s: usize = p + 1;
    if s < n && bytes[s] == 10u8 {
        s = s + 1;
    }
    assert(s == body_start(bytes@, p as int));
    let mut e: usize = n;
    while e - s > 1 && bytes[e - 1] == 45u8
        invariant
            n == bytes@.len(),
            s <= n,
            s < n ==> s < e,
            s <= e <= n,
            forall|k: int| e <= k < n ==> #[trigger] bytes@[k] == 45u8,
        decreases e,
    {
        e = e - 1;
    }
    assert(body_end(bytes@, s as int, e as int));
    let r = &bytes[s..e];
    assert(r@ == bytes@.subrange(s as int, e as int));
    r
}

} // verus!
