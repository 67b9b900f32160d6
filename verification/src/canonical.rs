//! The canonical command schema, as a grammar over payload bytes, and its
//! verified strict parser.
//!
//! A canonical payload is a JSON object with exactly one member, `kind`,
//! whose value is a string of printable ASCII characters without escape
//! sequences; JSON whitespace may stand between tokens.  Newer producers
//! emit this shape; anything else falls to the loose tier of the decode
//! policy.

use vstd::prelude::*;

verus! {

/// JSON whitespace: space, tab, line feed, carriage return.
pub open spec fn is_json_ws(b: u8) -> bool {
    b == 0x20 || b == 0x09 || b == 0x0a || b == 0x0d
}

/// A byte allowed inside the `kind` string: printable ASCII other than the
/// quote and the backslash, so the string needs no escapes.
pub open spec fn is_kind_byte(b: u8) -> bool {
    0x20 <= b <= 0x7e && b != 0x22 && b != 0x5c
}

/// Index of the first byte at or after `i` that is not JSON whitespace.
pub open spec fn skip_ws(p: Seq<u8>, i: int) -> int
    decreases p.len() - i,
{
    if 0 <= i < p.len() && is_json_ws(p[i]) {
        skip_ws(p, i + 1)
    } else {
        i
    }
}

/// Index of the first byte at or after `i` that cannot stand inside the
/// `kind` string.
pub open spec fn scan_kind(p: Seq<u8>, i: int) -> int
    decreases p.len() - i,
{
    if 0 <= i < p.len() && is_kind_byte(p[i]) {
        scan_kind(p, i + 1)
    } else {
        i
    }
}

/// The six bytes of the quoted member name `"kind"`.
pub open spec fn kind_key_bytes() -> Seq<u8> {
    seq![0x22u8, 0x6bu8, 0x69u8, 0x6eu8, 0x64u8, 0x22u8]
}

/// The `kind` string of a canonical payload, as bytes, or `None` where the
/// payload does not satisfy the canonical schema.
pub open spec fn canonical_kind(p: Seq<u8>) -> Option<Seq<u8>> {
    let i0 = skip_ws(p, 0);
    if i0 < p.len() && p[i0] == 0x7bu8 {
        let i1 = skip_ws(p, i0 + 1);
        if i1 + 6 <= p.len() && p.subrange(i1, i1 + 6) == kind_key_bytes() {
            let i2 = skip_ws(p, i1 + 6);
            if i2 < p.len() && p[i2] == 0x3au8 {
                let i3 = skip_ws(p, i2 + 1);
                if i3 < p.len() && p[i3] == 0x22u8 {
                    let e = scan_kind(p, i3 + 1);
                    if e < p.len() && p[e] == 0x22u8 {
                        let i4 = skip_ws(p, e + 1);
                        if i4 < p.len() && p[i4] == 0x7du8 && skip_ws(p, i4 + 1) == p.len() {
                            Some(p.subrange(i3 + 1, e))
                        } else {
                            None
                        }
                    } else {
                        None
                    }
                } else {
                    None
                }
            } else {
                None
            }
        } else {
            None
        }
    } else {
        None
    }
}

/// Every byte of a canonical `kind` lies strictly inside the printable ASCII
/// range: it comes out of `scan_kind`, which stops at anything else.
pub proof fn lemma_canonical_kind_bytes(p: Seq<u8>)
    requires
        canonical_kind(p) is Some,
    ensures
        forall|i: int|
            0 <= i < canonical_kind(p).unwrap().len() ==> is_kind_byte(
                #[trigger] canonical_kind(p).unwrap()[i],
            ),
{
    let i0 = skip_ws(p, 0);
    let i1 = skip_ws(p, i0 + 1);
    let i2 = skip_ws(p, i1 + 6);
    let i3 = skip_ws(p, i2 + 1);
    let e = scan_kind(p, i3 + 1);
    lemma_scan_kind(p, i3 + 1);
}

/// Bounds and content of `scan_kind`: it never runs past the end, it stops
/// at the first byte that cannot stand in the string, and everything it
/// passed over can.
pub proof fn lemma_scan_kind(p: Seq<u8>, i: int)
    requires
        0 <= i <= p.len(),
    ensures
        i <= scan_kind(p, i) <= p.len(),
        scan_kind(p, i) < p.len() ==> !is_kind_byte(p[scan_kind(p, i)]),
        forall|j: int| i <= j < scan_kind(p, i) ==> is_kind_byte(#[trigger] p[j]),
    decreases p.len() - i,
{
    if i < p.len() && is_kind_byte(p[i]) {
        lemma_scan_kind(p, i + 1);
    }
}

/// Computes `skip_ws` on a byte vector.
fn skip_ws_exec(p: &Vec<u8>, i: usize) -> (r: usize)
    requires
        i <= p@.len(),
    ensures
        r == skip_ws(p@, i as int),
        i <= r <= p@.len(),
{
    let mut j = i;
    while j < p.len() && (p[j] == 0x20 || p[j] == 0x09 || p[j] == 0x0a || p[j] == 0x0d)
        invariant
            i <= j <= p@.len(),
            skip_ws(p@, i as int) == skip_ws(p@, j as int),
        decreases p@.len() - j,
    {
        j += 1;
    }
    j
}

/// Computes `scan_kind` on a byte vector.
fn scan_kind_exec(p: &Vec<u8>, i: usize) -> (r: usize)
    requires
        i <= p@.len(),
    ensures
        r == scan_kind(p@, i as int),
        i <= r <= p@.len(),
{
    let mut j = i;
    while j < p.len() && 0x20 <= p[j] && p[j] <= 0x7e && p[j] != 0x22 && p[j] != 0x5c
        invariant
            i <= j <= p@.len(),
            scan_kind(p@, i as int) == scan_kind(p@, j as int),
        decreases p@.len() - j,
    {
        j += 1;
    }
    j
}

/// The strict parser: the `kind` bytes of a canonical payload, or `None`
/// exactly where the payload does not satisfy the canonical schema.
pub fn parse_canonical(p: &Vec<u8>) -> (r: Option<Vec<u8>>)
    ensures
        r is Some <==> canonical_kind(p@) is Some,
        r matches Some(k) ==> canonical_kind(p@) == Some(k@),
{
    let n = p.len();
    let i0 = skip_ws_exec(p, 0);
    if !(i0 < n && p[i0] == 0x7b) {
        return None;
    }
    let i1 = skip_ws_exec(p, i0 + 1);
    if n - i1 < 6 {
        return None;
    }
    if !(p[i1] == 0x22 && p[i1 + 1] == 0x6b && p[i1 + 2] == 0x69 && p[i1 + 3] == 0x6e
        && p[i1 + 4] == 0x64 && p[i1 + 5] == 0x22) {
        proof {
            if p@.subrange(i1 as int, i1 + 6) == kind_key_bytes() {
                assert(p@[i1 as int] == kind_key_bytes()[0]);
                assert(p@[i1 + 1] == kind_key_bytes()[1]);
                assert(p@[i1 + 2] == kind_key_bytes()[2]);
                assert(p@[i1 + 3] == kind_key_bytes()[3]);
                assert(p@[i1 + 4] == kind_key_bytes()[4]);
                assert(p@[i1 + 5] == kind_key_bytes()[5]);
            }
        }
        return None;
    }
    proof {
        assert(p@.subrange(i1 as int, i1 + 6) =~= kind_key_bytes());
    }
    let i2 = skip_ws_exec(p, i1 + 6);
    if !(i2 < n && p[i2] == 0x3a) {
        return None;
    }
    let i3 = skip_ws_exec(p, i2 + 1);
    if !(i3 < n && p[i3] == 0x22) {
        return None;
    }
    let e = scan_kind_exec(p, i3 + 1);
    if !(e < n && p[e] == 0x22) {
        return None;
    }
    let i4 = skip_ws_exec(p, e + 1);
    if !(i4 < n && p[i4] == 0x7d) {
        return None;
    }
    if skip_ws_exec(p, i4 + 1) != n {
        return None;
    }
    let mut k: Vec<u8> = Vec::new();
    let mut j = i3 + 1;
    while j < e
        invariant
            i3 + 1 <= j <= e <= p@.len(),
            k@ =~= p@.subrange(i3 + 1, j as int),
        decreases e - j,
    {
        k.push(p[j]);
        j += 1;
    }
    proof {
        assert(k@ =~= p@.subrange(i3 + 1, e as int));
    }
    Some(k)
}

} // verus!
