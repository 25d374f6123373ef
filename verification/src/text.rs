//! Byte-level text helpers: character classes, literal tables, and the
//! casing transformations used for generated identifiers.
//!
//! All schema text handled by this crate is ASCII, held in `Vec<u8>`.

use vstd::prelude::*;

verus! {

/// Whitespace accepted between document elements.
pub open spec fn is_ws(b: u8) -> bool {
    b == 32 || b == 9 || b == 10 || b == 13
}

/// Bytes allowed inside a quoted attribute value.
pub open spec fn is_attr_byte(b: u8) -> bool {
    32 <= b < 127 && b != 34 && b != 60 && b != 62
}

/// Bytes allowed inside element text (default, summary, description).
pub open spec fn is_text_byte(b: u8) -> bool {
    b != 60 && b != 0
}

/// Lower-case ASCII letter.
pub open spec fn is_lower(b: u8) -> bool {
    97 <= b <= 122
}

/// The upper-case counterpart of a byte: ASCII lower-case letters are
/// shifted to upper case, everything else is unchanged.
pub open spec fn to_upper(b: u8) -> u8 {
    if is_lower(b) {
        (b - 32) as u8
    } else {
        b
    }
}

/// Segment separators inside a nick or key name.
pub open spec fn is_sep(b: u8) -> bool {
    b == 45 || b == 95
}

/// Kebab-case to snake case: every `-` becomes `_`, all else unchanged.
pub open spec fn snake_of(s: Seq<u8>) -> Seq<u8> {
    s.map_values(|b: u8| if b == 45 { 95u8 } else { b })
}

/// Pascal case of the suffix of `s` from `i`, where `start` says whether
/// the next letter opens a new segment. Separators are dropped, the first
/// byte of each segment is upper-cased, the rest is kept.
pub open spec fn pascal_from(s: Seq<u8>, i: int, start: bool) -> Seq<u8>
    decreases s.len() - i,
{
    if i < 0 || i >= s.len() {
        Seq::empty()
    } else if is_sep(s[i]) {
        pascal_from(s, i + 1, true)
    } else if start {
        seq![to_upper(s[i])] + pascal_from(s, i + 1, false)
    } else {
        seq![s[i]] + pascal_from(s, i + 1, false)
    }
}

/// Pascal case ("capitalized words") of a whole name.
pub open spec fn pascal_of(s: Seq<u8>) -> Seq<u8> {
    pascal_from(s, 0, true)
}

/// Screaming snake case: every byte upper-cased, `-` becomes `_`.
pub open spec fn screaming_of(s: Seq<u8>) -> Seq<u8> {
    s.map_values(|b: u8| if b == 45 { 95u8 } else { to_upper(b) })
}

/// Exec form of `snake_of`.
pub fn snake_bytes(s: &[u8]) -> (v: Vec<u8>)
    ensures
        v@ == snake_of(s@),
{
    let mut v: Vec<u8> = Vec::new();
    let mut i: usize = 0;
    while i < s.len()
        invariant
            i <= s@.len(),
            v@ == snake_of(s@).take(i as int),
        decreases s@.len() - i,
    {
        let b = s[i];
        if b == 45 {
            v.push(95);
        } else {
            v.push(b);
        }
        proof {
            assert(v@ =~= snake_of(s@).take(i + 1));
        }
        i += 1;
    }
    proof {
        assert(snake_of(s@).take(s@.len() as int) =~= snake_of(s@));
    }
    v
}

/// Exec form of `pascal_of`.
pub fn pascal_bytes(s: &[u8]) -> (v: Vec<u8>)
    ensures
        v@ == pascal_of(s@),
{
    let mut v: Vec<u8> = Vec::new();
    let mut i: usize = 0;
    let mut start: bool = true;
    while i < s.len()
        invariant
            i <= s@.len(),
            pascal_of(s@) == v@ + pascal_from(s@, i as int, start),
        decreases s@.len() - i,
    {
        let b = s[i];
        if b == 45 || b == 95 {
            start = true;
        } else if start {
            let up = if 97 <= b && b <= 122 {
                b - 32
            } else {
                b
            };
            v.push(up);
            start = false;
        } else {
            v.push(b);
            start = false;
        }
        proof {
            assert(pascal_of(s@) =~= v@ + pascal_from(s@, i + 1, start));
        }
        i += 1;
    }
    proof {
        assert(pascal_of(s@) =~= v@);
    }
    v
}

/// Exec form of `screaming_of`.
pub fn screaming_bytes(s: &[u8]) -> (v: Vec<u8>)
    ensures
        v@ == screaming_of(s@),
{
    let mut v: Vec<u8> = Vec::new();
    let mut i: usize = 0;
    while i < s.len()
        invariant
            i <= s@.len(),
            v@ == screaming_of(s@).take(i as int),
        decreases s@.len() - i,
    {
        let b = s[i];
        if b == 45 {
            v.push(95);
        } else if 97 <= b && b <= 122 {
            v.push(b - 32);
        } else {
            v.push(b);
        }
        proof {
            assert(v@ =~= screaming_of(s@).take(i + 1));
        }
        i += 1;
    }
    proof {
        assert(screaming_of(s@).take(s@.len() as int) =~= screaming_of(s@));
    }
    v
}

/// True when `lit` occurs in `s` starting at position `i`.
pub open spec fn matches_at(s: Seq<u8>, i: int, lit: Seq<u8>) -> bool {
    &&& 0 <= i
    &&& i + lit.len() <= s.len()
    &&& forall|k: int| 0 <= k < lit.len() ==> s[i + k] == lit[k]
}

/// Exec form of `matches_at`.
pub fn match_lit(s: &[u8], i: usize, lit: &Vec<u8>) -> (r: bool)
    ensures
        r == matches_at(s@, i as int, lit@),
{
    let slen = s.len();
    if lit.len() > slen || i > slen - lit.len() {
        return false;
    }
    let mut k: usize = 0;
    while k < lit.len()
        invariant
            i + lit@.len() <= s@.len(),
            s@.len() <= usize::MAX,
            k <= lit@.len(),
            forall|m: int| 0 <= m < k ==> s@[i + m] == lit@[m],
        decreases lit@.len() - k,
    {
        if s[i + k] != lit[k] {
            return false;
        }
        k += 1;
    }
    true
}

/// Exec equality of two byte strings.
pub fn bytes_eq(a: &[u8], b: &[u8]) -> (r: bool)
    ensures
        r == (a@ == b@),
{
    if a.len() != b.len() {
        proof {
            assert(a@ != b@);
        }
        return false;
    }
    let mut k: usize = 0;
    while k < a.len()
        invariant
            a@.len() == b@.len(),
            k <= a@.len(),
            forall|m: int| 0 <= m < k ==> a@[m] == b@[m],
        decreases a@.len() - k,
    {
        if a[k] != b[k] {
            return false;
        }
        k += 1;
    }
    proof {
        assert(a@ =~= b@);
    }
    true
}

/// The deep view of a byte vector is its plain view.
pub broadcast proof fn lemma_bytes_deep_view(v: Vec<u8>)
    ensures
        #[trigger] v.deep_view() == v@,
{
    assert(v.deep_view() =~= v@);
}

/// Copy of a whole byte string as a fresh vector.
pub fn copy_bytes(s: &[u8]) -> (v: Vec<u8>)
    ensures
        v@ == s@,
{
    let v = copy_range(s, 0, s.len());
    proof {
        assert(s@.subrange(0, s@.len() as int) =~= s@);
    }
    v
}

/// Appends a byte string to a vector.
pub fn append_bytes(dst: &mut Vec<u8>, src: &[u8])
    ensures
        final(dst)@ == old(dst)@ + src@,
{
    let mut i: usize = 0;
    while i < src.len()
        invariant
            i <= src@.len(),
            dst@ == old(dst)@ + src@.take(i as int),
        decreases src@.len() - i,
    {
        dst.push(src[i]);
        proof {
            assert(old(dst)@ + src@.take(i + 1) =~= (old(dst)@ + src@.take(i as int)).push(
                src@[i as int],
            ));
        }
        i += 1;
    }
    proof {
        assert(src@.take(src@.len() as int) =~= src@);
    }
}

/// Copy of an optional byte string.
pub fn copy_opt_bytes(o: &Option<Vec<u8>>) -> (r: Option<Vec<u8>>)
    ensures
        r.deep_view() == o.deep_view(),
{
    match o {
        Some(v) => {
            let c = copy_bytes(v.as_slice());
            proof {
                assert(c.deep_view() =~= v.deep_view());
            }
            Some(c)
        },
        None => None,
    }
}

/// Copy of `s[a..b]` as a fresh vector.
pub fn copy_range(s: &[u8], a: usize, b: usize) -> (v: Vec<u8>)
    requires
        a <= b <= s@.len(),
    ensures
        v@ == s@.subrange(a as int, b as int),
{
    let mut v: Vec<u8> = Vec::new();
    let mut k: usize = a;
    while k < b
        invariant
            a <= k <= b <= s@.len(),
            v@ == s@.subrange(a as int, k as int),
        decreases b - k,
    {
        v.push(s[k]);
        proof {
            assert(v@ =~= s@.subrange(a as int, k + 1));
        }
        k += 1;
    }
    v
}

/// Bytes of `<schemalist>`.
pub open spec fn schemalist_open() -> Seq<u8> {
    seq![60u8, 115u8, 99u8, 104u8, 101u8, 109u8, 97u8, 108u8, 105u8, 115u8, 116u8, 62u8]
}

/// Bytes of `<schemalist>`.
pub fn schemalist_open_bytes() -> (v: Vec<u8>)
    ensures
        v@ == schemalist_open(),
{
    let mut v: Vec<u8> = Vec::new();
    v.push(60u8);
    v.push(115u8);
    v.push(99u8);
    v.push(104u8);
    v.push(101u8);
    v.push(109u8);
    v.push(97u8);
    v.push(108u8);
    v.push(105u8);
    v.push(115u8);
    v.push(116u8);
    v.push(62u8);
    proof { assert(v@ =~= schemalist_open()); }
    v
}

/// Bytes of `</schemalist>`.
pub open spec fn schemalist_close() -> Seq<u8> {
    seq![60u8, 47u8, 115u8, 99u8, 104u8, 101u8, 109u8, 97u8, 108u8, 105u8, 115u8, 116u8, 62u8]
}

/// Bytes of `</schemalist>`.
pub fn schemalist_close_bytes() -> (v: Vec<u8>)
    ensures
        v@ == schemalist_close(),
{
    let mut v: Vec<u8> = Vec::new();
    v.push(60u8);
    v.push(47u8);
    v.push(115u8);
    v.push(99u8);
    v.push(104u8);
    v.push(101u8);
    v.push(109u8);
    v.push(97u8);
    v.push(108u8);
    v.push(105u8);
    v.push(115u8);
    v.push(116u8);
    v.push(62u8);
    proof { assert(v@ =~= schemalist_close()); }
    v
}

/// Bytes of `<schema id="`.
pub open spec fn schema_open() -> Seq<u8> {
    seq![60u8, 115u8, 99u8, 104u8, 101u8, 109u8, 97u8, 32u8, 105u8, 100u8, 61u8, 34u8]
}

/// Bytes of `<schema id="`.
pub fn schema_open_bytes() -> (v: Vec<u8>)
    ensures
        v@ == schema_open(),
{
    let mut v: Vec<u8> = Vec::new();
    v.push(60u8);
    v.push(115u8);
    v.push(99u8);
    v.push(104u8);
    v.push(101u8);
    v.push(109u8);
    v.push(97u8);
    v.push(32u8);
    v.push(105u8);
    v.push(100u8);
    v.push(61u8);
    v.push(34u8);
    proof { assert(v@ =~= schema_open()); }
    v
}

/// Bytes of `">`.
pub open spec fn quote_gt() -> Seq<u8> {
    seq![34u8, 62u8]
}

/// Bytes of `">`.
pub fn quote_gt_bytes() -> (v: Vec<u8>)
    ensures
        v@ == quote_gt(),
{
    let mut v: Vec<u8> = Vec::new();
    v.push(34u8);
    v.push(62u8);
    proof { assert(v@ =~= quote_gt()); }
    v
}

/// Bytes of `</schema>`.
pub open spec fn schema_close() -> Seq<u8> {
    seq![60u8, 47u8, 115u8, 99u8, 104u8, 101u8, 109u8, 97u8, 62u8]
}

/// Bytes of `</schema>`.
pub fn schema_close_bytes() -> (v: Vec<u8>)
    ensures
        v@ == schema_close(),
{
    let mut v: Vec<u8> = Vec::new();
    v.push(60u8);
    v.push(47u8);
    v.push(115u8);
    v.push(99u8);
    v.push(104u8);
    v.push(101u8);
    v.push(109u8);
    v.push(97u8);
    v.push(62u8);
    proof { assert(v@ =~= schema_close()); }
    v
}

/// Bytes of `<key name="`.
pub open spec fn key_open() -> Seq<u8> {
    seq![60u8, 107u8, 101u8, 121u8, 32u8, 110u8, 97u8, 109u8, 101u8, 61u8, 34u8]
}

/// Bytes of `<key name="`.
pub fn key_open_bytes() -> (v: Vec<u8>)
    ensures
        v@ == key_open(),
{
    let mut v: Vec<u8> = Vec::new();
    v.push(60u8);
    v.push(107u8);
    v.push(101u8);
    v.push(121u8);
    v.push(32u8);
    v.push(110u8);
    v.push(97u8);
    v.push(109u8);
    v.push(101u8);
    v.push(61u8);
    v.push(34u8);
    proof { assert(v@ =~= key_open()); }
    v
}

/// Bytes of `" type="`.
pub open spec fn type_attr() -> Seq<u8> {
    seq![34u8, 32u8, 116u8, 121u8, 112u8, 101u8, 61u8, 34u8]
}

/// Bytes of `" type="`.
pub fn type_attr_bytes() -> (v: Vec<u8>)
    ensures
        v@ == type_attr(),
{
    let mut v: Vec<u8> = Vec::new();
    v.push(34u8);
    v.push(32u8);
    v.push(116u8);
    v.push(121u8);
    v.push(112u8);
    v.push(101u8);
    v.push(61u8);
    v.push(34u8);
    proof { assert(v@ =~= type_attr()); }
    v
}

/// Bytes of `" readonly="true">`.
pub open spec fn readonly_tail() -> Seq<u8> {
    seq![34u8, 32u8, 114u8, 101u8, 97u8, 100u8, 111u8, 110u8, 108u8, 121u8, 61u8, 34u8, 116u8, 114u8, 117u8, 101u8, 34u8, 62u8]
}

/// Bytes of `" readonly="true">`.
pub fn readonly_tail_bytes() -> (v: Vec<u8>)
    ensures
        v@ == readonly_tail(),
{
    let mut v: Vec<u8> = Vec::new();
    v.push(34u8);
    v.push(32u8);
    v.push(114u8);
    v.push(101u8);
    v.push(97u8);
    v.push(100u8);
    v.push(111u8);
    v.push(110u8);
    v.push(108u8);
    v.push(121u8);
    v.push(61u8);
    v.push(34u8);
    v.push(116u8);
    v.push(114u8);
    v.push(117u8);
    v.push(101u8);
    v.push(34u8);
    v.push(62u8);
    proof { assert(v@ =~= readonly_tail()); }
    v
}

/// Bytes of `</key>`.
pub open spec fn key_close() -> Seq<u8> {
    seq![60u8, 47u8, 107u8, 101u8, 121u8, 62u8]
}

/// Bytes of `</key>`.
pub fn key_close_bytes() -> (v: Vec<u8>)
    ensures
        v@ == key_close(),
{
    let mut v: Vec<u8> = Vec::new();
    v.push(60u8);
    v.push(47u8);
    v.push(107u8);
    v.push(101u8);
    v.push(121u8);
    v.push(62u8);
    proof { assert(v@ =~= key_close()); }
    v
}

/// Bytes of `<default>`.
pub open spec fn default_open() -> Seq<u8> {
    seq![60u8, 100u8, 101u8, 102u8, 97u8, 117u8, 108u8, 116u8, 62u8]
}

/// Bytes of `<default>`.
pub fn default_open_bytes() -> (v: Vec<u8>)
    ensures
        v@ == default_open(),
{
    let mut v: Vec<u8> = Vec::new();
    v.push(60u8);
    v.push(100u8);
    v.push(101u8);
    v.push(102u8);
    v.push(97u8);
    v.push(117u8);
    v.push(108u8);
    v.push(116u8);
    v.push(62u8);
    proof { assert(v@ =~= default_open()); }
    v
}

/// Bytes of `</default>`.
pub open spec fn default_close() -> Seq<u8> {
    seq![60u8, 47u8, 100u8, 101u8, 102u8, 97u8, 117u8, 108u8, 116u8, 62u8]
}

/// Bytes of `</default>`.
pub fn default_close_bytes() -> (v: Vec<u8>)
    ensures
        v@ == default_close(),
{
    let mut v: Vec<u8> = Vec::new();
    v.push(60u8);
    v.push(47u8);
    v.push(100u8);
    v.push(101u8);
    v.push(102u8);
    v.push(97u8);
    v.push(117u8);
    v.push(108u8);
    v.push(116u8);
    v.push(62u8);
    proof { assert(v@ =~= default_close()); }
    v
}

/// Bytes of `<summary>`.
pub open spec fn summary_open() -> Seq<u8> {
    seq![60u8, 115u8, 117u8, 109u8, 109u8, 97u8, 114u8, 121u8, 62u8]
}

/// Bytes of `<summary>`.
pub fn summary_open_bytes() -> (v: Vec<u8>)
    ensures
        v@ == summary_open(),
{
    let mut v: Vec<u8> = Vec::new();
    v.push(60u8);
    v.push(115u8);
    v.push(117u8);
    v.push(109u8);
    v.push(109u8);
    v.push(97u8);
    v.push(114u8);
    v.push(121u8);
    v.push(62u8);
    proof { assert(v@ =~= summary_open()); }
    v
}

/// Bytes of `</summary>`.
pub open spec fn summary_close() -> Seq<u8> {
    seq![60u8, 47u8, 115u8, 117u8, 109u8, 109u8, 97u8, 114u8, 121u8, 62u8]
}

/// Bytes of `</summary>`.
pub fn summary_close_bytes() -> (v: Vec<u8>)
    ensures
        v@ == summary_close(),
{
    let mut v: Vec<u8> = Vec::new();
    v.push(60u8);
    v.push(47u8);
    v.push(115u8);
    v.push(117u8);
    v.push(109u8);
    v.push(109u8);
    v.push(97u8);
    v.push(114u8);
    v.push(121u8);
    v.push(62u8);
    proof { assert(v@ =~= summary_close()); }
    v
}

/// Bytes of `<description>`.
pub open spec fn description_open() -> Seq<u8> {
    seq![60u8, 100u8, 101u8, 115u8, 99u8, 114u8, 105u8, 112u8, 116u8, 105u8, 111u8, 110u8, 62u8]
}

/// Bytes of `<description>`.
pub fn description_open_bytes() -> (v: Vec<u8>)
    ensures
        v@ == description_open(),
{
    let mut v: Vec<u8> = Vec::new();
    v.push(60u8);
    v.push(100u8);
    v.push(101u8);
    v.push(115u8);
    v.push(99u8);
    v.push(114u8);
    v.push(105u8);
    v.push(112u8);
    v.push(116u8);
    v.push(105u8);
    v.push(111u8);
    v.push(110u8);
    v.push(62u8);
    proof { assert(v@ =~= description_open()); }
    v
}

/// Bytes of `</description>`.
pub open spec fn description_close() -> Seq<u8> {
    seq![60u8, 47u8, 100u8, 101u8, 115u8, 99u8, 114u8, 105u8, 112u8, 116u8, 105u8, 111u8, 110u8, 62u8]
}

/// Bytes of `</description>`.
pub fn description_close_bytes() -> (v: Vec<u8>)
    ensures
        v@ == description_close(),
{
    let mut v: Vec<u8> = Vec::new();
    v.push(60u8);
    v.push(47u8);
    v.push(100u8);
    v.push(101u8);
    v.push(115u8);
    v.push(99u8);
    v.push(114u8);
    v.push(105u8);
    v.push(112u8);
    v.push(116u8);
    v.push(105u8);
    v.push(111u8);
    v.push(110u8);
    v.push(62u8);
    proof { assert(v@ =~= description_close()); }
    v
}

/// Bytes of `<enum>`.
pub open spec fn enum_open() -> Seq<u8> {
    seq![60u8, 101u8, 110u8, 117u8, 109u8, 62u8]
}

/// Bytes of `<enum>`.
pub fn enum_open_bytes() -> (v: Vec<u8>)
    ensures
        v@ == enum_open(),
{
    let mut v: Vec<u8> = Vec::new();
    v.push(60u8);
    v.push(101u8);
    v.push(110u8);
    v.push(117u8);
    v.push(109u8);
    v.push(62u8);
    proof { assert(v@ =~= enum_open()); }
    v
}

/// Bytes of `</enum>`.
pub open spec fn enum_close() -> Seq<u8> {
    seq![60u8, 47u8, 101u8, 110u8, 117u8, 109u8, 62u8]
}

/// Bytes of `</enum>`.
pub fn enum_close_bytes() -> (v: Vec<u8>)
    ensures
        v@ == enum_close(),
{
    let mut v: Vec<u8> = Vec::new();
    v.push(60u8);
    v.push(47u8);
    v.push(101u8);
    v.push(110u8);
    v.push(117u8);
    v.push(109u8);
    v.push(62u8);
    proof { assert(v@ =~= enum_close()); }
    v
}

/// Bytes of `<flags>`.
pub open spec fn flags_open() -> Seq<u8> {
    seq![60u8, 102u8, 108u8, 97u8, 103u8, 115u8, 62u8]
}

/// Bytes of `<flags>`.
pub fn flags_open_bytes() -> (v: Vec<u8>)
    ensures
        v@ == flags_open(),
{
    let mut v: Vec<u8> = Vec::new();
    v.push(60u8);
    v.push(102u8);
    v.push(108u8);
    v.push(97u8);
    v.push(103u8);
    v.push(115u8);
    v.push(62u8);
    proof { assert(v@ =~= flags_open()); }
    v
}

/// Bytes of `</flags>`.
pub open spec fn flags_close() -> Seq<u8> {
    seq![60u8, 47u8, 102u8, 108u8, 97u8, 103u8, 115u8, 62u8]
}

/// Bytes of `</flags>`.
pub fn flags_close_bytes() -> (v: Vec<u8>)
    ensures
        v@ == flags_close(),
{
    let mut v: Vec<u8> = Vec::new();
    v.push(60u8);
    v.push(47u8);
    v.push(102u8);
    v.push(108u8);
    v.push(97u8);
    v.push(103u8);
    v.push(115u8);
    v.push(62u8);
    proof { assert(v@ =~= flags_close()); }
    v
}

/// Bytes of `<value nick="`.
pub open spec fn value_open() -> Seq<u8> {
    seq![60u8, 118u8, 97u8, 108u8, 117u8, 101u8, 32u8, 110u8, 105u8, 99u8, 107u8, 61u8, 34u8]
}

/// Bytes of `<value nick="`.
pub fn value_open_bytes() -> (v: Vec<u8>)
    ensures
        v@ == value_open(),
{
    let mut v: Vec<u8> = Vec::new();
    v.push(60u8);
    v.push(118u8);
    v.push(97u8);
    v.push(108u8);
    v.push(117u8);
    v.push(101u8);
    v.push(32u8);
    v.push(110u8);
    v.push(105u8);
    v.push(99u8);
    v.push(107u8);
    v.push(61u8);
    v.push(34u8);
    proof { assert(v@ =~= value_open()); }
    v
}

/// Bytes of `"/>`.
pub open spec fn value_close() -> Seq<u8> {
    seq![34u8, 47u8, 62u8]
}

/// Bytes of `"/>`.
pub fn value_close_bytes() -> (v: Vec<u8>)
    ensures
        v@ == value_close(),
{
    let mut v: Vec<u8> = Vec::new();
    v.push(34u8);
    v.push(47u8);
    v.push(62u8);
    proof { assert(v@ =~= value_close()); }
    v
}

/// Bytes of `b`.
pub open spec fn code_b() -> Seq<u8> {
    seq![98u8]
}

/// Bytes of `b`.
pub fn code_b_bytes() -> (v: Vec<u8>)
    ensures
        v@ == code_b(),
{
    let mut v: Vec<u8> = Vec::new();
    v.push(98u8);
    proof { assert(v@ =~= code_b()); }
    v
}

/// Bytes of `i`.
pub open spec fn code_i() -> Seq<u8> {
    seq![105u8]
}

/// Bytes of `i`.
pub fn code_i_bytes() -> (v: Vec<u8>)
    ensures
        v@ == code_i(),
{
    let mut v: Vec<u8> = Vec::new();
    v.push(105u8);
    proof { assert(v@ =~= code_i()); }
    v
}

/// Bytes of `u`.
pub open spec fn code_u() -> Seq<u8> {
    seq![117u8]
}

/// Bytes of `u`.
pub fn code_u_bytes() -> (v: Vec<u8>)
    ensures
        v@ == code_u(),
{
    let mut v: Vec<u8> = Vec::new();
    v.push(117u8);
    proof { assert(v@ =~= code_u()); }
    v
}

/// Bytes of `x`.
pub open spec fn code_x() -> Seq<u8> {
    seq![120u8]
}

/// Bytes of `x`.
pub fn code_x_bytes() -> (v: Vec<u8>)
    ensures
        v@ == code_x(),
{
    let mut v: Vec<u8> = Vec::new();
    v.push(120u8);
    proof { assert(v@ =~= code_x()); }
    v
}

/// Bytes of `t`.
pub open spec fn code_t() -> Seq<u8> {
    seq![116u8]
}

/// Bytes of `t`.
pub fn code_t_bytes() -> (v: Vec<u8>)
    ensures
        v@ == code_t(),
{
    let mut v: Vec<u8> = Vec::new();
    v.push(116u8);
    proof { assert(v@ =~= code_t()); }
    v
}

/// Bytes of `d`.
pub open spec fn code_d() -> Seq<u8> {
    seq![100u8]
}

/// Bytes of `d`.
pub fn code_d_bytes() -> (v: Vec<u8>)
    ensures
        v@ == code_d(),
{
    let mut v: Vec<u8> = Vec::new();
    v.push(100u8);
    proof { assert(v@ =~= code_d()); }
    v
}

/// Bytes of `(ii)`.
pub open spec fn code_pair() -> Seq<u8> {
    seq![40u8, 105u8, 105u8, 41u8]
}

/// Bytes of `(ii)`.
pub fn code_pair_bytes() -> (v: Vec<u8>)
    ensures
        v@ == code_pair(),
{
    let mut v: Vec<u8> = Vec::new();
    v.push(40u8);
    v.push(105u8);
    v.push(105u8);
    v.push(41u8);
    proof { assert(v@ =~= code_pair()); }
    v
}

/// Bytes of `as`.
pub open spec fn code_string_array() -> Seq<u8> {
    seq![97u8, 115u8]
}

/// Bytes of `as`.
pub fn code_string_array_bytes() -> (v: Vec<u8>)
    ensures
        v@ == code_string_array(),
{
    let mut v: Vec<u8> = Vec::new();
    v.push(97u8);
    v.push(115u8);
    proof { assert(v@ =~= code_string_array()); }
    v
}

/// Bytes of `s`.
pub open spec fn code_s() -> Seq<u8> {
    seq![115u8]
}

/// Bytes of `s`.
pub fn code_s_bytes() -> (v: Vec<u8>)
    ensures
        v@ == code_s(),
{
    let mut v: Vec<u8> = Vec::new();
    v.push(115u8);
    proof { assert(v@ =~= code_s()); }
    v
}

/// Bytes of `bool`.
pub open spec fn ty_bool() -> Seq<u8> {
    seq![98u8, 111u8, 111u8, 108u8]
}

/// Bytes of `bool`.
pub fn ty_bool_bytes() -> (v: Vec<u8>)
    ensures
        v@ == ty_bool(),
{
    let mut v: Vec<u8> = Vec::new();
    v.push(98u8);
    v.push(111u8);
    v.push(111u8);
    v.push(108u8);
    proof { assert(v@ =~= ty_bool()); }
    v
}

/// Bytes of `i32`.
pub open spec fn ty_i32() -> Seq<u8> {
    seq![105u8, 51u8, 50u8]
}

/// Bytes of `i32`.
pub fn ty_i32_bytes() -> (v: Vec<u8>)
    ensures
        v@ == ty_i32(),
{
    let mut v: Vec<u8> = Vec::new();
    v.push(105u8);
    v.push(51u8);
    v.push(50u8);
    proof { assert(v@ =~= ty_i32()); }
    v
}

/// Bytes of `u32`.
pub open spec fn ty_u32() -> Seq<u8> {
    seq![117u8, 51u8, 50u8]
}

/// Bytes of `u32`.
pub fn ty_u32_bytes() -> (v: Vec<u8>)
    ensures
        v@ == ty_u32(),
{
    let mut v: Vec<u8> = Vec::new();
    v.push(117u8);
    v.push(51u8);
    v.push(50u8);
    proof { assert(v@ =~= ty_u32()); }
    v
}

/// Bytes of `i64`.
pub open spec fn ty_i64() -> Seq<u8> {
    seq![105u8, 54u8, 52u8]
}

/// Bytes of `i64`.
pub fn ty_i64_bytes() -> (v: Vec<u8>)
    ensures
        v@ == ty_i64(),
{
    let mut v: Vec<u8> = Vec::new();
    v.push(105u8);
    v.push(54u8);
    v.push(52u8);
    proof { assert(v@ =~= ty_i64()); }
    v
}

/// Bytes of `u64`.
pub open spec fn ty_u64() -> Seq<u8> {
    seq![117u8, 54u8, 52u8]
}

/// Bytes of `u64`.
pub fn ty_u64_bytes() -> (v: Vec<u8>)
    ensures
        v@ == ty_u64(),
{
    let mut v: Vec<u8> = Vec::new();
    v.push(117u8);
    v.push(54u8);
    v.push(52u8);
    proof { assert(v@ =~= ty_u64()); }
    v
}

/// Bytes of `f64`.
pub open spec fn ty_f64() -> Seq<u8> {
    seq![102u8, 54u8, 52u8]
}

/// Bytes of `f64`.
pub fn ty_f64_bytes() -> (v: Vec<u8>)
    ensures
        v@ == ty_f64(),
{
    let mut v: Vec<u8> = Vec::new();
    v.push(102u8);
    v.push(54u8);
    v.push(52u8);
    proof { assert(v@ =~= ty_f64()); }
    v
}

/// Bytes of `(i32, i32)`.
pub open spec fn ty_pair() -> Seq<u8> {
    seq![40u8, 105u8, 51u8, 50u8, 44u8, 32u8, 105u8, 51u8, 50u8, 41u8]
}

/// Bytes of `(i32, i32)`.
pub fn ty_pair_bytes() -> (v: Vec<u8>)
    ensures
        v@ == ty_pair(),
{
    let mut v: Vec<u8> = Vec::new();
    v.push(40u8);
    v.push(105u8);
    v.push(51u8);
    v.push(50u8);
    v.push(44u8);
    v.push(32u8);
    v.push(105u8);
    v.push(51u8);
    v.push(50u8);
    v.push(41u8);
    proof { assert(v@ =~= ty_pair()); }
    v
}

/// Bytes of `&[&str]`.
pub open spec fn ty_str_slice_array() -> Seq<u8> {
    seq![38u8, 91u8, 38u8, 115u8, 116u8, 114u8, 93u8]
}

/// Bytes of `&[&str]`.
pub fn ty_str_slice_array_bytes() -> (v: Vec<u8>)
    ensures
        v@ == ty_str_slice_array(),
{
    let mut v: Vec<u8> = Vec::new();
    v.push(38u8);
    v.push(91u8);
    v.push(38u8);
    v.push(115u8);
    v.push(116u8);
    v.push(114u8);
    v.push(93u8);
    proof { assert(v@ =~= ty_str_slice_array()); }
    v
}

/// Bytes of `Vec<String>`.
pub open spec fn ty_string_vec() -> Seq<u8> {
    seq![86u8, 101u8, 99u8, 60u8, 83u8, 116u8, 114u8, 105u8, 110u8, 103u8, 62u8]
}

/// Bytes of `Vec<String>`.
pub fn ty_string_vec_bytes() -> (v: Vec<u8>)
    ensures
        v@ == ty_string_vec(),
{
    let mut v: Vec<u8> = Vec::new();
    v.push(86u8);
    v.push(101u8);
    v.push(99u8);
    v.push(60u8);
    v.push(83u8);
    v.push(116u8);
    v.push(114u8);
    v.push(105u8);
    v.push(110u8);
    v.push(103u8);
    v.push(62u8);
    proof { assert(v@ =~= ty_string_vec()); }
    v
}

/// Bytes of `&str`.
pub open spec fn ty_str() -> Seq<u8> {
    seq![38u8, 115u8, 116u8, 114u8]
}

/// Bytes of `&str`.
pub fn ty_str_bytes() -> (v: Vec<u8>)
    ensures
        v@ == ty_str(),
{
    let mut v: Vec<u8> = Vec::new();
    v.push(38u8);
    v.push(115u8);
    v.push(116u8);
    v.push(114u8);
    proof { assert(v@ =~= ty_str()); }
    v
}

/// Bytes of `String`.
pub open spec fn ty_string() -> Seq<u8> {
    seq![83u8, 116u8, 114u8, 105u8, 110u8, 103u8]
}

/// Bytes of `String`.
pub fn ty_string_bytes() -> (v: Vec<u8>)
    ensures
        v@ == ty_string(),
{
    let mut v: Vec<u8> = Vec::new();
    v.push(83u8);
    v.push(116u8);
    v.push(114u8);
    v.push(105u8);
    v.push(110u8);
    v.push(103u8);
    proof { assert(v@ =~= ty_string()); }
    v
}

/// Bytes of `set_`.
pub open spec fn frag_set() -> Seq<u8> {
    seq![115u8, 101u8, 116u8, 95u8]
}

/// Bytes of `set_`.
pub fn frag_set_bytes() -> (v: Vec<u8>)
    ensures
        v@ == frag_set(),
{
    let mut v: Vec<u8> = Vec::new();
    v.push(115u8);
    v.push(101u8);
    v.push(116u8);
    v.push(95u8);
    proof { assert(v@ =~= frag_set()); }
    v
}

/// Bytes of `try_set_`.
pub open spec fn frag_try_set() -> Seq<u8> {
    seq![116u8, 114u8, 121u8, 95u8, 115u8, 101u8, 116u8, 95u8]
}

/// Bytes of `try_set_`.
pub fn frag_try_set_bytes() -> (v: Vec<u8>)
    ensures
        v@ == frag_try_set(),
{
    let mut v: Vec<u8> = Vec::new();
    v.push(116u8);
    v.push(114u8);
    v.push(121u8);
    v.push(95u8);
    v.push(115u8);
    v.push(101u8);
    v.push(116u8);
    v.push(95u8);
    proof { assert(v@ =~= frag_try_set()); }
    v
}

/// Bytes of `connect_`.
pub open spec fn frag_connect() -> Seq<u8> {
    seq![99u8, 111u8, 110u8, 110u8, 101u8, 99u8, 116u8, 95u8]
}

/// Bytes of `connect_`.
pub fn frag_connect_bytes() -> (v: Vec<u8>)
    ensures
        v@ == frag_connect(),
{
    let mut v: Vec<u8> = Vec::new();
    v.push(99u8);
    v.push(111u8);
    v.push(110u8);
    v.push(110u8);
    v.push(101u8);
    v.push(99u8);
    v.push(116u8);
    v.push(95u8);
    proof { assert(v@ =~= frag_connect()); }
    v
}

/// Bytes of `_changed`.
pub open spec fn frag_changed() -> Seq<u8> {
    seq![95u8, 99u8, 104u8, 97u8, 110u8, 103u8, 101u8, 100u8]
}

/// Bytes of `_changed`.
pub fn frag_changed_bytes() -> (v: Vec<u8>)
    ensures
        v@ == frag_changed(),
{
    let mut v: Vec<u8> = Vec::new();
    v.push(95u8);
    v.push(99u8);
    v.push(104u8);
    v.push(97u8);
    v.push(110u8);
    v.push(103u8);
    v.push(101u8);
    v.push(100u8);
    proof { assert(v@ =~= frag_changed()); }
    v
}

/// Bytes of `bind_`.
pub open spec fn frag_bind() -> Seq<u8> {
    seq![98u8, 105u8, 110u8, 100u8, 95u8]
}

/// Bytes of `bind_`.
pub fn frag_bind_bytes() -> (v: Vec<u8>)
    ensures
        v@ == frag_bind(),
{
    let mut v: Vec<u8> = Vec::new();
    v.push(98u8);
    v.push(105u8);
    v.push(110u8);
    v.push(100u8);
    v.push(95u8);
    proof { assert(v@ =~= frag_bind()); }
    v
}

/// Bytes of `create_`.
pub open spec fn frag_create() -> Seq<u8> {
    seq![99u8, 114u8, 101u8, 97u8, 116u8, 101u8, 95u8]
}

/// Bytes of `create_`.
pub fn frag_create_bytes() -> (v: Vec<u8>)
    ensures
        v@ == frag_create(),
{
    let mut v: Vec<u8> = Vec::new();
    v.push(99u8);
    v.push(114u8);
    v.push(101u8);
    v.push(97u8);
    v.push(116u8);
    v.push(101u8);
    v.push(95u8);
    proof { assert(v@ =~= frag_create()); }
    v
}

/// Bytes of `_action`.
pub open spec fn frag_action() -> Seq<u8> {
    seq![95u8, 97u8, 99u8, 116u8, 105u8, 111u8, 110u8]
}

/// Bytes of `_action`.
pub fn frag_action_bytes() -> (v: Vec<u8>)
    ensures
        v@ == frag_action(),
{
    let mut v: Vec<u8> = Vec::new();
    v.push(95u8);
    v.push(97u8);
    v.push(99u8);
    v.push(116u8);
    v.push(105u8);
    v.push(111u8);
    v.push(110u8);
    proof { assert(v@ =~= frag_action()); }
    v
}

} // verus!
