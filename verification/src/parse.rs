//! The schema loader's parser: a strict, whitespace-tolerant reader for the
//! XML-like schema document. The grammar is defined once as spec functions
//! (the reference semantics) and the exec parser is proved to return exactly
//! what the grammar says, or `Parse` when and only when the grammar rejects
//! the document.
//!
//! Document shape:
//!
//! ```text
//! <schemalist>
//!   <schema id="...">
//!     <key name="..." type="...">            (optionally readonly="true")
//!       <default>...</default>
//!       <summary>...</summary>              (optional)
//!       <description>...</description>      (optional)
//!       <enum> <value nick="..."/> ... </enum>    (optional, or <flags>)
//!     </key>
//!     ...
//!   </schema>
//!   ...
//! </schemalist>
//! ```

use vstd::prelude::*;

use crate::error::{Error, ErrorV};
use crate::model::{ChoiceKind, ChoiceSet, ChoiceSetV, Key, KeyV, SchemaDefinition,
    SchemaDefinitionV, SchemaDocument, SchemaDocumentV};
use crate::text;
use crate::text::{is_attr_byte, is_text_byte, is_ws, matches_at};

verus! {

broadcast use vstd::slice::axiom_spec_len;

/// First position at or after `i` that is not whitespace.
pub open spec fn ws_end(s: Seq<u8>, i: int) -> int
    decreases s.len() - i,
{
    if 0 <= i < s.len() && is_ws(s[i]) {
        ws_end(s, i + 1)
    } else {
        i
    }
}

/// First position at or after `i` that cannot be part of an attribute value.
pub open spec fn attr_end(s: Seq<u8>, i: int) -> int
    decreases s.len() - i,
{
    if 0 <= i < s.len() && is_attr_byte(s[i]) {
        attr_end(s, i + 1)
    } else {
        i
    }
}

/// First position at or after `i` that cannot be part of element text.
pub open spec fn text_end(s: Seq<u8>, i: int) -> int
    decreases s.len() - i,
{
    if 0 <= i < s.len() && is_text_byte(s[i]) {
        text_end(s, i + 1)
    } else {
        i
    }
}

/// A non-empty quoted attribute value starting at `i`; the returned
/// position is at the byte that ended the value (the caller matches the
/// closing quote as part of its following literal).
pub open spec fn parse_quoted(s: Seq<u8>, i: int) -> Option<(Seq<u8>, int)> {
    let e = attr_end(s, i);
    if 0 <= i < e {
        Some((s.subrange(i, e), e))
    } else {
        None
    }
}

/// `open` text `close`, preceded by whitespace; yields the text.
pub open spec fn parse_text_block(s: Seq<u8>, i: int, open: Seq<u8>, close: Seq<u8>) -> Option<
    (Seq<u8>, int),
> {
    let j = ws_end(s, i);
    if matches_at(s, j, open) {
        let t0 = j + open.len();
        let t1 = text_end(s, t0);
        if matches_at(s, t1, close) {
            Some((s.subrange(t0, t1), t1 + close.len()))
        } else {
            None
        }
    } else {
        None
    }
}

/// An optional text block: present exactly when the opening tag follows.
pub open spec fn parse_opt_block(s: Seq<u8>, i: int, open: Seq<u8>, close: Seq<u8>) -> Option<
    (Option<Seq<u8>>, int),
> {
    let j = ws_end(s, i);
    if matches_at(s, j, open) {
        match parse_text_block(s, i, open, close) {
            Some((t, j2)) => Some((Some(t), j2)),
            None => None,
        }
    } else {
        Some((None, i))
    }
}

/// One `<value nick="..."/>` entry; yields the nick.
pub open spec fn parse_value(s: Seq<u8>, i: int) -> Option<(Seq<u8>, int)> {
    let j = ws_end(s, i);
    if matches_at(s, j, text::value_open()) {
        let n0 = j + text::value_open().len();
        match parse_quoted(s, n0) {
            Some((nick, e)) => if matches_at(s, e, text::value_close()) {
                Some((nick, e + text::value_close().len()))
            } else {
                None
            },
            None => None,
        }
    } else {
        None
    }
}

/// Zero or more `<value .../>` entries, in document order.
pub open spec fn parse_values(s: Seq<u8>, i: int) -> Option<(Seq<Seq<u8>>, int)>
    decreases s.len() - i,
{
    let j = ws_end(s, i);
    if matches_at(s, j, text::value_open()) {
        match parse_value(s, i) {
            Some((nick, j2)) => if i < j2 <= s.len() {
                match parse_values(s, j2) {
                    Some((rest, j3)) => Some((seq![nick] + rest, j3)),
                    None => None,
                }
            } else {
                None
            },
            None => None,
        }
    } else {
        Some((Seq::empty(), i))
    }
}

/// The body of an inline set declaration: its values and closing tag.
pub open spec fn parse_set_body(s: Seq<u8>, i: int, kind: ChoiceKind, close: Seq<u8>) -> Option<
    (ChoiceSetV, int),
> {
    match parse_values(s, i) {
        Some((nicks, j2)) => if nicks.len() > 0 {
            let j3 = ws_end(s, j2);
            if matches_at(s, j3, close) {
                Some((ChoiceSetV { kind, nicks }, j3 + close.len()))
            } else {
                None
            }
        } else {
            None
        },
        None => None,
    }
}

/// An optional inline `<enum>` or `<flags>` declaration.
pub open spec fn parse_choice(s: Seq<u8>, i: int) -> Option<(Option<ChoiceSetV>, int)> {
    let j = ws_end(s, i);
    if matches_at(s, j, text::enum_open()) {
        match parse_set_body(
            s,
            j + text::enum_open().len(),
            ChoiceKind::Enumeration,
            text::enum_close(),
        ) {
            Some((cs, j2)) => Some((Some(cs), j2)),
            None => None,
        }
    } else if matches_at(s, j, text::flags_open()) {
        match parse_set_body(s, j + text::flags_open().len(), ChoiceKind::Flags,
            text::flags_close()) {
            Some((cs, j2)) => Some((Some(cs), j2)),
            None => None,
        }
    } else {
        Some((None, i))
    }
}

/// The opening `<key name="..." type="..."[ readonly="true"]>` tag; yields
/// name, type code, and the read-only mark.
pub open spec fn parse_key_head(s: Seq<u8>, i: int) -> Option<((Seq<u8>, Seq<u8>, bool), int)> {
    let j = ws_end(s, i);
    if matches_at(s, j, text::key_open()) {
        match parse_quoted(s, j + text::key_open().len()) {
            Some((name, e1)) => if matches_at(s, e1, text::type_attr()) {
                match parse_quoted(s, e1 + text::type_attr().len()) {
                    Some((code, e2)) => if matches_at(s, e2, text::readonly_tail()) {
                        Some(((name, code, true), e2 + text::readonly_tail().len()))
                    } else if matches_at(s, e2, text::quote_gt()) {
                        Some(((name, code, false), e2 + text::quote_gt().len()))
                    } else {
                        None
                    },
                    None => None,
                }
            } else {
                None
            },
            None => None,
        }
    } else {
        None
    }
}

/// The children and closing tag of one key element.
pub open spec fn parse_key_body(
    s: Seq<u8>,
    i: int,
    name: Seq<u8>,
    code: Seq<u8>,
    readonly: bool,
) -> Option<(KeyV, int)> {
    match parse_text_block(s, i, text::default_open(), text::default_close()) {
        Some((dflt, j1)) => match parse_opt_block(s, j1, text::summary_open(),
            text::summary_close()) {
            Some((summary, j2)) => match parse_opt_block(
                s,
                j2,
                text::description_open(),
                text::description_close(),
            ) {
                Some((description, j3)) => match parse_choice(s, j3) {
                    Some((choice, j4)) => {
                        let j5 = ws_end(s, j4);
                        if matches_at(s, j5, text::key_close()) {
                            Some(
                                (
                                    KeyV {
                                        name,
                                        type_code: code,
                                        default: dflt,
                                        summary,
                                        description,
                                        readonly,
                                        choice,
                                    },
                                    j5 + text::key_close().len(),
                                ),
                            )
                        } else {
                            None
                        }
                    },
                    None => None,
                },
                None => None,
            },
            None => None,
        },
        None => None,
    }
}

/// One whole `<key>` element.
pub open spec fn parse_key(s: Seq<u8>, i: int) -> Option<(KeyV, int)> {
    match parse_key_head(s, i) {
        Some(((name, code, readonly), j)) => parse_key_body(s, j, name, code, readonly),
        None => None,
    }
}

/// Zero or more `<key>` elements, in document order.
pub open spec fn parse_keys(s: Seq<u8>, i: int) -> Option<(Seq<KeyV>, int)>
    decreases s.len() - i,
{
    let j = ws_end(s, i);
    if matches_at(s, j, text::key_open()) {
        match parse_key(s, i) {
            Some((k, j2)) => if i < j2 <= s.len() {
                match parse_keys(s, j2) {
                    Some((rest, j3)) => Some((seq![k] + rest, j3)),
                    None => None,
                }
            } else {
                None
            },
            None => None,
        }
    } else {
        Some((Seq::empty(), i))
    }
}

/// One `<schema id="...">` definition with its keys.
pub open spec fn parse_schema(s: Seq<u8>, i: int) -> Option<(SchemaDefinitionV, int)> {
    let j = ws_end(s, i);
    if matches_at(s, j, text::schema_open()) {
        match parse_quoted(s, j + text::schema_open().len()) {
            Some((id, e)) => if matches_at(s, e, text::quote_gt()) {
                match parse_keys(s, e + text::quote_gt().len()) {
                    Some((keys, j2)) => {
                        let j3 = ws_end(s, j2);
                        if matches_at(s, j3, text::schema_close()) {
                            Some((SchemaDefinitionV { id, keys }, j3 + text::schema_close().len()))
                        } else {
                            None
                        }
                    },
                    None => None,
                }
            } else {
                None
            },
            None => None,
        }
    } else {
        None
    }
}

/// Zero or more `<schema>` definitions, in document order.
pub open spec fn parse_schemas(s: Seq<u8>, i: int) -> Option<(Seq<SchemaDefinitionV>, int)>
    decreases s.len() - i,
{
    let j = ws_end(s, i);
    if matches_at(s, j, text::schema_open()) {
        match parse_schema(s, i) {
            Some((d, j2)) => if i < j2 <= s.len() {
                match parse_schemas(s, j2) {
                    Some((rest, j3)) => Some((seq![d] + rest, j3)),
                    None => None,
                }
            } else {
                None
            },
            None => None,
        }
    } else {
        Some((Seq::empty(), i))
    }
}

/// The whole document: a `<schemalist>` holding at least one definition,
/// with nothing but whitespace after the closing tag.
pub open spec fn parse_document_spec(s: Seq<u8>) -> Option<SchemaDocumentV> {
    let j = ws_end(s, 0);
    if matches_at(s, j, text::schemalist_open()) {
        match parse_schemas(s, j + text::schemalist_open().len()) {
            Some((defs, j2)) => {
                let j3 = ws_end(s, j2);
                if matches_at(s, j3, text::schemalist_close()) && ws_end(
                    s,
                    j3 + text::schemalist_close().len(),
                ) == s.len() && defs.len() > 0 {
                    Some(SchemaDocumentV { definitions: defs })
                } else {
                    None
                }
            },
            None => None,
        }
    } else {
        None
    }
}

/// Exec form of `ws_end`.
pub fn skip_ws(s: &[u8], i: usize) -> (j: usize)
    requires
        i <= s@.len(),
    ensures
        j as int == ws_end(s@, i as int),
        i <= j <= s@.len(),
{
    let mut k: usize = i;
    while k < s.len() && (s[k] == 32 || s[k] == 9 || s[k] == 10 || s[k] == 13)
        invariant
            i <= k <= s@.len(),
            ws_end(s@, i as int) == ws_end(s@, k as int),
        decreases s@.len() - k,
    {
        k += 1;
    }
    k
}

/// Exec form of `attr_end`.
pub fn scan_attr(s: &[u8], i: usize) -> (j: usize)
    requires
        i <= s@.len(),
    ensures
        j as int == attr_end(s@, i as int),
        i <= j <= s@.len(),
{
    let mut k: usize = i;
    while k < s.len() && 32 <= s[k] && s[k] < 127 && s[k] != 34 && s[k] != 60 && s[k] != 62
        invariant
            i <= k <= s@.len(),
            attr_end(s@, i as int) == attr_end(s@, k as int),
        decreases s@.len() - k,
    {
        k += 1;
    }
    k
}

/// Exec form of `text_end`.
pub fn scan_text(s: &[u8], i: usize) -> (j: usize)
    requires
        i <= s@.len(),
    ensures
        j as int == text_end(s@, i as int),
        i <= j <= s@.len(),
{
    let mut k: usize = i;
    while k < s.len() && s[k] != 60 && s[k] != 0
        invariant
            i <= k <= s@.len(),
            text_end(s@, i as int) == text_end(s@, k as int),
        decreases s@.len() - k,
    {
        k += 1;
    }
    k
}

/// Exec form of `parse_quoted`.
pub fn read_quoted(s: &[u8], i: usize) -> (r: Option<(Vec<u8>, usize)>)
    requires
        i <= s@.len(),
    ensures
        match r {
            Some((v, j)) => parse_quoted(s@, i as int) == Some((v@, j as int)) && i < j <= s@.len(),
            None => parse_quoted(s@, i as int) is None,
        },
{
    let e = scan_attr(s, i);
    if i < e {
        let v = text::copy_range(s, i, e);
        Some((v, e))
    } else {
        None
    }
}

/// Exec form of `parse_text_block`.
pub fn read_text_block(s: &[u8], i: usize, open: &Vec<u8>, close: &Vec<u8>) -> (r: Option<
    (Vec<u8>, usize),
>)
    requires
        i <= s@.len(),
    ensures
        match r {
            Some((v, j)) => parse_text_block(s@, i as int, open@, close@) == Some((v@, j as int))
                && i <= j <= s@.len(),
            None => parse_text_block(s@, i as int, open@, close@) is None,
        },
{
    let n = s.len();
    let j = skip_ws(s, i);
    if text::match_lit(s, j, open) {
        proof {
            assert(j + open@.len() <= n);
        }
        let t0 = j + open.len();
        let t1 = scan_text(s, t0);
        if text::match_lit(s, t1, close) {
            let v = text::copy_range(s, t0, t1);
            Some((v, t1 + close.len()))
        } else {
            None
        }
    } else {
        None
    }
}

/// Exec form of `parse_opt_block`.
pub fn read_opt_block(s: &[u8], i: usize, open: &Vec<u8>, close: &Vec<u8>) -> (r: Option<
    (Option<Vec<u8>>, usize),
>)
    requires
        i <= s@.len(),
    ensures
        match r {
            Some((v, j)) => parse_opt_block(s@, i as int, open@, close@) == Some(
                (v.deep_view(), j as int),
            ) && i <= j <= s@.len(),
            None => parse_opt_block(s@, i as int, open@, close@) is None,
        },
{
    let j = skip_ws(s, i);
    if text::match_lit(s, j, open) {
        match read_text_block(s, i, open, close) {
            Some((t, j2)) => {
                proof {
                    assert(t.deep_view() =~= t@);
                }
                Some((Some(t), j2))
            },
            None => None,
        }
    } else {
        Some((None, i))
    }
}

/// Exec form of `parse_value`.
pub fn read_value(s: &[u8], i: usize) -> (r: Option<(Vec<u8>, usize)>)
    requires
        i <= s@.len(),
    ensures
        match r {
            Some((v, j)) => parse_value(s@, i as int) == Some((v@, j as int)) && i <= j <= s@.len(),
            None => parse_value(s@, i as int) is None,
        },
{
    let n = s.len();
    let j = skip_ws(s, i);
    let open = text::value_open_bytes();
    if text::match_lit(s, j, &open) {
        let n0 = j + open.len();
        match read_quoted(s, n0) {
            Some((nick, e)) => {
                let close = text::value_close_bytes();
                if text::match_lit(s, e, &close) {
                    Some((nick, e + close.len()))
                } else {
                    None
                }
            },
            None => None,
        }
    } else {
        None
    }
}

/// Exec form of `parse_values`.
pub fn read_values(s: &[u8], i: usize) -> (r: Option<(Vec<Vec<u8>>, usize)>)
    requires
        i <= s@.len(),
    ensures
        match r {
            Some((v, j)) => parse_values(s@, i as int) == Some((v.deep_view(), j as int)) && i <= j
                <= s@.len(),
            None => parse_values(s@, i as int) is None,
        },
    decreases s@.len() - i,
{
    let n = s.len();
    let j = skip_ws(s, i);
    let open = text::value_open_bytes();
    if text::match_lit(s, j, &open) {
        match read_value(s, i) {
            Some((nick, j2)) => if i < j2 {
                match read_values(s, j2) {
                    Some((rest0, j3)) => {
                        let ghost prev = rest0.deep_view();
                        let ghost nickv = nick@;
                        proof {
                            assert(nick.deep_view() =~= nick@);
                        }
                        let mut rest = rest0;
                        let mut out: Vec<Vec<u8>> = Vec::new();
                        out.push(nick);
                        out.append(&mut rest);
                        proof {
                            assert(out.deep_view() =~= seq![nickv] + prev);
                        }
                        Some((out, j3))
                    },
                    None => None,
                }
            } else {
                None
            },
            None => None,
        }
    } else {
        Some((Vec::new(), i))
    }
}

/// Exec form of `parse_set_body`.
pub fn read_set_body(s: &[u8], i: usize, kind: ChoiceKind, close: &Vec<u8>) -> (r: Option<
    (ChoiceSet, usize),
>)
    requires
        i <= s@.len(),
    ensures
        match r {
            Some((cs, j)) => parse_set_body(s@, i as int, kind, close@) == Some((cs@, j as int))
                && i <= j <= s@.len(),
            None => parse_set_body(s@, i as int, kind, close@) is None,
        },
{
    let n = s.len();
    match read_values(s, i) {
        Some((nicks, j2)) => if nicks.len() > 0 {
            let j3 = skip_ws(s, j2);
            if text::match_lit(s, j3, close) {
                Some((ChoiceSet { kind, nicks }, j3 + close.len()))
            } else {
                None
            }
        } else {
            None
        },
        None => None,
    }
}

/// Exec form of `parse_choice`.
pub fn read_choice(s: &[u8], i: usize) -> (r: Option<(Option<ChoiceSet>, usize)>)
    requires
        i <= s@.len(),
    ensures
        match r {
            Some((cs, j)) => parse_choice(s@, i as int) == Some((cs.deep_view(), j as int)) && i
                <= j <= s@.len(),
            None => parse_choice(s@, i as int) is None,
        },
{
    let n = s.len();
    let j = skip_ws(s, i);
    let eopen = text::enum_open_bytes();
    let fopen = text::flags_open_bytes();
    if text::match_lit(s, j, &eopen) {
        let close = text::enum_close_bytes();
        match read_set_body(s, j + eopen.len(), ChoiceKind::Enumeration, &close) {
            Some((cs, j2)) => Some((Some(cs), j2)),
            None => None,
        }
    } else if text::match_lit(s, j, &fopen) {
        let close = text::flags_close_bytes();
        match read_set_body(s, j + fopen.len(), ChoiceKind::Flags, &close) {
            Some((cs, j2)) => Some((Some(cs), j2)),
            None => None,
        }
    } else {
        Some((None, i))
    }
}

/// Exec form of `parse_key_head`.
pub fn read_key_head(s: &[u8], i: usize) -> (r: Option<((Vec<u8>, Vec<u8>, bool), usize)>)
    requires
        i <= s@.len(),
    ensures
        match r {
            Some(((name, code, ro), j)) => parse_key_head(s@, i as int) == Some(
                ((name@, code@, ro), j as int),
            ) && i <= j <= s@.len(),
            None => parse_key_head(s@, i as int) is None,
        },
{
    let n = s.len();
    let j = skip_ws(s, i);
    let open = text::key_open_bytes();
    if text::match_lit(s, j, &open) {
        match read_quoted(s, j + open.len()) {
            Some((name, e1)) => {
                let tattr = text::type_attr_bytes();
                if text::match_lit(s, e1, &tattr) {
                    match read_quoted(s, e1 + tattr.len()) {
                        Some((code, e2)) => {
                            let ro_tail = text::readonly_tail_bytes();
                            let qgt = text::quote_gt_bytes();
                            if text::match_lit(s, e2, &ro_tail) {
                                Some(((name, code, true), e2 + ro_tail.len()))
                            } else if text::match_lit(s, e2, &qgt) {
                                Some(((name, code, false), e2 + qgt.len()))
                            } else {
                                None
                            }
                        },
                        None => None,
                    }
                } else {
                    None
                }
            },
            None => None,
        }
    } else {
        None
    }
}

/// Exec form of `parse_key_body`.
pub fn read_key_body(s: &[u8], i: usize, name: Vec<u8>, code: Vec<u8>, readonly: bool) -> (r:
    Option<(Key, usize)>)
    requires
        i <= s@.len(),
    ensures
        match r {
            Some((k, j)) => parse_key_body(s@, i as int, name@, code@, readonly) == Some(
                (k@, j as int),
            ) && i <= j <= s@.len(),
            None => parse_key_body(s@, i as int, name@, code@, readonly) is None,
        },
{
    let n = s.len();
    let dopen = text::default_open_bytes();
    let dclose = text::default_close_bytes();
    match read_text_block(s, i, &dopen, &dclose) {
        Some((dflt, j1)) => {
            let sopen = text::summary_open_bytes();
            let sclose = text::summary_close_bytes();
            match read_opt_block(s, j1, &sopen, &sclose) {
                Some((summary, j2)) => {
                    let xopen = text::description_open_bytes();
                    let xclose = text::description_close_bytes();
                    match read_opt_block(s, j2, &xopen, &xclose) {
                        Some((description, j3)) => match read_choice(s, j3) {
                            Some((choice, j4)) => {
                                let j5 = skip_ws(s, j4);
                                let kclose = text::key_close_bytes();
                                if text::match_lit(s, j5, &kclose) {
                                    let k = Key {
                                        name,
                                        type_code: code,
                                        default: dflt,
                                        summary,
                                        description,
                                        readonly,
                                        choice,
                                    };
                                    Some((k, j5 + kclose.len()))
                                } else {
                                    None
                                }
                            },
                            None => None,
                        },
                        None => None,
                    }
                },
                None => None,
            }
        },
        None => None,
    }
}

/// Exec form of `parse_key`.
pub fn read_key(s: &[u8], i: usize) -> (r: Option<(Key, usize)>)
    requires
        i <= s@.len(),
    ensures
        match r {
            Some((k, j)) => parse_key(s@, i as int) == Some((k@, j as int)) && i <= j <= s@.len(),
            None => parse_key(s@, i as int) is None,
        },
{
    match read_key_head(s, i) {
        Some(((name, code, readonly), j)) => read_key_body(s, j, name, code, readonly),
        None => None,
    }
}

/// Exec form of `parse_keys`.
pub fn read_keys(s: &[u8], i: usize) -> (r: Option<(Vec<Key>, usize)>)
    requires
        i <= s@.len(),
    ensures
        match r {
            Some((v, j)) => parse_keys(s@, i as int) == Some((v.deep_view(), j as int)) && i <= j
                <= s@.len(),
            None => parse_keys(s@, i as int) is None,
        },
    decreases s@.len() - i,
{
    let n = s.len();
    let j = skip_ws(s, i);
    let open = text::key_open_bytes();
    if text::match_lit(s, j, &open) {
        match read_key(s, i) {
            Some((k, j2)) => if i < j2 {
                match read_keys(s, j2) {
                    Some((rest0, j3)) => {
                        let ghost prev = rest0.deep_view();
                        let ghost kv = k@;
                        let mut rest = rest0;
                        let mut out: Vec<Key> = Vec::new();
                        out.push(k);
                        out.append(&mut rest);
                        proof {
                            assert(out.deep_view() =~= seq![kv] + prev);
                        }
                        Some((out, j3))
                    },
                    None => None,
                }
            } else {
                None
            },
            None => None,
        }
    } else {
        Some((Vec::new(), i))
    }
}

/// Exec form of `parse_schema`.
pub fn read_schema(s: &[u8], i: usize) -> (r: Option<(SchemaDefinition, usize)>)
    requires
        i <= s@.len(),
    ensures
        match r {
            Some((d, j)) => parse_schema(s@, i as int) == Some((d@, j as int)) && i <= j
                <= s@.len(),
            None => parse_schema(s@, i as int) is None,
        },
{
    let n = s.len();
    let j = skip_ws(s, i);
    let open = text::schema_open_bytes();
    if text::match_lit(s, j, &open) {
        match read_quoted(s, j + open.len()) {
            Some((id, e)) => {
                let qgt = text::quote_gt_bytes();
                if text::match_lit(s, e, &qgt) {
                    match read_keys(s, e + qgt.len()) {
                        Some((keys, j2)) => {
                            let j3 = skip_ws(s, j2);
                            let close = text::schema_close_bytes();
                            if text::match_lit(s, j3, &close) {
                                Some((SchemaDefinition { id, keys }, j3 + close.len()))
                            } else {
                                None
                            }
                        },
                        None => None,
                    }
                } else {
                    None
                }
            },
            None => None,
        }
    } else {
        None
    }
}

/// Exec form of `parse_schemas`.
pub fn read_schemas(s: &[u8], i: usize) -> (r: Option<(Vec<SchemaDefinition>, usize)>)
    requires
        i <= s@.len(),
    ensures
        match r {
            Some((v, j)) => parse_schemas(s@, i as int) == Some((v.deep_view(), j as int)) && i
                <= j <= s@.len(),
            None => parse_schemas(s@, i as int) is None,
        },
    decreases s@.len() - i,
{
    let n = s.len();
    let j = skip_ws(s, i);
    let open = text::schema_open_bytes();
    if text::match_lit(s, j, &open) {
        match read_schema(s, i) {
            Some((d, j2)) => if i < j2 {
                match read_schemas(s, j2) {
                    Some((rest0, j3)) => {
                        let ghost prev = rest0.deep_view();
                        let ghost dv = d@;
                        let mut rest = rest0;
                        let mut out: Vec<SchemaDefinition> = Vec::new();
                        out.push(d);
                        out.append(&mut rest);
                        proof {
                            assert(out.deep_view() =~= seq![dv] + prev);
                        }
                        Some((out, j3))
                    },
                    None => None,
                }
            } else {
                None
            },
            None => None,
        }
    } else {
        Some((Vec::new(), i))
    }
}

/// Parses a whole schema document, returning the validated model or
/// `Parse` exactly when the grammar rejects the text.
pub fn parse_document(s: &[u8]) -> (r: Result<SchemaDocument, Error>)
    ensures
        match r {
            Ok(doc) => parse_document_spec(s@) == Some(doc@),
            Err(e) => e@ == ErrorV::Parse && parse_document_spec(s@) is None,
        },
{
    let n = s.len();
    let j = skip_ws(s, 0);
    let open = text::schemalist_open_bytes();
    if text::match_lit(s, j, &open) {
        match read_schemas(s, j + open.len()) {
            Some((defs, j2)) => {
                let j3 = skip_ws(s, j2);
                let close = text::schemalist_close_bytes();
                if text::match_lit(s, j3, &close) {
                    let j4 = skip_ws(s, j3 + close.len());
                    if j4 == s.len() && defs.len() > 0 {
                        Ok(SchemaDocument { definitions: defs })
                    } else {
                        Err(Error::Parse)
                    }
                } else {
                    Err(Error::Parse)
                }
            },
            None => Err(Error::Parse),
        }
    } else {
        Err(Error::Parse)
    }
}

} // verus!
