//! The override resolver: skip/define directives, their matching rules, and
//! the per-key effective behavior with its fixed precedence:
//! name-matched skip, then code-matched skip, then name-matched define, then
//! code-matched define, then the generated set type for enum-bearing keys,
//! then the mapper table. Two defines matching one key at the same level are
//! a conflict; an unsupported code with no directive is an unmapped type.

use vstd::prelude::*;

use crate::error::{Error, ErrorV};
use crate::mapper;
use crate::mapper::{TypePair, TypePairV};
use crate::model::KeyV;
use crate::model::Key;
use crate::text;

verus! {

/// Spec-level mirror of [`Selector`].
pub ghost enum SelectorV {
    KeyName(Seq<u8>),
    Signature(Seq<u8>),
}

/// How a directive picks its keys: by exact key name, or by value-type
/// code ("signature").
#[derive(Debug, Clone)]
pub enum Selector {
    KeyName(Vec<u8>),
    Signature(Vec<u8>),
}

impl View for Selector {
    type V = SelectorV;

    open spec fn view(&self) -> SelectorV {
        match self {
            Selector::KeyName(n) => SelectorV::KeyName(n@),
            Selector::Signature(c) => SelectorV::Signature(c@),
        }
    }
}

impl DeepView for Selector {
    type V = SelectorV;

    open spec fn deep_view(&self) -> SelectorV {
        self.view()
    }
}

/// Spec-level mirror of [`Directive`].
pub ghost enum DirectiveV {
    Skip { selector: SelectorV },
    Define { selector: SelectorV, arg: Seq<u8>, ret: Seq<u8> },
}

/// One user-supplied override directive.
#[derive(Debug, Clone)]
pub enum Directive {
    /// Generate nothing for the matched keys.
    Skip { selector: Selector },
    /// Generate with the given argument and return types.
    Define { selector: Selector, arg: Vec<u8>, ret: Vec<u8> },
}

impl View for Directive {
    type V = DirectiveV;

    open spec fn view(&self) -> DirectiveV {
        match self {
            Directive::Skip { selector } => DirectiveV::Skip { selector: selector@ },
            Directive::Define { selector, arg, ret } => DirectiveV::Define {
                selector: selector@,
                arg: arg@,
                ret: ret@,
            },
        }
    }
}

impl DeepView for Directive {
    type V = DirectiveV;

    open spec fn deep_view(&self) -> DirectiveV {
        self.view()
    }
}

/// The effective behavior resolved for one key.
#[derive(Debug, Clone)]
pub enum Behavior {
    /// The key is left out of the generated surface.
    Skip,
    /// An accessor bundle is generated with these types.
    Generate(TypePair),
}

/// The four-way outcome of resolution, before errors are materialized.
pub ghost enum ResolutionV {
    Skip,
    Generate(TypePairV),
    Conflict,
    Unmapped,
}

/// Whether a selector picks a key, at the given matching level.
pub open spec fn sel_applies(sel: SelectorV, k: KeyV, by_name: bool) -> bool {
    match sel {
        SelectorV::KeyName(n) => by_name && n == k.name,
        SelectorV::Signature(c) => !by_name && c == k.type_code,
    }
}

/// Whether a skip directive picks a key at the given level.
pub open spec fn skip_applies(d: DirectiveV, k: KeyV, by_name: bool) -> bool {
    match d {
        DirectiveV::Skip { selector } => sel_applies(selector, k, by_name),
        DirectiveV::Define { .. } => false,
    }
}

/// Whether a define directive picks a key at the given level.
pub open spec fn define_applies(d: DirectiveV, k: KeyV, by_name: bool) -> bool {
    match d {
        DirectiveV::Skip { .. } => false,
        DirectiveV::Define { selector, .. } => sel_applies(selector, k, by_name),
    }
}

/// The types a define directive carries.
pub open spec fn define_types(d: DirectiveV) -> TypePairV {
    match d {
        DirectiveV::Define { arg, ret, .. } => TypePairV { arg, ret },
        DirectiveV::Skip { .. } => TypePairV { arg: Seq::empty(), ret: Seq::empty() },
    }
}

/// Some skip directive picks the key at the given level.
pub open spec fn any_skip(ds: Seq<DirectiveV>, k: KeyV, by_name: bool) -> bool {
    exists|j: int| 0 <= j < ds.len() && skip_applies(ds[j], k, by_name)
}

/// How many define directives pick the key at the given level, counting
/// from position `i`.
pub open spec fn count_defines_from(ds: Seq<DirectiveV>, k: KeyV, i: int, by_name: bool) -> nat
    decreases ds.len() - i,
{
    if i < 0 || i >= ds.len() {
        0
    } else {
        (if define_applies(ds[i], k, by_name) {
            1nat
        } else {
            0nat
        }) + count_defines_from(ds, k, i + 1, by_name)
    }
}

/// The first define directive picking the key at the given level, from `i`.
pub open spec fn first_define_from(ds: Seq<DirectiveV>, k: KeyV, i: int, by_name: bool) -> Option<
    TypePairV,
>
    decreases ds.len() - i,
{
    if i < 0 || i >= ds.len() {
        None
    } else if define_applies(ds[i], k, by_name) {
        Some(define_types(ds[i]))
    } else {
        first_define_from(ds, k, i + 1, by_name)
    }
}

/// The resolver's outcome for one key under a directive set. This is the
/// reference semantics: a name-level skip wins over everything, then a
/// code-level skip, then defines (name level before code level, two at one
/// level being a conflict), then the generated set type for a key carrying
/// an inline choice, then the mapper table.
pub open spec fn resolve_spec(k: KeyV, ds: Seq<DirectiveV>) -> ResolutionV {
    if any_skip(ds, k, true) {
        ResolutionV::Skip
    } else if any_skip(ds, k, false) {
        ResolutionV::Skip
    } else if count_defines_from(ds, k, 0, true) >= 2 {
        ResolutionV::Conflict
    } else if count_defines_from(ds, k, 0, true) == 1 {
        match first_define_from(ds, k, 0, true) {
            Some(tp) => ResolutionV::Generate(tp),
            None => ResolutionV::Unmapped,
        }
    } else if count_defines_from(ds, k, 0, false) >= 2 {
        ResolutionV::Conflict
    } else if count_defines_from(ds, k, 0, false) == 1 {
        match first_define_from(ds, k, 0, false) {
            Some(tp) => ResolutionV::Generate(tp),
            None => ResolutionV::Unmapped,
        }
    } else if k.choice is Some {
        ResolutionV::Generate(
            TypePairV { arg: text::pascal_of(k.name), ret: text::pascal_of(k.name) },
        )
    } else {
        match mapper::map_code(k.type_code) {
            Some(tp) => ResolutionV::Generate(tp),
            None => ResolutionV::Unmapped,
        }
    }
}

/// A positive define count means a first define exists.
pub proof fn lemma_first_define_exists(ds: Seq<DirectiveV>, k: KeyV, i: int, by_name: bool)
    ensures
        count_defines_from(ds, k, i, by_name) > 0 <==> first_define_from(ds, k, i, by_name)
            is Some,
    decreases ds.len() - i,
{
    if 0 <= i < ds.len() {
        lemma_first_define_exists(ds, k, i + 1, by_name);
    }
}

/// Exec: does a skip directive pick the key at this level?
fn scan_skip(ds: &Vec<Directive>, k: &Key, by_name: bool) -> (r: bool)
    ensures
        r == any_skip(ds.deep_view(), k@, by_name),
{
    let ghost dv = ds.deep_view();
    let mut j: usize = 0;
    while j < ds.len()
        invariant
            j <= ds@.len(),
            dv == ds.deep_view(),
            dv.len() == ds@.len(),
            forall|m: int| 0 <= m < j ==> !skip_applies(dv[m], k@, by_name),
        decreases ds@.len() - j,
    {
        let matched = match &ds[j] {
            Directive::Skip { selector } => match selector {
                Selector::KeyName(n) => by_name && text::bytes_eq(n.as_slice(), k.name.as_slice()),
                Selector::Signature(c) => !by_name && text::bytes_eq(
                    c.as_slice(),
                    k.type_code.as_slice(),
                ),
            },
            Directive::Define { .. } => false,
        };
        proof {
            assert(dv[j as int] == ds@[j as int].deep_view());
        }
        if matched {
            return true;
        }
        j += 1;
    }
    false
}

/// Exec: how many defines pick the key at this level, and the first one.
fn scan_defines(ds: &Vec<Directive>, k: &Key, by_name: bool) -> (r: (usize, Option<TypePair>))
    ensures
        r.0 as nat == count_defines_from(ds.deep_view(), k@, 0, by_name),
        r.1.deep_view() == first_define_from(ds.deep_view(), k@, 0, by_name),
{
    let ghost dv = ds.deep_view();
    let mut j: usize = 0;
    let mut count: usize = 0;
    let mut first: Option<TypePair> = None;
    while j < ds.len()
        invariant
            j <= ds@.len(),
            dv == ds.deep_view(),
            dv.len() == ds@.len(),
            count <= j,
            count_defines_from(dv, k@, 0, by_name) == count + count_defines_from(
                dv,
                k@,
                j as int,
                by_name,
            ),
            first_define_from(dv, k@, 0, by_name) == match first {
                Some(tp) => Some(tp@),
                None => first_define_from(dv, k@, j as int, by_name),
            },
            (first is Some <==> count > 0),
        decreases ds@.len() - j,
    {
        let matched: Option<TypePair> = match &ds[j] {
            Directive::Define { selector, arg, ret } => {
                let sel_ok = match selector {
                    Selector::KeyName(n) => by_name && text::bytes_eq(
                        n.as_slice(),
                        k.name.as_slice(),
                    ),
                    Selector::Signature(c) => !by_name && text::bytes_eq(
                        c.as_slice(),
                        k.type_code.as_slice(),
                    ),
                };
                if sel_ok {
                    Some(TypePair { arg: text::copy_bytes(arg.as_slice()), ret: text::copy_bytes(ret.as_slice()) })
                } else {
                    None
                }
            },
            Directive::Skip { .. } => None,
        };
        proof {
            assert(dv[j as int] == ds@[j as int].deep_view());
        }
        match matched {
            Some(tp) => {
                count += 1;
                if count == 1 {
                    first = Some(tp);
                }
            },
            None => {},
        }
        j += 1;
    }
    (count, first)
}

/// Resolves the effective behavior for one key, or the error that makes
/// generation fail: `ConflictingOverride` when two defines collide at one
/// precedence level, `UnmappedType` when no directive and no table entry
/// covers the key's type code.
pub fn resolve(k: &Key, ds: &Vec<Directive>) -> (r: Result<Behavior, Error>)
    ensures
        match r {
            Ok(b) => resolve_spec(k@, ds.deep_view()) == match b {
                Behavior::Skip => ResolutionV::Skip,
                Behavior::Generate(tp) => ResolutionV::Generate(tp@),
            },
            Err(e) => match resolve_spec(k@, ds.deep_view()) {
                ResolutionV::Conflict => e@ == (ErrorV::ConflictingOverride { key: k@.name }),
                ResolutionV::Unmapped => e@ == (ErrorV::UnmappedType {
                    key: k@.name,
                    code: k@.type_code,
                }),
                _ => false,
            },
        },
{
    if scan_skip(ds, k, true) {
        return Ok(Behavior::Skip);
    }
    if scan_skip(ds, k, false) {
        return Ok(Behavior::Skip);
    }
    let (cn, dn) = scan_defines(ds, k, true);
    if cn >= 2 {
        return Err(Error::ConflictingOverride { key: text::copy_bytes(k.name.as_slice()) });
    }
    if cn == 1 {
        proof {
            lemma_first_define_exists(ds.deep_view(), k@, 0, true);
        }
        match dn {
            Some(tp) => {
                return Ok(Behavior::Generate(tp));
            },
            None => {
                proof {
                    assert(false);
                }
            },
        }
    }
    let (cc, fc) = scan_defines(ds, k, false);
    if cc >= 2 {
        return Err(Error::ConflictingOverride { key: text::copy_bytes(k.name.as_slice()) });
    }
    if cc == 1 {
        proof {
            lemma_first_define_exists(ds.deep_view(), k@, 0, false);
        }
        match fc {
            Some(tp) => {
                return Ok(Behavior::Generate(tp));
            },
            None => {
                proof {
                    assert(false);
                }
            },
        }
    }
    if k.choice.is_some() {
        let tn = text::pascal_bytes(k.name.as_slice());
        let tn2 = text::pascal_bytes(k.name.as_slice());
        return Ok(Behavior::Generate(TypePair { arg: tn, ret: tn2 }));
    }
    match mapper::map_type_code(k.type_code.as_slice()) {
        Some(tp) => Ok(Behavior::Generate(tp)),
        None => Err(
            Error::UnmappedType { key: text::copy_bytes(k.name.as_slice()), code: text::copy_bytes(k.type_code.as_slice()) },
        ),
    }
}

} // verus!
