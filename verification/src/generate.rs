//! The accessor spec generator: one method-specification bundle per
//! non-skipped key, in document order, with deterministically derived
//! method-name fragments and the key's documentation payload.

use vstd::prelude::*;

use crate::error::{Error, ErrorV};
use crate::mapper::TypePairV;
use crate::model::{Key, KeyV, SchemaDefinition, SchemaDefinitionV};
use crate::resolve;
use crate::resolve::{Behavior, Directive, DirectiveV, ResolutionV};
use crate::text;

verus! {

broadcast use crate::text::lemma_bytes_deep_view;

/// Spec-level mirror of [`AccessorSpec`].
pub ghost struct AccessorSpecV {
    pub key_name: Seq<u8>,
    pub arg_type: Seq<u8>,
    pub ret_type: Seq<u8>,
    pub setter: Seq<u8>,
    pub try_setter: Seq<u8>,
    pub getter: Seq<u8>,
    pub connect: Seq<u8>,
    pub binder: Seq<u8>,
    pub action: Seq<u8>,
    pub summary: Option<Seq<u8>>,
    pub description: Option<Seq<u8>>,
    pub default_doc: Seq<u8>,
    pub readonly: bool,
}

/// The generated specification of one key's accessors: the resolved
/// argument and return types, the six method names derived from the key
/// name, and the documentation payload (summary, description, and the
/// default in its textual serialization). A read-only key is annotated,
/// not rejected; the emission stage decides what to do with its setters.
#[derive(Debug, Clone, PartialEq, Eq)]
pub struct AccessorSpec {
    pub key_name: Vec<u8>,
    pub arg_type: Vec<u8>,
    pub ret_type: Vec<u8>,
    pub setter: Vec<u8>,
    pub try_setter: Vec<u8>,
    pub getter: Vec<u8>,
    pub connect: Vec<u8>,
    pub binder: Vec<u8>,
    pub action: Vec<u8>,
    pub summary: Option<Vec<u8>>,
    pub description: Option<Vec<u8>>,
    pub default_doc: Vec<u8>,
    pub readonly: bool,
}

impl View for AccessorSpec {
    type V = AccessorSpecV;

    open spec fn view(&self) -> AccessorSpecV {
        AccessorSpecV {
            key_name: self.key_name@,
            arg_type: self.arg_type@,
            ret_type: self.ret_type@,
            setter: self.setter@,
            try_setter: self.try_setter@,
            getter: self.getter@,
            connect: self.connect@,
            binder: self.binder@,
            action: self.action@,
            summary: self.summary.deep_view(),
            description: self.description.deep_view(),
            default_doc: self.default_doc@,
            readonly: self.readonly,
        }
    }
}

impl DeepView for AccessorSpec {
    type V = AccessorSpecV;

    open spec fn deep_view(&self) -> AccessorSpecV {
        self.view()
    }
}

/// The bundle generated for one key with resolved types: method names are
/// derived from the snake-case form of the key name.
pub open spec fn mk_spec(k: KeyV, tp: TypePairV) -> AccessorSpecV {
    let base = text::snake_of(k.name);
    AccessorSpecV {
        key_name: k.name,
        arg_type: tp.arg,
        ret_type: tp.ret,
        setter: text::frag_set() + base,
        try_setter: text::frag_try_set() + base,
        getter: base,
        connect: text::frag_connect() + base + text::frag_changed(),
        binder: text::frag_bind() + base,
        action: text::frag_create() + base + text::frag_action(),
        summary: k.summary,
        description: k.description,
        default_doc: k.default,
        readonly: k.readonly,
    }
}

/// The generated sequence for the keys from position `i` on: skipped keys
/// are left out, the first fatal resolution error aborts everything.
pub open spec fn generate_from(keys: Seq<KeyV>, ds: Seq<DirectiveV>, i: int) -> Result<
    Seq<AccessorSpecV>,
    ErrorV,
>
    decreases keys.len() - i,
{
    if i < 0 || i >= keys.len() {
        Ok(Seq::empty())
    } else {
        match resolve::resolve_spec(keys[i], ds) {
            ResolutionV::Skip => generate_from(keys, ds, i + 1),
            ResolutionV::Generate(tp) => match generate_from(keys, ds, i + 1) {
                Ok(rest) => Ok(seq![mk_spec(keys[i], tp)] + rest),
                Err(e) => Err(e),
            },
            ResolutionV::Conflict => Err(ErrorV::ConflictingOverride { key: keys[i].name }),
            ResolutionV::Unmapped => Err(
                ErrorV::UnmappedType { key: keys[i].name, code: keys[i].type_code },
            ),
        }
    }
}

/// Spec of [`generate`].
pub open spec fn generate_spec(def: SchemaDefinitionV, ds: Seq<DirectiveV>) -> Result<
    Seq<AccessorSpecV>,
    ErrorV,
> {
    generate_from(def.keys, ds, 0)
}

/// Every generated bundle comes from some key at or after position `m`
/// whose resolution is `Generate`.
proof fn lemma_generated_from_keys(
    keys: Seq<KeyV>,
    ds: Seq<DirectiveV>,
    m: int,
    specs: Seq<AccessorSpecV>,
)
    requires
        0 <= m,
        generate_from(keys, ds, m) == Ok::<Seq<AccessorSpecV>, ErrorV>(specs),
    ensures
        forall|j: int|
            0 <= j < specs.len() ==> exists|t: int|
                m <= t < keys.len() && #[trigger] specs[j].key_name == keys[t].name
                    && resolve::resolve_spec(keys[t], ds) is Generate,
    decreases keys.len() - m,
{
    if m < keys.len() {
        match resolve::resolve_spec(keys[m], ds) {
            ResolutionV::Skip => {
                lemma_generated_from_keys(keys, ds, m + 1, specs);
                assert forall|j: int| 0 <= j < specs.len() implies exists|t: int|
                    m <= t < keys.len() && #[trigger] specs[j].key_name == keys[t].name
                        && resolve::resolve_spec(keys[t], ds) is Generate by {
                    let t0 = choose|t0: int|
                        m + 1 <= t0 < keys.len() && #[trigger] specs[j].key_name == keys[t0].name
                            && resolve::resolve_spec(keys[t0], ds) is Generate;
                    assert(m <= t0 < keys.len() && specs[j].key_name == keys[t0].name
                        && resolve::resolve_spec(keys[t0], ds) is Generate);
                }
            },
            ResolutionV::Generate(tp) => {
                match generate_from(keys, ds, m + 1) {
                    Ok(rest) => {
                        assert(specs =~= seq![mk_spec(keys[m], tp)] + rest);
                        lemma_generated_from_keys(keys, ds, m + 1, rest);
                        assert forall|j: int| 0 <= j < specs.len() implies exists|t: int|
                            m <= t < keys.len() && #[trigger] specs[j].key_name == keys[t].name
                                && resolve::resolve_spec(keys[t], ds) is Generate by {
                            if j == 0 {
                                assert(specs[0].key_name == keys[m].name
                                    && resolve::resolve_spec(keys[m], ds) is Generate);
                            } else {
                                assert(specs[j] == rest[j - 1]);
                                let t0 = choose|t0: int|
                                    m + 1 <= t0 < keys.len() && #[trigger] rest[j - 1].key_name
                                        == keys[t0].name && resolve::resolve_spec(keys[t0], ds)
                                        is Generate;
                                assert(m <= t0 < keys.len() && specs[j].key_name == keys[t0].name
                                    && resolve::resolve_spec(keys[t0], ds) is Generate);
                            }
                        }
                    },
                    Err(_) => {
                        assert(false);
                    },
                }
            },
            ResolutionV::Conflict => {},
            ResolutionV::Unmapped => {},
        }
    }
}

/// A skip directive removes its key from the generated sequence entirely:
/// in a definition with unique key names, no bundle of a successful
/// generation carries the name of a key whose resolution is `Skip`.
pub proof fn lemma_skipped_key_not_generated(
    keys: Seq<KeyV>,
    ds: Seq<DirectiveV>,
    specs: Seq<AccessorSpecV>,
    i: int,
)
    requires
        generate_from(keys, ds, 0) == Ok::<Seq<AccessorSpecV>, ErrorV>(specs),
        0 <= i < keys.len(),
        resolve::resolve_spec(keys[i], ds) is Skip,
        forall|a: int, b: int| 0 <= a < b < keys.len() ==> keys[a].name != keys[b].name,
    ensures
        forall|j: int| 0 <= j < specs.len() ==> specs[j].key_name != keys[i].name,
{
    lemma_generated_from_keys(keys, ds, 0, specs);
    assert forall|j: int| 0 <= j < specs.len() implies specs[j].key_name != keys[i].name by {
        let t = choose|t: int|
            0 <= t < keys.len() && #[trigger] specs[j].key_name == keys[t].name && resolve::resolve_spec(
                keys[t],
                ds,
            ) is Generate;
        if specs[j].key_name == keys[i].name {
            assert(keys[t].name == keys[i].name);
            assert(t == i);
        }
    }
}

/// A define directive overrides the mapper's and the registry's choice:
/// when no skip matches a key and exactly one define matches it by name,
/// the key resolves to exactly that directive's declared types, whatever
/// its type code or inline choice would have produced.
pub proof fn lemma_define_overrides(k: KeyV, ds: Seq<DirectiveV>)
    requires
        !resolve::any_skip(ds, k, true),
        !resolve::any_skip(ds, k, false),
        resolve::count_defines_from(ds, k, 0, true) == 1,
    ensures
        resolve::resolve_spec(k, ds) == ResolutionV::Generate(
            resolve::first_define_from(ds, k, 0, true)->Some_0,
        ),
{
    resolve::lemma_first_define_exists(ds, k, 0, true);
}

/// Builds the accessor bundle of one key.
fn build_spec(k: &Key, arg: Vec<u8>, ret: Vec<u8>) -> (r: AccessorSpec)
    ensures
        r@ == mk_spec(k@, TypePairV { arg: arg@, ret: ret@ }),
{
    let base = text::snake_bytes(k.name.as_slice());
    let mut setter = text::frag_set_bytes();
    text::append_bytes(&mut setter, base.as_slice());
    let mut try_setter = text::frag_try_set_bytes();
    text::append_bytes(&mut try_setter, base.as_slice());
    let mut connect = text::frag_connect_bytes();
    text::append_bytes(&mut connect, base.as_slice());
    let changed = text::frag_changed_bytes();
    text::append_bytes(&mut connect, changed.as_slice());
    let mut binder = text::frag_bind_bytes();
    text::append_bytes(&mut binder, base.as_slice());
    let mut action = text::frag_create_bytes();
    text::append_bytes(&mut action, base.as_slice());
    let tail = text::frag_action_bytes();
    text::append_bytes(&mut action, tail.as_slice());
    AccessorSpec {
        key_name: text::copy_bytes(k.name.as_slice()),
        arg_type: arg,
        ret_type: ret,
        setter,
        try_setter,
        getter: base,
        connect,
        binder,
        action,
        summary: text::copy_opt_bytes(&k.summary),
        description: text::copy_opt_bytes(&k.description),
        default_doc: text::copy_bytes(k.default.as_slice()),
        readonly: k.readonly,
    }
}

/// Generates the ordered accessor specifications of a definition under a
/// directive set: exactly the non-skipped keys, in document order, or the
/// first resolution error.
pub fn generate(def: &SchemaDefinition, ds: &Vec<Directive>) -> (r: Result<
    Vec<AccessorSpec>,
    Error,
>)
    ensures
        match r {
            Ok(specs) => generate_spec(def@, ds.deep_view()) == Ok::<Seq<AccessorSpecV>, ErrorV>(
                specs.deep_view(),
            ),
            Err(e) => generate_spec(def@, ds.deep_view()) == Err::<Seq<AccessorSpecV>, ErrorV>(
                e@,
            ),
        },
{
    let ghost keysv = def@.keys;
    let ghost dsv = ds.deep_view();
    let n = def.keys.len();
    let mut acc: Vec<AccessorSpec> = Vec::new();
    let mut i: usize = 0;
    while i < n
        invariant
            i <= n,
            n == def.keys@.len(),
            keysv == def@.keys,
            dsv == ds.deep_view(),
            keysv.len() == n,
            generate_from(keysv, dsv, 0) == match generate_from(keysv, dsv, i as int) {
                Ok(rest) => Ok::<Seq<AccessorSpecV>, ErrorV>(acc.deep_view() + rest),
                Err(e) => Err::<Seq<AccessorSpecV>, ErrorV>(e),
            },
        decreases n - i,
    {
        let ghost before = acc.deep_view();
        proof {
            assert(def.keys@[i as int]@ == keysv[i as int]);
        }
        let k = &def.keys[i];
        match resolve::resolve(k, ds) {
            Ok(Behavior::Skip) => {},
            Ok(Behavior::Generate(tp)) => {
                let ghost tpv = tp@;
                let sp = build_spec(k, tp.arg, tp.ret);
                let ghost spv = sp@;
                acc.push(sp);
                proof {
                    assert(acc.deep_view() =~= before.push(spv));
                    assert(spv == mk_spec(keysv[i as int], tpv));
                    match generate_from(keysv, dsv, i as int + 1) {
                        Ok(rest) => {
                            assert(before + (seq![spv] + rest) =~= acc.deep_view() + rest);
                        },
                        Err(_) => {},
                    }
                }
            },
            Err(e) => {
                return Err(e);
            },
        }
        i += 1;
    }
    proof {
        assert(generate_from(keysv, dsv, n as int) == Ok::<Seq<AccessorSpecV>, ErrorV>(
            Seq::empty(),
        ));
        assert(acc.deep_view() + Seq::<AccessorSpecV>::empty() =~= acc.deep_view());
    }
    Ok(acc)
}

} // verus!
