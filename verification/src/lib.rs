//! Schema-driven binding generator.
//!
//! Given a settings-schema document (key names, value-type codes, defaults,
//! documentation, and inline enumeration/flag sets), this library compiles a
//! deterministic sequence of accessor-method specifications that a separate
//! emission stage can turn into source text. All validation happens here:
//! malformed documents, unknown type codes, conflicting override directives,
//! duplicate keys, casing collisions inside a value set, and flag-width
//! overflow are all reported before anything is generated; the compiler is a
//! pure function of the document text and the generation request.

use vstd::prelude::*;

pub mod error;
pub mod generate;
pub mod mapper;
pub mod model;
pub mod parse;
pub mod registry;
pub mod resolve;
pub mod text;

use crate::error::{Error, ErrorV};
use crate::generate::AccessorSpec;
use crate::generate::AccessorSpecV;
use crate::model::{KeyV, SchemaDefinition, SchemaDefinitionV, SchemaDocument, SchemaDocumentV};
use crate::registry::{ValueSet, ValueSetV};
use crate::resolve::{Directive, DirectiveV};

verus! {

broadcast use crate::text::lemma_bytes_deep_view;

/// Spec-level mirror of [`GenRequest`].
pub ghost struct GenRequestV {
    pub id: Option<Seq<u8>>,
    pub directives: Seq<DirectiveV>,
}

/// A generation request: the optional schema identifier to pin, and the
/// skip/define directives. When the identifier is omitted, the document
/// must hold exactly one definition.
#[derive(Debug)]
pub struct GenRequest {
    pub id: Option<Vec<u8>>,
    pub directives: Vec<Directive>,
}

impl View for GenRequest {
    type V = GenRequestV;

    open spec fn view(&self) -> GenRequestV {
        GenRequestV { id: self.id.deep_view(), directives: self.directives.deep_view() }
    }
}

/// Spec-level mirror of [`Output`].
pub ghost struct OutputV {
    pub schema_id: Seq<u8>,
    pub sets: Seq<ValueSetV>,
    pub specs: Seq<AccessorSpecV>,
}

/// The result of one compilation: the identifier of the definition that was
/// selected (always resolved on success, which is what enables the
/// zero-argument construction path downstream), the generated value sets,
/// and the accessor specifications in document order.
#[derive(Debug, PartialEq, Eq)]
pub struct Output {
    pub schema_id: Vec<u8>,
    pub sets: Vec<ValueSet>,
    pub specs: Vec<AccessorSpec>,
}

impl View for Output {
    type V = OutputV;

    open spec fn view(&self) -> OutputV {
        OutputV {
            schema_id: self.schema_id@,
            sets: self.sets.deep_view(),
            specs: self.specs.deep_view(),
        }
    }
}

/// The first definition carrying `id`, from position `i` on.
pub open spec fn find_def_from(defs: Seq<SchemaDefinitionV>, id: Seq<u8>, i: int) -> Option<
    SchemaDefinitionV,
>
    decreases defs.len() - i,
{
    if i < 0 || i >= defs.len() {
        None
    } else if defs[i].id == id {
        Some(defs[i])
    } else {
        find_def_from(defs, id, i + 1)
    }
}

/// Which definition a request selects: a pinned identifier must match some
/// definition (`SchemaNotFound` otherwise); without one the document must
/// hold exactly one definition (`AmbiguousSchema` otherwise).
pub open spec fn select_spec(doc: SchemaDocumentV, id: Option<Seq<u8>>) -> Result<
    SchemaDefinitionV,
    ErrorV,
> {
    match id {
        Some(n) => match find_def_from(doc.definitions, n, 0) {
            Some(d) => Ok(d),
            None => Err(ErrorV::SchemaNotFound { id: n }),
        },
        None => if doc.definitions.len() == 1 {
            Ok(doc.definitions[0])
        } else {
            Err(ErrorV::AmbiguousSchema { count: doc.definitions.len() as int })
        },
    }
}

/// Whether the name of some earlier key equals `n`.
pub open spec fn name_in_prefix(keys: Seq<KeyV>, n: Seq<u8>, i: int) -> bool {
    exists|j: int| 0 <= j < i && keys[j].name == n
}

/// The first key name that repeats an earlier one, from position `i` on.
pub open spec fn first_dup_from(keys: Seq<KeyV>, i: int) -> Option<Seq<u8>>
    decreases keys.len() - i,
{
    if i < 0 || i >= keys.len() {
        None
    } else if name_in_prefix(keys, keys[i].name, i) {
        Some(keys[i].name)
    } else {
        first_dup_from(keys, i + 1)
    }
}

/// The whole pipeline as one function: parse, select the definition, check
/// key-name uniqueness, collect the value sets, and generate the accessor
/// specifications. The result is pure in the document and the request, so
/// repeated runs on unchanged input yield identical output.
pub open spec fn compile_spec(s: Seq<u8>, req: GenRequestV) -> Result<OutputV, ErrorV> {
    match parse::parse_document_spec(s) {
        None => Err(ErrorV::Parse),
        Some(doc) => match select_spec(doc, req.id) {
            Err(e) => Err(e),
            Ok(def) => match first_dup_from(def.keys, 0) {
                Some(nm) => Err(ErrorV::DuplicateKey { name: nm }),
                None => match registry::registry_spec(def) {
                    Err(e) => Err(e),
                    Ok(sets) => match generate::generate_spec(def, req.directives) {
                        Err(e) => Err(e),
                        Ok(specs) => Ok(OutputV { schema_id: def.id, sets, specs }),
                    },
                },
            },
        },
    }
}

/// Generation is deterministic: two compilations of the same document under
/// the same request always agree, so running generation twice on unchanged
/// input yields identical ordered specification sequences.
pub proof fn lemma_generation_deterministic(
    s: Seq<u8>,
    req: GenRequestV,
    r1: Result<OutputV, ErrorV>,
    r2: Result<OutputV, ErrorV>,
)
    requires
        r1 == compile_spec(s, req),
        r2 == compile_spec(s, req),
    ensures
        r1 == r2,
{
}

/// A document with exactly one definition needs no pinned identifier: the
/// definition is selected and its identifier is resolved, which enables the
/// zero-argument construction path.
pub proof fn lemma_single_definition_selected(doc: SchemaDocumentV)
    requires
        doc.definitions.len() == 1,
    ensures
        select_spec(doc, None) == Ok::<SchemaDefinitionV, ErrorV>(doc.definitions[0]),
{
}

/// A document with two or more definitions and no pinned identifier is
/// ambiguous, and reports how many definitions it holds.
pub proof fn lemma_ambiguous_without_id(doc: SchemaDocumentV)
    requires
        doc.definitions.len() >= 2,
    ensures
        select_spec(doc, None) == Err::<SchemaDefinitionV, ErrorV>(
            ErrorV::AmbiguousSchema { count: doc.definitions.len() as int },
        ),
{
}

/// Exec form of [`select_spec`]: the index of the selected definition.
pub fn select_definition(doc: &SchemaDocument, id: &Option<Vec<u8>>) -> (r: Result<usize, Error>)
    ensures
        match r {
            Ok(ix) => ix < doc@.definitions.len() && select_spec(doc@, id.deep_view())
                == Ok::<SchemaDefinitionV, ErrorV>(doc@.definitions[ix as int]),
            Err(e) => select_spec(doc@, id.deep_view()) == Err::<SchemaDefinitionV, ErrorV>(e@),
        },
{
    let ghost defsv = doc@.definitions;
    match id {
        Some(wanted) => {
            let n = doc.definitions.len();
            let mut i: usize = 0;
            while i < n
                invariant
                    i <= n,
                    n == doc.definitions@.len(),
                    defsv == doc@.definitions,
                    defsv.len() == n,
                    id.deep_view() == Some(wanted@),
                    find_def_from(defsv, wanted@, 0) == find_def_from(defsv, wanted@, i as int),
                decreases n - i,
            {
                proof {
                    assert(doc.definitions@[i as int]@ == defsv[i as int]);
                }
                if text::bytes_eq(doc.definitions[i].id.as_slice(), wanted.as_slice()) {
                    return Ok(i);
                }
                i += 1;
            }
            Err(Error::SchemaNotFound { id: text::copy_bytes(wanted.as_slice()) })
        },
        None => {
            if doc.definitions.len() == 1 {
                proof {
                    assert(doc.definitions@[0]@ == defsv[0]);
                }
                Ok(0)
            } else {
                Err(Error::AmbiguousSchema { count: doc.definitions.len() })
            }
        },
    }
}

/// Exec check that a definition declares no key name twice; returns the
/// first repeated name otherwise.
pub fn check_unique_keys(def: &SchemaDefinition) -> (r: Result<(), Error>)
    ensures
        match r {
            Ok(_) => first_dup_from(def@.keys, 0) is None,
            Err(e) => match first_dup_from(def@.keys, 0) {
                Some(nm) => e@ == (ErrorV::DuplicateKey { name: nm }),
                None => false,
            },
        },
{
    let ghost keysv = def@.keys;
    let n = def.keys.len();
    let mut i: usize = 0;
    while i < n
        invariant
            i <= n,
            n == def.keys@.len(),
            keysv == def@.keys,
            keysv.len() == n,
            first_dup_from(keysv, 0) == first_dup_from(keysv, i as int),
        decreases n - i,
    {
        let mut j: usize = 0;
        let mut hit: bool = false;
        while j < i
            invariant
                j <= i < n,
                n == def.keys@.len(),
                keysv == def@.keys,
                keysv.len() == n,
                hit ==> name_in_prefix(keysv, keysv[i as int].name, i as int),
                !hit ==> forall|t: int| 0 <= t < j ==> keysv[t].name != keysv[i as int].name,
            decreases i - j,
        {
            proof {
                assert(def.keys@[j as int]@ == keysv[j as int]);
                assert(def.keys@[i as int]@ == keysv[i as int]);
            }
            let same = text::bytes_eq(def.keys[j].name.as_slice(), def.keys[i].name.as_slice());
            if same {
                hit = true;
            }
            j += 1;
        }
        if hit {
            proof {
                assert(def.keys@[i as int]@ == keysv[i as int]);
                assert(first_dup_from(keysv, i as int) == Some(keysv[i as int].name));
            }
            return Err(
                Error::DuplicateKey { name: text::copy_bytes(def.keys[i].name.as_slice()) },
            );
        }
        proof {
            assert(!name_in_prefix(keysv, keysv[i as int].name, i as int));
        }
        i += 1;
    }
    Ok(())
}

/// Compiles a schema document under a generation request: the parsed and
/// validated definition is turned into its value sets and ordered accessor
/// specifications, or the first fatal error. The result is exactly
/// `compile_spec` of the inputs, so compilation is deterministic.
pub fn compile(s: &[u8], req: &GenRequest) -> (r: Result<Output, Error>)
    ensures
        match r {
            Ok(out) => compile_spec(s@, req@) == Ok::<OutputV, ErrorV>(out@),
            Err(e) => compile_spec(s@, req@) == Err::<OutputV, ErrorV>(e@),
        },
{
    let doc = match parse::parse_document(s) {
        Ok(doc) => doc,
        Err(e) => {
            return Err(e);
        },
    };
    let ix = match select_definition(&doc, &req.id) {
        Ok(ix) => ix,
        Err(e) => {
            return Err(e);
        },
    };
    let def = &doc.definitions[ix];
    proof {
        assert(doc.definitions@[ix as int]@ == doc@.definitions[ix as int]);
    }
    match check_unique_keys(def) {
        Ok(_u) => {},
        Err(e) => {
            return Err(e);
        },
    }
    let sets = match registry::collect_sets(def) {
        Ok(sets) => sets,
        Err(e) => {
            return Err(e);
        },
    };
    let specs = match generate::generate(def, &req.directives) {
        Ok(specs) => specs,
        Err(e) => {
            return Err(e);
        },
    };
    let schema_id = text::copy_bytes(def.id.as_slice());
    Ok(Output { schema_id, sets, specs })
}

} // verus!
