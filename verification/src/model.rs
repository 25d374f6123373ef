//! The in-memory schema model: documents, definitions, keys, and inline
//! enumeration/flag declarations, together with their spec-level mirrors.

use vstd::prelude::*;

verus! {

/// Whether an inline value set is an enumeration (one value at a time)
/// or a flag set (bitwise-combinable values).
#[derive(Clone, Copy, Debug, PartialEq, Eq, Structural)]
pub enum ChoiceKind {
    Enumeration,
    Flags,
}

/// Spec-level mirror of [`ChoiceSet`].
pub ghost struct ChoiceSetV {
    pub kind: ChoiceKind,
    pub nicks: Seq<Seq<u8>>,
}

/// An inline enumeration or flag declaration attached to a key: the set
/// kind and the ordered nicks, in document order.
#[derive(Debug, Clone, PartialEq, Eq)]
pub struct ChoiceSet {
    pub kind: ChoiceKind,
    pub nicks: Vec<Vec<u8>>,
}

impl View for ChoiceSet {
    type V = ChoiceSetV;

    open spec fn view(&self) -> ChoiceSetV {
        ChoiceSetV { kind: self.kind, nicks: self.nicks.deep_view() }
    }
}

impl DeepView for ChoiceSet {
    type V = ChoiceSetV;

    open spec fn deep_view(&self) -> ChoiceSetV {
        self.view()
    }
}

/// Spec-level mirror of [`Key`].
pub ghost struct KeyV {
    pub name: Seq<u8>,
    pub type_code: Seq<u8>,
    pub default: Seq<u8>,
    pub summary: Option<Seq<u8>>,
    pub description: Option<Seq<u8>>,
    pub readonly: bool,
    pub choice: Option<ChoiceSetV>,
}

/// One named, typed settings entry of a schema definition.
#[derive(Debug, Clone, PartialEq, Eq)]
pub struct Key {
    /// The kebab-case key name, unique within its definition.
    pub name: Vec<u8>,
    /// The declared value-type code (`b`, `i`, `s`, `(ii)`, ...).
    pub type_code: Vec<u8>,
    /// The default value, kept in the store's textual serialization.
    pub default: Vec<u8>,
    /// Optional one-line documentation.
    pub summary: Option<Vec<u8>>,
    /// Optional long-form documentation.
    pub description: Option<Vec<u8>>,
    /// Whether the key is marked read-only.
    pub readonly: bool,
    /// Optional inline enumeration or flag declaration.
    pub choice: Option<ChoiceSet>,
}

impl View for Key {
    type V = KeyV;

    open spec fn view(&self) -> KeyV {
        KeyV {
            name: self.name@,
            type_code: self.type_code@,
            default: self.default@,
            summary: self.summary.deep_view(),
            description: self.description.deep_view(),
            readonly: self.readonly,
            choice: self.choice.deep_view(),
        }
    }
}

impl DeepView for Key {
    type V = KeyV;

    open spec fn deep_view(&self) -> KeyV {
        self.view()
    }
}

/// Spec-level mirror of [`SchemaDefinition`].
pub ghost struct SchemaDefinitionV {
    pub id: Seq<u8>,
    pub keys: Seq<KeyV>,
}

/// One schema definition: a stable identifier and its keys in document
/// order.
#[derive(Debug, Clone, PartialEq, Eq)]
pub struct SchemaDefinition {
    pub id: Vec<u8>,
    pub keys: Vec<Key>,
}

impl View for SchemaDefinition {
    type V = SchemaDefinitionV;

    open spec fn view(&self) -> SchemaDefinitionV {
        SchemaDefinitionV { id: self.id@, keys: self.keys.deep_view() }
    }
}

impl DeepView for SchemaDefinition {
    type V = SchemaDefinitionV;

    open spec fn deep_view(&self) -> SchemaDefinitionV {
        self.view()
    }
}

/// Spec-level mirror of [`SchemaDocument`].
pub ghost struct SchemaDocumentV {
    pub definitions: Seq<SchemaDefinitionV>,
}

/// A parsed schema document: its definitions in document order. A valid
/// document holds at least one definition.
#[derive(Debug, Clone, PartialEq, Eq)]
pub struct SchemaDocument {
    pub definitions: Vec<SchemaDefinition>,
}

impl View for SchemaDocument {
    type V = SchemaDocumentV;

    open spec fn view(&self) -> SchemaDocumentV {
        SchemaDocumentV { definitions: self.definitions.deep_view() }
    }
}

impl DeepView for SchemaDocument {
    type V = SchemaDocumentV;

    open spec fn deep_view(&self) -> SchemaDocumentV {
        self.view()
    }
}

} // verus!
