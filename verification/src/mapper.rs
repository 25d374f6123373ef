//! The type mapper: a fixed table from value-type codes to the
//! (argument-type, return-type) descriptor pair of the generated accessor.

use vstd::prelude::*;

use crate::text;

verus! {

/// Spec-level mirror of [`TypePair`].
pub ghost struct TypePairV {
    pub arg: Seq<u8>,
    pub ret: Seq<u8>,
}

/// The argument and return type descriptors of one accessor.
#[derive(Debug, Clone, PartialEq, Eq)]
pub struct TypePair {
    pub arg: Vec<u8>,
    pub ret: Vec<u8>,
}

impl View for TypePair {
    type V = TypePairV;

    open spec fn view(&self) -> TypePairV {
        TypePairV { arg: self.arg@, ret: self.ret@ }
    }
}

impl DeepView for TypePair {
    type V = TypePairV;

    open spec fn deep_view(&self) -> TypePairV {
        self.view()
    }
}

/// The fixed mapping table. `None` means the code is unsupported; a plain
/// string key that carries a choice declaration is redirected to the
/// generated set type by the override resolver, not here.
pub open spec fn map_code(code: Seq<u8>) -> Option<TypePairV> {
    if code == text::code_b() {
        Some(TypePairV { arg: text::ty_bool(), ret: text::ty_bool() })
    } else if code == text::code_i() {
        Some(TypePairV { arg: text::ty_i32(), ret: text::ty_i32() })
    } else if code == text::code_u() {
        Some(TypePairV { arg: text::ty_u32(), ret: text::ty_u32() })
    } else if code == text::code_x() {
        Some(TypePairV { arg: text::ty_i64(), ret: text::ty_i64() })
    } else if code == text::code_t() {
        Some(TypePairV { arg: text::ty_u64(), ret: text::ty_u64() })
    } else if code == text::code_d() {
        Some(TypePairV { arg: text::ty_f64(), ret: text::ty_f64() })
    } else if code == text::code_pair() {
        Some(TypePairV { arg: text::ty_pair(), ret: text::ty_pair() })
    } else if code == text::code_string_array() {
        Some(TypePairV { arg: text::ty_str_slice_array(), ret: text::ty_string_vec() })
    } else if code == text::code_s() {
        Some(TypePairV { arg: text::ty_str(), ret: text::ty_string() })
    } else {
        None
    }
}

/// The closed set of supported value-type codes.
pub open spec fn supported_code(code: Seq<u8>) -> bool {
    ||| code == text::code_b()
    ||| code == text::code_i()
    ||| code == text::code_u()
    ||| code == text::code_x()
    ||| code == text::code_t()
    ||| code == text::code_d()
    ||| code == text::code_pair()
    ||| code == text::code_string_array()
    ||| code == text::code_s()
}

/// The mapper succeeds exactly on the closed table of supported codes:
/// every supported code yields a type pair, every other code yields none.
pub proof fn lemma_map_code_total(code: Seq<u8>)
    ensures
        map_code(code) is Some <==> supported_code(code),
{
}

/// Exec form of [`map_code`].
pub fn map_type_code(code: &[u8]) -> (r: Option<TypePair>)
    ensures
        r.deep_view() == map_code(code@),
{
    if text::bytes_eq(code, text::code_b_bytes().as_slice()) {
        Some(TypePair { arg: text::ty_bool_bytes(), ret: text::ty_bool_bytes() })
    } else if text::bytes_eq(code, text::code_i_bytes().as_slice()) {
        Some(TypePair { arg: text::ty_i32_bytes(), ret: text::ty_i32_bytes() })
    } else if text::bytes_eq(code, text::code_u_bytes().as_slice()) {
        Some(TypePair { arg: text::ty_u32_bytes(), ret: text::ty_u32_bytes() })
    } else if text::bytes_eq(code, text::code_x_bytes().as_slice()) {
        Some(TypePair { arg: text::ty_i64_bytes(), ret: text::ty_i64_bytes() })
    } else if text::bytes_eq(code, text::code_t_bytes().as_slice()) {
        Some(TypePair { arg: text::ty_u64_bytes(), ret: text::ty_u64_bytes() })
    } else if text::bytes_eq(code, text::code_d_bytes().as_slice()) {
        Some(TypePair { arg: text::ty_f64_bytes(), ret: text::ty_f64_bytes() })
    } else if text::bytes_eq(code, text::code_pair_bytes().as_slice()) {
        Some(TypePair { arg: text::ty_pair_bytes(), ret: text::ty_pair_bytes() })
    } else if text::bytes_eq(code, text::code_string_array_bytes().as_slice()) {
        Some(TypePair { arg: text::ty_str_slice_array_bytes(), ret: text::ty_string_vec_bytes() })
    } else if text::bytes_eq(code, text::code_s_bytes().as_slice()) {
        Some(TypePair { arg: text::ty_str_bytes(), ret: text::ty_string_bytes() })
    } else {
        None
    }
}

} // verus!
