//! The enum/flag registry: it scans a definition for inline value sets,
//! derives the generated type name and the variant identifiers by casing
//! transformation, checks that the transformation is injective within each
//! set, and assigns stable values: ordinals from zero for enumerations, one
//! distinct bit per nick for flag sets (32 bits are available; more nicks
//! are an overflow).

use vstd::prelude::*;

use crate::error::{Error, ErrorV};
use crate::model::{ChoiceKind, ChoiceSet, ChoiceSetV, Key, SchemaDefinition, SchemaDefinitionV,
    KeyV};
use crate::text;

verus! {

broadcast use crate::text::lemma_bytes_deep_view;

/// Spec-level mirror of [`Variant`].
pub ghost struct VariantV {
    pub nick: Seq<u8>,
    pub ident: Seq<u8>,
    pub value: u64,
}

/// One entry of a generated value set: the schema nick, the generated
/// identifier, and the stable value (ordinal or single bit).
#[derive(Debug, Clone, PartialEq, Eq)]
pub struct Variant {
    pub nick: Vec<u8>,
    pub ident: Vec<u8>,
    pub value: u64,
}

impl View for Variant {
    type V = VariantV;

    open spec fn view(&self) -> VariantV {
        VariantV { nick: self.nick@, ident: self.ident@, value: self.value }
    }
}

impl DeepView for Variant {
    type V = VariantV;

    open spec fn deep_view(&self) -> VariantV {
        self.view()
    }
}

/// Spec-level mirror of [`ValueSet`].
pub ghost struct ValueSetV {
    pub key_name: Seq<u8>,
    pub type_ident: Seq<u8>,
    pub kind: ChoiceKind,
    pub variants: Seq<VariantV>,
}

/// A normalized value set generated for one enum- or flag-bearing key.
#[derive(Debug, Clone, PartialEq, Eq)]
pub struct ValueSet {
    /// The key the set was declared on.
    pub key_name: Vec<u8>,
    /// The generated type name (pascal case of the key name).
    pub type_ident: Vec<u8>,
    pub kind: ChoiceKind,
    pub variants: Vec<Variant>,
}

impl View for ValueSet {
    type V = ValueSetV;

    open spec fn view(&self) -> ValueSetV {
        ValueSetV {
            key_name: self.key_name@,
            type_ident: self.type_ident@,
            kind: self.kind,
            variants: self.variants.deep_view(),
        }
    }
}

impl DeepView for ValueSet {
    type V = ValueSetV;

    open spec fn deep_view(&self) -> ValueSetV {
        self.view()
    }
}

/// The generated identifier of a nick: pascal case for enumeration
/// variants, screaming snake case for flag constants.
pub open spec fn ident_of(kind: ChoiceKind, nick: Seq<u8>) -> Seq<u8> {
    match kind {
        ChoiceKind::Enumeration => text::pascal_of(nick),
        ChoiceKind::Flags => text::screaming_of(nick),
    }
}

/// The stable value of the entry at position `i`: the ordinal for
/// enumerations, the `i`-th bit for flags.
pub open spec fn variant_value(kind: ChoiceKind, i: int) -> u64 {
    match kind {
        ChoiceKind::Enumeration => i as u64,
        ChoiceKind::Flags => 1u64 << (i as u64),
    }
}

/// Whether the identifier of entry `i` already appears among the
/// identifiers of earlier entries.
pub open spec fn collides_before(kind: ChoiceKind, nicks: Seq<Seq<u8>>, i: int) -> bool {
    exists|j: int| 0 <= j < i && ident_of(kind, nicks[j]) == ident_of(kind, nicks[i])
}

/// The first identifier (in document order) that repeats an earlier one.
pub open spec fn first_collision_from(kind: ChoiceKind, nicks: Seq<Seq<u8>>, i: int) -> Option<
    Seq<u8>,
>
    decreases nicks.len() - i,
{
    if i < 0 || i >= nicks.len() {
        None
    } else if collides_before(kind, nicks, i) {
        Some(ident_of(kind, nicks[i]))
    } else {
        first_collision_from(kind, nicks, i + 1)
    }
}

/// Builds the value set of one choice declaration: duplicate identifiers
/// are a `DuplicateVariant` error, a flag set with more than 32 nicks is a
/// `FlagOverflow` error, and otherwise every entry gets its identifier and
/// stable value.
pub open spec fn build_set_spec(key_name: Seq<u8>, cs: ChoiceSetV) -> Result<ValueSetV, ErrorV> {
    let tn = text::pascal_of(key_name);
    match first_collision_from(cs.kind, cs.nicks, 0) {
        Some(id) => Err(ErrorV::DuplicateVariant { set: tn, ident: id }),
        None => if cs.kind is Flags && cs.nicks.len() > 32 {
            Err(ErrorV::FlagOverflow { set: tn, count: cs.nicks.len() as int })
        } else {
            Ok(
                ValueSetV {
                    key_name,
                    type_ident: tn,
                    kind: cs.kind,
                    variants: Seq::new(
                        cs.nicks.len(),
                        |i: int|
                            VariantV {
                                nick: cs.nicks[i],
                                ident: ident_of(cs.kind, cs.nicks[i]),
                                value: variant_value(cs.kind, i),
                            },
                    ),
                },
            )
        },
    }
}

/// The registry of a whole definition: the value sets of all choice-bearing
/// keys, in document order, or the first error.
pub open spec fn registry_from(keys: Seq<KeyV>, i: int) -> Result<Seq<ValueSetV>, ErrorV>
    decreases keys.len() - i,
{
    if i < 0 || i >= keys.len() {
        Ok(Seq::empty())
    } else {
        match keys[i].choice {
            None => registry_from(keys, i + 1),
            Some(cs) => match build_set_spec(keys[i].name, cs) {
                Err(e) => Err(e),
                Ok(vs) => match registry_from(keys, i + 1) {
                    Ok(rest) => Ok(seq![vs] + rest),
                    Err(e) => Err(e),
                },
            },
        }
    }
}

/// Spec of [`collect_sets`].
pub open spec fn registry_spec(def: SchemaDefinitionV) -> Result<Seq<ValueSetV>, ErrorV> {
    registry_from(def.keys, 0)
}

/// No collision from `i` onward means all identifiers from `i` are new.
proof fn lemma_no_collision_from(kind: ChoiceKind, nicks: Seq<Seq<u8>>, i: int)
    requires
        0 <= i,
        first_collision_from(kind, nicks, i) is None,
    ensures
        forall|b: int| i <= b < nicks.len() ==> !collides_before(kind, nicks, b),
    decreases nicks.len() - i,
{
    if 0 <= i < nicks.len() {
        lemma_no_collision_from(kind, nicks, i + 1);
    }
}

/// The casing transformation is injective within one built set: the
/// identifiers of a successfully built value set are pairwise distinct, so
/// two distinct nicks never produce the same generated identifier.
pub proof fn lemma_idents_injective(key_name: Seq<u8>, cs: ChoiceSetV, vs: ValueSetV)
    requires
        build_set_spec(key_name, cs) == Ok::<ValueSetV, ErrorV>(vs),
    ensures
        forall|i: int, j: int|
            0 <= i < j < vs.variants.len() ==> vs.variants[i].ident != vs.variants[j].ident,
{
    lemma_no_collision_from(cs.kind, cs.nicks, 0);
    assert forall|i: int, j: int|
        0 <= i < j < vs.variants.len() implies vs.variants[i].ident != vs.variants[j].ident by {
        assert(!collides_before(cs.kind, cs.nicks, j));
        assert(vs.variants[i].ident == ident_of(cs.kind, cs.nicks[i]));
        assert(vs.variants[j].ident == ident_of(cs.kind, cs.nicks[j]));
    }
}

/// Each nick of a built flag set gets a distinct single bit: entry `i`
/// holds exactly the `i`-th bit, and no two entries share a value.
pub proof fn lemma_flag_bits_distinct(key_name: Seq<u8>, cs: ChoiceSetV, vs: ValueSetV)
    requires
        build_set_spec(key_name, cs) == Ok::<ValueSetV, ErrorV>(vs),
        cs.kind is Flags,
    ensures
        vs.variants.len() <= 32,
        forall|i: int| 0 <= i < vs.variants.len() ==> vs.variants[i].value == 1u64 << (i as u64),
        forall|i: int, j: int|
            0 <= i < j < vs.variants.len() ==> vs.variants[i].value != vs.variants[j].value,
{
    assert(forall|i: int| 0 <= i < vs.variants.len() ==> vs.variants[i].value == 1u64 << (
    i as u64));
    assert(forall|a: u64, b: u64| a < b < 32 ==> (1u64 << a) != (1u64 << b)) by (bit_vector);
    assert forall|i: int, j: int|
        0 <= i < j < vs.variants.len() implies vs.variants[i].value != vs.variants[j].value by {
        assert((i as u64) < (j as u64) < 32);
    }
}

/// The mask of the `k` lowest bits.
pub open spec fn low_mask(k: u64) -> u64
    recommends
        k <= 63,
{
    ((1u64 << k) - 1) as u64
}

/// A well-formed flag set: flag kind, at most 32 entries, entry `i` holds
/// exactly bit `i`, and nicks are pairwise distinct. [`build_set`]
/// establishes all of it for flag declarations.
pub open spec fn flags_wf(vs: ValueSetV) -> bool {
    &&& vs.kind is Flags
    &&& vs.variants.len() <= 32
    &&& forall|i: int|
        0 <= i < vs.variants.len() ==> #[trigger] vs.variants[i].value == 1u64 << (i as u64)
    &&& forall|i: int, j: int|
        0 <= i < j < vs.variants.len() ==> vs.variants[i].nick != vs.variants[j].nick
}

/// A built flag set is well formed in the sense of [`flags_wf`].
pub proof fn lemma_built_flags_wf(key_name: Seq<u8>, cs: ChoiceSetV, vs: ValueSetV)
    requires
        build_set_spec(key_name, cs) == Ok::<ValueSetV, ErrorV>(vs),
        cs.kind is Flags,
    ensures
        flags_wf(vs),
{
    lemma_idents_injective(key_name, cs, vs);
    assert forall|i: int, j: int|
        0 <= i < j < vs.variants.len() implies vs.variants[i].nick != vs.variants[j].nick by {
        if vs.variants[i].nick == vs.variants[j].nick {
            assert(vs.variants[i].ident == vs.variants[j].ident);
        }
    }
}

/// The value carried by a nick of the set, scanning from position `i`.
pub open spec fn find_nick_from(vs: ValueSetV, nick: Seq<u8>, i: int) -> Option<u64>
    decreases vs.variants.len() - i,
{
    if i < 0 || i >= vs.variants.len() {
        None
    } else if vs.variants[i].nick == nick {
        Some(vs.variants[i].value)
    } else {
        find_nick_from(vs, nick, i + 1)
    }
}

/// The store serialization of a flag value: the nicks of its set bits, in
/// declaration order, starting at entry `i`.
pub open spec fn flag_nicks_from(vs: ValueSetV, v: u64, i: int) -> Seq<Seq<u8>>
    decreases vs.variants.len() - i,
{
    if i < 0 || i >= vs.variants.len() {
        Seq::empty()
    } else if v & vs.variants[i].value != 0 {
        seq![vs.variants[i].nick] + flag_nicks_from(vs, v, i + 1)
    } else {
        flag_nicks_from(vs, v, i + 1)
    }
}

/// Spec of [`flag_serialize`].
pub open spec fn flag_nicks_spec(vs: ValueSetV, v: u64) -> Seq<Seq<u8>> {
    flag_nicks_from(vs, v, 0)
}

/// The flag value read back from a serialized nick list: the union of the
/// named bits, or nothing if a nick is unknown.
pub open spec fn flag_value_list(vs: ValueSetV, nicks: Seq<Seq<u8>>) -> Option<u64>
    decreases nicks.len(),
{
    if nicks.len() == 0 {
        Some(0)
    } else {
        match find_nick_from(vs, nicks[0], 0) {
            Some(b) => match flag_value_list(vs, nicks.drop_first()) {
                Some(r) => Some(b | r),
                None => None,
            },
            None => None,
        }
    }
}

/// With pairwise-distinct nicks, looking up the nick of entry `i` yields
/// exactly that entry's value.
proof fn lemma_find_nick(vs: ValueSetV, i: int, j: int)
    requires
        forall|a: int, b: int|
            0 <= a < b < vs.variants.len() ==> vs.variants[a].nick != vs.variants[b].nick,
        0 <= j <= i < vs.variants.len(),
    ensures
        find_nick_from(vs, vs.variants[i].nick, j) == Some(vs.variants[i].value),
    decreases i - j,
{
    if j < i {
        lemma_find_nick(vs, i, j + 1);
    }
}

/// Round trip of the suffix from entry `i`: deserializing the serialized
/// bits at or above `i` recovers exactly those bits of `v`.
proof fn lemma_round_trip_from(vs: ValueSetV, v: u64, i: int)
    requires
        flags_wf(vs),
        0 <= i <= vs.variants.len(),
        v & low_mask(vs.variants.len() as u64) == v,
    ensures
        flag_value_list(vs, flag_nicks_from(vs, v, i)) == Some((v & !low_mask(i as u64)) as u64),
    decreases vs.variants.len() - i,
{
    let n = vs.variants.len() as int;
    let nu = vs.variants.len() as u64;
    let iu = i as u64;
    if i >= n {
        assert(v & !low_mask(iu) == 0) by (bit_vector)
            requires
                iu <= 32,
                v & low_mask(iu) == v,
        ;
    } else {
        lemma_round_trip_from(vs, v, i + 1);
        let rest = flag_nicks_from(vs, v, i + 1);
        if v & vs.variants[i].value != 0 {
            let whole = seq![vs.variants[i].nick] + rest;
            assert(whole.drop_first() =~= rest);
            assert(whole[0] == vs.variants[i].nick);
            lemma_find_nick(vs, i, 0);
            assert(((1u64 << iu) | ((v & !low_mask((iu + 1) as u64)) as u64)) == (v & !low_mask(
                iu,
            )) as u64) by (bit_vector)
                requires
                    iu < 32,
                    v & (1u64 << iu) != 0,
            ;
        } else {
            assert(((v & !low_mask((iu + 1) as u64)) as u64) == (v & !low_mask(iu)) as u64)
                by (bit_vector)
                requires
                    iu < 32,
                    v & (1u64 << iu) == 0,
            ;
        }
    }
}

/// Round trip of flag serialization: any union of a well-formed flag set's
/// bits, serialized to its nick list and read back, is recovered exactly.
/// In particular the bitwise union of two flag values survives the trip.
pub proof fn lemma_flag_round_trip(vs: ValueSetV, v: u64)
    requires
        flags_wf(vs),
        v & low_mask(vs.variants.len() as u64) == v,
    ensures
        flag_value_list(vs, flag_nicks_spec(vs, v)) == Some(v),
{
    lemma_round_trip_from(vs, v, 0);
    assert((v & !low_mask(0u64)) as u64 == v) by (bit_vector);
}

/// The bitwise union of two flag values of a well-formed set survives the
/// serialization round trip.
pub proof fn lemma_flag_union_round_trip(vs: ValueSetV, a: u64, b: u64)
    requires
        flags_wf(vs),
        a & low_mask(vs.variants.len() as u64) == a,
        b & low_mask(vs.variants.len() as u64) == b,
    ensures
        flag_value_list(vs, flag_nicks_spec(vs, a | b)) == Some(a | b),
{
    let m = low_mask(vs.variants.len() as u64);
    assert((a | b) & m == (a | b)) by (bit_vector)
        requires
            a & m == a,
            b & m == b,
    ;
    lemma_flag_round_trip(vs, a | b);
}

/// Exec form of [`find_nick_from`].
fn find_nick(vs: &ValueSet, nick: &[u8]) -> (r: Option<u64>)
    ensures
        r == find_nick_from(vs@, nick@, 0),
{
    let ghost vsv = vs@;
    let n = vs.variants.len();
    let mut i: usize = 0;
    while i < n
        invariant
            i <= n,
            n == vs.variants@.len(),
            vsv == vs@,
            vsv.variants.len() == n,
            find_nick_from(vsv, nick@, 0) == find_nick_from(vsv, nick@, i as int),
        decreases n - i,
    {
        proof {
            assert(vs.variants@[i as int]@ == vsv.variants[i as int]);
        }
        if text::bytes_eq(vs.variants[i].nick.as_slice(), nick) {
            return Some(vs.variants[i].value);
        }
        i += 1;
    }
    None
}

/// Serializes a flag value to the store representation: the nicks of its
/// set bits, in declaration order.
pub fn flag_serialize(vs: &ValueSet, v: u64) -> (r: Vec<Vec<u8>>)
    ensures
        r.deep_view() == flag_nicks_spec(vs@, v),
{
    flag_serialize_from(vs, v, 0)
}

/// Serialization of the entries at or above position `i`.
fn flag_serialize_from(vs: &ValueSet, v: u64, i: usize) -> (r: Vec<Vec<u8>>)
    requires
        i <= vs@.variants.len(),
    ensures
        r.deep_view() == flag_nicks_from(vs@, v, i as int),
    decreases vs@.variants.len() - i,
{
    let n = vs.variants.len();
    if i >= n {
        let out: Vec<Vec<u8>> = Vec::new();
        proof {
            assert(out.deep_view() =~= flag_nicks_from(vs@, v, i as int));
        }
        out
    } else {
        proof {
            assert(vs.variants@[i as int]@ == vs@.variants[i as int]);
        }
        let rest = flag_serialize_from(vs, v, i + 1);
        if v & vs.variants[i].value != 0 {
            let ghost prev = rest.deep_view();
            let nick = text::copy_bytes(vs.variants[i].nick.as_slice());
            let ghost nickv = nick@;
            let mut out: Vec<Vec<u8>> = Vec::new();
            out.push(nick);
            let mut tail = rest;
            out.append(&mut tail);
            proof {
                assert(out.deep_view() =~= seq![nickv] + prev);
            }
            out
        } else {
            rest
        }
    }
}

/// Reads a serialized nick list back to the flag value: the union of the
/// named bits, or nothing if some nick does not belong to the set.
pub fn flag_deserialize(vs: &ValueSet, nicks: &Vec<Vec<u8>>) -> (r: Option<u64>)
    ensures
        r == flag_value_list(vs@, nicks.deep_view()),
{
    let r = flag_deserialize_from(vs, nicks, 0);
    proof {
        assert(nicks.deep_view().skip(0) =~= nicks.deep_view());
    }
    r
}

/// Deserialization of the list entries at or above position `i`.
fn flag_deserialize_from(vs: &ValueSet, nicks: &Vec<Vec<u8>>, i: usize) -> (r: Option<u64>)
    requires
        i <= nicks@.len(),
    ensures
        r == flag_value_list(vs@, nicks.deep_view().skip(i as int)),
    decreases nicks@.len() - i,
{
    let n = nicks.len();
    if i >= n {
        proof {
            assert(nicks.deep_view().skip(i as int) =~= Seq::<Seq<u8>>::empty());
        }
        Some(0)
    } else {
        proof {
            assert(nicks.deep_view().skip(i as int).drop_first() =~= nicks.deep_view().skip(
                i as int + 1,
            ));
            assert(nicks.deep_view().skip(i as int)[0] == nicks@[i as int]@);
        }
        match find_nick(vs, nicks[i].as_slice()) {
            Some(b) => match flag_deserialize_from(vs, nicks, i + 1) {
                Some(r) => Some(b | r),
                None => None,
            },
            None => None,
        }
    }
}

/// Exec form of [`build_set_spec`].
pub fn build_set(key_name: &[u8], cs: &ChoiceSet) -> (r: Result<ValueSet, Error>)
    ensures
        match r {
            Ok(vs) => build_set_spec(key_name@, cs@) == Ok::<ValueSetV, ErrorV>(vs@),
            Err(e) => build_set_spec(key_name@, cs@) == Err::<ValueSetV, ErrorV>(e@),
        },
{
    let ghost nicksv = cs@.nicks;
    let n = cs.nicks.len();
    let tn = text::pascal_bytes(key_name);

    // Derive every identifier first.
    let mut idents: Vec<Vec<u8>> = Vec::new();
    let mut m: usize = 0;
    while m < n
        invariant
            m <= n,
            n == cs.nicks@.len(),
            nicksv == cs@.nicks,
            nicksv.len() == n,
            idents.deep_view().len() == m,
            forall|t: int| 0 <= t < m ==> idents.deep_view()[t] == ident_of(cs.kind, nicksv[t]),
        decreases n - m,
    {
        let ghost before = idents.deep_view();
        let id = match cs.kind {
            ChoiceKind::Enumeration => text::pascal_bytes(cs.nicks[m].as_slice()),
            ChoiceKind::Flags => text::screaming_bytes(cs.nicks[m].as_slice()),
        };
        proof {
            assert(cs.nicks@[m as int]@ == nicksv[m as int]);
        }
        idents.push(id);
        proof {
            assert(idents.deep_view() =~= before.push(ident_of(cs.kind, nicksv[m as int])));
        }
        m += 1;
    }

    // Find the first identifier collision, in document order.
    let mut i: usize = 0;
    while i < n
        invariant
            i <= n,
            n == cs.nicks@.len(),
            nicksv == cs@.nicks,
            nicksv.len() == n,
            tn@ == text::pascal_of(key_name@),
            idents@.len() == n,
            idents.deep_view().len() == n,
            forall|t: int| 0 <= t < n ==> idents.deep_view()[t] == ident_of(cs.kind, nicksv[t]),
            first_collision_from(cs.kind, nicksv, 0) == first_collision_from(
                cs.kind,
                nicksv,
                i as int,
            ),
        decreases n - i,
    {
        let mut j: usize = 0;
        let mut hit: bool = false;
        while j < i
            invariant
                j <= i < n,
                nicksv.len() == n,
                idents@.len() == n,
                idents.deep_view().len() == n,
                forall|t: int| 0 <= t < n ==> idents.deep_view()[t] == ident_of(
                    cs.kind,
                    nicksv[t],
                ),
                hit ==> collides_before(cs.kind, nicksv, i as int),
                !hit ==> forall|t: int|
                    0 <= t < j ==> ident_of(cs.kind, nicksv[t]) != ident_of(
                        cs.kind,
                        nicksv[i as int],
                    ),
            decreases i - j,
        {
            proof {
                assert(idents.deep_view()[j as int] == idents@[j as int].deep_view());
                assert(idents.deep_view()[i as int] == idents@[i as int].deep_view());
            }
            let same = text::bytes_eq(idents[j].as_slice(), idents[i].as_slice());
            if same {
                hit = true;
                proof {
                    assert(ident_of(cs.kind, nicksv[j as int]) == ident_of(
                        cs.kind,
                        nicksv[i as int],
                    ));
                }
            }
            j += 1;
        }
        if hit {
            proof {
                assert(idents.deep_view()[i as int] == idents@[i as int].deep_view());
                assert(first_collision_from(cs.kind, nicksv, i as int) == Some(
                    ident_of(cs.kind, nicksv[i as int]),
                ));
                assert(build_set_spec(key_name@, cs@) == Err::<ValueSetV, ErrorV>(
                    ErrorV::DuplicateVariant {
                        set: text::pascal_of(key_name@),
                        ident: ident_of(cs.kind, nicksv[i as int]),
                    },
                ));
            }
            let ident = text::copy_bytes(idents[i].as_slice());
            return Err(Error::DuplicateVariant { set: tn, ident });
        }
        proof {
            assert(!collides_before(cs.kind, nicksv, i as int));
        }
        i += 1;
    }
    proof {
        assert(first_collision_from(cs.kind, nicksv, n as int) is None);
    }

    // Flag sets are limited by the underlying 32-bit width.
    if matches!(cs.kind, ChoiceKind::Flags) && n > 32 {
        return Err(Error::FlagOverflow { set: tn, count: n });
    }

    // Assign stable values.
    let mut variants: Vec<Variant> = Vec::new();
    let mut t: usize = 0;
    while t < n
        invariant
            t <= n,
            n == cs.nicks@.len(),
            nicksv == cs@.nicks,
            nicksv.len() == n,
            matches!(cs.kind, ChoiceKind::Flags) ==> n <= 32,
            variants.deep_view().len() == t,
            forall|m2: int| 0 <= m2 < t ==> variants.deep_view()[m2] == (VariantV {
                nick: nicksv[m2],
                ident: ident_of(cs.kind, nicksv[m2]),
                value: variant_value(cs.kind, m2),
            }),
        decreases n - t,
    {
        let ghost before = variants.deep_view();
        let nick = text::copy_bytes(cs.nicks[t].as_slice());
        let ident = match cs.kind {
            ChoiceKind::Enumeration => text::pascal_bytes(cs.nicks[t].as_slice()),
            ChoiceKind::Flags => text::screaming_bytes(cs.nicks[t].as_slice()),
        };
        let value: u64 = match cs.kind {
            ChoiceKind::Enumeration => t as u64,
            ChoiceKind::Flags => 1u64 << (t as u64),
        };
        proof {
            assert(cs.nicks@[t as int]@ == nicksv[t as int]);
        }
        variants.push(Variant { nick, ident, value });
        proof {
            assert(variants.deep_view() =~= before.push(VariantV {
                nick: nicksv[t as int],
                ident: ident_of(cs.kind, nicksv[t as int]),
                value: variant_value(cs.kind, t as int),
            }));
        }
        t += 1;
    }
    let vs = ValueSet { key_name: text::copy_bytes(key_name), type_ident: tn, kind: cs.kind,
        variants };
    proof {
        match build_set_spec(key_name@, cs@) {
            Ok(spec_vs) => {
                assert(vs@.variants =~= spec_vs.variants);
            },
            Err(_) => {
                assert(false);
            },
        }
    }
    Ok(vs)
}

/// Collects the value sets of every choice-bearing key of a definition, in
/// document order; fails with the first set that cannot be built.
pub fn collect_sets(def: &SchemaDefinition) -> (r: Result<Vec<ValueSet>, Error>)
    ensures
        match r {
            Ok(sets) => registry_spec(def@) == Ok::<Seq<ValueSetV>, ErrorV>(sets.deep_view()),
            Err(e) => registry_spec(def@) == Err::<Seq<ValueSetV>, ErrorV>(e@),
        },
{
    let ghost keysv = def@.keys;
    let n = def.keys.len();
    let mut acc: Vec<ValueSet> = Vec::new();
    let mut i: usize = 0;
    while i < n
        invariant
            i <= n,
            n == def.keys@.len(),
            keysv == def@.keys,
            keysv.len() == n,
            registry_from(keysv, 0) == match registry_from(keysv, i as int) {
                Ok(rest) => Ok::<Seq<ValueSetV>, ErrorV>(acc.deep_view() + rest),
                Err(e) => Err::<Seq<ValueSetV>, ErrorV>(e),
            },
        decreases n - i,
    {
        let ghost before = acc.deep_view();
        proof {
            assert(def.keys@[i as int]@ == keysv[i as int]);
        }
        match &def.keys[i].choice {
            None => {},
            Some(cs) => {
                match build_set(def.keys[i].name.as_slice(), cs) {
                    Ok(vs) => {
                        let ghost vsv = vs@;
                        acc.push(vs);
                        proof {
                            assert(acc.deep_view() =~= before.push(vsv));
                            match registry_from(keysv, i as int + 1) {
                                Ok(rest) => {
                                    assert(before + (seq![vsv] + rest) =~= acc.deep_view()
                                        + rest);
                                },
                                Err(_) => {},
                            }
                        }
                    },
                    Err(e) => {
                        return Err(e);
                    },
                }
            },
        }
        i += 1;
    }
    proof {
        assert(registry_from(keysv, n as int) == Ok::<Seq<ValueSetV>, ErrorV>(Seq::empty()));
        assert(acc.deep_view() + Seq::<ValueSetV>::empty() =~= acc.deep_view());
    }
    Ok(acc)
}

} // verus!
