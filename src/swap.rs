use vstd::prelude::*;

use crate::descriptor::{
    extract, Descriptor, Fields, FieldsModel, GenError, RecordDescriptor, Shape, TypeDeclaration,
};
use crate::text::{decimal, index_literal};

verus! {

/// The initializer of the named field `n`: the field's value with the
/// transform applied to it.
pub open spec fn named_init(n: Seq<char>) -> Seq<char> {
    n + ": crate::endianness::SwapEndian::swap_endian(self."@ + n + "),"@
}

/// The initializers of the named fields `names`, in order.
pub open spec fn named_inits(names: Seq<Seq<char>>) -> Seq<char>
    decreases names.len(),
{
    if names.len() == 0 {
        Seq::empty()
    } else {
        named_inits(names.drop_last()) + named_init(names.last())
    }
}

/// The initializer of position `i`.
pub open spec fn positional_init(i: nat) -> Seq<char> {
    "crate::endianness::SwapEndian::swap_endian(self."@ + decimal(i) + "),"@
}

/// The initializers of positions `0..n`, in order.
pub open spec fn positional_inits(n: nat) -> Seq<char>
    decreases n,
{
    if n == 0 {
        Seq::empty()
    } else {
        positional_inits((n - 1) as nat) + positional_init((n - 1) as nat)
    }
}

/// What follows `Self` in the rebuilt value.
pub open spec fn swap_body(f: FieldsModel) -> Seq<char> {
    match f {
        FieldsModel::Named(names) => " {"@ + named_inits(names) + "}"@,
        FieldsModel::Positional(n) => "("@ + positional_inits(n) + ")"@,
        FieldsModel::Unit => Seq::empty(),
    }
}

/// The implementation block of the byte-order transform for the record
/// `name` with fields `f`.
pub open spec fn swap_impl_text(name: Seq<char>, f: FieldsModel) -> Seq<char> {
    "impl crate::endianness::SwapEndian for "@ + name
        + " { fn swap_endian(self) -> Self { Self"@ + swap_body(f) + " } }"@
}

/// Emits the byte-order transform for a record: the record rebuilt with
/// every field replaced by the transform of its current value, named fields
/// by name and positional fields in position order.
pub fn generate_swap(record: &RecordDescriptor) -> (r: String)
    ensures
        r@ == swap_impl_text(record.name@, record.fields@),
{
    let mut out = String::from_str("impl crate::endianness::SwapEndian for ");
    out.append(record.name.as_str());
    out.append(" { fn swap_endian(self) -> Self { Self");
    let ghost head = out@;
    match &record.fields {
        Fields::Named(names) => {
            out.append(" {");
            let mut i: usize = 0;
            while i < names.len()
                invariant
                    i <= names.len(),
                    out@ == head + " {"@ + named_inits(names.deep_view().take(i as int)),
                decreases names.len() - i,
            {
                let ghost before = out@;
                let n = names[i].as_str();
                out.append(n);
                out.append(": crate::endianness::SwapEndian::swap_endian(self.");
                out.append(n);
                out.append("),");
                assert(names.deep_view().take(i + 1).drop_last() =~= names.deep_view().take(
                    i as int,
                ));
                assert(out@ =~= before + named_init(names.deep_view()[i as int]));
                i = i + 1;
            }
            assert(names.deep_view().take(i as int) =~= names.deep_view());
            out.append("}");
        },
        Fields::Positional(n) => {
            out.append("(");
            let mut i: usize = 0;
            while i < *n
                invariant
                    i <= *n,
                    out@ == head + "("@ + positional_inits(i as nat),
                decreases *n - i,
            {
                let ghost before = out@;
                let idx = index_literal(i);
                out.append("crate::endianness::SwapEndian::swap_endian(self.");
                out.append(idx.as_str());
                out.append("),");
                assert(out@ =~= before + positional_init(i as nat));
                i = i + 1;
            }
            out.append(")");
        },
        Fields::Unit => {},
    }
    out.append(" } }");
    assert(out@ =~= swap_impl_text(record.name@, record.fields@));
    out
}

/// Generates the byte-order transform for a declaration: its text when the
/// declaration is a record, and `UnsupportedKind` for any other kind.
pub fn swap_endian(decl: &TypeDeclaration) -> (r: Result<String, GenError>)
    ensures
        match decl.shape {
            Shape::Record(f) => r matches Ok(s) && s@ == swap_impl_text(decl.name@, f@),
            _ => r == Err::<String, GenError>(GenError::UnsupportedKind),
        },
{
    match &decl.shape {
        Shape::Record(_) => {},
        _ => {
            return Err(GenError::UnsupportedKind);
        },
    }
    match extract(decl) {
        Ok(Descriptor::Record(record)) => Ok(generate_swap(&record)),
        _ => Err(GenError::UnsupportedKind),
    }
}

/// A record value as the generated transform reads it: one value per field.
pub enum RecordValue<V> {
    Named(Map<Seq<char>, V>),
    Positional(Seq<V>),
    Unit,
}

/// `value` has exactly the fields `f`.
pub open spec fn fits<V>(f: FieldsModel, value: RecordValue<V>) -> bool {
    match f {
        FieldsModel::Named(names) => value matches RecordValue::Named(m) && m.dom() == names.to_set(),
        FieldsModel::Positional(n) => value matches RecordValue::Positional(s) && s.len() == n,
        FieldsModel::Unit => value is Unit,
    }
}

/// The fields set by the initializers of `names` (see [`named_inits`]):
/// each sets its field to `swap` of the field's value in `value`.
pub open spec fn named_result<V>(
    names: Seq<Seq<char>>,
    value: Map<Seq<char>, V>,
    swap: spec_fn(V) -> V,
) -> Map<Seq<char>, V>
    decreases names.len(),
{
    if names.len() == 0 {
        Map::empty()
    } else {
        named_result(names.drop_last(), value, swap).insert(
            names.last(),
            swap(value[names.last()]),
        )
    }
}

/// The positions set by the initializers of positions `0..n` (see
/// [`positional_inits`]): each holds `swap` of the value at that position.
pub open spec fn positional_result<V>(n: nat, value: Seq<V>, swap: spec_fn(V) -> V) -> Seq<V>
    decreases n,
{
    if n == 0 {
        Seq::empty()
    } else {
        positional_result((n - 1) as nat, value, swap).push(swap(value[n - 1]))
    }
}

/// What the transform emitted for fields `f` returns on `value`, where
/// `swap` is the transform of the fields' own type.
pub open spec fn transformed<V>(
    f: FieldsModel,
    value: RecordValue<V>,
    swap: spec_fn(V) -> V,
) -> RecordValue<V> {
    match f {
        FieldsModel::Named(names) => RecordValue::Named(
            named_result(names, value->Named_0, swap),
        ),
        FieldsModel::Positional(n) => RecordValue::Positional(
            positional_result(n, value->Positional_0, swap),
        ),
        FieldsModel::Unit => RecordValue::Unit,
    }
}

proof fn lemma_named_result<V>(names: Seq<Seq<char>>, value: Map<Seq<char>, V>, swap: spec_fn(V) -> V)
    ensures
        named_result(names, value, swap).dom() == names.to_set(),
        forall|k: Seq<char>|
            names.contains(k) ==> #[trigger] named_result(names, value, swap)[k] == swap(value[k]),
    decreases names.len(),
{
    if names.len() > 0 {
        let init = names.drop_last();
        lemma_named_result(init, value, swap);
        assert(names =~= init.push(names.last()));
        init.lemma_push_to_set_commute(names.last());
        assert forall|k: Seq<char>| names.contains(k) implies #[trigger] named_result(
            names,
            value,
            swap,
        )[k] == swap(value[k]) by {
            if k != names.last() {
                let j = choose|j: int| 0 <= j < names.len() && names[j] == k;
                assert(init[j] == k);
            }
        }
    } else {
        assert(names.to_set() =~= Set::empty());
    }
}

proof fn lemma_positional_result<V>(n: nat, value: Seq<V>, swap: spec_fn(V) -> V)
    ensures
        positional_result(n, value, swap).len() == n,
        forall|i: int| 0 <= i < n ==> #[trigger] positional_result(n, value, swap)[i] == swap(value[i]),
    decreases n,
{
    if n > 0 {
        lemma_positional_result((n - 1) as nat, value, swap);
    }
}

/// Applying the transform emitted for a record with named fields twice gives
/// back the value, wherever the transform of each field's value undoes itself.
pub proof fn lemma_named_transform_involutive<V>(
    names: Seq<Seq<char>>,
    value: RecordValue<V>,
    swap: spec_fn(V) -> V,
)
    requires
        fits(FieldsModel::Named(names), value),
        forall|k: Seq<char>|
            #![trigger value->Named_0[k]]
            value->Named_0.contains_key(k) ==> swap(swap(value->Named_0[k])) == value->Named_0[k],
    ensures
        transformed(
            FieldsModel::Named(names),
            transformed(FieldsModel::Named(names), value, swap),
            swap,
        ) == value,
{
    let m = value->Named_0;
    let once = named_result(names, m, swap);
    lemma_named_result(names, m, swap);
    lemma_named_result(names, once, swap);
    let twice = named_result(names, once, swap);
    assert(twice =~= m);
}

/// The transform emitted for a record with positional fields keeps their
/// order: position `i` of the result holds the transform of position `i`.
pub proof fn lemma_positional_transform_in_order<V>(
    n: nat,
    value: RecordValue<V>,
    swap: spec_fn(V) -> V,
)
    requires
        fits(FieldsModel::Positional(n), value),
    ensures
        transformed(FieldsModel::Positional(n), value, swap) matches RecordValue::Positional(s) && s.len()
            == n && forall|i: int| 0 <= i < n ==> s[i] == swap(value->Positional_0[i]),
{
    lemma_positional_result(n, value->Positional_0, swap);
}

/// A record without fields gets a transform that rebuilds the unit value
/// whatever it is given, with no initializer and so no call of a field's
/// transform.
pub proof fn lemma_unit_transform_trivial<V>(name: Seq<char>, value: RecordValue<V>, swap: spec_fn(V) -> V)
    ensures
        transformed(FieldsModel::Unit, value, swap) == RecordValue::<V>::Unit,
        swap_impl_text(name, FieldsModel::Unit) == "impl crate::endianness::SwapEndian for "@ + name
            + " { fn swap_endian(self) -> Self { Self } }"@,
{
    assert(swap_impl_text(name, FieldsModel::Unit) =~= "impl crate::endianness::SwapEndian for "@ + name
        + " { fn swap_endian(self) -> Self { Self } }"@) by {
        reveal_strlit(" { fn swap_endian(self) -> Self { Self");
        reveal_strlit(" } }");
        reveal_strlit(" { fn swap_endian(self) -> Self { Self } }");
    };
}

} // verus!
