use vstd::prelude::*;

use crate::descriptor::{
    enum_error, extract, tags_of, Descriptor, EnumDescriptor, GenError, Shape, TaggedVariant,
    TypeDeclaration, Variant,
};

verus! {

impl View for TaggedVariant {
    type V = (Seq<char>, Seq<char>);

    open spec fn view(&self) -> (Seq<char>, Seq<char>) {
        (self.name@, self.discriminant@)
    }
}

/// The (name, discriminant) pairs of tagged variants.
pub open spec fn arms_of(tvs: Seq<TaggedVariant>) -> Seq<(Seq<char>, Seq<char>)> {
    tvs.map_values(|t: TaggedVariant| t@)
}

/// The (name, discriminant) pairs of declared variants that all carry one.
pub open spec fn declared_arms(vs: Seq<Variant>) -> Seq<(Seq<char>, Seq<char>)> {
    vs.map_values(|v: Variant| (v.name@, v.discriminant->0@))
}

/// The match arm of a variant: a raw value equal to the discriminant `a.1`
/// becomes the variant `a.0`.
pub open spec fn tag_arm(a: (Seq<char>, Seq<char>)) -> Seq<char> {
    "x if x == ("@ + a.1 + ") => ::core::result::Result::Ok(Self::"@ + a.0 + "), "@
}

/// The match arms of all variants, in declaration order.
pub open spec fn tag_arms(arms: Seq<(Seq<char>, Seq<char>)>) -> Seq<char>
    decreases arms.len(),
{
    if arms.len() == 0 {
        Seq::empty()
    } else {
        tag_arms(arms.drop_last()) + tag_arm(arms.last())
    }
}

/// The implementation block of the checked conversion from the
/// representation type `repr` to the enumeration `name` with variants `arms`.
///
/// The raw input has the enumeration's own representation type, so no value
/// is narrowed or widened before it is compared.
pub open spec fn try_from_impl_text(
    name: Seq<char>,
    repr: Seq<char>,
    arms: Seq<(Seq<char>, Seq<char>)>,
) -> Seq<char> {
    "impl ::core::convert::TryFrom<"@ + repr + "> for "@ + name
        + " { type Error = (); fn try_from(value: "@ + repr
        + ") -> ::core::result::Result<Self, Self::Error> { match value { "@ + tag_arms(arms)
        + "_ => ::core::result::Result::Err(()), } } }"@
}

/// Emits the checked conversion for an enumeration: a raw value equal to a
/// declared discriminant yields that variant, any other value fails with a
/// unit error.
///
/// Each arm compares the raw value with one discriminant and names the
/// variant it belongs to, so the check and the choice of variant are a
/// single step and no raw value is ever reinterpreted.
pub fn generate_try_from(en: &EnumDescriptor) -> (r: String)
    requires
        en.variants.len() > 0,
    ensures
        r@ == try_from_impl_text(en.name@, en.repr@, arms_of(en.variants@)),
{
    let mut out = String::from_str("impl ::core::convert::TryFrom<");
    out.append(en.repr.as_str());
    out.append("> for ");
    out.append(en.name.as_str());
    out.append(" { type Error = (); fn try_from(value: ");
    out.append(en.repr.as_str());
    out.append(") -> ::core::result::Result<Self, Self::Error> { match value { ");
    let ghost head = out@;
    let ghost arms = arms_of(en.variants@);
    let mut i: usize = 0;
    while i < en.variants.len()
        invariant
            i <= en.variants.len(),
            arms == arms_of(en.variants@),
            out@ == head + tag_arms(arms.take(i as int)),
        decreases en.variants.len() - i,
    {
        let ghost before = out@;
        let v = &en.variants[i];
        out.append("x if x == (");
        out.append(v.discriminant.as_str());
        out.append(") => ::core::result::Result::Ok(Self::");
        out.append(v.name.as_str());
        out.append("), ");
        assert(arms.take(i + 1).drop_last() =~= arms.take(i as int));
        assert(out@ =~= before + tag_arm(arms[i as int]));
        i = i + 1;
    }
    assert(arms.take(i as int) =~= arms);
    out.append("_ => ::core::result::Result::Err(()), } } }");
    assert(out@ =~= try_from_impl_text(en.name@, en.repr@, arms));
    out
}

/// Generates the checked conversion for a declaration.
///
/// Fails with `UnsupportedKind` unless the declaration is an enumeration;
/// for an enumeration, with `MissingRepr`, `NoVariants` or
/// `MissingDiscriminant` as [`enum_error`] gives; otherwise returns the text.
pub fn enum_try_into(decl: &TypeDeclaration) -> (r: Result<String, GenError>)
    ensures
        match decl.shape {
            Shape::Enumeration(vs) => match enum_error(decl.repr, vs@) {
                Some(e) => r == Err::<String, GenError>(e),
                None => r matches Ok(s) && s@ == try_from_impl_text(
                    decl.name@,
                    decl.repr->0@,
                    declared_arms(vs@),
                ),
            },
            _ => r == Err::<String, GenError>(GenError::UnsupportedKind),
        },
{
    match &decl.shape {
        Shape::Enumeration(_) => {},
        _ => {
            return Err(GenError::UnsupportedKind);
        },
    }
    match extract(decl) {
        Ok(Descriptor::Enumeration(en)) => {
            proof {
                let vs = decl.shape->Enumeration_0@;
                assert(tags_of(en.variants@, vs));
                assert(arms_of(en.variants@) =~= declared_arms(vs));
            }
            Ok(generate_try_from(&en))
        },
        Ok(Descriptor::Record(_)) => Err(GenError::UnsupportedKind),
        Err(e) => Err(e),
    }
}

/// The decision the emitted conversion makes on the raw value `raw`, given
/// the values `discriminants` of the variants' discriminants in declaration
/// order: the index of the first variant whose discriminant equals `raw`, or
/// a unit error when none does.
pub fn variant_for_tag(discriminants: &Vec<i128>, raw: i128) -> (r: Result<usize, ()>)
    ensures
        match r {
            Ok(i) => i < discriminants.len() && discriminants[i as int] == raw && forall|j: int|
                0 <= j < i ==> discriminants[j] != raw,
            Err(_) => forall|j: int| 0 <= j < discriminants.len() ==> discriminants[j] != raw,
        },
{
    let mut i: usize = 0;
    while i < discriminants.len()
        invariant
            i <= discriminants.len(),
            forall|j: int| 0 <= j < i ==> discriminants[j] != raw,
        decreases discriminants.len() - i,
    {
        if discriminants[i] == raw {
            return Ok(i);
        }
        i = i + 1;
    }
    Err(())
}

} // verus!
