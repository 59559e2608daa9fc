use vstd::prelude::*;

verus! {

/// The fields of a record, in declaration order.
///
/// Field types are never inspected: each is taken to support the byte-order
/// transform itself, so only names (or the number of positions) are kept.
#[derive(Debug)]
pub enum Fields {
    /// Fields with names, in declaration order.
    Named(Vec<String>),
    /// Positional fields, identified by index `0..n`; holds `n`.
    Positional(usize),
    /// No field list at all.
    Unit,
}

/// The mathematical model of [`Fields`].
pub enum FieldsModel {
    Named(Seq<Seq<char>>),
    Positional(nat),
    Unit,
}

impl View for Fields {
    type V = FieldsModel;

    open spec fn view(&self) -> FieldsModel {
        match self {
            Fields::Named(names) => FieldsModel::Named(names.deep_view()),
            Fields::Positional(n) => FieldsModel::Positional(*n as nat),
            Fields::Unit => FieldsModel::Unit,
        }
    }
}

/// One member of an enumeration, with the source text of its explicit
/// discriminant, if it declares one.
#[derive(Debug)]
pub struct Variant {
    pub name: String,
    pub discriminant: Option<String>,
}

/// What a declaration declares.
#[derive(Debug)]
pub enum Shape {
    Record(Fields),
    Enumeration(Vec<Variant>),
    /// Any other kind of declaration (a union, for one).
    Other,
}

/// A type declaration as the generators receive it.
///
/// `repr` is the integer type named by the declaration's representation
/// annotation (`u8` for `#[repr(u8)]`), when it has one.
#[derive(Debug)]
pub struct TypeDeclaration {
    pub name: String,
    pub repr: Option<String>,
    pub shape: Shape,
}

/// A record, ready for the byte-order transform generator.
#[derive(Debug)]
pub struct RecordDescriptor {
    pub name: String,
    pub fields: Fields,
}

/// A variant whose discriminant is known to be present.
#[derive(Debug)]
pub struct TaggedVariant {
    pub name: String,
    pub discriminant: String,
}

/// An enumeration, ready for the tag converter generator.
#[derive(Debug)]
pub struct EnumDescriptor {
    pub name: String,
    pub repr: String,
    pub variants: Vec<TaggedVariant>,
}

/// A declaration after extraction.
#[derive(Debug)]
pub enum Descriptor {
    Record(RecordDescriptor),
    Enumeration(EnumDescriptor),
}

/// Why a declaration cannot be given the generated implementation.
#[derive(Debug, Clone, Copy, PartialEq, Eq, Structural)]
pub enum GenError {
    /// The declaration is not of a kind the generator supports.
    UnsupportedKind,
    /// The enumeration has no integer representation annotation.
    MissingRepr,
    /// The enumeration has no variants.
    NoVariants,
    /// Some variant of the enumeration declares no discriminant.
    MissingDiscriminant,
}

/// Every variant declares a discriminant.
pub open spec fn all_tagged(vs: Seq<Variant>) -> bool {
    forall|i: int| 0 <= i < vs.len() ==> (#[trigger] vs[i]).discriminant is Some
}

/// The error an enumeration declaration with representation `repr` and
/// variants `vs` is refused with, or `None` when it is accepted.
pub open spec fn enum_error(repr: Option<String>, vs: Seq<Variant>) -> Option<GenError> {
    if repr is None {
        Some(GenError::MissingRepr)
    } else if vs.len() == 0 {
        Some(GenError::NoVariants)
    } else if !all_tagged(vs) {
        Some(GenError::MissingDiscriminant)
    } else {
        None
    }
}

/// `tvs` lists the variants `vs`, in order, each with its discriminant.
pub open spec fn tags_of(tvs: Seq<TaggedVariant>, vs: Seq<Variant>) -> bool {
    &&& tvs.len() == vs.len()
    &&& forall|i: int|
        0 <= i < vs.len() ==> {
            &&& (#[trigger] tvs[i]).name@ == vs[i].name@
            &&& vs[i].discriminant matches Some(t) && tvs[i].discriminant@ == t@
        }
}

/// `d` describes the enumeration named `name`, with representation `repr`
/// and variants `vs`.
pub open spec fn describes_enum(
    d: EnumDescriptor,
    name: Seq<char>,
    repr: Seq<char>,
    vs: Seq<Variant>,
) -> bool {
    &&& d.name@ == name
    &&& d.repr@ == repr
    &&& tags_of(d.variants@, vs)
}

fn copy_fields(f: &Fields) -> (r: Fields)
    ensures
        r@ == f@,
{
    match f {
        Fields::Named(names) => {
            let copy = names.clone();
            assert(copy.deep_view() =~= names.deep_view());
            Fields::Named(copy)
        },
        Fields::Positional(n) => Fields::Positional(*n),
        Fields::Unit => Fields::Unit,
    }
}

/// Pairs each variant with its discriminant, or fails on the first variant
/// that declares none.
fn tag_variants(vs: &Vec<Variant>) -> (r: Result<Vec<TaggedVariant>, GenError>)
    ensures
        all_tagged(vs@) ==> (r matches Ok(tvs) && tags_of(tvs@, vs@)),
        !all_tagged(vs@) ==> r == Err::<Vec<TaggedVariant>, GenError>(
            GenError::MissingDiscriminant,
        ),
{
    let mut out: Vec<TaggedVariant> = Vec::new();
    let mut i: usize = 0;
    while i < vs.len()
        invariant
            i <= vs.len(),
            all_tagged(vs@.take(i as int)),
            tags_of(out@, vs@.take(i as int)),
        decreases vs.len() - i,
    {
        match &vs[i].discriminant {
            Some(d) => {
                out.push(TaggedVariant { name: vs[i].name.clone(), discriminant: d.clone() });
            },
            None => {
                return Err(GenError::MissingDiscriminant);
            },
        }
        i = i + 1;
        assert(vs@.take(i as int) =~= vs@.take(i - 1).push(vs@[i - 1]));
    }
    assert(vs@.take(i as int) =~= vs@);
    Ok(out)
}

/// Turns a declaration into a descriptor, checking what the generators need.
///
/// A record keeps its name and fields as declared. An enumeration must name
/// its integer representation, have a variant, and give every variant a
/// discriminant, checked in that order. Any other declaration is refused.
pub fn extract(decl: &TypeDeclaration) -> (r: Result<Descriptor, GenError>)
    ensures
        match decl.shape {
            Shape::Record(f) => r matches Ok(Descriptor::Record(d)) && d.name@ == decl.name@
                && d.fields@ == f@,
            Shape::Enumeration(vs) => match enum_error(decl.repr, vs@) {
                Some(e) => r == Err::<Descriptor, GenError>(e),
                None => r matches Ok(Descriptor::Enumeration(d)) && describes_enum(
                    d,
                    decl.name@,
                    decl.repr->0@,
                    vs@,
                ),
            },
            Shape::Other => r == Err::<Descriptor, GenError>(GenError::UnsupportedKind),
        },
{
    match &decl.shape {
        Shape::Record(f) => Ok(
            Descriptor::Record(RecordDescriptor { name: decl.name.clone(), fields: copy_fields(f) }),
        ),
        Shape::Enumeration(vs) => {
            let repr = match &decl.repr {
                Some(t) => t.clone(),
                None => {
                    return Err(GenError::MissingRepr);
                },
            };
            if vs.len() == 0 {
                return Err(GenError::NoVariants);
            }
            match tag_variants(vs) {
                Ok(variants) => Ok(
                    Descriptor::Enumeration(
                        EnumDescriptor { name: decl.name.clone(), repr, variants },
                    ),
                ),
                Err(e) => Err(e),
            }
        },
        Shape::Other => Err(GenError::UnsupportedKind),
    }
}

} // verus!
