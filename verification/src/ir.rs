//! The target intermediate representation: types, expressions, statements,
//! terminators and basic blocks, together with the mathematical view of each.
//!
//! Every executable type that owns a `Vec` has a view in which the `Vec` is a
//! `Seq`; contracts throughout the crate are stated over these views.
use vstd::prelude::*;

verus! {

/// A size or an offset, in bytes.
#[derive(Clone, Copy, Debug, PartialEq, Eq, Structural)]
pub struct Size {
    pub bytes: u64,
}

/// An alignment, in bytes.
#[derive(Clone, Copy, Debug, PartialEq, Eq, Structural)]
pub struct Align {
    pub bytes: u64,
}

#[derive(Clone, Copy, Debug, PartialEq, Eq, Structural)]
pub enum Signedness {
    Unsigned,
    Signed,
}

#[derive(Clone, Copy, Debug, PartialEq, Eq, Structural)]
pub struct IntType {
    pub signed: Signedness,
    pub size: Size,
}

#[derive(Clone, Copy, Debug, PartialEq, Eq, Structural)]
pub enum Mutability {
    Mutable,
    Immutable,
}

/// What a reference or box promises of the memory it points to.
#[derive(Clone, Copy, Debug, PartialEq, Eq, Structural)]
pub struct PointeeInfo {
    pub size: Size,
    pub align: Align,
    pub inhabited: bool,
    pub freeze: bool,
}

#[derive(Clone, Copy, Debug, PartialEq, Eq, Structural)]
pub enum PtrType {
    Ref { mutbl: Mutability, pointee: PointeeInfo },
    Box { pointee: PointeeInfo },
    Raw,
    FnPtr,
}

/// A mathematical integer between `-2^128` and `2^128 - 1`.
///
/// `NonNeg(m)` stands for `m` and `Neg(m)` for `-1 - m`, so every integer in
/// range has exactly one representation and structural equality is equality
/// of the integers.
#[derive(Clone, Copy, Debug, PartialEq, Eq, Structural)]
pub enum Int {
    NonNeg(u128),
    Neg(u128),
}

impl View for Int {
    type V = int;

    open spec fn view(&self) -> int {
        match *self {
            Int::NonNeg(m) => m as int,
            Int::Neg(m) => -1 - (m as int),
        }
    }
}

impl Int {
    /// Two `Int`s with the same value are the same `Int`.
    pub proof fn lemma_view_injective(a: Int, b: Int)
        requires
            a@ == b@,
        ensures
            a == b,
    {
    }

    pub fn from_u64(n: u64) -> (r: Int)
        ensures
            r@ == n,
            r == Int::NonNeg(n as u128),
    {
        Int::NonNeg(n as u128)
    }
}

#[derive(Clone, Copy, Debug, PartialEq, Eq, Structural)]
pub struct LocalName(pub u64);

#[derive(Clone, Copy, Debug, PartialEq, Eq, Structural)]
pub struct BbName(pub u64);

#[derive(Clone, Copy, Debug, PartialEq, Eq, Structural)]
pub struct FnName(pub u64);

#[derive(Clone, Copy, Debug, PartialEq, Eq, Structural)]
pub enum CallingConvention {
    Rust,
    C,
}

/// The value that a variant writes into its tag when it is constructed.
#[derive(Clone, Copy, Debug, PartialEq, Eq, Structural)]
pub struct Tagger {
    pub offset: Size,
    pub ty: IntType,
    pub value: Int,
}

/// One tag value and the discriminant that it stands for.
#[derive(Clone, Copy, Debug, PartialEq, Eq, Structural)]
pub struct TagCase {
    pub tag: Int,
    pub discriminant: Int,
}

/// How the discriminant of an enum value is read back from its bytes.
#[derive(Debug, PartialEq, Eq)]
pub enum Discriminator {
    /// Every value has this discriminant.
    Known(Int),
    /// No value has a discriminant.
    Invalid,
    /// The integer of type `value_type` at `offset` decides: a tag listed in
    /// `cases` gives that case's discriminant, any other tag gives `fallback`,
    /// or is invalid where there is none.
    Tag { offset: Size, value_type: IntType, cases: Vec<TagCase>, fallback: Option<Int> },
}

pub enum DiscriminatorView {
    Known(Int),
    Invalid,
    Tag { offset: Size, value_type: IntType, cases: Seq<TagCase>, fallback: Option<Int> },
}

impl View for Discriminator {
    type V = DiscriminatorView;

    open spec fn view(&self) -> DiscriminatorView {
        match *self {
            Discriminator::Known(d) => DiscriminatorView::Known(d),
            Discriminator::Invalid => DiscriminatorView::Invalid,
            Discriminator::Tag { offset, value_type, cases, fallback } => DiscriminatorView::Tag {
                offset,
                value_type,
                cases: cases@,
                fallback,
            },
        }
    }
}

/// A maximal run of data bytes of a union: where it starts and how long it is.
pub type Chunk = (Size, Size);

pub type Fields = Vec<(Size, Type)>;

#[derive(Debug, PartialEq, Eq)]
pub struct Variant {
    pub discriminant: Int,
    /// The fields of the variant, as a tuple type with the enum's size and alignment.
    pub ty: Type,
    pub tagger: Option<Tagger>,
}

#[derive(Debug, PartialEq, Eq)]
pub enum Type {
    Int(IntType),
    Bool,
    Ptr(PtrType),
    /// Structs and tuples alike.
    Tuple { fields: Fields, size: Size, align: Align },
    Array { elem: Box<Type>, count: Int },
    Union { fields: Fields, chunks: Vec<Chunk>, size: Size, align: Align },
    Enum {
        variants: Vec<Variant>,
        discriminator: Discriminator,
        discriminant_ty: IntType,
        size: Size,
        align: Align,
    },
}

pub struct VariantView {
    pub discriminant: Int,
    pub ty: TypeView,
    pub tagger: Option<Tagger>,
}

pub enum TypeView {
    Int(IntType),
    Bool,
    Ptr(PtrType),
    Tuple { fields: Seq<(Size, TypeView)>, size: Size, align: Align },
    Array { elem: Box<TypeView>, count: Int },
    Union { fields: Seq<(Size, TypeView)>, chunks: Seq<Chunk>, size: Size, align: Align },
    Enum {
        variants: Seq<VariantView>,
        discriminator: DiscriminatorView,
        discriminant_ty: IntType,
        size: Size,
        align: Align,
    },
}

pub open spec fn type_view(t: Type) -> TypeView
    decreases t,
{
    match t {
        Type::Int(ity) => TypeView::Int(ity),
        Type::Bool => TypeView::Bool,
        Type::Ptr(pty) => TypeView::Ptr(pty),
        Type::Tuple { fields, size, align } => TypeView::Tuple {
            fields: Seq::new(
                fields@.len(),
                |i: int|
                    if 0 <= i < fields@.len() {
                        (fields@[i].0, type_view(fields@[i].1))
                    } else {
                        arbitrary()
                    },
            ),
            size,
            align,
        },
        Type::Array { elem, count } => TypeView::Array { elem: Box::new(type_view(*elem)), count },
        Type::Union { fields, chunks, size, align } => TypeView::Union {
            fields: Seq::new(
                fields@.len(),
                |i: int|
                    if 0 <= i < fields@.len() {
                        (fields@[i].0, type_view(fields@[i].1))
                    } else {
                        arbitrary()
                    },
            ),
            chunks: chunks@,
            size,
            align,
        },
        Type::Enum { variants, discriminator, discriminant_ty, size, align } => TypeView::Enum {
            variants: Seq::new(
                variants@.len(),
                |i: int|
                    if 0 <= i < variants@.len() {
                        VariantView {
                            discriminant: variants@[i].discriminant,
                            ty: type_view(variants@[i].ty),
                            tagger: variants@[i].tagger,
                        }
                    } else {
                        arbitrary()
                    },
            ),
            discriminator: discriminator@,
            discriminant_ty,
            size,
            align,
        },
    }
}

impl View for Type {
    type V = TypeView;

    open spec fn view(&self) -> TypeView {
        type_view(*self)
    }
}

impl View for Variant {
    type V = VariantView;

    open spec fn view(&self) -> VariantView {
        VariantView { discriminant: self.discriminant, ty: self.ty@, tagger: self.tagger }
    }
}

/// The view of a list of fields: each field's offset with the view of its type.
pub open spec fn fields_view(fields: Seq<(Size, Type)>) -> Seq<(Size, TypeView)> {
    Seq::new(fields.len(), |i: int| (fields[i].0, fields[i].1@))
}

pub open spec fn variants_view(variants: Seq<Variant>) -> Seq<VariantView> {
    Seq::new(variants.len(), |i: int| variants[i]@)
}

/// The views of tuples, unions and enums in terms of `fields_view` and `variants_view`.
pub proof fn lemma_type_view(t: Type)
    ensures
        t matches Type::Tuple { fields, size, align } ==> t@ == (TypeView::Tuple {
            fields: fields_view(fields@),
            size,
            align,
        }),
        t matches Type::Union { fields, chunks, size, align } ==> t@ == (TypeView::Union {
            fields: fields_view(fields@),
            chunks: chunks@,
            size,
            align,
        }),
        t matches Type::Enum { variants, discriminator, discriminant_ty, size, align } ==> t@ == (
        TypeView::Enum {
            variants: variants_view(variants@),
            discriminator: discriminator@,
            discriminant_ty,
            size,
            align,
        }),
        t matches Type::Array { elem, count } ==> t@ == (TypeView::Array {
            elem: Box::new(elem@),
            count,
        }),
{
    match t {
        Type::Tuple { fields, size, align } => {
            assert(t@->Tuple_fields =~= fields_view(fields@));
        },
        Type::Union { fields, chunks, size, align } => {
            assert(t@->Union_fields =~= fields_view(fields@));
        },
        Type::Enum { variants, discriminator, discriminant_ty, size, align } => {
            assert(t@->Enum_variants =~= variants_view(variants@));
        },
        _ => {},
    }
}

/// A copy of a list of plain values.
pub fn copy_vec<T: Copy>(v: &Vec<T>) -> (r: Vec<T>)
    ensures
        r@ == v@,
{
    let mut out: Vec<T> = Vec::new();
    let mut i: usize = 0;
    while i < v.len()
        invariant
            i <= v.len(),
            out@ == v@.take(i as int),
        decreases v.len() - i,
    {
        out.push(v[i]);
        assert(v@.take(i + 1) =~= v@.take(i as int).push(v@[i as int]));
        i += 1;
    }
    assert(v@.take(v.len() as int) =~= v@);
    out
}

impl Clone for Discriminator {
    fn clone(&self) -> (r: Self)
        ensures
            r@ == self@,
    {
        match self {
            Discriminator::Known(d) => Discriminator::Known(*d),
            Discriminator::Invalid => Discriminator::Invalid,
            Discriminator::Tag { offset, value_type, cases, fallback } => Discriminator::Tag {
                offset: *offset,
                value_type: *value_type,
                cases: copy_vec(cases),
                fallback: *fallback,
            },
        }
    }
}

/// A deep copy of a list of fields.
#[verifier::loop_isolation(false)]
pub fn copy_fields(fields: &Fields) -> (r: Fields)
    ensures
        fields_view(r@) == fields_view(fields@),
    decreases fields, 0int,
{
    broadcast use vstd::std_specs::vec::group_vec_axioms;

    let mut out: Fields = Vec::new();
    let mut i: usize = 0;
    while i < fields.len()
        invariant
            i <= fields.len(),
            out@.len() == i,
            forall|j: int|
                0 <= j < i ==> out@[j].0 == fields@[j].0 && (#[trigger] out@[j]).1@ == fields@[j].1@,
        decreases fields.len() - i,
    {
        let ty = copy_type(&fields[i].1);
        out.push((fields[i].0, ty));
        i += 1;
    }
    assert(fields_view(out@) =~= fields_view(fields@));
    out
}

/// A deep copy of a type.
#[verifier::loop_isolation(false)]
pub fn copy_type(t: &Type) -> (r: Type)
    ensures
        r@ == t@,
    decreases t, 1int,
{
    broadcast use vstd::std_specs::vec::group_vec_axioms;

    match t {
        Type::Int(ity) => Type::Int(*ity),
        Type::Bool => Type::Bool,
        Type::Ptr(pty) => Type::Ptr(*pty),
        Type::Tuple { fields, size, align } => {
            let r = Type::Tuple { fields: copy_fields(fields), size: *size, align: *align };
            proof {
                lemma_type_view(r);
                lemma_type_view(*t);
            }
            r
        },
        Type::Array { elem, count } => {
            let r = Type::Array { elem: Box::new(copy_type(elem)), count: *count };
            r
        },
        Type::Union { fields, chunks, size, align } => {
            let r = Type::Union {
                fields: copy_fields(fields),
                chunks: copy_vec(chunks),
                size: *size,
                align: *align,
            };
            proof {
                lemma_type_view(r);
                lemma_type_view(*t);
            }
            r
        },
        Type::Enum { variants, discriminator, discriminant_ty, size, align } => {
            let mut out: Vec<Variant> = Vec::new();
            let mut i: usize = 0;
            while i < variants.len()
                invariant
                    i <= variants.len(),
                    out@.len() == i,
                    forall|j: int| 0 <= j < i ==> (#[trigger] out@[j])@ == variants@[j]@,
                decreases variants.len() - i,
            {
                let ty = copy_type(&variants[i].ty);
                out.push(
                    Variant {
                        discriminant: variants[i].discriminant,
                        ty,
                        tagger: variants[i].tagger,
                    },
                );
                i += 1;
            }
            let r = Type::Enum {
                variants: out,
                discriminator: discriminator.clone(),
                discriminant_ty: *discriminant_ty,
                size: *size,
                align: *align,
            };
            proof {
                lemma_type_view(r);
                lemma_type_view(*t);
                assert(variants_view(out@) =~= variants_view(variants@));
            }
            r
        },
    }
}

impl Clone for Type {
    fn clone(&self) -> (r: Self)
        ensures
            r@ == self@,
    {
        copy_type(self)
    }
}

impl Clone for Variant {
    fn clone(&self) -> (r: Self)
        ensures
            r@ == self@,
    {
        Variant { discriminant: self.discriminant, ty: copy_type(&self.ty), tagger: self.tagger }
    }
}

} // verus!
