//! Type lowering: from a source type and its layout facts to a target type.
use crate::chunks::{calc_chunks, chunks_of};
use crate::ctxt::Ctxt;
use crate::error::{agrees, refines, ErrorKind, LowerError, Span};
use crate::ir::{
    copy_type, fields_view, lemma_type_view, variants_view, Align, CallingConvention,
    Discriminator, DiscriminatorView, Fields, Int, IntType, Mutability, PointeeInfo, PtrType,
    Signedness, Size, TagCase, Tagger, Type, TypeView, Variant, VariantView,
};
use crate::source::{
    Conv, IntClass, SrcField, SrcMutability, SrcTy, SrcVariant, TagEncoding, TyId, TyKind,
    VariantsLayout,
};
use std::collections::HashMap;
use vstd::prelude::*;

verus! {

/// Whether `n` is a power of two.
pub open spec fn is_pow2(n: int) -> bool
    decreases n,
{
    n == 1 || (n >= 2 && n % 2 == 0 && is_pow2(n / 2))
}

/// The alignment of `bytes` bytes, where that is a power of two.
pub open spec fn lower_align(bytes: u64) -> Option<Align> {
    if is_pow2(bytes as int) {
        Some(Align { bytes })
    } else {
        None
    }
}

pub fn translate_size(size: u64) -> (r: Size)
    ensures
        r == (Size { bytes: size }),
{
    Size { bytes: size }
}

pub fn translate_align(align: u64) -> (r: Option<Align>)
    ensures
        r == lower_align(align),
{
    if align == 0 {
        return None;
    }
    let mut n: u64 = align;
    while n % 2 == 0
        invariant
            n >= 1,
            is_pow2(n as int) == is_pow2(align as int),
        decreases n,
    {
        n = n / 2;
    }
    if n == 1 {
        Some(Align { bytes: align })
    } else {
        None
    }
}

pub open spec fn lower_mutbl(mutbl: SrcMutability) -> Mutability {
    match mutbl {
        SrcMutability::Mut => Mutability::Mutable,
        SrcMutability::Not => Mutability::Immutable,
    }
}

pub fn translate_mutbl(mutbl: SrcMutability) -> (r: Mutability)
    ensures
        r == lower_mutbl(mutbl),
{
    match mutbl {
        SrcMutability::Mut => Mutability::Mutable,
        SrcMutability::Not => Mutability::Immutable,
    }
}

pub fn translate_mutbl_smir(mutbl: SrcMutability) -> (r: Mutability)
    ensures
        r == lower_mutbl(mutbl),
{
    translate_mutbl(mutbl)
}

pub open spec fn lower_calling_convention(conv: Conv) -> Option<CallingConvention> {
    match conv {
        Conv::C => Some(CallingConvention::C),
        Conv::Rust => Some(CallingConvention::Rust),
        Conv::Other => None,
    }
}

pub fn translate_calling_convention(conv: Conv) -> (r: Option<CallingConvention>)
    ensures
        r == lower_calling_convention(conv),
{
    match conv {
        Conv::C => Some(CallingConvention::C),
        Conv::Rust => Some(CallingConvention::Rust),
        Conv::Other => None,
    }
}

/// The target integer type of an integer class.
pub open spec fn int_type(class: IntClass) -> IntType {
    IntType {
        signed: if class.signed {
            Signedness::Signed
        } else {
            Signedness::Unsigned
        },
        size: Size { bytes: class.size },
    }
}

pub fn translate_int_class(class: IntClass) -> (r: IntType)
    ensures
        r == int_type(class),
{
    IntType {
        signed: if class.signed {
            Signedness::Signed
        } else {
            Signedness::Unsigned
        },
        size: Size { bytes: class.size },
    }
}

/// The number of values of an integer type of `size` bytes, for the sizes
/// that integer types have.
pub open spec fn modulus(size: u64) -> Option<int> {
    if size == 1 {
        Some(0x100int)
    } else if size == 2 {
        Some(0x1_0000int)
    } else if size == 4 {
        Some(0x1_0000_0000int)
    } else if size == 8 {
        Some(0x1_0000_0000_0000_0000int)
    } else if size == 16 {
        Some(0x1_0000_0000_0000_0000_0000_0000_0000_0000int)
    } else {
        None
    }
}

/// The integer that the low bytes of `bits` hold when read as a value of
/// type `ty`, in two's complement where `ty` is signed.
pub open spec fn bits_value(bits: u128, ty: IntType) -> Option<int> {
    match modulus(ty.size.bytes) {
        None => None,
        Some(m) => {
            let low = bits as int % m;
            if ty.signed == Signedness::Signed && 2 * low >= m {
                Some(low - m)
            } else {
                Some(low)
            }
        },
    }
}

impl Int {
    /// The `Int` that stands for `i`, for `-2^128 <= i < 2^128`.
    pub open spec fn of(i: int) -> Int {
        if i >= 0 {
            Int::NonNeg(i as u128)
        } else {
            Int::Neg((-1 - i) as u128)
        }
    }

    pub proof fn lemma_of_view(i: int)
        requires
            -0x1_0000_0000_0000_0000_0000_0000_0000_0000int <= i
                < 0x1_0000_0000_0000_0000_0000_0000_0000_0000int,
        ensures
            Int::of(i)@ == i,
    {
    }
}

pub open spec fn lower_int_bits(bits: u128, ty: IntType) -> Result<Int, ErrorKind> {
    match bits_value(bits, ty) {
        None => Err(ErrorKind::UnsupportedIntSize),
        Some(v) => Ok(Int::of(v)),
    }
}

/// Reads `bits` as a value of type `ty`.
pub fn int_from_bits(bits: u128, ty: IntType) -> (r: Result<Int, ErrorKind>)
    ensures
        r == lower_int_bits(bits, ty),
        r matches Ok(i) ==> bits_value(bits, ty) == Some(i@),
{
    let size = ty.size.bytes;
    let signed = match ty.signed {
        Signedness::Signed => true,
        Signedness::Unsigned => false,
    };
    if size == 16 {
        if signed && bits >= 0x8000_0000_0000_0000_0000_0000_0000_0000u128 {
            Ok(Int::Neg(0xffff_ffff_ffff_ffff_ffff_ffff_ffff_ffffu128 - bits))
        } else {
            Ok(Int::NonNeg(bits))
        }
    } else {
        let m: u128 = if size == 1 {
            0x100
        } else if size == 2 {
            0x1_0000
        } else if size == 4 {
            0x1_0000_0000
        } else if size == 8 {
            0x1_0000_0000_0000_0000
        } else {
            return Err(ErrorKind::UnsupportedIntSize);
        };
        let low: u128 = bits % m;
        if signed && low >= m / 2 {
            Ok(Int::Neg(m - 1 - low))
        } else {
            Ok(Int::NonNeg(low))
        }
    }
}

/// What a pointer to the type `id` may assume of its target.
pub open spec fn pointee_info(tys: Seq<SrcTy>, id: TyId) -> Result<PointeeInfo, ErrorKind> {
    if id >= tys.len() {
        Err(ErrorKind::UnknownType)
    } else if !tys[id as int].layout.sized {
        Err(ErrorKind::UnsizedPointee)
    } else {
        match lower_align(tys[id as int].layout.align) {
            None => Err(ErrorKind::InvalidAlign),
            Some(align) => Ok(
                PointeeInfo {
                    size: Size { bytes: tys[id as int].layout.size },
                    align,
                    inhabited: !tys[id as int].layout.uninhabited,
                    freeze: tys[id as int].freeze,
                },
            ),
        }
    }
}

pub fn pointee_info_in(types: &Vec<SrcTy>, ty: TyId) -> (r: Result<PointeeInfo, ErrorKind>)
    ensures
        r == pointee_info(types@, ty),
{
    if ty >= types.len() {
        return Err(ErrorKind::UnknownType);
    }
    let layout = types[ty].layout;
    if !layout.sized {
        return Err(ErrorKind::UnsizedPointee);
    }
    let size = translate_size(layout.size);
    match translate_align(layout.align) {
        None => Err(ErrorKind::InvalidAlign),
        Some(align) => Ok(
            PointeeInfo { size, align, inhabited: !layout.uninhabited, freeze: types[ty].freeze },
        ),
    }
}

/// `acc` followed by what `r` holds, or the error of `r`.
pub open spec fn prepend<T, E>(acc: Seq<T>, r: Result<Seq<T>, E>) -> Result<Seq<T>, E> {
    match r {
        Err(e) => Err(e),
        Ok(rest) => Ok(acc + rest),
    }
}

pub proof fn lemma_prepend_push<T, E>(acc: Seq<T>, x: T, r: Result<Seq<T>, E>)
    ensures
        prepend(acc, prepend(seq![x], r)) == prepend(acc.push(x), r),
        prepend(acc, Ok::<Seq<T>, E>(Seq::empty())) == Ok::<Seq<T>, E>(acc),
        prepend(Seq::empty(), r) == r,
{
    match r {
        Ok(rest) => {
            assert(acc + (seq![x] + rest) =~= acc.push(x) + rest);
        },
        Err(_) => {},
    }
    assert(acc + Seq::<T>::empty() =~= acc);
    match r {
        Ok(rest) => {
            assert(Seq::<T>::empty() + rest =~= rest);
        },
        Err(_) => {},
    }
}

/// The bits of the tag of the variant that lies `rel` variants after the
/// first niche variant: `niche_start + rel`, wrapping at 128 bits.
pub open spec fn niche_bits(niche_start: u128, rel: int) -> u128 {
    ((niche_start + rel) % 0x1_0000_0000_0000_0000_0000_0000_0000_0000int) as u128
}

/// What the variant with index `idx` and discriminant bits `discr` writes
/// into the tag: nothing where the layout has a single variant and for the
/// untagged variant of a niche layout.
pub open spec fn variant_tagger(layout: VariantsLayout, idx: int, discr: u128) -> Result<
    Option<Tagger>,
    ErrorKind,
> {
    match layout {
        VariantsLayout::Single { .. } => Ok(None),
        VariantsLayout::Multiple { tag, tag_offset, encoding } => {
            let bits = match encoding {
                TagEncoding::Direct => Some(discr),
                TagEncoding::Niche { untagged_variant, first_variant, last_variant, niche_start } =>
                    if idx != untagged_variant && first_variant <= idx <= last_variant {
                        Some(niche_bits(niche_start, idx - first_variant))
                    } else {
                        None
                    },
            };
            match bits {
                None => Ok(None),
                Some(bits) => match lower_int_bits(bits, int_type(tag)) {
                    Err(e) => Err(e),
                    Ok(value) => Ok(
                        Some(Tagger { offset: Size { bytes: tag_offset }, ty: int_type(tag), value }),
                    ),
                },
            }
        },
    }
}

/// One case for each variant from index `i` on that writes a tag, in order.
pub open spec fn tag_cases_from(variants: Seq<VariantView>, i: int) -> Seq<TagCase>
    decreases variants.len() - i,
{
    if i < 0 || i >= variants.len() {
        Seq::empty()
    } else {
        match variants[i].tagger {
            Some(t) => seq![TagCase { tag: t.value, discriminant: variants[i].discriminant }]
                + tag_cases_from(variants, i + 1),
            None => tag_cases_from(variants, i + 1),
        }
    }
}

/// How the discriminant is read back, given the lowered variants.
pub open spec fn lower_discriminator(layout: VariantsLayout, variants: Seq<VariantView>) -> Result<
    DiscriminatorView,
    ErrorKind,
> {
    match layout {
        VariantsLayout::Single { index } => if variants.len() == 1 {
            Ok(DiscriminatorView::Known(variants[0].discriminant))
        } else {
            Err(ErrorKind::UnknownVariant)
        },
        VariantsLayout::Multiple { tag, tag_offset, encoding } => {
            let fallback = match encoding {
                TagEncoding::Direct => Ok(None),
                TagEncoding::Niche { untagged_variant, .. } => if untagged_variant
                    < variants.len() {
                    Ok(Some(variants[untagged_variant as int].discriminant))
                } else {
                    Err(ErrorKind::UnknownVariant)
                },
            };
            match fallback {
                Err(e) => Err(e),
                Ok(fallback) => Ok(
                    DiscriminatorView::Tag {
                        offset: Size { bytes: tag_offset },
                        value_type: int_type(tag),
                        cases: tag_cases_from(variants, 0),
                        fallback,
                    },
                ),
            }
        },
    }
}

/// The type without values: an enum without variants.
pub open spec fn never_type() -> TypeView {
    TypeView::Enum {
        variants: Seq::empty(),
        discriminator: DiscriminatorView::Invalid,
        discriminant_ty: IntType { signed: Signedness::Unsigned, size: Size { bytes: 1 } },
        size: Size { bytes: 0 },
        align: Align { bytes: 1 },
    }
}

/// The target type of the source type `id`.
///
/// A type that holds another by value must come after it in the table;
/// otherwise, and for an `id` outside the table, there is no target type.
pub open spec fn lower_ty(tys: Seq<SrcTy>, id: TyId) -> Result<TypeView, ErrorKind>
    decreases id, 5int, 0nat,
{
    if id >= tys.len() {
        Err(ErrorKind::UnknownType)
    } else {
        let layout = tys[id as int].layout;
        let size = Size { bytes: layout.size };
        match tys[id as int].kind {
            TyKind::Bool => Ok(TypeView::Bool),
            TyKind::Int { size } => Ok(
                TypeView::Int(IntType { signed: Signedness::Signed, size: Size { bytes: size } }),
            ),
            TyKind::Uint { size } => Ok(
                TypeView::Int(IntType { signed: Signedness::Unsigned, size: Size { bytes: size } }),
            ),
            TyKind::Tuple { fields } => match lower_align(layout.align) {
                None => Err(ErrorKind::InvalidAlign),
                Some(align) => match lower_fields_from(tys, id, fields@, 0) {
                    Err(e) => Err(e),
                    Ok(fields) => Ok(TypeView::Tuple { fields, size, align }),
                },
            },
            TyKind::Boxed { pointee } => match pointee_info(tys, pointee) {
                Err(e) => Err(e),
                Ok(pointee) => Ok(TypeView::Ptr(PtrType::Box { pointee })),
            },
            TyKind::Struct { fields } => match lower_non_enum_adt(tys, id, fields@) {
                Err(e) => Err(e),
                Ok((fields, size, align)) => Ok(TypeView::Tuple { fields, size, align }),
            },
            TyKind::Union { fields } => match lower_non_enum_adt(tys, id, fields@) {
                Err(e) => Err(e),
                Ok((fields, size, align)) => if size.bytes > usize::MAX {
                    Err(ErrorKind::TooLarge)
                } else {
                    Ok(
                        TypeView::Union {
                            fields,
                            chunks: chunks_of(fields, size.bytes),
                            size,
                            align,
                        },
                    )
                },
            },
            TyKind::Enum { discr_ty, variants, layout: variants_layout } => match lower_align(
                layout.align,
            ) {
                None => Err(ErrorKind::InvalidAlign),
                Some(align) => lower_enum(
                    tys,
                    id,
                    int_type(discr_ty),
                    variants@,
                    variants_layout,
                    size,
                    align,
                ),
            },
            TyKind::Ref { pointee, mutbl } => match pointee_info(tys, pointee) {
                Err(e) => Err(e),
                Ok(pointee) => Ok(
                    TypeView::Ptr(PtrType::Ref { mutbl: lower_mutbl(mutbl), pointee }),
                ),
            },
            TyKind::RawPtr { pointee } => match pointee_info(tys, pointee) {
                Err(e) => Err(e),
                Ok(_) => Ok(TypeView::Ptr(PtrType::Raw)),
            },
            TyKind::Array { elem, count } => if elem >= id {
                Err(ErrorKind::UnknownType)
            } else {
                match lower_ty(tys, elem) {
                    Err(e) => Err(e),
                    Ok(elem) => Ok(
                        TypeView::Array { elem: Box::new(elem), count: Int::NonNeg(count as u128) },
                    ),
                }
            },
            TyKind::FnPtr => Ok(TypeView::Ptr(PtrType::FnPtr)),
            TyKind::Never => Ok(never_type()),
            _ => Err(ErrorKind::UnsupportedType),
        }
    }
}

/// The fields, size and alignment of the struct or union `owner`.
pub open spec fn lower_non_enum_adt(tys: Seq<SrcTy>, owner: TyId, fields: Seq<SrcField>) -> Result<
    (Seq<(Size, TypeView)>, Size, Align),
    ErrorKind,
>
    decreases owner, 2int, 0nat,
{
    if owner >= tys.len() {
        Err(ErrorKind::UnknownType)
    } else {
        match lower_fields_from(tys, owner, fields, 0) {
            Err(e) => Err(e),
            Ok(fields) => match lower_align(tys[owner as int].layout.align) {
                None => Err(ErrorKind::InvalidAlign),
                Some(align) => Ok((fields, Size { bytes: tys[owner as int].layout.size }, align)),
            },
        }
    }
}

/// The fields from index `i` on, each with its offset and its target type.
pub open spec fn lower_fields_from(tys: Seq<SrcTy>, owner: TyId, fields: Seq<SrcField>, i: int) -> Result<
    Seq<(Size, TypeView)>,
    ErrorKind,
>
    decreases owner, 1int, fields.len() - i,
{
    if i < 0 || i >= fields.len() {
        Ok(Seq::empty())
    } else if fields[i].ty >= owner {
        Err(ErrorKind::UnknownType)
    } else {
        match lower_ty(tys, fields[i].ty) {
            Err(e) => Err(e),
            Ok(ty) => prepend(
                seq![(Size { bytes: fields[i].offset }, ty)],
                lower_fields_from(tys, owner, fields, i + 1),
            ),
        }
    }
}

/// The variant with index `i` of the enum `owner`.
pub open spec fn lower_variant(
    tys: Seq<SrcTy>,
    owner: TyId,
    discr_ty: IntType,
    variant: SrcVariant,
    i: int,
    layout: VariantsLayout,
    size: Size,
    align: Align,
) -> Result<VariantView, ErrorKind>
    decreases owner, 2int, 0nat,
{
    match lower_fields_from(tys, owner, variant.fields@, 0) {
        Err(e) => Err(e),
        Ok(fields) => match lower_int_bits(variant.discr, discr_ty) {
            Err(e) => Err(e),
            Ok(discriminant) => match variant_tagger(layout, i, variant.discr) {
                Err(e) => Err(e),
                Ok(tagger) => Ok(
                    VariantView {
                        discriminant,
                        ty: TypeView::Tuple { fields, size, align },
                        tagger,
                    },
                ),
            },
        },
    }
}

/// The variants from index `i` on.
pub open spec fn lower_variants_from(
    tys: Seq<SrcTy>,
    owner: TyId,
    discr_ty: IntType,
    variants: Seq<SrcVariant>,
    i: int,
    layout: VariantsLayout,
    size: Size,
    align: Align,
) -> Result<Seq<VariantView>, ErrorKind>
    decreases owner, 3int, variants.len() - i,
{
    if i < 0 || i >= variants.len() {
        Ok(Seq::empty())
    } else {
        match lower_variant(tys, owner, discr_ty, variants[i], i, layout, size, align) {
            Err(e) => Err(e),
            Ok(v) => prepend(
                seq![v],
                lower_variants_from(tys, owner, discr_ty, variants, i + 1, layout, size, align),
            ),
        }
    }
}

/// The enum `owner`: where the layout has a single variant, that variant
/// alone; otherwise every variant, with the tag that tells them apart.
pub open spec fn lower_enum(
    tys: Seq<SrcTy>,
    owner: TyId,
    discr_ty: IntType,
    variants: Seq<SrcVariant>,
    layout: VariantsLayout,
    size: Size,
    align: Align,
) -> Result<TypeView, ErrorKind>
    decreases owner, 4int, 0nat,
{
    let lowered = match layout {
        VariantsLayout::Single { index } => if index >= variants.len() {
            Err(ErrorKind::UnknownVariant)
        } else {
            match lower_variant(
                tys,
                owner,
                discr_ty,
                variants[index as int],
                index as int,
                layout,
                size,
                align,
            ) {
                Err(e) => Err(e),
                Ok(v) => Ok(seq![v]),
            }
        },
        VariantsLayout::Multiple { .. } => lower_variants_from(
            tys,
            owner,
            discr_ty,
            variants,
            0,
            layout,
            size,
            align,
        ),
    };
    match lowered {
        Err(e) => Err(e),
        Ok(variants) => match lower_discriminator(layout, variants) {
            Err(e) => Err(e),
            Ok(discriminator) => Ok(
                TypeView::Enum { variants, discriminator, discriminant_ty: discr_ty, size, align },
            ),
        },
    }
}

/// `new` holds every entry of `old`, unchanged.
pub open spec fn extends(old: Map<usize, Type>, new: Map<usize, Type>) -> bool {
    forall|k: usize| #[trigger] old.contains_key(k) ==> new.contains_key(k) && new[k] == old[k]
}

/// Every entry of the cache is the target type of its key.
pub open spec fn cache_ok(tys: Seq<SrcTy>, cache: Map<usize, Type>) -> bool {
    forall|k: usize| #[trigger] cache.contains_key(k) ==> lower_ty(tys, k) == Ok::<TypeView, ErrorKind>(cache[k]@)
}

/// What `variant_tagger` prescribes for the variant with index `idx`.
pub fn translate_tagger(layout: VariantsLayout, idx: usize, discr: u128) -> (r: Result<
    Option<Tagger>,
    ErrorKind,
>)
    ensures
        r == variant_tagger(layout, idx as int, discr),
{
    match layout {
        VariantsLayout::Single { .. } => Ok(None),
        VariantsLayout::Multiple { tag, tag_offset, encoding } => {
            let bits = match encoding {
                TagEncoding::Direct => Some(discr),
                TagEncoding::Niche { untagged_variant, first_variant, last_variant, niche_start } => {
                    if idx != untagged_variant && first_variant <= idx && idx <= last_variant {
                        let rel: u128 = (idx - first_variant) as u128;
                        let room: u128 = 0xffff_ffff_ffff_ffff_ffff_ffff_ffff_ffffu128 - niche_start;
                        let bits: u128 = if rel <= room {
                            niche_start + rel
                        } else {
                            rel - room - 1
                        };
                        Some(bits)
                    } else {
                        None
                    }
                },
            };
            match bits {
                None => Ok(None),
                Some(bits) => {
                    let ty = translate_int_class(tag);
                    match int_from_bits(bits, ty) {
                        Err(e) => Err(e),
                        Ok(value) => Ok(
                            Some(Tagger { offset: translate_size(tag_offset), ty, value }),
                        ),
                    }
                },
            }
        },
    }
}

/// What `lower_discriminator` prescribes for the lowered variants.
pub fn translate_discriminator(layout: VariantsLayout, variants: &Vec<Variant>) -> (r: Result<
    Discriminator,
    ErrorKind,
>)
    ensures
        match r {
            Ok(d) => lower_discriminator(layout, variants_view(variants@)) == Ok::<
                DiscriminatorView,
                ErrorKind,
            >(d@),
            Err(e) => lower_discriminator(layout, variants_view(variants@)) == Err::<
                DiscriminatorView,
                ErrorKind,
            >(e),
        },
{
    let ghost views = variants_view(variants@);
    match layout {
        VariantsLayout::Single { index } => {
            if variants.len() == 1 {
                Ok(Discriminator::Known(variants[0].discriminant))
            } else {
                Err(ErrorKind::UnknownVariant)
            }
        },
        VariantsLayout::Multiple { tag, tag_offset, encoding } => {
            let fallback = match encoding {
                TagEncoding::Direct => None,
                TagEncoding::Niche { untagged_variant, .. } => {
                    if untagged_variant < variants.len() {
                        Some(variants[untagged_variant].discriminant)
                    } else {
                        return Err(ErrorKind::UnknownVariant);
                    }
                },
            };
            let mut cases: Vec<TagCase> = Vec::new();
            let mut i: usize = 0;
            while i < variants.len()
                invariant
                    i <= variants.len(),
                    views == variants_view(variants@),
                    tag_cases_from(views, 0) == cases@ + tag_cases_from(views, i as int),
                decreases variants.len() - i,
            {
                match variants[i].tagger {
                    Some(t) => {
                        let case = TagCase { tag: t.value, discriminant: variants[i].discriminant };
                        assert(cases@ + (seq![case] + tag_cases_from(views, i + 1)) =~= cases@.push(
                            case,
                        ) + tag_cases_from(views, i + 1));
                        cases.push(case);
                    },
                    None => {},
                }
                i += 1;
            }
            assert(cases@ + Seq::<TagCase>::empty() =~= cases@);
            Ok(
                Discriminator::Tag {
                    offset: translate_size(tag_offset),
                    value_type: translate_int_class(tag),
                    cases,
                    fallback,
                },
            )
        },
    }
}

/// Lowers a list of fields of the type `owner`, filling the cache on the way.
#[verifier::loop_isolation(false)]
pub fn translate_fields_in(
    types: &Vec<SrcTy>,
    cache: &mut HashMap<usize, Type>,
    owner: TyId,
    fields: &Vec<SrcField>,
    span: Span,
) -> (r: Result<Fields, LowerError>)
    requires
        cache_ok(types@, old(cache)@),
    ensures
        cache_ok(types@, final(cache)@),
        extends(old(cache)@, final(cache)@),
        match r {
            Ok(v) => lower_fields_from(types@, owner, fields@, 0) == Ok::<_, ErrorKind>(
                fields_view(v@),
            ),
            Err(e) => lower_fields_from(types@, owner, fields@, 0) == Err::<
                Seq<(Size, TypeView)>,
                _,
            >(e.kind) && e.span == span,
        },
    decreases owner, 1int, 0nat,
{
    let mut out: Fields = Vec::new();
    let mut i: usize = 0;
    proof {
        lemma_prepend_push(
            Seq::<(Size, TypeView)>::empty(),
            arbitrary(),
            lower_fields_from(types@, owner, fields@, 0),
        );
        assert(fields_view(out@) =~= Seq::empty());
        assert(prepend(Seq::empty(), lower_fields_from(types@, owner, fields@, 0))
            == lower_fields_from(types@, owner, fields@, 0)) by {
            match lower_fields_from(types@, owner, fields@, 0) {
                Ok(rest) => {
                    assert(Seq::<(Size, TypeView)>::empty() + rest =~= rest);
                },
                Err(_) => {},
            }
        }
    }
    while i < fields.len()
        invariant
            i <= fields.len(),
            cache_ok(types@, cache@),
            extends(old(cache)@, cache@),
            lower_fields_from(types@, owner, fields@, 0) == prepend(
                fields_view(out@),
                lower_fields_from(types@, owner, fields@, i as int),
            ),
        decreases fields.len() - i,
    {
        let field = fields[i];
        if field.ty >= owner {
            return Err(LowerError::new(span, ErrorKind::UnknownType));
        }
        let ty = match translate_ty_in(types, cache, field.ty, span) {
            Ok(ty) => ty,
            Err(e) => {
                return Err(e);
            },
        };
        let item = (translate_size(field.offset), ty);
        proof {
            lemma_prepend_push(
                fields_view(out@),
                (item.0, item.1@),
                lower_fields_from(types@, owner, fields@, i + 1),
            );
            assert(fields_view(out@.push(item)) =~= fields_view(out@).push((item.0, item.1@)));
        }
        out.push(item);
        i += 1;
    }
    proof {
        lemma_prepend_push(
            fields_view(out@),
            arbitrary(),
            lower_fields_from(types@, owner, fields@, i as int),
        );
    }
    Ok(out)
}

/// Lowers the fields of the struct or union `owner`, and takes its size
/// and alignment from its layout.
pub fn translate_non_enum_adt(
    types: &Vec<SrcTy>,
    cache: &mut HashMap<usize, Type>,
    owner: TyId,
    fields: &Vec<SrcField>,
    span: Span,
) -> (r: Result<(Fields, Size, Align), LowerError>)
    requires
        cache_ok(types@, old(cache)@),
    ensures
        cache_ok(types@, final(cache)@),
        extends(old(cache)@, final(cache)@),
        match r {
            Ok((f, size, align)) => lower_non_enum_adt(types@, owner, fields@) == Ok::<_, ErrorKind>(
                (fields_view(f@), size, align),
            ),
            Err(e) => lower_non_enum_adt(types@, owner, fields@) == Err::<
                (Seq<(Size, TypeView)>, Size, Align),
                _,
            >(e.kind) && e.span == span,
        },
    decreases owner, 2int, 0nat,
{
    if owner >= types.len() {
        return Err(LowerError::new(span, ErrorKind::UnknownType));
    }
    let fields = match translate_fields_in(types, cache, owner, fields, span) {
        Ok(f) => f,
        Err(e) => {
            return Err(e);
        },
    };
    let size = translate_size(types[owner].layout.size);
    match translate_align(types[owner].layout.align) {
        Some(align) => Ok((fields, size, align)),
        None => Err(LowerError::new(span, ErrorKind::InvalidAlign)),
    }
}

/// Lowers the variant with index `i` of the enum `owner`.
pub fn translate_variant_in(
    types: &Vec<SrcTy>,
    cache: &mut HashMap<usize, Type>,
    owner: TyId,
    discr_ty: IntType,
    variant: &SrcVariant,
    i: usize,
    layout: VariantsLayout,
    size: Size,
    align: Align,
    span: Span,
) -> (r: Result<Variant, LowerError>)
    requires
        cache_ok(types@, old(cache)@),
    ensures
        cache_ok(types@, final(cache)@),
        extends(old(cache)@, final(cache)@),
        refines(
            r,
            lower_variant(types@, owner, discr_ty, *variant, i as int, layout, size, align),
            span,
        ),
    decreases owner, 2int, 0nat,
{
    let fields = match translate_fields_in(types, cache, owner, &variant.fields, span) {
        Ok(f) => f,
        Err(e) => {
            return Err(e);
        },
    };
    let discriminant = match int_from_bits(variant.discr, discr_ty) {
        Ok(d) => d,
        Err(kind) => {
            return Err(LowerError::new(span, kind));
        },
    };
    let tagger = match translate_tagger(layout, i, variant.discr) {
        Ok(t) => t,
        Err(kind) => {
            return Err(LowerError::new(span, kind));
        },
    };
    let ty = Type::Tuple { fields, size, align };
    proof {
        lemma_type_view(ty);
    }
    Ok(Variant { discriminant, ty, tagger })
}

/// Lowers the enum `owner`.
#[verifier::loop_isolation(false)]
pub fn translate_enum_in(
    types: &Vec<SrcTy>,
    cache: &mut HashMap<usize, Type>,
    owner: TyId,
    discr_ty: IntType,
    variants: &Vec<SrcVariant>,
    layout: VariantsLayout,
    size: Size,
    align: Align,
    span: Span,
) -> (r: Result<Type, LowerError>)
    requires
        cache_ok(types@, old(cache)@),
    ensures
        cache_ok(types@, final(cache)@),
        extends(old(cache)@, final(cache)@),
        refines(r, lower_enum(types@, owner, discr_ty, variants@, layout, size, align), span),
    decreases owner, 4int, 0nat,
{
    let mut out: Vec<Variant> = Vec::new();
    match layout {
        VariantsLayout::Single { index } => {
            if index >= variants.len() {
                return Err(LowerError::new(span, ErrorKind::UnknownVariant));
            }
            let v = match translate_variant_in(
                types,
                cache,
                owner,
                discr_ty,
                &variants[index],
                index,
                layout,
                size,
                align,
                span,
            ) {
                Ok(v) => v,
                Err(e) => {
                    return Err(e);
                },
            };
            out.push(v);
            assert(variants_view(out@) =~= seq![v@]);
        },
        VariantsLayout::Multiple { .. } => {
            let mut i: usize = 0;
            let ghost all = lower_variants_from(
                types@,
                owner,
                discr_ty,
                variants@,
                0,
                layout,
                size,
                align,
            );
            proof {
                assert(variants_view(out@) =~= Seq::empty());
                match all {
                    Ok(rest) => {
                        assert(Seq::<VariantView>::empty() + rest =~= rest);
                    },
                    Err(_) => {},
                }
            }
            while i < variants.len()
                invariant
                    i <= variants.len(),
                    cache_ok(types@, cache@),
                    extends(old(cache)@, cache@),
                    all == prepend(
                        variants_view(out@),
                        lower_variants_from(
                            types@,
                            owner,
                            discr_ty,
                            variants@,
                            i as int,
                            layout,
                            size,
                            align,
                        ),
                    ),
                decreases variants.len() - i,
            {
                let v = match translate_variant_in(
                    types,
                    cache,
                    owner,
                    discr_ty,
                    &variants[i],
                    i,
                    layout,
                    size,
                    align,
                    span,
                ) {
                    Ok(v) => v,
                    Err(e) => {
                        return Err(e);
                    },
                };
                proof {
                    lemma_prepend_push(
                        variants_view(out@),
                        v@,
                        lower_variants_from(
                            types@,
                            owner,
                            discr_ty,
                            variants@,
                            i + 1,
                            layout,
                            size,
                            align,
                        ),
                    );
                    assert(variants_view(out@.push(v)) =~= variants_view(out@).push(v@));
                }
                out.push(v);
                i += 1;
            }
            proof {
                lemma_prepend_push(
                    variants_view(out@),
                    arbitrary(),
                    lower_variants_from(
                        types@,
                        owner,
                        discr_ty,
                        variants@,
                        i as int,
                        layout,
                        size,
                        align,
                    ),
                );
            }
        },
    }
    let discriminator = match translate_discriminator(layout, &out) {
        Ok(d) => d,
        Err(kind) => {
            return Err(LowerError::new(span, kind));
        },
    };
    let ty = Type::Enum { variants: out, discriminator, discriminant_ty: discr_ty, size, align };
    proof {
        lemma_type_view(ty);
    }
    Ok(ty)
}

/// Lowers the type `id`: from the cache where it holds the type, and into
/// the cache otherwise.
pub fn translate_ty_in(
    types: &Vec<SrcTy>,
    cache: &mut HashMap<usize, Type>,
    id: TyId,
    span: Span,
) -> (r: Result<Type, LowerError>)
    requires
        cache_ok(types@, old(cache)@),
    ensures
        cache_ok(types@, final(cache)@),
        extends(old(cache)@, final(cache)@),
        refines(r, lower_ty(types@, id), span),
        r is Ok ==> final(cache)@.contains_key(id),
    decreases id, 6int, 0nat,
{
    broadcast use vstd::std_specs::hash::group_hash_axioms;

    if let Some(ty) = cache.get(&id) {
        return Ok(copy_type(ty));
    }
    let ty = match translate_ty_fresh(types, cache, id, span) {
        Ok(ty) => ty,
        Err(e) => {
            return Err(e);
        },
    };
    let copy = copy_type(&ty);
    if !cache.contains_key(&id) {
        cache.insert(id, copy);
    }
    Ok(ty)
}

/// Lowers the type `id` without looking it up in the cache.
pub fn translate_ty_fresh(
    types: &Vec<SrcTy>,
    cache: &mut HashMap<usize, Type>,
    id: TyId,
    span: Span,
) -> (r: Result<Type, LowerError>)
    requires
        cache_ok(types@, old(cache)@),
    ensures
        cache_ok(types@, final(cache)@),
        extends(old(cache)@, final(cache)@),
        refines(r, lower_ty(types@, id), span),
    decreases id, 5int, 0nat,
{
    if id >= types.len() {
        return Err(LowerError::new(span, ErrorKind::UnknownType));
    }
    let src = &types[id];
    let size = translate_size(src.layout.size);
    let ty = match &src.kind {
        TyKind::Bool => Type::Bool,
        TyKind::Int { size } => Type::Int(
            IntType { signed: Signedness::Signed, size: translate_size(*size) },
        ),
        TyKind::Uint { size } => Type::Int(
            IntType { signed: Signedness::Unsigned, size: translate_size(*size) },
        ),
        TyKind::Tuple { fields } => {
            let align = match translate_align(src.layout.align) {
                Some(a) => a,
                None => {
                    return Err(LowerError::new(span, ErrorKind::InvalidAlign));
                },
            };
            let fields = match translate_fields_in(types, cache, id, fields, span) {
                Ok(f) => f,
                Err(e) => {
                    return Err(e);
                },
            };
            let ty = Type::Tuple { fields, size, align };
            proof {
                lemma_type_view(ty);
            }
            ty
        },
        TyKind::Boxed { pointee } => {
            match pointee_info_in(types, *pointee) {
                Ok(pointee) => Type::Ptr(PtrType::Box { pointee }),
                Err(kind) => {
                    return Err(LowerError::new(span, kind));
                },
            }
        },
        TyKind::Struct { fields } => {
            let (fields, size, align) = match translate_non_enum_adt(
                types,
                cache,
                id,
                fields,
                span,
            ) {
                Ok(parts) => parts,
                Err(e) => {
                    return Err(e);
                },
            };
            let ty = Type::Tuple { fields, size, align };
            proof {
                lemma_type_view(ty);
            }
            ty
        },
        TyKind::Union { fields } => {
            let (fields, size, align) = match translate_non_enum_adt(
                types,
                cache,
                id,
                fields,
                span,
            ) {
                Ok(parts) => parts,
                Err(e) => {
                    return Err(e);
                },
            };
            let chunks = match calc_chunks(&fields, size) {
                Ok(c) => c,
                Err(kind) => {
                    return Err(LowerError::new(span, kind));
                },
            };
            let ty = Type::Union { fields, chunks, size, align };
            proof {
                lemma_type_view(ty);
            }
            ty
        },
        TyKind::Enum { discr_ty, variants, layout } => {
            let align = match translate_align(src.layout.align) {
                Some(a) => a,
                None => {
                    return Err(LowerError::new(span, ErrorKind::InvalidAlign));
                },
            };
            match translate_enum_in(
                types,
                cache,
                id,
                translate_int_class(*discr_ty),
                variants,
                *layout,
                size,
                align,
                span,
            ) {
                Ok(ty) => ty,
                Err(e) => {
                    return Err(e);
                },
            }
        },
        TyKind::Ref { pointee, mutbl } => {
            match pointee_info_in(types, *pointee) {
                Ok(pointee) => Type::Ptr(PtrType::Ref { mutbl: translate_mutbl(*mutbl), pointee }),
                Err(kind) => {
                    return Err(LowerError::new(span, kind));
                },
            }
        },
        TyKind::RawPtr { pointee } => {
            // Not stored, but a raw pointer to an unsized type is refused all the same.
            match pointee_info_in(types, *pointee) {
                Ok(_) => Type::Ptr(PtrType::Raw),
                Err(kind) => {
                    return Err(LowerError::new(span, kind));
                },
            }
        },
        TyKind::Array { elem, count } => {
            if *elem >= id {
                return Err(LowerError::new(span, ErrorKind::UnknownType));
            }
            let count = Int::from_u64(*count);
            match translate_ty_in(types, cache, *elem, span) {
                Ok(elem) => Type::Array { elem: Box::new(elem), count },
                Err(e) => {
                    return Err(e);
                },
            }
        },
        TyKind::FnPtr => Type::Ptr(PtrType::FnPtr),
        TyKind::Never => {
            let ty = Type::Enum {
                variants: Vec::new(),
                discriminator: Discriminator::Invalid,
                discriminant_ty: IntType { signed: Signedness::Unsigned, size: Size { bytes: 1 } },
                size: Size { bytes: 0 },
                align: Align { bytes: 1 },
            };
            proof {
                lemma_type_view(ty);
                assert(variants_view(Seq::<Variant>::empty()) =~= Seq::<VariantView>::empty());
            }
            ty
        },
        _ => {
            return Err(LowerError::new(span, ErrorKind::UnsupportedType));
        },
    };
    Ok(ty)
}

/// The discriminant of the variant with index `variant` of the enum `ty`.
///
/// Constructors and queries alike take a variant's discriminant from here.
pub open spec fn discriminant_for_variant(tys: Seq<SrcTy>, ty: TyId, variant: usize) -> Result<
    Int,
    ErrorKind,
> {
    match lower_ty(tys, ty) {
        Err(e) => Err(e),
        Ok(_) => match tys[ty as int].kind {
            TyKind::Enum { discr_ty, variants, .. } => if variant < variants@.len() {
                lower_int_bits(variants@[variant as int].discr, int_type(discr_ty))
            } else {
                Err(ErrorKind::UnknownVariant)
            },
            _ => Err(ErrorKind::UnknownVariant),
        },
    }
}

impl Ctxt {
    /// What a pointer to `ty` may assume of its target. The type must have a
    /// statically known size.
    pub fn pointee_info_of(&self, ty: TyId) -> (r: Result<PointeeInfo, ErrorKind>)
        ensures
            r == pointee_info(self.types@, ty),
    {
        pointee_info_in(&self.types, ty)
    }

    /// What a pointer to `ty` may assume of its target.
    pub fn pointee_info_of_smir(&self, ty: TyId) -> (r: Result<PointeeInfo, ErrorKind>)
        ensures
            r == pointee_info(self.types@, ty),
    {
        self.pointee_info_of(ty)
    }

    /// Lowers the type `ty`. Lowering a type again gives the same target type.
    pub fn translate_ty(&mut self, ty: TyId, span: Span) -> (r: Result<Type, LowerError>)
        requires
            old(self).wf(),
        ensures
            final(self).wf(),
            final(self).follows(old(self)),
            refines(r, lower_ty(old(self).types@, ty), span),
            r is Ok ==> final(self).ty_cache@.contains_key(ty),
    {
        translate_ty_in(&self.types, &mut self.ty_cache, ty, span)
    }

    /// Lowers the type `ty`.
    pub fn translate_ty_smir(&mut self, ty: TyId, span: Span) -> (r: Result<Type, LowerError>)
        requires
            old(self).wf(),
        ensures
            final(self).wf(),
            final(self).follows(old(self)),
            refines(r, lower_ty(old(self).types@, ty), span),
            r is Ok ==> final(self).ty_cache@.contains_key(ty),
    {
        self.translate_ty(ty, span)
    }

    /// Lowers the fields of a variant of the type `owner`.
    pub fn translate_adt_variant_fields(
        &mut self,
        owner: TyId,
        fields: &Vec<SrcField>,
        span: Span,
    ) -> (r: Result<Fields, LowerError>)
        requires
            old(self).wf(),
        ensures
            final(self).wf(),
            final(self).follows(old(self)),
            match r {
                Ok(v) => lower_fields_from(old(self).types@, owner, fields@, 0) == Ok::<
                    _,
                    ErrorKind,
                >(fields_view(v@)),
                Err(e) => lower_fields_from(old(self).types@, owner, fields@, 0) == Err::<
                    Seq<(Size, TypeView)>,
                    _,
                >(e.kind) && e.span == span,
            },
    {
        translate_fields_in(&self.types, &mut self.ty_cache, owner, fields, span)
    }

    /// The discriminant of the variant with index `variant` of the enum `ty`.
    pub fn discriminant_for_variant(&mut self, ty: TyId, variant: usize, span: Span) -> (r: Result<
        Int,
        LowerError,
    >)
        requires
            old(self).wf(),
        ensures
            final(self).wf(),
            final(self).follows(old(self)),
            agrees(r, discriminant_for_variant(old(self).types@, ty, variant), span),
    {
        match self.translate_ty(ty, span) {
            Ok(_) => {},
            Err(e) => {
                return Err(e);
            },
        }
        match &self.types[ty].kind {
            TyKind::Enum { discr_ty, variants, .. } => {
                if variant < variants.len() {
                    match int_from_bits(variants[variant].discr, translate_int_class(*discr_ty)) {
                        Ok(d) => Ok(d),
                        Err(kind) => Err(LowerError::new(span, kind)),
                    }
                } else {
                    Err(LowerError::new(span, ErrorKind::UnknownVariant))
                }
            },
            _ => Err(LowerError::new(span, ErrorKind::UnknownVariant)),
        }
    }
}

} // verus!
