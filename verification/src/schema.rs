//! The schema extractor.
//!
//! A host type is presented to the library as a [`TypeDecl`]: its declared
//! kind, its name, its generic parameters, and, for a sum type, its ordered
//! variant list with each variant's field shape.  [`extract_schema`] derives
//! from it the [`SumTypeSchema`] that drives dispatching: the ordered variant
//! schemas, each with its payload shape and its output slot, which is exactly
//! the variant's declaration position.
//!
//! Extraction fails, and only fails, on a candidate that is not a sum type
//! (`WrongKind`), on a sum type with fewer than two variants
//! (`DegenerateArity`) or more than eight (`UnsupportedArity`), and on a sum
//! type one of whose variants carries a named-field payload
//! (`UnsupportedVariantShape`).  The kind is checked first, then the arity,
//! then the variants in declaration order, so a named-field failure always
//! reports the first offending variant.

use vstd::prelude::*;

verus! {

/// The declared kind of a candidate type.
#[derive(Clone, Copy, Debug, PartialEq, Eq, Structural)]
pub enum CandidateKind {
    /// A sum type: a tagged union of variants.
    SumType,
    /// A record with named fields.
    Record,
    /// An untagged union, which the library does not support.
    Union,
}

/// The field shape of one declared variant.
#[derive(Clone, Debug, PartialEq, Eq)]
pub enum FieldsDecl {
    /// No fields at all.
    Unit,
    /// Positional fields; each entry is the declared type of one field.
    Unnamed(Vec<String>),
    /// Named fields; each entry is the name of one field.
    Named(Vec<String>),
}

/// One declared variant of a candidate sum type.
#[derive(Clone, Debug, PartialEq, Eq)]
pub struct VariantDecl {
    /// The variant's name.
    pub name: String,
    /// The shape of its fields.
    pub fields: FieldsDecl,
}

/// The structural description of a candidate type.
#[derive(Clone, Debug, PartialEq, Eq)]
pub struct TypeDecl {
    /// The declared kind of the candidate.
    pub kind: CandidateKind,
    /// The candidate's name.
    pub name: String,
    /// Its generic parameters, in declaration order.
    pub generics: Vec<String>,
    /// Its variants, in declaration order; meaningful only for a sum type.
    pub variants: Vec<VariantDecl>,
}

/// The declared type of a variant's single positional payload.
#[derive(Clone, Debug, PartialEq, Eq)]
pub enum PayloadType {
    /// The declared type of the variant's one field.
    Name(String),
    /// The tuple of the declared types of the variant's fields, absorbed as
    /// one element.
    TupleOf(Vec<String>),
}

/// The payload shape of one variant of the extracted schema.
#[derive(Clone, Debug, PartialEq, Eq)]
pub enum PayloadShape {
    /// The variant carries no payload; a unit value is absorbed for it.
    NoPayload,
    /// The variant carries one positional payload of the given type.
    SinglePositionalType(PayloadType),
}

/// One variant of the extracted schema.
#[derive(Clone, Debug, PartialEq, Eq)]
pub struct VariantSchema {
    /// The variant's name.
    pub name: String,
    /// The shape of its payload.
    pub payload_shape: PayloadShape,
    /// Its output slot: the variant's declaration position.
    pub slot: usize,
}

/// The extracted schema of a sum type.
#[derive(Clone, Debug, PartialEq, Eq)]
pub struct SumTypeSchema {
    /// The sum type's name.
    pub name: String,
    /// Its generic parameters, recorded verbatim.
    pub generic_parameters: Vec<String>,
    /// Its variants, in declaration order.
    pub variants: Vec<VariantSchema>,
}

/// Why extraction failed.
#[derive(Clone, Debug, PartialEq, Eq)]
pub enum ExtractError {
    /// The candidate is not a sum type.
    WrongKind {
        /// The candidate's name.
        candidate: String,
        /// Its actual kind.
        kind: CandidateKind,
    },
    /// A variant of the sum type carries a named-field payload.
    UnsupportedVariantShape {
        /// The sum type's name.
        sum_type: String,
        /// The name of the first offending variant.
        variant: String,
    },
    /// The sum type declares fewer than two variants.
    DegenerateArity {
        /// The candidate's name.
        candidate: String,
        /// How many variants it declares.
        arity: usize,
    },
    /// The sum type declares more than eight variants, which exceeds the
    /// fixed-arity ceiling.
    UnsupportedArity {
        /// The candidate's name.
        candidate: String,
        /// How many variants it declares.
        arity: usize,
    },
}

/// The mathematical model of a [`FieldsDecl`].
pub enum FieldsModel {
    /// No fields at all.
    Unit,
    /// Positional fields, each with its declared type.
    Unnamed(Seq<String>),
    /// Named fields, each with its name.
    Named(Seq<String>),
}

/// The mathematical model of a [`VariantDecl`].
pub struct VariantDeclModel {
    /// The variant's name.
    pub name: String,
    /// The shape of its fields.
    pub fields: FieldsModel,
}

/// The mathematical model of a [`TypeDecl`].
pub struct TypeDeclModel {
    /// The declared kind of the candidate.
    pub kind: CandidateKind,
    /// The candidate's name.
    pub name: String,
    /// Its generic parameters, in declaration order.
    pub generics: Seq<String>,
    /// Its variants, in declaration order.
    pub variants: Seq<VariantDeclModel>,
}

/// The mathematical model of a [`PayloadType`].
pub enum PayloadTypeModel {
    /// The declared type of the variant's one field.
    Name(String),
    /// The tuple of the declared types of the variant's fields.
    TupleOf(Seq<String>),
}

/// The mathematical model of a [`PayloadShape`].
pub enum PayloadShapeModel {
    /// The variant carries no payload.
    NoPayload,
    /// The variant carries one positional payload of the given type.
    SinglePositionalType(PayloadTypeModel),
}

/// The mathematical model of a [`VariantSchema`].
pub struct VariantSchemaModel {
    /// The variant's name.
    pub name: String,
    /// The shape of its payload.
    pub payload_shape: PayloadShapeModel,
    /// Its output slot.
    pub slot: int,
}

/// The mathematical model of a [`SumTypeSchema`].
pub struct SchemaModel {
    /// The sum type's name.
    pub name: String,
    /// Its generic parameters.
    pub generic_parameters: Seq<String>,
    /// Its variants, in declaration order.
    pub variants: Seq<VariantSchemaModel>,
}

impl View for FieldsDecl {
    type V = FieldsModel;

    open spec fn view(&self) -> FieldsModel {
        match self {
            FieldsDecl::Unit => FieldsModel::Unit,
            FieldsDecl::Unnamed(types) => FieldsModel::Unnamed(types@),
            FieldsDecl::Named(names) => FieldsModel::Named(names@),
        }
    }
}

impl View for VariantDecl {
    type V = VariantDeclModel;

    open spec fn view(&self) -> VariantDeclModel {
        VariantDeclModel { name: self.name, fields: self.fields@ }
    }
}

impl View for TypeDecl {
    type V = TypeDeclModel;

    open spec fn view(&self) -> TypeDeclModel {
        TypeDeclModel {
            kind: self.kind,
            name: self.name,
            generics: self.generics@,
            variants: self.variants@.map_values(|v: VariantDecl| v@),
        }
    }
}

impl View for PayloadType {
    type V = PayloadTypeModel;

    open spec fn view(&self) -> PayloadTypeModel {
        match self {
            PayloadType::Name(t) => PayloadTypeModel::Name(*t),
            PayloadType::TupleOf(ts) => PayloadTypeModel::TupleOf(ts@),
        }
    }
}

impl View for PayloadShape {
    type V = PayloadShapeModel;

    open spec fn view(&self) -> PayloadShapeModel {
        match self {
            PayloadShape::NoPayload => PayloadShapeModel::NoPayload,
            PayloadShape::SinglePositionalType(t) => PayloadShapeModel::SinglePositionalType(t@),
        }
    }
}

impl View for VariantSchema {
    type V = VariantSchemaModel;

    open spec fn view(&self) -> VariantSchemaModel {
        VariantSchemaModel {
            name: self.name,
            payload_shape: self.payload_shape@,
            slot: self.slot as int,
        }
    }
}

impl View for SumTypeSchema {
    type V = SchemaModel;

    open spec fn view(&self) -> SchemaModel {
        SchemaModel {
            name: self.name,
            generic_parameters: self.generic_parameters@,
            variants: self.variants@.map_values(|v: VariantSchema| v@),
        }
    }
}

/// The payload shape of a variant with the given field shape, or `None` for
/// the unsupported named-field shape.
pub open spec fn spec_classify_fields(fields: FieldsModel) -> Option<PayloadShapeModel> {
    match fields {
        FieldsModel::Unit => Some(PayloadShapeModel::NoPayload),
        FieldsModel::Unnamed(types) => if types.len() == 0 {
            Some(PayloadShapeModel::NoPayload)
        } else if types.len() == 1 {
            Some(PayloadShapeModel::SinglePositionalType(PayloadTypeModel::Name(types[0])))
        } else {
            Some(PayloadShapeModel::SinglePositionalType(PayloadTypeModel::TupleOf(types)))
        },
        FieldsModel::Named(_) => None,
    }
}

/// The variant schemas for the declared variants `vs`, in declaration order,
/// each with its declaration position as its slot, or the first declared
/// variant with the unsupported named-field shape.
pub open spec fn spec_extract_variants(vs: Seq<VariantDeclModel>) -> Result<
    Seq<VariantSchemaModel>,
    VariantDeclModel,
>
    decreases vs.len(),
{
    if vs.len() == 0 {
        Ok(Seq::empty())
    } else {
        match spec_extract_variants(vs.drop_last()) {
            Ok(schemas) => match spec_classify_fields(vs.last().fields) {
                Some(shape) => Ok(
                    schemas.push(
                        VariantSchemaModel {
                            name: vs.last().name,
                            payload_shape: shape,
                            slot: vs.len() - 1,
                        },
                    ),
                ),
                None => Err(vs.last()),
            },
            Err(v) => Err(v),
        }
    }
}

/// What schema extraction returns for the declaration `d`: the extracted
/// schema, or the error that aborts extraction.  The candidate's kind is
/// checked first, then the variant count, then the variants in declaration
/// order.
pub open spec fn spec_extract(d: TypeDeclModel) -> Result<SchemaModel, ExtractError> {
    if !(d.kind is SumType) {
        Err(ExtractError::WrongKind { candidate: d.name, kind: d.kind })
    } else if d.variants.len() < 2 {
        Err(
            ExtractError::DegenerateArity {
                candidate: d.name,
                arity: d.variants.len() as usize,
            },
        )
    } else if d.variants.len() > 8 {
        Err(
            ExtractError::UnsupportedArity {
                candidate: d.name,
                arity: d.variants.len() as usize,
            },
        )
    } else {
        match spec_extract_variants(d.variants) {
            Ok(variants) => Ok(
                SchemaModel { name: d.name, generic_parameters: d.generics, variants },
            ),
            Err(v) => Err(ExtractError::UnsupportedVariantShape { sum_type: d.name, variant: v.name }),
        }
    }
}

/// The model of an extraction result.
pub open spec fn extract_result_model(r: Result<SumTypeSchema, ExtractError>) -> Result<
    SchemaModel,
    ExtractError,
> {
    match r {
        Ok(schema) => Ok(schema@),
        Err(e) => Err(e),
    }
}

/// Extracting variant schemas succeeds exactly when no declared variant has
/// the named-field shape; on success it yields one schema per variant, in
/// declaration order, each with its declaration position as its slot; on
/// failure it yields the first offending variant.
pub proof fn lemma_extract_variants(vs: Seq<VariantDeclModel>)
    ensures
        spec_extract_variants(vs) is Ok <==> (forall|i: int|
            0 <= i < vs.len() ==> !(#[trigger] vs[i].fields is Named)),
        spec_extract_variants(vs) matches Ok(schemas) ==> {
            &&& schemas.len() == vs.len()
            &&& forall|i: int|
                0 <= i < vs.len() ==> {
                    &&& (#[trigger] schemas[i]).slot == i
                    &&& schemas[i].name == vs[i].name
                    &&& Some(schemas[i].payload_shape) == spec_classify_fields(vs[i].fields)
                }
        },
        spec_extract_variants(vs) matches Err(v) ==> exists|i: int|
            {
                &&& 0 <= i < vs.len()
                &&& #[trigger] vs[i] == v
                &&& vs[i].fields is Named
                &&& forall|j: int| 0 <= j < i ==> !(#[trigger] vs[j].fields is Named)
            },
    decreases vs.len(),
{
    if vs.len() > 0 {
        let prefix = vs.drop_last();
        let last = vs.last();
        lemma_extract_variants(prefix);
        assert(forall|i: int| 0 <= i < prefix.len() ==> prefix[i] == #[trigger] vs[i]);
        assert(vs[vs.len() - 1] == last);
        match spec_extract_variants(prefix) {
            Ok(schemas) => {
                if last.fields is Named {
                    let i = vs.len() - 1;
                    assert(vs[i] == last && vs[i].fields is Named && (forall|j: int|
                        0 <= j < i ==> !(#[trigger] vs[j].fields is Named)));
                }
            },
            Err(v) => {
                let i = choose|i: int|
                    {
                        &&& 0 <= i < prefix.len()
                        &&& #[trigger] prefix[i] == v
                        &&& prefix[i].fields is Named
                        &&& forall|j: int| 0 <= j < i ==> !(#[trigger] prefix[j].fields is Named)
                    };
                assert(vs[i] == v && vs[i].fields is Named && (forall|j: int|
                    0 <= j < i ==> !(#[trigger] vs[j].fields is Named)));
            },
        }
    }
}

/// Schema extraction is idempotent: it is a function of the declaration
/// alone, so extracting from the same sum-type declaration twice yields
/// identical schemas.  [`extract_schema`] returns exactly
/// [`spec_extract`] of its argument, so two calls on equal declarations
/// return equal results.
pub proof fn lemma_extraction_idempotent(d1: TypeDeclModel, d2: TypeDeclModel)
    requires
        d1 == d2,
    ensures
        spec_extract(d1) == spec_extract(d2),
{
}

/// Slot stability: when extraction succeeds, the slot of every variant is
/// exactly its declaration position, never a function of names, payload
/// shapes, or anything else in the declaration.
pub proof fn lemma_slot_stability(d: TypeDeclModel)
    ensures
        spec_extract(d) matches Ok(schema) ==> {
            &&& schema.variants.len() == d.variants.len()
            &&& forall|i: int|
                0 <= i < schema.variants.len() ==> (#[trigger] schema.variants[i]).slot == i
        },
{
    lemma_extract_variants(d.variants);
}

/// Copies a list of names.
fn clone_strings(v: &Vec<String>) -> (r: Vec<String>)
    ensures
        r@ == v@,
{
    let mut r: Vec<String> = Vec::new();
    let mut i: usize = 0;
    while i < v.len()
        invariant
            0 <= i <= v.len(),
            r@ =~= v@.take(i as int),
        decreases v.len() - i,
    {
        r.push(v[i].clone());
        i += 1;
    }
    proof {
        assert(v@.take(v@.len() as int) =~= v@);
    }
    r
}

/// Derives the schema of the candidate described by `decl`, or the error
/// that aborts extraction, exactly as [`spec_extract`] says: extraction
/// succeeds if and only if the candidate is a sum type with two to eight
/// variants, none of which carries a named-field payload, and the extracted
/// schema lists one variant schema per declared variant, in declaration
/// order, each holding the variant's name, its payload shape, and its
/// declaration position as its output slot.
pub fn extract_schema(decl: &TypeDecl) -> (r: Result<SumTypeSchema, ExtractError>)
    ensures
        extract_result_model(r) == spec_extract(decl@),
        r is Ok <==> {
            &&& decl.kind is SumType
            &&& 2 <= decl.variants@.len() <= 8
            &&& forall|i: int|
                0 <= i < decl.variants@.len() ==> !((#[trigger] decl.variants@[i]).fields@
                    is Named)
        },
        r matches Ok(schema) ==> {
            &&& schema.name@ == decl.name@
            &&& schema.generic_parameters@ == decl.generics@
            &&& schema.variants@.len() == decl.variants@.len()
            &&& forall|i: int|
                0 <= i < schema.variants@.len() ==> (#[trigger] schema.variants@[i]).slot == i
        },
{
    if decl.kind != CandidateKind::SumType {
        return Err(ExtractError::WrongKind { candidate: decl.name.clone(), kind: decl.kind });
    }
    let arity = decl.variants.len();
    if arity < 2 {
        return Err(ExtractError::DegenerateArity { candidate: decl.name.clone(), arity });
    }
    if arity > 8 {
        return Err(ExtractError::UnsupportedArity { candidate: decl.name.clone(), arity });
    }
    let ghost decl_variants = decl@.variants;
    proof {
        assert(forall|j: int|
            0 <= j < decl.variants@.len() ==> decl_variants[j] == (#[trigger] decl.variants@[j])@);
        assert(decl_variants.take(0) =~= Seq::<VariantDeclModel>::empty());
        assert(Seq::<VariantSchema>::empty().map_values(|v: VariantSchema| v@) =~= Seq::<
            VariantSchemaModel,
        >::empty());
    }
    let mut variants: Vec<VariantSchema> = Vec::new();
    let mut i: usize = 0;
    while i < arity
        invariant
            arity == decl.variants.len(),
            decl_variants == decl@.variants,
            decl_variants.len() == decl.variants@.len(),
            decl@.kind is SumType,
            2 <= arity <= 8,
            forall|j: int|
                0 <= j < decl.variants@.len() ==> decl_variants[j]
                    == (#[trigger] decl.variants@[j])@,
            0 <= i <= arity,
            spec_extract_variants(decl_variants.take(i as int)) == Ok::<_, VariantDeclModel>(
                variants@.map_values(|v: VariantSchema| v@),
            ),
        decreases arity - i,
    {
        let v = &decl.variants[i];
        let shape = match &v.fields {
            FieldsDecl::Unit => PayloadShape::NoPayload,
            FieldsDecl::Unnamed(types) => {
                if types.len() == 0 {
                    PayloadShape::NoPayload
                } else if types.len() == 1 {
                    PayloadShape::SinglePositionalType(PayloadType::Name(types[0].clone()))
                } else {
                    PayloadShape::SinglePositionalType(PayloadType::TupleOf(clone_strings(types)))
                }
            },
            FieldsDecl::Named(_) => {
                proof {
                    lemma_extract_variants(decl_variants);
                    lemma_extract_variants(decl_variants.take(i as int));
                    assert(forall|j: int|
                        0 <= j < i ==> decl_variants.take(i as int)[j] == #[trigger] decl_variants[j]);
                    assert(decl_variants[i as int].fields is Named);
                    assert(spec_extract_variants(decl_variants) matches Err(off) && off
                        == decl_variants[i as int]) by {
                        let k = choose|k: int|
                            {
                                &&& 0 <= k < decl_variants.len()
                                &&& #[trigger] decl_variants[k] == spec_extract_variants(
                                    decl_variants,
                                )->Err_0
                                &&& decl_variants[k].fields is Named
                                &&& forall|j: int|
                                    0 <= j < k ==> !(#[trigger] decl_variants[j].fields is Named)
                            };
                        assert(!(k < i) && !(i < k));
                    }
                    assert(spec_extract(decl@) == Err::<SchemaModel, ExtractError>(
                        ExtractError::UnsupportedVariantShape {
                            sum_type: decl@.name,
                            variant: decl_variants[i as int].name,
                        },
                    ));
                }
                return Err(
                    ExtractError::UnsupportedVariantShape {
                        sum_type: decl.name.clone(),
                        variant: v.name.clone(),
                    },
                );
            },
        };
        let ghost pre = variants@;
        variants.push(VariantSchema { name: v.name.clone(), payload_shape: shape, slot: i });
        proof {
            let taken = decl_variants.take(i + 1);
            assert(taken.drop_last() =~= decl_variants.take(i as int));
            assert(taken.last() == decl_variants[i as int]);
            assert(spec_classify_fields(decl_variants[i as int].fields) matches Some(m) && m
                == shape@);
            assert(variants@.last()@ == VariantSchemaModel {
                name: decl_variants[i as int].name,
                payload_shape: spec_classify_fields(decl_variants[i as int].fields)->0,
                slot: i as int,
            });
            assert(variants@.map_values(|v: VariantSchema| v@) =~= pre.map_values(
                |v: VariantSchema| v@,
            ).push(variants@.last()@));
        }
        i += 1;
    }
    let schema = SumTypeSchema {
        name: decl.name.clone(),
        generic_parameters: clone_strings(&decl.generics),
        variants,
    };
    proof {
        assert(decl_variants.take(arity as int) =~= decl_variants);
        lemma_extract_variants(decl_variants);
        let schemas = schema.variants@.map_values(|v: VariantSchema| v@);
        assert(spec_extract_variants(decl_variants) == Ok::<_, VariantDeclModel>(schemas));
        assert(spec_extract(decl@) == Ok::<SchemaModel, ExtractError>(schema@));
        assert forall|j: int|
            0 <= j < schema.variants@.len() implies (#[trigger] schema.variants@[j]).slot
            == j by {
            assert(schemas[j] == schema.variants@[j]@);
        }
        assert forall|j: int|
            0 <= j < decl.variants@.len() implies !((#[trigger] decl.variants@[j]).fields@
            is Named) by {
            assert(decl_variants[j] == decl.variants@[j]@);
            assert(!(decl_variants[j].fields is Named));
        }
    }
    Ok(schema)
}

} // verus!
