use edisp::schema::CandidateKind;
use edisp::schema::ExtractError;
use edisp::schema::FieldsDecl;
use edisp::schema::PayloadShape;
use edisp::schema::PayloadType;
use edisp::schema::TypeDecl;
use edisp::schema::VariantDecl;
use edisp::schema::extract_schema;

fn variant(name: &str, fields: FieldsDecl) -> VariantDecl {
    VariantDecl { name: name.to_string(), fields }
}

fn sum_type(name: &str, generics: &[&str], variants: Vec<VariantDecl>) -> TypeDecl {
    TypeDecl {
        kind: CandidateKind::SumType,
        name: name.to_string(),
        generics: generics.iter().map(|g| g.to_string()).collect(),
        variants,
    }
}

#[test]
fn extracts_a_two_variant_sum_type() {
    let decl = sum_type(
        "Outcome",
        &[],
        vec![
            variant("First", FieldsDecl::Unnamed(vec!["i64".to_string()])),
            variant("Second", FieldsDecl::Unnamed(vec!["String".to_string()])),
        ],
    );

    let schema = extract_schema(&decl).unwrap();
    assert_eq!(schema.name, "Outcome");
    assert!(schema.generic_parameters.is_empty());
    assert_eq!(schema.variants.len(), 2);
    assert_eq!(schema.variants[0].name, "First");
    assert_eq!(schema.variants[0].slot, 0);
    assert_eq!(
        schema.variants[0].payload_shape,
        PayloadShape::SinglePositionalType(PayloadType::Name("i64".to_string()))
    );
    assert_eq!(schema.variants[1].name, "Second");
    assert_eq!(schema.variants[1].slot, 1);
    assert_eq!(
        schema.variants[1].payload_shape,
        PayloadShape::SinglePositionalType(PayloadType::Name("String".to_string()))
    );
}

#[test]
fn records_generics_and_payload_shapes() {
    let decl = sum_type(
        "Mixed",
        &["T", "U"],
        vec![
            variant("Nothing", FieldsDecl::Unit),
            variant("AlsoNothing", FieldsDecl::Unnamed(Vec::new())),
            variant("Pair", FieldsDecl::Unnamed(vec!["T".to_string(), "U".to_string()])),
        ],
    );

    let schema = extract_schema(&decl).unwrap();
    assert_eq!(schema.generic_parameters, vec!["T".to_string(), "U".to_string()]);
    assert_eq!(schema.variants[0].payload_shape, PayloadShape::NoPayload);
    assert_eq!(schema.variants[1].payload_shape, PayloadShape::NoPayload);
    assert_eq!(
        schema.variants[2].payload_shape,
        PayloadShape::SinglePositionalType(PayloadType::TupleOf(vec![
            "T".to_string(),
            "U".to_string()
        ]))
    );
    let slots: Vec<usize> = schema.variants.iter().map(|v| v.slot).collect();
    assert_eq!(slots, vec![0, 1, 2]);
}

#[test]
fn wrong_kind_on_a_record() {
    let decl = TypeDecl {
        kind: CandidateKind::Record,
        name: "Point".to_string(),
        generics: Vec::new(),
        variants: Vec::new(),
    };

    assert_eq!(
        extract_schema(&decl),
        Err(ExtractError::WrongKind {
            candidate: "Point".to_string(),
            kind: CandidateKind::Record,
        })
    );
}

#[test]
fn wrong_kind_on_a_union() {
    let decl = TypeDecl {
        kind: CandidateKind::Union,
        name: "Raw".to_string(),
        generics: Vec::new(),
        variants: Vec::new(),
    };

    assert_eq!(
        extract_schema(&decl),
        Err(ExtractError::WrongKind {
            candidate: "Raw".to_string(),
            kind: CandidateKind::Union,
        })
    );
}

#[test]
fn degenerate_arity_on_a_single_variant() {
    let decl = sum_type(
        "Lonely",
        &[],
        vec![variant("Only", FieldsDecl::Unnamed(vec!["u8".to_string()]))],
    );

    assert_eq!(
        extract_schema(&decl),
        Err(ExtractError::DegenerateArity { candidate: "Lonely".to_string(), arity: 1 })
    );
}

#[test]
fn degenerate_arity_on_no_variants() {
    let decl = sum_type("Empty", &[], Vec::new());

    assert_eq!(
        extract_schema(&decl),
        Err(ExtractError::DegenerateArity { candidate: "Empty".to_string(), arity: 0 })
    );
}

#[test]
fn unsupported_arity_above_the_ceiling() {
    let variants = (0..9)
        .map(|i| variant(&format!("V{}", i), FieldsDecl::Unit))
        .collect();
    let decl = sum_type("Wide", &[], variants);

    assert_eq!(
        extract_schema(&decl),
        Err(ExtractError::UnsupportedArity { candidate: "Wide".to_string(), arity: 9 })
    );
}

#[test]
fn unsupported_shape_on_named_fields() {
    let decl = sum_type(
        "Tagged",
        &[],
        vec![
            variant("Plain", FieldsDecl::Unnamed(vec!["u8".to_string()])),
            variant(
                "Labelled",
                FieldsDecl::Named(vec!["left".to_string(), "right".to_string()]),
            ),
        ],
    );

    assert_eq!(
        extract_schema(&decl),
        Err(ExtractError::UnsupportedVariantShape {
            sum_type: "Tagged".to_string(),
            variant: "Labelled".to_string(),
        })
    );
}

#[test]
fn first_offending_variant_is_reported() {
    let decl = sum_type(
        "Tagged",
        &[],
        vec![
            variant("First", FieldsDecl::Named(vec!["a".to_string()])),
            variant("Second", FieldsDecl::Named(vec!["b".to_string()])),
        ],
    );

    assert_eq!(
        extract_schema(&decl),
        Err(ExtractError::UnsupportedVariantShape {
            sum_type: "Tagged".to_string(),
            variant: "First".to_string(),
        })
    );
}

#[test]
fn schema_extraction_is_idempotent() {
    let decl = sum_type(
        "Outcome",
        &["T"],
        vec![
            variant("Hit", FieldsDecl::Unnamed(vec!["T".to_string()])),
            variant("Miss", FieldsDecl::Unit),
        ],
    );

    let first = extract_schema(&decl);
    let second = extract_schema(&decl);
    assert_eq!(first, second);
}
