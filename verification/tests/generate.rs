use derive_builder::annotate::{
    annotate, annotate_field, annotate_scalar, annotate_scalars, annotate_with,
};
use derive_builder::generate::generate;
use derive_builder::plan::{plan_field, FieldPlan, Obligation, Shape, StorageKind};
use derive_builder::schema::{
    AccessorDirective, Attribute, ConfigError, ConfigErrorKind, FieldDecl, RecordDecl, TypeDesc,
    Wrapper,
};

fn each(name: &str) -> Vec<Attribute> {
    vec![Attribute {
        name: "builder".to_string(),
        arguments: Some(vec!["each".to_string(), "=".to_string(), format!("\"{}\"", name)]),
    }]
}

fn decl(name: &str, declared_type: TypeDesc, attributes: Vec<Attribute>) -> FieldDecl {
    FieldDecl { name: name.to_string(), declared_type, attributes }
}

fn string() -> TypeDesc {
    TypeDesc::plain("String")
}

fn command() -> RecordDecl {
    RecordDecl {
        name: "Command".to_string(),
        fields: vec![
            decl("executable", string(), vec![]),
            decl("args", TypeDesc::generic("Vec", string()), each("arg")),
            decl("env", TypeDesc::generic("Vec", string()), each("env")),
            decl("current_dir", TypeDesc::generic("Option", string()), vec![]),
        ],
    }
}

#[test]
fn annotate_field_fills_in_chain_element_and_directive() {
    let d = decl("args", TypeDesc::generic("Vec", string()), each("arg"));
    let field = annotate_field(&d).unwrap();
    assert_eq!(field.name, "args");
    assert_eq!(field.declared_type, &TypeDesc::generic("Vec", string()));
    assert_eq!(field.wrapper_chain, vec![Wrapper::Repeated]);
    assert_eq!(field.value_type, &TypeDesc::generic("Vec", string()));
    assert_eq!(field.element_type, &string());
    assert_eq!(field.directive, Some(AccessorDirective { singular_name: "arg".to_string() }));
}

#[test]
fn annotate_field_of_an_optional_sequence() {
    let ty = TypeDesc::generic("Option", TypeDesc::generic("Vec", string()));
    let d = decl("env", ty, vec![]);
    let field = annotate_field(&d).unwrap();
    assert_eq!(field.wrapper_chain, vec![Wrapper::Optional, Wrapper::Repeated]);
    assert_eq!(field.value_type, &TypeDesc::generic("Vec", string()));
    assert_eq!(field.element_type, &string());
    assert_eq!(field.directive, None);
}

#[test]
fn directive_on_a_bare_field_is_refused_at_annotation() {
    let d = decl("name", string(), each("n"));
    assert_eq!(annotate_field(&d), Err(ConfigErrorKind::MisplacedDirective));
}

#[test]
fn directive_on_an_optional_field_is_refused_at_annotation() {
    let d = decl("name", TypeDesc::generic("Option", string()), each("n"));
    assert_eq!(annotate_field(&d), Err(ConfigErrorKind::MisplacedDirective));
}

#[test]
fn directive_on_an_optional_sequence_is_refused_at_annotation() {
    let ty = TypeDesc::generic("Option", TypeDesc::generic("Vec", string()));
    let d = decl("name", ty, each("n"));
    assert_eq!(annotate_field(&d), Err(ConfigErrorKind::MisplacedDirective));
}

#[test]
fn type_errors_come_before_directive_errors() {
    let bad = vec![Attribute { name: "doc".to_string(), arguments: None }];
    assert_eq!(
        annotate_field(&decl("x", TypeDesc::opaque("&str"), bad.clone())),
        Err(ConfigErrorKind::UnsupportedType)
    );
    assert_eq!(
        annotate_field(&decl("x", TypeDesc::plain("Vec"), bad.clone())),
        Err(ConfigErrorKind::MalformedWrapper)
    );
    assert_eq!(annotate_field(&decl("x", string(), bad)), Err(ConfigErrorKind::UnsupportedAttribute));
}

#[test]
fn directive_is_parsed_before_it_is_placed() {
    let attribute = vec![Attribute {
        name: "builder".to_string(),
        arguments: Some(vec!["eac".to_string(), "=".to_string(), "\"n\"".to_string()]),
    }];
    assert_eq!(
        annotate_field(&decl("name", string(), attribute)),
        Err(ConfigErrorKind::MalformedDirective)
    );
    let attribute =
        vec![Attribute { name: "builder".to_string(), arguments: Some(vec!["each".to_string()]) }];
    assert_eq!(
        annotate_field(&decl("name", string(), attribute)),
        Err(ConfigErrorKind::MalformedDirective)
    );
}

#[test]
fn annotate_keeps_the_order_of_the_fields() {
    let record = command();
    let annotated = annotate(&record).unwrap();
    assert_eq!(annotated.name, "Command");
    let names: Vec<&str> = annotated.fields.iter().map(|f| f.name).collect();
    assert_eq!(names, vec!["executable", "args", "env", "current_dir"]);
    assert_eq!(annotated.fields[3].wrapper_chain, vec![Wrapper::Optional]);
}

#[test]
fn annotate_reports_the_first_field_that_is_refused() {
    let record = RecordDecl {
        name: "R".to_string(),
        fields: vec![
            decl("a", string(), vec![]),
            decl("b", string(), each("x")),
            decl("c", TypeDesc::opaque("()"), vec![]),
        ],
    };
    assert_eq!(
        annotate(&record),
        Err(ConfigError { field: 1, kind: ConfigErrorKind::MisplacedDirective })
    );
}

#[test]
fn generate_plans_a_declared_record() {
    let spec = generate(&command()).unwrap();
    assert_eq!(spec.record_name, "Command");
    assert_eq!(spec.builder_name, "CommandBuilder");
    assert_eq!(spec.fields.len(), 4);
    assert_eq!(
        spec.fields[1],
        FieldPlan {
            name: "args".to_string(),
            storage: StorageKind::WrappedSequence,
            obligation: Obligation::DefaultsEmpty,
            shape: Shape::Sequence,
            bulk_setter: true,
            element_setter: Some("arg".to_string()),
        }
    );
    assert_eq!(spec.fields[0].obligation, Obligation::Required);
    assert!(!spec.fields[2].bulk_setter);
    assert_eq!(spec.fields[3].storage, StorageKind::Flattened);
}

#[test]
fn generate_of_a_record_without_fields() {
    let spec = generate(&RecordDecl { name: "Unit".to_string(), fields: vec![] }).unwrap();
    assert_eq!(spec.builder_name, "UnitBuilder");
    assert!(spec.fields.is_empty());
    assert!(spec.methods().is_empty());
}

#[test]
fn generate_fails_on_a_misplaced_directive() {
    let record = RecordDecl {
        name: "R".to_string(),
        fields: vec![decl("a", string(), vec![]), decl("name", string(), each("n"))],
    };
    assert_eq!(
        generate(&record),
        Err(ConfigError { field: 1, kind: ConfigErrorKind::MisplacedDirective })
    );
}

#[test]
fn generate_fails_on_an_unsupported_attribute() {
    let record = RecordDecl {
        name: "R".to_string(),
        fields: vec![decl(
            "a",
            TypeDesc::generic("Vec", string()),
            vec![Attribute { name: "doc".to_string(), arguments: None }],
        )],
    };
    assert_eq!(
        generate(&record),
        Err(ConfigError { field: 0, kind: ConfigErrorKind::UnsupportedAttribute })
    );
}

#[test]
fn generate_fails_on_a_name_that_is_no_identifier() {
    let record = RecordDecl {
        name: "R".to_string(),
        fields: vec![decl("a", TypeDesc::generic("Vec", string()), each("not an identifier"))],
    };
    assert_eq!(
        generate(&record),
        Err(ConfigError { field: 0, kind: ConfigErrorKind::MalformedDirective })
    );
}

#[test]
fn messages_of_configuration_errors() {
    assert_eq!(
        ConfigErrorKind::UnsupportedAttribute.message(),
        "only the `builder` attribute is supported"
    );
    assert_eq!(ConfigErrorKind::MalformedDirective.message(), "expected `builder(each = \"...\")`");
    assert_eq!(ConfigErrorKind::MisplacedDirective.message(), "only `Vec` fields may carry `each`");
    assert_eq!(ConfigErrorKind::UnsupportedType.message(), "the field type must be a path");
    assert_eq!(
        ConfigErrorKind::MalformedWrapper.message(),
        "the wrapper type has no type argument"
    );
}

#[test]
fn only_the_first_attribute_is_read() {
    let mut attributes = each("arg");
    attributes.push(Attribute { name: "doc".to_string(), arguments: None });
    let d = decl("args", TypeDesc::generic("Vec", string()), attributes);
    let field = annotate_field(&d).unwrap();
    assert_eq!(field.directive, Some(AccessorDirective { singular_name: "arg".to_string() }));

    let mut attributes = vec![Attribute { name: "doc".to_string(), arguments: None }];
    attributes.extend(each("arg"));
    let d = decl("args", TypeDesc::generic("Vec", string()), attributes);
    assert_eq!(annotate_field(&d), Err(ConfigErrorKind::UnsupportedAttribute));
}

#[test]
fn scalar_annotation_keeps_only_the_optional_wrapper() {
    let d = decl("args", TypeDesc::generic("Vec", string()), each("arg"));
    let plain = annotate_scalar(&d).unwrap();
    assert_eq!(plain.name, "args");
    assert_eq!(plain.wrapper_chain, Vec::<Wrapper>::new());
    assert_eq!(plain.value_type, &TypeDesc::generic("Vec", string()));
    assert_eq!(plain.element_type, &TypeDesc::generic("Vec", string()));
    assert_eq!(plain.directive, None);
    assert_eq!(plan_field(&plain).unwrap().obligation, Obligation::Required);

    let ty = TypeDesc::generic("Option", TypeDesc::generic("Vec", string()));
    let d = decl("env", ty, vec![]);
    let plain = annotate_scalar(&d).unwrap();
    assert_eq!(plain.wrapper_chain, vec![Wrapper::Optional]);
    assert_eq!(plain.value_type, &TypeDesc::generic("Vec", string()));
    assert_eq!(plain.element_type, &TypeDesc::generic("Vec", string()));
    let plan = plan_field(&plain).unwrap();
    assert_eq!(plan.obligation, Obligation::Optional);
    assert_eq!(plan.shape, Shape::Element);
    assert_eq!(plan.storage, StorageKind::Flattened);

    let d = decl("name", string(), vec![]);
    assert_eq!(annotate_scalar(&d), annotate_field(&d));
}

#[test]
fn scalar_annotation_does_not_read_attributes() {
    let d = decl(
        "name",
        string(),
        vec![Attribute { name: "doc".to_string(), arguments: None }],
    );
    let plain = annotate_scalar(&d).unwrap();
    assert_eq!(plain.directive, None);
    assert_eq!(plain.wrapper_chain, Vec::<Wrapper>::new());
}

#[test]
fn scalar_annotation_of_a_record() {
    let record = command();
    let annotated = annotate_scalars(&record).unwrap();
    assert_eq!(annotated.name, "Command");
    let chains: Vec<Vec<Wrapper>> =
        annotated.fields.iter().map(|f| f.wrapper_chain.clone()).collect();
    assert_eq!(chains, vec![vec![], vec![], vec![], vec![Wrapper::Optional]]);
    assert!(annotated.fields.iter().all(|f| f.directive.is_none()));

    let record = RecordDecl {
        name: "R".to_string(),
        fields: vec![
            decl("a", string(), vec![]),
            decl("b", TypeDesc::plain("Option"), vec![]),
            decl("c", TypeDesc::opaque("()"), vec![]),
        ],
    };
    assert_eq!(
        annotate_scalars(&record),
        Err(ConfigError { field: 1, kind: ConfigErrorKind::MalformedWrapper })
    );
}

#[test]
fn annotate_with_takes_the_outcome_of_the_parse() {
    let sequence = decl("args", TypeDesc::generic("Vec", string()), vec![]);
    let accepted = Some(Ok(AccessorDirective { singular_name: "arg".to_string() }));
    let field = annotate_with(&sequence, accepted.clone()).unwrap();
    assert_eq!(field.directive, Some(AccessorDirective { singular_name: "arg".to_string() }));
    assert_eq!(field.wrapper_chain, vec![Wrapper::Repeated]);
    assert_eq!(annotate_with(&sequence, None).unwrap().directive, None);
    assert_eq!(
        annotate_with(&sequence, Some(Err(ConfigErrorKind::MalformedDirective))),
        Err(ConfigErrorKind::MalformedDirective)
    );

    let bare = decl("name", string(), vec![]);
    assert_eq!(
        annotate_with(&bare, accepted.clone()),
        Err(ConfigErrorKind::MisplacedDirective)
    );
    let broken = decl("name", TypeDesc::opaque("&str"), vec![]);
    assert_eq!(annotate_with(&broken, accepted), Err(ConfigErrorKind::UnsupportedType));
    assert_eq!(
        annotate_with(&broken, Some(Err(ConfigErrorKind::UnsupportedAttribute))),
        Err(ConfigErrorKind::UnsupportedType)
    );
}

#[test]
fn description_names_the_field() {
    let record = RecordDecl {
        name: "R".to_string(),
        fields: vec![decl("a", string(), vec![]), decl("name", string(), each("n"))],
    };
    let error = generate(&record).unwrap_err();
    assert_eq!(error.describe(&record), "field `name`: only `Vec` fields may carry `each`");
    let elsewhere = ConfigError { field: 2, kind: ConfigErrorKind::UnsupportedType };
    assert_eq!(elsewhere.describe(&record), "the field type must be a path");
}
