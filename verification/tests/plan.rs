use derive_builder::plan::{
    plan_field, synthesize, BuilderSpec, FieldPlan, Method, MethodKind, Obligation, Shape,
    StorageKind,
};
use derive_builder::schema::{
    is_sequence, outer_wrapper, AccessorDirective, ConfigError, ConfigErrorKind, Field, Record,
    TypeDesc, Wrapper,
};

fn field<'a>(
    name: &'a str,
    ty: &'a TypeDesc,
    chain: Vec<Wrapper>,
    directive: Option<&str>,
) -> Field<'a> {
    Field {
        name,
        declared_type: ty,
        wrapper_chain: chain,
        value_type: ty,
        element_type: ty,
        directive: directive.map(|d| AccessorDirective { singular_name: d.to_string() }),
    }
}

fn plan(
    name: &str,
    storage: StorageKind,
    obligation: Obligation,
    shape: Shape,
    bulk_setter: bool,
    element_setter: Option<&str>,
) -> FieldPlan {
    FieldPlan {
        name: name.to_string(),
        storage,
        obligation,
        shape,
        bulk_setter,
        element_setter: element_setter.map(|s| s.to_string()),
    }
}

#[test]
fn bare_field_is_required() {
    let ty = TypeDesc::plain("String");
    assert_eq!(
        plan_field(&field("name", &ty, vec![], None)),
        Ok(plan("name", StorageKind::Wrapped, Obligation::Required, Shape::Element, true, None))
    );
}

#[test]
fn optional_field_is_stored_flat() {
    let ty = TypeDesc::plain("String");
    assert_eq!(
        plan_field(&field("alias", &ty, vec![Wrapper::Optional], None)),
        Ok(plan("alias", StorageKind::Flattened, Obligation::Optional, Shape::Element, true, None))
    );
}

#[test]
fn optional_sequence_takes_a_sequence() {
    let ty = TypeDesc::plain("String");
    assert_eq!(
        plan_field(&field("env", &ty, vec![Wrapper::Optional, Wrapper::Repeated], None)),
        Ok(plan("env", StorageKind::Flattened, Obligation::Optional, Shape::Sequence, true, None))
    );
}

#[test]
fn repeated_field_defaults_to_empty() {
    let ty = TypeDesc::plain("String");
    assert_eq!(
        plan_field(&field("tags", &ty, vec![Wrapper::Repeated], None)),
        Ok(plan(
            "tags",
            StorageKind::WrappedSequence,
            Obligation::DefaultsEmpty,
            Shape::Sequence,
            true,
            None
        ))
    );
}

#[test]
fn directive_adds_the_per_element_setter() {
    let ty = TypeDesc::plain("String");
    assert_eq!(
        plan_field(&field("tags", &ty, vec![Wrapper::Repeated], Some("tag"))),
        Ok(plan(
            "tags",
            StorageKind::WrappedSequence,
            Obligation::DefaultsEmpty,
            Shape::Sequence,
            true,
            Some("tag")
        ))
    );
}

#[test]
fn directive_with_the_name_of_the_field_suppresses_the_bulk_setter() {
    let ty = TypeDesc::plain("String");
    assert_eq!(
        plan_field(&field("env", &ty, vec![Wrapper::Repeated], Some("env"))),
        Ok(plan(
            "env",
            StorageKind::WrappedSequence,
            Obligation::DefaultsEmpty,
            Shape::Sequence,
            false,
            Some("env")
        ))
    );
}

#[test]
fn directive_on_a_field_that_is_not_repeated_is_refused() {
    let ty = TypeDesc::plain("String");
    assert_eq!(
        plan_field(&field("name", &ty, vec![], Some("n"))),
        Err(ConfigErrorKind::MisplacedDirective)
    );
    assert_eq!(
        plan_field(&field("name", &ty, vec![Wrapper::Optional], Some("n"))),
        Err(ConfigErrorKind::MisplacedDirective)
    );
    assert_eq!(
        plan_field(&field("name", &ty, vec![Wrapper::Optional, Wrapper::Repeated], Some("n"))),
        Err(ConfigErrorKind::MisplacedDirective)
    );
    assert_eq!(
        plan_field(&field("name", &ty, vec![Wrapper::Bare], Some("name"))),
        Err(ConfigErrorKind::MisplacedDirective)
    );
}

#[test]
fn outer_wrapper_of_chains() {
    assert_eq!(outer_wrapper(&vec![]), Wrapper::Bare);
    assert_eq!(outer_wrapper(&vec![Wrapper::Optional, Wrapper::Repeated]), Wrapper::Optional);
    assert_eq!(outer_wrapper(&vec![Wrapper::Repeated]), Wrapper::Repeated);
    assert!(!is_sequence(&vec![]));
    assert!(!is_sequence(&vec![Wrapper::Optional]));
    assert!(is_sequence(&vec![Wrapper::Optional, Wrapper::Repeated]));
    assert!(is_sequence(&vec![Wrapper::Repeated]));
    assert!(is_sequence(&vec![Wrapper::Repeated, Wrapper::Optional]));
    assert!(!is_sequence(&vec![Wrapper::Bare, Wrapper::Repeated]));
}

#[test]
fn synthesize_plans_the_fields_in_declaration_order() {
    let ty = TypeDesc::plain("String");
    let record = Record {
        name: "Command",
        fields: vec![
            field("executable", &ty, vec![], None),
            field("args", &ty, vec![Wrapper::Repeated], Some("arg")),
            field("env", &ty, vec![Wrapper::Repeated], Some("env")),
            field("current_dir", &ty, vec![Wrapper::Optional], None),
        ],
    };
    let spec = synthesize(&record).unwrap();
    assert_eq!(spec.record_name, "Command");
    assert_eq!(spec.builder_name, "CommandBuilder");
    assert_eq!(
        spec.fields,
        vec![
            plan("executable", StorageKind::Wrapped, Obligation::Required, Shape::Element, true, None),
            plan(
                "args",
                StorageKind::WrappedSequence,
                Obligation::DefaultsEmpty,
                Shape::Sequence,
                true,
                Some("arg")
            ),
            plan(
                "env",
                StorageKind::WrappedSequence,
                Obligation::DefaultsEmpty,
                Shape::Sequence,
                false,
                Some("env")
            ),
            plan("current_dir", StorageKind::Flattened, Obligation::Optional, Shape::Element, true, None),
        ]
    );
}

#[test]
fn synthesize_of_a_record_without_fields() {
    let record = Record { name: "Unit", fields: vec![] };
    assert_eq!(
        synthesize(&record),
        Ok(BuilderSpec {
            record_name: "Unit".to_string(),
            builder_name: "UnitBuilder".to_string(),
            fields: vec![],
        })
    );
}

#[test]
fn synthesize_reports_the_first_misplaced_directive() {
    let ty = TypeDesc::plain("String");
    let record = Record {
        name: "Command",
        fields: vec![
            field("executable", &ty, vec![], None),
            field("dir", &ty, vec![Wrapper::Optional], Some("d")),
            field("name", &ty, vec![], Some("n")),
        ],
    };
    assert_eq!(
        synthesize(&record),
        Err(ConfigError { field: 1, kind: ConfigErrorKind::MisplacedDirective })
    );
}

fn command() -> BuilderSpec {
    BuilderSpec {
        record_name: "Command".to_string(),
        builder_name: "CommandBuilder".to_string(),
        fields: vec![
            plan("executable", StorageKind::Wrapped, Obligation::Required, Shape::Element, true, None),
            plan(
                "args",
                StorageKind::WrappedSequence,
                Obligation::DefaultsEmpty,
                Shape::Sequence,
                true,
                Some("arg"),
            ),
            plan(
                "env",
                StorageKind::WrappedSequence,
                Obligation::DefaultsEmpty,
                Shape::Sequence,
                false,
                Some("env"),
            ),
            plan("current_dir", StorageKind::Flattened, Obligation::Optional, Shape::Element, true, None),
        ],
    }
}

fn method(name: &str, field: usize, kind: MethodKind, takes: Shape) -> Method {
    Method { name: name.to_string(), field, kind, takes }
}

#[test]
fn methods_are_listed_in_emission_order() {
    assert_eq!(
        command().methods(),
        vec![
            method("executable", 0, MethodKind::Bulk, Shape::Element),
            method("args", 1, MethodKind::Bulk, Shape::Sequence),
            method("current_dir", 3, MethodKind::Bulk, Shape::Element),
            method("arg", 1, MethodKind::PerElement, Shape::Element),
            method("env", 2, MethodKind::PerElement, Shape::Element),
        ]
    );
}

#[test]
fn field_with_colliding_directive_has_the_per_element_setter_only() {
    let methods = command().methods();
    let of_env: Vec<&Method> = methods.iter().filter(|m| m.field == 2).collect();
    assert_eq!(of_env.len(), 1);
    assert_eq!(of_env[0].kind, MethodKind::PerElement);
    assert_eq!(of_env[0].name, "env");
}

#[test]
fn find_method_resolves_names() {
    let spec = command();
    assert_eq!(spec.find_method("executable"), Some((0, MethodKind::Bulk)));
    assert_eq!(spec.find_method("args"), Some((1, MethodKind::Bulk)));
    assert_eq!(spec.find_method("arg"), Some((1, MethodKind::PerElement)));
    assert_eq!(spec.find_method("env"), Some((2, MethodKind::PerElement)));
    assert_eq!(spec.find_method("current_dir"), Some((3, MethodKind::Bulk)));
    assert_eq!(spec.find_method("build"), None);
    assert_eq!(spec.find_method(""), None);
}

#[test]
fn find_method_prefers_the_bulk_setter_and_the_earlier_field() {
    let spec = BuilderSpec {
        record_name: "R".to_string(),
        builder_name: "RBuilder".to_string(),
        fields: vec![
            plan("a", StorageKind::WrappedSequence, Obligation::DefaultsEmpty, Shape::Sequence, true, Some("b")),
            plan("b", StorageKind::Wrapped, Obligation::Required, Shape::Element, true, None),
            plan("c", StorageKind::WrappedSequence, Obligation::DefaultsEmpty, Shape::Sequence, true, Some("x")),
            plan("d", StorageKind::WrappedSequence, Obligation::DefaultsEmpty, Shape::Sequence, true, Some("x")),
        ],
    };
    assert_eq!(spec.find_method("b"), Some((1, MethodKind::Bulk)));
    assert_eq!(spec.find_method("x"), Some((2, MethodKind::PerElement)));
}
