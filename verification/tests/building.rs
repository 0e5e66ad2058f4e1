use derive_builder::builder::{missing_field, Builder, FieldValue};
use derive_builder::classify::{classify_record, ClassifiedField, FieldClassification};
use derive_builder::descriptor::{
    Annotation, AnnotationBody, Entry, Field, GenericArgument, PathSegment, RecordDescriptor,
    RecordShape, TypeExpr,
};

#[derive(Debug, Clone, PartialEq)]
enum Value {
    Text(String),
    List(Vec<String>),
    Number(i64),
}

fn text(s: &str) -> Value {
    Value::Text(s.to_string())
}

fn list(items: &[&str]) -> Value {
    Value::List(items.iter().map(|s| s.to_string()).collect())
}

fn simple(name: &str) -> TypeExpr {
    TypeExpr {
        text: name.to_string(),
        path: Some(vec![PathSegment { name: name.to_string(), arguments: vec![] }]),
    }
}

fn wrapped(wrapper: &str, inner: &str) -> TypeExpr {
    TypeExpr {
        text: format!("{}<{}>", wrapper, inner),
        path: Some(vec![PathSegment {
            name: wrapper.to_string(),
            arguments: vec![GenericArgument::Type(inner.to_string())],
        }]),
    }
}

fn each(value: &str) -> Annotation {
    Annotation {
        key: "builder".to_string(),
        body: AnnotationBody::List(vec![Entry::StringValue {
            key: "each".to_string(),
            value: value.to_string(),
        }]),
    }
}

fn field(name: &str, ty: TypeExpr, annotations: Vec<Annotation>) -> Field {
    Field { name: name.to_string(), ty, annotations }
}

fn builder_for(fields: Vec<Field>) -> Builder<Value> {
    let record =
        RecordDescriptor { name: "Record".to_string(), shape: RecordShape::NamedStruct(fields) };
    Builder::new(classify_record(&record).unwrap())
}

fn command() -> Builder<Value> {
    builder_for(vec![
        field("executable", simple("String"), vec![]),
        field("args", wrapped("Vec", "String"), vec![]),
        field("env", wrapped("Vec", "String"), vec![]),
        field("current_dir", simple("String"), vec![]),
    ])
}

fn missing(name: &str) -> Result<Vec<FieldValue<Value>>, String> {
    Err(format!("field \"{}\" required, but not set yet.", name))
}

#[test]
fn command_is_built_from_its_four_setters() {
    let built = command()
        .call("executable", text("cargo"))
        .call("args", list(&["build", "--release"]))
        .call("env", list(&[]))
        .call("current_dir", text(".."))
        .build();
    assert_eq!(
        built,
        Ok(vec![
            FieldValue::Required(text("cargo")),
            FieldValue::Required(list(&["build", "--release"])),
            FieldValue::Required(list(&[])),
            FieldValue::Required(text("..")),
        ])
    );
}

#[test]
fn command_without_executable_fails() {
    let built = command()
        .call("args", list(&["build", "--release"]))
        .call("env", list(&[]))
        .call("current_dir", text(".."))
        .build();
    assert_eq!(built, missing("executable"));
}

#[test]
fn command_without_args_fails() {
    let built = command()
        .call("executable", text("cargo"))
        .call("env", list(&[]))
        .call("current_dir", text(".."))
        .build();
    assert_eq!(built, missing("args"));
}

#[test]
fn command_without_env_fails() {
    let built = command()
        .call("executable", text("cargo"))
        .call("args", list(&["build", "--release"]))
        .call("current_dir", text(".."))
        .build();
    assert_eq!(built, missing("env"));
}

#[test]
fn command_without_current_dir_fails() {
    let built = command()
        .call("executable", text("cargo"))
        .call("args", list(&["build", "--release"]))
        .call("env", list(&[]))
        .build();
    assert_eq!(built, missing("current_dir"));
}

#[test]
fn missing_field_message_is_exact() {
    assert_eq!(missing_field("executable"), "field \"executable\" required, but not set yet.");
    assert_eq!(missing_field(""), "field \"\" required, but not set yet.");
}

#[test]
fn order_of_the_calls_does_not_matter() {
    let names = ["a", "b", "c"];
    let orders: [[usize; 3]; 6] =
        [[0, 1, 2], [0, 2, 1], [1, 0, 2], [1, 2, 0], [2, 0, 1], [2, 1, 0]];
    for order in orders {
        let mut builder = builder_for(vec![
            field("a", simple("i64"), vec![]),
            field("b", simple("i64"), vec![]),
            field("c", simple("i64"), vec![]),
        ]);
        for position in order {
            builder = builder.call(names[position], Value::Number(position as i64 + 10));
        }
        assert_eq!(
            builder.build(),
            Ok(vec![
                FieldValue::Required(Value::Number(10)),
                FieldValue::Required(Value::Number(11)),
                FieldValue::Required(Value::Number(12)),
            ]),
            "{:?}",
            order
        );
    }
}

#[test]
fn each_omitted_setter_is_named() {
    let names = ["a", "b", "c", "d", "e"];
    for omitted in 0..names.len() {
        let mut builder =
            builder_for(names.iter().map(|n| field(n, simple("i64"), vec![])).collect());
        for (position, name) in names.iter().enumerate().rev() {
            if position != omitted {
                builder = builder.call(name, Value::Number(position as i64));
            }
        }
        assert_eq!(builder.build(), missing(names[omitted]));
    }
}

#[test]
fn first_unset_field_is_named() {
    let builder = builder_for(vec![
        field("a", simple("i64"), vec![]),
        field("b", simple("i64"), vec![]),
        field("c", simple("i64"), vec![]),
    ]);
    assert_eq!(builder.call("a", Value::Number(1)).build(), missing("b"));
}

#[test]
fn default_builder_fails_at_the_first_plain_field() {
    let builder = builder_for(vec![
        field("o", wrapped("Option", "i64"), vec![]),
        field("v", wrapped("Vec", "i64"), vec![each("item")]),
        field("p", simple("i64"), vec![]),
        field("q", simple("i64"), vec![]),
    ]);
    assert_eq!(builder.build(), missing("p"));
}

#[test]
fn optional_field_need_not_be_set() {
    let builder = builder_for(vec![field("current_dir", wrapped("Option", "String"), vec![])]);
    assert_eq!(builder.build(), Ok(vec![FieldValue::Optional(None)]));
}

#[test]
fn optional_field_holds_the_value_itself() {
    let builder = builder_for(vec![field("current_dir", wrapped("Option", "String"), vec![])]);
    assert_eq!(
        builder.call("current_dir", text("..")).build(),
        Ok(vec![FieldValue::Optional(Some(text("..")))])
    );
}

#[test]
fn repeated_field_collects_in_call_order() {
    let builder = builder_for(vec![field("items", wrapped("Vec", "i64"), vec![each("item")])]);
    let built = builder
        .call("item", Value::Number(3))
        .call("item", Value::Number(1))
        .call("item", Value::Number(2))
        .call("item", Value::Number(1))
        .build();
    assert_eq!(
        built,
        Ok(vec![FieldValue::Repeated(vec![
            Value::Number(3),
            Value::Number(1),
            Value::Number(2),
            Value::Number(1),
        ])])
    );
}

#[test]
fn repeated_field_starts_empty() {
    let builder = builder_for(vec![field("items", wrapped("Vec", "i64"), vec![each("item")])]);
    assert_eq!(builder.build(), Ok(vec![FieldValue::Repeated(vec![])]));
}

#[test]
fn repeated_field_is_not_reached_by_its_own_name() {
    let builder = builder_for(vec![field("items", wrapped("Vec", "i64"), vec![each("item")])]);
    assert_eq!(
        builder.call("items", Value::Number(1)).build(),
        Ok(vec![FieldValue::Repeated(vec![])])
    );
}

#[test]
fn repeated_calls_interleave_with_other_setters() {
    let builder = builder_for(vec![
        field("executable", simple("String"), vec![]),
        field("args", wrapped("Vec", "String"), vec![each("arg")]),
        field("env", wrapped("Vec", "String"), vec![each("env")]),
        field("current_dir", wrapped("Option", "String"), vec![]),
    ]);
    let built = builder
        .call("arg", text("build"))
        .call("env", text("A=1"))
        .call("executable", text("cargo"))
        .call("arg", text("--release"))
        .build();
    assert_eq!(
        built,
        Ok(vec![
            FieldValue::Required(text("cargo")),
            FieldValue::Repeated(vec![text("build"), text("--release")]),
            FieldValue::Repeated(vec![text("A=1")]),
            FieldValue::Optional(None),
        ])
    );
}

#[test]
fn unannotated_vec_must_be_set_as_a_whole() {
    let fields = || vec![field("args", wrapped("Vec", "String"), vec![])];
    assert_eq!(builder_for(fields()).build(), missing("args"));
    assert_eq!(
        builder_for(fields()).call("args", list(&["a", "b"])).build(),
        Ok(vec![FieldValue::Required(list(&["a", "b"]))])
    );
}

#[test]
fn last_value_set_is_built() {
    let builder = builder_for(vec![
        field("p", simple("i64"), vec![]),
        field("o", wrapped("Option", "i64"), vec![]),
    ]);
    let built = builder
        .call("p", Value::Number(1))
        .call("o", Value::Number(2))
        .call("p", Value::Number(3))
        .call("o", Value::Number(4))
        .build();
    assert_eq!(
        built,
        Ok(vec![
            FieldValue::Required(Value::Number(3)),
            FieldValue::Optional(Some(Value::Number(4))),
        ])
    );
}

#[test]
fn unknown_setter_changes_nothing() {
    let builder = builder_for(vec![field("p", simple("i64"), vec![])]);
    let built = builder.call("q", Value::Number(1)).call("p", Value::Number(2)).build();
    assert_eq!(built, Ok(vec![FieldValue::Required(Value::Number(2))]));
}

#[test]
fn call_reaches_the_first_field_of_that_setter() {
    let builder = Builder::new(vec![
        ClassifiedField {
            name: "items".to_string(),
            class: FieldClassification::RepeatedAppend {
                element: "i64".to_string(),
                each: "item".to_string(),
            },
        },
        ClassifiedField {
            name: "item".to_string(),
            class: FieldClassification::OptionalWrapped("i64".to_string()),
        },
    ]);
    assert_eq!(
        builder.call("item", Value::Number(1)).build(),
        Ok(vec![FieldValue::Repeated(vec![Value::Number(1)]), FieldValue::Optional(None)])
    );
}

#[test]
fn record_without_fields_is_built_empty() {
    let builder: Builder<Value> = Builder::new(vec![]);
    assert_eq!(builder.build(), Ok(vec![]));
}
