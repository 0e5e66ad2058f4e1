use derive_builder::builder::{Builder, FieldValue};
use derive_builder::classify::{classify_record, FieldClassification};
use derive_builder::derive_builder;
use derive_builder::descriptor::{
    Annotation, AnnotationBody, Entry, Field, GenericArgument, PathSegment, RecordDescriptor,
    RecordShape, TypeExpr,
};
use derive_builder::error::DeriveError;
use quote::ToTokens;
use std::str::FromStr;
use syn::{Attribute, Data, DeriveInput, Fields, Lit, Meta, NestedMeta, PathArguments, Type};

// Records are written as source text here, read by `syn` and described to the
// library field by field, as the derive macro does it.

fn describe(input: &DeriveInput) -> RecordDescriptor {
    let shape = match &input.data {
        Data::Struct(data) => match &data.fields {
            Fields::Named(fields) => {
                RecordShape::NamedStruct(fields.named.iter().map(describe_field).collect())
            }
            Fields::Unnamed(_) => RecordShape::TupleStruct,
            Fields::Unit => RecordShape::UnitStruct,
        },
        Data::Enum(_) => RecordShape::Enum,
        Data::Union(_) => RecordShape::Union,
    };
    RecordDescriptor { name: input.ident.to_string(), shape }
}

fn describe_field(field: &syn::Field) -> Field {
    Field {
        name: field.ident.as_ref().map_or_else(String::new, |ident| ident.to_string()),
        ty: describe_type(&field.ty),
        annotations: field.attrs.iter().map(describe_annotation).collect(),
    }
}

fn describe_type(ty: &Type) -> TypeExpr {
    let path = match ty {
        Type::Path(type_path) => {
            Some(type_path.path.segments.iter().map(describe_segment).collect())
        }
        _ => None,
    };
    TypeExpr { text: ty.to_token_stream().to_string(), path }
}

fn describe_segment(segment: &syn::PathSegment) -> PathSegment {
    let arguments = match &segment.arguments {
        PathArguments::AngleBracketed(list) => list
            .args
            .iter()
            .map(|argument| match argument {
                syn::GenericArgument::Type(ty) => {
                    GenericArgument::Type(ty.to_token_stream().to_string())
                }
                _ => GenericArgument::Other,
            })
            .collect(),
        _ => Vec::new(),
    };
    PathSegment { name: segment.ident.to_string(), arguments }
}

fn describe_annotation(attr: &Attribute) -> Annotation {
    let body = match attr.parse_meta() {
        Ok(Meta::Path(_)) => AnnotationBody::Word,
        Ok(Meta::NameValue(_)) => AnnotationBody::Value,
        Ok(Meta::List(list)) => AnnotationBody::List(list.nested.iter().map(describe_entry).collect()),
        Err(_) => AnnotationBody::Unstructured,
    };
    Annotation { key: attr.path.to_token_stream().to_string(), body }
}

fn describe_entry(entry: &NestedMeta) -> Entry {
    match entry {
        NestedMeta::Meta(Meta::NameValue(pair)) => {
            let key = pair.path.to_token_stream().to_string();
            match &pair.lit {
                Lit::Str(text) => Entry::StringValue { key, value: text.value() },
                _ => Entry::OtherValue { key },
            }
        }
        _ => Entry::Other,
    }
}

fn read(source: &str) -> RecordDescriptor {
    describe(&syn::parse_str::<DeriveInput>(source).unwrap())
}

fn tokens(code: &str) -> String {
    proc_macro2::TokenStream::from_str(code).unwrap().to_string()
}

fn classes(source: &str) -> Vec<FieldClassification> {
    classify_record(&read(source)).unwrap().into_iter().map(|f| f.class).collect()
}

fn plain(declared: &str) -> FieldClassification {
    FieldClassification::Plain(declared.to_string())
}

const COMMAND: &str = "
    pub struct Command {
        executable: String,
        args: Vec<String>,
        env: Vec<String>,
        current_dir: String,
    }
";

#[test]
fn command_source_is_described_field_by_field() {
    let record = read(COMMAND);
    assert_eq!(record.name, "Command");
    match &record.shape {
        RecordShape::NamedStruct(fields) => {
            let names: Vec<&str> = fields.iter().map(|f| f.name.as_str()).collect();
            assert_eq!(names, vec!["executable", "args", "env", "current_dir"]);
            assert_eq!(
                fields[1].ty.path,
                Some(vec![PathSegment {
                    name: "Vec".to_string(),
                    arguments: vec![GenericArgument::Type("String".to_string())],
                }])
            );
            assert!(fields.iter().all(|f| f.annotations.is_empty()));
        }
        other => panic!("expected a struct with named fields, found {:?}", other),
    }
}

#[test]
fn command_source_gives_a_builder_of_plain_fields() {
    let expected = "
        impl Command {
            pub fn builder() -> CommandBuilder { Default::default() }
        }
        #[derive(Default)]
        pub struct CommandBuilder {
            executable: ::core::option::Option<String>,
            args: ::core::option::Option<Vec<String>>,
            env: ::core::option::Option<Vec<String>>,
            current_dir: ::core::option::Option<String>,
        }
        impl CommandBuilder {
            pub fn executable(mut self, value: String) -> Self {
                self.executable = Some(value);
                self
            }
            pub fn args(mut self, value: Vec<String>) -> Self {
                self.args = Some(value);
                self
            }
            pub fn env(mut self, value: Vec<String>) -> Self {
                self.env = Some(value);
                self
            }
            pub fn current_dir(mut self, value: String) -> Self {
                self.current_dir = Some(value);
                self
            }
            pub fn build(self) -> ::core::result::Result<Command, std::string::String> {
                let executable = self
                    .executable
                    .ok_or(\"field \\\"executable\\\" required, but not set yet.\")?;
                let args = self.args.ok_or(\"field \\\"args\\\" required, but not set yet.\")?;
                let env = self.env.ok_or(\"field \\\"env\\\" required, but not set yet.\")?;
                let current_dir = self
                    .current_dir
                    .ok_or(\"field \\\"current_dir\\\" required, but not set yet.\")?;
                Ok(Command { executable, args, env, current_dir, })
            }
        }
    ";
    assert_eq!(tokens(&derive_builder(read(COMMAND)).unwrap()), tokens(expected));
}

#[test]
fn command_source_gives_a_builder_that_runs() {
    let builder: Builder<&str> = Builder::new(classify_record(&read(COMMAND)).unwrap());
    let built = builder
        .call("executable", "cargo")
        .call("args", "build --release")
        .call("env", "")
        .call("current_dir", "..")
        .build();
    assert_eq!(
        built,
        Ok(vec![
            FieldValue::Required("cargo"),
            FieldValue::Required("build --release"),
            FieldValue::Required(""),
            FieldValue::Required(".."),
        ])
    );
}

#[test]
fn annotated_source_is_classified() {
    let source = "
        struct Command {
            /// The program to run.
            executable: String,
            #[builder(each = \"arg\")]
            args: Vec<String>,
            #[builder(each = \"env\")]
            env: Vec<String>,
            current_dir: Option<String>,
            timeout: Option<(u64, u32)>,
        }
    ";
    assert_eq!(
        classes(source),
        vec![
            plain("String"),
            FieldClassification::RepeatedAppend {
                element: "String".to_string(),
                each: "arg".to_string(),
            },
            FieldClassification::RepeatedAppend {
                element: "String".to_string(),
                each: "env".to_string(),
            },
            FieldClassification::OptionalWrapped("String".to_string()),
            FieldClassification::OptionalWrapped("(u64 , u32)".to_string()),
        ]
    );
}

#[test]
fn annotated_source_gives_code_that_parses() {
    let source = "
        struct Command {
            executable: String,
            #[builder(each = \"arg\")]
            args: Vec<String>,
            #[doc = \"environment\"]
            #[builder(each = \"env\")]
            env: Vec<(String, String)>,
            current_dir: Option<std::path::PathBuf>,
            callback: Box<dyn Fn(&str) -> bool>,
            matrix: [[f64; 3]; 3],
            name: &'static str,
        }
    ";
    let code = derive_builder(read(source)).unwrap();
    let file = syn::parse_file(&code).unwrap();
    assert_eq!(file.items.len(), 3);
    match &file.items[2] {
        syn::Item::Impl(item) => {
            let names: Vec<String> = item
                .items
                .iter()
                .map(|i| match i {
                    syn::ImplItem::Method(m) => m.sig.ident.to_string(),
                    other => panic!("expected a method, found {:?}", other),
                })
                .collect();
            assert_eq!(
                names,
                vec![
                    "executable",
                    "arg",
                    "env",
                    "current_dir",
                    "callback",
                    "matrix",
                    "name",
                    "build"
                ]
            );
        }
        other => panic!("expected the methods, found {:?}", other),
    }
}

#[test]
fn types_are_matched_as_written_in_source() {
    let source = "
        struct Paths {
            a: std::option::Option<String>,
            b: ::std::vec::Vec<u8>,
            c: Option,
            d: Vec<u8, Global>,
            e: option::Option<u8>,
            f: &'static Option<u8>,
            g: (Option<u8>,),
            h: Box<Option<u8>>,
        }
    ";
    assert_eq!(
        classes(source),
        vec![
            plain("std :: option :: Option < String >"),
            plain(":: std :: vec :: Vec < u8 >"),
            plain("Option"),
            plain("Vec < u8 , Global >"),
            plain("option :: Option < u8 >"),
            plain("& 'static Option < u8 >"),
            plain("(Option < u8 > ,)"),
            plain("Box < Option < u8 > >"),
        ]
    );
}

fn fails_at(source: &str, field: usize, annotation: usize) {
    let input = syn::parse_str::<DeriveInput>(source).unwrap();
    let error = derive_builder(describe(&input)).unwrap_err();
    assert_eq!(error, DeriveError::AnnotationShape { field, annotation }, "{}", source);
    assert_eq!(error.message(), "expected `builder(each = \"...\")`");
    match &input.data {
        Data::Struct(data) => {
            let attr = &data.fields.iter().nth(field).unwrap().attrs[annotation];
            assert!(attr.path.is_ident("builder"));
        }
        _ => panic!("expected a struct"),
    }
}

#[test]
fn each_bound_to_a_number_in_source() {
    fails_at("struct C { #[builder(each = 1)] args: Vec<String> }", 0, 0);
}

#[test]
fn unknown_key_in_source() {
    fails_at("struct C { #[builder(random = \"x\")] args: Vec<String> }", 0, 0);
    fails_at(
        "struct C { executable: String, #[builder(eac = \"arg\")] args: Vec<String>, env: Vec<String> }",
        1,
        0,
    );
}

#[test]
fn other_malformed_annotations_in_source() {
    fails_at("struct C { #[builder] args: Vec<String> }", 0, 0);
    fails_at("struct C { #[builder = \"arg\"] args: Vec<String> }", 0, 0);
    fails_at("struct C { #[builder()] args: Vec<String> }", 0, 0);
    fails_at("struct C { #[builder(each)] args: Vec<String> }", 0, 0);
    fails_at("struct C { #[builder(each(arg))] args: Vec<String> }", 0, 0);
    fails_at("struct C { #[builder(\"arg\")] args: Vec<String> }", 0, 0);
    fails_at("struct C { #[builder(each = \"a\", each = \"b\")] args: Vec<String> }", 0, 0);
    fails_at("struct C { #[builder(each = \"a b\")] args: Vec<String> }", 0, 0);
    fails_at("struct C { #[builder(each = \"\")] args: Vec<String> }", 0, 0);
    fails_at("struct C { #[builder(each = b\"arg\")] args: Vec<String> }", 0, 0);
    fails_at("struct C { #[builder(each arg)] args: Vec<String> }", 0, 0);
    fails_at("struct C { #[builder(each = )] args: Vec<String> }", 0, 0);
}

#[test]
fn error_points_at_the_annotation_in_source() {
    fails_at(
        "struct C {
            a: u8,
            /// Arguments.
            #[allow(dead_code)]
            #[builder(each = 1)]
            args: Vec<String>,
        }",
        1,
        2,
    );
    fails_at(
        "struct C {
            #[builder(each = \"arg\")]
            #[builder(each = \"argument\")]
            args: Vec<String>,
        }",
        0,
        1,
    );
}

#[test]
fn annotations_on_other_fields_are_not_read_in_source() {
    let source = "
        struct C {
            #[builder(each = 1)]
            name: String,
            #[builder(random = \"x\")]
            dir: Option<String>,
            #[serde(rename = \"ARGS\")]
            #[some::path(with tokens that are no metadata)]
            args: Vec<String>,
        }
    ";
    assert_eq!(
        classes(source),
        vec![
            plain("String"),
            FieldClassification::OptionalWrapped("String".to_string()),
            plain("Vec < String >"),
        ]
    );
}

#[test]
fn only_structs_with_named_fields_in_source() {
    for source in [
        "enum E { A, B }",
        "struct T(u8, u8);",
        "struct U;",
        "union V { a: u8, b: i8 }",
    ] {
        assert_eq!(derive_builder(read(source)), Err(DeriveError::Structure), "{}", source);
    }
    assert!(derive_builder(read("struct Empty {}")).is_ok());
}

#[test]
fn raw_names_in_source() {
    let source = "struct C { r#type: String, #[builder(each = \"r#fn\")] calls: Vec<String> }";
    let code = derive_builder(read(source)).unwrap();
    assert!(syn::parse_file(&code).is_ok());
    assert!(code.contains("pub fn r#type(mut self, value: String) -> Self { self.r#type = Some(value); self }"));
    assert!(code.contains("pub fn r#fn(mut self, value: String) -> Self { self.calls.push(value); self }"));
    assert!(code.contains("field \\\"r#type\\\" required, but not set yet."));
}
