//! Tests for the descriptor-text rendering: single-token primitives, object
//! and array forms, and whole method signatures.

use classfile_builder::descriptor::field_descriptor;
use classfile_builder::descriptor::method_signature;
use classfile_builder::descriptor::Java;

#[test]
fn primitive_descriptors() {
    assert_eq!(field_descriptor(&Java::Void), "V");
    assert_eq!(field_descriptor(&Java::Boolean), "Z");
    assert_eq!(field_descriptor(&Java::Byte), "B");
    assert_eq!(field_descriptor(&Java::Char), "C");
    assert_eq!(field_descriptor(&Java::Short), "S");
    assert_eq!(field_descriptor(&Java::Int), "I");
    assert_eq!(field_descriptor(&Java::Long), "J");
    assert_eq!(field_descriptor(&Java::Float), "F");
    assert_eq!(field_descriptor(&Java::Double), "D");
}

#[test]
fn object_descriptor() {
    assert_eq!(
        field_descriptor(&Java::Object("java/lang/String".to_string())),
        "Ljava/lang/String;"
    );
}

#[test]
fn array_descriptors() {
    assert_eq!(field_descriptor(&Java::Array(Box::new(Java::Int))), "[I");
    assert_eq!(
        field_descriptor(&Java::Array(Box::new(Java::Object(
            "java/lang/String".to_string()
        )))),
        "[Ljava/lang/String;"
    );
    assert_eq!(
        field_descriptor(&Java::Array(Box::new(Java::Array(Box::new(Java::Float))))),
        "[[F"
    );
}

#[test]
fn method_descriptors() {
    assert_eq!(method_signature(&[], &Java::Void), "()V");
    assert_eq!(
        method_signature(&[Java::Int, Java::Int], &Java::Int),
        "(II)I"
    );
    assert_eq!(
        method_signature(
            &[
                Java::Array(Box::new(Java::Object("java/lang/String".to_string()))),
                Java::Float
            ],
            &Java::Object("java/lang/Object".to_string())
        ),
        "([Ljava/lang/String;F)Ljava/lang/Object;"
    );
}
