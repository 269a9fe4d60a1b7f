//! Tests for the data-model layer: the container header, pool lookups, and
//! the fixed per-opcode encoded sizes.

use classfile_builder::classfile::Attribute;
use classfile_builder::classfile::Classfile;
use classfile_builder::classfile::Constant;
use classfile_builder::classfile::Instruction;
use classfile_builder::classfile::Method;

#[test]
fn classfile_header_fields() {
    let cf = Classfile::new(
        vec![Constant::Utf8("A".to_string()), Constant::Class(1)],
        0x21,
        2,
        2,
        vec![],
    );
    assert_eq!(cf.magic, 0xCAFEBABE);
    assert_eq!(cf.major_version, 52);
    assert_eq!(cf.minor_version, 0);
    assert_eq!(cf.access_flags, 0x21);
    assert_eq!(cf.this_class, 2);
    assert_eq!(cf.super_class, 2);
    assert!(cf.interfaces.is_empty());
    assert!(cf.fields.is_empty());
    assert!(cf.attributes.is_empty());
    assert_eq!(cf.constant_pool.len(), 2);
}

#[test]
fn pool_lookups_are_one_indexed() {
    let cf = Classfile::new(
        vec![Constant::Utf8("Name".to_string()), Constant::Class(1)],
        0,
        2,
        2,
        vec![],
    );
    assert_eq!(cf.lookup_constant(1), &Constant::Utf8("Name".to_string()));
    assert_eq!(cf.lookup_constant(2), &Constant::Class(1));
    assert_eq!(cf.lookup_string(1), "Name");
}

#[test]
fn method_constructor_keeps_fields() {
    let m = Method::new(0x9, 3, 4, vec![Attribute::SourceFile(5, 6)]);
    assert_eq!(m.access_flags, 0x9);
    assert_eq!(m.name_index, 3);
    assert_eq!(m.descriptor_index, 4);
    assert_eq!(m.attributes, vec![Attribute::SourceFile(5, 6)]);
}

#[test]
fn instruction_sizes() {
    assert_eq!(Instruction::Iadd.size(), 1);
    assert_eq!(Instruction::Iconst0.size(), 1);
    assert_eq!(Instruction::Iload(4).size(), 2);
    assert_eq!(Instruction::Bipush(9).size(), 2);
    assert_eq!(Instruction::Sipush(1, 2).size(), 3);
    assert_eq!(Instruction::LoadConstant(3).size(), 2);
    assert_eq!(Instruction::IfIcmpEq(0).size(), 3);
    assert_eq!(Instruction::Goto(0).size(), 3);
    assert_eq!(Instruction::GetStatic(1).size(), 3);
    assert_eq!(Instruction::InvokeVirtual(1).size(), 3);
    assert_eq!(Instruction::New(0, 1).size(), 3);
    assert_eq!(Instruction::Dup.size(), 1);
    assert_eq!(Instruction::Return.size(), 1);
    assert_eq!(Instruction::ArrayLength.size(), 1);
    assert_eq!(Instruction::Astore(2).size(), 2);
    assert_eq!(Instruction::Fload(2).size(), 2);
}

#[test]
fn constants_compare_structurally() {
    assert_eq!(
        Constant::Utf8("a".to_string()),
        Constant::Utf8("a".to_string())
    );
    assert_ne!(
        Constant::Utf8("a".to_string()),
        Constant::Utf8("b".to_string())
    );
    assert_ne!(Constant::Class(1), Constant::String(1));
    assert_eq!(Constant::Fieldref(1, 2), Constant::Fieldref(1, 2));
    assert_ne!(Constant::Fieldref(1, 2), Constant::Fieldref(1, 3));
    assert_eq!(Constant::Float(0x3FC00000), Constant::Float(0x3FC00000));
}
