//! Scenario tests for the class builder and the method assembler: interning
//! idempotence, instruction-offset bookkeeping, branch resolution in both
//! directions, label-environment isolation, and the error paths.

use classfile_builder::class_builder::BuildError;
use classfile_builder::class_builder::ClassBuilder;
use classfile_builder::class_builder::IntermediateInstruction;
use classfile_builder::class_builder::MethodBuilder;
use classfile_builder::class_builder::ACC_PUBLIC;
use classfile_builder::class_builder::ACC_STATIC;
use classfile_builder::classfile::Attribute;
use classfile_builder::classfile::Constant;
use classfile_builder::classfile::Instruction;
use classfile_builder::classfile::StackMapFrame;
use classfile_builder::classfile::VerificationType;
use classfile_builder::descriptor::Java;

fn open_void_method(name: &str) -> MethodBuilder {
    let cb = ClassBuilder::new(ACC_PUBLIC, "Foo", "java/lang/Object");
    match cb.define_method(ACC_PUBLIC | ACC_STATIC, name, &[], &Java::Void) {
        Ok(mb) => mb,
        Err(_) => panic!("opening a method on a fresh builder cannot overflow"),
    }
}

fn code_of(cf: &classfile_builder::classfile::Classfile) -> &Vec<Instruction> {
    assert_eq!(cf.methods.len(), 1);
    let m = &cf.methods[0];
    assert_eq!(m.attributes.len(), 1);
    match &m.attributes[0] {
        Attribute::Code(_, _, _, code, _, _) => code,
        _ => panic!("expected a Code attribute"),
    }
}

fn frames_of(cf: &classfile_builder::classfile::Classfile) -> &Vec<StackMapFrame> {
    let m = &cf.methods[0];
    match &m.attributes[0] {
        Attribute::Code(_, _, _, _, _, atts) => {
            assert_eq!(atts.len(), 1);
            match &atts[0] {
                Attribute::StackMapTable(_, frames) => frames,
                _ => panic!("expected a StackMapTable attribute"),
            }
        }
        _ => panic!("expected a Code attribute"),
    }
}

#[test]
fn interning_idempotence_via_load_constant() {
    let mut mb = open_void_method("m");
    let pool_before = mb.classfile.constants.len();
    mb.load_constant("hello").unwrap();
    let pool_after_first = mb.classfile.constants.len();
    // the value text and the String entry were added once
    assert_eq!(pool_after_first, pool_before + 2);
    let first_idx = match &mb.instructions[0].1 {
        IntermediateInstruction::Ready(Instruction::LoadConstant(i)) => *i,
        other => panic!("expected a load-constant instruction, got {:?}", other),
    };
    mb.load_constant("hello").unwrap();
    let second_idx = match &mb.instructions[1].1 {
        IntermediateInstruction::Ready(Instruction::LoadConstant(i)) => *i,
        other => panic!("expected a load-constant instruction, got {:?}", other),
    };
    // the same index comes back and the pool did not grow
    assert_eq!(first_idx, second_idx);
    assert_eq!(mb.classfile.constants.len(), pool_after_first);
}

#[test]
fn interning_idempotence_via_invoke_static() {
    let mut mb = open_void_method("m");
    mb.invoke_static("java/lang/Math", "abs", &[Java::Int], &Java::Int)
        .unwrap();
    let len_once = mb.classfile.constants.len();
    mb.invoke_static("java/lang/Math", "abs", &[Java::Int], &Java::Int)
        .unwrap();
    assert_eq!(mb.classfile.constants.len(), len_once);
}

#[test]
fn size_fidelity_of_recorded_offsets() {
    let mut mb = open_void_method("m");
    mb.iconst0(); // 1 byte at 0
    mb.bipush(7); // 2 bytes at 1
    mb.sipush(1, 2); // 3 bytes at 3
    mb.iadd(); // 1 byte at 6
    mb.do_return(); // 1 byte at 7
    let offsets: Vec<u16> = mb.instructions.iter().map(|(o, _)| *o).collect();
    assert_eq!(offsets, vec![0, 1, 3, 6, 7]);
    assert_eq!(mb.stack_index, 8);
    // each recorded offset is the previous one plus that instruction's size
    for i in 0..mb.instructions.len() - 1 {
        let (off, ir) = &mb.instructions[i];
        let size = match ir {
            IntermediateInstruction::Ready(ins) => ins.size(),
            IntermediateInstruction::Waiting(_, _, ins) => ins.size(),
        };
        assert_eq!(mb.instructions[i + 1].0, off + size as u16);
    }
}

#[test]
fn forward_branch_resolves_to_relative_delta() {
    let mut mb = open_void_method("m");
    mb.if_icmp_eq("target"); // 3 bytes at 0
    mb.iconst0(); // 1 byte at 3
    mb.label("target"); // declared at 4
    mb.do_return();
    let cb = mb.done().unwrap();
    let cf = cb.done();
    let code = code_of(&cf);
    // the operand is the distance 4, not the absolute position
    assert!(matches!(code[0], Instruction::IfIcmpEq(4)));
}

#[test]
fn backward_branch_resolves_to_negative_delta() {
    let mut mb = open_void_method("m");
    mb.iconst0(); // 1 byte at 0
    mb.label("back"); // declared at 1
    mb.iconst1(); // 1 byte at 1
    mb.goto("back"); // 3 bytes at 2; delta 1 - 2 = -1
    mb.do_return();
    let cb = mb.done().unwrap();
    let cf = cb.done();
    let code = code_of(&cf);
    // -1 as a 16-bit two's complement operand
    assert!(matches!(code[2], Instruction::Goto(0xFFFF)));
}

#[test]
fn environment_isolation() {
    let mut mb = open_void_method("m");
    mb.label("L"); // declared in environment 0
    let env = mb.set_new_env();
    assert_eq!(env, 1);
    mb.goto("L"); // emitted in environment 1
    mb.do_return();
    // the same-named label in another environment is not visible
    match mb.done() {
        Err(BuildError::UnresolvedLabel) => {}
        Err(other) => panic!("expected an unresolved label, got {:?}", other),
        Ok(_) => panic!("finalize must fail: the branch key has no offset"),
    }
}

#[test]
fn same_label_text_reusable_across_environments() {
    let mut mb = open_void_method("m");
    mb.label("loop"); // environment 0, offset 0
    mb.goto("loop"); // environment 0 at 0? no: goto sits at 0 too
    let env = mb.set_new_env();
    mb.set_env(env);
    mb.label("loop"); // environment 1, offset 3
    mb.goto("loop"); // environment 1 at 3
    mb.do_return();
    let cb = mb.done().unwrap();
    let cf = cb.done();
    let code = code_of(&cf);
    // each branch resolves within its own environment, to the label
    // declared at its own offset: deltas 0 - 0 and 3 - 3
    assert!(matches!(code[0], Instruction::Goto(0)));
    assert!(matches!(code[1], Instruction::Goto(0)));
}

#[test]
fn scenario_simple_class() {
    let cb = ClassBuilder::new(ACC_PUBLIC, "Foo", "java/lang/Object");
    let mut mb = cb
        .define_method(
            ACC_PUBLIC | ACC_STATIC,
            "add",
            &[Java::Int, Java::Int],
            &Java::Int,
        )
        .unwrap();
    mb.iload0();
    mb.iload1();
    mb.iadd();
    mb.ireturn();
    let cb = mb.done().unwrap();
    let cf = cb.done();

    let pool = &cf.constant_pool;
    let utf8_at = |text: &str| -> Option<u16> {
        pool.iter()
            .position(|c| matches!(c, Constant::Utf8(s) if s == text))
            .map(|p| (p + 1) as u16)
    };
    let foo = utf8_at("Foo").expect("Utf8 entry for Foo");
    let object = utf8_at("java/lang/Object").expect("Utf8 entry for java/lang/Object");
    assert!(utf8_at("add").is_some());
    assert!(utf8_at("(II)I").is_some());
    assert!(pool.contains(&Constant::Class(foo)));
    assert!(pool.contains(&Constant::Class(object)));

    let code = code_of(&cf);
    assert_eq!(
        code,
        &vec![
            Instruction::Iload0,
            Instruction::Iload1,
            Instruction::Iadd,
            Instruction::IReturn
        ]
    );
    let total: u32 = code.iter().map(|i| i.size() as u32).sum();
    assert_eq!(total, 4);
    // no labels were declared, so the stack-map table is empty
    assert!(frames_of(&cf).is_empty());
}

#[test]
fn scenario_undefined_label() {
    let mut mb = open_void_method("m");
    mb.iconst0();
    mb.goto("end"); // "end" is never declared
    mb.do_return();
    match mb.done() {
        Err(BuildError::UnresolvedLabel) => {}
        Err(other) => panic!("expected an unresolved label, got {:?}", other),
        Ok(_) => panic!("finalize must fail and append no method"),
    }
}

#[test]
fn scenario_frame_kind_threshold() {
    let mut mb = open_void_method("m");
    for _ in 0..256 {
        mb.aconst_null(); // 1 byte, records no stack type
    }
    mb.label("far"); // 256 bytes from method start, nothing live on the stack
    mb.do_return();
    let cb = mb.done().unwrap();
    let cf = cb.done();
    let frames = frames_of(&cf);
    assert_eq!(frames.len(), 1);
    // a delta beyond eight bits selects the extended form
    assert!(matches!(frames[0], StackMapFrame::SameFrameExtended(256)));
}

#[test]
fn compact_frame_below_threshold() {
    let mut mb = open_void_method("m");
    for _ in 0..255 {
        mb.aconst_null();
    }
    mb.label("near");
    mb.do_return();
    let cb = mb.done().unwrap();
    let cf = cb.done();
    let frames = frames_of(&cf);
    assert!(matches!(frames[0], StackMapFrame::SameFrame(255)));
}

#[test]
fn frame_threshold_after_a_previous_frame() {
    let mut mb = open_void_method("m");
    mb.label("a"); // first frame at 0
    for _ in 0..256 {
        mb.aconst_null();
    }
    mb.label("b"); // exactly 256 bytes after the previous frame
    mb.do_return();
    let cb = mb.done().unwrap();
    let cf = cb.done();
    let frames = frames_of(&cf);
    assert_eq!(frames.len(), 2);
    assert!(matches!(frames[0], StackMapFrame::SameFrame(0)));
    // 256 is past the 8-bit range: the extended form, not the compact one
    assert!(matches!(frames[1], StackMapFrame::SameFrameExtended(256)));
}

#[test]
fn compact_frame_after_a_previous_frame() {
    let mut mb = open_void_method("m");
    mb.label("a");
    for _ in 0..255 {
        mb.aconst_null();
    }
    mb.label("b"); // a 255-byte distance still fits the compact form
    mb.do_return();
    let cb = mb.done().unwrap();
    let cf = cb.done();
    let frames = frames_of(&cf);
    assert!(matches!(frames[1], StackMapFrame::SameFrame(255)));
}

#[test]
fn single_stack_item_frame_carries_live_type() {
    let mut mb = open_void_method("m");
    mb.iconst0(); // records an integer on the tracked stack
    mb.label("here"); // first frame at offset 1 with a live type
    mb.ireturn();
    let cb = mb.done().unwrap();
    let cf = cb.done();
    let frames = frames_of(&cf);
    assert!(matches!(
        frames[0],
        StackMapFrame::SameLocals1StackItemFrame(1, VerificationType::Integer)
    ));
}

#[test]
fn load_constant_rejects_index_beyond_byte_range() {
    let mut mb = open_void_method("m");
    let mut ok_count = 0;
    let mut first_err = None;
    for v in 0..260i32 {
        match mb.load_constant_integer(v) {
            Ok(()) => ok_count += 1,
            Err(e) => {
                first_err = Some(e);
                break;
            }
        }
    }
    // the fresh pool holds 6 entries (two class names, two class refs, the
    // method name and its descriptor), so integers land at 7, 8, ... and
    // the first index past 255 is rejected
    assert_eq!(ok_count, 249);
    assert!(matches!(first_err, Some(BuildError::ConstantPoolOverflow)));
    // the instruction stream took exactly the successful loads
    assert_eq!(mb.instructions.len(), 249);
}

#[test]
fn nyew_splits_pool_index_into_two_bytes() {
    let mut mb = open_void_method("m");
    mb.nyew("Bar").unwrap();
    // pool before: Foo, Class, java/lang/Object, Class, m, ()V — six
    // entries; "Bar" is interned at 7 and its class entry at 8
    match &mb.instructions[0].1 {
        IntermediateInstruction::Ready(Instruction::New(hi, lo)) => {
            assert_eq!((*hi, *lo), (0, 8));
        }
        other => panic!("expected a new instruction, got {:?}", other),
    }
    assert!(mb.classfile.constants.contains(&Constant::Class(7)));
}

#[test]
fn get_static_interns_field_reference() {
    let mut mb = open_void_method("m");
    mb.get_static(
        "java/lang/System",
        "out",
        &Java::Object("java/io/PrintStream".to_string()),
    )
    .unwrap();
    let pool = &mb.classfile.constants;
    assert!(pool.contains(&Constant::Utf8("Ljava/io/PrintStream;".to_string())));
    assert!(pool.contains(&Constant::Utf8("out".to_string())));
    let fieldref_present = pool.iter().any(|c| matches!(c, Constant::Fieldref(_, _)));
    assert!(fieldref_present);
    match &mb.instructions[0].1 {
        IntermediateInstruction::Ready(Instruction::GetStatic(_)) => {}
        other => panic!("expected a getstatic instruction, got {:?}", other),
    }
}

#[test]
fn invoke_virtual_interns_method_reference() {
    let mut mb = open_void_method("m");
    mb.invoke_virtual(
        "java/io/PrintStream",
        "println",
        &[Java::Object("java/lang/String".to_string())],
        &Java::Void,
    )
    .unwrap();
    let pool = &mb.classfile.constants;
    assert!(pool.contains(&Constant::Utf8("(Ljava/lang/String;)V".to_string())));
    let methodref_present = pool.iter().any(|c| matches!(c, Constant::Methodref(_, _)));
    let nat_present = pool.iter().any(|c| matches!(c, Constant::NameAndType(_, _)));
    assert!(methodref_present);
    assert!(nat_present);
}

#[test]
fn bipush_and_sipush_encode_signed_immediates() {
    let mut mb = open_void_method("m");
    mb.bipush(-1);
    mb.sipush(-1, -2);
    assert!(matches!(
        mb.instructions[0].1,
        IntermediateInstruction::Ready(Instruction::Bipush(0xFF))
    ));
    assert!(matches!(
        mb.instructions[1].1,
        IntermediateInstruction::Ready(Instruction::Sipush(0xFF, 0xFE))
    ));
}

#[test]
fn environment_numbers_grow_per_method() {
    let mut mb = open_void_method("m");
    assert_eq!(mb.env_num, 0);
    let first = mb.new_env();
    let second = mb.new_env();
    assert_eq!((first, second), (1, 2));
    assert_eq!(mb.env_num, 0); // new_env does not switch
    mb.set_env(second);
    assert_eq!(mb.env_num, 2);
    let third = mb.set_new_env();
    assert_eq!(third, 3);
    assert_eq!(mb.env_num, 3);
}

#[test]
fn every_store_counts_one_more_local() {
    let cb = ClassBuilder::new(ACC_PUBLIC, "Foo", "java/lang/Object");
    let mut mb = cb
        .define_method(ACC_PUBLIC | ACC_STATIC, "m", &[Java::Int], &Java::Void)
        .unwrap();
    assert_eq!(mb.num_locals, 1); // started at the argument count
    mb.iconst0();
    mb.istore0();
    mb.iconst1();
    mb.istore0(); // same slot, still counted again
    mb.do_return();
    assert_eq!(mb.num_locals, 3);
    let cb = mb.done().unwrap();
    let cf = cb.done();
    match &cf.methods[0].attributes[0] {
        Attribute::Code(_, max_stack, max_locals, _, _, _) => {
            assert_eq!(*max_locals, 3);
            // the stack-depth tracking hooks are inert: the bound stays zero
            assert_eq!(*max_stack, 0);
        }
        _ => panic!("expected a Code attribute"),
    }
}

#[test]
fn conditional_branch_forms_resolve() {
    let mut mb = open_void_method("m");
    mb.iconst0(); // 1 byte at 0
    mb.ifeq("skip"); // 3 bytes at 1
    mb.iconst1(); // 1 byte at 4
    mb.label("skip"); // declared at 5
    mb.do_return();
    let cb = mb.done().unwrap();
    let cf = cb.done();
    let code = code_of(&cf);
    assert!(matches!(code[1], Instruction::IfEq(4)));
}

#[test]
fn unpatchable_instruction_shape_reported() {
    let mut mb = open_void_method("m");
    mb.label("x");
    // wrongly record a non-branch instruction as pending: the stream is
    // deliberately malformed, and the patching step reports the internal
    // contract violation instead of rewriting anything
    mb.instructions.push((
        0,
        IntermediateInstruction::Waiting("x".to_string(), 0, Instruction::Iadd),
    ));
    match mb.done() {
        Err(BuildError::UnpatchableInstructionShape) => {}
        Err(other) => panic!("expected the unpatchable-shape error, got {:?}", other),
        Ok(_) => panic!("finalize must fail on an unpatchable shape"),
    }
}

#[test]
fn builder_moves_through_consecutive_methods() {
    // the class builder is checked out into each method assembler and
    // handed back on finalize, so methods are built strictly one at a time
    let cb = ClassBuilder::new(ACC_PUBLIC, "Foo", "java/lang/Object");
    let mut mb = cb
        .define_method(ACC_PUBLIC | ACC_STATIC, "one", &[], &Java::Int)
        .unwrap();
    mb.iconst1();
    mb.ireturn();
    let cb = mb.done().unwrap();
    assert_eq!(cb.methods.len(), 1);
    let mut mb = cb
        .define_method(ACC_PUBLIC | ACC_STATIC, "two", &[], &Java::Int)
        .unwrap();
    mb.iconst2();
    mb.ireturn();
    let cb = mb.done().unwrap();
    assert_eq!(cb.methods.len(), 2);
    let cf = cb.done();
    assert_eq!(cf.methods.len(), 2);
    // the second method reuses the interned "Code" and "StackMapTable"
    // attribute names: exactly one Utf8 entry each
    let count = |text: &str| {
        cf.constant_pool
            .iter()
            .filter(|c| matches!(c, Constant::Utf8(s) if s == text))
            .count()
    };
    assert_eq!(count("Code"), 1);
    assert_eq!(count("StackMapTable"), 1);
}

#[test]
fn float_constant_interned_by_bits() {
    let mut mb = open_void_method("m");
    mb.load_constant_float(1.5f32.to_bits()).unwrap();
    mb.load_constant_float(1.5f32.to_bits()).unwrap();
    let floats: Vec<u32> = mb
        .classfile
        .constants
        .iter()
        .filter_map(|c| match c {
            Constant::Float(bits) => Some(*bits),
            _ => None,
        })
        .collect();
    assert_eq!(floats, vec![1.5f32.to_bits()]);
}
