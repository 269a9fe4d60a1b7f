//! The data model for one class: the class container, constant-pool entry
//! kinds, instructions, attributes, and verifier frame/type records.
//!
//! This layer has no behavior beyond constructors, lookups and the fixed
//! per-opcode encoded size; the builders in `class_builder` operate on it.

use vstd::prelude::*;

verus! {

/// Magic number that opens every class file.
pub const CAFEBABE: u32 = 0xCAFEBABE;

/// Major version of the produced class-file format.
pub const MAJOR_VERSION: u16 = 52;

/// Minor version of the produced class-file format.
pub const MINOR_VERSION: u16 = 0;

/// The in-memory structure representing one class's metadata and code,
/// prior to binary serialization.
#[derive(Debug, PartialEq)]
pub struct Classfile {
    pub magic: u32,
    pub minor_version: u16,
    pub major_version: u16,
    pub constant_pool: Vec<Constant>,
    pub access_flags: u16,
    pub this_class: u16,
    pub super_class: u16,
    pub interfaces: Vec<Interface>,
    pub fields: Vec<Field>,
    pub methods: Vec<Method>,
    pub attributes: Vec<Attribute>,
}

/// One entry of the constant pool. Composite variants reference other pool
/// entries by 1-based index; a float constant is carried as its IEEE-754 bits
/// so that pool deduplication is plain bit equality.
#[derive(Clone, Debug)]
pub enum Constant {
    Utf8(String),
    Integer(i32),
    Float(u32),
    Class(u16),
    String(u16),
    Fieldref(u16, u16),
    Methodref(u16, u16),
    NameAndType(u16, u16),
}

/// The mathematical value of a pool entry: the same shape as [`Constant`]
/// with text as a sequence of characters.
pub enum ConstantV {
    Utf8(Seq<char>),
    Integer(i32),
    Float(u32),
    Class(u16),
    String(u16),
    Fieldref(u16, u16),
    Methodref(u16, u16),
    NameAndType(u16, u16),
}

impl View for Constant {
    type V = ConstantV;

    open spec fn view(&self) -> ConstantV {
        match self {
            Constant::Utf8(s) => ConstantV::Utf8(s@),
            Constant::Integer(n) => ConstantV::Integer(*n),
            Constant::Float(bits) => ConstantV::Float(*bits),
            Constant::Class(i) => ConstantV::Class(*i),
            Constant::String(i) => ConstantV::String(*i),
            Constant::Fieldref(c, nt) => ConstantV::Fieldref(*c, *nt),
            Constant::Methodref(c, nt) => ConstantV::Methodref(*c, *nt),
            Constant::NameAndType(n, d) => ConstantV::NameAndType(*n, *d),
        }
    }
}

impl PartialEq for Constant {
    /// Structural equality: same variant and same payload. This is the
    /// equality the constant pool deduplicates by.
    fn eq(&self, other: &Constant) -> (r: bool) {
        match self {
            Constant::Utf8(a) => match other {
                Constant::Utf8(b) => *a == *b,
                _ => false,
            },
            Constant::Integer(a) => match other {
                Constant::Integer(b) => a == b,
                _ => false,
            },
            Constant::Float(a) => match other {
                Constant::Float(b) => a == b,
                _ => false,
            },
            Constant::Class(a) => match other {
                Constant::Class(b) => a == b,
                _ => false,
            },
            Constant::String(a) => match other {
                Constant::String(b) => a == b,
                _ => false,
            },
            Constant::Fieldref(a1, a2) => match other {
                Constant::Fieldref(b1, b2) => a1 == b1 && a2 == b2,
                _ => false,
            },
            Constant::Methodref(a1, a2) => match other {
                Constant::Methodref(b1, b2) => a1 == b1 && a2 == b2,
                _ => false,
            },
            Constant::NameAndType(a1, a2) => match other {
                Constant::NameAndType(b1, b2) => a1 == b1 && a2 == b2,
                _ => false,
            },
        }
    }
}

impl vstd::std_specs::cmp::PartialEqSpecImpl for Constant {
    open spec fn obeys_eq_spec() -> bool {
        true
    }

    open spec fn eq_spec(&self, other: &Constant) -> bool {
        self@ == other@
    }
}

impl Eq for Constant {

}

/// Interface entries are not populated by this assembler.
#[derive(Clone, Copy, Debug, PartialEq, Eq, Structural)]
pub struct Interface;

/// Field entries are not populated by this assembler.
#[derive(Clone, Copy, Debug, PartialEq, Eq, Structural)]
pub struct Field;

/// One completed method: access flags, name/descriptor pool references, and
/// an attribute list holding exactly one Code attribute once assembled.
#[derive(Debug, PartialEq)]
pub struct Method {
    pub access_flags: u16,
    pub name_index: u16,
    pub descriptor_index: u16,
    pub attributes: Vec<Attribute>,
}

/// An attribute of a method or class. The first field of each variant is the
/// pool index of the attribute's name.
#[derive(Debug, PartialEq)]
pub enum Attribute {
    Code(u16, u16, u16, Vec<Instruction>, Vec<ExceptionTableEntry>, Vec<Attribute>),
    LineNumberTable(u16, Vec<LineNumberTableEntry>),
    SourceFile(u16, u16),
    StackMapTable(u16, Vec<StackMapFrame>),
}

/// Exception-table entries are not populated by this assembler.
#[derive(Clone, Copy, Debug, PartialEq, Eq, Structural)]
pub struct ExceptionTableEntry;

#[derive(Clone, Copy, Debug, PartialEq, Eq, Structural)]
pub struct LineNumberTableEntry {
    pub start_pc: u16,
    pub line_number: u16,
}

/// Verifier metadata recorded at a bytecode offset. Each variant's first
/// field is the offset delta since the previous frame; compact forms bound it
/// to 8 bits, extended forms carry the full 16 bits. The multi-slot variants
/// exist in the schema but are never produced by this assembler.
#[derive(Clone, Debug, PartialEq)]
pub enum StackMapFrame {
    SameFrame(u8),
    SameLocals1StackItemFrame(u8, VerificationType),
    SameLocals1StackItemFrameExtended(u16, VerificationType),
    ChopFrame(u8, u16),
    SameFrameExtended(u16),
    AppendFrame(u8, u16, Vec<VerificationType>),
    FullFrame(u16, Vec<VerificationType>, Vec<VerificationType>),
}

/// The type tag used inside a stack-map frame payload.
#[derive(Clone, Copy, Debug, PartialEq, Eq, Structural)]
pub enum VerificationType {
    Top,
    Integer,
    Float,
    Long,
    Double,
    Null,
    UninitializedThis,
    Object(u16),
    Uninitialized(u16),
}

/// One instruction of the fixed opcode set. Branch-bearing variants carry a
/// 16-bit offset field that starts as a placeholder and is rewritten once
/// during finalization.
#[derive(Clone, Copy, Debug, PartialEq, Eq, Structural)]
pub enum Instruction {
    Fload0,
    Fload1,
    Fload2,
    Fload3,
    Fload(u8),
    Fstore0,
    Fstore1,
    Fstore2,
    Fstore3,
    Fstore(u8),
    Fconst0,
    Fconst1,
    Fconst2,
    FReturn,
    I2C,
    I2F,
    F2I,
    IconstM1,
    Iconst0,
    Iconst1,
    Iconst2,
    Iconst3,
    Iconst4,
    Iconst5,
    Istore0,
    Istore1,
    Istore2,
    Istore3,
    Istore(u8),
    Bipush(u8),
    Sipush(u8, u8),
    Iload0,
    Iload1,
    Iload2,
    Iload3,
    Iload(u8),
    LoadConstant(u8),
    AConstNull,
    Astore0,
    Astore1,
    Astore2,
    Astore3,
    Astore(u8),
    Aload0,
    Aload1,
    Aload2,
    Aload3,
    Aload(u8),
    Aaload,
    Iadd,
    Isub,
    Imul,
    Idiv,
    Irem,
    Fadd,
    Fsub,
    Fmul,
    Fdiv,
    Frem,
    IfEq(u16),
    IfNe(u16),
    IfLt(u16),
    IfGe(u16),
    IfGt(u16),
    IfLe(u16),
    IfIcmpEq(u16),
    IfIcmpNe(u16),
    IfIcmpLt(u16),
    IfIcmpGe(u16),
    IfIcmpGt(u16),
    IfIcmpLe(u16),
    Goto(u16),
    IReturn,
    Return,
    Areturn,
    GetStatic(u16),
    InvokeVirtual(u16),
    InvokeSpecial(u16),
    InvokeStatic(u16),
    New(u8, u8),
    Dup,
    ArrayLength,
}

/// The fixed encoded byte size of an instruction: the opcode byte plus its
/// 0-2 immediate-operand bytes, independent of the operand values.
pub open spec fn instruction_size(i: Instruction) -> u16 {
    match i {
        Instruction::Fload(_) => 2,
        Instruction::Fstore(_) => 2,
        Instruction::Istore(_) => 2,
        Instruction::Bipush(_) => 2,
        Instruction::Sipush(_, _) => 3,
        Instruction::Iload(_) => 2,
        Instruction::LoadConstant(_) => 2,
        Instruction::Astore(_) => 2,
        Instruction::Aload(_) => 2,
        Instruction::IfEq(_) => 3,
        Instruction::IfNe(_) => 3,
        Instruction::IfLt(_) => 3,
        Instruction::IfGe(_) => 3,
        Instruction::IfGt(_) => 3,
        Instruction::IfLe(_) => 3,
        Instruction::IfIcmpEq(_) => 3,
        Instruction::IfIcmpNe(_) => 3,
        Instruction::IfIcmpLt(_) => 3,
        Instruction::IfIcmpGe(_) => 3,
        Instruction::IfIcmpGt(_) => 3,
        Instruction::IfIcmpLe(_) => 3,
        Instruction::Goto(_) => 3,
        Instruction::GetStatic(_) => 3,
        Instruction::InvokeVirtual(_) => 3,
        Instruction::InvokeSpecial(_) => 3,
        Instruction::InvokeStatic(_) => 3,
        Instruction::New(_, _) => 3,
        _ => 1,
    }
}

impl Classfile {
    /// Assemble the completed container around an interned pool, the class
    /// references, and the finished methods, with the fixed header fields.
    pub fn new(
        constants: Vec<Constant>,
        access_flags: u16,
        this_class: u16,
        super_class: u16,
        methods: Vec<Method>,
    ) -> (cf: Classfile)
        ensures
            cf.magic == CAFEBABE,
            cf.minor_version == MINOR_VERSION,
            cf.major_version == MAJOR_VERSION,
            cf.constant_pool == constants,
            cf.access_flags == access_flags,
            cf.this_class == this_class,
            cf.super_class == super_class,
            cf.interfaces@ == Seq::<Interface>::empty(),
            cf.fields@ == Seq::<Field>::empty(),
            cf.methods == methods,
            cf.attributes@ == Seq::<Attribute>::empty(),
    {
        Classfile {
            magic: CAFEBABE,
            minor_version: MINOR_VERSION,
            major_version: MAJOR_VERSION,
            constant_pool: constants,
            access_flags,
            this_class,
            super_class,
            interfaces: Vec::new(),
            fields: Vec::new(),
            methods,
            attributes: Vec::new(),
        }
    }

    /// Fetch the pool entry at a 1-based index.
    pub fn lookup_constant(&self, index: u16) -> (c: &Constant)
        requires
            1 <= index <= self.constant_pool@.len(),
        ensures
            *c == self.constant_pool@[index as int - 1],
    {
        &self.constant_pool[index as usize - 1]
    }

    /// Fetch the text of the Utf8 entry at a 1-based index.
    pub fn lookup_string(&self, index: u16) -> (s: &str)
        requires
            1 <= index <= self.constant_pool@.len(),
            self.constant_pool@[index as int - 1] is Utf8,
        ensures
            self.constant_pool@[index as int - 1] matches Constant::Utf8(text) && s@ == text@,
    {
        let val = self.lookup_constant(index);
        match val {
            Constant::Utf8(text) => text.as_str(),
            // excluded by the precondition: the entry is a Utf8
            _ => "",
        }
    }
}

impl Method {
    pub fn new(
        access_flags: u16,
        name_index: u16,
        descriptor_index: u16,
        attributes: Vec<Attribute>,
    ) -> (m: Method)
        ensures
            m.access_flags == access_flags,
            m.name_index == name_index,
            m.descriptor_index == descriptor_index,
            m.attributes == attributes,
    {
        Method { access_flags, name_index, descriptor_index, attributes }
    }
}

impl Instruction {
    /// The fixed encoded byte size of this instruction (1-3 bytes).
    pub fn size(&self) -> (s: u8)
        ensures
            s == instruction_size(*self),
            1 <= s <= 3,
    {
        match *self {
            Instruction::Fload(_) => 2,
            Instruction::Fstore(_) => 2,
            Instruction::Istore(_) => 2,
            Instruction::Bipush(_) => 2,
            Instruction::Sipush(_, _) => 3,
            Instruction::Iload(_) => 2,
            Instruction::LoadConstant(_) => 2,
            Instruction::Astore(_) => 2,
            Instruction::Aload(_) => 2,
            Instruction::IfEq(_) => 3,
            Instruction::IfNe(_) => 3,
            Instruction::IfLt(_) => 3,
            Instruction::IfGe(_) => 3,
            Instruction::IfGt(_) => 3,
            Instruction::IfLe(_) => 3,
            Instruction::IfIcmpEq(_) => 3,
            Instruction::IfIcmpNe(_) => 3,
            Instruction::IfIcmpLt(_) => 3,
            Instruction::IfIcmpGe(_) => 3,
            Instruction::IfIcmpGt(_) => 3,
            Instruction::IfIcmpLe(_) => 3,
            Instruction::Goto(_) => 3,
            Instruction::GetStatic(_) => 3,
            Instruction::InvokeVirtual(_) => 3,
            Instruction::InvokeSpecial(_) => 3,
            Instruction::InvokeStatic(_) => 3,
            Instruction::New(_, _) => 3,
            _ => 1,
        }
    }
}

} // verus!
