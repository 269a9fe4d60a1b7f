//! The class-level builder and its constant-pool manager.
//!
//! A `ClassBuilder` owns the growing constant pool and the list of completed
//! methods. Interning operations (`define_*`) return a stable 1-based pool
//! index; an entry structurally equal to an existing one is never added twice.
//! A `MethodBuilder` checks the class builder out, assembles one method's
//! instruction stream with symbolic-label branches, and hands the builder back
//! with the completed method appended on finalization.

use vstd::prelude::*;

use crate::classfile::Attribute;
use crate::classfile::Constant;
use crate::classfile::ConstantV;
use crate::classfile::Classfile;
use crate::classfile::Instruction;
use crate::classfile::Method;
use crate::classfile::StackMapFrame;
use crate::classfile::VerificationType;
use crate::classfile::instruction_size;
use crate::descriptor::Java;
use crate::descriptor::field_descriptor;
use crate::descriptor::field_descriptor_of;
use crate::descriptor::method_descriptor_of;
use crate::descriptor::method_signature;

verus! {

/// Public access flag.
pub const ACC_PUBLIC: u16 = 0x1;

/// Static access flag.
pub const ACC_STATIC: u16 = 0x8;

/// A fatal condition of a class or method build. No error is retried or
/// downgraded to a partial result: builds are all-or-nothing.
#[derive(Clone, Copy, Debug, PartialEq, Eq, Structural)]
pub enum BuildError {
    /// A pending branch's (label, environment) key had no recorded offset at
    /// finalize time.
    UnresolvedLabel,
    /// Interning would need a pool index beyond the 16-bit range, or a
    /// load-constant operand would need an index beyond its 8-bit range.
    ConstantPoolOverflow,
    /// The offset-patching step was asked to rewrite an instruction variant
    /// that carries no branch operand.
    UnpatchableInstructionShape,
}

// ---------------------------------------------------------------------------
// The constant pool as a mathematical value
// ---------------------------------------------------------------------------

/// The pool's mathematical contents: each entry's value, in order.
pub open spec fn pool_view(s: Seq<Constant>) -> Seq<ConstantV> {
    s.map_values(|c: Constant| c@)
}

/// Whether an entry structurally equal to `c` is already interned.
pub open spec fn pool_contains(pool: Seq<ConstantV>, c: ConstantV) -> bool {
    exists|j: int| 0 <= j < pool.len() && pool[j] == c
}

/// The 1-based index interning `c` returns: the index of the existing equal
/// entry if there is one, else one past the present length.
pub open spec fn interned_index(pool: Seq<ConstantV>, c: ConstantV) -> int {
    if pool_contains(pool, c) {
        (choose|j: int| 0 <= j < pool.len() && pool[j] == c) + 1
    } else {
        pool.len() as int + 1
    }
}

/// Interning `c` fails when it would have to add an entry whose index does
/// not fit in 16 bits.
pub open spec fn intern_overflows(pool: Seq<ConstantV>, c: ConstantV) -> bool {
    !pool_contains(pool, c) && pool.len() >= 0xFFFF
}

/// The pool after successfully interning `c`: unchanged if an equal entry
/// exists, else grown by that one entry.
pub open spec fn interned_pool(pool: Seq<ConstantV>, c: ConstantV) -> Seq<ConstantV> {
    if pool_contains(pool, c) {
        pool
    } else {
        pool.push(c)
    }
}

/// The pool after an interning attempt, counting the overflow case (in which
/// the pool is left as it stands).
pub open spec fn try_pool(pool: Seq<ConstantV>, c: ConstantV) -> Seq<ConstantV> {
    if intern_overflows(pool, c) {
        pool
    } else {
        interned_pool(pool, c)
    }
}

/// Composite entries reference other pool entries by 1-based index; an entry
/// may only point at an entry interned before it.
pub open spec fn constant_refs_ok(c: ConstantV, limit: int) -> bool {
    match c {
        ConstantV::Utf8(_) => true,
        ConstantV::Integer(_) => true,
        ConstantV::Float(_) => true,
        ConstantV::Class(i) => 1 <= i <= limit,
        ConstantV::String(i) => 1 <= i <= limit,
        ConstantV::Fieldref(c1, nt) => 1 <= c1 <= limit && 1 <= nt <= limit,
        ConstantV::Methodref(c1, nt) => 1 <= c1 <= limit && 1 <= nt <= limit,
        ConstantV::NameAndType(n, d) => 1 <= n <= limit && 1 <= d <= limit,
    }
}

/// Well-formedness of the pool: every index representable in 16 bits, no two
/// structurally equal entries, and no forward references.
pub open spec fn pool_wf(pool: Seq<ConstantV>) -> bool {
    &&& pool.len() <= 0xFFFF
    &&& forall|i: int, j: int| 0 <= i < j < pool.len() ==> pool[i] != pool[j]
    &&& forall|i: int| 0 <= i < pool.len() ==> constant_refs_ok(#[trigger] pool[i], i)
}

// ---------------------------------------------------------------------------
// Composite interning, one spec function triple per entry kind
// ---------------------------------------------------------------------------

/// Pool after interning a Utf8 entry.
pub open spec fn utf8_pool(pool: Seq<ConstantV>, text: Seq<char>) -> Seq<ConstantV> {
    try_pool(pool, ConstantV::Utf8(text))
}

/// Index returned for a Utf8 entry.
pub open spec fn utf8_index(pool: Seq<ConstantV>, text: Seq<char>) -> int {
    interned_index(pool, ConstantV::Utf8(text))
}

/// Whether interning a Utf8 entry succeeds.
pub open spec fn utf8_ok(pool: Seq<ConstantV>, text: Seq<char>) -> bool {
    !intern_overflows(pool, ConstantV::Utf8(text))
}

/// Pool after defining a class reference: its name string is interned first,
/// then the Class entry pointing at it.
pub open spec fn class_pool(pool: Seq<ConstantV>, name: Seq<char>) -> Seq<ConstantV> {
    if !utf8_ok(pool, name) {
        pool
    } else {
        try_pool(utf8_pool(pool, name), ConstantV::Class(utf8_index(pool, name) as u16))
    }
}

/// Index returned for a class reference.
pub open spec fn class_index(pool: Seq<ConstantV>, name: Seq<char>) -> int {
    interned_index(utf8_pool(pool, name), ConstantV::Class(utf8_index(pool, name) as u16))
}

/// Whether defining a class reference succeeds.
pub open spec fn class_ok(pool: Seq<ConstantV>, name: Seq<char>) -> bool {
    &&& utf8_ok(pool, name)
    &&& !intern_overflows(
        utf8_pool(pool, name),
        ConstantV::Class(utf8_index(pool, name) as u16),
    )
}

/// Pool after defining a string constant: its value text is interned first,
/// then the String entry pointing at it.
pub open spec fn string_pool(pool: Seq<ConstantV>, value: Seq<char>) -> Seq<ConstantV> {
    if !utf8_ok(pool, value) {
        pool
    } else {
        try_pool(utf8_pool(pool, value), ConstantV::String(utf8_index(pool, value) as u16))
    }
}

/// Index returned for a string constant.
pub open spec fn string_index(pool: Seq<ConstantV>, value: Seq<char>) -> int {
    interned_index(utf8_pool(pool, value), ConstantV::String(utf8_index(pool, value) as u16))
}

/// Whether defining a string constant succeeds.
pub open spec fn string_ok(pool: Seq<ConstantV>, value: Seq<char>) -> bool {
    &&& utf8_ok(pool, value)
    &&& !intern_overflows(
        utf8_pool(pool, value),
        ConstantV::String(utf8_index(pool, value) as u16),
    )
}

/// The NameAndType entry built over a pool that already holds name and
/// descriptor texts.
pub open spec fn name_and_type_entry(pool: Seq<ConstantV>, name: Seq<char>, desc: Seq<char>) -> ConstantV {
    ConstantV::NameAndType(
        utf8_index(pool, name) as u16,
        utf8_index(utf8_pool(pool, name), desc) as u16,
    )
}

/// Pool after defining a name-and-type pair: name text, then descriptor
/// text, then the pair entry.
pub open spec fn name_and_type_pool(pool: Seq<ConstantV>, name: Seq<char>, desc: Seq<char>) -> Seq<
    ConstantV,
> {
    if !utf8_ok(pool, name) {
        pool
    } else if !utf8_ok(utf8_pool(pool, name), desc) {
        utf8_pool(pool, name)
    } else {
        try_pool(utf8_pool(utf8_pool(pool, name), desc), name_and_type_entry(pool, name, desc))
    }
}

/// Index returned for a name-and-type pair.
pub open spec fn name_and_type_index(pool: Seq<ConstantV>, name: Seq<char>, desc: Seq<char>) -> int {
    interned_index(utf8_pool(utf8_pool(pool, name), desc), name_and_type_entry(pool, name, desc))
}

/// Whether defining a name-and-type pair succeeds.
pub open spec fn name_and_type_ok(pool: Seq<ConstantV>, name: Seq<char>, desc: Seq<char>) -> bool {
    &&& utf8_ok(pool, name)
    &&& utf8_ok(utf8_pool(pool, name), desc)
    &&& !intern_overflows(
        utf8_pool(utf8_pool(pool, name), desc),
        name_and_type_entry(pool, name, desc),
    )
}

/// The Fieldref entry built over the intermediate pools of its parts.
pub open spec fn fieldref_entry(
    pool: Seq<ConstantV>,
    class: Seq<char>,
    name: Seq<char>,
    desc: Seq<char>,
) -> ConstantV {
    ConstantV::Fieldref(
        class_index(pool, class) as u16,
        name_and_type_index(class_pool(pool, class), name, desc) as u16,
    )
}

/// Pool after defining a field reference: the owning class, then the
/// name-and-type pair over the field's descriptor, then the Fieldref entry.
pub open spec fn fieldref_pool(
    pool: Seq<ConstantV>,
    class: Seq<char>,
    name: Seq<char>,
    desc: Seq<char>,
) -> Seq<ConstantV> {
    if !class_ok(pool, class) {
        class_pool(pool, class)
    } else if !name_and_type_ok(class_pool(pool, class), name, desc) {
        name_and_type_pool(class_pool(pool, class), name, desc)
    } else {
        try_pool(
            name_and_type_pool(class_pool(pool, class), name, desc),
            fieldref_entry(pool, class, name, desc),
        )
    }
}

/// Index returned for a field reference.
pub open spec fn fieldref_index(
    pool: Seq<ConstantV>,
    class: Seq<char>,
    name: Seq<char>,
    desc: Seq<char>,
) -> int {
    interned_index(
        name_and_type_pool(class_pool(pool, class), name, desc),
        fieldref_entry(pool, class, name, desc),
    )
}

/// Whether defining a field reference succeeds.
pub open spec fn fieldref_ok(
    pool: Seq<ConstantV>,
    class: Seq<char>,
    name: Seq<char>,
    desc: Seq<char>,
) -> bool {
    &&& class_ok(pool, class)
    &&& name_and_type_ok(class_pool(pool, class), name, desc)
    &&& !intern_overflows(
        name_and_type_pool(class_pool(pool, class), name, desc),
        fieldref_entry(pool, class, name, desc),
    )
}

/// The Methodref entry built over the intermediate pools of its parts.
pub open spec fn methodref_entry(
    pool: Seq<ConstantV>,
    class: Seq<char>,
    name: Seq<char>,
    desc: Seq<char>,
) -> ConstantV {
    ConstantV::Methodref(
        class_index(pool, class) as u16,
        name_and_type_index(class_pool(pool, class), name, desc) as u16,
    )
}

/// Pool after defining a method reference: the owning class, then the
/// name-and-type pair over the method's descriptor, then the Methodref entry.
pub open spec fn methodref_pool(
    pool: Seq<ConstantV>,
    class: Seq<char>,
    name: Seq<char>,
    desc: Seq<char>,
) -> Seq<ConstantV> {
    if !class_ok(pool, class) {
        class_pool(pool, class)
    } else if !name_and_type_ok(class_pool(pool, class), name, desc) {
        name_and_type_pool(class_pool(pool, class), name, desc)
    } else {
        try_pool(
            name_and_type_pool(class_pool(pool, class), name, desc),
            methodref_entry(pool, class, name, desc),
        )
    }
}

/// Index returned for a method reference.
pub open spec fn methodref_index(
    pool: Seq<ConstantV>,
    class: Seq<char>,
    name: Seq<char>,
    desc: Seq<char>,
) -> int {
    interned_index(
        name_and_type_pool(class_pool(pool, class), name, desc),
        methodref_entry(pool, class, name, desc),
    )
}

/// Whether defining a method reference succeeds.
pub open spec fn methodref_ok(
    pool: Seq<ConstantV>,
    class: Seq<char>,
    name: Seq<char>,
    desc: Seq<char>,
) -> bool {
    &&& class_ok(pool, class)
    &&& name_and_type_ok(class_pool(pool, class), name, desc)
    &&& !intern_overflows(
        name_and_type_pool(class_pool(pool, class), name, desc),
        methodref_entry(pool, class, name, desc),
    )
}

// ---------------------------------------------------------------------------
// The class builder
// ---------------------------------------------------------------------------

/// Builds one class: the growing constant pool, the class-level header data,
/// and the completed methods.
pub struct ClassBuilder {
    pub access_flags: u16,
    pub this_class_index: u16,
    pub super_class_index: u16,
    pub constants: Vec<Constant>,
    pub methods: Vec<Method>,
}

/// What every interning operation leaves untouched and what it returns:
/// the pool moves from `pre` to the attempt at `c`, a returned index is the
/// interned index of `c`, and the only error is pool overflow.
pub open spec fn interns(
    pre: ClassBuilder,
    post: ClassBuilder,
    c: ConstantV,
    r: Result<u16, BuildError>,
) -> bool {
    &&& post.access_flags == pre.access_flags
    &&& post.this_class_index == pre.this_class_index
    &&& post.super_class_index == pre.super_class_index
    &&& post.methods == pre.methods
    &&& post.pool() == try_pool(pre.pool(), c)
    &&& (r is Ok <==> !intern_overflows(pre.pool(), c))
    &&& (r matches Ok(i) ==> i as int == interned_index(pre.pool(), c) && 1 <= i as int
        <= post.pool().len() && post.pool()[i as int - 1] == c)
    &&& (r matches Err(e) ==> e == BuildError::ConstantPoolOverflow)
}

impl ClassBuilder {
    /// The pool's mathematical contents.
    pub open spec fn pool(self) -> Seq<ConstantV> {
        pool_view(self.constants@)
    }

    /// The builder's invariant: a well-formed pool.
    pub open spec fn wf(self) -> bool {
        pool_wf(self.pool())
    }

    /// Open a class build. Interns the Utf8 and Class entries for this class
    /// and its superclass into the initially empty pool.
    pub fn new(access_flags: u16, this_class: &str, super_class: &str) -> (b: ClassBuilder)
        ensures
            b.wf(),
            b.access_flags == access_flags,
            b.methods@ == Seq::<Method>::empty(),
            b.pool() == class_pool(class_pool(Seq::empty(), this_class@), super_class@),
            b.this_class_index as int == class_index(Seq::empty(), this_class@),
            b.super_class_index as int == class_index(
                class_pool(Seq::empty(), this_class@),
                super_class@,
            ),
    {
        let mut builder = ClassBuilder {
            access_flags,
            this_class_index: 0,
            super_class_index: 0,
            constants: Vec::new(),
            methods: Vec::new(),
        };
        proof {
            assert(builder.pool() =~= Seq::<ConstantV>::empty());
        }
        let r1 = builder.define_class(this_class);
        proof {
            lemma_pool_len_grows(Seq::<ConstantV>::empty(), this_class@);
            assert(r1 is Ok);
        }
        builder.this_class_index = match r1 {
            Ok(i) => i,
            // excluded above: a pool of at most two entries cannot overflow
            Err(_) => 0,
        };
        let r2 = builder.define_class(super_class);
        proof {
            lemma_pool_len_grows(class_pool(Seq::empty(), this_class@), super_class@);
            assert(r2 is Ok);
        }
        builder.super_class_index = match r2 {
            Ok(i) => i,
            // excluded above: a pool of at most four entries cannot overflow
            Err(_) => 0,
        };
        builder
    }

    /// Intern one entry: return the index of a structurally equal existing
    /// entry, or append `constant` and return its new 1-based index.
    #[verifier::loop_isolation(false)]
    fn push_constant(&mut self, constant: Constant) -> (r: Result<u16, BuildError>)
        requires
            old(self).wf(),
            constant_refs_ok(constant@, old(self).pool().len() as int),
        ensures
            final(self).wf(),
            interns(*old(self), *final(self), constant@, r),
    {
        let ghost pool0 = self.pool();
        let n = self.constants.len();
        for idx in 0..n
            invariant
                *self == *old(self),
                pool0 == self.pool(),
                n == self.constants@.len(),
                forall|j: int| 0 <= j < idx ==> pool0[j] != constant@,
        {
            if self.constants[idx] == constant {
                proof {
                    assert(pool0[idx as int] == constant@);
                    assert(pool_contains(pool0, constant@));
                    let j = choose|j: int| 0 <= j < pool0.len() && pool0[j] == constant@;
                    if j != idx as int {
                        assert(pool0[j] == pool0[idx as int]);
                        assert(false);
                    }
                }
                return Ok((idx + 1) as u16);
            }
        }
        proof {
            assert(!pool_contains(pool0, constant@));
        }
        if self.constants.len() >= 0xFFFF {
            return Err(BuildError::ConstantPoolOverflow);
        }
        self.constants.push(constant);
        proof {
            assert(self.pool() =~= pool0.push(constant@));
        }
        Ok(self.constants.len() as u16)
    }

    /// Intern an integer constant.
    fn define_integer(&mut self, n: i32) -> (r: Result<u16, BuildError>)
        requires
            old(self).wf(),
        ensures
            final(self).wf(),
            interns(*old(self), *final(self), ConstantV::Integer(n), r),
    {
        self.push_constant(Constant::Integer(n))
    }

    /// Intern a float constant, given as its IEEE-754 bits.
    fn define_float(&mut self, bits: u32) -> (r: Result<u16, BuildError>)
        requires
            old(self).wf(),
        ensures
            final(self).wf(),
            interns(*old(self), *final(self), ConstantV::Float(bits), r),
    {
        self.push_constant(Constant::Float(bits))
    }

    /// Intern a Utf8 text entry.
    fn define_utf8(&mut self, string: &str) -> (r: Result<u16, BuildError>)
        requires
            old(self).wf(),
        ensures
            final(self).wf(),
            interns(*old(self), *final(self), ConstantV::Utf8(string@), r),
    {
        self.push_constant(Constant::Utf8(string.to_owned()))
    }

    /// Define a class reference: interns the name string, then the Class
    /// entry pointing at it.
    fn define_class(&mut self, class: &str) -> (r: Result<u16, BuildError>)
        requires
            old(self).wf(),
        ensures
            final(self).wf(),
            final(self).pool() == class_pool(old(self).pool(), class@),
            final(self).access_flags == old(self).access_flags,
            final(self).this_class_index == old(self).this_class_index,
            final(self).super_class_index == old(self).super_class_index,
            final(self).methods == old(self).methods,
            r is Ok <==> class_ok(old(self).pool(), class@),
            r matches Ok(i) ==> i as int == class_index(old(self).pool(), class@) && 1 <= i as int
                <= final(self).pool().len(),
            r matches Err(e) ==> e == BuildError::ConstantPoolOverflow,
    {
        let name_index = match self.define_utf8(class) {
            Ok(i) => i,
            Err(e) => {
                return Err(e);
            },
        };
        self.push_constant(Constant::Class(name_index))
    }

    /// Define a string constant: interns the value text, then the String
    /// entry pointing at it.
    fn define_string(&mut self, value: &str) -> (r: Result<u16, BuildError>)
        requires
            old(self).wf(),
        ensures
            final(self).wf(),
            final(self).pool() == string_pool(old(self).pool(), value@),
            final(self).access_flags == old(self).access_flags,
            final(self).this_class_index == old(self).this_class_index,
            final(self).super_class_index == old(self).super_class_index,
            final(self).methods == old(self).methods,
            r is Ok <==> string_ok(old(self).pool(), value@),
            r matches Ok(i) ==> i as int == string_index(old(self).pool(), value@) && 1 <= i as int
                <= final(self).pool().len(),
            r matches Err(e) ==> e == BuildError::ConstantPoolOverflow,
    {
        let string_index = match self.define_utf8(value) {
            Ok(i) => i,
            Err(e) => {
                return Err(e);
            },
        };
        self.push_constant(Constant::String(string_index))
    }

    /// Define a name-and-type pair: interns the name text, the descriptor
    /// text, then the pair entry pointing at both.
    fn define_name_and_type(&mut self, name: &str, descriptor: &str) -> (r: Result<
        u16,
        BuildError,
    >)
        requires
            old(self).wf(),
        ensures
            final(self).wf(),
            final(self).pool() == name_and_type_pool(old(self).pool(), name@, descriptor@),
            final(self).access_flags == old(self).access_flags,
            final(self).this_class_index == old(self).this_class_index,
            final(self).super_class_index == old(self).super_class_index,
            final(self).methods == old(self).methods,
            r is Ok <==> name_and_type_ok(old(self).pool(), name@, descriptor@),
            r matches Ok(i) ==> i as int == name_and_type_index(old(self).pool(), name@, descriptor@) && 1
                <= i as int <= final(self).pool().len(),
            r matches Err(e) ==> e == BuildError::ConstantPoolOverflow,
    {
        let name_index = match self.define_utf8(name) {
            Ok(i) => i,
            Err(e) => {
                return Err(e);
            },
        };
        let descriptor_index = match self.define_utf8(descriptor) {
            Ok(i) => i,
            Err(e) => {
                return Err(e);
            },
        };
        self.push_constant(Constant::NameAndType(name_index, descriptor_index))
    }

    /// Define a field reference: the owning class, the name-and-type pair
    /// over the field type's descriptor text, then the Fieldref entry.
    fn define_fieldref(&mut self, class: &str, name: &str, field_type: &Java) -> (r: Result<
        u16,
        BuildError,
    >)
        requires
            old(self).wf(),
        ensures
            final(self).wf(),
            final(self).pool() == fieldref_pool(
                old(self).pool(),
                class@,
                name@,
                field_descriptor_of(*field_type),
            ),
            final(self).access_flags == old(self).access_flags,
            final(self).this_class_index == old(self).this_class_index,
            final(self).super_class_index == old(self).super_class_index,
            final(self).methods == old(self).methods,
            r is Ok <==> fieldref_ok(old(self).pool(), class@, name@, field_descriptor_of(*field_type)),
            r matches Ok(i) ==> i as int == fieldref_index(
                old(self).pool(),
                class@,
                name@,
                field_descriptor_of(*field_type),
            ) && 1 <= i as int <= final(self).pool().len(),
            r matches Err(e) ==> e == BuildError::ConstantPoolOverflow,
    {
        let class_index = match self.define_class(class) {
            Ok(i) => i,
            Err(e) => {
                return Err(e);
            },
        };
        let descriptor = field_descriptor(field_type);
        let name_and_type_index = match self.define_name_and_type(name, descriptor.as_str()) {
            Ok(i) => i,
            Err(e) => {
                return Err(e);
            },
        };
        self.push_constant(Constant::Fieldref(class_index, name_and_type_index))
    }

    /// Define a method reference: the owning class, the name-and-type pair
    /// over the method descriptor text, then the Methodref entry.
    fn define_methodref(
        &mut self,
        class: &str,
        name: &str,
        argument_types: &[Java],
        return_type: &Java,
    ) -> (r: Result<u16, BuildError>)
        requires
            old(self).wf(),
        ensures
            final(self).wf(),
            final(self).pool() == methodref_pool(
                old(self).pool(),
                class@,
                name@,
                method_descriptor_of(argument_types@, *return_type),
            ),
            final(self).access_flags == old(self).access_flags,
            final(self).this_class_index == old(self).this_class_index,
            final(self).super_class_index == old(self).super_class_index,
            final(self).methods == old(self).methods,
            r is Ok <==> methodref_ok(
                old(self).pool(),
                class@,
                name@,
                method_descriptor_of(argument_types@, *return_type),
            ),
            r matches Ok(i) ==> i as int == methodref_index(
                old(self).pool(),
                class@,
                name@,
                method_descriptor_of(argument_types@, *return_type),
            ) && 1 <= i as int <= final(self).pool().len(),
            r matches Err(e) ==> e == BuildError::ConstantPoolOverflow,
    {
        let class_index = match self.define_class(class) {
            Ok(i) => i,
            Err(e) => {
                return Err(e);
            },
        };
        let descriptor = method_signature(argument_types, return_type);
        let name_and_type_index = match self.define_name_and_type(name, descriptor.as_str()) {
            Ok(i) => i,
            Err(e) => {
                return Err(e);
            },
        };
        self.push_constant(Constant::Methodref(class_index, name_and_type_index))
    }

    /// Close the class build: the completed container with the interned pool,
    /// the class references, and every finished method.
    pub fn done(self) -> (cf: Classfile)
        ensures
            cf.constant_pool == self.constants,
            cf.access_flags == self.access_flags,
            cf.this_class == self.this_class_index,
            cf.super_class == self.super_class_index,
            cf.methods == self.methods,
            cf.magic == crate::classfile::CAFEBABE,
            cf.major_version == crate::classfile::MAJOR_VERSION,
            cf.minor_version == crate::classfile::MINOR_VERSION,
            cf.interfaces@.len() == 0,
            cf.fields@.len() == 0,
            cf.attributes@.len() == 0,
    {
        Classfile::new(
            self.constants,
            self.access_flags,
            self.this_class_index,
            self.super_class_index,
            self.methods,
        )
    }
}

/// Defining a class reference grows the pool by at most two entries: the
/// name text and the Class entry.
pub proof fn lemma_pool_len_grows(pool: Seq<ConstantV>, name: Seq<char>)
    ensures
        class_pool(pool, name).len() <= pool.len() + 2,
{
}

// ---------------------------------------------------------------------------
// The method assembler
// ---------------------------------------------------------------------------

/// One instruction of the stream under assembly: either complete, or a
/// branch waiting for its label, carrying the label name, the environment
/// active at emission time, and the un-patched instruction shape.
#[derive(Debug)]
pub enum IntermediateInstruction {
    Ready(Instruction),
    Waiting(String, u16, Instruction),
}

/// The mathematical value of a pending instruction.
pub enum PendingV {
    Ready(Instruction),
    Waiting(Seq<char>, u16, Instruction),
}

impl View for IntermediateInstruction {
    type V = PendingV;

    open spec fn view(&self) -> PendingV {
        match self {
            IntermediateInstruction::Ready(i) => PendingV::Ready(*i),
            IntermediateInstruction::Waiting(l, e, i) => PendingV::Waiting(l@, *e, *i),
        }
    }
}

/// One declared label: its name, the environment it was declared in, and the
/// byte offset of the declaration.
#[derive(Debug)]
pub struct LabelEntry {
    pub name: String,
    pub env: u16,
    pub offset: u16,
}

/// The mathematical value of a label entry.
pub struct LabelEntryV {
    pub name: Seq<char>,
    pub env: u16,
    pub offset: u16,
}

impl View for LabelEntry {
    type V = LabelEntryV;

    open spec fn view(&self) -> LabelEntryV {
        LabelEntryV { name: self.name@, env: self.env, offset: self.offset }
    }
}

/// The label table as a mathematical value.
pub open spec fn label_entries_view(s: Seq<LabelEntry>) -> Seq<LabelEntryV> {
    s.map_values(|e: LabelEntry| e@)
}

/// The offset recorded for `(name, env)`: that of the latest declaration
/// under exactly that name and that environment, if there is one.
pub open spec fn label_lookup(t: Seq<LabelEntryV>, name: Seq<char>, env: u16) -> Option<u16>
    decreases t.len(),
{
    if t.len() == 0 {
        None
    } else if t.last().name == name && t.last().env == env {
        Some(t.last().offset)
    } else {
        label_lookup(t.drop_last(), name, env)
    }
}

/// The instruction a pending entry carries.
pub open spec fn pending_instr(p: PendingV) -> Instruction {
    match p {
        PendingV::Ready(i) => i,
        PendingV::Waiting(_, _, i) => i,
    }
}

/// Whether an instruction carries a 16-bit branch operand.
pub open spec fn is_branch(i: Instruction) -> bool {
    match i {
        Instruction::IfEq(_) => true,
        Instruction::IfNe(_) => true,
        Instruction::IfLt(_) => true,
        Instruction::IfGe(_) => true,
        Instruction::IfGt(_) => true,
        Instruction::IfLe(_) => true,
        Instruction::IfIcmpEq(_) => true,
        Instruction::IfIcmpNe(_) => true,
        Instruction::IfIcmpLt(_) => true,
        Instruction::IfIcmpGe(_) => true,
        Instruction::IfIcmpGt(_) => true,
        Instruction::IfIcmpLe(_) => true,
        Instruction::Goto(_) => true,
        _ => false,
    }
}

/// An instruction stream is well-formed when its entries sit at consecutive
/// offsets (each the previous offset plus that instruction's fixed size),
/// the cursor is the offset one past the last entry, and every pending
/// branch has a branch shape.
pub open spec fn stream_wf(code: Seq<(u16, PendingV)>, cursor: u16) -> bool {
    &&& (code.len() > 0 ==> code[0].0 == 0)
    &&& forall|i: int|
        1 <= i < code.len() ==> (#[trigger] code[i]).0 == code[i - 1].0 + instruction_size(
            pending_instr(code[i - 1].1),
        )
    &&& (code.len() == 0 ==> cursor == 0)
    &&& (code.len() > 0 ==> cursor == code.last().0 + instruction_size(pending_instr(code.last().1)))
    &&& forall|i: int|
        0 <= i < code.len() ==> ((#[trigger] code[i]).1 matches PendingV::Waiting(_, _, ins)
            ==> is_branch(ins))
}

/// Assembles one method. Holds the class builder checked out for its whole
/// lifetime (no other pool mutation can happen while a method is open), and
/// is consumed by `done`, which hands the builder back with the completed
/// method appended.
pub struct MethodBuilder {
    pub classfile: ClassBuilder,
    pub access_flags: u16,
    pub name_index: u16,
    pub descriptor_index: u16,
    pub instructions: Vec<(u16, IntermediateInstruction)>,
    pub labels: Vec<LabelEntry>,
    pub stack_index: u16,
    pub max_stack_depth: u16,
    pub stack_frames: Vec<StackMapFrame>,
    pub last_stack_frame_index: Option<u16>,
    pub num_locals: u16,
    pub stack_types: Vec<VerificationType>,
    pub env_num: u16,
    pub env_count: u16,
}

/// The class-level fields an interning operation never touches.
pub open spec fn same_but_pool(pre: ClassBuilder, post: ClassBuilder) -> bool {
    &&& post.access_flags == pre.access_flags
    &&& post.this_class_index == pre.this_class_index
    &&& post.super_class_index == pre.super_class_index
    &&& post.methods == pre.methods
}

/// The label/frame bookkeeping an instruction emission never touches.
pub open spec fn preserves_frame_state(pre: MethodBuilder, post: MethodBuilder) -> bool {
    &&& post.labels == pre.labels
    &&& post.stack_frames == pre.stack_frames
    &&& post.last_stack_frame_index == pre.last_stack_frame_index
    &&& post.env_num == pre.env_num
    &&& post.env_count == pre.env_count
}

/// The method identity and inert stack bound, which no operation changes.
pub open spec fn preserves_method_ids(pre: MethodBuilder, post: MethodBuilder) -> bool {
    &&& post.access_flags == pre.access_flags
    &&& post.name_index == pre.name_index
    &&& post.descriptor_index == pre.descriptor_index
    &&& post.max_stack_depth == pre.max_stack_depth
}

/// One complete instruction was appended at the old cursor, which advanced by
/// the instruction's fixed size; nothing else of the method state moved.
pub open spec fn emits_code(pre: MethodBuilder, post: MethodBuilder, instr: Instruction) -> bool {
    &&& post.code() == pre.code().push((pre.stack_index, PendingV::Ready(instr)))
    &&& post.stack_index == pre.stack_index + instruction_size(instr)
    &&& post.num_locals == pre.num_locals
    &&& post.stack_types == pre.stack_types
    &&& preserves_frame_state(pre, post)
    &&& preserves_method_ids(pre, post)
}

/// `emits_code` without any pool activity.
pub open spec fn emits(pre: MethodBuilder, post: MethodBuilder, instr: Instruction) -> bool {
    &&& emits_code(pre, post, instr)
    &&& post.classfile == pre.classfile
}

/// `emits_code` and the operand-stack type record gained `t` on top.
pub open spec fn emits_code_typed(
    pre: MethodBuilder,
    post: MethodBuilder,
    instr: Instruction,
    t: VerificationType,
) -> bool {
    &&& post.code() == pre.code().push((pre.stack_index, PendingV::Ready(instr)))
    &&& post.stack_index == pre.stack_index + instruction_size(instr)
    &&& post.num_locals == pre.num_locals
    &&& post.stack_types@ == pre.stack_types@.push(t)
    &&& preserves_frame_state(pre, post)
    &&& preserves_method_ids(pre, post)
}

/// `emits_code_typed` without any pool activity.
pub open spec fn emits_typed(
    pre: MethodBuilder,
    post: MethodBuilder,
    instr: Instruction,
    t: VerificationType,
) -> bool {
    &&& emits_code_typed(pre, post, instr, t)
    &&& post.classfile == pre.classfile
}

/// `emits` and the locals counter advanced by one (every store counts a new
/// local; slot reuse is not tracked).
pub open spec fn emits_store(pre: MethodBuilder, post: MethodBuilder, instr: Instruction) -> bool {
    &&& post.code() == pre.code().push((pre.stack_index, PendingV::Ready(instr)))
    &&& post.stack_index == pre.stack_index + instruction_size(instr)
    &&& post.num_locals == pre.num_locals + 1
    &&& post.stack_types == pre.stack_types
    &&& preserves_frame_state(pre, post)
    &&& preserves_method_ids(pre, post)
    &&& post.classfile == pre.classfile
}

/// One pending branch was appended at the old cursor, keyed by the label
/// name and the environment active at emission time.
pub open spec fn delays(
    pre: MethodBuilder,
    post: MethodBuilder,
    label: Seq<char>,
    instr: Instruction,
) -> bool {
    &&& post.code() == pre.code().push(
        (pre.stack_index, PendingV::Waiting(label, pre.env_num, instr)),
    )
    &&& post.stack_index == pre.stack_index + instruction_size(instr)
    &&& post.num_locals == pre.num_locals
    &&& post.stack_types == pre.stack_types
    &&& preserves_frame_state(pre, post)
    &&& preserves_method_ids(pre, post)
    &&& post.classfile == pre.classfile
}

/// The whole method state apart from the pool, untouched by an operation
/// that failed after interning.
pub open spec fn method_state_eq(pre: MethodBuilder, post: MethodBuilder) -> bool {
    &&& post.code() == pre.code()
    &&& post.stack_index == pre.stack_index
    &&& post.num_locals == pre.num_locals
    &&& post.stack_types == pre.stack_types
    &&& preserves_frame_state(pre, post)
    &&& preserves_method_ids(pre, post)
}

/// Everything an environment operation leaves untouched.
pub open spec fn unchanged_but_env(pre: MethodBuilder, post: MethodBuilder) -> bool {
    &&& post.code() == pre.code()
    &&& post.stack_index == pre.stack_index
    &&& post.num_locals == pre.num_locals
    &&& post.stack_types == pre.stack_types
    &&& post.labels == pre.labels
    &&& post.stack_frames == pre.stack_frames
    &&& post.last_stack_frame_index == pre.last_stack_frame_index
    &&& preserves_method_ids(pre, post)
    &&& post.classfile == pre.classfile
}

/// The two's-complement byte a signed immediate operand is encoded as.
pub open spec fn byte_of(v: i8) -> u8 {
    if v >= 0 {
        v as u8
    } else {
        (v + 256) as u8
    }
}

/// The offset-delta a frame records: the byte distance since the previous
/// frame, or since method start for the first frame.
pub open spec fn frame_offset(last: Option<u16>, cursor: u16) -> int {
    match last {
        Some(i) => cursor - i,
        None => cursor as int,
    }
}

/// Frame-kind selection at a label: with no verification type live on the
/// tracked operand stack a delta-only frame, else the single-stack-item
/// analogue; the compact form when the delta fits in 8 bits, else the
/// extended form.
pub open spec fn frame_for(offset: int, stack_types: Seq<VerificationType>) -> StackMapFrame {
    if stack_types.len() == 0 {
        if offset > 255 {
            StackMapFrame::SameFrameExtended(offset as u16)
        } else {
            StackMapFrame::SameFrame(offset as u8)
        }
    } else {
        if offset > 255 {
            StackMapFrame::SameLocals1StackItemFrameExtended(offset as u16, stack_types.last())
        } else {
            StackMapFrame::SameLocals1StackItemFrame(offset as u8, stack_types.last())
        }
    }
}

impl MethodBuilder {
    /// The instruction stream as offsets paired with pending values.
    pub open spec fn code(self) -> Seq<(u16, PendingV)> {
        self.instructions@.map_values(|p: (u16, IntermediateInstruction)| (p.0, p.1@))
    }

    /// The label table as a mathematical value.
    pub open spec fn label_table(self) -> Seq<LabelEntryV> {
        label_entries_view(self.labels@)
    }

    /// The owning class builder's pool contents.
    pub open spec fn pool(self) -> Seq<ConstantV> {
        self.classfile.pool()
    }

    /// The assembler's invariant: a well-formed pool and a well-formed
    /// stream, with the last frame not past the cursor.
    pub open spec fn wf(self) -> bool {
        &&& self.classfile.wf()
        &&& stream_wf(self.code(), self.stack_index)
        &&& (self.last_stack_frame_index matches Some(i) ==> i <= self.stack_index)
    }

    /// Append one complete instruction at the current byte cursor and advance
    /// the cursor by that instruction's fixed encoded size.
    fn push_instruction(&mut self, instruction: Instruction)
        requires
            old(self).wf(),
            old(self).stack_index + instruction_size(instruction) <= 0xFFFF,
        ensures
            final(self).wf(),
            emits(*old(self), *final(self), instruction),
    {
        let index = self.stack_index;
        let size = instruction.size();
        self.stack_index = self.stack_index + size as u16;
        self.instructions.push((index, IntermediateInstruction::Ready(instruction)));
        proof {
            assert(self.code() =~= old(self).code().push(
                (index, PendingV::Ready(instruction)),
            ));
        }
    }

    /// Record one branch instruction as pending at the current byte cursor,
    /// carrying the label name and the active environment.
    fn delay_instruction(&mut self, label: &str, instruction: Instruction)
        requires
            old(self).wf(),
            old(self).stack_index + instruction_size(instruction) <= 0xFFFF,
            is_branch(instruction),
        ensures
            final(self).wf(),
            delays(*old(self), *final(self), label@, instruction),
    {
        let index = self.stack_index;
        let env = self.env_num;
        let size = instruction.size();
        self.stack_index = self.stack_index + size as u16;
        self.instructions.push(
            (index, IntermediateInstruction::Waiting(label.to_owned(), env, instruction)),
        );
        proof {
            assert(self.code() =~= old(self).code().push(
                (index, PendingV::Waiting(label@, env, instruction)),
            ));
        }
    }

    /// Append the `dup` instruction, duplicating the stack top.
    pub fn dup(&mut self)
        requires
            old(self).wf(),
            old(self).stack_index + instruction_size(Instruction::Dup) <= 0xFFFF,
        ensures
            final(self).wf(),
            emits(*old(self), *final(self), Instruction::Dup),
    {
        self.push_instruction(Instruction::Dup);
    }

    /// Append the int-to-char conversion instruction.
    pub fn i2c(&mut self)
        requires
            old(self).wf(),
            old(self).stack_index + instruction_size(Instruction::I2C) <= 0xFFFF,
        ensures
            final(self).wf(),
            emits(*old(self), *final(self), Instruction::I2C),
    {
        self.push_instruction(Instruction::I2C);
    }

    /// Append the int-to-float conversion instruction.
    pub fn i2f(&mut self)
        requires
            old(self).wf(),
            old(self).stack_index + instruction_size(Instruction::I2F) <= 0xFFFF,
        ensures
            final(self).wf(),
            emits(*old(self), *final(self), Instruction::I2F),
    {
        self.push_instruction(Instruction::I2F);
    }

    /// Append the float-to-int conversion instruction.
    pub fn f2i(&mut self)
        requires
            old(self).wf(),
            old(self).stack_index + instruction_size(Instruction::F2I) <= 0xFFFF,
        ensures
            final(self).wf(),
            emits(*old(self), *final(self), Instruction::F2I),
    {
        self.push_instruction(Instruction::F2I);
    }

    /// Append the integer remainder instruction.
    pub fn irem(&mut self)
        requires
            old(self).wf(),
            old(self).stack_index + instruction_size(Instruction::Irem) <= 0xFFFF,
        ensures
            final(self).wf(),
            emits(*old(self), *final(self), Instruction::Irem),
    {
        self.push_instruction(Instruction::Irem);
    }

    /// Append the float remainder instruction.
    pub fn frem(&mut self)
        requires
            old(self).wf(),
            old(self).stack_index + instruction_size(Instruction::Frem) <= 0xFFFF,
        ensures
            final(self).wf(),
            emits(*old(self), *final(self), Instruction::Frem),
    {
        self.push_instruction(Instruction::Frem);
    }

    /// Append the float constant 0.0 push.
    pub fn fconst0(&mut self)
        requires
            old(self).wf(),
            old(self).stack_index + instruction_size(Instruction::Fconst0) <= 0xFFFF,
        ensures
            final(self).wf(),
            emits(*old(self), *final(self), Instruction::Fconst0),
    {
        self.push_instruction(Instruction::Fconst0);
    }

    /// Append the float constant 1.0 push.
    pub fn fconst1(&mut self)
        requires
            old(self).wf(),
            old(self).stack_index + instruction_size(Instruction::Fconst1) <= 0xFFFF,
        ensures
            final(self).wf(),
            emits(*old(self), *final(self), Instruction::Fconst1),
    {
        self.push_instruction(Instruction::Fconst1);
    }

    /// Append the float constant 2.0 push.
    pub fn fconst2(&mut self)
        requires
            old(self).wf(),
            old(self).stack_index + instruction_size(Instruction::Fconst2) <= 0xFFFF,
        ensures
            final(self).wf(),
            emits(*old(self), *final(self), Instruction::Fconst2),
    {
        self.push_instruction(Instruction::Fconst2);
    }

    /// Append the float load from local slot 0.
    pub fn fload0(&mut self)
        requires
            old(self).wf(),
            old(self).stack_index + instruction_size(Instruction::Fload0) <= 0xFFFF,
        ensures
            final(self).wf(),
            emits(*old(self), *final(self), Instruction::Fload0),
    {
        self.push_instruction(Instruction::Fload0);
    }

    /// Append the float load from local slot 1.
    pub fn fload1(&mut self)
        requires
            old(self).wf(),
            old(self).stack_index + instruction_size(Instruction::Fload1) <= 0xFFFF,
        ensures
            final(self).wf(),
            emits(*old(self), *final(self), Instruction::Fload1),
    {
        self.push_instruction(Instruction::Fload1);
    }

    /// Append the float load from local slot 2.
    pub fn fload2(&mut self)
        requires
            old(self).wf(),
            old(self).stack_index + instruction_size(Instruction::Fload2) <= 0xFFFF,
        ensures
            final(self).wf(),
            emits(*old(self), *final(self), Instruction::Fload2),
    {
        self.push_instruction(Instruction::Fload2);
    }

    /// Append the float load from local slot 3.
    pub fn fload3(&mut self)
        requires
            old(self).wf(),
            old(self).stack_index + instruction_size(Instruction::Fload3) <= 0xFFFF,
        ensures
            final(self).wf(),
            emits(*old(self), *final(self), Instruction::Fload3),
    {
        self.push_instruction(Instruction::Fload3);
    }

    /// Append the float load from an explicit local slot.
    pub fn fload(&mut self, reg: u8)
        requires
            old(self).wf(),
            old(self).stack_index + instruction_size(Instruction::Fload(reg)) <= 0xFFFF,
        ensures
            final(self).wf(),
            emits(*old(self), *final(self), Instruction::Fload(reg)),
    {
        self.push_instruction(Instruction::Fload(reg));
    }

    /// Append the float addition instruction.
    pub fn fadd(&mut self)
        requires
            old(self).wf(),
            old(self).stack_index + instruction_size(Instruction::Fadd) <= 0xFFFF,
        ensures
            final(self).wf(),
            emits(*old(self), *final(self), Instruction::Fadd),
    {
        self.push_instruction(Instruction::Fadd);
    }

    /// Append the float subtraction instruction.
    pub fn fsub(&mut self)
        requires
            old(self).wf(),
            old(self).stack_index + instruction_size(Instruction::Fsub) <= 0xFFFF,
        ensures
            final(self).wf(),
            emits(*old(self), *final(self), Instruction::Fsub),
    {
        self.push_instruction(Instruction::Fsub);
    }

    /// Append the float multiplication instruction.
    pub fn fmul(&mut self)
        requires
            old(self).wf(),
            old(self).stack_index + instruction_size(Instruction::Fmul) <= 0xFFFF,
        ensures
            final(self).wf(),
            emits(*old(self), *final(self), Instruction::Fmul),
    {
        self.push_instruction(Instruction::Fmul);
    }

    /// Append the float division instruction.
    pub fn fdiv(&mut self)
        requires
            old(self).wf(),
            old(self).stack_index + instruction_size(Instruction::Fdiv) <= 0xFFFF,
        ensures
            final(self).wf(),
            emits(*old(self), *final(self), Instruction::Fdiv),
    {
        self.push_instruction(Instruction::Fdiv);
    }

    /// Append the null reference push.
    pub fn aconst_null(&mut self)
        requires
            old(self).wf(),
            old(self).stack_index + instruction_size(Instruction::AConstNull) <= 0xFFFF,
        ensures
            final(self).wf(),
            emits(*old(self), *final(self), Instruction::AConstNull),
    {
        self.push_instruction(Instruction::AConstNull);
    }

    /// Append the reference store to local slot 0.
    pub fn astore0(&mut self)
        requires
            old(self).wf(),
            old(self).stack_index + instruction_size(Instruction::Astore0) <= 0xFFFF,
        ensures
            final(self).wf(),
            emits(*old(self), *final(self), Instruction::Astore0),
    {
        self.push_instruction(Instruction::Astore0);
    }

    /// Append the reference store to local slot 1.
    pub fn astore1(&mut self)
        requires
            old(self).wf(),
            old(self).stack_index + instruction_size(Instruction::Astore1) <= 0xFFFF,
        ensures
            final(self).wf(),
            emits(*old(self), *final(self), Instruction::Astore1),
    {
        self.push_instruction(Instruction::Astore1);
    }

    /// Append the reference store to local slot 2.
    pub fn astore2(&mut self)
        requires
            old(self).wf(),
            old(self).stack_index + instruction_size(Instruction::Astore2) <= 0xFFFF,
        ensures
            final(self).wf(),
            emits(*old(self), *final(self), Instruction::Astore2),
    {
        self.push_instruction(Instruction::Astore2);
    }

    /// Append the reference store to local slot 3.
    pub fn astore3(&mut self)
        requires
            old(self).wf(),
            old(self).stack_index + instruction_size(Instruction::Astore3) <= 0xFFFF,
        ensures
            final(self).wf(),
            emits(*old(self), *final(self), Instruction::Astore3),
    {
        self.push_instruction(Instruction::Astore3);
    }

    /// Append the reference store to an explicit local slot.
    pub fn astore(&mut self, reg: u8)
        requires
            old(self).wf(),
            old(self).stack_index + instruction_size(Instruction::Astore(reg)) <= 0xFFFF,
        ensures
            final(self).wf(),
            emits(*old(self), *final(self), Instruction::Astore(reg)),
    {
        self.push_instruction(Instruction::Astore(reg));
    }

    /// Append the reference load from local slot 0.
    pub fn aload0(&mut self)
        requires
            old(self).wf(),
            old(self).stack_index + instruction_size(Instruction::Aload0) <= 0xFFFF,
        ensures
            final(self).wf(),
            emits(*old(self), *final(self), Instruction::Aload0),
    {
        self.push_instruction(Instruction::Aload0);
    }

    /// Append the reference load from local slot 1.
    pub fn aload1(&mut self)
        requires
            old(self).wf(),
            old(self).stack_index + instruction_size(Instruction::Aload1) <= 0xFFFF,
        ensures
            final(self).wf(),
            emits(*old(self), *final(self), Instruction::Aload1),
    {
        self.push_instruction(Instruction::Aload1);
    }

    /// Append the reference load from local slot 2.
    pub fn aload2(&mut self)
        requires
            old(self).wf(),
            old(self).stack_index + instruction_size(Instruction::Aload2) <= 0xFFFF,
        ensures
            final(self).wf(),
            emits(*old(self), *final(self), Instruction::Aload2),
    {
        self.push_instruction(Instruction::Aload2);
    }

    /// Append the reference load from local slot 3.
    pub fn aload3(&mut self)
        requires
            old(self).wf(),
            old(self).stack_index + instruction_size(Instruction::Aload3) <= 0xFFFF,
        ensures
            final(self).wf(),
            emits(*old(self), *final(self), Instruction::Aload3),
    {
        self.push_instruction(Instruction::Aload3);
    }

    /// Append the reference load from an explicit local slot.
    pub fn aload(&mut self, reg: u8)
        requires
            old(self).wf(),
            old(self).stack_index + instruction_size(Instruction::Aload(reg)) <= 0xFFFF,
        ensures
            final(self).wf(),
            emits(*old(self), *final(self), Instruction::Aload(reg)),
    {
        self.push_instruction(Instruction::Aload(reg));
    }

    /// Append the reference array load instruction.
    pub fn aaload(&mut self)
        requires
            old(self).wf(),
            old(self).stack_index + instruction_size(Instruction::Aaload) <= 0xFFFF,
        ensures
            final(self).wf(),
            emits(*old(self), *final(self), Instruction::Aaload),
    {
        self.push_instruction(Instruction::Aaload);
    }

    /// Append the integer addition instruction.
    pub fn iadd(&mut self)
        requires
            old(self).wf(),
            old(self).stack_index + instruction_size(Instruction::Iadd) <= 0xFFFF,
        ensures
            final(self).wf(),
            emits(*old(self), *final(self), Instruction::Iadd),
    {
        self.push_instruction(Instruction::Iadd);
    }

    /// Append the integer subtraction instruction.
    pub fn isub(&mut self)
        requires
            old(self).wf(),
            old(self).stack_index + instruction_size(Instruction::Isub) <= 0xFFFF,
        ensures
            final(self).wf(),
            emits(*old(self), *final(self), Instruction::Isub),
    {
        self.push_instruction(Instruction::Isub);
    }

    /// Append the integer multiplication instruction.
    pub fn imul(&mut self)
        requires
            old(self).wf(),
            old(self).stack_index + instruction_size(Instruction::Imul) <= 0xFFFF,
        ensures
            final(self).wf(),
            emits(*old(self), *final(self), Instruction::Imul),
    {
        self.push_instruction(Instruction::Imul);
    }

    /// Append the integer division instruction.
    pub fn idiv(&mut self)
        requires
            old(self).wf(),
            old(self).stack_index + instruction_size(Instruction::Idiv) <= 0xFFFF,
        ensures
            final(self).wf(),
            emits(*old(self), *final(self), Instruction::Idiv),
    {
        self.push_instruction(Instruction::Idiv);
    }

    /// Append the integer return instruction.
    pub fn ireturn(&mut self)
        requires
            old(self).wf(),
            old(self).stack_index + instruction_size(Instruction::IReturn) <= 0xFFFF,
        ensures
            final(self).wf(),
            emits(*old(self), *final(self), Instruction::IReturn),
    {
        self.push_instruction(Instruction::IReturn);
    }

    /// Append the float return instruction.
    pub fn freturn(&mut self)
        requires
            old(self).wf(),
            old(self).stack_index + instruction_size(Instruction::FReturn) <= 0xFFFF,
        ensures
            final(self).wf(),
            emits(*old(self), *final(self), Instruction::FReturn),
    {
        self.push_instruction(Instruction::FReturn);
    }

    /// Append the void return instruction.
    pub fn do_return(&mut self)
        requires
            old(self).wf(),
            old(self).stack_index + instruction_size(Instruction::Return) <= 0xFFFF,
        ensures
            final(self).wf(),
            emits(*old(self), *final(self), Instruction::Return),
    {
        self.push_instruction(Instruction::Return);
    }

    /// Append the reference return instruction.
    pub fn areturn(&mut self)
        requires
            old(self).wf(),
            old(self).stack_index + instruction_size(Instruction::Areturn) <= 0xFFFF,
        ensures
            final(self).wf(),
            emits(*old(self), *final(self), Instruction::Areturn),
    {
        self.push_instruction(Instruction::Areturn);
    }

    /// Append the array length instruction.
    pub fn array_length(&mut self)
        requires
            old(self).wf(),
            old(self).stack_index + instruction_size(Instruction::ArrayLength) <= 0xFFFF,
        ensures
            final(self).wf(),
            emits(*old(self), *final(self), Instruction::ArrayLength),
    {
        self.push_instruction(Instruction::ArrayLength);
    }

    /// Append the integer constant -1 push and record an integer on the tracked stack.
    pub fn iconstm1(&mut self)
        requires
            old(self).wf(),
            old(self).stack_index + instruction_size(Instruction::IconstM1) <= 0xFFFF,
        ensures
            final(self).wf(),
            emits_typed(*old(self), *final(self), Instruction::IconstM1, VerificationType::Integer),
    {
        self.push_instruction(Instruction::IconstM1);
        self.stack_types.push(VerificationType::Integer);
    }

    /// Append the integer constant 0 push and record an integer on the tracked stack.
    pub fn iconst0(&mut self)
        requires
            old(self).wf(),
            old(self).stack_index + instruction_size(Instruction::Iconst0) <= 0xFFFF,
        ensures
            final(self).wf(),
            emits_typed(*old(self), *final(self), Instruction::Iconst0, VerificationType::Integer),
    {
        self.push_instruction(Instruction::Iconst0);
        self.stack_types.push(VerificationType::Integer);
    }

    /// Append the integer constant 1 push and record an integer on the tracked stack.
    pub fn iconst1(&mut self)
        requires
            old(self).wf(),
            old(self).stack_index + instruction_size(Instruction::Iconst1) <= 0xFFFF,
        ensures
            final(self).wf(),
            emits_typed(*old(self), *final(self), Instruction::Iconst1, VerificationType::Integer),
    {
        self.push_instruction(Instruction::Iconst1);
        self.stack_types.push(VerificationType::Integer);
    }

    /// Append the integer constant 2 push and record an integer on the tracked stack.
    pub fn iconst2(&mut self)
        requires
            old(self).wf(),
            old(self).stack_index + instruction_size(Instruction::Iconst2) <= 0xFFFF,
        ensures
            final(self).wf(),
            emits_typed(*old(self), *final(self), Instruction::Iconst2, VerificationType::Integer),
    {
        self.push_instruction(Instruction::Iconst2);
        self.stack_types.push(VerificationType::Integer);
    }

    /// Append the integer constant 3 push and record an integer on the tracked stack.
    pub fn iconst3(&mut self)
        requires
            old(self).wf(),
            old(self).stack_index + instruction_size(Instruction::Iconst3) <= 0xFFFF,
        ensures
            final(self).wf(),
            emits_typed(*old(self), *final(self), Instruction::Iconst3, VerificationType::Integer),
    {
        self.push_instruction(Instruction::Iconst3);
        self.stack_types.push(VerificationType::Integer);
    }

    /// Append the integer constant 4 push and record an integer on the tracked stack.
    pub fn iconst4(&mut self)
        requires
            old(self).wf(),
            old(self).stack_index + instruction_size(Instruction::Iconst4) <= 0xFFFF,
        ensures
            final(self).wf(),
            emits_typed(*old(self), *final(self), Instruction::Iconst4, VerificationType::Integer),
    {
        self.push_instruction(Instruction::Iconst4);
        self.stack_types.push(VerificationType::Integer);
    }

    /// Append the integer constant 5 push and record an integer on the tracked stack.
    pub fn iconst5(&mut self)
        requires
            old(self).wf(),
            old(self).stack_index + instruction_size(Instruction::Iconst5) <= 0xFFFF,
        ensures
            final(self).wf(),
            emits_typed(*old(self), *final(self), Instruction::Iconst5, VerificationType::Integer),
    {
        self.push_instruction(Instruction::Iconst5);
        self.stack_types.push(VerificationType::Integer);
    }

    /// Append the integer load from local slot 0 and record an integer on the tracked stack.
    pub fn iload0(&mut self)
        requires
            old(self).wf(),
            old(self).stack_index + instruction_size(Instruction::Iload0) <= 0xFFFF,
        ensures
            final(self).wf(),
            emits_typed(*old(self), *final(self), Instruction::Iload0, VerificationType::Integer),
    {
        self.push_instruction(Instruction::Iload0);
        self.stack_types.push(VerificationType::Integer);
    }

    /// Append the integer load from local slot 1 and record an integer on the tracked stack.
    pub fn iload1(&mut self)
        requires
            old(self).wf(),
            old(self).stack_index + instruction_size(Instruction::Iload1) <= 0xFFFF,
        ensures
            final(self).wf(),
            emits_typed(*old(self), *final(self), Instruction::Iload1, VerificationType::Integer),
    {
        self.push_instruction(Instruction::Iload1);
        self.stack_types.push(VerificationType::Integer);
    }

    /// Append the integer load from local slot 2 and record an integer on the tracked stack.
    pub fn iload2(&mut self)
        requires
            old(self).wf(),
            old(self).stack_index + instruction_size(Instruction::Iload2) <= 0xFFFF,
        ensures
            final(self).wf(),
            emits_typed(*old(self), *final(self), Instruction::Iload2, VerificationType::Integer),
    {
        self.push_instruction(Instruction::Iload2);
        self.stack_types.push(VerificationType::Integer);
    }

    /// Append the integer load from local slot 3 and record an integer on the tracked stack.
    pub fn iload3(&mut self)
        requires
            old(self).wf(),
            old(self).stack_index + instruction_size(Instruction::Iload3) <= 0xFFFF,
        ensures
            final(self).wf(),
            emits_typed(*old(self), *final(self), Instruction::Iload3, VerificationType::Integer),
    {
        self.push_instruction(Instruction::Iload3);
        self.stack_types.push(VerificationType::Integer);
    }

    /// Append the integer load from an explicit local slot and record an integer on the tracked stack.
    pub fn iload(&mut self, reg: u8)
        requires
            old(self).wf(),
            old(self).stack_index + instruction_size(Instruction::Iload(reg)) <= 0xFFFF,
        ensures
            final(self).wf(),
            emits_typed(*old(self), *final(self), Instruction::Iload(reg), VerificationType::Integer),
    {
        self.push_instruction(Instruction::Iload(reg));
        self.stack_types.push(VerificationType::Integer);
    }

    /// Append the integer store to local slot 0; every store counts one more local.
    pub fn istore0(&mut self)
        requires
            old(self).wf(),
            old(self).stack_index + instruction_size(Instruction::Istore0) <= 0xFFFF,
            old(self).num_locals < 0xFFFF,
        ensures
            final(self).wf(),
            emits_store(*old(self), *final(self), Instruction::Istore0),
    {
        self.push_instruction(Instruction::Istore0);
        self.num_locals = self.num_locals + 1;
    }

    /// Append the integer store to local slot 1; every store counts one more local.
    pub fn istore1(&mut self)
        requires
            old(self).wf(),
            old(self).stack_index + instruction_size(Instruction::Istore1) <= 0xFFFF,
            old(self).num_locals < 0xFFFF,
        ensures
            final(self).wf(),
            emits_store(*old(self), *final(self), Instruction::Istore1),
    {
        self.push_instruction(Instruction::Istore1);
        self.num_locals = self.num_locals + 1;
    }

    /// Append the integer store to local slot 2; every store counts one more local.
    pub fn istore2(&mut self)
        requires
            old(self).wf(),
            old(self).stack_index + instruction_size(Instruction::Istore2) <= 0xFFFF,
            old(self).num_locals < 0xFFFF,
        ensures
            final(self).wf(),
            emits_store(*old(self), *final(self), Instruction::Istore2),
    {
        self.push_instruction(Instruction::Istore2);
        self.num_locals = self.num_locals + 1;
    }

    /// Append the integer store to local slot 3; every store counts one more local.
    pub fn istore3(&mut self)
        requires
            old(self).wf(),
            old(self).stack_index + instruction_size(Instruction::Istore3) <= 0xFFFF,
            old(self).num_locals < 0xFFFF,
        ensures
            final(self).wf(),
            emits_store(*old(self), *final(self), Instruction::Istore3),
    {
        self.push_instruction(Instruction::Istore3);
        self.num_locals = self.num_locals + 1;
    }

    /// Append the integer store to an explicit local slot; every store counts one more local.
    pub fn istore(&mut self, idx: u8)
        requires
            old(self).wf(),
            old(self).stack_index + instruction_size(Instruction::Istore(idx)) <= 0xFFFF,
            old(self).num_locals < 0xFFFF,
        ensures
            final(self).wf(),
            emits_store(*old(self), *final(self), Instruction::Istore(idx)),
    {
        self.push_instruction(Instruction::Istore(idx));
        self.num_locals = self.num_locals + 1;
    }

    /// Append the float store to local slot 0; every store counts one more local.
    pub fn fstore0(&mut self)
        requires
            old(self).wf(),
            old(self).stack_index + instruction_size(Instruction::Fstore0) <= 0xFFFF,
            old(self).num_locals < 0xFFFF,
        ensures
            final(self).wf(),
            emits_store(*old(self), *final(self), Instruction::Fstore0),
    {
        self.push_instruction(Instruction::Fstore0);
        self.num_locals = self.num_locals + 1;
    }

    /// Append the float store to local slot 1; every store counts one more local.
    pub fn fstore1(&mut self)
        requires
            old(self).wf(),
            old(self).stack_index + instruction_size(Instruction::Fstore1) <= 0xFFFF,
            old(self).num_locals < 0xFFFF,
        ensures
            final(self).wf(),
            emits_store(*old(self), *final(self), Instruction::Fstore1),
    {
        self.push_instruction(Instruction::Fstore1);
        self.num_locals = self.num_locals + 1;
    }

    /// Append the float store to local slot 2; every store counts one more local.
    pub fn fstore2(&mut self)
        requires
            old(self).wf(),
            old(self).stack_index + instruction_size(Instruction::Fstore2) <= 0xFFFF,
            old(self).num_locals < 0xFFFF,
        ensures
            final(self).wf(),
            emits_store(*old(self), *final(self), Instruction::Fstore2),
    {
        self.push_instruction(Instruction::Fstore2);
        self.num_locals = self.num_locals + 1;
    }

    /// Append the float store to local slot 3; every store counts one more local.
    pub fn fstore3(&mut self)
        requires
            old(self).wf(),
            old(self).stack_index + instruction_size(Instruction::Fstore3) <= 0xFFFF,
            old(self).num_locals < 0xFFFF,
        ensures
            final(self).wf(),
            emits_store(*old(self), *final(self), Instruction::Fstore3),
    {
        self.push_instruction(Instruction::Fstore3);
        self.num_locals = self.num_locals + 1;
    }

    /// Append the float store to an explicit local slot; every store counts one more local.
    pub fn fstore(&mut self, idx: u8)
        requires
            old(self).wf(),
            old(self).stack_index + instruction_size(Instruction::Fstore(idx)) <= 0xFFFF,
            old(self).num_locals < 0xFFFF,
        ensures
            final(self).wf(),
            emits_store(*old(self), *final(self), Instruction::Fstore(idx)),
    {
        self.push_instruction(Instruction::Fstore(idx));
        self.num_locals = self.num_locals + 1;
    }

    /// Record a pending `ifeq` branch to `label`, scoped to the active environment.
    pub fn ifeq(&mut self, label: &str)
        requires
            old(self).wf(),
            old(self).stack_index + instruction_size(Instruction::IfEq(0)) <= 0xFFFF,
        ensures
            final(self).wf(),
            delays(*old(self), *final(self), label@, Instruction::IfEq(0)),
    {
        self.delay_instruction(label, Instruction::IfEq(0));
    }

    /// Record a pending `ifne` branch to `label`, scoped to the active environment.
    pub fn ifne(&mut self, label: &str)
        requires
            old(self).wf(),
            old(self).stack_index + instruction_size(Instruction::IfNe(0)) <= 0xFFFF,
        ensures
            final(self).wf(),
            delays(*old(self), *final(self), label@, Instruction::IfNe(0)),
    {
        self.delay_instruction(label, Instruction::IfNe(0));
    }

    /// Record a pending `iflt` branch to `label`, scoped to the active environment.
    pub fn iflt(&mut self, label: &str)
        requires
            old(self).wf(),
            old(self).stack_index + instruction_size(Instruction::IfLt(0)) <= 0xFFFF,
        ensures
            final(self).wf(),
            delays(*old(self), *final(self), label@, Instruction::IfLt(0)),
    {
        self.delay_instruction(label, Instruction::IfLt(0));
    }

    /// Record a pending `ifge` branch to `label`, scoped to the active environment.
    pub fn ifge(&mut self, label: &str)
        requires
            old(self).wf(),
            old(self).stack_index + instruction_size(Instruction::IfGe(0)) <= 0xFFFF,
        ensures
            final(self).wf(),
            delays(*old(self), *final(self), label@, Instruction::IfGe(0)),
    {
        self.delay_instruction(label, Instruction::IfGe(0));
    }

    /// Record a pending `ifgt` branch to `label`, scoped to the active environment.
    pub fn ifgt(&mut self, label: &str)
        requires
            old(self).wf(),
            old(self).stack_index + instruction_size(Instruction::IfGt(0)) <= 0xFFFF,
        ensures
            final(self).wf(),
            delays(*old(self), *final(self), label@, Instruction::IfGt(0)),
    {
        self.delay_instruction(label, Instruction::IfGt(0));
    }

    /// Record a pending `ifle` branch to `label`, scoped to the active environment.
    pub fn ifle(&mut self, label: &str)
        requires
            old(self).wf(),
            old(self).stack_index + instruction_size(Instruction::IfLe(0)) <= 0xFFFF,
        ensures
            final(self).wf(),
            delays(*old(self), *final(self), label@, Instruction::IfLe(0)),
    {
        self.delay_instruction(label, Instruction::IfLe(0));
    }

    /// Record a pending `ificmpeq` branch to `label`, scoped to the active environment.
    pub fn if_icmp_eq(&mut self, label: &str)
        requires
            old(self).wf(),
            old(self).stack_index + instruction_size(Instruction::IfIcmpEq(0)) <= 0xFFFF,
        ensures
            final(self).wf(),
            delays(*old(self), *final(self), label@, Instruction::IfIcmpEq(0)),
    {
        self.delay_instruction(label, Instruction::IfIcmpEq(0));
    }

    /// Record a pending `ificmpne` branch to `label`, scoped to the active environment.
    pub fn if_icmp_ne(&mut self, label: &str)
        requires
            old(self).wf(),
            old(self).stack_index + instruction_size(Instruction::IfIcmpNe(0)) <= 0xFFFF,
        ensures
            final(self).wf(),
            delays(*old(self), *final(self), label@, Instruction::IfIcmpNe(0)),
    {
        self.delay_instruction(label, Instruction::IfIcmpNe(0));
    }

    /// Record a pending `ificmplt` branch to `label`, scoped to the active environment.
    pub fn if_icmp_lt(&mut self, label: &str)
        requires
            old(self).wf(),
            old(self).stack_index + instruction_size(Instruction::IfIcmpLt(0)) <= 0xFFFF,
        ensures
            final(self).wf(),
            delays(*old(self), *final(self), label@, Instruction::IfIcmpLt(0)),
    {
        self.delay_instruction(label, Instruction::IfIcmpLt(0));
    }

    /// Record a pending `ificmpge` branch to `label`, scoped to the active environment.
    pub fn if_icmp_ge(&mut self, label: &str)
        requires
            old(self).wf(),
            old(self).stack_index + instruction_size(Instruction::IfIcmpGe(0)) <= 0xFFFF,
        ensures
            final(self).wf(),
            delays(*old(self), *final(self), label@, Instruction::IfIcmpGe(0)),
    {
        self.delay_instruction(label, Instruction::IfIcmpGe(0));
    }

    /// Record a pending `ificmpgt` branch to `label`, scoped to the active environment.
    pub fn if_icmp_gt(&mut self, label: &str)
        requires
            old(self).wf(),
            old(self).stack_index + instruction_size(Instruction::IfIcmpGt(0)) <= 0xFFFF,
        ensures
            final(self).wf(),
            delays(*old(self), *final(self), label@, Instruction::IfIcmpGt(0)),
    {
        self.delay_instruction(label, Instruction::IfIcmpGt(0));
    }

    /// Record a pending `ificmple` branch to `label`, scoped to the active environment.
    pub fn if_icmp_le(&mut self, label: &str)
        requires
            old(self).wf(),
            old(self).stack_index + instruction_size(Instruction::IfIcmpLe(0)) <= 0xFFFF,
        ensures
            final(self).wf(),
            delays(*old(self), *final(self), label@, Instruction::IfIcmpLe(0)),
    {
        self.delay_instruction(label, Instruction::IfIcmpLe(0));
    }

    /// Record a pending `goto` branch to `label`, scoped to the active environment.
    pub fn goto(&mut self, label: &str)
        requires
            old(self).wf(),
            old(self).stack_index + instruction_size(Instruction::Goto(0)) <= 0xFFFF,
        ensures
            final(self).wf(),
            delays(*old(self), *final(self), label@, Instruction::Goto(0)),
    {
        self.delay_instruction(label, Instruction::Goto(0));
    }

    /// Append a push of a signed byte immediate and record an integer on the
    /// tracked stack.
    pub fn bipush(&mut self, value: i8)
        requires
            old(self).wf(),
            old(self).stack_index + instruction_size(Instruction::Bipush(byte_of(value))) <= 0xFFFF,
        ensures
            final(self).wf(),
            emits_typed(*old(self), *final(self), Instruction::Bipush(byte_of(value)), VerificationType::Integer),
    {
        let b: u8 = if value >= 0 {
            value as u8
        } else {
            (value as i32 + 256) as u8
        };
        self.push_instruction(Instruction::Bipush(b));
        self.stack_types.push(VerificationType::Integer);
    }

    /// Append a push of a signed 16-bit immediate, given byte by byte, and
    /// record an integer on the tracked stack.
    pub fn sipush(&mut self, val0: i8, val1: i8)
        requires
            old(self).wf(),
            old(self).stack_index + instruction_size(Instruction::Sipush(byte_of(val0), byte_of(val1))) <= 0xFFFF,
        ensures
            final(self).wf(),
            emits_typed(*old(self), *final(self), Instruction::Sipush(byte_of(val0), byte_of(val1)), VerificationType::Integer),
    {
        let b0: u8 = if val0 >= 0 {
            val0 as u8
        } else {
            (val0 as i32 + 256) as u8
        };
        let b1: u8 = if val1 >= 0 {
            val1 as u8
        } else {
            (val1 as i32 + 256) as u8
        };
        self.push_instruction(Instruction::Sipush(b0, b1));
        self.stack_types.push(VerificationType::Integer);
    }

    /// Intern `value` as a string constant and append a load-constant
    /// instruction addressing it. The operand must fit in 8 bits: this
    /// opcode form addresses only the first 255 pool slots.
    pub fn load_constant(&mut self, value: &str) -> (r: Result<(), BuildError>)
        requires
            old(self).wf(),
            old(self).stack_index + instruction_size(Instruction::LoadConstant(0)) <= 0xFFFF,
        ensures
            final(self).wf(),
            final(self).pool() == string_pool(old(self).pool(), value@),
            same_but_pool(old(self).classfile, final(self).classfile),
            r is Ok <==> string_ok(old(self).pool(), value@) && string_index(old(self).pool(), value@) <= 255,
            r is Ok ==> emits_code(*old(self), *final(self), Instruction::LoadConstant(string_index(old(self).pool(), value@) as u8)),
            r is Err ==> method_state_eq(*old(self), *final(self)),
            r matches Err(e) ==> e == BuildError::ConstantPoolOverflow,
    {
        let idx = match self.classfile.define_string(value) {
            Ok(i) => i,
            Err(e) => {
                return Err(e);
            },
        };
        if idx > 255 {
            return Err(BuildError::ConstantPoolOverflow);
        }
        self.push_instruction(Instruction::LoadConstant(idx as u8));
        Ok(())
    }

    /// Intern an integer constant and append a load-constant instruction
    /// addressing it, recording an integer on the tracked stack. The operand
    /// must fit in 8 bits.
    pub fn load_constant_integer(&mut self, value: i32) -> (r: Result<(), BuildError>)
        requires
            old(self).wf(),
            old(self).stack_index + instruction_size(Instruction::LoadConstant(0)) <= 0xFFFF,
        ensures
            final(self).wf(),
            final(self).pool() == try_pool(old(self).pool(), ConstantV::Integer(value)),
            same_but_pool(old(self).classfile, final(self).classfile),
            r is Ok <==> !intern_overflows(old(self).pool(), ConstantV::Integer(value))
                && interned_index(old(self).pool(), ConstantV::Integer(value)) <= 255,
            r is Ok ==> emits_code_typed(*old(self), *final(self), Instruction::LoadConstant(interned_index(old(self).pool(), ConstantV::Integer(value)) as u8), VerificationType::Integer),
            r is Err ==> method_state_eq(*old(self), *final(self)),
            r matches Err(e) ==> e == BuildError::ConstantPoolOverflow,
    {
        let idx = match self.classfile.define_integer(value) {
            Ok(i) => i,
            Err(e) => {
                return Err(e);
            },
        };
        if idx > 255 {
            return Err(BuildError::ConstantPoolOverflow);
        }
        self.push_instruction(Instruction::LoadConstant(idx as u8));
        self.stack_types.push(VerificationType::Integer);
        Ok(())
    }

    /// Intern a float constant, given as its IEEE-754 bits, and append a
    /// load-constant instruction addressing it. The operand must fit in
    /// 8 bits.
    pub fn load_constant_float(&mut self, bits: u32) -> (r: Result<(), BuildError>)
        requires
            old(self).wf(),
            old(self).stack_index + instruction_size(Instruction::LoadConstant(0)) <= 0xFFFF,
        ensures
            final(self).wf(),
            final(self).pool() == try_pool(old(self).pool(), ConstantV::Float(bits)),
            same_but_pool(old(self).classfile, final(self).classfile),
            r is Ok <==> !intern_overflows(old(self).pool(), ConstantV::Float(bits))
                && interned_index(old(self).pool(), ConstantV::Float(bits)) <= 255,
            r is Ok ==> emits_code(*old(self), *final(self), Instruction::LoadConstant(interned_index(old(self).pool(), ConstantV::Float(bits)) as u8)),
            r is Err ==> method_state_eq(*old(self), *final(self)),
            r matches Err(e) ==> e == BuildError::ConstantPoolOverflow,
    {
        let idx = match self.classfile.define_float(bits) {
            Ok(i) => i,
            Err(e) => {
                return Err(e);
            },
        };
        if idx > 255 {
            return Err(BuildError::ConstantPoolOverflow);
        }
        self.push_instruction(Instruction::LoadConstant(idx as u8));
        Ok(())
    }

    /// Define a class reference and append a `new` instruction whose two
    /// operand bytes are the big and little halves of the pool index.
    pub fn nyew(&mut self, class_name: &str) -> (r: Result<(), BuildError>)
        requires
            old(self).wf(),
            old(self).stack_index + instruction_size(Instruction::New(0, 0)) <= 0xFFFF,
        ensures
            final(self).wf(),
            final(self).pool() == class_pool(old(self).pool(), class_name@),
            same_but_pool(old(self).classfile, final(self).classfile),
            r is Ok <==> class_ok(old(self).pool(), class_name@),
            r is Ok ==> emits_code(*old(self), *final(self), Instruction::New(
                (class_index(old(self).pool(), class_name@) / 256) as u8,
                (class_index(old(self).pool(), class_name@) % 256) as u8,
            )),
            r is Err ==> method_state_eq(*old(self), *final(self)),
            r matches Err(e) ==> e == BuildError::ConstantPoolOverflow,
    {
        let idx = match self.classfile.define_class(class_name) {
            Ok(i) => i,
            Err(e) => {
                return Err(e);
            },
        };
        // the index is split into two bytes (idx1 is the bigger half)
        let idx1 = (idx / 256) as u8;
        let idx2 = (idx % 256) as u8;
        self.push_instruction(Instruction::New(idx1, idx2));
        Ok(())
    }

    /// Define a field reference and append a `getstatic` instruction
    /// addressing it.
    pub fn get_static(&mut self, class: &str, name: &str, argument_type: &Java) -> (r: Result<(), BuildError>)
        requires
            old(self).wf(),
            old(self).stack_index + instruction_size(Instruction::GetStatic(0)) <= 0xFFFF,
        ensures
            final(self).wf(),
            final(self).pool() == fieldref_pool(old(self).pool(), class@, name@, field_descriptor_of(*argument_type)),
            same_but_pool(old(self).classfile, final(self).classfile),
            r is Ok <==> fieldref_ok(old(self).pool(), class@, name@, field_descriptor_of(*argument_type)),
            r is Ok ==> emits_code(*old(self), *final(self), Instruction::GetStatic(
                fieldref_index(old(self).pool(), class@, name@, field_descriptor_of(*argument_type)) as u16,
            )),
            r is Err ==> method_state_eq(*old(self), *final(self)),
            r matches Err(e) ==> e == BuildError::ConstantPoolOverflow,
    {
        let fieldref_index = match self.classfile.define_fieldref(class, name, argument_type) {
            Ok(i) => i,
            Err(e) => {
                return Err(e);
            },
        };
        self.push_instruction(Instruction::GetStatic(fieldref_index));
        Ok(())
    }

    /// Define a method reference and append an `invokevirtual` instruction
    /// addressing it.
    pub fn invoke_virtual(&mut self, class: &str, name: &str, argument_types: &[Java], return_type: &Java) -> (r: Result<(), BuildError>)
        requires
            old(self).wf(),
            old(self).stack_index + instruction_size(Instruction::InvokeVirtual(0)) <= 0xFFFF,
        ensures
            final(self).wf(),
            final(self).pool() == methodref_pool(old(self).pool(), class@, name@, method_descriptor_of(argument_types@, *return_type)),
            same_but_pool(old(self).classfile, final(self).classfile),
            r is Ok <==> methodref_ok(old(self).pool(), class@, name@, method_descriptor_of(argument_types@, *return_type)),
            r is Ok ==> emits_code(*old(self), *final(self), Instruction::InvokeVirtual(
                methodref_index(old(self).pool(), class@, name@, method_descriptor_of(argument_types@, *return_type)) as u16,
            )),
            r is Err ==> method_state_eq(*old(self), *final(self)),
            r matches Err(e) ==> e == BuildError::ConstantPoolOverflow,
    {
        let methodref_index = match self.classfile.define_methodref(class, name, argument_types, return_type) {
            Ok(i) => i,
            Err(e) => {
                return Err(e);
            },
        };
        self.push_instruction(Instruction::InvokeVirtual(methodref_index));
        Ok(())
    }

    /// Define a method reference and append an `invokespecial` instruction
    /// addressing it.
    pub fn invoke_special(&mut self, class: &str, name: &str, argument_types: &[Java], return_type: &Java) -> (r: Result<(), BuildError>)
        requires
            old(self).wf(),
            old(self).stack_index + instruction_size(Instruction::InvokeSpecial(0)) <= 0xFFFF,
        ensures
            final(self).wf(),
            final(self).pool() == methodref_pool(old(self).pool(), class@, name@, method_descriptor_of(argument_types@, *return_type)),
            same_but_pool(old(self).classfile, final(self).classfile),
            r is Ok <==> methodref_ok(old(self).pool(), class@, name@, method_descriptor_of(argument_types@, *return_type)),
            r is Ok ==> emits_code(*old(self), *final(self), Instruction::InvokeSpecial(
                methodref_index(old(self).pool(), class@, name@, method_descriptor_of(argument_types@, *return_type)) as u16,
            )),
            r is Err ==> method_state_eq(*old(self), *final(self)),
            r matches Err(e) ==> e == BuildError::ConstantPoolOverflow,
    {
        let methodref_index = match self.classfile.define_methodref(class, name, argument_types, return_type) {
            Ok(i) => i,
            Err(e) => {
                return Err(e);
            },
        };
        self.push_instruction(Instruction::InvokeSpecial(methodref_index));
        Ok(())
    }

    /// Define a method reference and append an `invokestatic` instruction
    /// addressing it.
    pub fn invoke_static(&mut self, class: &str, name: &str, argument_types: &[Java], return_type: &Java) -> (r: Result<(), BuildError>)
        requires
            old(self).wf(),
            old(self).stack_index + instruction_size(Instruction::InvokeStatic(0)) <= 0xFFFF,
        ensures
            final(self).wf(),
            final(self).pool() == methodref_pool(old(self).pool(), class@, name@, method_descriptor_of(argument_types@, *return_type)),
            same_but_pool(old(self).classfile, final(self).classfile),
            r is Ok <==> methodref_ok(old(self).pool(), class@, name@, method_descriptor_of(argument_types@, *return_type)),
            r is Ok ==> emits_code(*old(self), *final(self), Instruction::InvokeStatic(
                methodref_index(old(self).pool(), class@, name@, method_descriptor_of(argument_types@, *return_type)) as u16,
            )),
            r is Err ==> method_state_eq(*old(self), *final(self)),
            r matches Err(e) ==> e == BuildError::ConstantPoolOverflow,
    {
        let methodref_index = match self.classfile.define_methodref(class, name, argument_types, return_type) {
            Ok(i) => i,
            Err(e) => {
                return Err(e);
            },
        };
        self.push_instruction(Instruction::InvokeStatic(methodref_index));
        Ok(())
    }

    /// Open a fresh label environment and return its number, without
    /// switching to it.
    pub fn new_env(&mut self) -> (n: u16)
        requires
            old(self).wf(),
            old(self).env_count < 0xFFFF,
        ensures
            final(self).wf(),
            unchanged_but_env(*old(self), *final(self)),
            final(self).env_count == old(self).env_count + 1,
            final(self).env_num == old(self).env_num,
            n == final(self).env_count,
    {
        self.env_count = self.env_count + 1;
        self.env_count
    }

    /// Switch label declaration and lookup to environment `n`.
    pub fn set_env(&mut self, n: u16)
        requires
            old(self).wf(),
        ensures
            final(self).wf(),
            unchanged_but_env(*old(self), *final(self)),
            final(self).env_count == old(self).env_count,
            final(self).env_num == n,
    {
        self.env_num = n;
    }

    /// Open a fresh label environment, switch to it, and return its number.
    pub fn set_new_env(&mut self) -> (n: u16)
        requires
            old(self).wf(),
            old(self).env_count < 0xFFFF,
        ensures
            final(self).wf(),
            unchanged_but_env(*old(self), *final(self)),
            final(self).env_count == old(self).env_count + 1,
            final(self).env_num == final(self).env_count,
            n == final(self).env_count,
    {
        let n = self.new_env();
        self.env_num = n;
        n
    }

    /// Declare a label at the current byte cursor, keyed by its name and the
    /// active environment, and append one stack-map frame recording the byte
    /// distance since the previous frame (or since method start).
    pub fn label(&mut self, name: &str)
        requires
            old(self).wf(),
        ensures
            final(self).wf(),
            final(self).label_table() == old(self).label_table().push(
                LabelEntryV { name: name@, env: old(self).env_num, offset: old(self).stack_index },
            ),
            final(self).stack_frames@ == old(self).stack_frames@.push(
                frame_for(
                    frame_offset(old(self).last_stack_frame_index, old(self).stack_index),
                    old(self).stack_types@,
                ),
            ),
            final(self).last_stack_frame_index == Some(old(self).stack_index),
            final(self).code() == old(self).code(),
            final(self).stack_index == old(self).stack_index,
            final(self).num_locals == old(self).num_locals,
            final(self).stack_types == old(self).stack_types,
            final(self).env_num == old(self).env_num,
            final(self).env_count == old(self).env_count,
            final(self).classfile == old(self).classfile,
            preserves_method_ids(*old(self), *final(self)),
    {
        let env = self.env_num;
        let offset: u16 = match self.last_stack_frame_index {
            Some(i) => self.stack_index - i,
            None => self.stack_index,
        };
        let frame = if self.stack_types.len() == 0 {
            if offset > 255 {
                StackMapFrame::SameFrameExtended(offset)
            } else {
                StackMapFrame::SameFrame(offset as u8)
            }
        } else {
            let last_type = self.stack_types[self.stack_types.len() - 1];
            if offset > 255 {
                StackMapFrame::SameLocals1StackItemFrameExtended(offset, last_type)
            } else {
                StackMapFrame::SameLocals1StackItemFrame(offset as u8, last_type)
            }
        };
        self.labels.push(LabelEntry { name: name.to_owned(), env, offset: self.stack_index });
        self.stack_frames.push(frame);
        self.last_stack_frame_index = Some(self.stack_index);
        proof {
            assert(self.label_table() =~= old(self).label_table().push(
                LabelEntryV { name: name@, env, offset: self.stack_index },
            ));
        }
    }
}

// ---------------------------------------------------------------------------
// Branch resolution and finalization
// ---------------------------------------------------------------------------

/// The 16-bit two's-complement encoding of the branch delta
/// `target - pos`.
pub open spec fn branch_code(target: u16, pos: u16) -> u16 {
    if target >= pos {
        (target - pos) as u16
    } else {
        (target - pos + 0x10000) as u16
    }
}

/// The branch instruction with its offset operand rewritten. An instruction
/// without a branch operand is left as it stands (the executable patching
/// step reports it instead).
pub open spec fn patched(i: Instruction, offset: u16) -> Instruction {
    match i {
        Instruction::IfEq(_) => Instruction::IfEq(offset),
        Instruction::IfNe(_) => Instruction::IfNe(offset),
        Instruction::IfLt(_) => Instruction::IfLt(offset),
        Instruction::IfGe(_) => Instruction::IfGe(offset),
        Instruction::IfGt(_) => Instruction::IfGt(offset),
        Instruction::IfLe(_) => Instruction::IfLe(offset),
        Instruction::IfIcmpEq(_) => Instruction::IfIcmpEq(offset),
        Instruction::IfIcmpNe(_) => Instruction::IfIcmpNe(offset),
        Instruction::IfIcmpLt(_) => Instruction::IfIcmpLt(offset),
        Instruction::IfIcmpGe(_) => Instruction::IfIcmpGe(offset),
        Instruction::IfIcmpGt(_) => Instruction::IfIcmpGt(offset),
        Instruction::IfIcmpLe(_) => Instruction::IfIcmpLe(offset),
        Instruction::Goto(_) => Instruction::Goto(offset),
        _ => i,
    }
}

/// Whether entry `i` of the stream is a pending branch whose
/// (label, environment) key has no recorded offset.
pub open spec fn unresolved_at(code: Seq<(u16, PendingV)>, t: Seq<LabelEntryV>, i: int) -> bool {
    match code[i].1 {
        PendingV::Ready(_) => false,
        PendingV::Waiting(name, env, _) => label_lookup(t, name, env) is None,
    }
}

/// Whether any pending branch of the stream cannot be resolved.
pub open spec fn has_unresolved(code: Seq<(u16, PendingV)>, t: Seq<LabelEntryV>) -> bool {
    exists|i: int| 0 <= i < code.len() && unresolved_at(code, t, i)
}

/// The recorded offset for a key, once known to be present.
pub open spec fn lookup_offset(t: Seq<LabelEntryV>, name: Seq<char>, env: u16) -> u16 {
    match label_lookup(t, name, env) {
        Some(o) => o,
        None => 0,
    }
}

/// The instruction an entry resolves to: a complete instruction as it
/// stands, a pending branch patched with the delta from its own offset to
/// its label's offset.
pub open spec fn resolve_entry(e: (u16, PendingV), t: Seq<LabelEntryV>) -> Instruction {
    match e.1 {
        PendingV::Ready(i) => i,
        PendingV::Waiting(name, env, i) => patched(
            i,
            branch_code(lookup_offset(t, name, env), e.0),
        ),
    }
}

/// The whole resolved instruction sequence.
pub open spec fn resolved_code(code: Seq<(u16, PendingV)>, t: Seq<LabelEntryV>) -> Seq<
    Instruction,
> {
    Seq::new(code.len(), |i: int| resolve_entry(code[i], t))
}

/// Finalization interns the two attribute-name strings; this is the only way
/// it can touch the pool, and the only way it can overflow.
pub open spec fn done_pool_ok(pool: Seq<ConstantV>) -> bool {
    &&& utf8_ok(pool, "StackMapTable"@)
    &&& utf8_ok(utf8_pool(pool, "StackMapTable"@), "Code"@)
}

/// The Method record finalization appends: the assembler's identity fields
/// around exactly one Code attribute holding the resolved instruction
/// stream, an empty exception table, and the synthesized stack-map table.
pub open spec fn method_built(mb: MethodBuilder, m: Method, smt_idx: u16, code_idx: u16) -> bool {
    &&& m.access_flags == mb.access_flags
    &&& m.name_index == mb.name_index
    &&& m.descriptor_index == mb.descriptor_index
    &&& m.attributes@.len() == 1
    &&& (m.attributes@[0] matches Attribute::Code(ci, ms, ml, code, ex, atts) && {
        &&& ci == code_idx
        &&& ms == mb.max_stack_depth
        &&& ml == mb.num_locals
        &&& code@ == resolved_code(mb.code(), mb.label_table())
        &&& ex@.len() == 0
        &&& atts@.len() == 1
        &&& (atts@[0] matches Attribute::StackMapTable(si, frames) && si == smt_idx && frames@
            == mb.stack_frames@)
    })
}

/// What a successful finalization hands back: the checked-out class builder
/// with both attribute names interned and the completed method appended.
pub open spec fn done_builds(mb: MethodBuilder, cb: ClassBuilder) -> bool {
    let pool0 = mb.pool();
    let p1 = utf8_pool(pool0, "StackMapTable"@);
    &&& pool_wf(cb.pool())
    &&& cb.pool() == utf8_pool(p1, "Code"@)
    &&& cb.access_flags == mb.classfile.access_flags
    &&& cb.this_class_index == mb.classfile.this_class_index
    &&& cb.super_class_index == mb.classfile.super_class_index
    &&& cb.methods@.len() == mb.classfile.methods@.len() + 1
    &&& cb.methods@ == mb.classfile.methods@.push(cb.methods@.last())
    &&& method_built(
        mb,
        cb.methods@.last(),
        utf8_index(pool0, "StackMapTable"@) as u16,
        utf8_index(p1, "Code"@) as u16,
    )
}

/// Rewrite a branch instruction's offset operand; asked to rewrite a
/// variant that carries no branch operand, report the internal contract
/// violation instead.
fn fill_offset(instruction: Instruction, offset: u16) -> (r: Result<Instruction, BuildError>)
    ensures
        is_branch(instruction) ==> r == Ok::<Instruction, BuildError>(
            patched(instruction, offset),
        ),
        !is_branch(instruction) ==> r == Err::<Instruction, BuildError>(
            BuildError::UnpatchableInstructionShape,
        ),
{
    match instruction {
        Instruction::IfEq(_) => Ok(Instruction::IfEq(offset)),
        Instruction::IfNe(_) => Ok(Instruction::IfNe(offset)),
        Instruction::IfLt(_) => Ok(Instruction::IfLt(offset)),
        Instruction::IfGe(_) => Ok(Instruction::IfGe(offset)),
        Instruction::IfGt(_) => Ok(Instruction::IfGt(offset)),
        Instruction::IfLe(_) => Ok(Instruction::IfLe(offset)),
        Instruction::IfIcmpEq(_) => Ok(Instruction::IfIcmpEq(offset)),
        Instruction::IfIcmpNe(_) => Ok(Instruction::IfIcmpNe(offset)),
        Instruction::IfIcmpLt(_) => Ok(Instruction::IfIcmpLt(offset)),
        Instruction::IfIcmpGe(_) => Ok(Instruction::IfIcmpGe(offset)),
        Instruction::IfIcmpGt(_) => Ok(Instruction::IfIcmpGt(offset)),
        Instruction::IfIcmpLe(_) => Ok(Instruction::IfIcmpLe(offset)),
        Instruction::Goto(_) => Ok(Instruction::Goto(offset)),
        _ => Err(BuildError::UnpatchableInstructionShape),
    }
}

/// Scan the label table for the latest entry under `(name, env)`.
fn lookup_label(labels: &Vec<LabelEntry>, name: &str, env: u16) -> (r: Option<u16>)
    ensures
        r == label_lookup(label_entries_view(labels@), name@, env),
{
    let needle: String = name.to_owned();
    let ghost t = label_entries_view(labels@);
    proof {
        assert(t.subrange(0, labels@.len() as int) =~= t);
    }
    let mut i = labels.len();
    while i > 0
        invariant
            i <= labels@.len(),
            t == label_entries_view(labels@),
            needle@ == name@,
            label_lookup(t, name@, env) == label_lookup(t.subrange(0, i as int), name@, env),
        decreases i,
    {
        i = i - 1;
        let e = &labels[i];
        proof {
            assert(t.subrange(0, i as int + 1).last() == t[i as int]);
            assert(t.subrange(0, i as int + 1).drop_last() =~= t.subrange(0, i as int));
        }
        if e.env == env && e.name == needle {
            return Some(e.offset);
        }
    }
    proof {
        assert(t.subrange(0, 0).len() == 0);
    }
    None
}

impl ClassBuilder {
    /// Check the class builder out into a method assembler for one method.
    /// Interns the method name and its descriptor; the builder is handed
    /// back by the assembler's `done`.
    pub fn define_method(
        self,
        access_flags: u16,
        name: &str,
        argument_types: &[Java],
        return_type: &Java,
    ) -> (r: Result<MethodBuilder, BuildError>)
        requires
            self.wf(),
            argument_types@.len() <= 0xFFFF,
        ensures
            r is Ok <==> utf8_ok(self.pool(), name@) && utf8_ok(
                utf8_pool(self.pool(), name@),
                method_descriptor_of(argument_types@, *return_type),
            ),
            r matches Ok(mb) ==> method_opened(
                self,
                mb,
                access_flags,
                name@,
                method_descriptor_of(argument_types@, *return_type),
                argument_types@.len() as u16,
            ),
            r matches Err(e) ==> e == BuildError::ConstantPoolOverflow,
    {
        MethodBuilder::new(self, access_flags, name, argument_types, return_type)
    }
}

/// The freshly opened assembler: name and descriptor interned, every stream,
/// label, frame and environment record empty, and the locals counter started
/// at the argument count.
pub open spec fn method_opened(
    cb: ClassBuilder,
    mb: MethodBuilder,
    access_flags: u16,
    name: Seq<char>,
    desc: Seq<char>,
    num_args: u16,
) -> bool {
    &&& mb.wf()
    &&& mb.classfile.pool() == utf8_pool(utf8_pool(cb.pool(), name), desc)
    &&& same_but_pool(cb, mb.classfile)
    &&& mb.access_flags == access_flags
    &&& mb.name_index as int == utf8_index(cb.pool(), name)
    &&& mb.descriptor_index as int == utf8_index(utf8_pool(cb.pool(), name), desc)
    &&& mb.code() == Seq::<(u16, PendingV)>::empty()
    &&& mb.label_table() == Seq::<LabelEntryV>::empty()
    &&& mb.stack_index == 0
    &&& mb.max_stack_depth == 0
    &&& mb.stack_frames@ == Seq::<StackMapFrame>::empty()
    &&& mb.last_stack_frame_index is None
    &&& mb.num_locals == num_args
    &&& mb.stack_types@ == Seq::<VerificationType>::empty()
    &&& mb.env_num == 0
    &&& mb.env_count == 0
}

impl MethodBuilder {
    /// Open an assembler over a checked-out class builder, interning the
    /// method name and its descriptor.
    fn new(
        classfile: ClassBuilder,
        access_flags: u16,
        name: &str,
        argument_types: &[Java],
        return_type: &Java,
    ) -> (r: Result<MethodBuilder, BuildError>)
        requires
            classfile.wf(),
            argument_types@.len() <= 0xFFFF,
        ensures
            r is Ok <==> utf8_ok(classfile.pool(), name@) && utf8_ok(
                utf8_pool(classfile.pool(), name@),
                method_descriptor_of(argument_types@, *return_type),
            ),
            r matches Ok(mb) ==> method_opened(
                classfile,
                mb,
                access_flags,
                name@,
                method_descriptor_of(argument_types@, *return_type),
                argument_types@.len() as u16,
            ),
            r matches Err(e) ==> e == BuildError::ConstantPoolOverflow,
    {
        let mut cfile = classfile;
        let name_index = match cfile.define_utf8(name) {
            Ok(i) => i,
            Err(e) => {
                return Err(e);
            },
        };
        let descriptor = method_signature(argument_types, return_type);
        let descriptor_index = match cfile.define_utf8(descriptor.as_str()) {
            Ok(i) => i,
            Err(e) => {
                return Err(e);
            },
        };
        let mb = MethodBuilder {
            classfile: cfile,
            access_flags,
            name_index,
            descriptor_index,
            instructions: Vec::new(),
            labels: Vec::new(),
            stack_index: 0,
            max_stack_depth: 0,
            stack_frames: Vec::new(),
            last_stack_frame_index: None,
            num_locals: argument_types.len() as u16,
            stack_types: Vec::new(),
            env_num: 0,
            env_count: 0,
        };
        proof {
            assert(mb.code() =~= Seq::<(u16, PendingV)>::empty());
            assert(mb.label_table() =~= Seq::<LabelEntryV>::empty());
        }
        Ok(mb)
    }

    /// Finalize the method: resolve every pending branch against the label
    /// table, assemble the Code attribute with its synthesized stack-map
    /// table, append the completed Method record, and hand the class builder
    /// back. A branch whose (label, environment) key was never declared
    /// aborts the whole method build: no Method record is appended.
    #[verifier::loop_isolation(false)]
    pub fn done(self) -> (r: Result<ClassBuilder, BuildError>)
        requires
            self.wf(),
        ensures
            r is Ok <==> !has_unresolved(self.code(), self.label_table()) && done_pool_ok(
                self.pool(),
            ),
            r == Err::<ClassBuilder, BuildError>(BuildError::UnresolvedLabel)
                <==> has_unresolved(self.code(), self.label_table()),
            r matches Err(e) ==> e == BuildError::UnresolvedLabel || e
                == BuildError::ConstantPoolOverflow,
            r matches Ok(cb) ==> done_builds(self, cb),
    {
        let ghost code0 = self.code();
        let ghost table = self.label_table();
        let mut real_instructions: Vec<Instruction> = Vec::new();
        let n = self.instructions.len();
        let mut k: usize = 0;
        while k < n
            invariant
                n == self.instructions@.len(),
                k <= n,
                real_instructions@.len() == k,
                forall|i: int|
                    0 <= i < k ==> real_instructions@[i] == resolve_entry(code0[i], table),
                forall|i: int| 0 <= i < k ==> !unresolved_at(code0, table, i),
            decreases n - k,
        {
            let entry = &self.instructions[k];
            match &entry.1 {
                IntermediateInstruction::Ready(i) => {
                    real_instructions.push(*i);
                },
                IntermediateInstruction::Waiting(l, e, i) => {
                    match lookup_label(&self.labels, l.as_str(), *e) {
                        None => {
                            proof {
                                assert(unresolved_at(code0, table, k as int));
                            }
                            return Err(BuildError::UnresolvedLabel);
                        },
                        Some(label_pos) => {
                            let off = label_pos.wrapping_sub(entry.0);
                            proof {
                                assert(off == branch_code(label_pos, entry.0));
                            }
                            match fill_offset(*i, off) {
                                Ok(fi) => {
                                    real_instructions.push(fi);
                                },
                                Err(e2) => {
                                    // excluded by the invariant: every
                                    // pending instruction is a branch
                                    proof {
                                        assert(false);
                                    }
                                    return Err(e2);
                                },
                            }
                        },
                    }
                },
            }
            k = k + 1;
        }
        proof {
            assert(real_instructions@ =~= resolved_code(code0, table));
        }
        let mut cfile = self.classfile;
        let stack_map_table_index = match cfile.define_utf8("StackMapTable") {
            Ok(i) => i,
            Err(e) => {
                return Err(e);
            },
        };
        let stack_map_table = Attribute::StackMapTable(stack_map_table_index, self.stack_frames);
        let code_index = match cfile.define_utf8("Code") {
            Ok(i) => i,
            Err(e) => {
                return Err(e);
            },
        };
        let code = Attribute::Code(
            code_index,
            self.max_stack_depth,
            self.num_locals,
            real_instructions,
            Vec::new(),
            vec![stack_map_table],
        );
        let method = Method::new(
            self.access_flags,
            self.name_index,
            self.descriptor_index,
            vec![code],
        );
        cfile.methods.push(method);
        Ok(cfile)
    }
}

} // verus!
