//! Java type descriptors: the semantic field/method types and the pure,
//! stateless rendering of each as its descriptor text.
//!
//! A primitive type renders as its single-token descriptor, a class type as
//! `L<name>;`, and an array type as `[` followed by the element descriptor; a
//! method descriptor is the parenthesised argument descriptors followed by the
//! return-type descriptor.

use vstd::prelude::*;
use vstd::string::StringExecFns;

verus! {

/// A semantic Java type, as field and method descriptors name it. A class
/// name inside `Object` is written with `/` separators (`java/lang/Object`).
#[derive(Debug, PartialEq)]
pub enum Java {
    Void,
    Boolean,
    Byte,
    Char,
    Short,
    Int,
    Long,
    Float,
    Double,
    Object(String),
    Array(Box<Java>),
}

/// The descriptor text of one field type.
pub open spec fn field_descriptor_of(t: Java) -> Seq<char>
    decreases t,
{
    match t {
        Java::Void => seq!['V'],
        Java::Boolean => seq!['Z'],
        Java::Byte => seq!['B'],
        Java::Char => seq!['C'],
        Java::Short => seq!['S'],
        Java::Int => seq!['I'],
        Java::Long => seq!['J'],
        Java::Float => seq!['F'],
        Java::Double => seq!['D'],
        Java::Object(name) => seq!['L'] + name@ + seq![';'],
        Java::Array(inner) => seq!['['] + field_descriptor_of(*inner),
    }
}

/// The concatenated descriptor texts of an argument list, in order.
pub open spec fn descriptors_of(ts: Seq<Java>) -> Seq<char>
    decreases ts.len(),
{
    if ts.len() == 0 {
        Seq::empty()
    } else {
        descriptors_of(ts.drop_last()) + field_descriptor_of(ts.last())
    }
}

/// The descriptor text of a whole method signature.
pub open spec fn method_descriptor_of(args: Seq<Java>, ret: Java) -> Seq<char> {
    seq!['('] + descriptors_of(args) + seq![')'] + field_descriptor_of(ret)
}

/// Render one field type as its descriptor text.
pub fn field_descriptor(t: &Java) -> (r: String)
    ensures
        r@ == field_descriptor_of(*t),
    decreases *t,
{
    match t {
        Java::Void => {
            let s = "V".to_owned();
            proof {
                reveal_strlit("V");
                assert(s@ =~= field_descriptor_of(*t));
            }
            s
        },
        Java::Boolean => {
            let s = "Z".to_owned();
            proof {
                reveal_strlit("Z");
                assert(s@ =~= field_descriptor_of(*t));
            }
            s
        },
        Java::Byte => {
            let s = "B".to_owned();
            proof {
                reveal_strlit("B");
                assert(s@ =~= field_descriptor_of(*t));
            }
            s
        },
        Java::Char => {
            let s = "C".to_owned();
            proof {
                reveal_strlit("C");
                assert(s@ =~= field_descriptor_of(*t));
            }
            s
        },
        Java::Short => {
            let s = "S".to_owned();
            proof {
                reveal_strlit("S");
                assert(s@ =~= field_descriptor_of(*t));
            }
            s
        },
        Java::Int => {
            let s = "I".to_owned();
            proof {
                reveal_strlit("I");
                assert(s@ =~= field_descriptor_of(*t));
            }
            s
        },
        Java::Long => {
            let s = "J".to_owned();
            proof {
                reveal_strlit("J");
                assert(s@ =~= field_descriptor_of(*t));
            }
            s
        },
        Java::Float => {
            let s = "F".to_owned();
            proof {
                reveal_strlit("F");
                assert(s@ =~= field_descriptor_of(*t));
            }
            s
        },
        Java::Double => {
            let s = "D".to_owned();
            proof {
                reveal_strlit("D");
                assert(s@ =~= field_descriptor_of(*t));
            }
            s
        },
        Java::Object(name) => {
            let mut s = "L".to_owned();
            s.append(name.as_str());
            s.append(";");
            proof {
                reveal_strlit("L");
                reveal_strlit(";");
                assert(s@ =~= field_descriptor_of(*t));
            }
            s
        },
        Java::Array(inner) => {
            let mut s = "[".to_owned();
            let rest = field_descriptor(&**inner);
            s.append(rest.as_str());
            proof {
                reveal_strlit("[");
                assert(s@ =~= field_descriptor_of(*t));
            }
            s
        },
    }
}

/// Render an ordered argument list plus a return type as a method descriptor.
pub fn method_signature(argument_types: &[Java], return_type: &Java) -> (r: String)
    ensures
        r@ == method_descriptor_of(argument_types@, *return_type),
{
    let mut s = "(".to_owned();
    proof {
        reveal_strlit("(");
        assert(argument_types@.subrange(0, 0) =~= Seq::<Java>::empty());
        assert(s@ =~= seq!['('] + descriptors_of(argument_types@.subrange(0, 0)));
    }
    let n = argument_types.len();
    for i in 0..n
        invariant
            n == argument_types@.len(),
            s@ == seq!['('] + descriptors_of(argument_types@.subrange(0, i as int)),
    {
        let d = field_descriptor(&argument_types[i]);
        s.append(d.as_str());
        proof {
            let pre = argument_types@.subrange(0, i as int);
            let cur = argument_types@.subrange(0, i + 1);
            assert(cur.drop_last() =~= pre);
            assert(cur.last() == argument_types@[i as int]);
            assert(s@ =~= seq!['('] + descriptors_of(cur));
        }
    }
    s.append(")");
    let ret = field_descriptor(return_type);
    s.append(ret.as_str());
    proof {
        reveal_strlit(")");
        assert(argument_types@.subrange(0, argument_types@.len() as int) =~= argument_types@);
        assert(s@ =~= method_descriptor_of(argument_types@, *return_type));
    }
    s
}

} // verus!
