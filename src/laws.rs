//! Properties that relate the generated code and the lines it prints.
use vstd::prelude::*;
use crate::decimal::{dec_digits, digit_char};
use crate::entity::user_debug;
use crate::generate::{crud_op_seq, impl_text, method_text, methods_text, signature_text, CrudOp};
use crate::messages::{line_with_id, line_with_repr};

verus! {

/// For every type name, the generated `impl` block holds exactly four
/// methods, in this order: `create(&self)`, `read(id: u32)`,
/// `update(&self)` and `delete(id: u32)`.
pub proof fn law_four_methods(name: Seq<char>)
    ensures
        crud_op_seq().len() == 4,
        signature_text(crud_op_seq()[0]) == "pub fn create(&self)"@,
        signature_text(crud_op_seq()[1]) == "pub fn read(id: u32)"@,
        signature_text(crud_op_seq()[2]) == "pub fn update(&self)"@,
        signature_text(crud_op_seq()[3]) == "pub fn delete(id: u32)"@,
        impl_text(name) == "impl "@ + name + " {\n"@ + method_text(crud_op_seq()[0])
            + method_text(crud_op_seq()[1]) + method_text(crud_op_seq()[2]) + method_text(
            crud_op_seq()[3],
        ) + "}\n"@,
{
    reveal_strlit("pub fn ");
    reveal_strlit("create");
    reveal_strlit("read");
    reveal_strlit("update");
    reveal_strlit("delete");
    reveal_strlit("(&self)");
    reveal_strlit("(id: u32)");
    reveal_strlit("pub fn create(&self)");
    reveal_strlit("pub fn read(id: u32)");
    reveal_strlit("pub fn update(&self)");
    reveal_strlit("pub fn delete(id: u32)");
    let ops = crud_op_seq();
    assert(signature_text(ops[0]) =~= "pub fn create(&self)"@);
    assert(signature_text(ops[1]) =~= "pub fn read(id: u32)"@);
    assert(signature_text(ops[2]) =~= "pub fn update(&self)"@);
    assert(signature_text(ops[3]) =~= "pub fn delete(id: u32)"@);
    assert(ops.drop_last() =~= seq![ops[0], ops[1], ops[2]]);
    assert(ops.drop_last().drop_last() =~= seq![ops[0], ops[1]]);
    assert(ops.drop_last().drop_last().drop_last() =~= seq![ops[0]]);
    assert(ops.drop_last().drop_last().drop_last().drop_last() =~= Seq::<CrudOp>::empty());
    assert(seq![ops[0]].drop_last() =~= Seq::<CrudOp>::empty());
    assert(seq![ops[0], ops[1]].drop_last() =~= seq![ops[0]]);
    assert(seq![ops[0], ops[1], ops[2]].drop_last() =~= seq![ops[0], ops[1]]);
    assert(methods_text(Seq::<CrudOp>::empty()) == Seq::<char>::empty());
    assert(seq![ops[0]].last() == ops[0]);
    assert(methods_text(seq![ops[0]]) == methods_text(Seq::<CrudOp>::empty()) + method_text(
        ops[0],
    ));
    assert(methods_text(seq![ops[0]]) =~= method_text(ops[0]));
    assert(methods_text(seq![ops[0], ops[1]]) =~= method_text(ops[0]) + method_text(ops[1]));
    assert(methods_text(seq![ops[0], ops[1], ops[2]]) =~= method_text(ops[0]) + method_text(
        ops[1],
    ) + method_text(ops[2]));
    assert(methods_text(ops) =~= method_text(ops[0]) + method_text(ops[1]) + method_text(ops[2])
        + method_text(ops[3]));
}

/// Calling a generated method twice with the same inputs prints the same
/// line twice: the line depends on the receiver's fields or the id alone.
pub proof fn law_same_inputs_same_line(
    op: CrudOp,
    id: nat,
    name: Seq<char>,
    email: Seq<char>,
    id2: nat,
    name2: Seq<char>,
    email2: Seq<char>,
)
    requires
        id == id2,
        name == name2,
        email == email2,
    ensures
        line_with_repr(op, user_debug(id, name, email)) == line_with_repr(
            op,
            user_debug(id2, name2, email2),
        ),
        line_with_id(op, id) == line_with_id(op, id2),
{
}

/// The numeric value of a run of decimal digits.
pub open spec fn digits_value(s: Seq<char>) -> nat
    decreases s.len(),
{
    if s.len() == 0 {
        0
    } else {
        digits_value(s.drop_last()) * 10 + ((s.last() as u32 - 48) as nat)
    }
}

/// The digits that the lines show for an id read back as that id, and start
/// with no zero unless the id is zero.
pub proof fn law_digits_read_back(n: nat)
    ensures
        digits_value(dec_digits(n)) == n,
        forall|i: int| 0 <= i < dec_digits(n).len() ==> '0' <= #[trigger] dec_digits(n)[i] <= '9',
        n > 0 ==> dec_digits(n)[0] != '0',
    decreases n,
{
    let last = (n % 10) as u32;
    assert((digit_char(last as nat) as u32) == last + 48);
    let d = dec_digits(n);
    if n >= 10 {
        law_digits_read_back(n / 10);
        assert(d.last() == digit_char(last as nat));
        assert(d.drop_last() =~= dec_digits(n / 10));
        assert(d[0] == dec_digits(n / 10)[0]);
        assert(digits_value(d) == digits_value(dec_digits(n / 10)) * 10 + (last as nat));
        assert((n / 10) * 10 + n % 10 == n);
    } else {
        assert(d.drop_last() =~= Seq::<char>::empty());
        assert(d.last() == digit_char(last as nat));
        assert(digits_value(d.drop_last()) == 0);
        assert(digits_value(d) == (last as nat));
    }
}

} // verus!
