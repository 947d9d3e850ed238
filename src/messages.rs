//! The lines that the generated methods print.
use vstd::prelude::*;
use vstd::string::*;
use crate::decimal::{dec_digits, push_decimal};
use crate::generate::CrudOp;

verus! {

/// The line printed by `op` on a receiver whose debug form is `repr`.
pub open spec fn line_with_repr(op: CrudOp, repr: Seq<char>) -> Seq<char> {
    op.spec_prefix() + repr
}

/// The line printed by `op` for the id `id`.
pub open spec fn line_with_id(op: CrudOp, id: nat) -> Seq<char> {
    op.spec_prefix() + dec_digits(id)
}

/// Whether `needle` occurs in `hay` as a contiguous run.
pub open spec fn contains(hay: Seq<char>, needle: Seq<char>) -> bool {
    exists|i: int|
        0 <= i && i + needle.len() <= hay.len() && #[trigger] hay.subrange(i, i + needle.len())
            == needle
}

/// A run that stands between two others occurs in their concatenation.
pub proof fn lemma_contains_middle(a: Seq<char>, b: Seq<char>, c: Seq<char>)
    ensures
        contains(a + b + c, b),
{
    let hay = a + b + c;
    assert(hay.subrange(a.len() as int, a.len() + b.len() as int) =~= b);
}

fn repr_line(op: CrudOp, repr: &str) -> (r: String)
    ensures
        r@ == line_with_repr(op, repr@),
{
    let mut s = String::from_str(op.prefix());
    s.append(repr);
    s
}

fn id_line(op: CrudOp, id: u32) -> (r: String)
    ensures
        r@ == line_with_id(op, id as nat),
{
    let mut s = String::from_str(op.prefix());
    push_decimal(&mut s, id);
    s
}

/// The line that `create` prints for a receiver whose debug form is `repr`.
pub fn create_line(repr: &str) -> (r: String)
    ensures
        r@ == line_with_repr(CrudOp::Create, repr@),
{
    repr_line(CrudOp::Create, repr)
}

/// The line that `read(id)` prints.
pub fn read_line(id: u32) -> (r: String)
    ensures
        r@ == line_with_id(CrudOp::Read, id as nat),
        contains(r@, dec_digits(id as nat)),
{
    proof {
        lemma_contains_middle(CrudOp::Read.spec_prefix(), dec_digits(id as nat), Seq::empty());
        assert(line_with_id(CrudOp::Read, id as nat) =~= CrudOp::Read.spec_prefix() + dec_digits(
            id as nat,
        ) + Seq::empty());
    }
    id_line(CrudOp::Read, id)
}

/// The line that `update` prints for a receiver whose debug form is `repr`.
pub fn update_line(repr: &str) -> (r: String)
    ensures
        r@ == line_with_repr(CrudOp::Update, repr@),
{
    repr_line(CrudOp::Update, repr)
}

/// The line that `delete(id)` prints.
pub fn delete_line(id: u32) -> (r: String)
    ensures
        r@ == line_with_id(CrudOp::Delete, id as nat),
        contains(r@, dec_digits(id as nat)),
{
    proof {
        lemma_contains_middle(CrudOp::Delete.spec_prefix(), dec_digits(id as nat), Seq::empty());
        assert(line_with_id(CrudOp::Delete, id as nat) =~= CrudOp::Delete.spec_prefix() + dec_digits(
            id as nat,
        ) + Seq::empty());
    }
    id_line(CrudOp::Delete, id)
}

} // verus!
