//! The CRUD method set and the `impl` block that binds it to an entity name.
use vstd::prelude::*;
use vstd::string::*;

verus! {

/// One of the four generated operations.
#[derive(Clone, Copy, Debug, PartialEq, Eq, Structural)]
pub enum CrudOp {
    Create,
    Read,
    Update,
    Delete,
}

impl CrudOp {
    /// The method's name.
    pub open spec fn spec_name(self) -> Seq<char> {
        match self {
            CrudOp::Create => "create"@,
            CrudOp::Read => "read"@,
            CrudOp::Update => "update"@,
            CrudOp::Delete => "delete"@,
        }
    }

    /// Whether the method takes `&self` (otherwise it takes an `id: u32`).
    pub open spec fn spec_takes_self(self) -> bool {
        self == CrudOp::Create || self == CrudOp::Update
    }

    /// The text the method prints before the receiver or the id.
    pub open spec fn spec_prefix(self) -> Seq<char> {
        match self {
            CrudOp::Create => "Creating "@,
            CrudOp::Read => "Reading entity with id: "@,
            CrudOp::Update => "Updating "@,
            CrudOp::Delete => "Deleting entity with id: "@,
        }
    }

    pub fn name(&self) -> (r: &'static str)
        ensures
            r@ == self.spec_name(),
    {
        match self {
            CrudOp::Create => "create",
            CrudOp::Read => "read",
            CrudOp::Update => "update",
            CrudOp::Delete => "delete",
        }
    }

    pub fn takes_self(&self) -> (r: bool)
        ensures
            r == self.spec_takes_self(),
    {
        match self {
            CrudOp::Create | CrudOp::Update => true,
            CrudOp::Read | CrudOp::Delete => false,
        }
    }

    pub fn prefix(&self) -> (r: &'static str)
        ensures
            r@ == self.spec_prefix(),
    {
        match self {
            CrudOp::Create => "Creating ",
            CrudOp::Read => "Reading entity with id: ",
            CrudOp::Update => "Updating ",
            CrudOp::Delete => "Deleting entity with id: ",
        }
    }
}

/// The generated operations, in the order they appear in the `impl` block.
pub open spec fn crud_op_seq() -> Seq<CrudOp> {
    seq![CrudOp::Create, CrudOp::Read, CrudOp::Update, CrudOp::Delete]
}

/// The parameter list of a generated method.
pub open spec fn params_text(op: CrudOp) -> Seq<char> {
    if op.spec_takes_self() {
        "(&self)"@
    } else {
        "(id: u32)"@
    }
}

/// The signature of a generated method.
pub open spec fn signature_text(op: CrudOp) -> Seq<char> {
    "pub fn "@ + op.spec_name() + params_text(op)
}

/// The print statement that forms a generated method's body.
pub open spec fn body_text(op: CrudOp) -> Seq<char> {
    "println!(\""@ + op.spec_prefix() + if op.spec_takes_self() {
        "{:?}\", self);"@
    } else {
        "{}\", id);"@
    }
}

/// A generated method, indented as an item of an `impl` block.
pub open spec fn method_text(op: CrudOp) -> Seq<char> {
    "    "@ + signature_text(op) + " {\n        "@ + body_text(op) + "\n    }\n"@
}

/// The methods for `ops`, one after another.
pub open spec fn methods_text(ops: Seq<CrudOp>) -> Seq<char>
    decreases ops.len(),
{
    if ops.len() == 0 {
        Seq::empty()
    } else {
        methods_text(ops.drop_last()) + method_text(ops.last())
    }
}

/// The `impl` block that binds the CRUD methods to the type `name`.
pub open spec fn impl_text(name: Seq<char>) -> Seq<char> {
    "impl "@ + name + " {\n"@ + methods_text(crud_op_seq()) + "}\n"@
}

/// The generated operations.
pub fn crud_ops() -> (r: Vec<CrudOp>)
    ensures
        r@ == crud_op_seq(),
{
    let r = vec![CrudOp::Create, CrudOp::Read, CrudOp::Update, CrudOp::Delete];
    assert(r@ =~= crud_op_seq());
    r
}

/// The signature of the method for `op`.
pub fn render_signature(op: CrudOp) -> (r: String)
    ensures
        r@ == signature_text(op),
{
    let mut s = String::from_str("pub fn ");
    s.append(op.name());
    if op.takes_self() {
        s.append("(&self)");
    } else {
        s.append("(id: u32)");
    }
    s
}

/// The method for `op`, as it stands in the generated `impl` block.
pub fn render_method(op: CrudOp) -> (r: String)
    ensures
        r@ == method_text(op),
{
    let mut s = String::from_str("    ");
    let sig = render_signature(op);
    s.append(sig.as_str());
    s.append(" {\n        ");
    s.append("println!(\"");
    s.append(op.prefix());
    if op.takes_self() {
        s.append("{:?}\", self);");
    } else {
        s.append("{}\", id);");
    }
    s.append("\n    }\n");
    assert(s@ =~= method_text(op));
    s
}

/// The `impl` block for the type named `name`: the four CRUD stubs.
pub fn render_impl(name: &str) -> (r: String)
    ensures
        r@ == impl_text(name@),
{
    let ops = crud_ops();
    let mut s = String::from_str("impl ");
    s.append(name);
    s.append(" {\n");
    let ghost head = s@;
    let mut i: usize = 0;
    while i < ops.len()
        invariant
            0 <= i <= ops@.len(),
            ops@ == crud_op_seq(),
            s@ == head + methods_text(ops@.subrange(0, i as int)),
        decreases ops@.len() - i,
    {
        let m = render_method(ops[i]);
        s.append(m.as_str());
        proof {
            let pre = ops@.subrange(0, i as int + 1);
            assert(pre.drop_last() =~= ops@.subrange(0, i as int));
        }
        i = i + 1;
    }
    s.append("}\n");
    assert(ops@.subrange(0, ops@.len() as int) =~= ops@);
    assert(s@ =~= impl_text(name@));
    s
}

} // verus!
