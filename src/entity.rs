//! An entity with the CRUD methods bound to it: a user record.
use vstd::prelude::*;
use vstd::string::*;
use crate::decimal::{dec_digits, push_decimal};
use crate::generate::CrudOp;
use crate::messages::{
    contains, create_line, delete_line, lemma_contains_middle, line_with_id, line_with_repr,
    read_line, update_line,
};

verus! {

/// The debug form that std gives the string `s`.
pub uninterp spec fn str_debug_of(s: Seq<char>) -> Seq<char>;

/// A character that the debug form of a string writes as itself.
pub open spec fn is_plain_char(c: char) -> bool {
    ' ' <= c && c <= '~' && c != '"' && c != '\\' && c != '\''
}

/// A string made of plain characters only.
pub open spec fn is_plain(s: Seq<char>) -> bool {
    forall|i: int| 0 <= i < s.len() ==> is_plain_char(#[trigger] s[i])
}

/// Relies on the `Debug` impl of `str`: the string in double quotes, with
/// printable ASCII other than quotes and backslash written unescaped.
#[verifier::external_body]
fn debug_str(s: &str) -> (r: String)
    ensures
        r@ == str_debug_of(s@),
        is_plain(s@) ==> r@ == quoted(s@),
{
    format!("{:?}", s)
}

/// The debug form of a user, given the debug forms of its two strings.
pub open spec fn user_repr(id: nat, name_debug: Seq<char>, email_debug: Seq<char>) -> Seq<char> {
    "User { id: "@ + dec_digits(id) + ", name: "@ + name_debug + ", email: "@ + email_debug
        + " }"@
}

/// A string in double quotes.
pub open spec fn quoted(s: Seq<char>) -> Seq<char> {
    seq!['"'] + s + seq!['"']
}

/// A line that shows a user after `prefix` holds the id's digits.
proof fn lemma_line_shows_id(prefix: Seq<char>, id: nat, name: Seq<char>, email: Seq<char>)
    ensures
        contains(prefix + user_debug(id, name, email), dec_digits(id)),
{
    let head = prefix + "User { id: "@;
    let tail = ", name: "@ + str_debug_of(name) + ", email: "@ + str_debug_of(email) + " }"@;
    assert(prefix + user_debug(id, name, email) =~= head + dec_digits(id) + tail);
    lemma_contains_middle(head, dec_digits(id), tail);
}

/// A line that shows a user after `prefix` holds the name where its debug
/// form is the quoted name.
proof fn lemma_line_shows_name(prefix: Seq<char>, id: nat, name: Seq<char>, email: Seq<char>)
    requires
        str_debug_of(name) == quoted(name),
    ensures
        contains(prefix + user_debug(id, name, email), name),
{
    let head = prefix + "User { id: "@ + dec_digits(id) + ", name: "@ + seq!['"'];
    let tail = seq!['"'] + ", email: "@ + str_debug_of(email) + " }"@;
    assert(prefix + user_debug(id, name, email) =~= head + name + tail);
    lemma_contains_middle(head, name, tail);
}

/// A line that shows a user after `prefix` holds the email where its debug
/// form is the quoted email.
proof fn lemma_line_shows_email(prefix: Seq<char>, id: nat, name: Seq<char>, email: Seq<char>)
    requires
        str_debug_of(email) == quoted(email),
    ensures
        contains(prefix + user_debug(id, name, email), email),
{
    let head = prefix + "User { id: "@ + dec_digits(id) + ", name: "@ + str_debug_of(name)
        + ", email: "@ + seq!['"'];
    let tail = seq!['"'] + " }"@;
    assert(prefix + user_debug(id, name, email) =~= head + email + tail);
    lemma_contains_middle(head, email, tail);
}

/// A user record, the entity that the CRUD methods are bound to.
#[derive(Debug)]
pub struct User {
    pub id: u32,
    pub name: String,
    pub email: String,
}

/// The debug form of a user with the fields `id`, `name` and `email`.
pub open spec fn user_debug(id: nat, name: Seq<char>, email: Seq<char>) -> Seq<char> {
    user_repr(id, str_debug_of(name), str_debug_of(email))
}

/// Renders the debug form of a user from the debug forms of its strings.
pub fn render_user_repr(id: u32, name_debug: &str, email_debug: &str) -> (r: String)
    ensures
        r@ == user_repr(id as nat, name_debug@, email_debug@),
{
    let mut s = String::from_str("User { id: ");
    push_decimal(&mut s, id);
    s.append(", name: ");
    s.append(name_debug);
    s.append(", email: ");
    s.append(email_debug);
    s.append(" }");
    s
}

impl User {
    /// The record's debug form.
    pub open spec fn spec_debug(&self) -> Seq<char> {
        user_debug(self.id as nat, self.name@, self.email@)
    }

    pub fn new(id: u32, name: String, email: String) -> (r: User)
        ensures
            r.id == id,
            r.name@ == name@,
            r.email@ == email@,
    {
        User { id, name, email }
    }

    /// The record's debug form, as `{:?}` writes it.
    pub fn debug_repr(&self) -> (r: String)
        ensures
            r@ == self.spec_debug(),
            is_plain(self.name@) ==> str_debug_of(self.name@) == quoted(self.name@),
            is_plain(self.email@) ==> str_debug_of(self.email@) == quoted(self.email@),
    {
        let name_debug = debug_str(self.name.as_str());
        let email_debug = debug_str(self.email.as_str());
        render_user_repr(self.id, name_debug.as_str(), email_debug.as_str())
    }

    /// The line that `create` prints for this record.
    pub fn create(&self) -> (r: String)
        ensures
            r@ == line_with_repr(CrudOp::Create, self.spec_debug()),
            contains(r@, dec_digits(self.id as nat)),
            is_plain(self.name@) ==> contains(r@, self.name@),
            is_plain(self.email@) ==> contains(r@, self.email@),
    {
        let repr = self.debug_repr();
        proof {
            let prefix = CrudOp::Create.spec_prefix();
            lemma_line_shows_id(prefix, self.id as nat, self.name@, self.email@);
            if is_plain(self.name@) {
                lemma_line_shows_name(prefix, self.id as nat, self.name@, self.email@);
            }
            if is_plain(self.email@) {
                lemma_line_shows_email(prefix, self.id as nat, self.name@, self.email@);
            }
        }
        create_line(repr.as_str())
    }

    /// The line that `read(id)` prints.
    pub fn read(id: u32) -> (r: String)
        ensures
            r@ == line_with_id(CrudOp::Read, id as nat),
            contains(r@, dec_digits(id as nat)),
    {
        read_line(id)
    }

    /// The line that `update` prints for this record.
    pub fn update(&self) -> (r: String)
        ensures
            r@ == line_with_repr(CrudOp::Update, self.spec_debug()),
            contains(r@, dec_digits(self.id as nat)),
            is_plain(self.name@) ==> contains(r@, self.name@),
            is_plain(self.email@) ==> contains(r@, self.email@),
    {
        let repr = self.debug_repr();
        proof {
            let prefix = CrudOp::Update.spec_prefix();
            lemma_line_shows_id(prefix, self.id as nat, self.name@, self.email@);
            if is_plain(self.name@) {
                lemma_line_shows_name(prefix, self.id as nat, self.name@, self.email@);
            }
            if is_plain(self.email@) {
                lemma_line_shows_email(prefix, self.id as nat, self.name@, self.email@);
            }
        }
        update_line(repr.as_str())
    }

    /// The line that `delete(id)` prints.
    pub fn delete(id: u32) -> (r: String)
        ensures
            r@ == line_with_id(CrudOp::Delete, id as nat),
            contains(r@, dec_digits(id as nat)),
    {
        delete_line(id)
    }
}

} // verus!
