use vstd::prelude::*;
use vstd::string::StringExecFns;
use crate::text::{int_text, push_int};

verus! {

/// A constant in an expression.
///
/// A floating-point constant is carried as its decimal text, written by the caller in a
/// locale-independent form; the library renders it as given.
#[derive(Debug, Clone, PartialEq)]
pub enum Literal {
    Null,
    Bool(bool),
    Int(i64),
    Float(String),
    String(String),
}

/// An expression over the columns of a table.
#[derive(Debug, PartialEq)]
pub enum Expr {
    Column(String),
    Alias(Box<Expr>, String),
    Literal(Literal),
    Add(Box<Expr>, Box<Expr>),
}

/// A transformation step: the projection list of a `SELECT`.
#[derive(Debug, PartialEq)]
pub struct Query {
    pub selection: Vec<Expr>,
}

/// The SQL text of a literal.
pub open spec fn literal_text(l: Literal) -> Seq<char> {
    match l {
        Literal::Null => "NULL"@,
        Literal::Bool(b) => if b { "true"@ } else { "false"@ },
        Literal::Int(i) => int_text(i as int),
        Literal::Float(f) => f@,
        Literal::String(s) => "'"@ + s@ + "'"@,
    }
}

/// The SQL text of an expression: a quoted column, `<e> AS <name>`, a literal, or a
/// parenthesised sum.
pub open spec fn expr_text(e: Expr) -> Seq<char>
    decreases e,
{
    match e {
        Expr::Column(name) => "\""@ + name@ + "\""@,
        Expr::Alias(inner, name) => expr_text(*inner) + " AS "@ + name@,
        Expr::Literal(l) => literal_text(l),
        Expr::Add(a, b) => "("@ + expr_text(*a) + " + "@ + expr_text(*b) + ")"@,
    }
}

/// The texts of a list of expressions, separated by `", "`.
pub open spec fn join_texts(es: Seq<Expr>) -> Seq<char>
    decreases es.len(),
{
    if es.len() == 0 {
        Seq::empty()
    } else if es.len() == 1 {
        expr_text(es[0])
    } else {
        join_texts(es.drop_last()) + ", "@ + expr_text(es.last())
    }
}

/// The statement `SELECT <projection list> FROM <source>`.
pub open spec fn query_text(selection: Seq<Expr>, source: Seq<char>) -> Seq<char> {
    "SELECT "@ + join_texts(selection) + " FROM "@ + source
}

/// Whether `es` is the list of column references to `names`, in order.
pub open spec fn columns_of(es: Seq<Expr>, names: Seq<&str>) -> bool {
    &&& es.len() == names.len()
    &&& forall|i: int|
        0 <= i < es.len() ==> (#[trigger] es[i] is Column) && es[i]->Column_0@ == names[i]@
}

impl Literal {
    /// The SQL text of this literal.
    pub fn to_sql(&self) -> (r: String)
        ensures
            r@ == literal_text(*self),
    {
        match self {
            Literal::Null => String::from_str("NULL"),
            Literal::Bool(b) => if *b {
                String::from_str("true")
            } else {
                String::from_str("false")
            },
            Literal::Int(i) => {
                let mut s = String::new();
                push_int(&mut s, *i);
                proof {
                    assert(s@ =~= int_text(*i as int));
                }
                s
            },
            Literal::Float(f) => f.clone(),
            Literal::String(v) => {
                let mut s = String::from_str("'");
                s.append(v.as_str());
                s.append("'");
                s
            },
        }
    }
}

impl Expr {
    /// The SQL text of this expression.
    pub fn to_sql(&self) -> (r: String)
        ensures
            r@ == expr_text(*self),
        decreases self,
    {
        match self {
            Expr::Column(name) => {
                let mut s = String::from_str("\"");
                s.append(name.as_str());
                s.append("\"");
                s
            },
            Expr::Alias(inner, name) => {
                let mut s = inner.to_sql();
                s.append(" AS ");
                s.append(name.as_str());
                s
            },
            Expr::Literal(l) => l.to_sql(),
            Expr::Add(a, b) => {
                let mut s = String::from_str("(");
                let ta = a.to_sql();
                s.append(ta.as_str());
                s.append(" + ");
                let tb = b.to_sql();
                s.append(tb.as_str());
                s.append(")");
                s
            },
        }
    }
}

/// A reference to the column `name`.
pub fn col(name: &str) -> (r: Expr)
    ensures
        r is Column,
        r->Column_0@ == name@,
{
    Expr::Column(String::from_str(name))
}

impl Default for Query {
    /// The query with an empty projection list.
    fn default() -> (r: Query)
        ensures
            r.selection@ == Seq::<Expr>::empty(),
    {
        Query { selection: Vec::new() }
    }
}

impl Query {
    /// This query with its projection list replaced by `selection`.
    pub fn select(self, selection: Vec<Expr>) -> (r: Query)
        ensures
            r.selection@ == selection@,
    {
        Query { selection, ..self }
    }

    /// The statement that runs this query against the table written `table_name`.
    pub fn to_sql(&self, table_name: &str) -> (r: String)
        ensures
            r@ == query_text(self.selection@, table_name@),
    {
        let mut s = String::from_str("SELECT ");
        let n = self.selection.len();
        let mut i: usize = 0;
        while i < n
            invariant
                n == self.selection@.len(),
                i <= n,
                s@ == "SELECT "@ + join_texts(self.selection@.subrange(0, i as int)),
            decreases n - i,
        {
            let t = self.selection[i].to_sql();
            if i > 0 {
                s.append(", ");
            }
            s.append(t.as_str());
            proof {
                let prefix = self.selection@.subrange(0, i as int + 1);
                assert(prefix.drop_last() =~= self.selection@.subrange(0, i as int));
                assert(prefix.last() == self.selection@[i as int]);
                if i == 0 {
                    assert(join_texts(prefix) == expr_text(self.selection@[0]));
                    assert(join_texts(self.selection@.subrange(0, 0)) =~= Seq::<char>::empty());
                }
                assert(s@ =~= "SELECT "@ + join_texts(prefix));
            }
            i += 1;
        }
        assert(self.selection@.subrange(0, n as int) =~= self.selection@);
        s.append(" FROM ");
        s.append(table_name);
        s
    }
}

/// The query whose projection list references the columns `names`, in order.
pub fn column_query(names: &[&str]) -> (q: Query)
    ensures
        columns_of(q.selection@, names@),
{
    let mut selection: Vec<Expr> = Vec::new();
    let mut i: usize = 0;
    while i < names.len()
        invariant
            i <= names@.len(),
            columns_of(selection@, names@.subrange(0, i as int)),
        decreases names@.len() - i,
    {
        selection.push(col(names[i]));
        i += 1;
    }
    assert(names@.subrange(0, names@.len() as int) =~= names@);
    Query::default().select(selection)
}

} // verus!
