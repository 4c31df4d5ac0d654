use vstd::prelude::*;
use crate::connection::Connection;
use crate::error::Error;
use crate::frame::Dataframe;
use crate::query::{columns_of, join_texts, query_text, Expr, Query};

verus! {

/// A chain of transformations over a frame, dispatched to the engine only by `collect`.
pub struct LazyFrame<'a, C: Connection> {
    frame: &'a Dataframe<'a, C>,
    query: Query,
}

/// Whether `r` is what selecting `exprs` on `l` gives: the same frame, with `exprs` as the
/// projection list.
pub open spec fn selected<'a, C: Connection>(
    l: LazyFrame<'a, C>,
    exprs: Seq<Expr>,
    r: LazyFrame<'a, C>,
) -> bool {
    r.frame() == l.frame() && r.selection() == exprs
}

impl<'a, C: Connection> LazyFrame<'a, C> {
    /// The frame this builder reads.
    pub closed spec fn frame(&self) -> Dataframe<'a, C> {
        *self.frame
    }

    /// The projection list that `collect` will run.
    pub closed spec fn selection(&self) -> Seq<Expr> {
        self.query.selection@
    }

    /// A builder over `frame` with an empty projection list.
    pub fn from_frame(frame: &'a Dataframe<'a, C>) -> (r: Self)
        ensures
            r.frame() == *frame,
            r.selection() == Seq::<Expr>::empty(),
    {
        LazyFrame { frame, query: Query::default() }
    }

    /// This builder with its projection list replaced by `exprs`.
    pub fn select(self, exprs: Vec<Expr>) -> (r: LazyFrame<'a, C>)
        ensures
            selected(self, exprs@, r),
    {
        LazyFrame { query: self.query.select(exprs), ..self }
    }

    /// Runs the projection list in one query against the frame.
    pub fn collect(self) -> (r: Result<Dataframe<'a, C>, Error>)
        ensures
            r is Ok ==> r->Ok_0.conn() == self.frame().conn(),
    {
        self.frame.query(self.query)
    }
}

/// Two lists of references to the same columns render alike.
pub proof fn lemma_columns_render_alike(x: Seq<Expr>, y: Seq<Expr>, names: Seq<&str>)
    requires
        columns_of(x, names),
        columns_of(y, names),
    ensures
        join_texts(x) == join_texts(y),
    decreases x.len(),
{
    if x.len() > 1 {
        let ns = names.drop_last();
        assert(columns_of(x.drop_last(), ns));
        assert(columns_of(y.drop_last(), ns));
        lemma_columns_render_alike(x.drop_last(), y.drop_last(), ns);
        assert(x.last() is Column && y.last() is Column);
    }
    if x.len() == 1 {
        assert(x[0] is Column && y[0] is Column);
    }
}

/// Selections on a lazy frame do not compose: after selecting `first` and then the columns
/// `names`, the builder reads the same frame and runs the same statement, on any source, as
/// the direct column query `direct` of `names` that `Dataframe::select` runs.
pub proof fn lemma_last_select_wins<'a, C: Connection>(
    l: LazyFrame<'a, C>,
    first: Seq<Expr>,
    second: Seq<Expr>,
    names: Seq<&str>,
    after_first: LazyFrame<'a, C>,
    after_second: LazyFrame<'a, C>,
    direct: Query,
)
    requires
        selected(l, first, after_first),
        selected(after_first, second, after_second),
        columns_of(second, names),
        columns_of(direct.selection@, names),
    ensures
        after_second.frame() == l.frame(),
        forall|source: Seq<char>|
            query_text(after_second.selection(), source) == query_text(
                direct.selection@,
                source,
            ),
{
    lemma_columns_render_alike(second, direct.selection@, names);
}

} // verus!
