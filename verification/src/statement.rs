//! The shape of a statement: literal text and numbered placeholders.

use crate::text::{decimal, join, push_decimal, views};
use vstd::prelude::*;

verus! {

/// One piece of a statement.
pub enum Piece {
    /// Literal SQL text.
    Text(Seq<char>),
    /// The positional placeholder with this number.
    Param(nat),
}

/// The text of one piece: a placeholder is `$` and its number in decimal.
pub open spec fn piece_text(p: Piece) -> Seq<char> {
    match p {
        Piece::Text(t) => t,
        Piece::Param(k) => seq!['$'] + decimal(k),
    }
}

/// The text of a statement: the texts of its pieces, in order.
pub open spec fn render(ps: Seq<Piece>) -> Seq<char>
    decreases ps.len(),
{
    if ps.len() == 0 {
        Seq::empty()
    } else {
        render(ps.drop_last()) + piece_text(ps.last())
    }
}

/// The placeholder numbers of a statement, from left to right.
pub open spec fn params(ps: Seq<Piece>) -> Seq<nat>
    decreases ps.len(),
{
    if ps.len() == 0 {
        Seq::empty()
    } else {
        match ps.last() {
            Piece::Text(_) => params(ps.drop_last()),
            Piece::Param(k) => params(ps.drop_last()).push(k),
        }
    }
}

/// The numbers `first`, `first + 1`, ... , `first + n - 1`.
pub open spec fn numbers(first: nat, n: nat) -> Seq<nat> {
    Seq::new(n, |i: int| (first + i) as nat)
}

/// `col = $k` for each column, numbered from `first` in the order of the
/// columns, with `sep` between neighbours.
pub open spec fn assignments(cols: Seq<Seq<char>>, sep: Seq<char>, first: nat) -> Seq<Piece>
    decreases cols.len(),
{
    if cols.len() == 0 {
        Seq::empty()
    } else {
        let head = if cols.len() == 1 {
            Seq::empty()
        } else {
            assignments(cols.drop_last(), sep, first).push(Piece::Text(sep))
        };
        head.push(Piece::Text(cols.last() + " = "@)).push(
            Piece::Param((first + cols.len() - 1) as nat),
        )
    }
}

/// The key predicate: `col = $k` for each key column in configured order,
/// numbered from `first`, joined by `AND`.
pub open spec fn where_pieces(pk_cols_sql: Seq<Seq<char>>, first: nat) -> Seq<Piece> {
    assignments(pk_cols_sql, " AND "@, first)
}

/// The SET clause: `col = $k` for each column, numbered from 1, joined by
/// commas.
pub open spec fn set_pieces(cols_sql: Seq<Seq<char>>) -> Seq<Piece> {
    assignments(cols_sql, ", "@, 1)
}

/// The placeholders `$1` to `$n`, joined by commas.
pub open spec fn placeholder_pieces(n: nat) -> Seq<Piece>
    decreases n,
{
    if n == 0 {
        Seq::empty()
    } else {
        let head = if n == 1 {
            Seq::empty()
        } else {
            placeholder_pieces((n - 1) as nat).push(Piece::Text(", "@))
        };
        head.push(Piece::Param(n))
    }
}

/// The table between double quotes, qualified by its schema.
pub open spec fn qualified(schema: Seq<char>, table: Seq<char>) -> Seq<char> {
    crate::text::quoted(schema) + seq!['.'] + crate::text::quoted(table)
}

/// `SELECT cols FROM table WHERE key predicate`.
pub open spec fn select_pieces(
    cols_sql: Seq<Seq<char>>,
    qual_table: Seq<char>,
    pk_cols_sql: Seq<Seq<char>>,
) -> Seq<Piece> {
    seq![Piece::Text("SELECT "@ + join(cols_sql, ", "@) + " FROM "@ + qual_table + " WHERE "@)]
        + where_pieces(pk_cols_sql, 1)
}

/// `DELETE FROM table WHERE key predicate`.
pub open spec fn delete_pieces(qual_table: Seq<char>, pk_cols_sql: Seq<Seq<char>>) -> Seq<Piece> {
    seq![Piece::Text("DELETE FROM "@ + qual_table + " WHERE "@)] + where_pieces(pk_cols_sql, 1)
}

/// `INSERT INTO table (cols) VALUES ($1, ..., $n)`, or
/// `INSERT INTO table DEFAULT VALUES` when no column is written.
pub open spec fn insert_pieces(qual_table: Seq<char>, insert_cols: Seq<Seq<char>>) -> Seq<Piece> {
    if insert_cols.len() == 0 {
        seq![Piece::Text("INSERT INTO "@ + qual_table + " DEFAULT VALUES"@)]
    } else {
        seq![
            Piece::Text(
                "INSERT INTO "@ + qual_table + " ("@ + join(insert_cols, ", "@) + ") VALUES ("@,
            ),
        ] + placeholder_pieces(insert_cols.len()) + seq![Piece::Text(")"@)]
    }
}

/// `UPDATE table SET col = $1, ... WHERE key predicate`, the key numbered
/// after the last written column.
pub open spec fn update_pieces(
    qual_table: Seq<char>,
    upd_cols: Seq<Seq<char>>,
    pk_cols_sql: Seq<Seq<char>>,
) -> Seq<Piece> {
    seq![Piece::Text("UPDATE "@ + qual_table + " SET "@)] + set_pieces(upd_cols) + seq![
        Piece::Text(" WHERE "@),
    ] + where_pieces(pk_cols_sql, upd_cols.len() + 1)
}

/// Rendering a statement with one more piece appends the text of the piece.
pub proof fn render_push(ps: Seq<Piece>, p: Piece)
    ensures
        render(ps.push(p)) == render(ps) + piece_text(p),
{
    assert(ps.push(p).drop_last() =~= ps);
}

/// Rendering distributes over concatenation.
pub proof fn render_add(a: Seq<Piece>, b: Seq<Piece>)
    ensures
        render(a + b) == render(a) + render(b),
    decreases b.len(),
{
    if b.len() == 0 {
        assert(a + b =~= a);
        assert(render(a) + render(b) =~= render(a));
    } else {
        assert((a + b).drop_last() =~= a + b.drop_last());
        render_add(a, b.drop_last());
        assert(render(a + b) =~= render(a) + render(b));
    }
}

/// The placeholders of a concatenation are those of its parts, in order.
pub proof fn params_add(a: Seq<Piece>, b: Seq<Piece>)
    ensures
        params(a + b) == params(a) + params(b),
    decreases b.len(),
{
    if b.len() == 0 {
        assert(a + b =~= a);
        assert(params(a) + params(b) =~= params(a));
    } else {
        assert((a + b).drop_last() =~= a + b.drop_last());
        params_add(a, b.drop_last());
        assert(params(a + b) =~= params(a) + params(b));
    }
}

/// One more piece adds its number to the placeholders if it is one.
pub proof fn params_push(ps: Seq<Piece>, p: Piece)
    ensures
        params(ps.push(p)) == match p {
            Piece::Text(_) => params(ps),
            Piece::Param(k) => params(ps).push(k),
        },
{
    assert(ps.push(p).drop_last() =~= ps);
}

/// A list of assignments holds one placeholder per column, numbered from
/// `first` without gap or repetition.
pub proof fn params_of_assignments(cols: Seq<Seq<char>>, sep: Seq<char>, first: nat)
    ensures
        params(assignments(cols, sep, first)) == numbers(first, cols.len()),
    decreases cols.len(),
{
    let empty = Seq::<Piece>::empty();
    if cols.len() == 0 {
        assert(params(assignments(cols, sep, first)) =~= numbers(first, 0));
    } else {
        let last = Piece::Param((first + cols.len() - 1) as nat);
        let lhs = Piece::Text(cols.last() + " = "@);
        if cols.len() == 1 {
            params_push(empty, lhs);
            params_push(empty.push(lhs), last);
            assert(params(empty.push(lhs).push(last)) =~= numbers(first, 1));
        } else {
            let inner = assignments(cols.drop_last(), sep, first);
            params_of_assignments(cols.drop_last(), sep, first);
            params_push(inner, Piece::Text(sep));
            params_push(inner.push(Piece::Text(sep)), lhs);
            params_push(inner.push(Piece::Text(sep)).push(lhs), last);
            assert(params(inner.push(Piece::Text(sep)).push(lhs).push(last)) =~= numbers(
                first,
                cols.len(),
            ));
        }
    }
}

/// A placeholder list of length `n` holds exactly `$1` to `$n`, in order.
pub proof fn params_of_placeholders(n: nat)
    ensures
        params(placeholder_pieces(n)) == numbers(1, n),
    decreases n,
{
    let empty = Seq::<Piece>::empty();
    if n == 0 {
        assert(params(placeholder_pieces(n)) =~= numbers(1, 0));
    } else if n == 1 {
        params_push(empty, Piece::Param(1));
        assert(params(empty.push(Piece::Param(1))) =~= numbers(1, 1));
    } else {
        let inner = placeholder_pieces((n - 1) as nat);
        params_of_placeholders((n - 1) as nat);
        params_push(inner, Piece::Text(", "@));
        params_push(inner.push(Piece::Text(", "@)), Piece::Param(n));
        assert(params(inner.push(Piece::Text(", "@)).push(Piece::Param(n))) =~= numbers(1, n));
    }
}

/// Appends `col = $k` for each column, with `sep` between neighbours. The
/// numbers go on from `used`, the number of placeholders that the statement
/// holds already.
pub fn push_assignments(out: &mut String, cols_sql: &Vec<String>, sep: &str, used: usize)
    ensures
        final(out)@ == old(out)@ + render(assignments(views(cols_sql@), sep@, (used + 1) as nat)),
{
    let ghost first = (used + 1) as nat;
    let ghost cols = views(cols_sql@);
    let mut i: usize = 0;
    while i < cols_sql.len()
        invariant
            i <= cols_sql.len(),
            cols == views(cols_sql@),
            first == used + 1,
            out@ == old(out)@ + render(assignments(cols.take(i as int), sep@, first)),
        decreases cols_sql.len() - i,
    {
        let ghost before = out@;
        let ghost done = assignments(cols.take(i as int), sep@, first);
        if i > 0 {
            out.append(sep);
        }
        out.append(cols_sql[i].as_str());
        out.append(" = ");
        out.push('$');
        let number: u128 = used as u128 + i as u128 + 1;
        push_decimal(out, number);
        proof {
            let upto = cols.take(i + 1);
            assert(upto.drop_last() =~= cols.take(i as int));
            assert(upto.last() == cols_sql@[i as int]@);
            let lhs = Piece::Text(upto.last() + " = "@);
            let param = Piece::Param((first + i) as nat);
            if i > 0 {
                render_push(done, Piece::Text(sep@));
                render_push(done.push(Piece::Text(sep@)), lhs);
                render_push(done.push(Piece::Text(sep@)).push(lhs), param);
            } else {
                assert(done =~= Seq::<Piece>::empty());
                render_push(Seq::<Piece>::empty(), lhs);
                render_push(Seq::<Piece>::empty().push(lhs), param);
            }
            assert(out@ =~= old(out)@ + render(assignments(upto, sep@, first)));
        }
        i += 1;
    }
    proof {
        assert(cols.take(cols_sql.len() as int) =~= cols);
    }
}

/// The key predicate over the quoted key columns, numbered from 1.
pub fn where_pk(pk_cols_sql: &Vec<String>) -> (out: String)
    ensures
        out@ == render(where_pieces(views(pk_cols_sql@), 1)),
{
    let mut out = String::new();
    push_assignments(&mut out, pk_cols_sql, " AND ", 0);
    out
}

/// Appends the placeholders `$1` to `$n`, joined by commas.
pub fn push_placeholders(out: &mut String, n: usize)
    ensures
        final(out)@ == old(out)@ + render(placeholder_pieces(n as nat)),
{
    let mut i: usize = 0;
    while i < n
        invariant
            i <= n,
            out@ == old(out)@ + render(placeholder_pieces(i as nat)),
        decreases n - i,
    {
        let ghost done = placeholder_pieces(i as nat);
        if i > 0 {
            out.append(", ");
        }
        out.push('$');
        let number: u128 = i as u128 + 1;
        push_decimal(out, number);
        proof {
            let param = Piece::Param((i + 1) as nat);
            if i > 0 {
                render_push(done, Piece::Text(", "@));
                render_push(done.push(Piece::Text(", "@)), param);
            } else {
                render_push(Seq::<Piece>::empty(), param);
            }
            assert(out@ =~= old(out)@ + render(placeholder_pieces((i + 1) as nat)));
        }
        i += 1;
    }
}

/// The placeholders `$1` to `$n`, joined by commas.
pub fn placeholders(n: usize) -> (out: String)
    ensures
        out@ == render(placeholder_pieces(n as nat)),
{
    let mut out = String::new();
    push_placeholders(&mut out, n);
    out
}

} // verus!
