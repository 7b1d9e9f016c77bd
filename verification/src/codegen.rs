//! The Diesel impls that the derive writes, as Rust source text.
//!
//! Each `*_text` spec function is the exact text of one generated item; the
//! executable function of the same purpose builds that text.  `name` is the
//! newtype's name and `wrapped` the printed text of its field type.
use vstd::prelude::*;

verus! {

/// `ToSql`: the write path serializes the inner field directly.
pub open spec fn tosql_text(name: Seq<char>, wrapped: Seq<char>) -> Seq<char> {
    "impl<ST, DB> diesel::serialize::ToSql<ST, DB> for "@ + name + "\nwhere\n    "@ + wrapped
        + ": diesel::serialize::ToSql<ST, DB>,\n"@
        + "    DB: diesel::backend::Backend,\n    DB: diesel::sql_types::HasSqlType<ST>,\n{\n    fn to_sql<'b>(&'b self, out: &mut diesel::serialize::Output<'b, '_, DB>) -> diesel::serialize::Result\n    {\n"@
        + "        self.0.to_sql(out)\n"@ + "    }\n}\n"@
}

/// The part of an `AsExpression` impl after `for <type>`.
pub open spec fn as_expression_body(wrapped: Seq<char>) -> Seq<char> {
    "\nwhere\n    diesel::internal::derives::as_expression::Bound<ST, "@ + wrapped
        + ">:\n        diesel::expression::Expression<SqlType=ST>,\n"@
        + "    ST: diesel::sql_types::SingleValue,\n{\n    type Expression = diesel::internal::derives::as_expression::Bound<ST, Self>;\n\n    fn as_expression(self) -> Self::Expression {\n"@
        + "        diesel::internal::derives::as_expression::Bound::new(self)\n"@ + "    }\n}\n"@
}

/// `AsExpression` for the newtype, a reference to it, and a reference to
/// such a reference.
pub open spec fn as_expressions_text(name: Seq<char>, wrapped: Seq<char>) -> Seq<char> {
    "impl<ST> diesel::expression::AsExpression<ST> for "@ + name + as_expression_body(wrapped)
        + "impl<'expr, ST> diesel::expression::AsExpression<ST> for &'expr "@ + name
        + as_expression_body(wrapped)
        + "impl<'expr2, 'expr, ST> diesel::expression::AsExpression<ST> for &'expr2 &'expr "@ + name
        + as_expression_body(wrapped)
}

/// The expression that builds the newtype from the value bound to `inner`:
/// a fallible `try_into` when a `try_from` type is read, a direct wrap
/// otherwise.
pub open spec fn build_from_inner_text(name: Seq<char>, converts: bool) -> Seq<char> {
    if converts {
        "::std::convert::TryInto::try_into(inner)\n            .map_err(::std::convert::Into::into)"@
    } else {
        "::std::result::Result::Ok("@ + name + "(inner))"@
    }
}

/// The type read from the database: the `try_from` type if there is one,
/// the field type otherwise.
pub open spec fn read_type(wrapped: Seq<char>, try_from: Option<Seq<char>>) -> Seq<char> {
    match try_from {
        Some(t) => t,
        None => wrapped,
    }
}

/// `FromSql`: deserialize the read type, then build the newtype.
pub open spec fn from_sql_text(name: Seq<char>, wrapped: Seq<char>, try_from: Option<Seq<char>>) -> Seq<char> {
    let from = read_type(wrapped, try_from);
    "impl<ST, DB> diesel::deserialize::FromSql<ST, DB> for "@ + name + "\nwhere\n    "@ + from
        + ": diesel::deserialize::FromSql<ST, DB>,\n"@
        + "    DB: diesel::backend::Backend,\n    DB: diesel::sql_types::HasSqlType<ST>,\n{\n    fn from_sql(raw: DB::RawValue<'_>) -> diesel::deserialize::Result<Self>\n    {\n"@
        + "        let inner: "@ + from + " =\n            diesel::deserialize::FromSql::<ST, DB>::from_sql(raw)?;\n"@
        + "        "@ + build_from_inner_text(name, try_from is Some) + "\n"@ + "    }\n}\n"@
}

/// `Queryable`: the row is the read type; build the newtype from it.
pub open spec fn queryable_text(name: Seq<char>, wrapped: Seq<char>, try_from: Option<Seq<char>>) -> Seq<char> {
    let from = read_type(wrapped, try_from);
    "impl<ST, DB> diesel::deserialize::Queryable<ST, DB> for "@ + name + "\nwhere\n    "@ + from
        + ": diesel::deserialize::FromStaticSqlRow<ST, DB>,\n"@
        + "    DB: diesel::backend::Backend,\n    DB: diesel::sql_types::HasSqlType<ST>,\n{\n"@
        + "    type Row = "@ + from + ";\n\n"@
        + "    fn build(inner: Self::Row) -> diesel::deserialize::Result<Self> {\n"@
        + "        "@ + build_from_inner_text(name, try_from is Some) + "\n"@ + "    }\n}\n"@
}

/// `QueryId`: the newtype is its own query id.
pub open spec fn query_id_text(name: Seq<char>) -> Seq<char> {
    "impl diesel::query_builder::QueryId for "@ + name + " {\n"@ + "    type QueryId = Self;\n"@ + "}\n"@
}

/// The items, inside an anonymous constant so that nothing they name leaks
/// into the surrounding module.
pub open spec fn wrapped_in_const_text(item: Seq<char>) -> Seq<char> {
    "const _: () = {\n"@ + item + "};\n"@
}

/// The write path: `ToSql` and the `AsExpression` impls.
pub open spec fn write_path_text(name: Seq<char>, wrapped: Seq<char>) -> Seq<char> {
    tosql_text(name, wrapped) + as_expressions_text(name, wrapped)
}

/// The read path: `FromSql` and `Queryable`.
pub open spec fn read_path_text(name: Seq<char>, wrapped: Seq<char>, try_from: Option<Seq<char>>) -> Seq<char> {
    from_sql_text(name, wrapped, try_from) + queryable_text(name, wrapped, try_from)
}

/// Everything the derive writes for the newtype `name` around `wrapped`,
/// reading `try_from` (if any) from the database.
pub open spec fn expansion_text(name: Seq<char>, wrapped: Seq<char>, try_from: Option<Seq<char>>) -> Seq<char> {
    wrapped_in_const_text(
        write_path_text(name, wrapped) + read_path_text(name, wrapped, try_from) + query_id_text(name),
    )
}

/// Writes the `ToSql` impl.
pub fn gen_tosql(name: &str, wrapped_ty: &str) -> (r: String)
    ensures
        r@ == tosql_text(name@, wrapped_ty@),
{
    let mut out = "impl<ST, DB> diesel::serialize::ToSql<ST, DB> for ".to_owned();
    out.append(name);
    out.append("\nwhere\n    ");
    out.append(wrapped_ty);
    out.append(": diesel::serialize::ToSql<ST, DB>,\n");
    out.append("    DB: diesel::backend::Backend,\n    DB: diesel::sql_types::HasSqlType<ST>,\n{\n    fn to_sql<'b>(&'b self, out: &mut diesel::serialize::Output<'b, '_, DB>) -> diesel::serialize::Result\n    {\n");
    out.append("        self.0.to_sql(out)\n");
    out.append("    }\n}\n");
    out
}

/// Appends the part of an `AsExpression` impl after `for <type>`.
fn push_as_expression_body(out: &mut String, wrapped_ty: &str)
    ensures
        final(out)@ == old(out)@ + as_expression_body(wrapped_ty@),
{
    let mut body = "\nwhere\n    diesel::internal::derives::as_expression::Bound<ST, ".to_owned();
    body.append(wrapped_ty);
    body.append(">:\n        diesel::expression::Expression<SqlType=ST>,\n");
    body.append("    ST: diesel::sql_types::SingleValue,\n{\n    type Expression = diesel::internal::derives::as_expression::Bound<ST, Self>;\n\n    fn as_expression(self) -> Self::Expression {\n");
    body.append("        diesel::internal::derives::as_expression::Bound::new(self)\n");
    body.append("    }\n}\n");
    out.append(body.as_str());
}

/// Writes the three `AsExpression` impls.
pub fn gen_asexpressions(name: &str, wrapped_ty: &str) -> (r: String)
    ensures
        r@ == as_expressions_text(name@, wrapped_ty@),
{
    let mut out = "impl<ST> diesel::expression::AsExpression<ST> for ".to_owned();
    out.append(name);
    push_as_expression_body(&mut out, wrapped_ty);
    out.append("impl<'expr, ST> diesel::expression::AsExpression<ST> for &'expr ");
    out.append(name);
    push_as_expression_body(&mut out, wrapped_ty);
    out.append("impl<'expr2, 'expr, ST> diesel::expression::AsExpression<ST> for &'expr2 &'expr ");
    out.append(name);
    push_as_expression_body(&mut out, wrapped_ty);
    out
}

/// Writes the expression that builds the newtype from `inner`.
pub fn gen_build_from_inner(name: &str, try_from: Option<&str>) -> (r: String)
    ensures
        r@ == build_from_inner_text(name@, try_from is Some),
{
    match try_from {
        Some(_) => "::std::convert::TryInto::try_into(inner)\n            .map_err(::std::convert::Into::into)".to_owned(),
        None => {
            let mut out = "::std::result::Result::Ok(".to_owned();
            out.append(name);
            out.append("(inner))");
            out
        },
    }
}

/// The read type: `try_from` if given, the field type otherwise.
fn read_type_of<'a>(wrapped_ty: &'a str, try_from: Option<&'a str>) -> (r: &'a str)
    ensures
        r@ == read_type(wrapped_ty@, match try_from {
            Some(t) => Some(t@),
            None => None,
        }),
{
    match try_from {
        Some(t) => t,
        None => wrapped_ty,
    }
}

/// The view of an optional type text.
pub open spec fn opt_view(t: Option<&str>) -> Option<Seq<char>> {
    match t {
        Some(s) => Some(s@),
        None => None,
    }
}

/// Writes the `FromSql` impl.
pub fn gen_from_sql(name: &str, wrapped_ty: &str, try_from: Option<&str>) -> (r: String)
    ensures
        r@ == from_sql_text(name@, wrapped_ty@, opt_view(try_from)),
{
    let from_ty = read_type_of(wrapped_ty, try_from);
    let build = gen_build_from_inner(name, try_from);
    let mut out = "impl<ST, DB> diesel::deserialize::FromSql<ST, DB> for ".to_owned();
    out.append(name);
    out.append("\nwhere\n    ");
    out.append(from_ty);
    out.append(": diesel::deserialize::FromSql<ST, DB>,\n");
    out.append("    DB: diesel::backend::Backend,\n    DB: diesel::sql_types::HasSqlType<ST>,\n{\n    fn from_sql(raw: DB::RawValue<'_>) -> diesel::deserialize::Result<Self>\n    {\n");
    out.append("        let inner: ");
    out.append(from_ty);
    out.append(" =\n            diesel::deserialize::FromSql::<ST, DB>::from_sql(raw)?;\n");
    out.append("        ");
    out.append(build.as_str());
    out.append("\n");
    out.append("    }\n}\n");
    out
}

/// Writes the `Queryable` impl.
pub fn gen_queryable(name: &str, wrapped_ty: &str, try_from: Option<&str>) -> (r: String)
    ensures
        r@ == queryable_text(name@, wrapped_ty@, opt_view(try_from)),
{
    let from_ty = read_type_of(wrapped_ty, try_from);
    let build = gen_build_from_inner(name, try_from);
    let mut out = "impl<ST, DB> diesel::deserialize::Queryable<ST, DB> for ".to_owned();
    out.append(name);
    out.append("\nwhere\n    ");
    out.append(from_ty);
    out.append(": diesel::deserialize::FromStaticSqlRow<ST, DB>,\n");
    out.append("    DB: diesel::backend::Backend,\n    DB: diesel::sql_types::HasSqlType<ST>,\n{\n");
    out.append("    type Row = ");
    out.append(from_ty);
    out.append(";\n\n");
    out.append("    fn build(inner: Self::Row) -> diesel::deserialize::Result<Self> {\n");
    out.append("        ");
    out.append(build.as_str());
    out.append("\n");
    out.append("    }\n}\n");
    out
}

/// Writes the `QueryId` impl.
pub fn gen_query_id(name: &str) -> (r: String)
    ensures
        r@ == query_id_text(name@),
{
    let mut out = "impl diesel::query_builder::QueryId for ".to_owned();
    out.append(name);
    out.append(" {\n");
    out.append("    type QueryId = Self;\n");
    out.append("}\n");
    out
}

/// Puts `item` inside an anonymous constant.
pub fn wrap_impls_in_const(item: &str) -> (r: String)
    ensures
        r@ == wrapped_in_const_text(item@),
{
    let mut out = "const _: () = {\n".to_owned();
    out.append(item);
    out.append("};\n");
    out
}

/// Writes every impl of the derive for the newtype `name` around
/// `wrapped_ty`, reading `try_from` (if any) from the database.
pub fn gen_impls(name: &str, wrapped_ty: &str, try_from: Option<&str>) -> (r: String)
    ensures
        r@ == expansion_text(name@, wrapped_ty@, opt_view(try_from)),
{
    let mut items = gen_tosql(name, wrapped_ty);
    let as_expr = gen_asexpressions(name, wrapped_ty);
    items.append(as_expr.as_str());
    let from_sql = gen_from_sql(name, wrapped_ty, try_from);
    items.append(from_sql.as_str());
    let queryable = gen_queryable(name, wrapped_ty, try_from);
    items.append(queryable.as_str());
    let query_id = gen_query_id(name);
    items.append(query_id.as_str());
    let r = wrap_impls_in_const(items.as_str());
    assert(r@ =~= expansion_text(name@, wrapped_ty@, opt_view(try_from)));
    r
}

/// `try_from` only affects the read path: whatever is read from the
/// database, the generated code starts with the same write path (`ToSql`
/// and `AsExpression`, which serialize the inner field directly) and ends
/// with the same `QueryId` impl.
pub proof fn try_from_only_affects_read_path(
    name: Seq<char>,
    wrapped: Seq<char>,
    try_from: Option<Seq<char>>,
)
    ensures
        ("const _: () = {\n"@ + write_path_text(name, wrapped)).is_prefix_of(
            expansion_text(name, wrapped, try_from),
        ),
        (query_id_text(name) + "};\n"@).is_suffix_of(expansion_text(name, wrapped, try_from)),
{
    let open = "const _: () = {\n"@;
    let close = "};\n"@;
    let w = write_path_text(name, wrapped);
    let rd = read_path_text(name, wrapped, try_from);
    let q = query_id_text(name);
    let full = expansion_text(name, wrapped, try_from);
    assert(full =~= (open + w) + (rd + (q + close)));
    assert((open + w) =~= full.subrange(0, (open + w).len() as int));
    assert((q + close) =~= full.subrange(full.len() - (q + close).len(), full.len() as int));
}

/// `needle` occurs somewhere in `hay`.
pub open spec fn contains_text(hay: Seq<char>, needle: Seq<char>) -> bool {
    exists|i: int|
        0 <= i && i + needle.len() <= hay.len() && #[trigger] hay.subrange(i, i + needle.len())
            == needle
}

proof fn lemma_prefix(p: Seq<char>, s: Seq<char>)
    ensures
        p.is_prefix_of(p + s),
{
    assert(p =~= (p + s).subrange(0, p.len() as int));
}

proof fn lemma_suffix(p: Seq<char>, s: Seq<char>)
    ensures
        s.is_suffix_of(p + s),
{
    assert(s =~= (p + s).subrange(p.len() as int, (p + s).len() as int));
}

/// What occurs in `x` occurs in `x + y`.
proof fn lemma_in_left(x: Seq<char>, y: Seq<char>, h: Seq<char>)
    requires
        contains_text(x, h),
    ensures
        contains_text(x + y, h),
{
    let i = choose|i: int|
        0 <= i && i + h.len() <= x.len() && #[trigger] x.subrange(i, i + h.len()) == h;
    assert((x + y).subrange(i, i + h.len()) =~= x.subrange(i, i + h.len()));
}

/// What occurs in `y` occurs in `x + y`.
proof fn lemma_in_right(x: Seq<char>, y: Seq<char>, h: Seq<char>)
    requires
        contains_text(y, h),
    ensures
        contains_text(x + y, h),
{
    let i = choose|i: int|
        0 <= i && i + h.len() <= y.len() && #[trigger] y.subrange(i, i + h.len()) == h;
    let j = x.len() + i;
    assert((x + y).subrange(j, j + h.len()) =~= y.subrange(i, i + h.len()));
}

/// What starts `c` occurs in `c`.
proof fn lemma_starts_in(c: Seq<char>, h: Seq<char>)
    requires
        h.is_prefix_of(c),
    ensures
        contains_text(c, h),
{
    assert(c.subrange(0, 0 + h.len() as int) =~= h);
}

/// `p` starts `p + r`, and so occurs in it.
proof fn lemma_head_in(p: Seq<char>, r: Seq<char>)
    ensures
        contains_text(p + r, p),
{
    lemma_prefix(p, r);
    lemma_starts_in(p + r, p);
}

/// The newtype's `to_sql` returns exactly what the inner field's `to_sql`
/// returns: the `ToSql` impl for `name` requires `wrapped: ToSql` for the
/// same SQL type and backend, and its body is `self.0.to_sql(out)` with
/// nothing applied to the result.
pub proof fn tosql_serializes_inner_field(name: Seq<char>, wrapped: Seq<char>)
    ensures
        ("impl<ST, DB> diesel::serialize::ToSql<ST, DB> for "@ + name + "\nwhere\n    "@ + wrapped
            + ": diesel::serialize::ToSql<ST, DB>,\n"@).is_prefix_of(tosql_text(name, wrapped)),
        ("    DB: diesel::backend::Backend,\n    DB: diesel::sql_types::HasSqlType<ST>,\n{\n    fn to_sql<'b>(&'b self, out: &mut diesel::serialize::Output<'b, '_, DB>) -> diesel::serialize::Result\n    {\n"@
            + "        self.0.to_sql(out)\n"@ + "    }\n}\n"@).is_suffix_of(tosql_text(name, wrapped)),
{
    let head = "impl<ST, DB> diesel::serialize::ToSql<ST, DB> for "@ + name + "\nwhere\n    "@ + wrapped
        + ": diesel::serialize::ToSql<ST, DB>,\n"@;
    let tail = "    DB: diesel::backend::Backend,\n    DB: diesel::sql_types::HasSqlType<ST>,\n{\n    fn to_sql<'b>(&'b self, out: &mut diesel::serialize::Output<'b, '_, DB>) -> diesel::serialize::Result\n    {\n"@
        + "        self.0.to_sql(out)\n"@ + "    }\n}\n"@;
    assert(tosql_text(name, wrapped) =~= head + tail);
    lemma_prefix(head, tail);
    lemma_suffix(head, tail);
}

/// Each of the three `AsExpression` impls (for the newtype, `&'expr` of it
/// and `&'expr2 &'expr` of it) is bounded by
/// `Bound<ST, wrapped>: Expression<SqlType = ST>`, the SQL type of the impl
/// itself, and builds its expression with `Bound::new(self)`.
pub proof fn as_expressions_use_the_inner_sql_type(name: Seq<char>, wrapped: Seq<char>)
    ensures
        contains_text(
            as_expressions_text(name, wrapped),
            "impl<ST> diesel::expression::AsExpression<ST> for "@ + name
                + "\nwhere\n    diesel::internal::derives::as_expression::Bound<ST, "@ + wrapped
                + ">:\n        diesel::expression::Expression<SqlType=ST>,\n"@,
        ),
        contains_text(
            as_expressions_text(name, wrapped),
            "impl<'expr, ST> diesel::expression::AsExpression<ST> for &'expr "@ + name
                + "\nwhere\n    diesel::internal::derives::as_expression::Bound<ST, "@ + wrapped
                + ">:\n        diesel::expression::Expression<SqlType=ST>,\n"@,
        ),
        contains_text(
            as_expressions_text(name, wrapped),
            "impl<'expr2, 'expr, ST> diesel::expression::AsExpression<ST> for &'expr2 &'expr "@ + name
                + "\nwhere\n    diesel::internal::derives::as_expression::Bound<ST, "@ + wrapped
                + ">:\n        diesel::expression::Expression<SqlType=ST>,\n"@,
        ),
        ("        diesel::internal::derives::as_expression::Bound::new(self)\n"@ + "    }\n}\n"@).is_suffix_of(
            as_expressions_text(name, wrapped),
        ),
        as_expression_body(wrapped) =~= ("\nwhere\n    diesel::internal::derives::as_expression::Bound<ST, "@
            + wrapped + ">:\n        diesel::expression::Expression<SqlType=ST>,\n"@)
            + ("    ST: diesel::sql_types::SingleValue,\n{\n    type Expression = diesel::internal::derives::as_expression::Bound<ST, Self>;\n\n    fn as_expression(self) -> Self::Expression {\n"@
            + "        diesel::internal::derives::as_expression::Bound::new(self)\n"@ + "    }\n}\n"@),
{
    let bound = "\nwhere\n    diesel::internal::derives::as_expression::Bound<ST, "@ + wrapped
        + ">:\n        diesel::expression::Expression<SqlType=ST>,\n"@;
    let rest = "    ST: diesel::sql_types::SingleValue,\n{\n    type Expression = diesel::internal::derives::as_expression::Bound<ST, Self>;\n\n    fn as_expression(self) -> Self::Expression {\n"@
        + "        diesel::internal::derives::as_expression::Bound::new(self)\n"@ + "    }\n}\n"@;
    let body = as_expression_body(wrapped);
    lemma_body_parts(wrapped);
    let l1 = "impl<ST> diesel::expression::AsExpression<ST> for "@;
    let l2 = "impl<'expr, ST> diesel::expression::AsExpression<ST> for &'expr "@;
    let l3 = "impl<'expr2, 'expr, ST> diesel::expression::AsExpression<ST> for &'expr2 &'expr "@;
    lemma_impl_bound(l1, name, bound, rest);
    lemma_impl_bound(l2, name, bound, rest);
    lemma_impl_bound(l3, name, bound, rest);
    let tail = "\nwhere\n    diesel::internal::derives::as_expression::Bound<ST, "@;
    let lim = ">:\n        diesel::expression::Expression<SqlType=ST>,\n"@;
    assert(l1 + name + tail + wrapped + lim =~= l1 + name + bound);
    assert(l2 + name + tail + wrapped + lim =~= l2 + name + bound);
    assert(l3 + name + tail + wrapped + lim =~= l3 + name + bound);
    let i1 = l1 + name + body;
    let i2 = l2 + name + body;
    let i3 = l3 + name + body;
    assert(as_expressions_text(name, wrapped) =~= i1 + i2 + i3);
    lemma_in_left(i1, i2, l1 + name + bound);
    lemma_in_left(i1 + i2, i3, l1 + name + bound);
    lemma_in_right(i1, i2, l2 + name + bound);
    lemma_in_left(i1 + i2, i3, l2 + name + bound);
    lemma_in_right(i1 + i2, i3, l3 + name + bound);
    let last = "        diesel::internal::derives::as_expression::Bound::new(self)\n"@ + "    }\n}\n"@;
    lemma_body_ends(wrapped);
    lemma_suffix_lift(i1 + i2 + l3 + name, body, last);
}

/// The body of an `AsExpression` impl is its bound followed by the rest.
proof fn lemma_body_parts(wrapped: Seq<char>)
    ensures
        as_expression_body(wrapped) =~= ("\nwhere\n    diesel::internal::derives::as_expression::Bound<ST, "@ + wrapped
            + ">:\n        diesel::expression::Expression<SqlType=ST>,\n"@) + ("    ST: diesel::sql_types::SingleValue,\n{\n    type Expression = diesel::internal::derives::as_expression::Bound<ST, Self>;\n\n    fn as_expression(self) -> Self::Expression {\n"@
            + "        diesel::internal::derives::as_expression::Bound::new(self)\n"@ + "    }\n}\n"@),
{
}

/// The body of an `AsExpression` impl ends with `Bound::new(self)`.
proof fn lemma_body_ends(wrapped: Seq<char>)
    ensures
        ("        diesel::internal::derives::as_expression::Bound::new(self)\n"@ + "    }\n}\n"@).is_suffix_of(
            as_expression_body(wrapped),
        ),
{
    let last = "        diesel::internal::derives::as_expression::Bound::new(self)\n"@ + "    }\n}\n"@;
    let before = "\nwhere\n    diesel::internal::derives::as_expression::Bound<ST, "@ + wrapped
        + ">:\n        diesel::expression::Expression<SqlType=ST>,\n"@
        + "    ST: diesel::sql_types::SingleValue,\n{\n    type Expression = diesel::internal::derives::as_expression::Bound<ST, Self>;\n\n    fn as_expression(self) -> Self::Expression {\n"@;
    assert(as_expression_body(wrapped) =~= before + last);
    lemma_suffix(before, last);
}

/// An impl header followed by a body that starts with `bound` holds the
/// header followed by `bound`.
proof fn lemma_impl_bound(l: Seq<char>, name: Seq<char>, bound: Seq<char>, rest: Seq<char>)
    ensures
        contains_text(l + name + (bound + rest), l + name + bound),
{
    assert(l + name + (bound + rest) =~= (l + name + bound) + rest);
    lemma_head_in(l + name + bound, rest);
}

/// A suffix of the last part is a suffix of the whole.
proof fn lemma_suffix_lift(x: Seq<char>, y: Seq<char>, s: Seq<char>)
    requires
        s.is_suffix_of(y),
    ensures
        s.is_suffix_of(x + y),
{
    assert((x + y).subrange((x + y).len() - s.len(), (x + y).len() as int) =~= y.subrange(
        y.len() - s.len(),
        y.len() as int,
    ));
}

/// The read path builds the newtype the same way in `FromSql` and in
/// `Queryable`, and converts exactly when a `try_from` type is given: both
/// read the `try_from` type if there is one and the field type otherwise,
/// and both end by returning `try_into(inner)` with its error turned into
/// diesel's error by `Into` (with `try_from`), or `Ok(name(inner))`
/// (without).  `FromSql` deserializes `inner` with the read type's own
/// `FromSql`; `Queryable`'s row is the read type.
pub proof fn read_path_converts_exactly_with_try_from(
    name: Seq<char>,
    wrapped: Seq<char>,
    try_from: Option<Seq<char>>,
)
    ensures
        ({
            let from = match try_from {
                Some(t) => t,
                None => wrapped,
            };
            let build = match try_from {
                Some(_) =>
                    "::std::convert::TryInto::try_into(inner)\n            .map_err(::std::convert::Into::into)"@,
                None => "::std::result::Result::Ok("@ + name + "(inner))"@,
            };
            &&& ("impl<ST, DB> diesel::deserialize::FromSql<ST, DB> for "@ + name + "\nwhere\n    "@
                + from + ": diesel::deserialize::FromSql<ST, DB>,\n"@).is_prefix_of(
                from_sql_text(name, wrapped, try_from),
            )
            &&& ("        let inner: "@ + from
                + " =\n            diesel::deserialize::FromSql::<ST, DB>::from_sql(raw)?;\n"@ + "        "@
                + build + "\n"@ + "    }\n}\n"@).is_suffix_of(from_sql_text(name, wrapped, try_from))
            &&& ("impl<ST, DB> diesel::deserialize::Queryable<ST, DB> for "@ + name + "\nwhere\n    "@
                + from + ": diesel::deserialize::FromStaticSqlRow<ST, DB>,\n"@).is_prefix_of(
                queryable_text(name, wrapped, try_from),
            )
            &&& ("    type Row = "@ + from + ";\n\n"@
                + "    fn build(inner: Self::Row) -> diesel::deserialize::Result<Self> {\n"@ + "        "@
                + build + "\n"@ + "    }\n}\n"@).is_suffix_of(queryable_text(name, wrapped, try_from))
            &&& from_sql_text(name, wrapped, try_from) =~= ("impl<ST, DB> diesel::deserialize::FromSql<ST, DB> for "@
                + name + "\nwhere\n    "@ + from + ": diesel::deserialize::FromSql<ST, DB>,\n"@)
                + "    DB: diesel::backend::Backend,\n    DB: diesel::sql_types::HasSqlType<ST>,\n{\n    fn from_sql(raw: DB::RawValue<'_>) -> diesel::deserialize::Result<Self>\n    {\n"@
                + ("        let inner: "@ + from
                + " =\n            diesel::deserialize::FromSql::<ST, DB>::from_sql(raw)?;\n"@ + "        "@
                + build + "\n"@ + "    }\n}\n"@)
            &&& queryable_text(name, wrapped, try_from) =~= ("impl<ST, DB> diesel::deserialize::Queryable<ST, DB> for "@
                + name + "\nwhere\n    "@ + from + ": diesel::deserialize::FromStaticSqlRow<ST, DB>,\n"@)
                + "    DB: diesel::backend::Backend,\n    DB: diesel::sql_types::HasSqlType<ST>,\n{\n"@
                + ("    type Row = "@ + from + ";\n\n"@
                + "    fn build(inner: Self::Row) -> diesel::deserialize::Result<Self> {\n"@ + "        "@
                + build + "\n"@ + "    }\n}\n"@)
        }),
{
    let from = match try_from {
        Some(t) => t,
        None => wrapped,
    };
    let build = build_from_inner_text(name, try_from is Some);
    let fh = "impl<ST, DB> diesel::deserialize::FromSql<ST, DB> for "@ + name + "\nwhere\n    "@ + from
        + ": diesel::deserialize::FromSql<ST, DB>,\n"@;
    let fm = "    DB: diesel::backend::Backend,\n    DB: diesel::sql_types::HasSqlType<ST>,\n{\n    fn from_sql(raw: DB::RawValue<'_>) -> diesel::deserialize::Result<Self>\n    {\n"@;
    let ft = "        let inner: "@ + from + " =\n            diesel::deserialize::FromSql::<ST, DB>::from_sql(raw)?;\n"@
        + "        "@ + build + "\n"@ + "    }\n}\n"@;
    assert(from_sql_text(name, wrapped, try_from) =~= fh + (fm + ft));
    lemma_prefix(fh, fm + ft);
    assert(from_sql_text(name, wrapped, try_from) =~= (fh + fm) + ft);
    lemma_suffix(fh + fm, ft);
    let qh = "impl<ST, DB> diesel::deserialize::Queryable<ST, DB> for "@ + name + "\nwhere\n    "@ + from
        + ": diesel::deserialize::FromStaticSqlRow<ST, DB>,\n"@;
    let qm = "    DB: diesel::backend::Backend,\n    DB: diesel::sql_types::HasSqlType<ST>,\n{\n"@;
    let qt = "    type Row = "@ + from + ";\n\n"@
        + "    fn build(inner: Self::Row) -> diesel::deserialize::Result<Self> {\n"@ + "        "@ + build
        + "\n"@ + "    }\n}\n"@;
    assert(queryable_text(name, wrapped, try_from) =~= qh + (qm + qt));
    lemma_prefix(qh, qm + qt);
    assert(queryable_text(name, wrapped, try_from) =~= (qh + qm) + qt);
    lemma_suffix(qh + qm, qt);
}

/// The newtype is its own query id.
pub proof fn query_id_is_the_newtype(name: Seq<char>)
    ensures
        query_id_text(name) == "impl diesel::query_builder::QueryId for "@ + name + " {\n"@
            + "    type QueryId = Self;\n"@ + "}\n"@,
{
}

/// The derive writes, inside one anonymous constant and in this order, one
/// `ToSql` impl, the three `AsExpression` impls, one `FromSql`, one
/// `Queryable` and one `QueryId` impl for the newtype; in particular the
/// headers of all seven impls occur in what it writes.
pub proof fn expansion_holds_every_impl(name: Seq<char>, wrapped: Seq<char>, try_from: Option<Seq<char>>)
    ensures
        expansion_text(name, wrapped, try_from) == "const _: () = {\n"@ + tosql_text(name, wrapped)
            + as_expressions_text(name, wrapped) + from_sql_text(name, wrapped, try_from)
            + queryable_text(name, wrapped, try_from) + query_id_text(name) + "};\n"@,
        contains_text(
            expansion_text(name, wrapped, try_from),
            "impl<ST, DB> diesel::serialize::ToSql<ST, DB> for "@ + name,
        ),
        contains_text(
            expansion_text(name, wrapped, try_from),
            "impl<ST> diesel::expression::AsExpression<ST> for "@ + name,
        ),
        contains_text(
            expansion_text(name, wrapped, try_from),
            "impl<'expr, ST> diesel::expression::AsExpression<ST> for &'expr "@ + name,
        ),
        contains_text(
            expansion_text(name, wrapped, try_from),
            "impl<'expr2, 'expr, ST> diesel::expression::AsExpression<ST> for &'expr2 &'expr "@ + name,
        ),
        contains_text(
            expansion_text(name, wrapped, try_from),
            "impl<ST, DB> diesel::deserialize::FromSql<ST, DB> for "@ + name,
        ),
        contains_text(
            expansion_text(name, wrapped, try_from),
            "impl<ST, DB> diesel::deserialize::Queryable<ST, DB> for "@ + name,
        ),
        contains_text(
            expansion_text(name, wrapped, try_from),
            "impl diesel::query_builder::QueryId for "@ + name,
        ),
{
    let open = "const _: () = {\n"@;
    let close = "};\n"@;
    let t = tosql_text(name, wrapped);
    let a = as_expressions_text(name, wrapped);
    let f = from_sql_text(name, wrapped, try_from);
    let q = queryable_text(name, wrapped, try_from);
    let i = query_id_text(name);
    let all = expansion_text(name, wrapped, try_from);
    assert(all =~= open + t + a + f + q + i + close);
    lemma_headers(name, wrapped, try_from);
    let ht = "impl<ST, DB> diesel::serialize::ToSql<ST, DB> for "@ + name;
    let h1 = "impl<ST> diesel::expression::AsExpression<ST> for "@ + name;
    let h2 = "impl<'expr, ST> diesel::expression::AsExpression<ST> for &'expr "@ + name;
    let h3 = "impl<'expr2, 'expr, ST> diesel::expression::AsExpression<ST> for &'expr2 &'expr "@ + name;
    let hf = "impl<ST, DB> diesel::deserialize::FromSql<ST, DB> for "@ + name;
    let hq = "impl<ST, DB> diesel::deserialize::Queryable<ST, DB> for "@ + name;
    let hi = "impl diesel::query_builder::QueryId for "@ + name;
    lemma_in_right(open, t, ht);
    lemma_lift(open + t, a, f, q, i, close, ht);
    lemma_in_right(open + t, a, h1);
    lemma_lift(open + t + a, f, q, i, close, Seq::empty(), h1);
    lemma_in_right(open + t, a, h2);
    lemma_lift(open + t + a, f, q, i, close, Seq::empty(), h2);
    lemma_in_right(open + t, a, h3);
    lemma_lift(open + t + a, f, q, i, close, Seq::empty(), h3);
    lemma_in_right(open + t + a, f, hf);
    lemma_lift(open + t + a + f, q, i, close, Seq::empty(), Seq::empty(), hf);
    lemma_in_right(open + t + a + f, q, hq);
    lemma_lift(open + t + a + f + q, i, close, Seq::empty(), Seq::empty(), Seq::empty(), hq);
    lemma_in_right(open + t + a + f + q, i, hi);
    lemma_in_left(open + t + a + f + q + i, close, hi);
    assert(open + t + a + f + q + i + close =~= all);
}

/// What occurs in `x` occurs in `x` followed by five more parts.
proof fn lemma_lift(
    x: Seq<char>,
    p1: Seq<char>,
    p2: Seq<char>,
    p3: Seq<char>,
    p4: Seq<char>,
    p5: Seq<char>,
    h: Seq<char>,
)
    requires
        contains_text(x, h),
    ensures
        contains_text(x + p1 + p2 + p3 + p4 + p5, h),
{
    lemma_in_left(x, p1, h);
    lemma_in_left(x + p1, p2, h);
    lemma_in_left(x + p1 + p2, p3, h);
    lemma_in_left(x + p1 + p2 + p3, p4, h);
    lemma_in_left(x + p1 + p2 + p3 + p4, p5, h);
}

/// Each impl text starts with its header for the newtype.
proof fn lemma_headers(name: Seq<char>, wrapped: Seq<char>, try_from: Option<Seq<char>>)
    ensures
        contains_text(tosql_text(name, wrapped), "impl<ST, DB> diesel::serialize::ToSql<ST, DB> for "@ + name),
        contains_text(as_expressions_text(name, wrapped), "impl<ST> diesel::expression::AsExpression<ST> for "@ + name),
        contains_text(
            as_expressions_text(name, wrapped),
            "impl<'expr, ST> diesel::expression::AsExpression<ST> for &'expr "@ + name,
        ),
        contains_text(
            as_expressions_text(name, wrapped),
            "impl<'expr2, 'expr, ST> diesel::expression::AsExpression<ST> for &'expr2 &'expr "@ + name,
        ),
        contains_text(
            from_sql_text(name, wrapped, try_from),
            "impl<ST, DB> diesel::deserialize::FromSql<ST, DB> for "@ + name,
        ),
        contains_text(
            queryable_text(name, wrapped, try_from),
            "impl<ST, DB> diesel::deserialize::Queryable<ST, DB> for "@ + name,
        ),
        contains_text(query_id_text(name), "impl diesel::query_builder::QueryId for "@ + name),
{
    as_expressions_use_the_inner_sql_type(name, wrapped);
    let bound = "\nwhere\n    diesel::internal::derives::as_expression::Bound<ST, "@ + wrapped
        + ">:\n        diesel::expression::Expression<SqlType=ST>,\n"@;
    let l1 = "impl<ST> diesel::expression::AsExpression<ST> for "@ + name;
    let l2 = "impl<'expr, ST> diesel::expression::AsExpression<ST> for &'expr "@ + name;
    let l3 = "impl<'expr2, 'expr, ST> diesel::expression::AsExpression<ST> for &'expr2 &'expr "@ + name;
    let tail = "\nwhere\n    diesel::internal::derives::as_expression::Bound<ST, "@;
    let n1 = "impl<ST> diesel::expression::AsExpression<ST> for "@ + name + tail + wrapped
        + ">:\n        diesel::expression::Expression<SqlType=ST>,\n"@;
    let n2 = "impl<'expr, ST> diesel::expression::AsExpression<ST> for &'expr "@ + name + tail + wrapped
        + ">:\n        diesel::expression::Expression<SqlType=ST>,\n"@;
    let n3 = "impl<'expr2, 'expr, ST> diesel::expression::AsExpression<ST> for &'expr2 &'expr "@ + name + tail
        + wrapped + ">:\n        diesel::expression::Expression<SqlType=ST>,\n"@;
    lemma_contained_shorter(as_expressions_text(name, wrapped), n1, l1, bound);
    lemma_contained_shorter(as_expressions_text(name, wrapped), n2, l2, bound);
    lemma_contained_shorter(as_expressions_text(name, wrapped), n3, l3, bound);
    tosql_serializes_inner_field(name, wrapped);
    lemma_prefix_shorter(
        tosql_text(name, wrapped),
        "impl<ST, DB> diesel::serialize::ToSql<ST, DB> for "@ + name + "\nwhere\n    "@ + wrapped
            + ": diesel::serialize::ToSql<ST, DB>,\n"@,
        "impl<ST, DB> diesel::serialize::ToSql<ST, DB> for "@ + name,
        "\nwhere\n    "@ + wrapped + ": diesel::serialize::ToSql<ST, DB>,\n"@,
    );
    read_path_converts_exactly_with_try_from(name, wrapped, try_from);
    let from = match try_from {
        Some(t) => t,
        None => wrapped,
    };
    lemma_prefix_shorter(
        from_sql_text(name, wrapped, try_from),
        "impl<ST, DB> diesel::deserialize::FromSql<ST, DB> for "@ + name + "\nwhere\n    "@ + from
            + ": diesel::deserialize::FromSql<ST, DB>,\n"@,
        "impl<ST, DB> diesel::deserialize::FromSql<ST, DB> for "@ + name,
        "\nwhere\n    "@ + from + ": diesel::deserialize::FromSql<ST, DB>,\n"@,
    );
    lemma_prefix_shorter(
        queryable_text(name, wrapped, try_from),
        "impl<ST, DB> diesel::deserialize::Queryable<ST, DB> for "@ + name + "\nwhere\n    "@ + from
            + ": diesel::deserialize::FromStaticSqlRow<ST, DB>,\n"@,
        "impl<ST, DB> diesel::deserialize::Queryable<ST, DB> for "@ + name,
        "\nwhere\n    "@ + from + ": diesel::deserialize::FromStaticSqlRow<ST, DB>,\n"@,
    );
    let hi = "impl diesel::query_builder::QueryId for "@ + name;
    assert(query_id_text(name) =~= hi + (" {\n"@ + "    type QueryId = Self;\n"@ + "}\n"@));
    lemma_head_in(hi, " {\n"@ + "    type QueryId = Self;\n"@ + "}\n"@);
}

/// If `h + x` occurs in `c`, so does `h`.
proof fn lemma_contained_shorter(c: Seq<char>, n: Seq<char>, h: Seq<char>, x: Seq<char>)
    requires
        n =~= h + x,
        contains_text(c, n),
    ensures
        contains_text(c, h),
{
    let i = choose|i: int|
        0 <= i && i + n.len() <= c.len() && #[trigger] c.subrange(i, i + n.len()) == n;
    assert(c.subrange(i, i + h.len()) =~= n.subrange(0, h.len() as int));
    assert(n.subrange(0, h.len() as int) =~= h);
}

/// If `c` starts with `p`, a text equal to `h + x`, it contains `h`.
proof fn lemma_prefix_shorter(c: Seq<char>, p: Seq<char>, h: Seq<char>, x: Seq<char>)
    requires
        p =~= h + x,
        p.is_prefix_of(c),
    ensures
        contains_text(c, h),
{
    assert(c.subrange(0, 0 + h.len() as int) =~= h);
}

/// Every text occurs in itself.
proof fn lemma_self_in(c: Seq<char>)
    ensures
        contains_text(c, c),
{
    assert(c.subrange(0, 0 + c.len() as int) =~= c);
}

/// The derive's output holds each of its impls whole: the `ToSql` impl, the
/// `AsExpression` impls, and the `FromSql`, `Queryable` and `QueryId` impls
/// for the read type chosen by `try_from`.
pub proof fn expansion_contains_each_impl(name: Seq<char>, wrapped: Seq<char>, try_from: Option<Seq<char>>)
    ensures
        contains_text(expansion_text(name, wrapped, try_from), tosql_text(name, wrapped)),
        contains_text(expansion_text(name, wrapped, try_from), as_expressions_text(name, wrapped)),
        contains_text(expansion_text(name, wrapped, try_from), from_sql_text(name, wrapped, try_from)),
        contains_text(expansion_text(name, wrapped, try_from), queryable_text(name, wrapped, try_from)),
        contains_text(expansion_text(name, wrapped, try_from), query_id_text(name)),
{
    let open = "const _: () = {\n"@;
    let close = "};\n"@;
    let t = tosql_text(name, wrapped);
    let a = as_expressions_text(name, wrapped);
    let f = from_sql_text(name, wrapped, try_from);
    let q = queryable_text(name, wrapped, try_from);
    let i = query_id_text(name);
    assert(expansion_text(name, wrapped, try_from) =~= open + t + a + f + q + i + close);
    lemma_self_in(t);
    lemma_in_right(open, t, t);
    lemma_lift(open + t, a, f, q, i, close, t);
    lemma_self_in(a);
    lemma_in_right(open + t, a, a);
    lemma_lift(open + t + a, f, q, i, close, Seq::empty(), a);
    lemma_self_in(f);
    lemma_in_right(open + t + a, f, f);
    lemma_lift(open + t + a + f, q, i, close, Seq::empty(), Seq::empty(), f);
    lemma_self_in(q);
    lemma_in_right(open + t + a + f, q, q);
    lemma_lift(open + t + a + f + q, i, close, Seq::empty(), Seq::empty(), Seq::empty(), q);
    lemma_self_in(i);
    lemma_in_right(open + t + a + f + q, i, i);
    lemma_in_left(open + t + a + f + q + i, close, i);
}

} // verus!
