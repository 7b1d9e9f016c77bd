//! The `#[diesel_newtype(...)]` attribute: its grammar and what it selects.
//!
//! The argument list is a comma-separated list of entries, each an argument
//! name (a path) followed by what that argument takes.  The only argument is
//! `try_from`, either bare (`#[diesel_newtype(try_from)]`) or with a type
//! (`#[diesel_newtype(try_from = Type)]`).  The tokens of the type run up to
//! the first comma that is not inside angle brackets, and `syn` decides
//! whether they form one Rust type.
use vstd::prelude::*;
use crate::error::{DeriveError, DeriveErrorView, ErrorKind, ErrorKindView, ErrorSite, refusal};
use crate::input::{Attr, AttrMeta, AttrMetaView, AttrPath, AttrPathView, AttrView, attr_views};
use crate::syn_type::{check_type_text, syn_type_error};
use crate::tokens::{Tok, is_ident, is_ident_named, is_joint_punct, is_punct, tokens_text, tokens_text_of};

verus! {

/// How the derive builds the newtype when it reads a value from the database.
#[derive(Clone, Debug, PartialEq, Eq)]
pub enum TryFromAttr {
    /// No `try_from`: wrap the value read directly.
    Absent,
    /// Bare `try_from`: read the field type and convert with `try_into`.
    Bare,
    /// `try_from = Type`: read `Type` and convert with `try_into`; the
    /// string is the printed text of the type.
    InnerType(String),
}

/// [`TryFromAttr`] as a mathematical value.
pub ghost enum TryFromView {
    Absent,
    Bare,
    InnerType(Seq<char>),
}

impl View for TryFromAttr {
    type V = TryFromView;

    open spec fn view(&self) -> TryFromView {
        match self {
            TryFromAttr::Absent => TryFromView::Absent,
            TryFromAttr::Bare => TryFromView::Bare,
            TryFromAttr::InnerType(t) => TryFromView::InnerType(t@),
        }
    }
}

/// The site of tokens `start..end` of the argument list of attribute `a`.
pub open spec fn tokens_site(a: usize, start: int, end: int) -> ErrorSite {
    ErrorSite::Tokens { attr: a, start: start as usize, end: end as usize }
}

/// A `::` path separator starts at `i`.
pub open spec fn starts_with_path_sep(toks: Seq<Tok>, i: int) -> bool {
    &&& 0 <= i
    &&& i + 1 < toks.len()
    &&& is_joint_punct(toks[i], ':')
    &&& is_punct(toks[i + 1], ':')
}

/// `c` is an ASCII digit.
pub open spec fn is_digit(c: char) -> bool {
    '0' <= c && c <= '9'
}

/// A literal starts at `j`: a literal token, or `-` followed by a number.
pub open spec fn starts_with_literal(toks: Seq<Tok>, j: int) -> bool {
    ||| toks[j] is Literal
    ||| (is_punct(toks[j], '-') && j + 1 < toks.len() && (toks[j + 1] matches Tok::Literal(s)
        && s@.len() > 0 && is_digit(s@[0])))
}

/// Given that a path segment ends at `i`, where the path ends: it goes on
/// for as long as `::` and an identifier follow.
pub open spec fn path_rest(toks: Seq<Tok>, a: usize, i: int) -> Result<int, DeriveErrorView>
    decreases toks.len() - i,
{
    if starts_with_path_sep(toks, i) {
        if i + 2 >= toks.len() {
            Err(refusal(ErrorKindView::MissingIdent, ErrorSite::EndOfList(a)))
        } else if is_ident(toks[i + 2]) {
            path_rest(toks, a, i + 3)
        } else {
            Err(refusal(ErrorKindView::ExpectedIdent, tokens_site(a, i + 2, i + 3)))
        }
    } else {
        Ok(i)
    }
}

/// The argument name that starts at `i`: where its first identifier stands
/// (after an optional leading `::`) and where the path ends.
pub open spec fn meta_path(toks: Seq<Tok>, a: usize, i: int) -> Result<(int, int), DeriveErrorView> {
    let j = if starts_with_path_sep(toks, i) { i + 2 } else { i };
    if j >= toks.len() {
        Err(refusal(ErrorKindView::MissingNestedAttribute, ErrorSite::EndOfList(a)))
    } else if is_ident(toks[j]) {
        match path_rest(toks, a, j + 1) {
            Ok(e) => Ok((j, e)),
            Err(e) => Err(e),
        }
    } else if starts_with_literal(toks, j) {
        Err(refusal(ErrorKindView::LiteralInsteadOfKey, tokens_site(a, j, j + 1)))
    } else {
        Err(refusal(ErrorKindView::TokenInsteadOfKey, tokens_site(a, j, j + 1)))
    }
}

/// The argument name that starts at `i` and ends at `p` (first identifier at
/// `s`) is exactly `try_from`.
pub open spec fn is_try_from_key(toks: Seq<Tok>, i: int, s: int, p: int) -> bool {
    s == i && p == s + 1 && is_ident_named(toks[s], "try_from"@)
}

/// The `>` at `k` closes an angle bracket (it is not the head of `->`).
pub open spec fn closes_angle(toks: Seq<Tok>, k: int) -> bool {
    is_punct(toks[k], '>') && !(k > 0 && is_joint_punct(toks[k - 1], '-'))
}

/// Where a type that starts at `k` ends, `depth` angle brackets deep: at the
/// first comma outside angle brackets, or at the end of the list.
pub open spec fn type_end(toks: Seq<Tok>, k: int, depth: nat) -> int
    decreases toks.len() - k,
{
    if k >= toks.len() {
        toks.len() as int
    } else if is_punct(toks[k], ',') && depth == 0 {
        k
    } else if is_punct(toks[k], '<') {
        type_end(toks, k + 1, depth + 1)
    } else if closes_angle(toks, k) && depth > 0 {
        type_end(toks, k + 1, (depth - 1) as nat)
    } else {
        type_end(toks, k + 1, depth)
    }
}

/// A type that starts at `k <= len` ends between `k` and the end of the
/// list, and where it ends before the end, a comma stands.
pub proof fn lemma_type_end_bounds(toks: Seq<Tok>, k: int, depth: nat)
    requires
        0 <= k <= toks.len(),
    ensures
        k <= type_end(toks, k, depth) <= toks.len(),
        type_end(toks, k, depth) < toks.len() ==> is_punct(toks[type_end(toks, k, depth)], ','),
    decreases toks.len() - k,
{
    if k < toks.len() {
        if is_punct(toks[k], ',') && depth == 0 {
        } else if is_punct(toks[k], '<') {
            lemma_type_end_bounds(toks, k + 1, depth + 1);
        } else if closes_angle(toks, k) && depth > 0 {
            lemma_type_end_bounds(toks, k + 1, (depth - 1) as nat);
        } else {
            lemma_type_end_bounds(toks, k + 1, depth);
        }
    }
}

/// The entries of the argument list of attribute `a` from position `i` on,
/// with `acc` chosen by the entries before.
pub open spec fn parse_entries(toks: Seq<Tok>, a: usize, i: int, acc: TryFromView) -> Result<
    TryFromView,
    DeriveErrorView,
>
    decreases toks.len() - i,
{
    if i < 0 || i >= toks.len() {
        Ok(acc)
    } else {
        match meta_path(toks, a, i) {
            Err(e) => Err(e),
            Ok((s, p)) => {
                if !is_try_from_key(toks, i, s, p) {
                    Err(refusal(ErrorKindView::UnsupportedKey, tokens_site(a, s, p)))
                } else if !(acc is Absent) {
                    Err(refusal(ErrorKindView::DuplicateTryFrom, tokens_site(a, s, p)))
                } else if p >= toks.len() || is_punct(toks[p], ',') {
                    if p + 1 >= toks.len() {
                        Ok(TryFromView::Bare)
                    } else {
                        parse_entries(toks, a, p + 1, TryFromView::Bare)
                    }
                } else if !is_punct(toks[p], '=') {
                    Err(refusal(ErrorKindView::ExpectedEq, tokens_site(a, p, p + 1)))
                } else {
                    proof {
                        lemma_type_end_bounds(toks, p + 1, 0);
                    }
                    let e = type_end(toks, p + 1, 0);
                    let text = tokens_text(toks.subrange(p + 1, e));
                    match syn_type_error(text) {
                        Some(m) => Err(refusal(ErrorKindView::InvalidType(m), tokens_site(a, p, e))),
                        None => if e + 1 >= toks.len() {
                            Ok(TryFromView::InnerType(text))
                        } else {
                            parse_entries(toks, a, e + 1, TryFromView::InnerType(text))
                        },
                    }
                }
            },
        }
    }
}

/// The path of an attribute is exactly `diesel_newtype`.
pub open spec fn is_newtype_attr_path(p: AttrPathView) -> bool {
    &&& !p.leading_colon
    &&& p.segments.len() == 1
    &&& p.segments[0] == "diesel_newtype"@
}

/// What attribute `attr`, standing at index `a`, makes of the choice `acc`
/// made by the attributes before it.
pub open spec fn attr_step(attr: AttrView, a: usize, acc: TryFromView) -> Result<
    TryFromView,
    DeriveErrorView,
> {
    if !is_newtype_attr_path(attr.path) {
        Ok(acc)
    } else {
        match attr.meta {
            AttrMetaView::List(toks) => if toks.len() > 0 {
                parse_entries(toks, a, 0, acc)
            } else {
                Err(refusal(ErrorKindView::EmptyAttribute, ErrorSite::Attribute(a)))
            },
            _ => Err(refusal(ErrorKindView::EmptyAttribute, ErrorSite::Attribute(a))),
        }
    }
}

/// What the attributes of an item select, read in order.
pub open spec fn parse_attrs(attrs: Seq<AttrView>) -> Result<TryFromView, DeriveErrorView>
    decreases attrs.len(),
{
    if attrs.len() == 0 {
        Ok(TryFromView::Absent)
    } else {
        match parse_attrs(attrs.drop_last()) {
            Err(e) => Err(e),
            Ok(acc) => attr_step(attrs.last(), (attrs.len() - 1) as usize, acc),
        }
    }
}


/// Whether a `::` path separator starts at `i`.
fn path_sep_at(toks: &Vec<Tok>, i: usize) -> (r: bool)
    ensures
        r == starts_with_path_sep(toks@, i as int),
{
    i < toks.len() && toks.len() - i > 1 && toks[i].is_joint_punct_char(':') && toks[i + 1].is_punct_char(':')
}

/// Whether a literal starts at `j`.
fn literal_at(toks: &Vec<Tok>, j: usize) -> (r: bool)
    requires
        j < toks@.len(),
    ensures
        r == starts_with_literal(toks@, j as int),
{
    match &toks[j] {
        Tok::Literal(_) => true,
        Tok::Punct { ch, .. } => {
            if *ch == '-' && toks.len() - j > 1 {
                match &toks[j + 1] {
                    Tok::Literal(s) => {
                        if s.as_str().unicode_len() > 0 {
                            let c = s.as_str().get_char(0);
                            c >= '0' && c <= '9'
                        } else {
                            false
                        }
                    },
                    _ => false,
                }
            } else {
                false
            }
        },
        _ => false,
    }
}

/// Where the path whose first segment ends at `i` ends.
fn parse_path_rest(toks: &Vec<Tok>, a: usize, i: usize) -> (r: Result<usize, DeriveError>)
    requires
        i <= toks@.len(),
    ensures
        match r {
            Ok(e) => path_rest(toks@, a, i as int) == Ok::<int, DeriveErrorView>(e as int) && i <= e
                <= toks@.len(),
            Err(e) => path_rest(toks@, a, i as int) == Err::<int, DeriveErrorView>(e@),
        },
{
    let mut k = i;
    while path_sep_at(toks, k)
        invariant
            i <= k <= toks@.len(),
            path_rest(toks@, a, i as int) == path_rest(toks@, a, k as int),
        decreases toks@.len() - k,
    {
        if toks.len() - k <= 2 {
            return Err(DeriveError { kind: ErrorKind::MissingIdent, site: ErrorSite::EndOfList(a) });
        } else if toks[k + 2].is_ident_tok() {
            k = k + 3;
        } else {
            return Err(
                DeriveError {
                    kind: ErrorKind::ExpectedIdent,
                    site: ErrorSite::Tokens { attr: a, start: k + 2, end: k + 3 },
                },
            );
        }
    }
    Ok(k)
}

/// Reads the argument name that starts at `i`: where its first identifier
/// stands and where the path ends.
fn parse_meta_path(toks: &Vec<Tok>, a: usize, i: usize) -> (r: Result<(usize, usize), DeriveError>)
    requires
        i < toks@.len(),
    ensures
        match r {
            Ok((s, p)) => meta_path(toks@, a, i as int) == Ok::<(int, int), DeriveErrorView>(
                (s as int, p as int),
            ) && i <= s < p <= toks@.len(),
            Err(e) => meta_path(toks@, a, i as int) == Err::<(int, int), DeriveErrorView>(e@),
        },
{
    let n = toks.len();
    let j = if path_sep_at(toks, i) {
        i + 2
    } else {
        i
    };
    if j >= toks.len() {
        Err(DeriveError { kind: ErrorKind::MissingNestedAttribute, site: ErrorSite::EndOfList(a) })
    } else if toks[j].is_ident_tok() {
        match parse_path_rest(toks, a, j + 1) {
            Ok(e) => Ok((j, e)),
            Err(e) => Err(e),
        }
    } else if literal_at(toks, j) {
        Err(
            DeriveError {
                kind: ErrorKind::LiteralInsteadOfKey,
                site: ErrorSite::Tokens { attr: a, start: j, end: j + 1 },
            },
        )
    } else {
        Err(
            DeriveError {
                kind: ErrorKind::TokenInsteadOfKey,
                site: ErrorSite::Tokens { attr: a, start: j, end: j + 1 },
            },
        )
    }
}

/// Where the type that starts at `k` ends.
fn find_type_end(toks: &Vec<Tok>, k: usize) -> (r: usize)
    requires
        k <= toks@.len(),
    ensures
        r as int == type_end(toks@, k as int, 0),
{
    let mut j = k;
    let mut depth: usize = 0;
    while j < toks.len()
        invariant
            k <= j <= toks@.len(),
            depth <= j,
            type_end(toks@, k as int, 0) == type_end(toks@, j as int, depth as nat),
        decreases toks@.len() - j,
    {
        if toks[j].is_punct_char(',') && depth == 0 {
            return j;
        } else if toks[j].is_punct_char('<') {
            depth = depth + 1;
        } else if toks[j].is_punct_char('>') && !(j > 0 && toks[j - 1].is_joint_punct_char('-'))
            && depth > 0 {
            depth = depth - 1;
        }
        j = j + 1;
    }
    j
}

/// Reads the entries of the argument list `toks` of attribute `a`, with
/// `acc` chosen by the attributes before it.
pub fn parse_nested_entries(toks: &Vec<Tok>, a: usize, acc: TryFromAttr) -> (r: Result<
    TryFromAttr,
    DeriveError,
>)
    ensures
        match r {
            Ok(t) => parse_entries(toks@, a, 0, acc@) == Ok::<TryFromView, DeriveErrorView>(t@),
            Err(e) => parse_entries(toks@, a, 0, acc@) == Err::<TryFromView, DeriveErrorView>(e@),
        },
{
    if toks.len() == 0 {
        return Ok(acc);
    }
    let ghost start = acc@;
    let mut cur = acc;
    let mut i: usize = 0;
    loop
        invariant
            i < toks@.len(),
            start == acc@,
            parse_entries(toks@, a, 0, start) == parse_entries(toks@, a, i as int, cur@),
        decreases toks@.len() - i,
    {
        let (s, p) = match parse_meta_path(toks, a, i) {
            Ok(sp) => sp,
            Err(e) => return Err(e),
        };
        if !(s == i && p == s + 1 && toks[s].is_ident_named("try_from")) {
            return Err(
                DeriveError {
                    kind: ErrorKind::UnsupportedKey,
                    site: ErrorSite::Tokens { attr: a, start: s, end: p },
                },
            );
        }
        match cur {
            TryFromAttr::Absent => {},
            _ => {
                return Err(
                    DeriveError {
                        kind: ErrorKind::DuplicateTryFrom,
                        site: ErrorSite::Tokens { attr: a, start: s, end: p },
                    },
                );
            },
        }
        let next;
        if p >= toks.len() || toks[p].is_punct_char(',') {
            cur = TryFromAttr::Bare;
            next = p;
        } else if !toks[p].is_punct_char('=') {
            return Err(
                DeriveError {
                    kind: ErrorKind::ExpectedEq,
                    site: ErrorSite::Tokens { attr: a, start: p, end: p + 1 },
                },
            );
        } else {
            let e = find_type_end(toks, p + 1);
            proof {
                lemma_type_end_bounds(toks@, p + 1, 0);
            }
            let text = tokens_text_of(toks, p + 1, e);
            match check_type_text(text.as_str()) {
                Some(m) => {
                    return Err(
                        DeriveError {
                            kind: ErrorKind::InvalidType(m),
                            site: ErrorSite::Tokens { attr: a, start: p, end: e },
                        },
                    );
                },
                None => {},
            }
            cur = TryFromAttr::InnerType(text);
            next = e;
        }
        if next >= toks.len() || toks.len() - next == 1 {
            return Ok(cur);
        }
        i = next + 1;
    }
}

/// Whether an attribute path is exactly `diesel_newtype`.
fn is_newtype_path(p: &AttrPath) -> (r: bool)
    ensures
        r == is_newtype_attr_path(p@),
{
    !p.leading_colon && p.segments.len() == 1 && crate::tokens::text_is(&p.segments[0], "diesel_newtype")
}

/// Once the attributes up to some point are refused, the whole list is
/// refused with the same error.
proof fn lemma_refusal_persists(attrs: Seq<AttrView>, k: int)
    requires
        0 <= k <= attrs.len(),
        parse_attrs(attrs.take(k)) is Err,
    ensures
        parse_attrs(attrs) == parse_attrs(attrs.take(k)),
    decreases attrs.len() - k,
{
    if k < attrs.len() {
        assert(attrs.take(k + 1).drop_last() =~= attrs.take(k));
        lemma_refusal_persists(attrs, k + 1);
    } else {
        assert(attrs.take(k) =~= attrs);
    }
}

/// Reads the `#[diesel_newtype(...)]` attributes of an item, in order, and
/// returns how the newtype is to be built from a database value.
///
/// Attributes with another path are ignored.  A `diesel_newtype` attribute
/// without arguments, an argument other than `try_from`, a second
/// `try_from` (in the same attribute or another), and tokens after
/// `try_from =` that are not one type are refused.
pub fn parse_try_from(attrs: &Vec<Attr>) -> (r: Result<TryFromAttr, DeriveError>)
    ensures
        match r {
            Ok(t) => parse_attrs(attr_views(attrs@)) == Ok::<TryFromView, DeriveErrorView>(t@),
            Err(e) => parse_attrs(attr_views(attrs@)) == Err::<TryFromView, DeriveErrorView>(e@),
        },
{
    let ghost views = attr_views(attrs@);
    let mut acc = TryFromAttr::Absent;
    let mut k: usize = 0;
    assert(views.take(0).len() == 0);
    while k < attrs.len()
        invariant
            k <= attrs@.len(),
            views == attr_views(attrs@),
            parse_attrs(views.take(k as int)) == Ok::<TryFromView, DeriveErrorView>(acc@),
        decreases attrs@.len() - k,
    {
        let attr = &attrs[k];
        assert(views.take(k + 1).drop_last() =~= views.take(k as int));
        assert(views.take(k + 1).last() == attrs@[k as int]@);
        if is_newtype_path(&attr.path) {
            let step = match &attr.meta {
                AttrMeta::List(toks) => {
                    if toks.len() > 0 {
                        parse_nested_entries(toks, k, acc)
                    } else {
                        Err(DeriveError { kind: ErrorKind::EmptyAttribute, site: ErrorSite::Attribute(k) })
                    }
                },
                _ => Err(DeriveError { kind: ErrorKind::EmptyAttribute, site: ErrorSite::Attribute(k) }),
            };
            match step {
                Ok(t) => {
                    acc = t;
                },
                Err(e) => {
                    proof {
                        lemma_refusal_persists(views, k + 1);
                    }
                    return Err(e);
                },
            }
        }
        k = k + 1;
    }
    assert(views.take(k as int) =~= views);
    Ok(acc)
}

/// Attributes with another path than `diesel_newtype` change nothing: adding
/// one after any attribute list leaves the outcome as it was.
pub proof fn foreign_attribute_is_ignored(attrs: Seq<AttrView>, other: AttrView)
    requires
        !is_newtype_attr_path(other.path),
    ensures
        parse_attrs(attrs.push(other)) == parse_attrs(attrs),
{
    assert(attrs.push(other).drop_last() =~= attrs);
}

/// A `diesel_newtype` attribute with no arguments (`#[diesel_newtype]`,
/// `#[diesel_newtype()]`, `#[diesel_newtype = ..]`) is refused, pointing at
/// the attribute, whenever the attributes before it are accepted.
pub proof fn empty_attribute_is_refused(attrs: Seq<AttrView>, empty: AttrView)
    requires
        is_newtype_attr_path(empty.path),
        match empty.meta {
            AttrMetaView::List(toks) => toks.len() == 0,
            _ => true,
        },
        parse_attrs(attrs) is Ok,
    ensures
        parse_attrs(attrs.push(empty)) == Err::<TryFromView, DeriveErrorView>(
            refusal(ErrorKindView::EmptyAttribute, ErrorSite::Attribute(attrs.len() as usize)),
        ),
{
    assert(attrs.push(empty).drop_last() =~= attrs);
}

/// Once `try_from` is chosen, any further entry of an argument list is
/// refused: another `try_from` as a duplicate, anything else as unsupported.
pub proof fn entry_after_choice_is_refused(toks: Seq<Tok>, a: usize, i: int, acc: TryFromView)
    requires
        0 <= i < toks.len(),
        !(acc is Absent),
    ensures
        parse_entries(toks, a, i, acc) is Err,
{
}

/// `try_from` is given at most once over all the attributes of an item:
/// once the attributes read so far have chosen it, a further
/// `diesel_newtype` attribute is refused.
pub proof fn try_from_is_given_at_most_once(attrs: Seq<AttrView>, next: AttrView)
    requires
        parse_attrs(attrs) matches Ok(t) && !(t is Absent),
        is_newtype_attr_path(next.path),
    ensures
        parse_attrs(attrs.push(next)) is Err,
{
    assert(attrs.push(next).drop_last() =~= attrs);
    let t = parse_attrs(attrs)->Ok_0;
    match next.meta {
        AttrMetaView::List(toks) => {
            if toks.len() > 0 {
                entry_after_choice_is_refused(toks, attrs.len() as usize, 0, t);
            }
        },
        _ => {},
    }
}

/// An argument list read from position `i` on only ever selects a type that
/// `syn` accepts as one Rust type.
pub proof fn entries_select_only_types(toks: Seq<Tok>, a: usize, i: int, acc: TryFromView)
    requires
        acc matches TryFromView::InnerType(t0) ==> syn_type_error(t0) is None,
    ensures
        parse_entries(toks, a, i, acc) matches Ok(TryFromView::InnerType(t)) ==> syn_type_error(t) is None,
    decreases toks.len() - i,
{
    if 0 <= i < toks.len() {
        if let Ok((s, p)) = meta_path(toks, a, i) {
            if is_try_from_key(toks, i, s, p) && acc is Absent {
                if p >= toks.len() || is_punct(toks[p], ',') {
                    if p + 1 < toks.len() {
                        entries_select_only_types(toks, a, p + 1, TryFromView::Bare);
                    }
                } else if is_punct(toks[p], '=') {
                    lemma_type_end_bounds(toks, p + 1, 0);
                    let e = type_end(toks, p + 1, 0);
                    let text = tokens_text(toks.subrange(p + 1, e));
                    if syn_type_error(text) is None && e + 1 < toks.len() {
                        entries_select_only_types(toks, a, e + 1, TryFromView::InnerType(text));
                    }
                }
            }
        }
    }
}

/// `try_from = Type` is accepted only when `syn` accepts `Type` as one Rust
/// type: whatever type the attributes of an item select, `syn` accepts it.
pub proof fn selected_type_is_a_type(attrs: Seq<AttrView>)
    ensures
        parse_attrs(attrs) matches Ok(TryFromView::InnerType(t)) ==> syn_type_error(t) is None,
    decreases attrs.len(),
{
    if attrs.len() > 0 {
        selected_type_is_a_type(attrs.drop_last());
        if let Ok(acc) = parse_attrs(attrs.drop_last()) {
            let last = attrs.last();
            if is_newtype_attr_path(last.path) {
                if let AttrMetaView::List(toks) = last.meta {
                    entries_select_only_types(toks, (attrs.len() - 1) as usize, 0, acc);
                }
            }
        }
    }
}

/// `e`, pointed at attribute `b` instead of the attribute it points at.
pub open spec fn at_attr(e: DeriveErrorView, b: usize) -> DeriveErrorView {
    DeriveErrorView {
        kind: e.kind,
        site: match e.site {
            ErrorSite::Attribute(_) => ErrorSite::Attribute(b),
            ErrorSite::Tokens { start, end, .. } => ErrorSite::Tokens { attr: b, start, end },
            ErrorSite::EndOfList(_) => ErrorSite::EndOfList(b),
            other => other,
        },
    }
}

/// The site points into the argument list of attribute `a`, which has `n`
/// tokens, and a token range lies within it.
pub open spec fn site_in_list(site: ErrorSite, a: usize, n: int) -> bool {
    match site {
        ErrorSite::Tokens { attr, start, end } => attr == a && start <= end <= n,
        ErrorSite::EndOfList(x) => x == a,
        _ => false,
    }
}

/// Reading a path segment list for attribute `b` instead of `a` gives the
/// same path end, or the same refusal pointed at `b`; a refusal lies within
/// the list.
proof fn lemma_path_rest_site(toks: Seq<Tok>, a: usize, b: usize, i: int)
    requires
        0 <= i,
        toks.len() <= usize::MAX,
    ensures
        match path_rest(toks, a, i) {
            Ok(e) => path_rest(toks, b, i) == Ok::<int, DeriveErrorView>(e) && i <= e,
            Err(e) => path_rest(toks, b, i) == Err::<int, DeriveErrorView>(at_attr(e, b))
                && site_in_list(e.site, a, toks.len() as int),
        },
    decreases toks.len() - i,
{
    if starts_with_path_sep(toks, i) && i + 2 < toks.len() && is_ident(toks[i + 2]) {
        lemma_path_rest_site(toks, a, b, i + 3);
    }
}

/// Reading an argument name for attribute `b` instead of `a` gives the same
/// name, or the same refusal pointed at `b`; a refusal lies within the list.
proof fn lemma_meta_path_site(toks: Seq<Tok>, a: usize, b: usize, i: int)
    requires
        0 <= i < toks.len(),
        toks.len() <= usize::MAX,
    ensures
        match meta_path(toks, a, i) {
            Ok((s, p)) => meta_path(toks, b, i) == Ok::<(int, int), DeriveErrorView>((s, p)) && i
                <= s < p <= toks.len(),
            Err(e) => meta_path(toks, b, i) == Err::<(int, int), DeriveErrorView>(at_attr(e, b))
                && site_in_list(e.site, a, toks.len() as int),
        },
{
    let j = if starts_with_path_sep(toks, i) { i + 2 } else { i };
    if j < toks.len() && is_ident(toks[j]) {
        lemma_path_rest_site(toks, a, b, j + 1);
        lemma_path_rest_bound(toks, a, j + 1);
    }
}

/// A path ends within the list.
proof fn lemma_path_rest_bound(toks: Seq<Tok>, a: usize, i: int)
    requires
        0 <= i <= toks.len(),
    ensures
        path_rest(toks, a, i) matches Ok(e) ==> i <= e <= toks.len(),
    decreases toks.len() - i,
{
    if starts_with_path_sep(toks, i) && i + 2 < toks.len() && is_ident(toks[i + 2]) {
        lemma_path_rest_bound(toks, a, i + 3);
    }
}

/// The entries of an argument list read for attribute `b` instead of `a`
/// select the same, or are refused for the same reason pointed at `b`; a
/// refusal lies within the list.
pub proof fn entries_refusal_site(toks: Seq<Tok>, a: usize, b: usize, i: int, acc: TryFromView)
    requires
        0 <= i,
        toks.len() <= usize::MAX,
    ensures
        match parse_entries(toks, a, i, acc) {
            Ok(t) => parse_entries(toks, b, i, acc) == Ok::<TryFromView, DeriveErrorView>(t),
            Err(e) => parse_entries(toks, b, i, acc) == Err::<TryFromView, DeriveErrorView>(
                at_attr(e, b),
            ) && site_in_list(e.site, a, toks.len() as int),
        },
    decreases toks.len() - i,
{
    if i < toks.len() {
        lemma_meta_path_site(toks, a, b, i);
        if let Ok((s, p)) = meta_path(toks, a, i) {
            if is_try_from_key(toks, i, s, p) && acc is Absent {
                if p >= toks.len() || is_punct(toks[p], ',') {
                    if p + 1 < toks.len() {
                        entries_refusal_site(toks, a, b, p + 1, TryFromView::Bare);
                    }
                } else if is_punct(toks[p], '=') {
                    lemma_type_end_bounds(toks, p + 1, 0);
                    let e = type_end(toks, p + 1, 0);
                    let text = tokens_text(toks.subrange(p + 1, e));
                    if syn_type_error(text) is None && e + 1 < toks.len() {
                        entries_refusal_site(toks, a, b, e + 1, TryFromView::InnerType(text));
                    }
                }
            }
        }
    }
}

/// The argument lists of the attributes have at most `usize::MAX` tokens.
pub open spec fn lists_fit(attrs: Seq<AttrView>) -> bool {
    forall|i: int| 0 <= i < attrs.len() ==> (#[trigger] attrs[i].meta matches AttrMetaView::List(t)
        ==> t.len() <= usize::MAX)
}

/// The site points at an attribute of `attrs`, and a token range lies
/// within that attribute's argument list.
pub open spec fn site_fits(attrs: Seq<AttrView>, site: ErrorSite) -> bool {
    match site {
        ErrorSite::Attribute(i) => i < attrs.len(),
        ErrorSite::EndOfList(i) => i < attrs.len() && attrs[i as int].meta is List,
        ErrorSite::Tokens { attr, start, end } => attr < attrs.len() && (
        attrs[attr as int].meta matches AttrMetaView::List(t) && start <= end <= t.len()),
        _ => false,
    }
}

/// Every refusal of the attributes points at one of them, and a token range
/// lies within that attribute's argument list (`start <= end <= length`).
pub proof fn refusal_sites_fit(attrs: Seq<AttrView>)
    requires
        attrs.len() <= usize::MAX,
        lists_fit(attrs),
    ensures
        parse_attrs(attrs) matches Err(e) ==> site_fits(attrs, e.site),
    decreases attrs.len(),
{
    if attrs.len() > 0 {
        let prev = attrs.drop_last();
        assert(lists_fit(prev)) by {
            assert forall|i: int| 0 <= i < prev.len() implies (#[trigger] prev[i].meta matches AttrMetaView::List(t)
                ==> t.len() <= usize::MAX) by {
                assert(prev[i] == attrs[i]);
            }
        }
        refusal_sites_fit(prev);
        match parse_attrs(prev) {
            Err(e) => {
                assert(site_fits(prev, e.site) ==> site_fits(attrs, e.site));
            },
            Ok(acc) => {
                let a = (attrs.len() - 1) as usize;
                let last = attrs.last();
                if is_newtype_attr_path(last.path) {
                    if let AttrMetaView::List(toks) = last.meta {
                        assert(attrs[a as int].meta matches AttrMetaView::List(t) ==> t.len() <= usize::MAX);
                        entries_refusal_site(toks, a, a, 0, acc);
                    }
                }
            },
        }
    }
}

/// `e`, with every attribute index from `k` on moved up by one.
pub open spec fn shift_from(e: DeriveErrorView, k: int) -> DeriveErrorView {
    DeriveErrorView {
        kind: e.kind,
        site: match e.site {
            ErrorSite::Attribute(i) => ErrorSite::Attribute(if i >= k { (i + 1) as usize } else { i }),
            ErrorSite::Tokens { attr, start, end } => ErrorSite::Tokens {
                attr: if attr >= k { (attr + 1) as usize } else { attr },
                start,
                end,
            },
            ErrorSite::EndOfList(i) => ErrorSite::EndOfList(if i >= k { (i + 1) as usize } else { i }),
            other => other,
        },
    }
}

/// The outcome of reading attributes once an attribute is inserted at `k`:
/// the same choice, or the same refusal of the same attribute, which now
/// stands one place later if it stood at `k` or after.
pub open spec fn shifted(r: Result<TryFromView, DeriveErrorView>, k: int) -> Result<TryFromView, DeriveErrorView> {
    match r {
        Ok(t) => Ok(t),
        Err(e) => Err(shift_from(e, k)),
    }
}

/// Attributes with another path than `diesel_newtype` change nothing
/// wherever they stand: inserting one at any position gives the same choice,
/// or the same refusal of the same attribute (whose index moves with the
/// insertion).
pub proof fn foreign_attribute_anywhere_is_ignored(attrs: Seq<AttrView>, k: int, other: AttrView)
    requires
        0 <= k <= attrs.len(),
        attrs.len() < usize::MAX,
        lists_fit(attrs),
        !is_newtype_attr_path(other.path),
    ensures
        parse_attrs(attrs.insert(k, other)) == shifted(parse_attrs(attrs), k),
    decreases attrs.len(),
{
    let n = attrs.len();
    if k == n {
        assert(attrs.insert(k, other) =~= attrs.push(other));
        foreign_attribute_is_ignored(attrs, other);
        refusal_sites_fit(attrs);
    } else {
        let prev = attrs.drop_last();
        assert(lists_fit(prev)) by {
            assert forall|i: int| 0 <= i < prev.len() implies (#[trigger] prev[i].meta matches AttrMetaView::List(t)
                ==> t.len() <= usize::MAX) by {
                assert(prev[i] == attrs[i]);
            }
        }
        foreign_attribute_anywhere_is_ignored(prev, k, other);
        let ins = attrs.insert(k, other);
        assert(ins.drop_last() =~= prev.insert(k, other));
        assert(ins.last() == attrs.last());
        let a = (n - 1) as usize;
        match parse_attrs(prev) {
            Err(e) => {},
            Ok(acc) => {
                let last = attrs.last();
                if is_newtype_attr_path(last.path) {
                    if let AttrMetaView::List(toks) = last.meta {
                        assert(attrs[a as int].meta matches AttrMetaView::List(t) ==> t.len() <= usize::MAX);
                        entries_refusal_site(toks, a, (a + 1) as usize, 0, acc);
                    }
                }
            },
        }
    }
}

/// With no `diesel_newtype` attribute the value read is wrapped directly.
pub proof fn no_newtype_attribute_selects_absent(attrs: Seq<AttrView>)
    requires
        forall|i: int| 0 <= i < attrs.len() ==> !is_newtype_attr_path(#[trigger] attrs[i].path),
    ensures
        parse_attrs(attrs) == Ok::<TryFromView, DeriveErrorView>(TryFromView::Absent),
    decreases attrs.len(),
{
    if attrs.len() > 0 {
        let prev = attrs.drop_last();
        assert forall|i: int| 0 <= i < prev.len() implies !is_newtype_attr_path(#[trigger] prev[i].path) by {
            assert(prev[i] == attrs[i]);
        }
        no_newtype_attribute_selects_absent(prev);
        assert(!is_newtype_attr_path(attrs[attrs.len() - 1].path));
    }
}

/// `#[diesel_newtype(try_from)]` (with or without a trailing comma) selects
/// the bare form.
pub proof fn bare_try_from_selects_bare(toks: Seq<Tok>, a: usize)
    requires
        is_ident_named(toks[0], "try_from"@),
        toks.len() == 1 || (toks.len() == 2 && is_punct(toks[1], ',')),
    ensures
        parse_entries(toks, a, 0, TryFromView::Absent) == Ok::<TryFromView, DeriveErrorView>(
            TryFromView::Bare,
        ),
{
    assert(!starts_with_path_sep(toks, 0));
    assert(!starts_with_path_sep(toks, 1));
    assert(path_rest(toks, a, 1) == Ok::<int, DeriveErrorView>(1));
}

/// `#[diesel_newtype(try_from = U)]` (with or without a trailing comma),
/// where `U` has no comma outside angle brackets and `syn` accepts it as one
/// type, selects `U`, as printed.
pub proof fn typed_try_from_selects_type(toks: Seq<Tok>, a: usize)
    requires
        toks.len() >= 2,
        is_ident_named(toks[0], "try_from"@),
        is_punct(toks[1], '='),
        type_end(toks, 2, 0) >= toks.len() - 1,
        syn_type_error(tokens_text(toks.subrange(2, type_end(toks, 2, 0)))) is None,
    ensures
        parse_entries(toks, a, 0, TryFromView::Absent) == Ok::<TryFromView, DeriveErrorView>(
            TryFromView::InnerType(tokens_text(toks.subrange(2, type_end(toks, 2, 0)))),
        ),
{
    assert(!starts_with_path_sep(toks, 0));
    assert(!starts_with_path_sep(toks, 1));
    assert(path_rest(toks, a, 1) == Ok::<int, DeriveErrorView>(1));
    lemma_type_end_bounds(toks, 2, 0);
}

/// When one attribute is `diesel_newtype` with a non-empty argument list
/// and every other attribute has another path, that argument list alone
/// decides, read as the list of that attribute.
pub proof fn single_newtype_attribute_decides(attrs: Seq<AttrView>, k: int, toks: Seq<Tok>)
    requires
        0 <= k < attrs.len(),
        attrs.len() <= usize::MAX,
        is_newtype_attr_path(attrs[k].path),
        attrs[k].meta == AttrMetaView::List(toks),
        toks.len() > 0,
        forall|i: int| 0 <= i < attrs.len() && i != k ==> !is_newtype_attr_path(#[trigger] attrs[i].path),
    ensures
        parse_attrs(attrs) == parse_entries(toks, k as usize, 0, TryFromView::Absent),
    decreases attrs.len(),
{
    let prev = attrs.drop_last();
    if k == attrs.len() - 1 {
        assert forall|i: int| 0 <= i < prev.len() implies !is_newtype_attr_path(#[trigger] prev[i].path) by {
            assert(prev[i] == attrs[i]);
        }
        no_newtype_attribute_selects_absent(prev);
    } else {
        assert(prev[k] == attrs[k]);
        assert forall|i: int| 0 <= i < prev.len() && i != k implies !is_newtype_attr_path(#[trigger] prev[i].path) by {
            assert(prev[i] == attrs[i]);
        }
        single_newtype_attribute_decides(prev, k, toks);
        assert(!is_newtype_attr_path(attrs[attrs.len() - 1].path));
    }
}

} // verus!
