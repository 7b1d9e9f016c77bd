//! A plain model of the token trees that an attribute carries.
use vstd::prelude::*;

verus! {

/// One token tree, as the derive reads it.
///
/// A group (anything in `()`, `[]`, `{}` or an invisible group) is kept whole:
/// the attribute grammar never looks inside one.
#[derive(Clone, Debug, PartialEq, Eq)]
pub enum Tok {
    /// An identifier or keyword, as it is written (`try_from`, `r#type`).
    Ident(String),
    /// A punctuation character; `joint` is set when the next character
    /// belongs to the same operator (the first `:` of `::`).
    Punct { ch: char, joint: bool },
    /// A literal, as it is written (`1`, `"x"`).
    Literal(String),
    /// A delimited group, as it is printed with its delimiters.
    Group(String),
}

/// `String::push` appends one character to the end of the string, as its
/// documentation states; this is all that is claimed of it.
pub assume_specification[ String::push ](s: &mut String, ch: char)
    ensures
        final(s)@ == old(s)@.push(ch),
;

/// The text of one token.
pub open spec fn tok_text(t: Tok) -> Seq<char> {
    match t {
        Tok::Ident(s) => s@,
        Tok::Punct { ch, .. } => seq![ch],
        Tok::Literal(s) => s@,
        Tok::Group(s) => s@,
    }
}

/// What separates a token from the next one in printed text: nothing after a
/// joint punctuation character, one space otherwise.
pub open spec fn sep_after(t: Tok) -> Seq<char> {
    match t {
        Tok::Punct { joint, .. } => if joint { Seq::empty() } else { seq![' '] },
        _ => seq![' '],
    }
}

/// The printed text of a token sequence.
pub open spec fn tokens_text(s: Seq<Tok>) -> Seq<char>
    decreases s.len(),
{
    if s.len() == 0 {
        Seq::empty()
    } else if s.len() == 1 {
        tok_text(s[0])
    } else {
        tokens_text(s.drop_last()) + sep_after(s[s.len() - 2]) + tok_text(s.last())
    }
}

/// `t` is the punctuation character `c`, whatever its spacing.
pub open spec fn is_punct(t: Tok, c: char) -> bool {
    t matches Tok::Punct { ch, .. } && ch == c
}

/// `t` is the punctuation character `c` joined to the next one.
pub open spec fn is_joint_punct(t: Tok, c: char) -> bool {
    t matches Tok::Punct { ch, joint } && ch == c && joint
}

/// `t` is an identifier (keywords included).
pub open spec fn is_ident(t: Tok) -> bool {
    t is Ident
}

/// `t` is the identifier spelled `name`.
pub open spec fn is_ident_named(t: Tok, name: Seq<char>) -> bool {
    t matches Tok::Ident(s) && s@ == name
}

/// Whether `s` spells exactly `lit`.
pub fn text_is(s: &String, lit: &str) -> (r: bool)
    ensures
        r == (s@ == lit@),
{
    let owned: String = lit.to_owned();
    *s == owned
}

impl Tok {
    /// Whether this token is the punctuation character `c`.
    pub fn is_punct_char(&self, c: char) -> (r: bool)
        ensures
            r == is_punct(*self, c),
    {
        match self {
            Tok::Punct { ch, .. } => *ch == c,
            _ => false,
        }
    }

    /// Whether this token is `c` joined to the next punctuation character.
    pub fn is_joint_punct_char(&self, c: char) -> (r: bool)
        ensures
            r == is_joint_punct(*self, c),
    {
        match self {
            Tok::Punct { ch, joint } => *ch == c && *joint,
            _ => false,
        }
    }

    /// Whether this token is an identifier.
    pub fn is_ident_tok(&self) -> (r: bool)
        ensures
            r == is_ident(*self),
    {
        match self {
            Tok::Ident(_) => true,
            _ => false,
        }
    }

    /// Whether this token is the identifier spelled `name`.
    pub fn is_ident_named(&self, name: &str) -> (r: bool)
        ensures
            r == is_ident_named(*self, name@),
    {
        match self {
            Tok::Ident(s) => text_is(s, name),
            _ => false,
        }
    }

    /// Appends the text of this token to `out`.
    pub fn push_text(&self, out: &mut String)
        ensures
            final(out)@ == old(out)@ + tok_text(*self),
    {
        match self {
            Tok::Ident(s) => out.append(s.as_str()),
            Tok::Punct { ch, .. } => {
                out.push(*ch);
                assert(old(out)@.push(*ch) =~= old(out)@ + seq![*ch]);
            },
            Tok::Literal(s) => out.append(s.as_str()),
            Tok::Group(s) => out.append(s.as_str()),
        }
    }
}

/// Prints `toks[start..end]` as text, the way a token stream prints itself.
pub fn tokens_text_of(toks: &Vec<Tok>, start: usize, end: usize) -> (r: String)
    requires
        start <= end <= toks@.len(),
    ensures
        r@ == tokens_text(toks@.subrange(start as int, end as int)),
{
    let mut out = String::new();
    if start == end {
        assert(toks@.subrange(start as int, end as int).len() == 0);
        return out;
    }
    toks[start].push_text(&mut out);
    assert(toks@.subrange(start as int, start + 1) =~= seq![toks@[start as int]]);
    let mut k = start + 1;
    while k < end
        invariant
            start < k <= end <= toks@.len(),
            out@ == tokens_text(toks@.subrange(start as int, k as int)),
        decreases end - k,
    {
        let ghost before = toks@.subrange(start as int, k as int);
        let ghost after = toks@.subrange(start as int, k + 1);
        assert(after.drop_last() =~= before);
        assert(after[after.len() - 2] == toks@[k - 1]);
        match &toks[k - 1] {
            Tok::Punct { joint, .. } => {
                if !*joint {
                    out.push(' ');
                }
            },
            _ => {
                out.push(' ');
            },
        }
        toks[k].push_text(&mut out);
        assert(out@ =~= tokens_text(after));
        k = k + 1;
    }
    out
}

} // verus!
