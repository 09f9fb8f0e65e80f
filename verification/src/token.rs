//! Tokens, as the arguments of an attribute are made of them, and their
//! rendering as source text.

use vstd::prelude::*;
use vstd::string::*;

verus! {

/// `str`'s `==`: two string slices are equal exactly when they hold the same
/// characters in the same order.
pub assume_specification[ <str as PartialEq>::eq ](a: &str, b: &str) -> (r: bool)
    ensures
        r == (a@ == b@),
;

/// `String::push`: appends one character at the end.
pub assume_specification[ String::push ](s: &mut String, c: char)
    ensures
        final(s)@ == old(s)@.push(c),
;

/// Whether `a` and `b` are the same text.
pub fn same(a: &str, b: &str) -> (r: bool)
    ensures
        r == (a@ == b@),
{
    *a == *b
}

/// The brackets around a group of tokens.
#[derive(Clone, Copy, Debug, PartialEq, Eq, Structural)]
pub enum Delimiter {
    Parenthesis,
    Brace,
    Bracket,
    /// A group without written brackets.
    Invisible,
}

/// One token. A group is kept whole: its content is the source text between
/// its brackets.
#[derive(Debug)]
pub enum Token {
    Ident(String),
    /// A punctuation character; `joint` when the next token follows it
    /// without a space and forms one operator with it.
    Punct { symbol: char, joint: bool },
    Literal(String),
    Group { delimiter: Delimiter, content: String },
}

/// The mathematical content of a [`Token`].
pub ghost enum TokenView {
    Ident(Seq<char>),
    Punct { symbol: char, joint: bool },
    Literal(Seq<char>),
    Group { delimiter: Delimiter, content: Seq<char> },
}

impl View for Token {
    type V = TokenView;

    open spec fn view(&self) -> TokenView {
        match self {
            Token::Ident(name) => TokenView::Ident(name@),
            Token::Punct { symbol, joint } => TokenView::Punct { symbol: *symbol, joint: *joint },
            Token::Literal(text) => TokenView::Literal(text@),
            Token::Group { delimiter, content } => TokenView::Group {
                delimiter: *delimiter,
                content: content@,
            },
        }
    }
}

impl DeepView for Token {
    type V = TokenView;

    open spec fn deep_view(&self) -> TokenView {
        self@
    }
}

/// The opening bracket of `d`.
pub open spec fn opening(d: Delimiter) -> Seq<char> {
    match d {
        Delimiter::Parenthesis => "("@,
        Delimiter::Brace => "{"@,
        Delimiter::Bracket => "["@,
        Delimiter::Invisible => ""@,
    }
}

/// The closing bracket of `d`.
pub open spec fn closing(d: Delimiter) -> Seq<char> {
    match d {
        Delimiter::Parenthesis => ")"@,
        Delimiter::Brace => "}"@,
        Delimiter::Bracket => "]"@,
        Delimiter::Invisible => ""@,
    }
}

/// `content` between the brackets of `d`.
pub open spec fn bracketed(d: Delimiter, content: Seq<char>) -> Seq<char> {
    opening(d) + content + closing(d)
}

/// The source text of one token.
pub open spec fn token_text(t: TokenView) -> Seq<char> {
    match t {
        TokenView::Ident(name) => name,
        TokenView::Punct { symbol, joint } => seq![symbol],
        TokenView::Literal(text) => text,
        TokenView::Group { delimiter, content } => bracketed(delimiter, content),
    }
}

/// Whether a space is written after `t`: after every token but a joint
/// punctuation character.
pub open spec fn spaced(t: TokenView) -> bool {
    !(t matches TokenView::Punct { joint, .. } && joint)
}

/// The source text of `tokens[from..to]`: each token's text, followed by a
/// space unless the token is joint with the next.
pub open spec fn tokens_text(tokens: Seq<TokenView>, from: int, to: int) -> Seq<char>
    decreases to - from,
{
    if to <= from {
        Seq::empty()
    } else {
        tokens_text(tokens, from, to - 1) + token_text(tokens[to - 1]) + (if spaced(
            tokens[to - 1],
        ) {
            " "@
        } else {
            ""@
        })
    }
}

impl Delimiter {
    /// The opening bracket.
    pub fn opening(&self) -> (s: &'static str)
        ensures
            s@ == opening(*self),
    {
        match self {
            Delimiter::Parenthesis => "(",
            Delimiter::Brace => "{",
            Delimiter::Bracket => "[",
            Delimiter::Invisible => "",
        }
    }

    /// The closing bracket.
    pub fn closing(&self) -> (s: &'static str)
        ensures
            s@ == closing(*self),
    {
        match self {
            Delimiter::Parenthesis => ")",
            Delimiter::Brace => "}",
            Delimiter::Bracket => "]",
            Delimiter::Invisible => "",
        }
    }
}

impl Token {
    /// Appends the token's source text to `out`.
    pub fn write(&self, out: &mut String)
        ensures
            final(out)@ == old(out)@ + token_text(self@),
    {
        match self {
            Token::Ident(name) => out.append(name.as_str()),
            Token::Punct { symbol, joint } => {
                out.push(*symbol);
                assert(out@ =~= old(out)@ + token_text(self@));
            },
            Token::Literal(text) => out.append(text.as_str()),
            Token::Group { delimiter, content } => {
                out.append(delimiter.opening());
                out.append(content.as_str());
                out.append(delimiter.closing());
                assert(out@ =~= old(out)@ + token_text(self@));
            },
        }
    }

    /// Whether a space is written after the token.
    pub fn spaced(&self) -> (b: bool)
        ensures
            b == spaced(self@),
    {
        match self {
            Token::Punct { symbol, joint } => !*joint,
            _ => true,
        }
    }
}

/// Renders `tokens[from..to]` as source text.
pub fn render(tokens: &Vec<Token>, from: usize, to: usize) -> (s: String)
    requires
        from <= to <= tokens.len(),
    ensures
        s@ == tokens_text(tokens.deep_view(), from as int, to as int),
{
    let mut s = String::new();
    let mut i: usize = from;
    while i < to
        invariant
            from <= i <= to <= tokens.len(),
            s@ == tokens_text(tokens.deep_view(), from as int, i as int),
        decreases to - i,
    {
        let ghost before = s@;
        tokens[i].write(&mut s);
        if tokens[i].spaced() {
            s.append(" ");
        }
        i += 1;
        assert(s@ =~= tokens_text(tokens.deep_view(), from as int, i as int)) by {
            assert(tokens.deep_view()[i - 1] == tokens[i - 1]@);
            assert(before + token_text(tokens[i - 1]@) + ""@ =~= before + token_text(
                tokens[i - 1]@,
            )) by {
                reveal_strlit("");
            }
        }
    }
    s
}

} // verus!
