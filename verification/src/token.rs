//! Token trees: what an attribute holds between its brackets.

use vstd::prelude::*;
use vstd::string::*;
use proc_macro2::TokenTree;

verus! {

/// The brackets round a group of tokens.
#[derive(Clone, Copy, Debug, PartialEq, Eq)]
pub enum Delimiter {
    Parenthesis,
    Brace,
    Bracket,
    Invisible,
}

/// One token tree. A group keeps the text between its brackets.
#[derive(Clone, Debug, PartialEq, Eq)]
pub enum Token {
    /// An identifier or keyword, raw identifiers with their `r#`.
    Ident(String),
    /// One punctuation character, and whether the next token follows it without a gap.
    Punct(String, bool),
    /// A literal, as written.
    Literal(String),
    /// A bracketed group and the text inside it.
    Group(Delimiter, String),
}

/// The mathematical value of a [`Token`].
pub enum TokenView {
    Ident(Seq<char>),
    Punct(Seq<char>, bool),
    Literal(Seq<char>),
    Group(Delimiter, Seq<char>),
}

impl DeepView for Token {
    type V = TokenView;

    open spec fn deep_view(&self) -> TokenView {
        match self {
            Token::Ident(text) => TokenView::Ident(text@),
            Token::Punct(text, joint) => TokenView::Punct(text@, *joint),
            Token::Literal(text) => TokenView::Literal(text@),
            Token::Group(delimiter, inner) => TokenView::Group(*delimiter, inner@),
        }
    }
}

#[verifier::external_type_specification]
#[verifier::external_body]
pub struct ExLexError(proc_macro2::LexError);

/// The token trees that `proc_macro2`'s own lexer reads from `text`, or `None` where it
/// rejects the text.
pub uninterp spec fn token_trees(text: Seq<char>) -> Option<Seq<TokenView>>;

/// Calls `proc_macro2`'s `TokenStream::from_str`, after `proc_macro2::fallback::force`
/// has selected the crate's own lexer, and hands out the top-level token trees, each
/// converted one for one. Nothing is claimed about which trees come out, only that they
/// are the ones named by [`token_trees`].
#[verifier::external_body]
fn lex(text: &str) -> (r: Result<Vec<Token>, proc_macro2::LexError>)
    ensures
        r matches Ok(tokens) ==> token_trees(text@) == Some(tokens.deep_view()),
        r is Err ==> token_trees(text@) is None,
{
    proc_macro2::fallback::force();
    let stream: proc_macro2::TokenStream = text.parse()?;
    Ok(stream.into_iter().map(|tree| match tree {
        TokenTree::Ident(i) => Token::Ident(i.to_string()),
        TokenTree::Punct(p) => Token::Punct(p.as_char().to_string(), matches!(p.spacing(), proc_macro2::Spacing::Joint)),
        TokenTree::Literal(l) => Token::Literal(l.to_string()),
        TokenTree::Group(g) => Token::Group(match g.delimiter() {
            proc_macro2::Delimiter::Parenthesis => Delimiter::Parenthesis,
            proc_macro2::Delimiter::Brace => Delimiter::Brace,
            proc_macro2::Delimiter::Bracket => Delimiter::Bracket,
            proc_macro2::Delimiter::None => Delimiter::Invisible,
        }, g.stream().to_string()),
    }).collect())
}

/// Splits `text` into token trees; `None` where the text is not a sequence of tokens.
pub fn tokenize(text: &str) -> (r: Option<Vec<Token>>)
    ensures
        r.deep_view() == token_trees(text@),
{
    match lex(text) {
        Ok(tokens) => Some(tokens),
        Err(_) => None,
    }
}

/// The opening bracket of a delimiter.
pub open spec fn opening(delimiter: Delimiter) -> Seq<char> {
    match delimiter {
        Delimiter::Parenthesis => "("@,
        Delimiter::Brace => "{"@,
        Delimiter::Bracket => "["@,
        Delimiter::Invisible => ""@,
    }
}

/// The closing bracket of a delimiter.
pub open spec fn closing(delimiter: Delimiter) -> Seq<char> {
    match delimiter {
        Delimiter::Parenthesis => ")"@,
        Delimiter::Brace => "}"@,
        Delimiter::Bracket => "]"@,
        Delimiter::Invisible => ""@,
    }
}

/// The text of one token.
pub open spec fn token_text(token: TokenView) -> Seq<char> {
    match token {
        TokenView::Ident(text) => text,
        TokenView::Punct(text, _) => text,
        TokenView::Literal(text) => text,
        TokenView::Group(delimiter, inner) => opening(delimiter) + inner + closing(delimiter),
    }
}

/// Whether `token` is punctuation that the next token follows without a gap.
pub open spec fn is_joint(token: TokenView) -> bool {
    token matches TokenView::Punct(_, joint) && joint
}

/// The text of a run of tokens: one blank between neighbours, none after joint punctuation.
pub open spec fn tokens_text(tokens: Seq<TokenView>) -> Seq<char>
    decreases tokens.len(),
{
    if tokens.len() == 0 {
        Seq::empty()
    } else if tokens.len() == 1 {
        token_text(tokens[0])
    } else {
        let front = tokens.drop_last();
        let gap = if is_joint(front.last()) {
            Seq::empty()
        } else {
            " "@
        };
        tokens_text(front) + gap + token_text(tokens.last())
    }
}

fn opening_text(delimiter: Delimiter) -> (r: &'static str)
    ensures
        r@ == opening(delimiter),
{
    match delimiter {
        Delimiter::Parenthesis => "(",
        Delimiter::Brace => "{",
        Delimiter::Bracket => "[",
        Delimiter::Invisible => "",
    }
}

fn closing_text(delimiter: Delimiter) -> (r: &'static str)
    ensures
        r@ == closing(delimiter),
{
    match delimiter {
        Delimiter::Parenthesis => ")",
        Delimiter::Brace => "}",
        Delimiter::Bracket => "]",
        Delimiter::Invisible => "",
    }
}

fn append_token(out: &mut String, token: &Token)
    ensures
        final(out)@ == old(out)@ + token_text(token.deep_view()),
{
    match token {
        Token::Ident(text) => out.append(text.as_str()),
        Token::Punct(text, _) => out.append(text.as_str()),
        Token::Literal(text) => out.append(text.as_str()),
        Token::Group(delimiter, inner) => {
            out.append(opening_text(*delimiter));
            out.append(inner.as_str());
            out.append(closing_text(*delimiter));
            assert(out@ =~= old(out)@ + (opening(*delimiter) + inner@ + closing(*delimiter)));
        },
    }
}

fn joint(token: &Token) -> (r: bool)
    ensures
        r == is_joint(token.deep_view()),
{
    match token {
        Token::Punct(_, joint) => *joint,
        _ => false,
    }
}

/// Writes the tokens at `from..to` as text.
pub fn render_tokens(tokens: &Vec<Token>, from: usize, to: usize) -> (r: String)
    requires
        from <= to <= tokens.len(),
    ensures
        r@ == tokens_text(tokens.deep_view().subrange(from as int, to as int)),
{
    let ghost all = tokens.deep_view();
    let mut out = String::new();
    let mut i: usize = from;
    while i < to
        invariant
            from <= i <= to <= tokens.len(),
            all == tokens.deep_view(),
            out@ == tokens_text(all.subrange(from as int, i as int)),
        decreases to - i,
    {
        let ghost before = out@;
        if i > from && !joint(&tokens[i - 1]) {
            out.append(" ");
        }
        append_token(&mut out, &tokens[i]);
        proof {
            let run = all.subrange(from as int, i + 1);
            assert(run.drop_last() =~= all.subrange(from as int, i as int));
            assert(run.last() == all[i as int]);
            if i > from {
                assert(run.drop_last().last() == all[i - 1]);
                assert(out@ =~= tokens_text(run));
            } else {
                assert(before =~= Seq::<char>::empty());
                assert(out@ =~= tokens_text(run));
            }
        }
        i = i + 1;
    }
    out
}

/// Whether `token` is the punctuation character written `text`.
pub open spec fn is_punct(token: TokenView, text: Seq<char>) -> bool {
    token matches TokenView::Punct(found, _) && found == text
}

/// Whether `token` is the identifier written `text`.
pub open spec fn is_ident(token: TokenView, text: Seq<char>) -> bool {
    token matches TokenView::Ident(found) && found == text
}

/// Tells whether `token` is the punctuation character written `text`.
pub fn punct_is(token: &Token, text: &str) -> (r: bool)
    ensures
        r == is_punct(token.deep_view(), text@),
{
    match token {
        Token::Punct(found, _) => crate::text::same_text(found.as_str(), text),
        _ => false,
    }
}

/// Tells whether `token` is the identifier written `text`.
pub fn ident_is(token: &Token, text: &str) -> (r: bool)
    ensures
        r == is_ident(token.deep_view(), text@),
{
    match token {
        Token::Ident(found) => crate::text::same_text(found.as_str(), text),
        _ => false,
    }
}

/// Whether the `>` at `at` is the head of an arrow `->`.
pub open spec fn ends_arrow(tokens: Seq<TokenView>, at: int) -> bool {
    0 < at < tokens.len() && is_punct(tokens[at - 1], "-"@) && is_joint(tokens[at - 1])
}

/// The depth of angle brackets after the token at `at`, given the depth before it.
pub open spec fn depth_after(tokens: Seq<TokenView>, at: int, depth: nat) -> nat {
    if is_punct(tokens[at], "<"@) {
        depth + 1
    } else if is_punct(tokens[at], ">"@) && !ends_arrow(tokens, at) && depth > 0 {
        (depth - 1) as nat
    } else {
        depth
    }
}

/// Where the item that holds position `from` ends: at the first comma outside angle
/// brackets, or at the end of the tokens.
pub open spec fn item_end(tokens: Seq<TokenView>, from: int, depth: nat) -> int
    decreases tokens.len() - from,
{
    if from < 0 || from >= tokens.len() {
        tokens.len() as int
    } else if depth == 0 && is_punct(tokens[from], ","@) {
        from
    } else {
        item_end(tokens, from + 1, depth_after(tokens, from, depth))
    }
}

/// An item ends at or after the place where it starts, and within the tokens.
pub proof fn lemma_item_end_bounds(tokens: Seq<TokenView>, from: int, depth: nat)
    requires
        0 <= from <= tokens.len(),
    ensures
        from <= item_end(tokens, from, depth) <= tokens.len(),
    decreases tokens.len() - from,
{
    if from < tokens.len() && !(depth == 0 && is_punct(tokens[from], ","@)) {
        lemma_item_end_bounds(tokens, from + 1, depth_after(tokens, from, depth));
    }
}

/// Finds the end of the item that starts at `from`.
pub fn find_item_end(tokens: &Vec<Token>, from: usize) -> (r: usize)
    requires
        from <= tokens.len(),
    ensures
        r == item_end(tokens.deep_view(), from as int, 0),
        from <= r <= tokens.len(),
{
    let ghost all = tokens.deep_view();
    let mut i: usize = from;
    let mut depth: usize = 0;
    proof {
        lemma_item_end_bounds(all, from as int, 0);
    }
    while i < tokens.len()
        invariant
            from <= i <= tokens.len(),
            all == tokens.deep_view(),
            depth <= i - from,
            item_end(all, from as int, 0) == item_end(all, i as int, depth as nat),
        decreases tokens.len() - i,
    {
        if depth == 0 && punct_is(&tokens[i], ",") {
            return i;
        }
        if punct_is(&tokens[i], "<") {
            depth = depth + 1;
        } else if punct_is(&tokens[i], ">") && depth > 0 {
            let arrow = i > 0 && punct_is(&tokens[i - 1], "-") && joint(&tokens[i - 1]);
            if !arrow {
                depth = depth - 1;
            }
        }
        i = i + 1;
    }
    i
}

} // verus!
