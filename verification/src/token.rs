//! Tokens: the flat alphabet that templates are written in.
//!
//! A template is a sequence of tokens in which every group is spelled out by
//! an opening and a closing delimiter token. Positions reported in errors are
//! indices into that sequence.

use crate::syntax::push_char;
use vstd::prelude::*;
use vstd::string::*;

verus! {

/// The three kinds of brackets that enclose a group of tokens.
#[derive(Clone, Copy, Debug, PartialEq, Eq, Hash, Structural)]
pub enum Delimiter {
    /// `( ... )`
    Parenthesis,
    /// `{ ... }`
    Brace,
    /// `[ ... ]`
    Bracket,
}

/// One token of a template.
#[derive(Debug, PartialEq, Eq, Hash)]
pub enum Token {
    /// A word: an identifier or a keyword, as written.
    Ident(String),
    /// One punctuation character. The flag is set when the next token is a
    /// punctuation character that follows without any space, so that the two
    /// may form one operator (`=>`, `::`).
    Punct(char, bool),
    /// A literal, as written in the source (with its quotes, if it has any).
    Literal(String),
    /// The opening bracket of a group.
    Open(Delimiter),
    /// The closing bracket of a group.
    Close(Delimiter),
}

/// The mathematical value of a [`Token`]: the same token with its text as a
/// sequence of characters.
pub enum Tok {
    Ident(Seq<char>),
    Punct(char, bool),
    Literal(Seq<char>),
    Open(Delimiter),
    Close(Delimiter),
}

impl View for Token {
    type V = Tok;

    open spec fn view(&self) -> Tok {
        match *self {
            Token::Ident(s) => Tok::Ident(s@),
            Token::Punct(c, joint) => Tok::Punct(c, joint),
            Token::Literal(s) => Tok::Literal(s@),
            Token::Open(d) => Tok::Open(d),
            Token::Close(d) => Tok::Close(d),
        }
    }
}

/// The values of a sequence of tokens, one for one.
pub open spec fn toks(s: Seq<Token>) -> Seq<Tok> {
    s.map_values(|t: Token| t@)
}

impl Clone for Token {
    fn clone(&self) -> (r: Token)
        ensures
            r@ == self@,
    {
        match self {
            Token::Ident(s) => Token::Ident(s.clone()),
            Token::Punct(c, joint) => Token::Punct(*c, *joint),
            Token::Literal(s) => Token::Literal(s.clone()),
            Token::Open(d) => Token::Open(*d),
            Token::Close(d) => Token::Close(*d),
        }
    }
}

/// Copies the tokens at positions `from..to`.
pub fn copy_tokens(tokens: &Vec<Token>, from: usize, to: usize) -> (r: Vec<Token>)
    requires
        from <= to <= tokens.len(),
    ensures
        toks(r@) == toks(tokens@).subrange(from as int, to as int),
{
    let mut out: Vec<Token> = Vec::new();
    let mut i: usize = from;
    while i < to
        invariant
            from <= i <= to <= tokens.len(),
            toks(out@) == toks(tokens@).subrange(from as int, i as int),
        decreases to - i,
    {
        let ghost before = out@;
        let t = tokens[i].clone();
        out.push(t);
        i = i + 1;
        assert(toks(out@) =~= toks(before).push(t@));
        assert(toks(tokens@).subrange(from as int, i as int) =~= toks(tokens@).subrange(
            from as int,
            i - 1,
        ).push(tokens@[i - 1]@));
    }
    out
}

/// The character that opens a group.
pub open spec fn open_char(d: Delimiter) -> char {
    match d {
        Delimiter::Parenthesis => '(',
        Delimiter::Brace => '{',
        Delimiter::Bracket => '[',
    }
}

/// The character that closes a group.
pub open spec fn close_char(d: Delimiter) -> char {
    match d {
        Delimiter::Parenthesis => ')',
        Delimiter::Brace => '}',
        Delimiter::Bracket => ']',
    }
}

/// One token as text. A space follows every token but a punctuation
/// character that is joined to the next one.
pub open spec fn tok_text(t: Tok) -> Seq<char> {
    match t {
        Tok::Ident(s) => s.push(' '),
        Tok::Punct(c, joint) => if joint {
            seq![c]
        } else {
            seq![c, ' ']
        },
        Tok::Literal(s) => s.push(' '),
        Tok::Open(d) => seq![open_char(d), ' '],
        Tok::Close(d) => seq![close_char(d), ' '],
    }
}

/// A sequence of tokens as text: the tokens' texts, in order.
pub open spec fn text_of(s: Seq<Tok>) -> Seq<char>
    decreases s.len(),
{
    if s.len() == 0 {
        Seq::empty()
    } else {
        text_of(s.drop_last()) + tok_text(s.last())
    }
}

fn open_char_of(d: Delimiter) -> (c: char)
    ensures
        c == open_char(d),
{
    match d {
        Delimiter::Parenthesis => '(',
        Delimiter::Brace => '{',
        Delimiter::Bracket => '[',
    }
}

fn close_char_of(d: Delimiter) -> (c: char)
    ensures
        c == close_char(d),
{
    match d {
        Delimiter::Parenthesis => ')',
        Delimiter::Brace => '}',
        Delimiter::Bracket => ']',
    }
}

/// Writes the tokens at positions `from..to` as text.
pub fn render(tokens: &Vec<Token>, from: usize, to: usize) -> (text: String)
    requires
        from <= to <= tokens.len(),
    ensures
        text@ == text_of(toks(tokens@).subrange(from as int, to as int)),
{
    let mut out = String::new();
    let mut i: usize = from;
    while i < to
        invariant
            from <= i <= to <= tokens.len(),
            out@ == text_of(toks(tokens@).subrange(from as int, i as int)),
        decreases to - i,
    {
        let ghost before = out@;
        match &tokens[i] {
            Token::Ident(s) => {
                out.append(s.as_str());
                push_char(&mut out, ' ');
            },
            Token::Punct(c, joint) => {
                push_char(&mut out, *c);
                if !*joint {
                    push_char(&mut out, ' ');
                }
            },
            Token::Literal(s) => {
                out.append(s.as_str());
                push_char(&mut out, ' ');
            },
            Token::Open(d) => {
                push_char(&mut out, open_char_of(*d));
                push_char(&mut out, ' ');
            },
            Token::Close(d) => {
                push_char(&mut out, close_char_of(*d));
                push_char(&mut out, ' ');
            },
        }
        i = i + 1;
        proof {
            let next = toks(tokens@).subrange(from as int, i as int);
            assert(next.drop_last() =~= toks(tokens@).subrange(from as int, i - 1));
            assert(next.last() == tokens@[i - 1]@);
            assert(out@ =~= before + tok_text(tokens@[i - 1]@));
        }
    }
    out
}

/// Where the group that is open at `depth` levels when position `p` is
/// reached closes: the position before `end` of the closing token that
/// brings the depth to zero, or `None` if the tokens end first.
pub open spec fn matching_close(t: Seq<Tok>, p: int, end: int, depth: nat) -> Option<int>
    decreases end - p,
{
    if p < 0 || p >= end || end > t.len() || depth == 0 {
        None
    } else {
        match t[p] {
            Tok::Open(_) => matching_close(t, p + 1, end, depth + 1),
            Tok::Close(_) => if depth == 1 {
                Some(p)
            } else {
                matching_close(t, p + 1, end, (depth - 1) as nat)
            },
            _ => matching_close(t, p + 1, end, depth),
        }
    }
}

/// Where the group that opens at position `open` closes, looking no further
/// than `end`.
pub open spec fn group_close(t: Seq<Tok>, open: int, end: int) -> Option<int> {
    matching_close(t, open + 1, end, 1)
}

/// Finds the token that closes the group opened at `open`, looking no
/// further than `end`.
pub fn close_of(tokens: &Vec<Token>, open: usize, end: usize) -> (close: Option<usize>)
    requires
        open < end <= tokens.len(),
    ensures
        close matches Some(c) ==> open < c < end && tokens@[c as int]@ is Close,
        match close {
            Some(c) => group_close(toks(tokens@), open as int, end as int) == Some(c as int),
            None => group_close(toks(tokens@), open as int, end as int) is None,
        },
{
    let mut depth: usize = 1;
    let mut p: usize = open + 1;
    while p < end
        invariant
            open < p <= end <= tokens.len(),
            1 <= depth <= p - open,
            group_close(toks(tokens@), open as int, end as int) == matching_close(
                toks(tokens@),
                p as int,
                end as int,
                depth as nat,
            ),
        decreases end - p,
    {
        assert(toks(tokens@)[p as int] == tokens@[p as int]@);
        match &tokens[p] {
            Token::Open(_) => {
                depth = depth + 1;
            },
            Token::Close(_) => {
                if depth == 1 {
                    return Some(p);
                }
                depth = depth - 1;
            },
            _ => {},
        }
        p = p + 1;
    }
    None
}

/// Where the tree that starts at `p` ends: behind the token itself, or for
/// the opening token of a group behind the token that closes it. No tree
/// starts at a closing token.
pub open spec fn tree_end(t: Seq<Tok>, p: int, end: int) -> Option<int> {
    if 0 <= p < end <= t.len() {
        match t[p] {
            Tok::Open(_) => match group_close(t, p, end) {
                Some(c) => if p < c < end {
                    Some(c + 1)
                } else {
                    None
                },
                None => None,
            },
            Tok::Close(_) => None,
            _ => Some(p + 1),
        }
    } else {
        None
    }
}

/// How many trees the window `p..end` holds, or `None` where it is not made
/// up of whole trees.
pub open spec fn tree_count(t: Seq<Tok>, p: int, end: int) -> Option<nat>
    decreases end - p,
{
    if p >= end {
        Some(0)
    } else {
        match tree_end(t, p, end) {
            None => None,
            Some(q) => match tree_count(t, q, end) {
                Some(n) => Some(n + 1),
                None => None,
            },
        }
    }
}

/// The position behind the first `n` trees of the window `p..end`, or `None`
/// where it does not start with as many.
pub open spec fn skip_trees(t: Seq<Tok>, p: int, end: int, n: nat) -> Option<int>
    decreases n,
{
    if n == 0 {
        Some(p)
    } else {
        match tree_end(t, p, end) {
            None => None,
            Some(q) => skip_trees(t, q, end, (n - 1) as nat),
        }
    }
}

/// Finds the end of the tree that starts at `pos`.
pub fn tree_end_of(tokens: &Vec<Token>, pos: usize, end: usize) -> (r: Option<usize>)
    requires
        end <= tokens.len(),
    ensures
        match r {
            Some(q) => tree_end(toks(tokens@), pos as int, end as int) == Some(q as int) && pos < q
                <= end,
            None => tree_end(toks(tokens@), pos as int, end as int) is None,
        },
{
    if pos >= end {
        return None;
    }
    match &tokens[pos] {
        Token::Open(_) => match close_of(tokens, pos, end) {
            Some(c) => Some(c + 1),
            None => None,
        },
        Token::Close(_) => None,
        _ => Some(pos + 1),
    }
}

/// Counts the trees in the window `pos..end`.
pub fn count_trees(tokens: &Vec<Token>, pos: usize, end: usize) -> (r: Option<usize>)
    requires
        pos <= end <= tokens.len(),
    ensures
        match r {
            Some(n) => tree_count(toks(tokens@), pos as int, end as int) == Some(n as nat),
            None => tree_count(toks(tokens@), pos as int, end as int) is None,
        },
{
    let ghost t = toks(tokens@);
    let mut n: usize = 0;
    let mut p: usize = pos;
    while p < end
        invariant
            pos <= p <= end <= tokens.len(),
            t == toks(tokens@),
            n <= p - pos,
            tree_count(t, pos as int, end as int) == match tree_count(t, p as int, end as int) {
                Some(m) => Some(m + n as nat),
                None => None,
            },
        decreases end - p,
    {
        match tree_end_of(tokens, p, end) {
            None => {
                return None;
            },
            Some(q) => {
                n = n + 1;
                p = q;
            },
        }
    }
    Some(n)
}

/// Finds the position behind the first `n` trees of the window `pos..end`.
pub fn skip(tokens: &Vec<Token>, pos: usize, end: usize, n: usize) -> (r: Option<usize>)
    requires
        pos <= end <= tokens.len(),
    ensures
        match r {
            Some(q) => skip_trees(toks(tokens@), pos as int, end as int, n as nat) == Some(
                q as int,
            ) && pos <= q <= end && (n > 0 ==> pos < q),
            None => skip_trees(toks(tokens@), pos as int, end as int, n as nat) is None,
        },
{
    let ghost t = toks(tokens@);
    let mut left: usize = n;
    let mut p: usize = pos;
    while left > 0
        invariant
            pos <= p <= end <= tokens.len(),
            t == toks(tokens@),
            left <= n,
            left < n ==> pos < p,
            skip_trees(t, pos as int, end as int, n as nat) == skip_trees(
                t,
                p as int,
                end as int,
                left as nat,
            ),
        decreases left,
    {
        match tree_end_of(tokens, p, end) {
            None => {
                return None;
            },
            Some(q) => {
                left = left - 1;
                p = q;
            },
        }
    }
    Some(p)
}

} // verus!
