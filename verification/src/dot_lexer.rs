//! The tokens of the graph description language (a dialect of DOT) and
//! the lexer that reads them.
//!
//! Skipped between tokens: white space, line comments (`# ...` and
//! `// ...`, up to the end of the line) and block comments (`/* ... */`).
//! Among the tokens that start at one position the longest one wins;
//! of two of equal length, the keyword wins over the identifier and the
//! bracketed quoted string over the plain one. A character that starts no
//! token is an `Error` token of its own; so is an unterminated `/*`, and an
//! unterminated `"` together with the rest of the input.

use vstd::prelude::*;
use crate::text::{is_white_space, white_space, string_from_range, chars_of, find_char, find_char_from, lemma_find_char_bounds};

verus! {

/// A token of the graph description language.
#[derive(Debug, PartialEq)]
pub enum DotToken {
    Error,
    Digraph,
    Subgraph,
    Identifier(String),
    /// A quoted string, without its quotes.
    QuotedIdentifiers(String),
    /// A quoted string between square brackets: what stands between the
    /// opening bracket and the first closing one.
    QuotedIdentifiersWithBrackets(String),
    OpenDeclaration,
    CloseDeclaration,
    OpenSpecification,
    CloseSpecification,
    Comma,
    Equals,
    Arrow,
}

/// A token, with its text as a sequence of characters.
pub enum DotTokenView {
    Error,
    Digraph,
    Subgraph,
    Identifier(Seq<char>),
    QuotedIdentifiers(Seq<char>),
    QuotedIdentifiersWithBrackets(Seq<char>),
    OpenDeclaration,
    CloseDeclaration,
    OpenSpecification,
    CloseSpecification,
    Comma,
    Equals,
    Arrow,
}

impl View for DotToken {
    type V = DotTokenView;

    open spec fn view(&self) -> DotTokenView {
        match self {
            DotToken::Error => DotTokenView::Error,
            DotToken::Digraph => DotTokenView::Digraph,
            DotToken::Subgraph => DotTokenView::Subgraph,
            DotToken::Identifier(s) => DotTokenView::Identifier(s@),
            DotToken::QuotedIdentifiers(s) => DotTokenView::QuotedIdentifiers(s@),
            DotToken::QuotedIdentifiersWithBrackets(s) => DotTokenView::QuotedIdentifiersWithBrackets(s@),
            DotToken::OpenDeclaration => DotTokenView::OpenDeclaration,
            DotToken::CloseDeclaration => DotTokenView::CloseDeclaration,
            DotToken::OpenSpecification => DotTokenView::OpenSpecification,
            DotToken::CloseSpecification => DotTokenView::CloseSpecification,
            DotToken::Comma => DotTokenView::Comma,
            DotToken::Equals => DotTokenView::Equals,
            DotToken::Arrow => DotTokenView::Arrow,
        }
    }
}

/// First character of an identifier: `[A-Za-z_]`.
pub open spec fn is_ident_start(c: char) -> bool {
    ('a' as u32 <= c as u32 <= 'z' as u32) || ('A' as u32 <= c as u32 <= 'Z' as u32) || c == '_'
}

/// Later character of an identifier: `[A-Za-z0-9_]`.
pub open spec fn is_ident_char(c: char) -> bool {
    is_ident_start(c) || ('0' as u32 <= c as u32 <= '9' as u32)
}

/// The end of the run of identifier characters that starts at `i`.
pub open spec fn ident_end(src: Seq<char>, i: int) -> int
    decreases src.len() - i,
{
    if i < 0 || i >= src.len() {
        src.len() as int
    } else if is_ident_char(src[i]) {
        ident_end(src, i + 1)
    } else {
        i
    }
}

/// `ident_end` stays within `[i, len]`.
pub proof fn lemma_ident_end_bounds(src: Seq<char>, i: int)
    requires
        0 <= i <= src.len(),
    ensures
        i <= ident_end(src, i) <= src.len(),
    decreases src.len() - i,
{
    if i < src.len() && is_ident_char(src[i]) {
        lemma_ident_end_bounds(src, i + 1);
    }
}

/// The first index `k >= i` where `*/` starts, if any.
pub open spec fn find_comment_end(src: Seq<char>, i: int) -> Option<int>
    decreases src.len() - i,
{
    if i < 0 || i + 1 >= src.len() {
        None
    } else if src[i] == '*' && src[i + 1] == '/' {
        Some(i)
    } else {
        find_comment_end(src, i + 1)
    }
}

/// `find_comment_end` finds `*/` at or after `i`, and no earlier one.
pub proof fn lemma_find_comment_end_bounds(src: Seq<char>, i: int)
    requires
        0 <= i,
    ensures
        find_comment_end(src, i) matches Some(k) ==> (i <= k && k + 1 < src.len() && src[k] == '*' && src[k + 1] == '/'),
        forall|k: int| #![trigger src[k]] i <= k && k + 1 < src.len() && (find_comment_end(src, i) matches Some(e) ==> k < e)
            ==> !(src[k] == '*' && src[k + 1] == '/'),
    decreases src.len() - i,
{
    if i + 1 < src.len() && !(src[i] == '*' && src[i + 1] == '/') {
        lemma_find_comment_end_bounds(src, i + 1);
    }
}

pub open spec fn digraph_word() -> Seq<char> {
    seq!['d', 'i', 'g', 'r', 'a', 'p', 'h']
}

pub open spec fn subgraph_word() -> Seq<char> {
    seq!['s', 'u', 'b', 'g', 'r', 'a', 'p', 'h']
}

/// The token that starts at `pos` (which holds no skipped text), with
/// its start and end.
pub open spec fn token_at(src: Seq<char>, pos: int) -> (DotTokenView, int, int) {
    let c = src[pos];
    if is_ident_start(c) {
        let j = ident_end(src, pos + 1);
        let word = src.subrange(pos, j);
        let tok = if word == digraph_word() {
            DotTokenView::Digraph
        } else if word == subgraph_word() {
            DotTokenView::Subgraph
        } else {
            DotTokenView::Identifier(word)
        };
        (tok, pos, j)
    } else if c == '"' {
        let j = find_char(src, pos + 1, '"');
        if j >= src.len() {
            (DotTokenView::Error, pos, src.len() as int)
        } else if j - pos >= 3 && src[pos + 1] == '[' && src[j - 1] == ']' {
            let close = find_char(src, pos + 2, ']');
            (DotTokenView::QuotedIdentifiersWithBrackets(src.subrange(pos + 2, close)), pos, j + 1)
        } else {
            (DotTokenView::QuotedIdentifiers(src.subrange(pos + 1, j)), pos, j + 1)
        }
    } else if c == '{' {
        (DotTokenView::OpenDeclaration, pos, pos + 1)
    } else if c == '}' {
        (DotTokenView::CloseDeclaration, pos, pos + 1)
    } else if c == '[' {
        (DotTokenView::OpenSpecification, pos, pos + 1)
    } else if c == ']' {
        (DotTokenView::CloseSpecification, pos, pos + 1)
    } else if c == ',' {
        (DotTokenView::Comma, pos, pos + 1)
    } else if c == '=' {
        (DotTokenView::Equals, pos, pos + 1)
    } else if c == '-' && pos + 1 < src.len() && src[pos + 1] == '>' {
        (DotTokenView::Arrow, pos, pos + 2)
    } else {
        (DotTokenView::Error, pos, pos + 1)
    }
}

/// The next token at or after `pos`, with its start and end, skipping
/// white space and comments; `None` at the end of the input.
pub open spec fn lex_token(src: Seq<char>, pos: int) -> Option<(DotTokenView, int, int)>
    decreases src.len() - pos,
{
    if pos < 0 || pos >= src.len() {
        None
    } else {
        let c = src[pos];
        if is_white_space(c) {
            lex_token(src, pos + 1)
        } else if c == '#' {
            proof {
                lemma_find_char_bounds(src, pos + 1, '\n');
            }
            lex_token(src, find_char(src, pos + 1, '\n'))
        } else if c == '/' && pos + 1 < src.len() && src[pos + 1] == '/' {
            proof {
                lemma_find_char_bounds(src, pos + 2, '\n');
            }
            lex_token(src, find_char(src, pos + 2, '\n'))
        } else if c == '/' && pos + 1 < src.len() && src[pos + 1] == '*' {
            proof {
                lemma_find_comment_end_bounds(src, pos + 2);
            }
            match find_comment_end(src, pos + 2) {
                Some(k) => lex_token(src, k + 2),
                None => Some((DotTokenView::Error, pos, pos + 2)),
            }
        } else {
            Some(token_at(src, pos))
        }
    }
}

/// Each token read starts at or after where reading starts, and is not
/// empty.
pub proof fn lemma_lex_progress(src: Seq<char>, pos: int)
    requires
        0 <= pos,
    ensures
        lex_token(src, pos) matches Some((t, s, e)) ==> pos <= s < e <= src.len(),
    decreases src.len() - pos,
{
    if pos < src.len() {
        let c = src[pos];
        if is_white_space(c) {
            lemma_lex_progress(src, pos + 1);
        } else if c == '#' {
            lemma_find_char_bounds(src, pos + 1, '\n');
            lemma_lex_progress(src, find_char(src, pos + 1, '\n'));
        } else if c == '/' && pos + 1 < src.len() && src[pos + 1] == '/' {
            lemma_find_char_bounds(src, pos + 2, '\n');
            lemma_lex_progress(src, find_char(src, pos + 2, '\n'));
        } else if c == '/' && pos + 1 < src.len() && src[pos + 1] == '*' {
            lemma_find_comment_end_bounds(src, pos + 2);
            if let Some(k) = find_comment_end(src, pos + 2) {
                lemma_lex_progress(src, k + 2);
            }
        } else {
            lemma_ident_end_bounds(src, pos + 1);
            lemma_find_char_bounds(src, pos + 1, '"');
        }
    }
}

/// An identifier token is the text of its span: a letter or underscore,
/// then letters, digits and underscores.
pub proof fn lemma_identifier_tokens(src: Seq<char>, pos: int)
    requires
        0 <= pos,
    ensures
        lex_token(src, pos) matches Some((DotTokenView::Identifier(w), s, e)) ==> {
            &&& w == src.subrange(s, e)
            &&& w.len() > 0
            &&& is_ident_start(w[0])
            &&& forall|i: int| 0 <= i < w.len() ==> is_ident_char(#[trigger] w[i])
        },
    decreases src.len() - pos,
{
    if pos < src.len() {
        let c = src[pos];
        if is_white_space(c) {
            lemma_identifier_tokens(src, pos + 1);
        } else if c == '#' {
            lemma_find_char_bounds(src, pos + 1, '\n');
            lemma_identifier_tokens(src, find_char(src, pos + 1, '\n'));
        } else if c == '/' && pos + 1 < src.len() && src[pos + 1] == '/' {
            lemma_find_char_bounds(src, pos + 2, '\n');
            lemma_identifier_tokens(src, find_char(src, pos + 2, '\n'));
        } else if c == '/' && pos + 1 < src.len() && src[pos + 1] == '*' {
            lemma_find_comment_end_bounds(src, pos + 2);
            if let Some(k) = find_comment_end(src, pos + 2) {
                lemma_identifier_tokens(src, k + 2);
            }
        } else if is_ident_start(c) {
            lemma_ident_end_chars(src, pos + 1);
            lemma_ident_end_bounds(src, pos + 1);
        }
    }
}

/// The characters before `ident_end` are identifier characters.
pub proof fn lemma_ident_end_chars(src: Seq<char>, i: int)
    requires
        0 <= i <= src.len(),
    ensures
        forall|k: int| i <= k < ident_end(src, i) ==> is_ident_char(#[trigger] src[k]),
    decreases src.len() - i,
{
    if i < src.len() && is_ident_char(src[i]) {
        lemma_ident_end_chars(src, i + 1);
    }
}

/// End of the run of identifier characters starting at `i`.
fn ident_end_from(src: &Vec<char>, i: usize) -> (res: usize)
    requires
        i <= src.len(),
    ensures
        res == ident_end(src@, i as int),
        i <= res <= src.len(),
{
    let mut j = i;
    while j < src.len()
        invariant
            i <= j <= src.len(),
            ident_end(src@, j as int) == ident_end(src@, i as int),
        decreases src.len() - j,
    {
        if !ident_char(src[j]) {
            return j;
        }
        j = j + 1;
    }
    j
}

/// Where the first `*/` at or after `i` starts, if any.
fn find_comment_end_from(src: &Vec<char>, i: usize) -> (res: Option<usize>)
    requires
        i <= src.len(),
    ensures
        res matches Some(k) ==> find_comment_end(src@, i as int) == Some(k as int),
        res is None ==> find_comment_end(src@, i as int) is None,
{
    let mut k = i;
    while k < src.len() && k + 1 < src.len()
        invariant
            i <= k <= src.len(),
            find_comment_end(src@, k as int) == find_comment_end(src@, i as int),
        decreases src.len() - k,
    {
        if src[k] == '*' && src[k + 1] == '/' {
            return Some(k);
        }
        k = k + 1;
    }
    None
}

/// Whether `c` may start an identifier.
pub fn ident_start(c: char) -> (res: bool)
    ensures
        res == is_ident_start(c),
{
    let v = c as u32;
    ('a' as u32 <= v && v <= 'z' as u32) || ('A' as u32 <= v && v <= 'Z' as u32) || c == '_'
}

/// Whether `c` may continue an identifier.
pub fn ident_char(c: char) -> (res: bool)
    ensures
        res == is_ident_char(c),
{
    let v = c as u32;
    ident_start(c) || ('0' as u32 <= v && v <= '9' as u32)
}

/// Whether `src[start..end]` is `word`.
fn range_equals(src: &Vec<char>, start: usize, end: usize, word: &Vec<char>) -> (res: bool)
    requires
        start <= end <= src.len(),
    ensures
        res == (src@.subrange(start as int, end as int) == word@),
{
    if end - start != word.len() {
        return false;
    }
    let mut k: usize = 0;
    while k < word.len()
        invariant
            end - start == word.len(),
            start <= end <= src.len(),
            k <= word.len(),
            forall|m: int| 0 <= m < k ==> src@[start + m] == word@[m],
        decreases word.len() - k,
    {
        if src[start + k] != word[k] {
            assert(src@.subrange(start as int, end as int)[k as int] != word@[k as int]);
            return false;
        }
        k = k + 1;
    }
    assert(src@.subrange(start as int, end as int) =~= word@);
    true
}

/// The token that starts at `pos`, which holds no skipped text.
fn read_token_at(src: &Vec<char>, pos: usize) -> (res: (DotToken, usize, usize))
    requires
        pos < src.len(),
    ensures
        (res.0@, res.1 as int, res.2 as int) == token_at(src@, pos as int),
        pos < res.2 <= src.len(),
{
    let c = src[pos];
    let len = src.len();
    if ident_start(c) {
        let j = ident_end_from(src, pos + 1);
        let tok = if range_equals(src, pos, j, &vec!['d', 'i', 'g', 'r', 'a', 'p', 'h']) {
            DotToken::Digraph
        } else if range_equals(src, pos, j, &vec!['s', 'u', 'b', 'g', 'r', 'a', 'p', 'h']) {
            DotToken::Subgraph
        } else {
            DotToken::Identifier(string_from_range(src, pos, j))
        };
        (tok, pos, j)
    } else if c == '"' {
        let j = find_char_from(src, pos + 1, '"');
        if j >= len {
            (DotToken::Error, pos, len)
        } else if j - pos >= 3 && src[pos + 1] == '[' && src[j - 1] == ']' {
            let close = find_char_from(src, pos + 2, ']');
            proof {
                lemma_find_char_bounds(src@, pos + 2, ']');
            }
            (DotToken::QuotedIdentifiersWithBrackets(string_from_range(src, pos + 2, close)), pos, j + 1)
        } else {
            (DotToken::QuotedIdentifiers(string_from_range(src, pos + 1, j)), pos, j + 1)
        }
    } else if c == '{' {
        (DotToken::OpenDeclaration, pos, pos + 1)
    } else if c == '}' {
        (DotToken::CloseDeclaration, pos, pos + 1)
    } else if c == '[' {
        (DotToken::OpenSpecification, pos, pos + 1)
    } else if c == ']' {
        (DotToken::CloseSpecification, pos, pos + 1)
    } else if c == ',' {
        (DotToken::Comma, pos, pos + 1)
    } else if c == '=' {
        (DotToken::Equals, pos, pos + 1)
    } else if c == '-' && pos + 1 < len && src[pos + 1] == '>' {
        (DotToken::Arrow, pos, pos + 2)
    } else {
        (DotToken::Error, pos, pos + 1)
    }
}

/// A lexer over a graph description: the source, and the span of the
/// token read last.
pub struct DotLexer {
    source: Vec<char>,
    token_start: usize,
    token_end: usize,
}

impl DotLexer {
    /// The characters of the source.
    pub closed spec fn src(&self) -> Seq<char> {
        self.source@
    }

    /// Where the token read last starts.
    pub closed spec fn start(&self) -> int {
        self.token_start as int
    }

    /// Where the token read last ends, and reading goes on.
    pub closed spec fn end(&self) -> int {
        self.token_end as int
    }

    pub closed spec fn wf(&self) -> bool {
        self.token_start <= self.token_end <= self.source.len()
    }

    /// The span of the token read last lies within the source.
    pub proof fn lemma_wf(&self)
        requires
            self.wf(),
        ensures
            0 <= self.start() <= self.end() <= self.src().len(),
    {
    }

    /// A lexer at the start of `source`.
    pub fn new(source: &str) -> (res: DotLexer)
        ensures
            res.wf(),
            res.src() == source@,
            res.start() == 0,
            res.end() == 0,
    {
        DotLexer { source: chars_of(source), token_start: 0, token_end: 0 }
    }

    /// Reads the next token (`lex_token` from where the last one ended).
    /// At the end of the input it gives `None`, with an empty span at the
    /// end.
    pub fn next_token(&mut self) -> (res: Option<DotToken>)
        requires
            old(self).wf(),
        ensures
            final(self).wf(),
            final(self).src() == old(self).src(),
            match lex_token(old(self).src(), old(self).end()) {
                None => res is None && final(self).start() == old(self).src().len()
                    && final(self).end() == old(self).src().len(),
                Some((t, s, e)) => res matches Some(tok) && tok@ == t && final(self).start() == s
                    && final(self).end() == e,
            },
    {
        let len = self.source.len();
        let mut pos = self.token_end;
        let ghost target = lex_token(self.source@, self.token_end as int);
        while pos < len
            invariant
                pos <= len == self.source.len(),
                lex_token(self.source@, pos as int) == target,
                self.wf(),
                self.source@ == old(self).source@,
                target == lex_token(old(self).src(), old(self).end()),
            decreases len - pos,
        {
            let c = self.source[pos];
            if white_space(c) {
                pos = pos + 1;
            } else if c == '#' {
                pos = find_char_from(&self.source, pos + 1, '\n');
            } else if c == '/' && pos + 1 < len && self.source[pos + 1] == '/' {
                pos = find_char_from(&self.source, pos + 2, '\n');
            } else if c == '/' && pos + 1 < len && self.source[pos + 1] == '*' {
                proof {
                    lemma_find_comment_end_bounds(self.source@, pos + 2);
                }
                match find_comment_end_from(&self.source, pos + 2) {
                    Some(k) => {
                        pos = k + 2;
                    },
                    None => {
                        self.token_start = pos;
                        self.token_end = pos + 2;
                        return Some(DotToken::Error);
                    },
                }
            } else {
                let (tok, s, e) = read_token_at(&self.source, pos);
                self.token_start = s;
                self.token_end = e;
                return Some(tok);
            }
        }
        self.token_start = len;
        self.token_end = len;
        None
    }

    /// The text of the token read last.
    pub fn slice(&self) -> (res: String)
        requires
            self.wf(),
        ensures
            res@ == self.src().subrange(self.start(), self.end()),
    {
        string_from_range(&self.source, self.token_start, self.token_end)
    }
}

} // verus!
