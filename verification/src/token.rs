use vstd::prelude::*;

verus! {

/// The eight instruction kinds of the tape-machine language.
#[derive(Debug, Clone, Copy, PartialEq, Eq, Hash, Structural)]
pub enum TokenType {
    Plus,
    Minus,
    RightAngle,
    LeftAngle,
    LeftSquare,
    RightSquare,
    Dot,
    Comma,
}

/// An instruction token annotated with its zero-indexed source position
/// (`line` and `pos` are character offsets, not byte offsets).
#[derive(Debug, Clone, Copy, PartialEq, Eq, Hash, Structural)]
pub struct Token {
    pub tp: TokenType,
    pub line: usize,
    pub pos: usize,
}

impl Token {
    pub fn new(tp: TokenType, line: usize, pos: usize) -> (t: Token)
        ensures
            t == (Token { tp, line, pos }),
    {
        Token { tp, line, pos }
    }
}

/// Which instruction, if any, a source character stands for.
pub open spec fn token_type_of(c: char) -> Option<TokenType> {
    if c == '+' {
        Some(TokenType::Plus)
    } else if c == '-' {
        Some(TokenType::Minus)
    } else if c == '>' {
        Some(TokenType::RightAngle)
    } else if c == '<' {
        Some(TokenType::LeftAngle)
    } else if c == '[' {
        Some(TokenType::LeftSquare)
    } else if c == ']' {
        Some(TokenType::RightSquare)
    } else if c == '.' {
        Some(TokenType::Dot)
    } else if c == ',' {
        Some(TokenType::Comma)
    } else {
        None
    }
}

pub fn char_to_token_type(c: char) -> (r: Option<TokenType>)
    ensures
        r == token_type_of(c),
{
    match c {
        '+' => Some(TokenType::Plus),
        '-' => Some(TokenType::Minus),
        '>' => Some(TokenType::RightAngle),
        '<' => Some(TokenType::LeftAngle),
        '[' => Some(TokenType::LeftSquare),
        ']' => Some(TokenType::RightSquare),
        '.' => Some(TokenType::Dot),
        ',' => Some(TokenType::Comma),
        _ => None,
    }
}

/// Zero-indexed line of the character at offset `k`: the number of
/// newline characters strictly before it.
pub open spec fn line_of(s: Seq<char>, k: int) -> int
    decreases k,
{
    if k <= 0 {
        0
    } else {
        line_of(s, k - 1) + if s[k - 1] == '\n' {
            1int
        } else {
            0int
        }
    }
}

/// Zero-indexed column of the character at offset `k` within its line:
/// the number of characters since the last newline.
pub open spec fn col_of(s: Seq<char>, k: int) -> int
    decreases k,
{
    if k <= 0 {
        0
    } else if s[k - 1] == '\n' {
        0
    } else {
        col_of(s, k - 1) + 1
    }
}

/// The tokens produced by the source characters at offsets `k` and beyond,
/// in source order, each annotated with its line and column.
pub open spec fn tokens_from(s: Seq<char>, k: int) -> Seq<Token>
    decreases s.len() - k,
{
    if k < 0 || k >= s.len() {
        Seq::empty()
    } else {
        let rest = tokens_from(s, k + 1);
        match token_type_of(s[k]) {
            Some(tp) => seq![
                Token { tp, line: line_of(s, k) as usize, pos: col_of(s, k) as usize },
            ] + rest,
            None => rest,
        }
    }
}

/// The full token sequence of a source text.
pub open spec fn tokenize_spec(s: Seq<char>) -> Seq<Token> {
    tokens_from(s, 0)
}

/// Source offset of the `i`-th token among those produced from offset
/// `k` onward.
pub open spec fn token_src_from(s: Seq<char>, k: int, i: int) -> int
    decreases s.len() - k,
{
    if k < 0 || k >= s.len() {
        0
    } else if token_type_of(s[k]) is Some {
        if i == 0 {
            k
        } else {
            token_src_from(s, k + 1, i - 1)
        }
    } else {
        token_src_from(s, k + 1, i)
    }
}

/// Source offset of the `i`-th token of the whole source.
pub open spec fn token_src(s: Seq<char>, i: int) -> int {
    token_src_from(s, 0, i)
}

pub proof fn lemma_line_col_bounds(s: Seq<char>, k: int)
    requires
        0 <= k,
    ensures
        0 <= line_of(s, k) <= k,
        0 <= col_of(s, k) <= k,
    decreases k,
{
    if k > 0 {
        lemma_line_col_bounds(s, k - 1);
    }
}

proof fn lemma_tokens_from_src(s: Seq<char>, k: int, i: int)
    requires
        s.len() <= usize::MAX,
        0 <= k <= s.len(),
        0 <= i < tokens_from(s, k).len(),
    ensures
        ({
            let kk = token_src_from(s, k, i);
            &&& k <= kk < s.len()
            &&& token_type_of(s[kk]) == Some(tokens_from(s, k)[i].tp)
            &&& tokens_from(s, k)[i].line == line_of(s, kk)
            &&& tokens_from(s, k)[i].pos == col_of(s, kk)
        }),
    decreases s.len() - k,
{
    lemma_line_col_bounds(s, k);
    if token_type_of(s[k]) is Some {
        if i > 0 {
            lemma_tokens_from_src(s, k + 1, i - 1);
        }
    } else {
        lemma_tokens_from_src(s, k + 1, i);
    }
}

proof fn lemma_token_src_increasing(s: Seq<char>, k: int, i: int, j: int)
    requires
        s.len() <= usize::MAX,
        0 <= k <= s.len(),
        0 <= i < j < tokens_from(s, k).len(),
    ensures
        token_src_from(s, k, i) < token_src_from(s, k, j),
    decreases s.len() - k,
{
    if token_type_of(s[k]) is Some {
        if i == 0 {
            lemma_tokens_from_src(s, k + 1, j - 1);
        } else {
            lemma_token_src_increasing(s, k + 1, i - 1, j - 1);
        }
    } else {
        lemma_token_src_increasing(s, k + 1, i, j);
    }
}

proof fn lemma_pos_lex_increasing(s: Seq<char>, k1: int, k2: int)
    requires
        0 <= k1 < k2,
    ensures
        line_of(s, k1) < line_of(s, k2) || (line_of(s, k1) == line_of(s, k2) && col_of(s, k1)
            < col_of(s, k2)),
    decreases k2,
{
    if k2 - 1 > k1 {
        lemma_pos_lex_increasing(s, k1, k2 - 1);
    }
}

/// The `i`-th token's kind is exactly what its source character maps
/// to, and its line and column are that character's position.
pub open spec fn token_correct(s: Seq<char>, i: int) -> bool {
    let kk = token_src(s, i);
    &&& 0 <= kk < s.len()
    &&& token_type_of(s[kk]) == Some(tokenize_spec(s)[i].tp)
    &&& tokenize_spec(s)[i].line == line_of(s, kk)
    &&& tokenize_spec(s)[i].pos == col_of(s, kk)
}

/// Tokens `i` and `j` stand in strictly increasing source order:
/// top-to-bottom by line, left-to-right within a line.
pub open spec fn tokens_lex_ordered(s: Seq<char>, i: int, j: int) -> bool {
    let ti = tokenize_spec(s)[i];
    let tj = tokenize_spec(s)[j];
    ti.line < tj.line || (ti.line == tj.line && ti.pos < tj.pos)
}

/// Tokenizing a source with interleaved instruction and other
/// characters yields only instruction tokens, in left-to-right,
/// top-to-bottom order, each with its correct zero-indexed line and
/// column.
pub proof fn lemma_tokenize_ordered(s: Seq<char>)
    requires
        s.len() <= usize::MAX,
    ensures
        forall|i: int| 0 <= i < tokenize_spec(s).len() ==> #[trigger] token_correct(s, i),
        forall|i: int, j: int|
            0 <= i < j < tokenize_spec(s).len() ==> #[trigger] tokens_lex_ordered(s, i, j),
{
    assert forall|i: int| 0 <= i < tokenize_spec(s).len() implies #[trigger] token_correct(
        s,
        i,
    ) by {
        lemma_tokens_from_src(s, 0, i);
    }
    assert forall|i: int, j: int|
        0 <= i < j < tokenize_spec(s).len() implies #[trigger] tokens_lex_ordered(s, i, j) by {
        lemma_tokens_from_src(s, 0, i);
        lemma_tokens_from_src(s, 0, j);
        lemma_token_src_increasing(s, 0, i, j);
        lemma_pos_lex_increasing(s, token_src(s, i), token_src(s, j));
    }
}

/// Scans the source into instruction tokens. Every character that is not
/// one of the eight instruction characters is skipped; newlines advance
/// the line counter and reset the column counter.
pub fn tokenize(source: &str) -> (tokens: Vec<Token>)
    ensures
        tokens@ == tokenize_spec(source@),
{
    let ghost s: Seq<char> = source@;
    let n: usize = source.unicode_len();
    let mut tokens: Vec<Token> = Vec::new();
    let mut k: usize = 0;
    let mut line: usize = 0;
    let mut col: usize = 0;
    while k < n
        invariant
            s == source@,
            n == s.len(),
            0 <= k <= n,
            line as int == line_of(s, k as int),
            col as int == col_of(s, k as int),
            line <= k,
            col <= k,
            tokens@ + tokens_from(s, k as int) =~= tokenize_spec(s),
        decreases n - k,
    {
        let c = source.get_char(k);
        match char_to_token_type(c) {
            Some(tp) => {
                tokens.push(Token::new(tp, line, col));
                col = col + 1;
            },
            None => {
                if c == '\n' {
                    line = line + 1;
                    col = 0;
                } else {
                    col = col + 1;
                }
            },
        }
        k = k + 1;
        proof {
            assert(tokens@ + tokens_from(s, k as int) =~= tokenize_spec(s));
        }
    }
    tokens
}

} // verus!
