use vstd::prelude::*;

use crate::token::{Token, TokenType};

verus! {

pub open spec fn is_open(t: Token) -> bool {
    t.tp == TokenType::LeftSquare
}

pub open spec fn is_close(t: Token) -> bool {
    t.tp == TokenType::RightSquare
}

/// Contribution of one token to the bracket nesting depth.
pub open spec fn bracket_delta(t: Token) -> int {
    if is_open(t) {
        1
    } else if is_close(t) {
        -1
    } else {
        0
    }
}

/// Net bracket count of a token sequence: opens minus closes.
pub open spec fn bracket_count(toks: Seq<Token>) -> int
    decreases toks.len(),
{
    if toks.len() == 0 {
        0
    } else {
        bracket_count(toks.drop_last()) + bracket_delta(toks.last())
    }
}

/// A token sequence is balanced when its net bracket count is zero and
/// no prefix closes more brackets than were opened before it.
pub open spec fn balanced(toks: Seq<Token>) -> bool {
    &&& bracket_count(toks) == 0
    &&& forall|m: int| 0 <= m <= toks.len() ==> bracket_count(toks.subrange(0, m)) >= 0
}

/// `(i, j)` is a well-balanced bracket pair: an open at `i`, a close at
/// `j`, and everything strictly between them balanced.
pub open spec fn well_matched_pair(toks: Seq<Token>, i: int, j: int) -> bool {
    &&& 0 <= i < j < toks.len()
    &&& is_open(toks[i])
    &&& is_close(toks[j])
    &&& balanced(toks.subrange(i + 1, j))
}

/// State of the single left-to-right resolution pass: the stack of
/// indices of still-unmatched opens, and the table built so far.
pub ghost struct JumpState {
    pub stack: Seq<int>,
    pub table: Seq<Option<int>>,
}

pub open spec fn jump_init(n: nat) -> JumpState {
    JumpState { stack: Seq::empty(), table: Seq::new(n, |i: int| None) }
}

/// One step of the pass, on the token `t` at index `i`. A close with an
/// empty stack (an unmatched close) installs nothing.
pub open spec fn jump_step(st: JumpState, t: Token, i: int) -> JumpState {
    if is_open(t) {
        JumpState { stack: st.stack.push(i), table: st.table }
    } else if is_close(t) {
        if st.stack.len() > 0 {
            let j = st.stack.last();
            JumpState {
                stack: st.stack.drop_last(),
                table: st.table.update(i, Some(j + 1)).update(j, Some(i + 1)),
            }
        } else {
            st
        }
    } else {
        st
    }
}

/// The pass state after the first `n` tokens have been processed.
pub open spec fn jump_state_at(toks: Seq<Token>, n: int) -> JumpState
    decreases n,
{
    if n <= 0 {
        jump_init(toks.len())
    } else {
        jump_step(jump_state_at(toks, n - 1), toks[n - 1], n - 1)
    }
}

/// The jump table of a program: for a bracket index, the instruction
/// index to continue at when the bracket's branch is not taken.
pub open spec fn jump_table_spec(toks: Seq<Token>) -> Seq<Option<int>> {
    jump_state_at(toks, toks.len() as int).table
}

pub open spec fn stack_view(s: Seq<usize>) -> Seq<int> {
    s.map_values(|u: usize| u as int)
}

pub open spec fn table_view(t: Seq<Option<usize>>) -> Seq<Option<int>> {
    t.map_values(
        |o: Option<usize>|
            match o {
                Some(v) => Some(v as int),
                None => None,
            },
    )
}

/// Invariant of the resolution pass: the stack holds, in increasing
/// order, indices of opens already seen whose table entry is still
/// empty; entries are installed only for indices already passed, and
/// every installed target lies in `1 ..= n`.
pub proof fn lemma_jump_state_inv(toks: Seq<Token>, n: int)
    requires
        0 <= n <= toks.len(),
    ensures
        ({
            let st = jump_state_at(toks, n);
            &&& st.table.len() == toks.len()
            &&& forall|a: int, b: int|
                0 <= a < b < st.stack.len() ==> st.stack[a] < st.stack[b]
            &&& forall|a: int|
                0 <= a < st.stack.len() ==> 0 <= #[trigger] st.stack[a] < n && is_open(
                    toks[st.stack[a]],
                )
            &&& forall|a: int| 0 <= a < st.stack.len() ==> st.table[#[trigger] st.stack[a]] is None
            &&& forall|k: int| n <= k < toks.len() ==> #[trigger] st.table[k] is None
            &&& forall|k: int|
                0 <= k < toks.len() ==> (#[trigger] st.table[k] matches Some(v) ==> 1 <= v <= n)
            &&& forall|k: int|
                0 <= k < n && is_open(#[trigger] toks[k]) ==> st.stack.contains(k) || st.table[k]
                    is Some
        }),
    decreases n,
{
    if n > 0 {
        lemma_jump_state_inv(toks, n - 1);
        let prev = jump_state_at(toks, n - 1);
        let st = jump_state_at(toks, n);
        let t = toks[n - 1];
        if is_open(t) {
            assert forall|a: int| 0 <= a < st.stack.len() implies 0 <= #[trigger] st.stack[a] < n
                && is_open(toks[st.stack[a]]) by {
                if a < st.stack.len() - 1 {
                    assert(st.stack[a] == prev.stack[a]);
                }
            }
            assert forall|k: int|
                0 <= k < n && is_open(#[trigger] toks[k]) implies st.stack.contains(k)
                || st.table[k] is Some by {
                if k == n - 1 {
                    assert(st.stack[st.stack.len() - 1] == k);
                } else if prev.stack.contains(k) {
                    let a = choose|a: int| 0 <= a < prev.stack.len() && prev.stack[a] == k;
                    assert(st.stack[a] == k);
                }
            }
        } else if is_close(t) && prev.stack.len() > 0 {
            let j = prev.stack.last();
            assert(prev.table[j] is None);
            assert(prev.table[n - 1] is None);
            assert forall|k: int|
                0 <= k < n && is_open(#[trigger] toks[k]) implies st.stack.contains(k)
                || st.table[k] is Some by {
                if k != j && prev.stack.contains(k) {
                    let a = choose|a: int| 0 <= a < prev.stack.len() && prev.stack[a] == k;
                    assert(a < prev.stack.len() - 1);
                    assert(st.stack[a] == k);
                }
            }
        }
    }
}

/// Every installed jump target is a valid continuation index: at least
/// one, at most the program length.
pub proof fn lemma_jump_table_bounds(toks: Seq<Token>)
    ensures
        jump_table_spec(toks).len() == toks.len(),
        forall|k: int|
            0 <= k < toks.len() ==> (#[trigger] jump_table_spec(toks)[k] matches Some(v) ==> 1 <= v
                <= toks.len()),
{
    lemma_jump_state_inv(toks, toks.len() as int);
}

proof fn lemma_count_snoc(toks: Seq<Token>, a: int, b: int)
    requires
        0 <= a < b <= toks.len(),
    ensures
        bracket_count(toks.subrange(a, b)) == bracket_count(toks.subrange(a, b - 1))
            + bracket_delta(toks[b - 1]),
{
    let s = toks.subrange(a, b);
    assert(s.drop_last() =~= toks.subrange(a, b - 1));
    assert(s.last() == toks[b - 1]);
}

/// An installed table entry is never overwritten by the rest of the pass.
proof fn lemma_table_persists(toks: Seq<Token>, n: int, m: int, k: int)
    requires
        0 <= n <= m <= toks.len(),
        0 <= k < toks.len(),
        jump_state_at(toks, n).table[k] is Some,
    ensures
        jump_state_at(toks, m).table[k] == jump_state_at(toks, n).table[k],
    decreases m - n,
{
    if m > n {
        lemma_table_persists(toks, n, m - 1, k);
        lemma_jump_state_inv(toks, m - 1);
        let prev = jump_state_at(toks, m - 1);
        let t = toks[m - 1];
        if is_close(t) && prev.stack.len() > 0 {
            assert(prev.table[m - 1] is None);
            assert(prev.table[prev.stack.last()] is None);
        }
    }
}

/// Running the pass across a segment that never closes more brackets
/// than it opened leaves the surrounding stack untouched: the segment's
/// own opens come and go above it.
proof fn lemma_segment(toks: Seq<Token>, a: int, b: int)
    requires
        0 <= a <= b <= toks.len(),
        forall|k: int| a <= k <= b ==> bracket_count(toks.subrange(a, k)) >= 0,
    ensures
        ({
            let sa = jump_state_at(toks, a);
            let sb = jump_state_at(toks, b);
            &&& sb.stack.len() == sa.stack.len() + bracket_count(toks.subrange(a, b))
            &&& sb.stack.subrange(0, sa.stack.len() as int) == sa.stack
            &&& forall|x: int|
                sa.stack.len() <= x < sb.stack.len() ==> a <= #[trigger] sb.stack[x] < b
        }),
    decreases b - a,
{
    let sa = jump_state_at(toks, a);
    if b > a {
        lemma_segment(toks, a, b - 1);
        lemma_count_snoc(toks, a, b);
        let sp = jump_state_at(toks, b - 1);
        let sb = jump_state_at(toks, b);
        let t = toks[b - 1];
        if is_open(t) {
            assert(sb.stack =~= sp.stack.push(b - 1));
            assert(sb.stack.subrange(0, sa.stack.len() as int) =~= sa.stack);
        } else if is_close(t) {
            assert(bracket_count(toks.subrange(a, b)) >= 0);
            assert(sp.stack.len() > sa.stack.len());
            assert(sb.stack =~= sp.stack.drop_last());
            assert(sb.stack.subrange(0, sa.stack.len() as int) =~= sa.stack);
        }
    } else {
        assert(toks.subrange(a, a) =~= Seq::<Token>::empty());
    }
}

/// For every well-balanced bracket pair `(i, j)`, the jump table sends
/// the open to one past the close and the close to one past the open.
pub proof fn lemma_jump_table_matched_pair(toks: Seq<Token>, i: int, j: int)
    requires
        well_matched_pair(toks, i, j),
    ensures
        jump_table_spec(toks)[i] == Some(j + 1),
        jump_table_spec(toks)[j] == Some(i + 1),
{
    let n = toks.len() as int;
    let si = jump_state_at(toks, i);
    let si1 = jump_state_at(toks, i + 1);
    assert(si1.stack == si.stack.push(i));
    let inner = toks.subrange(i + 1, j);
    assert forall|k: int| i + 1 <= k <= j implies bracket_count(#[trigger] toks.subrange(i + 1, k))
        >= 0 by {
        let m = k - (i + 1);
        assert(inner.subrange(0, m) =~= toks.subrange(i + 1, k));
        assert(bracket_count(inner.subrange(0, m)) >= 0);
    }
    lemma_segment(toks, i + 1, j);
    let sj = jump_state_at(toks, j);
    assert(sj.stack.len() == si1.stack.len());
    assert(sj.stack =~= si1.stack);
    assert(sj.stack.last() == i);
    let sj1 = jump_state_at(toks, j + 1);
    lemma_jump_state_inv(toks, j);
    assert(sj1.table[i] == Some(j + 1));
    assert(sj1.table[j] == Some(i + 1));
    lemma_table_persists(toks, j + 1, n, i);
    lemma_table_persists(toks, j + 1, n, j);
}

/// In a balanced program every bracket resolves: each open and each
/// close receives a jump-table entry, so an entry can only be missing
/// when the program is malformed.
pub proof fn lemma_balanced_program_resolves(toks: Seq<Token>)
    requires
        balanced(toks),
    ensures
        forall|k: int|
            0 <= k < toks.len() && (is_open(#[trigger] toks[k]) || is_close(toks[k]))
                ==> jump_table_spec(toks)[k] is Some,
{
    let n = toks.len() as int;
    lemma_jump_state_inv(toks, n);
    lemma_segment(toks, 0, n);
    let sf = jump_state_at(toks, n);
    assert(toks.subrange(0, n) =~= toks);
    assert(sf.stack.len() == 0);
    assert forall|k: int|
        0 <= k < n && (is_open(#[trigger] toks[k]) || is_close(toks[k])) implies jump_table_spec(
        toks,
    )[k] is Some by {
        if is_open(toks[k]) {
            assert(!sf.stack.contains(k));
        } else {
            lemma_count_snoc(toks, 0, k + 1);
            lemma_segment(toks, 0, k);
            lemma_jump_state_inv(toks, k);
            let sk = jump_state_at(toks, k);
            assert(bracket_count(toks.subrange(0, k + 1)) >= 0);
            assert(sk.stack.len() >= 1);
            let sk1 = jump_state_at(toks, k + 1);
            assert(sk1.table[k] is Some);
            lemma_table_persists(toks, k + 1, n, k);
        }
    }
}

/// Single left-to-right pass with an explicit stack of open-bracket
/// indices. On a close, the matching open (if any) gets the index one
/// past the close, and the close gets the index one past the open; an
/// unmatched close or open receives no entry.
pub fn build_jump_map(tokens: &Vec<Token>) -> (table: Vec<Option<usize>>)
    ensures
        table@.len() == tokens@.len(),
        table_view(table@) == jump_table_spec(tokens@),
{
    let n = tokens.len();
    let mut table: Vec<Option<usize>> = Vec::new();
    let mut i: usize = 0;
    while i < n
        invariant
            0 <= i <= n,
            table@.len() == i,
            forall|k: int| 0 <= k < i ==> #[trigger] table@[k] is None,
        decreases n - i,
    {
        table.push(None);
        i = i + 1;
    }
    proof {
        assert(table_view(table@) =~= jump_init(tokens@.len()).table);
    }
    let mut stack: Vec<usize> = Vec::new();
    let mut i: usize = 0;
    while i < n
        invariant
            n == tokens@.len(),
            0 <= i <= n,
            table@.len() == n,
            stack_view(stack@) == jump_state_at(tokens@, i as int).stack,
            table_view(table@) == jump_state_at(tokens@, i as int).table,
            forall|a: int| 0 <= a < stack@.len() ==> #[trigger] stack@[a] < i,
        decreases n - i,
    {
        let ghost prev = jump_state_at(tokens@, i as int);
        let t = tokens[i];
        match t.tp {
            TokenType::LeftSquare => {
                stack.push(i);
                proof {
                    assert(stack_view(stack@) =~= prev.stack.push(i as int));
                }
            },
            TokenType::RightSquare => {
                match stack.pop() {
                    Some(j) => {
                        table[i] = Some(j + 1);
                        table[j] = Some(i + 1);
                        proof {
                            assert(prev.stack.len() > 0);
                            assert(j as int == prev.stack.last());
                            assert(stack_view(stack@) =~= prev.stack.drop_last());
                            assert(table_view(table@) =~= prev.table.update(
                                i as int,
                                Some(j + 1 as int),
                            ).update(j as int, Some(i + 1 as int)));
                        }
                    },
                    None => {
                        proof {
                            assert(prev.stack.len() == 0);
                        }
                    },
                }
            },
            _ => {
            },
        }
        i = i + 1;
    }
    table
}

} // verus!
