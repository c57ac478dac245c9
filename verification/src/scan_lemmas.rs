//! Facts about the parenthesis scanner: which texts it passes over without
//! closing the call, and what it therefore finds as the arguments of a call.

use vstd::prelude::*;
use crate::metadata::{
    balanced_block, block_end, closes_at, is_block_end, lemma_block_end_is, opening, scan,
    scan_step, ScanMode, ScanState,
};
use crate::text::first_occurrence;
use crate::text_lemmas::lemma_first_occurrence_extends;

verus! {

/// The scanner in plain text with `depth` parentheses open.
pub open spec fn plain(depth: int) -> ScanState {
    ScanState { depth, mode: ScanMode::Plain }
}

/// The scanner inside a string literal with `depth` parentheses open.
pub open spec fn quoted(depth: int) -> ScanState {
    ScanState { depth, mode: ScanMode::Quoted }
}

/// The state with `by` more parentheses open.
pub open spec fn raised(st: ScanState, by: int) -> ScanState {
    ScanState { depth: st.depth + by, mode: st.mode }
}

/// Text that holds neither a quote nor a parenthesis.
pub open spec fn is_plain_text(s: Seq<char>) -> bool {
    forall|i: int| 0 <= i < s.len() ==> (#[trigger] s[i]) != '"' && s[i] != '(' && s[i] != ')'
}

/// While scanning `s` from `st`, the count of open parentheses never falls
/// below `floor`.
pub open spec fn never_below(st: ScanState, s: Seq<char>, floor: int) -> bool {
    forall|k: int| 0 <= k <= s.len() ==> (#[trigger] scan(st, s.take(k))).depth >= floor
}

/// Text in which every string literal is closed and every parenthesis has
/// its partner: the scanner comes out of it as it went in, and on the way
/// never has fewer parentheses open than at the start.
pub open spec fn is_balanced(s: Seq<char>) -> bool {
    scan(plain(0), s) == plain(0) && never_below(plain(0), s, 0)
}

/// Scanning one character is one step.
pub proof fn lemma_scan_one(st: ScanState, c: char)
    ensures
        scan(st, seq![c]) == scan_step(st, c),
{
    let s = seq![c];
    assert(s.drop_last() =~= Seq::<char>::empty());
    assert(scan(st, s.drop_last()) == st);
    assert(s.last() == c);
}

/// Scanning a text in two parts is scanning the second from where the first
/// ended.
pub proof fn lemma_scan_concat(st: ScanState, a: Seq<char>, b: Seq<char>)
    ensures
        scan(st, a + b) == scan(scan(st, a), b),
    decreases b.len(),
{
    if b.len() == 0 {
        assert(a + b =~= a);
    } else {
        lemma_scan_concat(st, a, b.drop_last());
        assert((a + b).drop_last() =~= a + b.drop_last());
        assert((a + b).last() == b.last());
    }
}

/// With more parentheses open at the start, as many more are open at the
/// end, and nothing else differs.
pub proof fn lemma_scan_raised(st: ScanState, s: Seq<char>, by: int)
    ensures
        scan(raised(st, by), s) == raised(scan(st, s), by),
    decreases s.len(),
{
    if s.len() > 0 {
        lemma_scan_raised(st, s.drop_last(), by);
    }
}

/// The scanner passes over plain text unchanged.
pub proof fn lemma_scan_plain(depth: int, s: Seq<char>)
    requires
        is_plain_text(s),
    ensures
        scan(plain(depth), s) == plain(depth),
        never_below(plain(depth), s, depth),
    decreases s.len(),
{
    if s.len() > 0 {
        let shorter = s.drop_last();
        assert forall|i: int| 0 <= i < shorter.len() implies (#[trigger] shorter[i]) != '"'
            && shorter[i] != '(' && shorter[i] != ')' by {
            assert(shorter[i] == s[i]);
        }
        lemma_scan_plain(depth, shorter);
        assert(s.last() == s[s.len() - 1]);
    }
    assert forall|k: int| 0 <= k <= s.len() implies (#[trigger] scan(
        plain(depth),
        s.take(k),
    )).depth >= depth by {
        if k == s.len() {
            assert(s.take(k) =~= s);
        } else {
            assert(s.take(k) =~= s.drop_last().take(k));
        }
    }
}

/// What holds of the depth over each of two parts holds over both.
pub proof fn lemma_never_below_concat(st: ScanState, a: Seq<char>, b: Seq<char>, floor: int)
    requires
        never_below(st, a, floor),
        never_below(scan(st, a), b, floor),
    ensures
        never_below(st, a + b, floor),
{
    let whole = a + b;
    assert forall|k: int| 0 <= k <= whole.len() implies (#[trigger] scan(st, whole.take(k))).depth
        >= floor by {
        if k <= a.len() {
            assert(whole.take(k) =~= a.take(k));
        } else {
            let rest = b.take(k - a.len());
            assert(whole.take(k) =~= a + rest);
            lemma_scan_concat(st, a, rest);
            assert(scan(scan(st, a), rest).depth >= floor);
        }
    }
}

/// The depth over one character.
pub proof fn lemma_never_below_one(st: ScanState, c: char, floor: int)
    requires
        st.depth >= floor,
        scan_step(st, c).depth >= floor,
    ensures
        never_below(st, seq![c], floor),
{
    let s = seq![c];
    assert forall|k: int| 0 <= k <= s.len() implies (#[trigger] scan(st, s.take(k))).depth
        >= floor by {
        if k == 0 {
            assert(s.take(0) =~= Seq::<char>::empty());
        } else {
            assert(s.take(k) =~= s);
            lemma_scan_one(st, c);
        }
    }
}

/// With more parentheses open at the start, the depth stays as much higher.
pub proof fn lemma_never_below_raised(st: ScanState, s: Seq<char>, floor: int, by: int)
    requires
        never_below(st, s, floor),
    ensures
        never_below(raised(st, by), s, floor + by),
{
    assert forall|k: int| 0 <= k <= s.len() implies (#[trigger] scan(
        raised(st, by),
        s.take(k),
    )).depth >= floor + by by {
        lemma_scan_raised(st, s.take(k), by);
        assert(scan(st, s.take(k)).depth >= floor);
    }
}

/// Plain text is balanced.
pub proof fn lemma_balanced_plain(s: Seq<char>)
    requires
        is_plain_text(s),
    ensures
        is_balanced(s),
{
    lemma_scan_plain(0, s);
}

/// Two balanced texts, one after the other, are balanced.
pub proof fn lemma_balanced_concat(a: Seq<char>, b: Seq<char>)
    requires
        is_balanced(a),
        is_balanced(b),
    ensures
        is_balanced(a + b),
{
    lemma_scan_concat(plain(0), a, b);
    lemma_never_below_concat(plain(0), a, b, 0);
}

/// A balanced text in parentheses is balanced.
pub proof fn lemma_balanced_nested(inner: Seq<char>)
    requires
        is_balanced(inner),
    ensures
        is_balanced(seq!['('] + inner + seq![')']),
{
    let open = seq!['('];
    let close = seq![')'];
    lemma_scan_one(plain(0), '(');
    lemma_never_below_one(plain(0), '(', 0);
    assert(plain(1) == raised(plain(0), 1));
    lemma_scan_raised(plain(0), inner, 1);
    lemma_never_below_raised(plain(0), inner, 0, 1);
    lemma_scan_concat(plain(0), open, inner);
    assert(never_below(plain(1), inner, 0)) by {
        assert forall|k: int| 0 <= k <= inner.len() implies (#[trigger] scan(
            plain(1),
            inner.take(k),
        )).depth >= 0 by {
            assert(scan(raised(plain(0), 1), inner.take(k)).depth >= 1);
        }
    }
    lemma_never_below_concat(plain(0), open, inner, 0);
    lemma_scan_one(plain(1), ')');
    lemma_never_below_one(plain(1), ')', 0);
    lemma_scan_concat(plain(0), open + inner, close);
    lemma_never_below_concat(plain(0), open + inner, close, 0);
}

/// The call whose arguments are a balanced text closes right behind them.
pub proof fn lemma_block_end_of_balanced(args: Seq<char>, after: Seq<char>)
    requires
        is_balanced(args),
    ensures
        block_end(args + seq![')'] + after) == Some(args.len() as int),
        (args + seq![')'] + after).take(args.len() as int) == args,
{
    let rest = args + seq![')'] + after;
    let n = args.len() as int;
    assert(opening() == raised(plain(0), 1));
    assert forall|m: int| 0 <= m < n implies !closes_at(rest, m) by {
        assert(rest.take(m + 1) =~= args.take(m + 1));
        lemma_scan_raised(plain(0), args.take(m + 1), 1);
        assert(scan(plain(0), args.take(m + 1)).depth >= 0);
    }
    assert(rest.take(n + 1) =~= args + seq![')']);
    lemma_scan_concat(opening(), args, seq![')']);
    lemma_scan_raised(plain(0), args, 1);
    lemma_scan_one(plain(1), ')');
    assert(closes_at(rest, n));
    assert(is_block_end(rest, n));
    lemma_block_end_is(rest, n);
    assert(rest.take(n) =~= args);
}

/// The arguments of a call are found as they were written: where the marker
/// of the call stands first at the end of `before`, and the arguments are a
/// balanced text, the block that is taken out is the arguments, whatever
/// follows the closing parenthesis.
pub proof fn lemma_balanced_block(
    before: Seq<char>,
    marker: Seq<char>,
    args: Seq<char>,
    after: Seq<char>,
)
    requires
        first_occurrence(before + marker, marker, 0) == Some(before.len() as int),
        is_balanced(args),
    ensures
        balanced_block(before + marker + args + seq![')'] + after, marker) == Some(args),
{
    let input = before + marker + args + seq![')'] + after;
    let tail = args + seq![')'] + after;
    assert(input =~= (before + marker) + tail);
    lemma_first_occurrence_extends(before + marker, tail, marker, before.len() as int);
    let start = before.len() + marker.len();
    assert(input.subrange(start as int, input.len() as int) =~= tail);
    lemma_block_end_of_balanced(args, after);
}

} // verus!
