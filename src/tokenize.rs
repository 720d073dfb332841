use vstd::prelude::*;
use vstd::string::*;

use crate::infer::is_quote;

verus! {

/// The views of a sequence of strings.
pub open spec fn views(v: Seq<String>) -> Seq<Seq<char>> {
    v.map_values(|t: String| t@)
}

/// The characters that make a token of their own.
pub open spec fn is_punct(c: char) -> bool {
    c == ':' || c == '(' || c == ')' || c == ',' || c == '='
}

/// The scanner's state: tokens done, the token being built, whether a
/// string is open, whether an escape was seen, whether a comment began.
pub struct ScanState {
    pub out: Seq<Seq<char>>,
    pub cur: Seq<char>,
    pub instr: bool,
    pub esc: bool,
    pub done: bool,
}

/// Ends the current token; an empty one is dropped.
pub open spec fn flush(out: Seq<Seq<char>>, cur: Seq<char>) -> Seq<Seq<char>> {
    if cur.len() == 0 {
        out
    } else {
        out.push(cur)
    }
}

/// What one character does to the scanner.
pub open spec fn step(st: ScanState, c: char) -> ScanState {
    if st.done || c == '\t' {
        st
    } else if c == ' ' {
        if st.instr {
            ScanState { cur: st.cur.push(' '), ..st }
        } else {
            ScanState { out: flush(st.out, st.cur), cur: Seq::empty(), ..st }
        }
    } else if is_punct(c) {
        ScanState { out: flush(st.out, st.cur).push(seq![c]), cur: Seq::empty(), ..st }
    } else if is_quote(c) {
        ScanState { cur: st.cur.push('\''), instr: if st.esc { st.instr } else { !st.instr }, ..st }
    } else if c == '\\' {
        ScanState { cur: st.cur.push('\\'), esc: true, ..st }
    } else if c == '#' {
        ScanState { done: true, ..st }
    } else {
        ScanState { cur: st.cur.push(c), ..st }
    }
}

/// The scanner's state after reading all of `s`.
pub open spec fn scan(s: Seq<char>) -> ScanState
    decreases s.len(),
{
    if s.len() == 0 {
        ScanState { out: Seq::empty(), cur: Seq::empty(), instr: false, esc: false, done: false }
    } else {
        step(scan(s.drop_last()), s.last())
    }
}

/// The tokens of a line.
pub open spec fn tokens_of(s: Seq<char>) -> Seq<Seq<char>> {
    let st = scan(s);
    flush(st.out, st.cur)
}

fn push_token(out: &mut Vec<String>, cur: String)
    ensures
        views(final(out)@) == flush(views(old(out)@), cur@),
{
    if cur.unicode_len() != 0 {
        let ghost o = out@;
        out.push(cur);
        assert(views(out@) =~= views(o).push(cur@));
    }
}

/// Splits one line into tokens: blanks separate, `: ( ) , =` stand alone,
/// quotes open and close strings (kept, written as `'`), `#` ends the line.
pub fn tokenize(line: &str) -> (r: Vec<String>)
    ensures
        views(r@) == tokens_of(line@),
        forall|k: int| 0 <= k < r.len() ==> r@[k]@.len() > 0,
{
    let mut out: Vec<String> = Vec::new();
    let mut cur = String::new();
    let mut instr = false;
    let mut esc = false;
    let mut comment = false;
    for c in it: line.chars()
        invariant
            it.seq() == line@,
            ({
                let st = scan(line@.take(it.index() as int));
                &&& views(out@) == st.out
                &&& cur@ == st.cur
                &&& instr == st.instr
                &&& esc == st.esc
                &&& comment == st.done
            }),
    {
        assert(line@.take(it.index() + 1).drop_last() =~= line@.take(it.index() as int));
        if comment || c == '\t' {
        } else if c == ' ' {
            if instr {
                cur.push(' ');
            } else {
                push_token(&mut out, cur);
                cur = String::new();
            }
        } else if c == ':' || c == '(' || c == ')' || c == ',' || c == '=' {
            push_token(&mut out, cur);
            let mut p = String::new();
            p.push(c);
            let ghost o = out@;
            out.push(p);
            assert(views(out@) =~= views(o).push(seq![c]));
            cur = String::new();
        } else if c == '\'' || c == '"' {
            if !esc {
                instr = !instr;
            }
            cur.push('\'');
        } else if c == '\\' {
            esc = true;
            cur.push('\\');
        } else if c == '#' {
            comment = true;
        } else {
            cur.push(c);
        }
    }
    assert(line@.take(line@.len() as int) =~= line@);
    push_token(&mut out, cur);
    proof {
        lemma_tokens_nonempty(line@);
        assert forall|k: int| 0 <= k < out.len() implies out@[k]@.len() > 0 by {
            assert(views(out@)[k] == out@[k]@);
            assert(views(out@)[k].len() > 0);
        }
    }
    out
}

pub open spec fn all_nonempty(t: Seq<Seq<char>>) -> bool {
    forall|k: int| 0 <= k < t.len() ==> (#[trigger] t[k]).len() > 0
}

proof fn lemma_flush_nonempty(out: Seq<Seq<char>>, cur: Seq<char>)
    requires
        all_nonempty(out),
    ensures
        all_nonempty(flush(out, cur)),
{
    if cur.len() > 0 {
        assert forall|k: int| 0 <= k < flush(out, cur).len() implies (#[trigger] flush(
            out,
            cur,
        )[k]).len() > 0 by {
            if k < out.len() {
                assert(flush(out, cur)[k] == out[k]);
            }
        }
    }
}

/// The scanner never keeps an empty token.
proof fn lemma_tokens_nonempty(s: Seq<char>)
    ensures
        all_nonempty(scan(s).out),
        all_nonempty(tokens_of(s)),
    decreases s.len(),
{
    if s.len() > 0 {
        let prev = scan(s.drop_last());
        let c = s.last();
        lemma_tokens_nonempty(s.drop_last());
        lemma_flush_nonempty(prev.out, prev.cur);
        if !prev.done && c != '\t' && c != ' ' && is_punct(c) {
            let f = flush(prev.out, prev.cur);
            assert forall|k: int| 0 <= k < f.push(seq![c]).len() implies (#[trigger] f.push(
                seq![c],
            )[k]).len() > 0 by {
                if k < f.len() {
                    assert(f.push(seq![c])[k] == f[k]);
                }
            }
        }
    }
    lemma_flush_nonempty(scan(s).out, scan(s).cur);
}

} // verus!
