//! The log's framing: one record per line, each line ended by a newline.

use vstd::prelude::*;

verus! {

/// The byte that ends each line of the log.
pub const NEWLINE: u8 = 10;

/// `s` holds no newline.
pub open spec fn no_newline(s: Seq<u8>) -> bool {
    forall|i: int| 0 <= i < s.len() ==> s[i] != NEWLINE
}

/// No line of `lines` holds a newline.
pub open spec fn clean_lines(lines: Seq<Seq<u8>>) -> bool {
    forall|i: int| 0 <= i < lines.len() ==> no_newline(#[trigger] lines[i])
}

/// The lines, each followed by a newline, one after the other.
pub open spec fn framed(lines: Seq<Seq<u8>>) -> Seq<u8>
    decreases lines.len(),
{
    if lines.len() == 0 {
        Seq::empty()
    } else {
        lines[0].push(NEWLINE) + framed(lines.drop_first())
    }
}

/// The contents of each buffer.
pub open spec fn contents(v: Seq<Vec<u8>>) -> Seq<Seq<u8>> {
    v.map_values(|x: Vec<u8>| x@)
}

/// Framing one more line appends it, with its newline, at the end.
pub proof fn lemma_framed_push(lines: Seq<Seq<u8>>, line: Seq<u8>)
    ensures
        framed(lines.push(line)) == framed(lines) + line.push(NEWLINE),
    decreases lines.len(),
{
    if lines.len() == 0 {
        assert(lines.push(line).drop_first() =~= Seq::<Seq<u8>>::empty());
        assert(lines.push(line)[0] == line);
        assert(framed(lines.push(line).drop_first()) == Seq::<u8>::empty());
        assert(framed(lines) == Seq::<u8>::empty());
        assert(framed(lines.push(line)) =~= line.push(NEWLINE) + Seq::<u8>::empty());
        assert(framed(lines) + line.push(NEWLINE) =~= line.push(NEWLINE));
    } else {
        assert(lines.push(line).drop_first() =~= lines.drop_first().push(line));
        lemma_framed_push(lines.drop_first(), line);
        assert(framed(lines.push(line)) =~= lines[0].push(NEWLINE) + (framed(lines.drop_first())
            + line.push(NEWLINE)));
    }
}

/// A log splits into newline-free lines and a newline-free rest in one way only, so
/// the lines read back from framed lines are those lines.
pub proof fn lemma_framing_unique(a: Seq<Seq<u8>>, ra: Seq<u8>, b: Seq<Seq<u8>>, rb: Seq<u8>)
    requires
        clean_lines(a),
        clean_lines(b),
        no_newline(ra),
        no_newline(rb),
        framed(a) + ra == framed(b) + rb,
    ensures
        a == b,
        ra == rb,
    decreases a.len(),
{
    if a.len() == 0 && b.len() == 0 {
        assert(framed(a) + ra =~= ra);
        assert(framed(b) + rb =~= rb);
    } else if a.len() == 0 {
        let s = framed(b) + rb;
        assert(framed(a) + ra =~= ra);
        assert(s[b[0].len() as int] == NEWLINE);
    } else if b.len() == 0 {
        let s = framed(a) + ra;
        assert(framed(b) + rb =~= rb);
        assert(s[a[0].len() as int] == NEWLINE);
    } else {
        let s = framed(a) + ra;
        let la = a[0].len() as int;
        let lb = b[0].len() as int;
        assert(no_newline(a[0]));
        assert(no_newline(b[0]));
        if la < lb {
            assert(s[la] == NEWLINE);
            assert(s[la] == b[0][la]);
        } else if lb < la {
            assert(s[lb] == NEWLINE);
            assert(s[lb] == a[0][lb]);
        }
        assert(a[0] =~= s.take(la));
        assert(b[0] =~= s.take(lb));
        let ta = framed(a.drop_first()) + ra;
        let tb = framed(b.drop_first()) + rb;
        assert(s =~= a[0].push(NEWLINE) + ta);
        assert(s =~= b[0].push(NEWLINE) + tb);
        assert(ta =~= s.skip(la + 1));
        assert(tb =~= s.skip(lb + 1));
        assert(clean_lines(a.drop_first())) by {
            assert forall|i: int| 0 <= i < a.drop_first().len() implies no_newline(
                #[trigger] a.drop_first()[i],
            ) by {
                assert(a.drop_first()[i] == a[i + 1]);
            }
        }
        assert(clean_lines(b.drop_first())) by {
            assert forall|i: int| 0 <= i < b.drop_first().len() implies no_newline(
                #[trigger] b.drop_first()[i],
            ) by {
                assert(b.drop_first()[i] == b[i + 1]);
            }
        }
        lemma_framing_unique(a.drop_first(), ra, b.drop_first(), rb);
        assert(a =~= seq![a[0]] + a.drop_first());
        assert(b =~= seq![b[0]] + b.drop_first());
    }
}

/// One record's bytes as a line of the log.
pub fn frame(record: &Vec<u8>) -> (r: Vec<u8>)
    ensures
        r@ == record@.push(NEWLINE),
{
    let mut r = record.clone();
    r.push(NEWLINE);
    r
}

/// Splits a log into its complete lines, without their newlines, and the partial
/// line after the last newline (empty where the log ends with one).
pub fn split_lines(log: &Vec<u8>) -> (r: (Vec<Vec<u8>>, Vec<u8>))
    ensures
        clean_lines(contents(r.0@)),
        no_newline(r.1@),
        framed(contents(r.0@)) + r.1@ == log@,
{
    let mut lines: Vec<Vec<u8>> = Vec::new();
    let mut current: Vec<u8> = Vec::new();
    let mut i: usize = 0;
    while i < log.len()
        invariant
            i <= log.len(),
            clean_lines(contents(lines@)),
            no_newline(current@),
            framed(contents(lines@)) + current@ == log@.take(i as int),
        decreases log.len() - i,
    {
        let b = log[i];
        let ghost before = contents(lines@);
        proof {
            assert(log@.take(i as int + 1) =~= log@.take(i as int).push(b));
        }
        if b == NEWLINE {
            proof {
                lemma_framed_push(before, current@);
            }
            let ghost line = current@;
            lines.push(current);
            current = Vec::new();
            proof {
                assert(contents(lines@) =~= before.push(line));
                assert(framed(contents(lines@)) + current@ =~= framed(before) + line.push(NEWLINE));
            }
        } else {
            current.push(b);
        }
        i = i + 1;
    }
    proof {
        assert(log@.take(log.len() as int) =~= log@);
    }
    (lines, current)
}

} // verus!
