//! Marking where a search occurs in a log line, for drawing the matches
//! highlighted. The search ignores case as the log search does: both texts
//! are lowercased first.
use vstd::prelude::*;
use crate::text::{chars_of, contains_seq, find_from_exec, lemma_find_from, occurs_at, str_to_lowercase, unicode_lowercase};

verus! {

/// A run of a line by character positions `start..end`, and whether it is
/// an occurrence of the search.
#[derive(Debug, Clone, Copy, PartialEq, Eq, Structural)]
pub struct Mark {
    pub start: usize,
    pub end: usize,
    pub hit: bool,
}

/// `m` cuts `0..end` of `s` into runs: in order, each nonempty, each
/// occurrence run exactly an occurrence of `q` where it stands, no
/// occurrence of `q` starting inside another run, and never two runs
/// without an occurrence side by side.
pub open spec fn runs_of(s: Seq<char>, q: Seq<char>, m: Seq<Mark>, end: int) -> bool {
    &&& m.len() == 0 ==> end == 0
    &&& m.len() > 0 ==> m[0].start == 0 && m.last().end == end
    &&& forall|k: int| 0 <= k < m.len() ==> (#[trigger] m[k]).start < m[k].end
    &&& forall|k1: int, k2: int|
        #![trigger m[k1], m[k2]]
        0 <= k1 && k2 == k1 + 1 && k2 < m.len() ==> m[k1].end == m[k2].start && (m[k1].hit || m[k2].hit)
    &&& forall|k: int|
        0 <= k < m.len() && (#[trigger] m[k]).hit ==> m[k].end - m[k].start == q.len() && occurs_at(
            s,
            q,
            m[k].start as int,
        )
    &&& forall|k: int, p: int|
        #![trigger m[k], occurs_at(s, q, p)]
        0 <= k < m.len() && !m[k].hit && m[k].start <= p < m[k].end ==> !occurs_at(s, q, p)
}

/// The whole line as one run without an occurrence (nothing for an empty
/// line).
pub open spec fn plain_line(n: nat) -> Seq<Mark> {
    if n == 0 {
        seq![]
    } else {
        seq![Mark { start: 0, end: n as usize, hit: false }]
    }
}

/// The runs of `line` for the search `search`: the occurrences of the
/// lowercased search in the lowercased line, leftmost first and without
/// overlap. When the search lowercases to nothing, or lowercasing changes
/// the line's length (positions would not correspond), the line is one
/// run without an occurrence.
pub fn search_marks(line: &str, search: &str) -> (r: Vec<Mark>)
    ensures
        ({
            let s = unicode_lowercase(line@);
            let q = unicode_lowercase(search@);
            if q.len() > 0 && s.len() == line@.len() {
                runs_of(s, q, r@, s.len() as int)
            } else {
                r@ == plain_line(line@.len())
            }
        }),
{
    let given = chars_of(line);
    let s = chars_of(str_to_lowercase(line).as_str());
    let q = chars_of(str_to_lowercase(search).as_str());
    let n = given.len();
    if q.len() == 0 || s.len() != n {
        let mut r: Vec<Mark> = Vec::new();
        if n > 0 {
            r.push(Mark { start: 0, end: n, hit: false });
        }
        assert(r@ =~= plain_line(line@.len()));
        return r;
    }
    let ghost sv = s@;
    let ghost qv = q@;
    let mut marks: Vec<Mark> = Vec::new();
    let mut i: usize = 0;
    let mut done = false;
    while !done
        invariant
            sv == s@,
            qv == q@,
            qv.len() > 0,
            i <= sv.len(),
            runs_of(sv, qv, marks@, i as int),
            marks@.len() > 0 ==> marks@.last().hit,
            done ==> forall|p: int| i <= p ==> !occurs_at(sv, qv, p),
        decreases 2 * (sv.len() - i) + (if done { 0int } else { 1int }),
    {
        proof {
            lemma_find_from(sv, qv, i as int);
        }
        match find_from_exec(&s, &q, i) {
            None => {
                done = true;
            },
            Some(k) => {
                let ghost m0 = marks@;
                let e = k + q.len();
                if k > i {
                    marks.push(Mark { start: i, end: k, hit: false });
                }
                let ghost m1 = marks@;
                marks.push(Mark { start: k, end: e, hit: true });
                proof {
                    let m2 = marks@;
                    assert forall|k1: int, k2: int|
                        #![trigger m2[k1], m2[k2]]
                        0 <= k1 && k2 == k1 + 1 && k2 < m2.len() implies m2[k1].end == m2[k2].start && (
                        m2[k1].hit || m2[k2].hit) by {
                        if k2 < m0.len() {
                            assert(m0[k1] == m2[k1] && m0[k2] == m2[k2]);
                        }
                    }
                    assert forall|kk: int, p: int|
                        #![trigger m2[kk], occurs_at(sv, qv, p)]
                        0 <= kk < m2.len() && !m2[kk].hit && m2[kk].start <= p < m2[kk].end implies !occurs_at(
                        sv,
                        qv,
                        p,
                    ) by {
                        if kk < m0.len() {
                            assert(m0[kk] == m2[kk]);
                        }
                    }
                    assert forall|kk: int|
                        0 <= kk < m2.len() && (#[trigger] m2[kk]).hit implies m2[kk].end - m2[kk].start == qv.len()
                        && occurs_at(sv, qv, m2[kk].start as int) by {
                        if kk < m0.len() {
                            assert(m0[kk] == m2[kk]);
                        }
                    }
                    assert forall|kk: int| 0 <= kk < m2.len() implies (#[trigger] m2[kk]).start < m2[kk].end by {
                        if kk < m0.len() {
                            assert(m0[kk] == m2[kk]);
                        }
                    }
                    if m0.len() > 0 {
                        assert(m2[0] == m0[0]);
                    }
                }
                i = e;
            },
        }
    }
    let ghost m0 = marks@;
    if i < n {
        marks.push(Mark { start: i, end: n, hit: false });
        proof {
            let m2 = marks@;
            assert forall|k1: int, k2: int|
                #![trigger m2[k1], m2[k2]]
                0 <= k1 && k2 == k1 + 1 && k2 < m2.len() implies m2[k1].end == m2[k2].start && (m2[k1].hit
                || m2[k2].hit) by {
                if k2 < m0.len() {
                    assert(m0[k1] == m2[k1] && m0[k2] == m2[k2]);
                }
            }
            assert forall|kk: int, p: int|
                #![trigger m2[kk], occurs_at(sv, qv, p)]
                0 <= kk < m2.len() && !m2[kk].hit && m2[kk].start <= p < m2[kk].end implies !occurs_at(sv, qv, p) by {
                if kk < m0.len() {
                    assert(m0[kk] == m2[kk]);
                }
            }
            assert forall|kk: int|
                0 <= kk < m2.len() && (#[trigger] m2[kk]).hit implies m2[kk].end - m2[kk].start == qv.len()
                && occurs_at(sv, qv, m2[kk].start as int) by {
                if kk < m0.len() {
                    assert(m0[kk] == m2[kk]);
                }
            }
            assert forall|kk: int| 0 <= kk < m2.len() implies (#[trigger] m2[kk]).start < m2[kk].end by {
                if kk < m0.len() {
                    assert(m0[kk] == m2[kk]);
                }
            }
            if m0.len() > 0 {
                assert(m2[0] == m0[0]);
            }
        }
    }
    marks
}

/// Every position of `0..end` lies in one of the runs.
proof fn lemma_runs_cover(s: Seq<char>, q: Seq<char>, m: Seq<Mark>, end: int, p: int)
    requires
        runs_of(s, q, m, end),
        0 <= p < end,
    ensures
        exists|k: int| 0 <= k < m.len() && #[trigger] m[k].start <= p < m[k].end,
    decreases m.len(),
{
    let last = m.len() - 1;
    if m[last].start <= p {
        assert(m[last].start <= p < m[last].end);
    } else {
        assert(last > 0);
        let before = m.drop_last();
        assert(m[last - 1].end == m[last].start) by {
            let k1 = last - 1;
            let k2 = last;
            assert(0 <= k1 && k2 == k1 + 1 && k2 < m.len());
            assert(m[k1] == m[k1] && m[k2] == m[k2]);
        }
        assert forall|k1: int, k2: int|
            #![trigger before[k1], before[k2]]
            0 <= k1 && k2 == k1 + 1 && k2 < before.len() implies before[k1].end == before[k2].start && (
            before[k1].hit || before[k2].hit) by {
            assert(m[k1] == before[k1] && m[k2] == before[k2]);
        }
        assert forall|k: int| 0 <= k < before.len() implies (#[trigger] before[k]).start < before[k].end by {
            assert(m[k] == before[k]);
        }
        assert forall|k: int|
            0 <= k < before.len() && (#[trigger] before[k]).hit implies before[k].end - before[k].start
            == q.len() && occurs_at(s, q, before[k].start as int) by {
            assert(m[k] == before[k]);
        }
        assert forall|k: int, pp: int|
            #![trigger before[k], occurs_at(s, q, pp)]
            0 <= k < before.len() && !before[k].hit && before[k].start <= pp < before[k].end implies !occurs_at(
            s,
            q,
            pp,
        ) by {
            assert(m[k] == before[k]);
        }
        assert(before[0] == m[0]);
        lemma_runs_cover(s, q, before, m[last - 1].end as int, p);
        let k = choose|k: int| 0 <= k < before.len() && #[trigger] before[k].start <= p < before[k].end;
        assert(m[k] == before[k]);
    }
}

/// The log list highlights exactly the lines the search finds: a line's
/// runs hold an occurrence exactly when the lowercased search occurs in the
/// lowercased line.
pub proof fn law_marked_iff_found(line: Seq<char>, search: Seq<char>, m: Seq<Mark>)
    requires
        unicode_lowercase(search).len() > 0,
        unicode_lowercase(line).len() == line.len(),
        runs_of(unicode_lowercase(line), unicode_lowercase(search), m, line.len() as int),
    ensures
        (exists|k: int| 0 <= k < m.len() && #[trigger] m[k].hit) <==> contains_seq(
            unicode_lowercase(line),
            unicode_lowercase(search),
        ),
{
    let s = unicode_lowercase(line);
    let q = unicode_lowercase(search);
    if exists|k: int| 0 <= k < m.len() && #[trigger] m[k].hit {
        let k = choose|k: int| 0 <= k < m.len() && #[trigger] m[k].hit;
        assert(occurs_at(s, q, m[k].start as int));
    }
    if contains_seq(s, q) {
        let p = choose|p: int| occurs_at(s, q, p);
        lemma_runs_cover(s, q, m, line.len() as int, p);
        let k = choose|k: int| 0 <= k < m.len() && #[trigger] m[k].start <= p < m[k].end;
        assert(occurs_at(s, q, p));
        assert(m[k].hit);
    }
}

} // verus!
