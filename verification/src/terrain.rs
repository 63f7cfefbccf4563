use vstd::prelude::*;

verus! {

/// One step of midpoint displacement: the height at `mid` is set from the
/// heights at `left` and `right`, displaced at random by a roughness that
/// shrinks with `depth`.
#[derive(Clone, Copy, PartialEq, Eq, Debug, Structural)]
pub struct Midpoint {
    pub left: usize,
    pub mid: usize,
    pub right: usize,
    pub depth: usize,
}

/// The middle of an interval, rounded down.
pub open spec fn mid_of(left: usize, right: usize) -> usize {
    ((left + right) / 2) as usize
}

/// The steps of midpoint displacement between `left` and `right`, in the
/// order they are taken: the middle of the interval first, then all of the
/// left half, then all of the right half. Intervals of one segment or less
/// have no step.
pub open spec fn schedule(left: usize, right: usize, depth: usize) -> Seq<Midpoint>
    decreases right - left,
{
    if right - left <= 1 {
        Seq::empty()
    } else {
        let m: usize = mid_of(left, right);
        let d: usize = (depth + 1) as usize;
        seq![Midpoint { left, mid: m, right, depth }] + schedule(left, m, d) + schedule(m, right, d)
    }
}

fn schedule_into(left: usize, right: usize, depth: usize, out: &mut Vec<Midpoint>)
    requires
        left <= right,
        depth + (right - left) <= usize::MAX,
    ensures
        final(out)@ == old(out)@ + schedule(left, right, depth),
    decreases right - left,
{
    if right - left <= 1 {
        proof {
            assert(old(out)@ + schedule(left, right, depth) =~= old(out)@);
        }
        return;
    }
    let mid: usize = left + (right - left) / 2;
    assert(mid == mid_of(left, right));
    out.push(Midpoint { left, mid, right, depth });
    let ghost after_first = out@;
    schedule_into(left, mid, depth + 1, out);
    let ghost after_left = out@;
    schedule_into(mid, right, depth + 1, out);
    proof {
        let m: usize = mid;
        let d: usize = (depth + 1) as usize;
        assert(schedule(left, right, depth) == seq![Midpoint { left, mid: m, right, depth }] + schedule(left, m, d) + schedule(m, right, d));
        assert(out@ =~= old(out)@ + schedule(left, right, depth));
    }
}

/// The steps of midpoint displacement that fill the heights strictly between
/// `left` and `right`, whose own heights are set beforehand.
pub fn displacement_schedule(left: usize, right: usize) -> (r: Vec<Midpoint>)
    requires
        left <= right,
    ensures
        r@ == schedule(left, right, 0),
{
    let mut out: Vec<Midpoint> = Vec::new();
    schedule_into(left, right, 0, &mut out);
    assert(out@ =~= schedule(left, right, 0));
    out
}

/// Whether some step of `s` sets the height at `i`.
pub open spec fn sets_height(s: Seq<Midpoint>, i: usize) -> bool {
    exists|k: int| 0 <= k < s.len() && #[trigger] s[k].mid == i
}

/// Whether step `k` of `s` reads only heights that are known by then: each
/// end of its interval is an end of the whole interval or the middle of an
/// earlier step.
pub open spec fn reads_known(s: Seq<Midpoint>, k: int, left: usize, right: usize) -> bool {
    &&& (s[k].left == left || s[k].left == right || exists|j: int| 0 <= j < k && #[trigger] s[j].mid == s[k].left)
    &&& (s[k].right == left || s[k].right == right || exists|j: int| 0 <= j < k && #[trigger] s[j].mid == s[k].right)
}

/// Midpoint displacement sets every height strictly between the two ends
/// exactly once and no other, and every step reads only heights that are
/// set by then: the two ends or the middles of earlier steps. Each step sets
/// the middle of its own interval.
pub proof fn lemma_schedule_fills_once(left: usize, right: usize, depth: usize)
    requires
        left <= right,
    ensures
        schedule(left, right, depth).len() == (if right == left { 0 } else { right - left - 1 }),
        forall|k: int| 0 <= k < schedule(left, right, depth).len() ==> {
            let st = #[trigger] schedule(left, right, depth)[k];
            &&& left <= st.left < st.mid < st.right <= right
            &&& st.mid == mid_of(st.left, st.right)
        },
        forall|j: int, k: int|
            0 <= j < schedule(left, right, depth).len() && 0 <= k < schedule(left, right, depth).len() && j != k
                ==> #[trigger] schedule(left, right, depth)[j].mid != #[trigger] schedule(left, right, depth)[k].mid,
        forall|i: usize| left < i < right ==> #[trigger] sets_height(schedule(left, right, depth), i),
        forall|k: int| 0 <= k < schedule(left, right, depth).len() ==> #[trigger] reads_known(schedule(left, right, depth), k, left, right),
    decreases right - left,
{
    let s = schedule(left, right, depth);
    if right - left <= 1 {
        assert(s.len() == 0);
        assert forall|i: usize| left < i < right implies #[trigger] sets_height(s, i) by {
            assert(false);
        }
    } else {
        let m: usize = mid_of(left, right);
        let d: usize = (depth + 1) as usize;
        let first = seq![Midpoint { left, mid: m, right, depth }];
        let a = schedule(left, m, d);
        let b = schedule(m, right, d);
        lemma_schedule_fills_once(left, m, d);
        lemma_schedule_fills_once(m, right, d);
        assert(s == first + a + b);
        let la: int = a.len() as int;
        assert forall|k: int| 0 <= k < s.len() implies
            (k == 0 ==> s[k] == first[0])
            && (1 <= k < 1 + la ==> s[k] == a[k - 1])
            && (1 + la <= k ==> s[k] == b[k - 1 - la]) by {
        }
        assert forall|k: int| 0 <= k < s.len() implies {
            let st = #[trigger] s[k];
            &&& left <= st.left < st.mid < st.right <= right
            &&& st.mid == mid_of(st.left, st.right)
        } by {
            if k == 0 {
            } else if k < 1 + la {
                assert(s[k] == a[k - 1]);
            } else {
                assert(s[k] == b[k - 1 - la]);
            }
        }
        assert forall|j: int, k: int| 0 <= j < s.len() && 0 <= k < s.len() && j != k implies #[trigger] s[j].mid != #[trigger] s[k].mid by {
            if j == 0 {
                if k < 1 + la {
                    assert(s[k] == a[k - 1]);
                } else {
                    assert(s[k] == b[k - 1 - la]);
                }
            } else if j < 1 + la {
                assert(s[j] == a[j - 1]);
                if k == 0 {
                } else if k < 1 + la {
                    assert(s[k] == a[k - 1]);
                } else {
                    assert(s[k] == b[k - 1 - la]);
                }
            } else {
                assert(s[j] == b[j - 1 - la]);
                if k == 0 {
                } else if k < 1 + la {
                    assert(s[k] == a[k - 1]);
                } else {
                    assert(s[k] == b[k - 1 - la]);
                }
            }
        }
        assert forall|i: usize| left < i < right implies #[trigger] sets_height(s, i) by {
            if i == m {
                assert(s[0].mid == i);
            } else if i < m {
                assert(sets_height(a, i));
                let ka = choose|k: int| 0 <= k < a.len() && #[trigger] a[k].mid == i;
                assert(s[1 + ka] == a[ka]);
            } else {
                assert(sets_height(b, i));
                let kb = choose|k: int| 0 <= k < b.len() && #[trigger] b[k].mid == i;
                assert(s[1 + la + kb] == b[kb]);
            }
        }
        assert forall|k: int| 0 <= k < s.len() implies #[trigger] reads_known(s, k, left, right) by {
            if k == 0 {
            } else if k < 1 + la {
                let ka: int = k - 1;
                assert(s[k] == a[ka]);
                assert(reads_known(a, ka, left, m));
                if s[k].left != left && s[k].left != right {
                    if s[k].left == m {
                        assert(s[0].mid == s[k].left);
                    } else {
                        let j = choose|j: int| 0 <= j < ka && #[trigger] a[j].mid == a[ka].left;
                        assert(s[1 + j] == a[j]);
                        assert(s[1 + j].mid == s[k].left);
                    }
                }
                if s[k].right != left && s[k].right != right {
                    if s[k].right == m {
                        assert(s[0].mid == s[k].right);
                    } else {
                        let j = choose|j: int| 0 <= j < ka && #[trigger] a[j].mid == a[ka].right;
                        assert(s[1 + j] == a[j]);
                        assert(s[1 + j].mid == s[k].right);
                    }
                }
            } else {
                let kb: int = k - 1 - la;
                assert(s[k] == b[kb]);
                assert(reads_known(b, kb, m, right));
                if s[k].left != left && s[k].left != right {
                    if s[k].left == m {
                        assert(s[0].mid == s[k].left);
                    } else {
                        let j = choose|j: int| 0 <= j < kb && #[trigger] b[j].mid == b[kb].left;
                        assert(s[1 + la + j] == b[j]);
                        assert(s[1 + la + j].mid == s[k].left);
                    }
                }
                if s[k].right != left && s[k].right != right {
                    if s[k].right == m {
                        assert(s[0].mid == s[k].right);
                    } else {
                        let j = choose|j: int| 0 <= j < kb && #[trigger] b[j].mid == b[kb].right;
                        assert(s[1 + la + j] == b[j]);
                        assert(s[1 + la + j].mid == s[k].right);
                    }
                }
            }
        }
    }
}

/// Whether step `k` of `s` refines an earlier step: one whose middle is an
/// end of step `k`'s interval, whose interval contains it, and whose depth
/// is one less.
pub open spec fn has_parent(s: Seq<Midpoint>, k: int) -> bool {
    exists|j: int|
        0 <= j < k && (#[trigger] s[j].mid == s[k].left || s[j].mid == s[k].right) && s[j].depth + 1 == s[k].depth
            && s[j].left <= s[k].left && s[k].right <= s[j].right
}

/// The displacement starts with the middle of the whole interval at the
/// starting depth, and every later step halves the interval of an earlier
/// step, one level deeper.
pub proof fn lemma_schedule_depths(left: usize, right: usize, depth: usize)
    requires
        left <= right,
        depth + (right - left) <= usize::MAX,
    ensures
        right - left > 1 ==> schedule(left, right, depth)[0] == (Midpoint { left, mid: mid_of(left, right), right, depth }),
        forall|k: int| 0 <= k < schedule(left, right, depth).len() ==> #[trigger] schedule(left, right, depth)[k].depth >= depth,
        forall|k: int| 0 < k < schedule(left, right, depth).len() ==> #[trigger] has_parent(schedule(left, right, depth), k),
    decreases right - left,
{
    let s = schedule(left, right, depth);
    if right - left > 1 {
        let m: usize = mid_of(left, right);
        let d: usize = (depth + 1) as usize;
        let first = seq![Midpoint { left, mid: m, right, depth }];
        let a = schedule(left, m, d);
        let b = schedule(m, right, d);
        lemma_schedule_depths(left, m, d);
        lemma_schedule_depths(m, right, d);
        lemma_schedule_fills_once(left, m, d);
        lemma_schedule_fills_once(m, right, d);
        assert(s == first + a + b);
        let la: int = a.len() as int;
        assert forall|k: int| 0 <= k < s.len() implies #[trigger] s[k].depth >= depth by {
            if k == 0 {
            } else if k < 1 + la {
                assert(s[k] == a[k - 1]);
            } else {
                assert(s[k] == b[k - 1 - la]);
            }
        }
        assert forall|k: int| 0 < k < s.len() implies #[trigger] has_parent(s, k) by {
            if k < 1 + la {
                let ka: int = k - 1;
                assert(s[k] == a[ka]);
                if ka == 0 {
                    assert(a[0] == (Midpoint { left, mid: mid_of(left, m), right: m, depth: d }));
                    assert(s[0].mid == s[k].right);
                } else {
                    assert(has_parent(a, ka));
                    let j = choose|j: int|
                        0 <= j < ka && (#[trigger] a[j].mid == a[ka].left || a[j].mid == a[ka].right) && a[j].depth + 1 == a[ka].depth
                            && a[j].left <= a[ka].left && a[ka].right <= a[j].right;
                    assert(s[1 + j] == a[j]);
                }
            } else {
                let kb: int = k - 1 - la;
                assert(s[k] == b[kb]);
                if kb == 0 {
                    assert(b[0] == (Midpoint { left: m, mid: mid_of(m, right), right, depth: d }));
                    assert(s[0].mid == s[k].left);
                } else {
                    assert(has_parent(b, kb));
                    let j = choose|j: int|
                        0 <= j < kb && (#[trigger] b[j].mid == b[kb].left || b[j].mid == b[kb].right) && b[j].depth + 1 == b[kb].depth
                            && b[j].left <= b[kb].left && b[kb].right <= b[j].right;
                    assert(s[1 + la + j] == b[j]);
                }
            }
        }
    }
}

} // verus!
