//! Screen geometry: the virtual screen of the default X screen and the list of
//! monitors that Xinerama reports, ordered top to bottom, then left to right.
use vstd::prelude::*;

verus! {

/// A monitor rectangle: left, top, width and height in virtual-screen pixels.
pub type MonitorRect = (i32, i32, usize, usize);

/// One screen as reported by Xinerama.
#[derive(Clone, Copy, Debug)]
pub struct XineramaScreenInfo {
    pub screen_number: i32,
    pub x_org: i32,
    pub y_org: i32,
    pub width: i32,
    pub height: i32,
}

/// The virtual screen of a display whose default screen is `width` by `height`
/// pixels; a screen without area gives none.
pub fn virtual_screen_rect(width: i32, height: i32) -> (r: Option<MonitorRect>)
    ensures
        r == (if width <= 0 || height <= 0 {
            None
        } else {
            Some((0i32, 0i32, width as usize, height as usize))
        }),
{
    if width <= 0 || height <= 0 {
        return None;
    }
    Some((0, 0, width as usize, height as usize))
}

/// The rectangles of the screens that have an area, in the order reported.
pub open spec fn usable_screens(screens: Seq<XineramaScreenInfo>) -> Seq<MonitorRect>
    decreases screens.len(),
{
    if screens.len() == 0 {
        Seq::empty()
    } else {
        let earlier = usable_screens(screens.drop_last());
        let s = screens.last();
        if s.width > 0 && s.height > 0 {
            earlier.push((s.x_org, s.y_org, s.width as usize, s.height as usize))
        } else {
            earlier
        }
    }
}

/// The sort key of a rectangle: its top, then its left edge.
pub open spec fn position(r: MonitorRect) -> (i32, i32) {
    (r.1, r.0)
}

/// `a` comes no later than `b` in top-to-bottom, left-to-right order.
pub open spec fn placed_before_or_with(a: MonitorRect, b: MonitorRect) -> bool {
    a.1 < b.1 || (a.1 == b.1 && a.0 <= b.0)
}

pub open spec fn sorted_by_position(s: Seq<MonitorRect>) -> bool {
    forall|i: int, j: int| 0 <= i < j < s.len() ==> placed_before_or_with(s[i], s[j])
}

/// The rectangles of `s` at position `key`, in their order in `s`.
pub open spec fn at_position(s: Seq<MonitorRect>, key: (i32, i32)) -> Seq<MonitorRect>
    decreases s.len(),
{
    if s.len() == 0 {
        Seq::empty()
    } else if position(s.last()) == key {
        at_position(s.drop_last(), key).push(s.last())
    } else {
        at_position(s.drop_last(), key)
    }
}

/// `out` is the stable sort of `inp` by position: it is ordered, and the
/// rectangles that share a position keep their relative order.
pub open spec fn stable_sort_by_position(out: Seq<MonitorRect>, inp: Seq<MonitorRect>) -> bool {
    &&& out.len() == inp.len()
    &&& sorted_by_position(out)
    &&& forall|key: (i32, i32)| #[trigger] at_position(out, key) == at_position(inp, key)
}

proof fn lemma_at_position_concat(a: Seq<MonitorRect>, b: Seq<MonitorRect>, key: (i32, i32))
    ensures
        at_position(a + b, key) == at_position(a, key) + at_position(b, key),
    decreases b.len(),
{
    if b.len() == 0 {
        assert(a + b == a);
    } else {
        assert((a + b).drop_last() == a + b.drop_last());
        lemma_at_position_concat(a, b.drop_last(), key);
    }
}

proof fn lemma_at_position_absent(s: Seq<MonitorRect>, key: (i32, i32))
    requires
        forall|i: int| 0 <= i < s.len() ==> position(#[trigger] s[i]) != key,
    ensures
        at_position(s, key) == Seq::<MonitorRect>::empty(),
    decreases s.len(),
{
    if s.len() > 0 {
        lemma_at_position_absent(s.drop_last(), key);
    }
}

/// A rectangle is in a list exactly when it is among the list's rectangles at its position.
proof fn lemma_at_position_contains(s: Seq<MonitorRect>, r: MonitorRect)
    ensures
        s.contains(r) <==> at_position(s, position(r)).contains(r),
    decreases s.len(),
{
    if s.len() > 0 {
        let rest = s.drop_last();
        lemma_at_position_contains(rest, r);
        if s.contains(r) {
            let w = choose|w: int| 0 <= w < s.len() && s[w] == r;
            if w < rest.len() {
                assert(rest[w] == r);
                let v = choose|v: int|
                    0 <= v < at_position(rest, position(r)).len() && at_position(
                        rest,
                        position(r),
                    )[v] == r;
                assert(at_position(s, position(r))[v] == r);
            } else {
                let a = at_position(s, position(r));
                assert(a[a.len() - 1] == r);
            }
        }
        if at_position(s, position(r)).contains(r) {
            let a = at_position(s, position(r));
            let w = choose|w: int| 0 <= w < a.len() && a[w] == r;
            if position(s.last()) == position(r) && w == a.len() - 1 {
                assert(s[s.len() - 1] == r);
            } else {
                assert(at_position(rest, position(r))[w] == r);
                let v = choose|v: int| 0 <= v < rest.len() && rest[v] == r;
                assert(s[v] == r);
            }
        }
    }
}

/// A stable sort keeps exactly the rectangles it was given.
pub proof fn lemma_stable_sort_same_rects(out: Seq<MonitorRect>, inp: Seq<MonitorRect>, r: MonitorRect)
    requires
        stable_sort_by_position(out, inp),
    ensures
        out.contains(r) <==> inp.contains(r),
{
    lemma_at_position_contains(out, r);
    lemma_at_position_contains(inp, r);
    assert(at_position(out, position(r)) == at_position(inp, position(r)));
}

fn placed_before_or_with_exec(a: &MonitorRect, b: &MonitorRect) -> (r: bool)
    ensures
        r == placed_before_or_with(*a, *b),
{
    a.1 < b.1 || (a.1 == b.1 && a.0 <= b.0)
}

/// Sorts rectangles by top edge, then left edge, keeping rectangles at the same
/// position in their given order.
pub fn sort_by_position(rects: &Vec<MonitorRect>) -> (out: Vec<MonitorRect>)
    ensures
        stable_sort_by_position(out@, rects@),
{
    let mut out: Vec<MonitorRect> = Vec::new();
    let mut i: usize = 0;
    while i < rects.len()
        invariant
            i <= rects@.len(),
            out@.len() == i,
            sorted_by_position(out@),
            forall|key: (i32, i32)| #[trigger]
                at_position(out@, key) == at_position(rects@.take(i as int), key),
        decreases rects@.len() - i,
    {
        let e = rects[i];
        let mut p: usize = 0;
        while p < out.len() && placed_before_or_with_exec(&out[p], &e)
            invariant
                p <= out@.len(),
                forall|k: int| 0 <= k < p ==> placed_before_or_with(#[trigger] out@[k], e),
            decreases out@.len() - p,
        {
            p = p + 1;
        }
        let ghost old_out = out@;
        proof {
            assert forall|k: int| p <= k < old_out.len() implies !placed_before_or_with(
                #[trigger] old_out[k],
                e,
            ) by {
                assert(!placed_before_or_with(old_out[p as int], e));
                if k > p {
                    assert(placed_before_or_with(old_out[p as int], old_out[k]));
                }
            }
        }
        out.insert(p, e);
        proof {
            let front = old_out.subrange(0, p as int);
            let back = old_out.subrange(p as int, old_out.len() as int);
            assert(out@ == front.push(e) + back);
            assert(old_out == front + back);
            assert(front.push(e) == front + seq![e]);
            assert(rects@.take(i + 1) == rects@.take(i as int).push(e));
            assert forall|x: int, y: int| 0 <= x < y < out@.len() implies placed_before_or_with(
                out@[x],
                out@[y],
            ) by {
                if y < p {
                } else if y == p {
                    assert(out@[x] == old_out[x]);
                } else if x < p {
                    assert(out@[x] == old_out[x]);
                    assert(out@[y] == old_out[y - 1]);
                    assert(placed_before_or_with(old_out[x], e));
                    assert(!placed_before_or_with(old_out[y - 1], e));
                } else if x == p {
                    assert(out@[y] == old_out[y - 1]);
                    assert(!placed_before_or_with(old_out[y - 1], e));
                } else {
                    assert(out@[x] == old_out[x - 1]);
                    assert(out@[y] == old_out[y - 1]);
                }
            }
            assert forall|key: (i32, i32)| #[trigger]
                at_position(out@, key) == at_position(rects@.take(i + 1), key) by {
                let before = rects@.take(i as int);
                assert(at_position(old_out, key) == at_position(before, key));
                assert(rects@.take(i + 1).drop_last() == before);
                lemma_at_position_concat(front.push(e), back, key);
                lemma_at_position_concat(front, back, key);
                lemma_at_position_concat(front, seq![e], key);
                assert(seq![e].drop_last() == Seq::<MonitorRect>::empty());
                assert(at_position(Seq::<MonitorRect>::empty(), key) == Seq::<MonitorRect>::empty());
                if key == position(e) {
                    assert forall|k: int| 0 <= k < back.len() implies position(
                        #[trigger] back[k],
                    ) != key by {
                        assert(back[k] == old_out[p + k]);
                        assert(!placed_before_or_with(old_out[p + k], e));
                    }
                    lemma_at_position_absent(back, key);
                    assert(at_position(seq![e], key) == seq![e]);
                    assert(at_position(out@, key) == at_position(front, key) + seq![e]);
                    assert(at_position(old_out, key) == at_position(front, key));
                    assert(at_position(rects@.take(i + 1), key) == at_position(before, key).push(e));
                } else {
                    assert(at_position(seq![e], key) == Seq::<MonitorRect>::empty());
                    assert(at_position(out@, key) == at_position(front, key) + at_position(back, key));
                    assert(at_position(rects@.take(i + 1), key) == at_position(before, key));
                }
            }
        }
        i = i + 1;
    }
    assert(rects@.take(rects@.len() as int) == rects@);
    out
}

/// Every rectangle of `rects` is the origin and size of a screen of `screens`
/// that has an area.
pub open spec fn each_from_a_screen(rects: Seq<MonitorRect>, screens: Seq<XineramaScreenInfo>) -> bool {
    forall|j: int|
        0 <= j < rects.len() ==> exists|i: int|
            0 <= i < screens.len() && screens[i].width > 0 && screens[i].height > 0
                && #[trigger] rects[j] == (
                screens[i].x_org,
                screens[i].y_org,
                screens[i].width as usize,
                screens[i].height as usize,
            )
}

/// The monitors, ordered top to bottom, then left to right: the Xinerama
/// screens that have an area, or, when there is none, the virtual screen
/// (`fallback`); nothing when there is neither.
pub fn monitor_rects(screens: &Vec<XineramaScreenInfo>, fallback: Option<MonitorRect>) -> (r:
    Option<Vec<MonitorRect>>)
    ensures
        usable_screens(screens@).len() > 0 ==> (r matches Some(v) && stable_sort_by_position(
            v@,
            usable_screens(screens@),
        )),
        usable_screens(screens@).len() == 0 ==> (match fallback {
            Some(f) => r matches Some(v) && v@ == seq![f],
            None => r is None,
        }),
        forall|i: int|
            0 <= i < screens@.len() && screens@[i].width > 0 && screens@[i].height > 0 ==> (
            r matches Some(v) && v@.contains(
                (
                    screens@[i].x_org,
                    screens@[i].y_org,
                    screens@[i].width as usize,
                    screens@[i].height as usize,
                ),
            )),
        usable_screens(screens@).len() > 0 ==> (r matches Some(v) && each_from_a_screen(
            v@,
            screens@,
        )),
{
    let mut rects: Vec<MonitorRect> = Vec::new();
    let mut i: usize = 0;
    while i < screens.len()
        invariant
            i <= screens@.len(),
            rects@ == usable_screens(screens@.take(i as int)),
        decreases screens@.len() - i,
    {
        let info = screens[i];
        assert(screens@.take(i + 1).drop_last() == screens@.take(i as int));
        if info.width > 0 && info.height > 0 {
            rects.push((info.x_org, info.y_org, info.width as usize, info.height as usize));
        }
        i = i + 1;
    }
    assert(screens@.take(screens@.len() as int) == screens@);
    proof {
        lemma_usable_screens_exact(screens@);
    }
    let used_fallback = rects.len() == 0;
    if used_fallback {
        match fallback {
            Some(f) => {
                rects.push(f);
            },
            None => {
                return None;
            },
        }
        assert(rects@ == seq![fallback.unwrap()]);
    }
    let sorted = sort_by_position(&rects);
    proof {
        if !used_fallback {
            lemma_sorted_screens_listed(sorted@, screens@);
            let listed = usable_screens(screens@);
            assert forall|i: int|
                0 <= i < screens@.len() && screens@[i].width > 0 && screens@[i].height > 0
                    implies sorted@.contains(
                (
                    screens@[i].x_org,
                    screens@[i].y_org,
                    screens@[i].width as usize,
                    screens@[i].height as usize,
                ),
            ) by {
                lemma_stable_sort_same_rects(
                    sorted@,
                    listed,
                    (
                        screens@[i].x_org,
                        screens@[i].y_org,
                        screens@[i].width as usize,
                        screens@[i].height as usize,
                    ),
                );
            }
        } else {
            assert forall|i: int|
                0 <= i < screens@.len() && screens@[i].width > 0 && screens@[i].height > 0
                    implies false by {
                assert(usable_screens(screens@).contains(
                    (
                        screens@[i].x_org,
                        screens@[i].y_org,
                        screens@[i].width as usize,
                        screens@[i].height as usize,
                    ),
                ));
            }
        }
        if used_fallback {
            let f = fallback.unwrap();
            let key = position(sorted@[0]);
            assert(sorted@.len() == 1);
            assert(at_position(sorted@, key) == at_position(rects@, key));
            assert(sorted@.drop_last() == Seq::<MonitorRect>::empty());
            assert(rects@.drop_last() == Seq::<MonitorRect>::empty());
            assert(at_position(Seq::<MonitorRect>::empty(), key) == Seq::<MonitorRect>::empty());
            assert(at_position(sorted@, key) == seq![sorted@[0]]);
            if position(f) != key {
                assert(at_position(rects@, key) == Seq::<MonitorRect>::empty());
            }
            assert(at_position(rects@, key) == seq![f]);
            assert(sorted@ == seq![f]);
        }
    }
    Some(sorted)
}

/// Every monitor in the list has an area, and the list is never empty.
pub proof fn lemma_usable_screens_have_area(screens: Seq<XineramaScreenInfo>)
    ensures
        forall|i: int|
            0 <= i < usable_screens(screens).len() ==> (#[trigger] usable_screens(screens)[i]).2 > 0
                && usable_screens(screens)[i].3 > 0,
    decreases screens.len(),
{
    if screens.len() > 0 {
        lemma_usable_screens_have_area(screens.drop_last());
        let earlier = usable_screens(screens.drop_last());
        assert forall|i: int| 0 <= i < usable_screens(screens).len() implies (
        #[trigger] usable_screens(screens)[i]).2 > 0 && usable_screens(screens)[i].3 > 0 by {
            if i < earlier.len() {
                assert(usable_screens(screens)[i] == earlier[i]);
            }
        }
    }
}

/// Each Xinerama screen with a positive width and height is listed as exactly
/// its own origin and size (width first, then height), and every listed
/// rectangle is such a screen's; screens without an area are left out.
pub proof fn lemma_usable_screens_exact(screens: Seq<XineramaScreenInfo>)
    ensures
        forall|i: int|
            0 <= i < screens.len() && screens[i].width > 0 && screens[i].height > 0
                ==> usable_screens(screens).contains(
                (screens[i].x_org, screens[i].y_org, screens[i].width as usize, screens[i].height as usize),
            ),
        forall|j: int|
            0 <= j < usable_screens(screens).len() ==> exists|i: int|
                0 <= i < screens.len() && screens[i].width > 0 && screens[i].height > 0
                    && #[trigger] usable_screens(screens)[j] == (
                    screens[i].x_org,
                    screens[i].y_org,
                    screens[i].width as usize,
                    screens[i].height as usize,
                ),
    decreases screens.len(),
{
    if screens.len() > 0 {
        let rest = screens.drop_last();
        lemma_usable_screens_exact(rest);
        let earlier = usable_screens(rest);
        let all = usable_screens(screens);
        let n = screens.len() - 1;
        assert forall|i: int|
            0 <= i < screens.len() && screens[i].width > 0 && screens[i].height > 0
                implies all.contains(
                (screens[i].x_org, screens[i].y_org, screens[i].width as usize, screens[i].height as usize),
            ) by {
            let r = (screens[i].x_org, screens[i].y_org, screens[i].width as usize, screens[i].height as usize);
            if i < n {
                assert(rest[i] == screens[i]);
                assert(earlier.contains(r));
                let w = choose|w: int| 0 <= w < earlier.len() && earlier[w] == r;
                assert(all[w] == r);
            } else {
                assert(all[all.len() - 1] == r);
            }
        }
        assert forall|j: int| 0 <= j < all.len() implies exists|i: int|
            0 <= i < screens.len() && screens[i].width > 0 && screens[i].height > 0
                && #[trigger] all[j] == (
                screens[i].x_org,
                screens[i].y_org,
                screens[i].width as usize,
                screens[i].height as usize,
            ) by {
            if j < earlier.len() {
                assert(all[j] == earlier[j]);
                let i = choose|i: int|
                    0 <= i < rest.len() && rest[i].width > 0 && rest[i].height > 0
                        && #[trigger] earlier[j] == (
                        rest[i].x_org,
                        rest[i].y_org,
                        rest[i].width as usize,
                        rest[i].height as usize,
                    );
                assert(screens[i] == rest[i]);
            } else {
                assert(all[j] == (screens[n].x_org, screens[n].y_org, screens[n].width as usize, screens[n].height as usize));
            }
        }
    }
}


proof fn lemma_sorted_screens_listed(out: Seq<MonitorRect>, screens: Seq<XineramaScreenInfo>)
    requires
        stable_sort_by_position(out, usable_screens(screens)),
    ensures
        each_from_a_screen(out, screens),
{
    let listed = usable_screens(screens);
    lemma_usable_screens_exact(screens);
    assert forall|j: int| 0 <= j < out.len() implies exists|i: int|
        0 <= i < screens.len() && screens[i].width > 0 && screens[i].height > 0
            && #[trigger] out[j] == (
            screens[i].x_org,
            screens[i].y_org,
            screens[i].width as usize,
            screens[i].height as usize,
        ) by {
        lemma_stable_sort_same_rects(out, listed, out[j]);
        assert(out.contains(out[j]));
        let w = choose|w: int| 0 <= w < listed.len() && listed[w] == out[j];
        assert(listed[w] == out[j]);
    }
}


/// A list in position order runs top to bottom, then left to right: a
/// rectangle's top edge is never below that of a later one, and of two with the
/// same top edge the earlier one is not to the right.
pub proof fn lemma_position_order_is_rows(s: Seq<MonitorRect>)
    requires
        sorted_by_position(s),
    ensures
        forall|i: int, j: int| 0 <= i < j < s.len() ==> #[trigger] s[i].1 <= #[trigger] s[j].1,
        forall|i: int, j: int|
            0 <= i < j < s.len() && #[trigger] s[i].1 == #[trigger] s[j].1 ==> s[i].0 <= s[j].0,
{
    assert forall|i: int, j: int| 0 <= i < j < s.len() implies #[trigger] s[i].1 <= #[trigger] s[j].1 by {
        assert(placed_before_or_with(s[i], s[j]));
    }
    assert forall|i: int, j: int|
        0 <= i < j < s.len() && #[trigger] s[i].1 == #[trigger] s[j].1 implies s[i].0 <= s[j].0 by {
        assert(placed_before_or_with(s[i], s[j]));
    }
}

} // verus!
