//! Gradients: stops ordered by level, the pair of stops around a level, and
//! the colours blended between them.

use vstd::prelude::*;
use crate::color::{blend, darken, interpolate, lemma_interpolate, Color, ColorValue};
use crate::level::{Level, FULL};

verus! {

/// The mathematical value of a stop: its level in millionths and its colours.
pub struct StopValue {
    pub level: int,
    pub fg: ColorValue,
    pub bg: ColorValue,
}

/// An anchor of a gradient: at `level` the bar is drawn in `fg` where it is
/// filled and in `bg` where it is not.
#[derive(Copy, Clone, Debug, PartialEq, Eq, Structural)]
pub struct GradientStop {
    pub(crate) level: Level,
    pub(crate) fg: Color,
    pub(crate) bg: Color,
}

impl View for GradientStop {
    type V = StopValue;

    open(crate) spec fn view(&self) -> StopValue {
        StopValue { level: self.level@, fg: self.fg@, bg: self.bg@ }
    }
}

/// The values of a sequence of stops.
pub open spec fn values(stops: Seq<GradientStop>) -> Seq<StopValue> {
    stops.map_values(|stop: GradientStop| stop@)
}

/// Whether every level is a level: between empty and full.
pub open spec fn levels_valid(stops: Seq<StopValue>) -> bool {
    forall|i: int| 0 <= i < stops.len() ==> 0 <= (#[trigger] stops[i]).level <= FULL
}

/// Whether the levels never fall from one stop to the next.
pub open spec fn sorted(stops: Seq<StopValue>) -> bool {
    forall|i: int, j: int| 0 <= i <= j < stops.len() ==> stops[i].level <= stops[j].level
}

/// The index of the first stop whose level lies above `level`, or the number
/// of stops where there is none.
pub open spec fn first_above(stops: Seq<StopValue>, level: int) -> int
    decreases stops.len(),
{
    if stops.len() == 0 || stops[0].level > level {
        0
    } else {
        1 + first_above(stops.drop_first(), level)
    }
}

/// The colours of a gradient at `level`: those of the first stop before it,
/// those of the last stop from its level on, and between two stops the point
/// of the straight line from the one stop's colour to the other's that lies
/// as far along as `level` lies from the one stop's level to the other's,
/// each channel rounded down to a whole millionth.
pub open spec fn colors_at(stops: Seq<StopValue>, level: int) -> (ColorValue, ColorValue)
    recommends
        stops.len() > 0,
{
    let next = first_above(stops, level);
    if next == 0 {
        (stops[0].fg, stops[0].bg)
    } else if next == stops.len() {
        (stops[next - 1].fg, stops[next - 1].bg)
    } else {
        let gone = level - stops[next - 1].level;
        let span = stops[next].level - stops[next - 1].level;
        (
            blend(stops[next - 1].fg, stops[next].fg, gone, span),
            blend(stops[next - 1].bg, stops[next].bg, gone, span),
        )
    }
}

/// The channel half-way between two, rounded down.
pub open spec fn half_way(from: int, to: int) -> int {
    from + (to - from) / 2
}

/// The colour half-way between two, channel by channel.
pub open spec fn midpoint(from: ColorValue, to: ColorValue) -> ColorValue {
    ColorValue {
        l: half_way(from.l, to.l),
        a: half_way(from.a, to.a),
        b: half_way(from.b, to.b),
        alpha: half_way(from.alpha, to.alpha),
    }
}

/// What `first_above` finds: no stop before it lies above `level`, and the
/// stop at it, if there is one, does.
pub proof fn lemma_first_above(stops: Seq<StopValue>, level: int)
    ensures
        0 <= first_above(stops, level) <= stops.len(),
        forall|i: int| 0 <= i < first_above(stops, level) ==> (#[trigger] stops[i]).level <= level,
        first_above(stops, level) < stops.len() ==> stops[first_above(stops, level)].level > level,
    decreases stops.len(),
{
    if stops.len() == 0 || stops[0].level > level {
    } else {
        let rest = stops.drop_first();
        lemma_first_above(rest, level);
        let k = first_above(rest, level);
        assert forall|i: int| 0 <= i < k + 1 implies (#[trigger] stops[i]).level <= level by {
            if i > 0 {
                assert(stops[i] == rest[i - 1]);
            }
        }
        if k < rest.len() {
            assert(stops[k + 1] == rest[k]);
        }
    }
}

/// Only one index is what `first_above` finds.
pub proof fn lemma_first_above_is(stops: Seq<StopValue>, level: int, at: int)
    requires
        0 <= at <= stops.len(),
        forall|i: int| 0 <= i < at ==> (#[trigger] stops[i]).level <= level,
        at < stops.len() ==> stops[at].level > level,
    ensures
        first_above(stops, level) == at,
    decreases stops.len(),
{
    if stops.len() == 0 {
    } else if stops[0].level > level {
        if at > 0 {
            assert(stops[0].level <= level);
        }
    } else {
        let rest = stops.drop_first();
        assert forall|i: int| 0 <= i < at - 1 implies (#[trigger] rest[i]).level <= level by {
            assert(rest[i] == stops[i + 1]);
        }
        if at - 1 < rest.len() {
            assert(rest[at - 1] == stops[at]);
        }
        lemma_first_above_is(rest, level, at - 1);
    }
}

/// Whether `value` lies between `from` and `to`, whichever of them is more.
pub open spec fn between(value: int, from: int, to: int) -> bool {
    (from <= value <= to) || (to <= value <= from)
}

/// Whether `value` is the point `gone` parts of `span` along the straight
/// line from `from` to `to`, to within less than one millionth below it.
pub open spec fn on_the_line(value: int, from: int, to: int, gone: int, span: int) -> bool {
    span * value <= span * from + (to - from) * gone < span * (value + 1)
}

/// Whether each channel of `color` lies between those of `from` and `to` and
/// on the straight line from the one to the other.
pub open spec fn interpolates(
    color: ColorValue,
    from: ColorValue,
    to: ColorValue,
    gone: int,
    span: int,
) -> bool {
    &&& between(color.l, from.l, to.l) && on_the_line(color.l, from.l, to.l, gone, span)
    &&& between(color.a, from.a, to.a) && on_the_line(color.a, from.a, to.a, gone, span)
    &&& between(color.b, from.b, to.b) && on_the_line(color.b, from.b, to.b, gone, span)
    &&& between(color.alpha, from.alpha, to.alpha) && on_the_line(
        color.alpha,
        from.alpha,
        to.alpha,
        gone,
        span,
    )
}

/// A blend lies between its two ends and on the straight line from the one
/// to the other, in every channel.
pub proof fn lemma_blend(from: ColorValue, to: ColorValue, gone: int, span: int)
    requires
        0 <= gone <= span,
        0 < span,
    ensures
        interpolates(blend(from, to, gone, span), from, to, gone, span),
        gone == 0 ==> blend(from, to, gone, span) == from,
        gone == span ==> blend(from, to, gone, span) == to,
{
    lemma_interpolate(from.l, to.l, gone, span);
    lemma_interpolate(from.a, to.a, gone, span);
    lemma_interpolate(from.b, to.b, gone, span);
    lemma_interpolate(from.alpha, to.alpha, gone, span);
}

/// Between two neighbouring stops of a gradient with ascending levels, each
/// colour lies between the two stops' colours and on the straight line from
/// the one to the other, channel by channel, to within one millionth.
pub proof fn lemma_colors_linear(stops: Seq<StopValue>, i: int, level: int)
    requires
        0 <= i,
        i + 1 < stops.len(),
        sorted(stops),
        stops[i].level <= level < stops[i + 1].level,
    ensures
        interpolates(
            colors_at(stops, level).0,
            stops[i].fg,
            stops[i + 1].fg,
            level - stops[i].level,
            stops[i + 1].level - stops[i].level,
        ),
        interpolates(
            colors_at(stops, level).1,
            stops[i].bg,
            stops[i + 1].bg,
            level - stops[i].level,
            stops[i + 1].level - stops[i].level,
        ),
{
    lemma_first_above_is(stops, level, i + 1);
    let gone = level - stops[i].level;
    let span = stops[i + 1].level - stops[i].level;
    lemma_blend(stops[i].fg, stops[i + 1].fg, gone, span);
    lemma_blend(stops[i].bg, stops[i + 1].bg, gone, span);
}

/// At or before the first stop a gradient shows the first stop's colours,
/// as long as no second stop shares the level asked for.
pub proof fn lemma_colors_up_to_first(stops: Seq<StopValue>, level: int)
    requires
        stops.len() > 0,
        level <= stops[0].level,
        stops.len() > 1 ==> stops[1].level > level,
    ensures
        colors_at(stops, level) == (stops[0].fg, stops[0].bg),
{
    if stops[0].level > level {
    } else {
        lemma_first_above_is(stops, level, 1);
        if stops.len() > 1 {
            let span = stops[1].level - stops[0].level;
            lemma_blend(stops[0].fg, stops[1].fg, 0, span);
            lemma_blend(stops[0].bg, stops[1].bg, 0, span);
        }
    }
}

/// For an empty battery a gradient shows the first stop's colours, as long as
/// no second stop stands at empty too.
pub proof fn lemma_colors_at_empty(stops: Seq<StopValue>)
    requires
        stops.len() > 0,
        levels_valid(stops),
        stops.len() > 1 ==> stops[1].level > 0,
    ensures
        colors_at(stops, 0) == (stops[0].fg, stops[0].bg),
{
    lemma_colors_up_to_first(stops, 0);
}

/// From the last stop's level on a sorted gradient shows the last stop's
/// colours; so it does for a full battery.
pub proof fn lemma_colors_from_last(stops: Seq<StopValue>, level: int)
    requires
        stops.len() > 0,
        sorted(stops),
        level >= stops.last().level,
    ensures
        colors_at(stops, level) == (stops.last().fg, stops.last().bg),
        levels_valid(stops) ==> colors_at(stops, FULL as int) == (stops.last().fg, stops.last().bg),
{
    lemma_first_above_is(stops, level, stops.len() as int);
    if levels_valid(stops) {
        lemma_first_above_is(stops, FULL as int, stops.len() as int);
    }
}

/// Exactly at the level of a stop a sorted gradient shows that stop's
/// colours, with nothing blended in, as long as the next stop lies higher.
pub proof fn lemma_colors_on_stop(stops: Seq<StopValue>, i: int)
    requires
        0 <= i < stops.len(),
        sorted(stops),
        i + 1 < stops.len() ==> stops[i + 1].level > stops[i].level,
    ensures
        colors_at(stops, stops[i].level) == (stops[i].fg, stops[i].bg),
{
    let level = stops[i].level;
    lemma_first_above_is(stops, level, i + 1);
    if i + 1 < stops.len() {
        let span = stops[i + 1].level - stops[i].level;
        lemma_blend(stops[i].fg, stops[i + 1].fg, 0, span);
        lemma_blend(stops[i].bg, stops[i + 1].bg, 0, span);
    }
}

/// Half of the way along, a blend is the midpoint, channel by channel.
pub proof fn lemma_blend_half(from: ColorValue, to: ColorValue, gone: int)
    requires
        0 < gone,
    ensures
        blend(from, to, gone, 2 * gone) == midpoint(from, to),
{
    lemma_interpolate_half(from.l, to.l, gone);
    lemma_interpolate_half(from.a, to.a, gone);
    lemma_interpolate_half(from.b, to.b, gone);
    lemma_interpolate_half(from.alpha, to.alpha, gone);
}

/// Half of the way along, one channel lies half-way, and exactly in the
/// middle where the two ends are an even distance apart.
pub proof fn lemma_interpolate_half(from: int, to: int, gone: int)
    requires
        0 < gone,
    ensures
        interpolate(from, to, gone, 2 * gone) == half_way(from, to),
        (to - from) % 2 == 0 ==> 2 * half_way(from, to) == from + to,
        from + to - 1 <= 2 * half_way(from, to) <= from + to,
{
    let d = to - from;
    let q = d / 2;
    let r = d % 2;
    assert(d == 2 * q + r && 0 <= r < 2);
    assert(d * gone == q * (2 * gone) + r * gone && 0 <= r * gone < 2 * gone) by (nonlinear_arith)
        requires
            d == 2 * q + r,
            0 <= r < 2,
            0 < gone,
    ;
    vstd::arithmetic::div_mod::lemma_fundamental_div_mod_converse(
        d * gone,
        2 * gone,
        q,
        r * gone,
    );
}

/// Half-way between two neighbouring stops of a sorted gradient, each colour
/// is the midpoint of the two stops' colours, channel by channel.
pub proof fn lemma_colors_midway(stops: Seq<StopValue>, i: int, level: int)
    requires
        0 <= i,
        i + 1 < stops.len(),
        sorted(stops),
        stops[i].level < stops[i + 1].level,
        2 * level == stops[i].level + stops[i + 1].level,
    ensures
        colors_at(stops, level) == (
            midpoint(stops[i].fg, stops[i + 1].fg),
            midpoint(stops[i].bg, stops[i + 1].bg),
        ),
{
    lemma_first_above_is(stops, level, i + 1);
    let gone = level - stops[i].level;
    assert(stops[i + 1].level - stops[i].level == 2 * gone);
    lemma_blend_half(stops[i].fg, stops[i + 1].fg, gone);
    lemma_blend_half(stops[i].bg, stops[i + 1].bg, gone);
}

/// `stops` with `stop` put in behind the last stop that does not lie above it.
pub open spec fn insert_stop(stops: Seq<StopValue>, stop: StopValue) -> Seq<StopValue> {
    stops.insert(first_above(stops, stop.level), stop)
}

/// `stops` in the order of their levels, stops of one level in the order in
/// which they came.
pub open spec fn sort_stops(stops: Seq<StopValue>) -> Seq<StopValue>
    decreases stops.len(),
{
    if stops.len() == 0 {
        stops
    } else {
        insert_stop(sort_stops(stops.drop_last()), stops.last())
    }
}

/// The stops that stand at `level`, in their order.
pub open spec fn at_level(stops: Seq<StopValue>, level: int) -> Seq<StopValue> {
    stops.filter(|stop: StopValue| stop.level == level)
}

/// Putting a stop into a sorted gradient leaves it sorted, adds that stop and
/// nothing else, and puts it behind the stops of its own level.
pub proof fn lemma_insert_stop(stops: Seq<StopValue>, stop: StopValue, level: int)
    requires
        sorted(stops),
    ensures
        sorted(insert_stop(stops, stop)),
        insert_stop(stops, stop).len() == stops.len() + 1,
        insert_stop(stops, stop).to_multiset() == stops.to_multiset().insert(stop),
        at_level(insert_stop(stops, stop), level) == at_level(stops.push(stop), level),
{
    let at = first_above(stops, stop.level);
    let into = insert_stop(stops, stop);
    lemma_first_above(stops, stop.level);
    stops.insert_ensures(at, stop);
    vstd::seq_lib::to_multiset_insert(stops, at, stop);
    assert forall|i: int, j: int| 0 <= i <= j < into.len() implies into[i].level
        <= into[j].level by {
        if j < at {
            assert(into[i] == stops[i] && into[j] == stops[j]);
        } else if j == at {
            if i < at {
                assert(into[i] == stops[i]);
            }
        } else {
            assert(into[j] == stops[j - 1]);
            if i < at {
                assert(into[i] == stops[i]);
            } else if i == at {
                assert(stops[at].level <= stops[j - 1].level);
            } else {
                assert(into[i] == stops[i - 1]);
            }
        }
    }
    let pred = |stop: StopValue| stop.level == level;
    let head = stops.subrange(0, at);
    let tail = stops.subrange(at, stops.len() as int);
    assert(stops =~= head + tail);
    assert(into =~= head.push(stop) + tail);
    Seq::filter_distributes_over_add(head, tail, pred);
    Seq::filter_distributes_over_add(head.push(stop), tail, pred);
    head.lemma_filter_push(stop, pred);
    stops.lemma_filter_push(stop, pred);
    if stop.level == level {
        assert(tail.all(|x: StopValue| !pred(x))) by {
            assert forall|i: int| 0 <= i < tail.len() implies !pred(#[trigger] tail[i]) by {
                assert(tail[i] == stops[at + i]);
                assert(stops[at].level <= stops[at + i].level);
            }
        }
        tail.lemma_all_neg_filter_empty(pred);
        assert(tail.filter(pred) =~= Seq::<StopValue>::empty());
        assert(head.filter(pred) + tail.filter(pred) =~= head.filter(pred));
        assert(head.filter(pred).push(stop) + tail.filter(pred) =~= head.filter(pred).push(stop));
    }
}

/// Sorting gives a sorted gradient of the same stops, each as often as it
/// was there before.
pub proof fn lemma_sort_stops(stops: Seq<StopValue>)
    ensures
        sorted(sort_stops(stops)),
        sort_stops(stops).len() == stops.len(),
        sort_stops(stops).to_multiset() == stops.to_multiset(),
        levels_valid(stops) ==> levels_valid(sort_stops(stops)),
    decreases stops.len(),
{
    if stops.len() == 0 {
    } else {
        let front = stops.drop_last();
        lemma_sort_stops(front);
        lemma_insert_stop(sort_stops(front), stops.last(), 0);
        assert(stops =~= front.push(stops.last()));
        vstd::seq_lib::to_multiset_build(front, stops.last());
        if levels_valid(stops) {
            let done = sort_stops(stops);
            let at = first_above(sort_stops(front), stops.last().level);
            lemma_first_above(sort_stops(front), stops.last().level);
            sort_stops(front).insert_ensures(at, stops.last());
            assert(levels_valid(front)) by {
                assert forall|i: int| 0 <= i < front.len() implies 0 <= (#[trigger] front[i]).level
                    <= FULL by {
                    assert(front[i] == stops[i]);
                }
            }
            assert forall|i: int| 0 <= i < done.len() implies 0 <= (#[trigger] done[i]).level
                <= FULL by {
                if i < at {
                    assert(done[i] == sort_stops(front)[i]);
                } else if i == at {
                } else {
                    assert(done[i] == sort_stops(front)[i - 1]);
                }
            }
        }
    }
}

/// Sorting is stable: the stops of one level keep the order in which they
/// came.
pub proof fn lemma_sort_stable(stops: Seq<StopValue>, level: int)
    ensures
        at_level(sort_stops(stops), level) == at_level(stops, level),
    decreases stops.len(),
{
    if stops.len() == 0 {
    } else {
        let front = stops.drop_last();
        let pred = |stop: StopValue| stop.level == level;
        lemma_sort_stable(front, level);
        lemma_sort_stops(front);
        lemma_insert_stop(sort_stops(front), stops.last(), level);
        sort_stops(front).lemma_filter_push(stops.last(), pred);
        front.lemma_filter_push(stops.last(), pred);
        assert(stops =~= front.push(stops.last()));
    }
}

impl GradientStop {
    /// The stop at `level` with the foreground `fg`. Where no background is
    /// given, it is the foreground at half its lightness.
    pub fn new(level: Level, fg: Color, bg: Option<Color>) -> (stop: GradientStop)
        ensures
            stop@.level == level@,
            stop@.fg == fg@,
            stop@.bg == (match bg {
                Some(bg) => bg@,
                None => darken(fg@),
            }),
    {
        let bg = match bg {
            Some(bg) => bg,
            None => fg.darken(),
        };
        GradientStop { level, fg, bg }
    }

    /// The level that the stop stands at.
    pub fn level(&self) -> (level: Level)
        ensures
            level@ == self@.level,
            0 <= level@ <= FULL,
    {
        proof {
            use_type_invariant(self.level);
        }
        self.level
    }

    /// The colour of the filled part.
    pub fn fg(&self) -> (color: Color)
        ensures
            color@ == self@.fg,
    {
        self.fg
    }

    /// The colour of the part that is not filled.
    pub fn bg(&self) -> (color: Color)
        ensures
            color@ == self@.bg,
    {
        self.bg
    }
}

/// The index of the first stop above `level`.
pub(crate) fn upper_bound(stops: &Vec<GradientStop>, level: Level) -> (at: usize)
    ensures
        at == first_above(values(stops@), level@),
        at <= stops.len(),
{
    let mut at: usize = 0;
    while at < stops.len() && stops[at].level.millionths() <= level.millionths()
        invariant
            at <= stops.len(),
            forall|i: int| 0 <= i < at ==> (#[trigger] values(stops@)[i]).level <= level@,
        decreases stops.len() - at,
    {
        at = at + 1;
    }
    proof {
        lemma_first_above_is(values(stops@), level@, at as int);
    }
    at
}

/// The colours of the gradient `stops` at `level`.
pub fn colors_between(stops: &Vec<GradientStop>, level: Level) -> (colors: (Color, Color))
    requires
        stops.len() > 0,
    ensures
        (colors.0@, colors.1@) == colors_at(values(stops@), level@),
{
    let next = upper_bound(stops, level);
    if next == 0 {
        (stops[0].fg, stops[0].bg)
    } else if next == stops.len() {
        (stops[next - 1].fg, stops[next - 1].bg)
    } else {
        let last = stops[next - 1];
        let then = stops[next];
        proof {
            lemma_first_above(values(stops@), level@);
            assert(values(stops@)[next - 1] == last@);
            assert(values(stops@)[next as int] == then@);
        }
        let gone: u32 = level.millionths() - last.level.millionths();
        let span: u32 = then.level.millionths() - last.level.millionths();
        (last.fg.blend(&then.fg, gone, span), last.bg.blend(&then.bg, gone, span))
    }
}

/// The stops in the order of their levels, stops of one level in the order
/// in which they came.
pub fn sort_by_level(stops: &Vec<GradientStop>) -> (sorted: Vec<GradientStop>)
    ensures
        values(sorted@) == sort_stops(values(stops@)),
        sorted@.len() == stops@.len(),
        self::sorted(values(sorted@)),
        levels_valid(values(sorted@)),
{
    let mut sorted: Vec<GradientStop> = Vec::new();
    let ghost all = values(stops@);
    assert(values(sorted@) =~= sort_stops(all.take(0)));
    for i in 0..stops.len()
        invariant
            all == values(stops@),
            values(sorted@) == sort_stops(all.take(i as int)),
            levels_valid(all.take(i as int)),
    {
        let stop = stops[i];
        let at = upper_bound(&sorted, stop.level);
        let ghost before = sorted@;
        sorted.insert(at, stop);
        proof {
            use_type_invariant(stop.level);
            assert(all.take(i + 1).drop_last() =~= all.take(i as int));
            assert(all.take(i + 1).last() == stop@);
            assert(values(sorted@) =~= values(before).insert(at as int, stop@));
            assert forall|k: int| 0 <= k < i + 1 implies 0 <= (#[trigger] all.take(i + 1)[k]).level
                <= FULL by {
                if k < i {
                    assert(all.take(i + 1)[k] == all.take(i as int)[k]);
                }
            }
        }
    }
    proof {
        assert(all.take(stops.len() as int) =~= all);
        lemma_sort_stops(all);
    }
    sorted
}

} // verus!
