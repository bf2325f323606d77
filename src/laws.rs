//! Properties that relate several operations or hold of every state.
use vstd::prelude::*;

use crate::engine::latest_of;
use crate::math::div_tz;
use crate::position::{
    margin_ratio_of, net_margin_of, pnl_of, remain_of, Position, PositionUnrealizedPnlResponse,
};

verus! {

/// The sum of the signed sizes of `ps`.
pub open spec fn total_size(ps: Seq<Position>) -> int
    decreases ps.len(),
{
    if ps.len() == 0 {
        0
    } else {
        total_size(ps.drop_last()) + ps.last().size
    }
}

proof fn lemma_total_size_update(ps: Seq<Position>, i: int, p: Position)
    requires
        0 <= i < ps.len(),
    ensures
        total_size(ps.update(i, p)) == total_size(ps) - ps[i].size + p.size,
    decreases ps.len(),
{
    let q = ps.update(i, p);
    if i == ps.len() - 1 {
        assert(q.drop_last() =~= ps.drop_last());
    } else {
        lemma_total_size_update(ps.drop_last(), i, p);
        assert(q.drop_last() =~= ps.drop_last().update(i, p));
    }
}

/// The positions on a curve keep summing to the curve's aggregate size:
/// every completed action moves one position's size exactly as it moves the
/// curve's aggregate (see `Engine::action_completed`), so if the sizes summed
/// to the aggregate before, they do after.
pub proof fn law_positions_sum_to_curve_total(
    positions: Seq<Position>,
    i: int,
    new_position: Position,
    old_total: int,
    new_total: int,
)
    requires
        0 <= i < positions.len(),
        total_size(positions) == old_total,
        new_position.size - positions[i].size == new_total - old_total,
    ensures
        total_size(positions.update(i, new_position)) == new_total,
{
    lemma_total_size_update(positions, i, new_position);
}

/// After a premium fraction entry is appended, the history's latest value,
/// which is what a query returns, is exactly that entry.
pub proof fn law_query_returns_last_appended(history: Seq<i128>, entry: i128)
    ensures
        latest_of(history.push(entry)) == entry,
{
}

/// The remaining margin is never negative: a negative net amount leaves zero
/// margin and its magnitude as bad debt, so margin less bad debt is the net.
pub proof fn law_margin_never_negative(net: int, funding: int, latest: int)
    requires
        net >= -(u128::MAX as int),
        net <= u128::MAX,
    ensures
        remain_of(net, funding, latest).margin >= 0,
        remain_of(net, funding, latest).margin - remain_of(net, funding, latest).bad_debt == net,
        remain_of(net, funding, latest).margin == 0 || remain_of(net, funding, latest).bad_debt == 0,
{
}

proof fn lemma_div_tz_monotone(a1: int, b1: int, a2: int, b2: int)
    requires
        b1 > 0,
        b2 > 0,
        a1 * b2 <= a2 * b1,
    ensures
        div_tz(a1, b1) <= div_tz(a2, b2),
{
    if a1 >= 0 && a2 >= 0 {
        let q1 = a1 / b1;
        assert(q1 * b1 <= a1) by (nonlinear_arith)
            requires
                q1 == a1 / b1,
                b1 > 0,
        ;
        assert(q1 * b2 <= a2) by (nonlinear_arith)
            requires
                q1 * b1 <= a1,
                a1 * b2 <= a2 * b1,
                b1 > 0,
                b2 > 0,
        ;
        assert(q1 <= a2 / b2) by (nonlinear_arith)
            requires
                q1 * b2 <= a2,
                b2 > 0,
        ;
    } else if a1 < 0 && a2 < 0 {
        let n1 = -a1;
        let n2 = -a2;
        let q2 = n2 / b2;
        assert(n2 * b1 <= n1 * b2) by (nonlinear_arith)
            requires
                n1 == -a1,
                n2 == -a2,
                a1 * b2 <= a2 * b1,
        ;
        assert(q2 * b2 <= n2) by (nonlinear_arith)
            requires
                q2 == n2 / b2,
                b2 > 0,
        ;
        assert(q2 * b1 <= n1) by (nonlinear_arith)
            requires
                q2 * b2 <= n2,
                n2 * b1 <= n1 * b2,
                b1 > 0,
                b2 > 0,
        ;
        assert(q2 <= n1 / b1) by (nonlinear_arith)
            requires
                q2 * b1 <= n1,
                b1 > 0,
        ;
    } else if a1 < 0 {
        assert(0 <= a2 / b2) by (nonlinear_arith)
            requires
                a2 >= 0,
                b2 > 0,
        ;
        assert(0 <= (-a1) / b1) by (nonlinear_arith)
            requires
                -a1 > 0,
                b1 > 0,
        ;
    } else {
        assert(a1 * b2 >= 0) by (nonlinear_arith)
            requires
                a1 >= 0,
                b2 > 0,
        ;
        assert(a2 * b1 < 0) by (nonlinear_arith)
            requires
                a2 < 0,
                b1 > 0,
        ;
    }
}

/// A position valued at `value`, with spot and time-weighted prices agreeing.
pub open spec fn at_value(p: Position, value: int) -> PositionUnrealizedPnlResponse {
    PositionUnrealizedPnlResponse {
        position_notional: value as u128,
        unrealized_pnl: pnl_of(p, value) as i128,
    }
}

/// As the price moves against a position, its margin ratio does not rise:
/// for a long, a lower value gives a ratio no higher; for a short, a higher
/// value does. This holds where the margin after funding does not exceed
/// the cost basis for a long (else a falling price can raise the ratio), and
/// where margin after funding plus cost basis is not negative for a short.
pub proof fn law_margin_ratio_falls_against_position(
    p: Position,
    worse: int,
    better: int,
    latest: int,
    decimals: int,
    worse_ratio: int,
    better_ratio: int,
)
    requires
        p.size != 0,
        decimals > 0,
        0 < worse <= u128::MAX,
        0 < better <= u128::MAX,
        if p.size > 0 {
            worse <= better
        } else {
            better <= worse
        },
        crate::math::fits_i(pnl_of(p, worse)),
        crate::math::fits_i(pnl_of(p, better)),
        net_margin_of(p, 0, latest, decimals) is Some,
        p.size > 0 ==> net_margin_of(p, 0, latest, decimals).unwrap() <= p.notional,
        p.size < 0 ==> net_margin_of(p, 0, latest, decimals).unwrap() + p.notional >= 0,
        margin_ratio_of(p, at_value(p, worse), at_value(p, worse), latest, decimals) == Some(
            worse_ratio,
        ),
        margin_ratio_of(p, at_value(p, better), at_value(p, better), latest, decimals) == Some(
            better_ratio,
        ),
    ensures
        worse_ratio <= better_ratio,
{
    let c = net_margin_of(p, 0, latest, decimals).unwrap();
    let nw = net_margin_of(p, pnl_of(p, worse), latest, decimals).unwrap();
    let nb = net_margin_of(p, pnl_of(p, better), latest, decimals).unwrap();
    assert(nw == c + pnl_of(p, worse));
    assert(nb == c + pnl_of(p, better));
    assert(worse_ratio == div_tz(nw * decimals, worse));
    assert(better_ratio == div_tz(nb * decimals, better));
    if p.size > 0 {
        let k = c - p.notional;
        assert(nw == k + worse);
        assert(nb == k + better);
        assert((k + worse) * decimals * better <= (k + better) * decimals * worse) by (nonlinear_arith)
            requires
                k <= 0,
                worse <= better,
                decimals > 0,
        ;
    } else {
        let k = c + p.notional;
        assert(nw == k - worse);
        assert(nb == k - better);
        assert((k - worse) * decimals * better <= (k - better) * decimals * worse) by (nonlinear_arith)
            requires
                k >= 0,
                better <= worse,
                decimals > 0,
        ;
    }
    lemma_div_tz_monotone(nw * decimals, worse, nb * decimals, better);
}

/// `x / y` rounded up, for `x >= 0` and `y > 0`, bracketed by multiples of `y`.
proof fn lemma_ceil_bounds(x: int, y: int)
    requires
        x >= 0,
        y > 0,
    ensures
        ({
            let c = x / y + (if x % y == 0 {
                0int
            } else {
                1int
            });
            c * y >= x && (c - 1) * y < x
        }),
{
    vstd::arithmetic::div_mod::lemma_fundamental_div_mod(x, y);
    let qq = x / y;
    let r = x % y;
    assert(0 <= r < y);
    if r == 0 {
        assert(qq * y == x) by (nonlinear_arith)
            requires
                x == y * qq + r,
                r == 0,
        ;
        assert((qq - 1) * y < x) by (nonlinear_arith)
            requires
                qq * y == x,
                y > 0,
        ;
    } else {
        assert((qq + 1) * y >= x) by (nonlinear_arith)
            requires
                x == y * qq + r,
                r < y,
        ;
        assert(qq * y < x) by (nonlinear_arith)
            requires
                x == y * qq + r,
                r > 0,
        ;
    }
}

/// `x` rounded down to a multiple of `d` lies within `d` below `x`.
proof fn lemma_floor_mult(x: int, d: int)
    requires
        x >= 0,
        d > 0,
    ensures
        (x / d) * d <= x,
        (x / d) * d > x - d,
{
    vstd::arithmetic::div_mod::lemma_fundamental_div_mod(x, d);
    let qq = x / d;
    let r = x % d;
    assert(qq * d <= x && qq * d > x - d) by (nonlinear_arith)
        requires
            x == d * qq + r,
            0 <= r < d,
    ;
}

/// Buying base with `quote` and at once selling all of it back, with no
/// other trade between, returns `back` quote that differs from `quote` by
/// less than the price after the purchase plus one unit in the trader's
/// disfavour, and by less than `2 * decimals / base_reserve` in the trader's
/// favour: `(quote - back - 1) * base_reserve < quote_reserve + quote` and
/// `(back - quote) * base_reserve < 2 * decimals`. A trader who opens and
/// closes so, with no fees or funding, gets the margin back within that.
pub proof fn law_open_close_round_trip(
    quote: int,
    quote_reserve: int,
    base_reserve: int,
    decimals: int,
    bought: int,
    back: int,
)
    requires
        quote >= 0,
        quote_reserve > 0,
        base_reserve > 0,
        decimals > 0,
        crate::vamm::input_price(
            crate::vamm::Direction::AddToAmm,
            quote,
            quote_reserve,
            base_reserve,
            decimals,
        ) == Some(bought),
        crate::vamm::output_price(
            crate::vamm::Direction::AddToAmm,
            bought,
            quote_reserve + quote,
            base_reserve - bought,
            decimals,
        ) == Some(back),
    ensures
        (quote - back - 1) * base_reserve < quote_reserve + quote,
        (back - quote) * base_reserve < 2 * decimals,
{
    let q = quote_reserve;
    let b = base_reserve;
    let d = decimals;
    let q1 = q + quote;
    let qb = q * b;
    assert(qb >= 0) by (nonlinear_arith)
        requires
            q > 0,
            b > 0,
            qb == q * b,
    ;
    lemma_floor_mult(qb, d);
    let kd = (qb / d) * d;
    assert(kd >= 0) by (nonlinear_arith)
        requires
            qb >= 0,
            d > 0,
            kd == (qb / d) * d,
    ;
    assert(q1 > 0);
    assert(kd <= q1 * b) by (nonlinear_arith)
        requires
            q > 0,
            kd <= qb,
            qb == q * b,
            q1 >= q,
            b > 0,
    ;
    let b_after = kd / q1;
    assert(b_after <= b) by (nonlinear_arith)
        requires
            kd <= q1 * b,
            q1 > 0,
            b_after == kd / q1,
    ;
    lemma_ceil_bounds(kd, q1);
    let b1 = b - bought;
    assert(b1 == kd / q1 + (if kd % q1 == 0 {
        0int
    } else {
        1int
    }));
    assert(b1 * q1 >= kd && (b1 - 1) * q1 < kd);
    assert(b1 >= 0) by (nonlinear_arith)
        requires
            b1 * q1 >= kd,
            (b1 - 1) * q1 < kd,
            kd >= 0,
            q1 > 0,
    ;
    assert(bought >= 0);
    let qb1 = q1 * b1;
    assert(qb1 >= 0) by (nonlinear_arith)
        requires
            q1 > 0,
            b1 >= 0,
            qb1 == q1 * b1,
    ;
    lemma_floor_mult(qb1, d);
    let kd2 = (qb1 / d) * d;
    assert(kd2 >= 0) by (nonlinear_arith)
        requires
            qb1 >= 0,
            d > 0,
            kd2 == (qb1 / d) * d,
    ;
    assert(b1 + bought == b);
    lemma_ceil_bounds(kd2, b);
    let c2 = kd2 / b + (if kd2 % b == 0 {
        0int
    } else {
        1int
    });
    assert(kd2 <= q1 * b) by (nonlinear_arith)
        requires
            kd2 <= qb1,
            qb1 == q1 * b1,
            b1 <= b,
            q1 > 0,
    ;
    assert(kd2 / b <= q1) by (nonlinear_arith)
        requires
            kd2 <= q1 * b,
            b > 0,
            kd2 >= 0,
    ;
    assert(back == q1 - c2);
    assert(c2 * b >= kd2 && (c2 - 1) * b < kd2);
    assert((c2 - 1 - q) * b < q1) by (nonlinear_arith)
        requires
            q1 == q + quote,
            quote >= 0,
            (c2 - 1) * b < kd2,
            kd2 <= q1 * b1,
            (b1 - 1) * q1 < kd,
            kd <= q * b,
            q1 > 0,
            b > 0,
    ;
    assert((q - c2) * b < 2 * d) by (nonlinear_arith)
        requires
            c2 * b >= kd2,
            kd2 > q1 * b1 - d,
            b1 * q1 >= kd,
            kd > q * b - d,
    ;
}

/// A long opened with `quote` notional at reserves `quote_reserve` and
/// `base_reserve` and closed at once, with no fees and no funding since,
/// gets back its margin changed by `back - quote`, within the bounds of
/// `law_open_close_round_trip`.
pub proof fn law_open_close_returns_margin(
    p: Position,
    quote_reserve: int,
    base_reserve: int,
    decimals: int,
    latest: int,
    back: int,
)
    requires
        quote_reserve > 0,
        base_reserve > 0,
        decimals > 0,
        crate::math::fits_i(decimals),
        p.last_updated_premium_fraction == latest,
        p.size > 0,
        crate::vamm::input_price(
            crate::vamm::Direction::AddToAmm,
            p.notional as int,
            quote_reserve,
            base_reserve,
            decimals,
        ) == Some(p.size as int),
        crate::vamm::output_price(
            crate::vamm::Direction::AddToAmm,
            p.size as int,
            quote_reserve + p.notional,
            base_reserve - p.size,
            decimals,
        ) == Some(back),
        net_margin_of(
            p,
            crate::engine::Engine::close_delta(p, p.notional as int, back),
            latest,
            decimals,
        ) is Some,
    ensures
        ({
            let refund = net_margin_of(
                p,
                crate::engine::Engine::close_delta(p, p.notional as int, back),
                latest,
                decimals,
            ).unwrap();
            &&& refund == p.margin + back - p.notional
            &&& (p.margin - refund - 1) * base_reserve < quote_reserve + p.notional
            &&& (refund - p.margin) * base_reserve < 2 * decimals
        }),
{
    law_open_close_round_trip(
        p.notional as int,
        quote_reserve,
        base_reserve,
        decimals,
        p.size as int,
        back,
    );
    assert(0 * (p.size as int) == 0);
    assert(div_tz(0, decimals) == 0) by (nonlinear_arith)
        requires
            decimals > 0,
    ;
}

} // verus!
