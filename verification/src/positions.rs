//! The position reconciler: folds a trade-history feed into per-instrument
//! positions with average entry price and realized profit, and marks open
//! long positions against an optionally supplied mid price.
//!
//! The fold is a single deterministic pass over an immutable input: for each
//! instrument, buys accumulate into total bought and total cost, sells into
//! total sold and total proceeds. The average entry price is cost over
//! bought (zero when nothing was bought), realized profit is proceeds minus
//! sold times that average, and a position is emitted only when the net size
//! clears a dust threshold of one ten-thousandth. A malformed price or size
//! on a single record degrades to a zero contribution; it never aborts the
//! batch. All arithmetic is exact integer fixed point: sizes in millionths,
//! costs and proceeds in millionths of millionths.

use vstd::prelude::*;
use crate::fixed_point::{
    spec_price_micros, spec_size_micros, price_micros, size_micros, spec_fixed_digits,
    spec_signed_fixed_digits, fixed4_string, signed_fixed6_string,
};
use std::collections::HashMap;
use crate::types::{BalanceAllowance, OrderSide, TradeEntry};
pub use crate::types::Position;

verus! {

/// The dust threshold, in millionths: positions with a smaller net size are
/// pruned, never emitted.
pub const NET_SIZE_EPSILON_MICROS: u64 = 100;

/// Balances of the collateral asset and of conditional tokens by token id.
#[derive(Debug, Clone)]
pub struct BalanceResponse {
    /// Collateral (USDC) balance.
    pub collateral: Option<BalanceAllowance>,
    /// Conditional token balances by token id.
    pub conditional: HashMap<String, BalanceAllowance>,
}

/// The price a trade contributes, in millionths.
pub open spec fn spec_trade_price(t: TradeEntry) -> nat {
    spec_price_micros(t.price@) as nat
}

/// The size a trade contributes, in millionths.
pub open spec fn spec_trade_size(t: TradeEntry) -> nat {
    spec_size_micros(t.size@) as nat
}

/// Total size bought on one instrument, in millionths.
pub open spec fn spec_total_bought(trades: Seq<TradeEntry>, id: Seq<char>) -> nat
    decreases trades.len(),
{
    if trades.len() == 0 {
        0
    } else {
        spec_total_bought(trades.drop_last(), id) + if trades.last().token_id@ == id
            && trades.last().side is Buy {
            spec_trade_size(trades.last())
        } else {
            0
        }
    }
}

/// Total size sold on one instrument, in millionths.
pub open spec fn spec_total_sold(trades: Seq<TradeEntry>, id: Seq<char>) -> nat
    decreases trades.len(),
{
    if trades.len() == 0 {
        0
    } else {
        spec_total_sold(trades.drop_last(), id) + if trades.last().token_id@ == id
            && trades.last().side is Sell {
            spec_trade_size(trades.last())
        } else {
            0
        }
    }
}

/// Total cost of buys on one instrument, in millionths of millionths.
pub open spec fn spec_total_cost(trades: Seq<TradeEntry>, id: Seq<char>) -> nat
    decreases trades.len(),
{
    if trades.len() == 0 {
        0
    } else {
        spec_total_cost(trades.drop_last(), id) + if trades.last().token_id@ == id
            && trades.last().side is Buy {
            spec_trade_price(trades.last()) * spec_trade_size(trades.last())
        } else {
            0
        }
    }
}

/// Total proceeds of sells on one instrument, in millionths of millionths.
pub open spec fn spec_total_proceeds(trades: Seq<TradeEntry>, id: Seq<char>) -> nat
    decreases trades.len(),
{
    if trades.len() == 0 {
        0
    } else {
        spec_total_proceeds(trades.drop_last(), id) + if trades.last().token_id@ == id
            && trades.last().side is Sell {
            spec_trade_price(trades.last()) * spec_trade_size(trades.last())
        } else {
            0
        }
    }
}

/// Net position size on one instrument: bought minus sold, in millionths.
pub open spec fn spec_net_size(trades: Seq<TradeEntry>, id: Seq<char>) -> int {
    spec_total_bought(trades, id) - spec_total_sold(trades, id)
}

/// Average entry price on one instrument, in millionths: cost over bought,
/// truncated; zero when nothing was bought (the cost basis is computed from
/// buys alone).
pub open spec fn spec_average_price(trades: Seq<TradeEntry>, id: Seq<char>) -> nat {
    if spec_total_bought(trades, id) > 0 {
        spec_total_cost(trades, id) / spec_total_bought(trades, id)
    } else {
        0
    }
}

/// Realized profit on one instrument, in millionths of millionths: proceeds
/// minus sold size times the average entry price.
pub open spec fn spec_realized_pnl(trades: Seq<TradeEntry>, id: Seq<char>) -> int {
    spec_total_proceeds(trades, id) - spec_total_sold(trades, id) * spec_average_price(trades, id)
}

/// Whether an instrument's position clears the dust threshold and is
/// emitted.
pub open spec fn spec_emit(trades: Seq<TradeEntry>, id: Seq<char>) -> bool {
    spec_net_size(trades, id) >= NET_SIZE_EPSILON_MICROS || spec_net_size(trades, id)
        <= -(NET_SIZE_EPSILON_MICROS as int)
}

/// Whether some trade carries the instrument id.
pub open spec fn spec_has_id(trades: Seq<TradeEntry>, id: Seq<char>) -> bool {
    exists|i: int| 0 <= i < trades.len() && #[trigger] trades[i].token_id@ == id
}

/// The market of an instrument: the market id of the first trade that
/// carries it.
pub open spec fn spec_market_of(trades: Seq<TradeEntry>, id: Seq<char>) -> Seq<char>
    decreases trades.len(),
{
    if trades.len() == 0 {
        Seq::empty()
    } else if spec_has_id(trades.drop_last(), id) {
        spec_market_of(trades.drop_last(), id)
    } else if trades.last().token_id@ == id {
        trades.last().market_id@
    } else {
        Seq::empty()
    }
}

/// The distinct instrument ids of a trade sequence, in order of first
/// appearance.
pub open spec fn spec_first_ids(trades: Seq<TradeEntry>) -> Seq<Seq<char>>
    decreases trades.len(),
{
    if trades.len() == 0 {
        Seq::empty()
    } else {
        let rest = spec_first_ids(trades.drop_last());
        if rest.contains(trades.last().token_id@) {
            rest
        } else {
            rest.push(trades.last().token_id@)
        }
    }
}

/// An id appears among the first ids exactly when some trade carries it.
pub proof fn lemma_first_ids_complete(trades: Seq<TradeEntry>, id: Seq<char>)
    ensures
        spec_first_ids(trades).contains(id) <==> spec_has_id(trades, id),
    decreases trades.len(),
{
    if trades.len() > 0 {
        lemma_first_ids_complete(trades.drop_last(), id);
        let rest = spec_first_ids(trades.drop_last());
        let fids = spec_first_ids(trades);
        if spec_has_id(trades, id) {
            let i = choose|i: int| 0 <= i < trades.len() && #[trigger] trades[i].token_id@ == id;
            if i < trades.len() - 1 {
                assert(trades.drop_last()[i].token_id@ == id);
                assert(rest.contains(id));
                if rest == fids {
                    assert(fids.contains(id));
                } else {
                    let w = choose|w: int| 0 <= w < rest.len() && #[trigger] rest[w] == id;
                    assert(fids[w] == id);
                }
            } else {
                assert(trades.last().token_id@ == id);
                if rest.contains(id) {
                    let w = choose|w: int| 0 <= w < rest.len() && #[trigger] rest[w] == id;
                    assert(fids[w] == id);
                } else {
                    assert(fids[fids.len() - 1] == id);
                }
            }
            assert(fids.contains(id));
        }
        if fids.contains(id) {
            let w = choose|w: int| 0 <= w < fids.len() && #[trigger] fids[w] == id;
            if w < rest.len() {
                assert(rest[w] == id);
                assert(rest.contains(id));
                assert(spec_has_id(trades.drop_last(), id));
                let i = choose|i: int|
                    0 <= i < trades.drop_last().len() && #[trigger] trades.drop_last()[
                        i
                    ].token_id@ == id;
                assert(trades[i].token_id@ == id);
            } else {
                assert(fids[w] == trades.last().token_id@);
                assert(trades[trades.len() - 1].token_id@ == id);
            }
            assert(spec_has_id(trades, id));
        }
    }
}

/// The ids whose positions clear the dust threshold, in order of first
/// appearance.
pub open spec fn spec_keep_emitted(trades: Seq<TradeEntry>, ids: Seq<Seq<char>>) -> Seq<Seq<char>>
    decreases ids.len(),
{
    if ids.len() == 0 {
        Seq::empty()
    } else {
        let rest = spec_keep_emitted(trades, ids.drop_last());
        if spec_emit(trades, ids.last()) {
            rest.push(ids.last())
        } else {
            rest
        }
    }
}

/// The instrument ids a reconciliation emits.
pub open spec fn spec_emitted_ids(trades: Seq<TradeEntry>) -> Seq<Seq<char>> {
    spec_keep_emitted(trades, spec_first_ids(trades))
}

/// Law: only material positions are emitted. Every id a reconciliation
/// emits clears the dust threshold; trades that net out to less than the
/// threshold produce no position.
pub proof fn lemma_emitted_are_material(trades: Seq<TradeEntry>, ids: Seq<Seq<char>>, i: int)
    requires
        0 <= i < spec_keep_emitted(trades, ids).len(),
    ensures
        spec_emit(trades, spec_keep_emitted(trades, ids)[i]),
    decreases ids.len(),
{
    if ids.len() > 0 {
        let rest = spec_keep_emitted(trades, ids.drop_last());
        if i < rest.len() {
            lemma_emitted_are_material(trades, ids.drop_last(), i);
        }
    }
}

/// Law: trades that net out below the dust threshold produce no position.
/// An instrument whose net size stays within the threshold is absent from
/// every reconciliation's output.
pub proof fn lemma_flat_not_emitted(trades: Seq<TradeEntry>, id: Seq<char>)
    requires
        -(NET_SIZE_EPSILON_MICROS as int) < spec_net_size(trades, id) < NET_SIZE_EPSILON_MICROS,
    ensures
        !spec_emitted_ids(trades).contains(id),
{
    if spec_emitted_ids(trades).contains(id) {
        let i = choose|i: int|
            0 <= i < spec_emitted_ids(trades).len() && #[trigger] spec_emitted_ids(trades)[i]
                == id;
        lemma_emitted_are_material(trades, spec_first_ids(trades), i);
    }
}

/// A reconstructed position in exact integers: net size and average price in
/// millionths, realized profit in millionths of millionths.
#[derive(Debug, Clone)]
pub struct PositionFigures {
    /// Market (condition) id of the instrument.
    pub market: String,
    /// Instrument (token) id.
    pub asset_id: String,
    /// Net size: bought minus sold, in millionths.
    pub net_micros: i128,
    /// Average entry price, in millionths.
    pub avg_price_micros: u64,
    /// Realized profit, in millionths of millionths.
    pub realized_pnl_pico: i128,
}

impl PositionFigures {
    /// Bounds that every reconciled position satisfies: the net size and the
    /// realized profit are far from the integer limits, and the average
    /// price lies in the price domain.
    pub open spec fn wf(&self) -> bool {
        &&& -100_000_000_000_000_000_000_000_000_000_000 < self.net_micros
            < 100_000_000_000_000_000_000_000_000_000_000
        &&& self.avg_price_micros <= 1_000_000
        &&& -100_000_000_000_000_000_000_000_000_000_000_000_000 < self.realized_pnl_pico
            < 100_000_000_000_000_000_000_000_000_000_000_000_000
    }
}

/// What a reconciled position holds for one instrument of a trade sequence.
pub open spec fn spec_figures_match(
    trades: Seq<TradeEntry>,
    id: Seq<char>,
    f: PositionFigures,
) -> bool {
    &&& f.asset_id@ == id
    &&& f.market@ == spec_market_of(trades, id)
    &&& f.net_micros == spec_net_size(trades, id)
    &&& f.avg_price_micros == spec_average_price(trades, id)
    &&& f.realized_pnl_pico == spec_realized_pnl(trades, id)
    &&& f.wf()
}

/// Whether one of the strings in `ids` reads `id`.
fn contains_id(ids: &Vec<String>, id: &String) -> (r: bool)
    ensures
        r <==> exists|i: int| 0 <= i < ids@.len() && #[trigger] ids@[i]@ == id@,
{
    let mut i: usize = 0;
    while i < ids.len()
        invariant
            0 <= i <= ids@.len(),
            forall|k: int| 0 <= k < i ==> #[trigger] ids@[k]@ != id@,
        decreases ids@.len() - i,
    {
        if ids[i].eq(id) {
            return true;
        }
        i += 1;
    }
    false
}

/// Folds a trade history into per-instrument positions. One position comes
/// out for each instrument, in order of first appearance, whose net size
/// clears the dust threshold; its market is that of the instrument's first
/// trade, and its figures are the exact integer folds of the instrument's
/// trades. The length bound is a machine limit: it keeps every intermediate
/// sum far from overflow.
pub fn reconcile(trades: &Vec<TradeEntry>) -> (r: Vec<PositionFigures>)
    requires
        trades@.len() <= 1_000_000_000_000,
    ensures
        r@.len() == spec_emitted_ids(trades@).len(),
        forall|i: int|
            0 <= i < r@.len() ==> spec_figures_match(
                trades@,
                spec_emitted_ids(trades@)[i],
                #[trigger] r@[i],
            ),
{
    let n = trades.len();
    // first pass: the distinct instrument ids in order of first appearance,
    // each with the market of its first trade
    let mut ids: Vec<String> = Vec::new();
    let mut markets: Vec<String> = Vec::new();
    let ghost gids = spec_first_ids(trades@);
    let mut k: usize = 0;
    while k < n
        invariant
            0 <= k <= n == trades@.len(),
            ids@.len() == markets@.len(),
            spec_first_ids(trades@.take(k as int)) =~= ids@.map_values(|s: String| s@),
            forall|i: int|
                0 <= i < markets@.len() ==> #[trigger] markets@[i]@ == spec_market_of(
                    trades@.take(k as int),
                    ids@[i]@,
                ),
        decreases n - k,
    {
        let t = &trades[k];
        proof {
            assert(trades@.take(k + 1).drop_last() =~= trades@.take(k as int));
            lemma_first_ids_complete(trades@.take(k as int), t.token_id@);
        }
        let is_known = contains_id(&ids, &t.token_id);
        proof {
            let fids = spec_first_ids(trades@.take(k as int));
            assert(is_known <==> fids.contains(t.token_id@)) by {
                if is_known {
                    let i = choose|i: int|
                        0 <= i < ids@.len() && #[trigger] ids@[i]@ == t.token_id@;
                    assert(fids[i] == t.token_id@);
                }
                if fids.contains(t.token_id@) {
                    let i = choose|i: int| 0 <= i < fids.len() && #[trigger] fids[i] == t.token_id@;
                    assert(ids@[i]@ == t.token_id@);
                }
            }
            assert forall|i: int| 0 <= i < markets@.len() implies #[trigger] markets@[i]@
                == spec_market_of(trades@.take(k + 1), ids@[i]@) by {
                assert(fids.contains(ids@[i]@)) by {
                    assert(fids[i] == ids@[i]@);
                }
                lemma_first_ids_complete(trades@.take(k as int), ids@[i]@);
            }
        }
        if !is_known {
            ids.push(t.token_id.clone());
            markets.push(t.market_id.clone());
            proof {
                assert(spec_first_ids(trades@.take(k + 1)) =~= ids@.map_values(
                    |s: String| s@,
                ));
                assert(!spec_has_id(trades@.take(k as int), t.token_id@));
                assert(markets@[markets@.len() - 1]@ == spec_market_of(
                    trades@.take(k + 1),
                    t.token_id@,
                ));
            }
        } else {
            proof {
                assert(spec_first_ids(trades@.take(k + 1)) =~= ids@.map_values(
                    |s: String| s@,
                ));
            }
        }
        k += 1;
    }
    proof {
        assert(trades@.take(n as int) =~= trades@);
    }
    // second pass: fold every instrument's trades and keep the material
    // positions
    let mut out: Vec<PositionFigures> = Vec::new();
    let mut k: usize = 0;
    while k < ids.len()
        invariant
            0 <= k <= ids@.len(),
            trades@.len() <= 1_000_000_000_000,
            ids@.len() == markets@.len(),
            gids == spec_first_ids(trades@),
            gids =~= ids@.map_values(|s: String| s@),
            forall|i: int|
                0 <= i < markets@.len() ==> #[trigger] markets@[i]@ == spec_market_of(
                    trades@,
                    ids@[i]@,
                ),
            out@.len() == spec_keep_emitted(trades@, gids.take(k as int)).len(),
            forall|i: int|
                0 <= i < out@.len() ==> spec_figures_match(
                    trades@,
                    spec_keep_emitted(trades@, gids.take(k as int))[i],
                    #[trigger] out@[i],
                ),
        decreases ids@.len() - k,
    {
        let ghost gid = gids[k as int];
        proof {
            assert(ids@[k as int]@ == gid);
            assert(gids.take(k + 1).drop_last() =~= gids.take(k as int));
        }
        let id: &String = &ids[k];
        let mut bought: u128 = 0;
        let mut sold: u128 = 0;
        let mut cost: u128 = 0;
        let mut proceeds: u128 = 0;
        let mut j: usize = 0;
        while j < trades.len()
            invariant
                0 <= j <= trades@.len() <= 1_000_000_000_000,
                id@ == gid,
                bought == spec_total_bought(trades@.take(j as int), gid),
                sold == spec_total_sold(trades@.take(j as int), gid),
                cost == spec_total_cost(trades@.take(j as int), gid),
                proceeds == spec_total_proceeds(trades@.take(j as int), gid),
                bought <= j * 0xffff_ffff_ffff_ffff,
                sold <= j * 0xffff_ffff_ffff_ffff,
                cost <= 1_000_000 * bought,
                proceeds <= 1_000_000 * sold,
            decreases trades@.len() - j,
        {
            let t = &trades[j];
            proof {
                assert(trades@.take(j + 1).drop_last() =~= trades@.take(j as int));
                assert(trades@.take(j + 1).last() == trades@[j as int]);
            }
            if t.token_id.eq(id) {
                let price = price_micros(t.price.as_str());
                let size = size_micros(t.size.as_str());
                proof {
                    assert((price as int) * (size as int) <= 1_000_000 * (size as int))
                        by (nonlinear_arith)
                        requires
                            price <= 1_000_000,
                            size >= 0,
                    ;
                }
                let value: u128 = (price as u128) * (size as u128);
                match t.side {
                    OrderSide::Buy => {
                        bought = bought + (size as u128);
                        cost = cost + value;
                    },
                    OrderSide::Sell => {
                        sold = sold + (size as u128);
                        proceeds = proceeds + value;
                    },
                }
            }
            j += 1;
        }
        proof {
            assert(trades@.take(trades@.len() as int) =~= trades@);
        }
        // net size, dust test, average price and realized profit
        let net: i128 = (bought as i128) - (sold as i128);
        let emit = net >= 100 || net <= -100;
        proof {
            assert(emit == spec_emit(trades@, gid));
        }
        if emit {
            let avg: u64 = if bought > 0 {
                proof {
                    assert(cost / bought <= 1_000_000) by (nonlinear_arith)
                        requires
                            cost <= 1_000_000 * bought,
                            bought > 0,
                    ;
                }
                (cost / bought) as u64
            } else {
                0
            };
            proof {
                assert(sold * (avg as u128) <= sold * 1_000_000) by (nonlinear_arith)
                    requires
                        avg <= 1_000_000,
                        sold >= 0,
                ;
            }
            let realized: i128 = (proceeds as i128) - ((sold * (avg as u128)) as i128);
            let figures = PositionFigures {
                market: markets[k].clone(),
                asset_id: ids[k].clone(),
                net_micros: net,
                avg_price_micros: avg,
                realized_pnl_pico: realized,
            };
            proof {
                assert(spec_figures_match(trades@, gid, figures));
                assert(spec_keep_emitted(trades@, gids.take(k + 1)) =~= spec_keep_emitted(
                    trades@,
                    gids.take(k as int),
                ).push(gid));
            }
            out.push(figures);
        } else {
            proof {
                assert(spec_keep_emitted(trades@, gids.take(k + 1)) =~= spec_keep_emitted(
                    trades@,
                    gids.take(k as int),
                ));
            }
        }
        k += 1;
    }
    proof {
        assert(gids.take(ids@.len() as int) =~= gids);
    }
    out
}

/// A profit value in millionths of millionths, written with four decimal
/// places, truncated toward zero.
pub open spec fn spec_pnl_text(v: int) -> Seq<char> {
    if v < 0 {
        seq!['-'] + spec_fixed_digits(((-v) as nat) / 100_000_000, 4)
    } else {
        spec_fixed_digits((v as nat) / 100_000_000, 4)
    }
}

/// The unrealized profit of a position marked against a mid price, in
/// millionths of millionths: price minus average entry, times the net size,
/// and only for a long position. A mid price that does not read as a decimal
/// in [0, 1] counts as zero.
pub open spec fn spec_unrealized_pico(net_micros: int, avg_price_micros: u64, mid: Seq<char>) -> int {
    if net_micros > 0 {
        (spec_price_micros(mid) - avg_price_micros) * net_micros
    } else {
        0
    }
}

/// What each rendered field of a position holds, given its figures and the
/// mid price handed to the marking step.
pub open spec fn spec_position_matches(
    f: PositionFigures,
    mid: Option<Seq<char>>,
    p: Position,
) -> bool {
    &&& p.market@ == f.market@
    &&& p.asset_id@ == f.asset_id@
    &&& p.size@ == spec_signed_fixed_digits(f.net_micros as int, 6)
    &&& p.average_price@ == spec_fixed_digits((f.avg_price_micros / 100) as nat, 4)
    &&& p.realized_pnl@ == spec_pnl_text(f.realized_pnl_pico as int)
    &&& p.unrealized_pnl@ == match mid {
        Some(m) => spec_pnl_text(spec_unrealized_pico(f.net_micros as int, f.avg_price_micros, m)),
        None => spec_pnl_text(0),
    }
}

/// Renders a reconciled position, marking it against a mid price when one is
/// supplied. When the oracle gave no price, or the position is not long, the
/// unrealized profit is zero: an oracle failure never touches the realized
/// figures. Sizes carry six decimal places; prices and profits four.
pub fn position_from_figures(f: &PositionFigures, midpoint: Option<&str>) -> (r: Position)
    requires
        f.wf(),
    ensures
        spec_position_matches(
            *f,
            match midpoint {
                Some(m) => Some(m@),
                None => None,
            },
            r,
        ),
{
    let size_text = signed_fixed6_string(f.net_micros);
    let avg_text = fixed4_string(false, (f.avg_price_micros / 100) as u128);
    let realized_text = pnl_string(f.realized_pnl_pico);
    let unrealized: i128 = match midpoint {
        Some(m) => {
            if f.net_micros > 0 {
                let mid = price_micros(m);
                let diff: i128 = (mid as i128) - (f.avg_price_micros as i128);
                proof {
                    assert(diff * f.net_micros
                        < 100_000_000_000_000_000_000_000_000_000_000_000_000 && diff
                        * f.net_micros > -100_000_000_000_000_000_000_000_000_000_000_000_000)
                        by (nonlinear_arith)
                        requires
                            -1_000_000 <= diff <= 1_000_000,
                            0 < f.net_micros < 100_000_000_000_000_000_000_000_000_000_000,
                    ;
                }
                diff * f.net_micros
            } else {
                0
            }
        },
        None => 0,
    };
    Position {
        market: f.market.clone(),
        asset_id: f.asset_id.clone(),
        size: size_text,
        average_price: avg_text,
        realized_pnl: realized_text,
        unrealized_pnl: pnl_string(unrealized),
    }
}

/// Writes a profit held in millionths of millionths with four decimal
/// places.
fn pnl_string(v: i128) -> (r: String)
    requires
        v > i128::MIN,
    ensures
        r@ == spec_pnl_text(v as int),
{
    if v < 0 {
        let mag: u128 = (-v) as u128;
        fixed4_string(true, mag / 100_000_000)
    } else {
        fixed4_string(false, (v as u128) / 100_000_000)
    }
}

/// What each field of an unmarked rendered position holds for one
/// instrument of a trade sequence: the exact integer folds, written in fixed
/// point, with a zero unrealized profit.
pub open spec fn spec_rendered_match(trades: Seq<TradeEntry>, id: Seq<char>, p: Position) -> bool {
    &&& p.asset_id@ == id
    &&& p.market@ == spec_market_of(trades, id)
    &&& p.size@ == spec_signed_fixed_digits(spec_net_size(trades, id), 6)
    &&& p.average_price@ == spec_fixed_digits(spec_average_price(trades, id) / 100, 4)
    &&& p.realized_pnl@ == spec_pnl_text(spec_realized_pnl(trades, id))
    &&& p.unrealized_pnl@ == spec_pnl_text(0)
}

/// Folds a trade history into rendered positions without marking: every
/// emitted position carries a zero unrealized profit. The caller that can
/// reach a price oracle marks each figure itself through
/// `position_from_figures`.
pub fn reconcile_positions(trades: &Vec<TradeEntry>) -> (r: Vec<Position>)
    requires
        trades@.len() <= 1_000_000_000_000,
    ensures
        r@.len() == spec_emitted_ids(trades@).len(),
        forall|i: int|
            0 <= i < r@.len() ==> spec_rendered_match(
                trades@,
                spec_emitted_ids(trades@)[i],
                #[trigger] r@[i],
            ),
{
    let figures = reconcile(trades);
    let mut out: Vec<Position> = Vec::new();
    let mut i: usize = 0;
    while i < figures.len()
        invariant
            0 <= i <= figures@.len(),
            figures@.len() == spec_emitted_ids(trades@).len(),
            forall|k: int|
                0 <= k < figures@.len() ==> spec_figures_match(
                    trades@,
                    spec_emitted_ids(trades@)[k],
                    #[trigger] figures@[k],
                ),
            out@.len() == i,
            forall|k: int|
                0 <= k < i ==> spec_rendered_match(
                    trades@,
                    spec_emitted_ids(trades@)[k],
                    #[trigger] out@[k],
                ),
        decreases figures@.len() - i,
    {
        let p = position_from_figures(&figures[i], None);
        proof {
            assert(spec_rendered_match(trades@, spec_emitted_ids(trades@)[i as int], p));
        }
        out.push(p);
        i += 1;
    }
    out
}

/// Law: an oracle outcome touches only the unrealized figure. Two renderings
/// of the same position figures, whatever mid prices their oracle calls
/// produced, agree on market, instrument, size, average entry price and
/// realized profit; and a rendering without a price carries a zero
/// unrealized profit. One instrument's oracle failure therefore cannot
/// change what is reported for any position's realized side.
pub proof fn lemma_oracle_isolation(
    f: PositionFigures,
    mid1: Option<Seq<char>>,
    mid2: Option<Seq<char>>,
    p1: Position,
    p2: Position,
)
    requires
        spec_position_matches(f, mid1, p1),
        spec_position_matches(f, mid2, p2),
    ensures
        p1.market@ == p2.market@,
        p1.asset_id@ == p2.asset_id@,
        p1.size@ == p2.size@,
        p1.average_price@ == p2.average_price@,
        p1.realized_pnl@ == p2.realized_pnl@,
        mid1 is None ==> p1.unrealized_pnl@ == spec_pnl_text(0),
{
}

} // verus!
