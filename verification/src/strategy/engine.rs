//! The trading engine: the configuration, the order manager and every strategy, and the
//! orders one scan of the order books produces.
use vstd::prelude::*;
use crate::types::{OrderBook, ArithmeticOverflow};
use crate::config::Config;
use crate::order::manager::OrderManager;
use crate::strategy::mispricing::MispricingEngine;
use crate::strategy::market_making::{MarketMakingEngine, MakerOrder, maker_orders_spec};
use crate::strategy::hft::HftEngine;
use crate::strategy::hedging::HedgingEngine;
use crate::strategy::hold::HoldEngine;
use crate::strategy::farming::FarmingEngine;

verus! {

/// Everything the bot decides with.
#[derive(Debug)]
pub struct TradingEngine {
    pub config: Config,
    pub order_manager: OrderManager,
    pub mispricing_engine: MispricingEngine,
    pub market_making_engine: MarketMakingEngine,
    pub hft_engine: HftEngine,
    pub hedging_engine: HedgingEngine,
    pub hold_engine: HoldEngine,
    pub farming_engine: FarmingEngine,
}

/// The maker orders for the books, book after book, or the first error.
pub open spec fn scan_spec(engine: MarketMakingEngine, books: Seq<OrderBook>) -> Result<
    Seq<MakerOrder>,
    ArithmeticOverflow,
>
    decreases books.len(),
{
    if books.len() == 0 {
        Ok(Seq::<MakerOrder>::empty())
    } else {
        match scan_spec(engine, books.drop_last()) {
            Ok(prev) => match maker_orders_spec(engine.cfg(), books.last()) {
                Ok(more) => Ok(prev + more),
                Err(e) => Err(e),
            },
            Err(e) => Err(e),
        }
    }
}

proof fn lemma_scan_err_extends(engine: MarketMakingEngine, books: Seq<OrderBook>, k: int)
    requires
        0 <= k <= books.len(),
        scan_spec(engine, books.take(k)) is Err,
    ensures
        scan_spec(engine, books) is Err,
    decreases books.len() - k,
{
    if k < books.len() {
        assert(books.take(k + 1).drop_last() =~= books.take(k));
        lemma_scan_err_extends(engine, books, k + 1);
    } else {
        assert(books.take(k) =~= books);
    }
}

impl TradingEngine {
    /// An engine for the configuration: a paper order manager in paper mode, a live one
    /// otherwise, and every strategy set up from its part of the configuration.
    pub fn new(config: Config) -> (e: TradingEngine)
        ensures
            e.config == config,
            e.order_manager.paper() == config.trading.paper_mode,
            e.order_manager.active() == Map::<Seq<char>, crate::types::Order>::empty(),
            e.mispricing_engine.cfg() == config.trading,
            e.market_making_engine.cfg() == config.trading,
            e.hft_engine.cfg() == config.hft,
            e.hft_engine.prices() == Map::<Seq<char>, crate::decimal::Dec>::empty(),
            e.hedging_engine.cfg() == config.hedging,
            e.hold_engine.cfg() == config.zombie,
            e.hold_engine.cache() == Map::<Seq<char>, crate::types::Position>::empty(),
            e.farming_engine.cfg() == config.farming,
    {
        let order_manager = if config.trading.paper_mode {
            OrderManager::new_paper()
        } else {
            OrderManager::new_real()
        };
        let mispricing_engine = MispricingEngine::new(&config.trading);
        let market_making_engine = MarketMakingEngine::new(&config.trading);
        let hft_engine = HftEngine::new(config.hft);
        let hedging_engine = HedgingEngine::new(config.hedging);
        let hold_engine = HoldEngine::new(config.zombie);
        let farming_engine = FarmingEngine::new(config.farming);
        TradingEngine {
            config,
            order_manager,
            mispricing_engine,
            market_making_engine,
            hft_engine,
            hedging_engine,
            hold_engine,
            farming_engine,
        }
    }

    /// The maker orders one scan places: those of each book in turn; `Err` where an
    /// arithmetic step overflows.
    pub fn scan_maker_orders(&self, books: &Vec<OrderBook>) -> (r: Result<
        Vec<MakerOrder>,
        ArithmeticOverflow,
    >)
        ensures
            r is Ok <==> scan_spec(self.market_making_engine, books@) is Ok,
            r matches Ok(v) ==> scan_spec(self.market_making_engine, books@) == Ok::<
                Seq<MakerOrder>,
                ArithmeticOverflow,
            >(v@),
    {
        let mut out: Vec<MakerOrder> = Vec::new();
        let n = books.len();
        let mut i: usize = 0;
        proof {
            assert(books@.take(0) =~= Seq::<OrderBook>::empty());
        }
        while i < n
            invariant
                n == books@.len(),
                i <= n,
                scan_spec(self.market_making_engine, books@.take(i as int)) == Ok::<
                    Seq<MakerOrder>,
                    ArithmeticOverflow,
                >(out@),
            decreases n - i,
        {
            proof {
                assert(books@.take(i + 1).drop_last() =~= books@.take(i as int));
            }
            match self.market_making_engine.try_generate_maker_orders(&books[i]) {
                Ok(mut more) => {
                    let ghost prev = out@;
                    out.append(&mut more);
                    proof {
                        assert(out@ =~= prev + maker_orders_spec(
                            self.market_making_engine.cfg(),
                            books@[i as int],
                        )->Ok_0);
                    }
                },
                Err(e) => {
                    proof {
                        lemma_scan_err_extends(self.market_making_engine, books@, i + 1);
                    }
                    return Err(e);
                },
            }
            i = i + 1;
        }
        proof {
            assert(books@.take(n as int) =~= books@);
        }
        Ok(out)
    }
}

} // verus!
