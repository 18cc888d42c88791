//! The command names of the wire protocol.

use vstd::prelude::*;

verus! {

pub const STREAM_BALANCE_SUBSCRIBE: &'static str = "getBalance";

pub const STREAM_BALANCE: &'static str = "balance";

pub const STREAM_BALANCE_UNSUBSCRIBE: &'static str = "stopBalance";

pub const STREAM_CANDLES_SUBSCRIBE: &'static str = "getCandles";

pub const STREAM_CANDLES: &'static str = "candle";

pub const STREAM_CANDLES_UNSUBSCRIBE: &'static str = "stopCandles";

pub const STREAM_KEEP_ALIVE_SUBSCRIBE: &'static str = "getKeepAlive";

pub const STREAM_KEEP_ALIVE: &'static str = "keepAlive";

pub const STREAM_KEEP_ALIVE_UNSUBSCRIBE: &'static str = "stopKeepAlive";

pub const STREAM_NEWS_SUBSCRIBE: &'static str = "getNews";

pub const STREAM_NEWS: &'static str = "news";

pub const STREAM_NEWS_UNSUBSCRIBE: &'static str = "stopNews";

pub const STREAM_PROFITS_SUBSCRIBE: &'static str = "getProfits";

pub const STREAM_PROFITS: &'static str = "profit";

pub const STREAM_PROFITS_UNSUBSCRIBE: &'static str = "stopProfits";

pub const STREAM_TICK_PRICES_SUBSCRIBE: &'static str = "getTickPrices";

pub const STREAM_TICK_PRICES: &'static str = "tickPrices";

pub const STREAM_TICK_PRICES_UNSUBSCRIBE: &'static str = "stopTickPrices";

pub const STREAM_TRADES_SUBSCRIBE: &'static str = "getTrades";

pub const STREAM_TRADES: &'static str = "trade";

pub const STREAM_TRADES_UNSUBSCRIBE: &'static str = "stopTrades";

pub const STREAM_TRADE_STATUS_SUBSCRIBE: &'static str = "getTradeStatus";

pub const STREAM_TRADE_STATUS: &'static str = "tradeStatus";

pub const STREAM_TRADE_STATUS_UNSUBSCRIBE: &'static str = "stopTradeStatus";

pub const STREAM_PING: &'static str = "ping";

pub const COMMAND_LOGIN: &'static str = "login";

pub const COMMAND_LOGOUT: &'static str = "logout";

pub const COMMAND_GET_ALL_SYMBOLS: &'static str = "getAllSymbols";

pub const COMMAND_GET_CALENDAR: &'static str = "getCalendar";

pub const COMMAND_GET_CHART_LAST_REQUEST: &'static str = "getChartLastRequest";

pub const COMMAND_GET_CHART_RANGE_REQUEST: &'static str = "getChartRangeRequest";

pub const COMMAND_GET_COMMISSION_DEF: &'static str = "getCommissionDef";

pub const COMMAND_GET_CURRENT_USER_DATA: &'static str = "getCurrentUserData";

pub const COMMAND_GET_IBS_HISTORY: &'static str = "getIbsHistory";

pub const COMMAND_GET_MARGIN_LEVEL: &'static str = "getMarginLevel";

pub const COMMAND_GET_MARGIN_TRADE: &'static str = "getMarginTrade";

pub const COMMAND_GET_NEWS: &'static str = "getNews";

pub const COMMAND_GET_PROFIT_CALCULATION: &'static str = "getProfitCalculation";

pub const COMMAND_GET_SERVER_TIME: &'static str = "getServerTime";

pub const COMMAND_GET_STEP_RULES: &'static str = "getStepRules";

pub const COMMAND_GET_SYMBOL: &'static str = "getSymbol";

pub const COMMAND_GET_TICK_PRICES: &'static str = "getTickPrices";

pub const COMMAND_GET_TRADE_RECORDS: &'static str = "getTradeRecords";

pub const COMMAND_GET_TRADES: &'static str = "getTrades";

pub const COMMAND_GET_TRADES_HISTORY: &'static str = "getTradesHistory";

pub const COMMAND_GET_TRADING_HOURS: &'static str = "getTradingHours";

pub const COMMAND_GET_VERSION: &'static str = "getVersion";

pub const COMMAND_PING: &'static str = "ping";

pub const COMMAND_TRADE_TRANSACTION: &'static str = "tradeTransaction";

pub const COMMAND_TRADE_TRANSACTION_STATUS: &'static str = "tradeTransactionStatus";

} // verus!
