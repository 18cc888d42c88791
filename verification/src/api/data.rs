//! Data shapes of the typed command API.
//!
//! These are the request and response payloads that the facade's typed
//! operations carry; the codec that writes and reads them on the wire
//! is an outside collaborator, and the core routes them as opaque
//! payloads.  The shapes whose fields are floating-point prices live
//! with that collaborator as well.

use vstd::prelude::*;

use crate::api::enums::ImpactLevel;
use crate::api::enums::TimePeriod;
use crate::json::lemma_obj_jview;
use crate::json::JsonValue;
use crate::json::JsonView;

verus! {

/// The login command returns no payload; this stands in for symmetry.
#[derive(Clone, Copy, Debug, PartialEq, Eq, Default)]
pub struct LoginResponse;

/// The getAllSymbols command takes no payload.
#[derive(Clone, Copy, Debug, PartialEq, Eq, Default)]
pub struct GetAllSymbolsRequest;

/// The getCalendar command takes no payload.
#[derive(Clone, Copy, Debug, PartialEq, Eq, Default)]
pub struct GetCalendarRequest;

/// The getCurrentUserData command takes no payload.
#[derive(Clone, Copy, Debug, PartialEq, Eq, Default)]
pub struct GetCurrentUserDataRequest;

/// The getMarginLevel command takes no payload.
#[derive(Clone, Copy, Debug, PartialEq, Eq, Default)]
pub struct GetMarginLevelRequest;

/// The getServerTime command takes no payload.
#[derive(Clone, Copy, Debug, PartialEq, Eq, Default)]
pub struct GetServerTimeRequest;

/// The getStepRules command takes no payload.
#[derive(Clone, Copy, Debug, PartialEq, Eq, Default)]
pub struct GetStepRulesRequest;

/// The getVersion command takes no payload.
#[derive(Clone, Copy, Debug, PartialEq, Eq, Default)]
pub struct GetVersionRequest;

/// The ping command takes no payload.
#[derive(Clone, Copy, Debug, PartialEq, Eq, Default)]
pub struct PingRequest;

/// The ping command returns no payload.
#[derive(Clone, Copy, Debug, PartialEq, Eq, Default)]
pub struct PingResponse;

/// Opens the account-balance feed.
#[derive(Clone, Copy, Debug, PartialEq, Eq, Default)]
pub struct StreamGetBalanceSubscribe;

/// Closes the account-balance feed.
#[derive(Clone, Copy, Debug, PartialEq, Eq, Default)]
pub struct StreamGetBalanceUnsubscribe;

/// Opens the keep-alive feed.
#[derive(Clone, Copy, Debug, PartialEq, Eq, Default)]
pub struct StreamGetKeepAliveSubscribe;

/// Closes the keep-alive feed.
#[derive(Clone, Copy, Debug, PartialEq, Eq, Default)]
pub struct StreamGetKeepAliveUnsubscribe;

/// Opens the news feed.
#[derive(Clone, Copy, Debug, PartialEq, Eq, Default)]
pub struct StreamGetNewsSubscribe;

/// Closes the news feed.
#[derive(Clone, Copy, Debug, PartialEq, Eq, Default)]
pub struct StreamGetNewsUnsubscribe;

/// Opens the profits feed.
#[derive(Clone, Copy, Debug, PartialEq, Eq, Default)]
pub struct StreamGetProfitSubscribe;

/// Closes the profits feed.
#[derive(Clone, Copy, Debug, PartialEq, Eq, Default)]
pub struct StreamGetProfitUnsubscribe;

/// Opens the trades feed.
#[derive(Clone, Copy, Debug, PartialEq, Eq, Default)]
pub struct StreamGetTradesSubscribe;

/// Closes the trades feed.
#[derive(Clone, Copy, Debug, PartialEq, Eq, Default)]
pub struct StreamGetTradesUnsubscribe;

/// Opens the trade-status feed.
#[derive(Clone, Copy, Debug, PartialEq, Eq, Default)]
pub struct StreamGetTradeStatusSubscribe;

/// Closes the trade-status feed.
#[derive(Clone, Copy, Debug, PartialEq, Eq, Default)]
pub struct StreamGetTradeStatusUnsubscribe;

/// The stream keepalive ping; it opens no feed.
#[derive(Clone, Copy, Debug, PartialEq, Eq, Default)]
pub struct StreamPingSubscribe;

/// A user's login data.
#[derive(Clone, Debug, PartialEq, Default)]
pub struct LoginRequest {
    /// User identifier.
    pub user_id: String,
    /// Password.
    pub password: String,
    /// Application identifier (deprecated by the server's interface).
    pub app_id: Option<String>,
    /// Application name (deprecated by the server's interface).
    pub app_name: Option<String>,
}

/// Spec image of a [`LoginRequest`].
pub struct LoginRequestView {
    pub user_id: Seq<char>,
    pub password: Seq<char>,
    pub app_id: Option<Seq<char>>,
    pub app_name: Option<Seq<char>>,
}

impl View for LoginRequest {
    type V = LoginRequestView;

    open spec fn view(&self) -> LoginRequestView {
        LoginRequestView {
            user_id: self.user_id@,
            password: self.password@,
            app_id: crate::api::messages::opt_text(self.app_id),
            app_name: crate::api::messages::opt_text(self.app_name),
        }
    }
}

/// The payload object of the login command: credentials, and the
/// application identity only where it is set.
pub open spec fn login_json(r: LoginRequestView) -> JsonView {
    JsonView::Obj(
        seq![("userId"@, JsonView::Str(r.user_id)), ("password"@, JsonView::Str(r.password))] + (
        match r.app_id {
            Some(a) => seq![("appId"@, JsonView::Str(a))],
            None => Seq::empty(),
        }) + (match r.app_name {
            Some(a) => seq![("appName"@, JsonView::Str(a))],
            None => Seq::empty(),
        }),
    )
}

impl LoginRequest {
    /// The payload of the login command.
    pub fn to_json(&self) -> (r: JsonValue)
        ensures
            r@ == login_json(self@),
    {
        let mut entries: Vec<(String, JsonValue)> = Vec::new();
        entries.push(("userId".to_owned(), JsonValue::Str(self.user_id.clone())));
        entries.push(("password".to_owned(), JsonValue::Str(self.password.clone())));
        match &self.app_id {
            Some(a) => {
                entries.push(("appId".to_owned(), JsonValue::Str(a.clone())));
            },
            None => {},
        }
        match &self.app_name {
            Some(a) => {
                entries.push(("appName".to_owned(), JsonValue::Str(a.clone())));
            },
            None => {},
        }
        let r = JsonValue::Obj(entries);
        proof {
            lemma_obj_jview(r->Obj_0@);
            assert(r@->Obj_0 =~= login_json(self@)->Obj_0);
        }
        r
    }
}

/// One market-calendar event.
#[derive(Clone, Debug, PartialEq, Default)]
pub struct CalendarRecord {
    /// Two-letter country code.
    pub country: String,
    /// Current market value; empty before the release time.
    pub current: String,
    /// Forecasted value.
    pub forecast: String,
    /// Expected impact on the market.
    pub impact: ImpactLevel,
    /// Information period.
    pub period: String,
    /// Value of the previous release.
    pub previous: String,
    /// Release time.
    pub time: u64,
    /// Name of the indicator.
    pub title: String,
}

/// Constraints of a chart request from a start time.
#[derive(Clone, Debug, PartialEq, Default)]
pub struct ChartLastInfoRecord {
    /// Candle period.
    pub period: TimePeriod,
    /// Start of the chart block.
    pub start: u64,
    /// Symbol.
    pub symbol: String,
}

/// Payload of the getChartLastRequest command.
#[derive(Clone, Debug, PartialEq, Default)]
pub struct GetChartLastRequestRequest {
    /// The request constraints.
    pub info: ChartLastInfoRecord,
}

/// Constraints of a chart request over a time range.
#[derive(Clone, Debug, PartialEq, Default)]
pub struct ChartRangeInfoRecord {
    /// End of the chart block.
    pub end: u64,
    /// Candle period.
    pub period: TimePeriod,
    /// Start of the chart block.
    pub start: u64,
    /// Symbol.
    pub symbol: String,
    /// Number of ticks needed; optional.
    pub ticks: Option<i64>,
}

/// Payload of the getChartRangeRequest command.
#[derive(Clone, Debug, PartialEq, Default)]
pub struct GetChartRangeRequestRequest {
    /// The request constraints.
    pub info: ChartRangeInfoRecord,
}

/// A time span of IB history.
#[derive(Clone, Debug, PartialEq, Default)]
pub struct GetIbsHistoryRequest {
    /// End of the block.
    pub end: u64,
    /// Start of the block.
    pub start: u64,
}

/// A time span of news.
#[derive(Clone, Debug, PartialEq, Default)]
pub struct GetNewsRequest {
    /// End time; zero stands for now.
    pub end: u64,
    /// Start time.
    pub start: u64,
}

/// One news item.
#[derive(Clone, Debug, PartialEq, Default)]
pub struct NewsBodyRecord {
    /// Body content.
    pub body: String,
    /// Length of the body content.
    pub body_len: usize,
    /// Key of the news item.
    pub key: String,
    /// Time the news was posted.
    pub time: u64,
    /// The same time as text.
    pub time_string: String,
    /// Title of the news item.
    pub title: String,
}

/// The trading server's current time.
#[derive(Clone, Debug, PartialEq, Default)]
pub struct GetServerTimeResponse {
    /// Unix timestamp.
    pub time: u64,
    /// The same time in the server's local form.
    pub time_string: String,
}

/// Ask for one symbol's record.
#[derive(Clone, Debug, PartialEq, Default)]
pub struct GetSymbolRequest {
    /// Symbol name.
    pub symbol: String,
}

/// Ask for the most recent ticks of some symbols.
#[derive(Clone, Debug, PartialEq, Default)]
pub struct GetTickPricesRequest {
    /// Price level.
    pub level: u32,
    /// Symbol names.
    pub symbols: Vec<String>,
    /// Look for ticks after this time.
    pub timestamp: u64,
}

/// Ask for the trades of some orders.
#[derive(Clone, Debug, PartialEq, Default)]
pub struct GetTradeRecordsRequest {
    /// Position numbers.
    pub orders: Vec<u32>,
}

/// Ask for the user's trades.
#[derive(Clone, Debug, PartialEq, Default)]
pub struct GetTradesRequest {
    /// Whether only opened trades are returned.
    pub opened_only: bool,
}

/// A time span of closed trades.
#[derive(Clone, Debug, PartialEq, Default)]
pub struct GetTradesHistoryRequest {
    /// End time; zero stands for now.
    pub end: u64,
    /// Start time; zero stands for the last month.
    pub start: u64,
}

/// Ask for quote and trading times of some symbols.
#[derive(Clone, Debug, PartialEq, Default)]
pub struct GetTradingHoursRequest {
    /// Symbol names.
    pub symbols: Vec<String>,
}

/// Quote and trading times of one symbol.
#[derive(Clone, Debug, PartialEq, Default)]
pub struct TradingHoursRecord {
    /// When quotes are served.
    pub quotes: Vec<HoursRecord>,
    /// Symbol name.
    pub symbol: String,
    /// When trading is open.
    pub trading: Vec<HoursRecord>,
}

/// One daily time window.
#[derive(Clone, Debug, PartialEq, Default)]
pub struct HoursRecord {
    /// Day of the week, numbered from Monday.
    pub day: u8,
    /// Window start, in milliseconds from midnight CET/CEST.
    pub from_t: u64,
    /// Window end, in milliseconds from midnight CET/CEST.
    pub to_t: u64,
}

/// The interface version of the server.
#[derive(Clone, Debug, PartialEq, Default)]
pub struct GetVersionResponse {
    /// Version text.
    pub version: String,
}

/// Acknowledgement of a trade transaction.
#[derive(Clone, Debug, PartialEq, Default)]
pub struct TradeTransactionResponse {
    /// Order number.
    pub order: i32,
}

/// Ask for the status of a sent transaction.
#[derive(Clone, Debug, PartialEq, Default)]
pub struct TradeTransactionStatusRequest {
    /// Order number from the transaction's acknowledgement.
    pub order: i32,
}

/// Opens the candle feed of one symbol.
#[derive(Clone, Debug, PartialEq, Default)]
pub struct StreamGetCandlesSubscribe {
    /// Symbol name.
    pub symbol: String,
}

/// Closes the candle feed of one symbol.
#[derive(Clone, Debug, PartialEq, Default)]
pub struct StreamGetCandlesUnsubscribe {
    /// Symbol name.
    pub symbol: String,
}

/// One keep-alive push message.
#[derive(Clone, Debug, PartialEq, Default)]
pub struct StreamGetKeepAliveData {
    /// Current server time.
    pub timestamp: u64,
}

/// One news push message.
#[derive(Clone, Debug, PartialEq, Default)]
pub struct StreamGetNewsData {
    /// Body content.
    pub body: String,
    /// Key of the news item.
    pub key: String,
    /// Time of the article.
    pub time: u64,
    /// Title of the article.
    pub title: String,
}

/// Opens the tick-price feed of one symbol.
#[derive(Clone, Debug, PartialEq, Default)]
pub struct StreamGetTickPricesSubscribe {
    /// Symbol name.
    pub symbol: String,
    /// Minimal interval between updates, in milliseconds; optional.
    pub min_arrival_time: Option<u64>,
    /// Largest quote level of interest; optional.
    pub max_level: Option<u64>,
}

/// Closes the tick-price feed of one symbol.
#[derive(Clone, Debug, PartialEq, Default)]
pub struct StreamGetTickPricesUnsubscribe {
    /// Symbol name.
    pub symbol: String,
}

/// The calendar's events.
#[derive(Clone, Debug, PartialEq, Default)]
pub struct GetCalendarResponse(pub Vec<CalendarRecord>);

/// The news of the asked span.
#[derive(Clone, Debug, PartialEq, Default)]
pub struct GetNewsResponse(pub Vec<NewsBodyRecord>);

/// Quote and trading times of the asked symbols.
#[derive(Clone, Debug, PartialEq, Default)]
pub struct GetTradingHoursResponse(pub Vec<TradingHoursRecord>);

} // verus!
