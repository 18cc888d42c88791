//! Enumerations of the typed command API, with their wire numbers.
//!
//! The wire writes each of these as a plain number (the calendar
//! impact level as a one-digit string, the trade status as a
//! lower-case word); the conversion functions replace the derive-based
//! encoding of such values.

use vstd::prelude::*;

use crate::strutil::ascii_lower;
use crate::strutil::str_eq_ignore_ascii_case;

verus! {

/// Source of a quoted price.
#[derive(Clone, Copy, Debug, PartialEq, Eq, Structural)]
pub enum QuoteId {
    /// fixed
    Fixed,
    /// float
    Float,
    /// depth
    Depth,
    /// cross
    Cross,
}

/// The number that stands for each variant on the wire.
pub open spec fn spec_quote_id_wire(v: QuoteId) -> int {
    match v {
        QuoteId::Fixed => 1,
        QuoteId::Float => 2,
        QuoteId::Depth => 3,
        QuoteId::Cross => 4,
    }
}

impl QuoteId {
    /// The wire number of this variant.
    pub fn wire_value(&self) -> (r: u8)
        ensures
            r as int == spec_quote_id_wire(*self),
    {
        match self {
            QuoteId::Fixed => 1,
            QuoteId::Float => 2,
            QuoteId::Depth => 3,
            QuoteId::Cross => 4,
        }
    }

    /// The variant that a wire number stands for, if any.
    pub fn from_wire_value(value: u8) -> (r: Option<QuoteId>)
        ensures
            match r {
                Some(v) => spec_quote_id_wire(v) == value as int,
                None => forall|v: QuoteId| spec_quote_id_wire(v) != value as int,
            },
    {
        match value {
            1 => Some(QuoteId::Fixed),
            2 => Some(QuoteId::Float),
            3 => Some(QuoteId::Depth),
            4 => Some(QuoteId::Cross),
            _ => None,
        }
    }
}

impl Default for QuoteId {
    /// The wire default.
    fn default() -> (r: QuoteId)
        ensures
            r == QuoteId::Fixed,
    {
        QuoteId::Fixed
    }
}

/// How margin is computed for an instrument.
#[derive(Clone, Copy, Debug, PartialEq, Eq, Structural)]
pub enum MarginMode {
    /// Forex
    Forex,
    /// leveraged CFD
    CFDLeveraged,
    /// CFD
    CFD,
}

/// The number that stands for each variant on the wire.
pub open spec fn spec_margin_mode_wire(v: MarginMode) -> int {
    match v {
        MarginMode::Forex => 101,
        MarginMode::CFDLeveraged => 102,
        MarginMode::CFD => 103,
    }
}

impl MarginMode {
    /// The wire number of this variant.
    pub fn wire_value(&self) -> (r: u8)
        ensures
            r as int == spec_margin_mode_wire(*self),
    {
        match self {
            MarginMode::Forex => 101,
            MarginMode::CFDLeveraged => 102,
            MarginMode::CFD => 103,
        }
    }

    /// The variant that a wire number stands for, if any.
    pub fn from_wire_value(value: u8) -> (r: Option<MarginMode>)
        ensures
            match r {
                Some(v) => spec_margin_mode_wire(v) == value as int,
                None => forall|v: MarginMode| spec_margin_mode_wire(v) != value as int,
            },
    {
        match value {
            101 => Some(MarginMode::Forex),
            102 => Some(MarginMode::CFDLeveraged),
            103 => Some(MarginMode::CFD),
            _ => None,
        }
    }
}

impl Default for MarginMode {
    /// The wire default.
    fn default() -> (r: MarginMode)
        ensures
            r == MarginMode::Forex,
    {
        MarginMode::Forex
    }
}

/// How profit is computed for an instrument.
#[derive(Clone, Copy, Debug, PartialEq, Eq, Structural)]
pub enum ProfitMode {
    /// Forex
    Forex,
    /// CFD
    Cfd,
}

/// The number that stands for each variant on the wire.
pub open spec fn spec_profit_mode_wire(v: ProfitMode) -> int {
    match v {
        ProfitMode::Forex => 5,
        ProfitMode::Cfd => 6,
    }
}

impl ProfitMode {
    /// The wire number of this variant.
    pub fn wire_value(&self) -> (r: u8)
        ensures
            r as int == spec_profit_mode_wire(*self),
    {
        match self {
            ProfitMode::Forex => 5,
            ProfitMode::Cfd => 6,
        }
    }

    /// The variant that a wire number stands for, if any.
    pub fn from_wire_value(value: u8) -> (r: Option<ProfitMode>)
        ensures
            match r {
                Some(v) => spec_profit_mode_wire(v) == value as int,
                None => forall|v: ProfitMode| spec_profit_mode_wire(v) != value as int,
            },
    {
        match value {
            5 => Some(ProfitMode::Forex),
            6 => Some(ProfitMode::Cfd),
            _ => None,
        }
    }
}

impl Default for ProfitMode {
    /// The wire default.
    fn default() -> (r: ProfitMode)
        ensures
            r == ProfitMode::Forex,
    {
        ProfitMode::Forex
    }
}

/// Expected market impact of a calendar event.
#[derive(Clone, Copy, Debug, PartialEq, Eq, Structural)]
pub enum ImpactLevel {
    /// low
    Low,
    /// medium
    Medium,
    /// high
    High,
}

/// The number that stands for each variant on the wire.
pub open spec fn spec_impact_level_wire(v: ImpactLevel) -> int {
    match v {
        ImpactLevel::Low => 1,
        ImpactLevel::Medium => 2,
        ImpactLevel::High => 3,
    }
}

impl ImpactLevel {
    /// The wire number of this variant.
    pub fn wire_value(&self) -> (r: u8)
        ensures
            r as int == spec_impact_level_wire(*self),
    {
        match self {
            ImpactLevel::Low => 1,
            ImpactLevel::Medium => 2,
            ImpactLevel::High => 3,
        }
    }

    /// The variant that a wire number stands for, if any.
    pub fn from_wire_value(value: u8) -> (r: Option<ImpactLevel>)
        ensures
            match r {
                Some(v) => spec_impact_level_wire(v) == value as int,
                None => forall|v: ImpactLevel| spec_impact_level_wire(v) != value as int,
            },
    {
        match value {
            1 => Some(ImpactLevel::Low),
            2 => Some(ImpactLevel::Medium),
            3 => Some(ImpactLevel::High),
            _ => None,
        }
    }
}

impl Default for ImpactLevel {
    /// The wire default.
    fn default() -> (r: ImpactLevel)
        ensures
            r == ImpactLevel::Low,
    {
        ImpactLevel::Low
    }
}

/// Chart candle period, in minutes on the wire.
#[derive(Clone, Copy, Debug, PartialEq, Eq, Structural)]
pub enum TimePeriod {
    /// one minute
    PeriodM1,
    /// five minutes
    PeriodM5,
    /// fifteen minutes
    PeriodM15,
    /// thirty minutes
    PeriodM30,
    /// one hour
    PeriodH1,
    /// four hours
    PeriodH4,
    /// one day
    PeriodD1,
    /// one week
    PeriodW1,
    /// thirty days
    PeriodMN1,
}

/// The number that stands for each variant on the wire.
pub open spec fn spec_time_period_wire(v: TimePeriod) -> int {
    match v {
        TimePeriod::PeriodM1 => 1,
        TimePeriod::PeriodM5 => 5,
        TimePeriod::PeriodM15 => 15,
        TimePeriod::PeriodM30 => 30,
        TimePeriod::PeriodH1 => 60,
        TimePeriod::PeriodH4 => 240,
        TimePeriod::PeriodD1 => 1440,
        TimePeriod::PeriodW1 => 10080,
        TimePeriod::PeriodMN1 => 43200,
    }
}

impl TimePeriod {
    /// The wire number of this variant.
    pub fn wire_value(&self) -> (r: u16)
        ensures
            r as int == spec_time_period_wire(*self),
    {
        match self {
            TimePeriod::PeriodM1 => 1,
            TimePeriod::PeriodM5 => 5,
            TimePeriod::PeriodM15 => 15,
            TimePeriod::PeriodM30 => 30,
            TimePeriod::PeriodH1 => 60,
            TimePeriod::PeriodH4 => 240,
            TimePeriod::PeriodD1 => 1440,
            TimePeriod::PeriodW1 => 10080,
            TimePeriod::PeriodMN1 => 43200,
        }
    }

    /// The variant that a wire number stands for, if any.
    pub fn from_wire_value(value: u16) -> (r: Option<TimePeriod>)
        ensures
            match r {
                Some(v) => spec_time_period_wire(v) == value as int,
                None => forall|v: TimePeriod| spec_time_period_wire(v) != value as int,
            },
    {
        match value {
            1 => Some(TimePeriod::PeriodM1),
            5 => Some(TimePeriod::PeriodM5),
            15 => Some(TimePeriod::PeriodM15),
            30 => Some(TimePeriod::PeriodM30),
            60 => Some(TimePeriod::PeriodH1),
            240 => Some(TimePeriod::PeriodH4),
            1440 => Some(TimePeriod::PeriodD1),
            10080 => Some(TimePeriod::PeriodW1),
            43200 => Some(TimePeriod::PeriodMN1),
            _ => None,
        }
    }
}

impl Default for TimePeriod {
    /// The wire default.
    fn default() -> (r: TimePeriod)
        ensures
            r == TimePeriod::PeriodM5,
    {
        TimePeriod::PeriodM5
    }
}

/// Side of a trade.
#[derive(Clone, Copy, Debug, PartialEq, Eq, Structural)]
pub enum TradingAction {
    /// buy
    Buy,
    /// sell
    Sell,
}

/// The number that stands for each variant on the wire.
pub open spec fn spec_trading_action_wire(v: TradingAction) -> int {
    match v {
        TradingAction::Buy => 0,
        TradingAction::Sell => 1,
    }
}

impl TradingAction {
    /// The wire number of this variant.
    pub fn wire_value(&self) -> (r: u8)
        ensures
            r as int == spec_trading_action_wire(*self),
    {
        match self {
            TradingAction::Buy => 0,
            TradingAction::Sell => 1,
        }
    }

    /// The variant that a wire number stands for, if any.
    pub fn from_wire_value(value: u8) -> (r: Option<TradingAction>)
        ensures
            match r {
                Some(v) => spec_trading_action_wire(v) == value as int,
                None => forall|v: TradingAction| spec_trading_action_wire(v) != value as int,
            },
    {
        match value {
            0 => Some(TradingAction::Buy),
            1 => Some(TradingAction::Sell),
            _ => None,
        }
    }
}

impl Default for TradingAction {
    /// The wire default.
    fn default() -> (r: TradingAction)
        ensures
            r == TradingAction::Buy,
    {
        TradingAction::Buy
    }
}

/// Operation code of an order.
#[derive(Clone, Copy, Debug, PartialEq, Eq, Structural)]
pub enum TradingCommand {
    /// buy
    Buy,
    /// sell
    Sell,
    /// buy limit
    BuyLimit,
    /// sell limit
    SellLimit,
    /// buy stop
    BuyStop,
    /// sell stop
    SellStop,
    /// balance operation, read only
    Balance,
    /// credit operation, read only
    Credit,
}

/// The number that stands for each variant on the wire.
pub open spec fn spec_trading_command_wire(v: TradingCommand) -> int {
    match v {
        TradingCommand::Buy => 0,
        TradingCommand::Sell => 1,
        TradingCommand::BuyLimit => 2,
        TradingCommand::SellLimit => 3,
        TradingCommand::BuyStop => 4,
        TradingCommand::SellStop => 5,
        TradingCommand::Balance => 6,
        TradingCommand::Credit => 7,
    }
}

impl TradingCommand {
    /// The wire number of this variant.
    pub fn wire_value(&self) -> (r: u8)
        ensures
            r as int == spec_trading_command_wire(*self),
    {
        match self {
            TradingCommand::Buy => 0,
            TradingCommand::Sell => 1,
            TradingCommand::BuyLimit => 2,
            TradingCommand::SellLimit => 3,
            TradingCommand::BuyStop => 4,
            TradingCommand::SellStop => 5,
            TradingCommand::Balance => 6,
            TradingCommand::Credit => 7,
        }
    }

    /// The variant that a wire number stands for, if any.
    pub fn from_wire_value(value: u8) -> (r: Option<TradingCommand>)
        ensures
            match r {
                Some(v) => spec_trading_command_wire(v) == value as int,
                None => forall|v: TradingCommand| spec_trading_command_wire(v) != value as int,
            },
    {
        match value {
            0 => Some(TradingCommand::Buy),
            1 => Some(TradingCommand::Sell),
            2 => Some(TradingCommand::BuyLimit),
            3 => Some(TradingCommand::SellLimit),
            4 => Some(TradingCommand::BuyStop),
            5 => Some(TradingCommand::SellStop),
            6 => Some(TradingCommand::Balance),
            7 => Some(TradingCommand::Credit),
            _ => None,
        }
    }
}

impl Default for TradingCommand {
    /// The wire default.
    fn default() -> (r: TradingCommand)
        ensures
            r == TradingCommand::Buy,
    {
        TradingCommand::Buy
    }
}

/// Day of the week, numbered from Monday.
#[derive(Clone, Copy, Debug, PartialEq, Eq, Structural)]
pub enum DayOfWeek {
    /// Monday
    Monday,
    /// Tuesday
    Tuesday,
    /// Wednesday
    Wednesday,
    /// Thursday
    Thursday,
    /// Friday
    Friday,
    /// Saturday
    Saturday,
    /// Sunday
    Sunday,
}

/// The number that stands for each variant on the wire.
pub open spec fn spec_day_of_week_wire(v: DayOfWeek) -> int {
    match v {
        DayOfWeek::Monday => 1,
        DayOfWeek::Tuesday => 2,
        DayOfWeek::Wednesday => 3,
        DayOfWeek::Thursday => 4,
        DayOfWeek::Friday => 5,
        DayOfWeek::Saturday => 6,
        DayOfWeek::Sunday => 7,
    }
}

impl DayOfWeek {
    /// The wire number of this variant.
    pub fn wire_value(&self) -> (r: u8)
        ensures
            r as int == spec_day_of_week_wire(*self),
    {
        match self {
            DayOfWeek::Monday => 1,
            DayOfWeek::Tuesday => 2,
            DayOfWeek::Wednesday => 3,
            DayOfWeek::Thursday => 4,
            DayOfWeek::Friday => 5,
            DayOfWeek::Saturday => 6,
            DayOfWeek::Sunday => 7,
        }
    }

    /// The variant that a wire number stands for, if any.
    pub fn from_wire_value(value: u8) -> (r: Option<DayOfWeek>)
        ensures
            match r {
                Some(v) => spec_day_of_week_wire(v) == value as int,
                None => forall|v: DayOfWeek| spec_day_of_week_wire(v) != value as int,
            },
    {
        match value {
            1 => Some(DayOfWeek::Monday),
            2 => Some(DayOfWeek::Tuesday),
            3 => Some(DayOfWeek::Wednesday),
            4 => Some(DayOfWeek::Thursday),
            5 => Some(DayOfWeek::Friday),
            6 => Some(DayOfWeek::Saturday),
            7 => Some(DayOfWeek::Sunday),
            _ => None,
        }
    }
}

impl Default for DayOfWeek {
    /// The wire default.
    fn default() -> (r: DayOfWeek)
        ensures
            r == DayOfWeek::Monday,
    {
        DayOfWeek::Monday
    }
}

/// Server-side status of a trade transaction.
#[derive(Clone, Copy, Debug, PartialEq, Eq, Structural)]
pub enum TransactionStatus {
    /// error
    Error,
    /// pending
    Pending,
    /// executed successfully
    Accepted,
    /// rejected
    Rejected,
}

/// The number that stands for each variant on the wire.
pub open spec fn spec_transaction_status_wire(v: TransactionStatus) -> int {
    match v {
        TransactionStatus::Error => 0,
        TransactionStatus::Pending => 1,
        TransactionStatus::Accepted => 3,
        TransactionStatus::Rejected => 4,
    }
}

impl TransactionStatus {
    /// The wire number of this variant.
    pub fn wire_value(&self) -> (r: u8)
        ensures
            r as int == spec_transaction_status_wire(*self),
    {
        match self {
            TransactionStatus::Error => 0,
            TransactionStatus::Pending => 1,
            TransactionStatus::Accepted => 3,
            TransactionStatus::Rejected => 4,
        }
    }

    /// The variant that a wire number stands for, if any.
    pub fn from_wire_value(value: u8) -> (r: Option<TransactionStatus>)
        ensures
            match r {
                Some(v) => spec_transaction_status_wire(v) == value as int,
                None => forall|v: TransactionStatus| spec_transaction_status_wire(v) != value as int,
            },
    {
        match value {
            0 => Some(TransactionStatus::Error),
            1 => Some(TransactionStatus::Pending),
            3 => Some(TransactionStatus::Accepted),
            4 => Some(TransactionStatus::Rejected),
            _ => None,
        }
    }
}

impl Default for TransactionStatus {
    /// The wire default.
    fn default() -> (r: TransactionStatus)
        ensures
            r == TransactionStatus::Error,
    {
        TransactionStatus::Error
    }
}

/// Kind of a trade transaction.
#[derive(Clone, Copy, Debug, PartialEq, Eq, Structural)]
pub enum TransactionType {
    /// order open
    Open,
    /// order pending
    Pending,
    /// order close
    Close,
    /// order modify
    Modify,
    /// order delete
    Delete,
}

/// The number that stands for each variant on the wire.
pub open spec fn spec_transaction_type_wire(v: TransactionType) -> int {
    match v {
        TransactionType::Open => 0,
        TransactionType::Pending => 1,
        TransactionType::Close => 2,
        TransactionType::Modify => 3,
        TransactionType::Delete => 4,
    }
}

impl TransactionType {
    /// The wire number of this variant.
    pub fn wire_value(&self) -> (r: u8)
        ensures
            r as int == spec_transaction_type_wire(*self),
    {
        match self {
            TransactionType::Open => 0,
            TransactionType::Pending => 1,
            TransactionType::Close => 2,
            TransactionType::Modify => 3,
            TransactionType::Delete => 4,
        }
    }

    /// The variant that a wire number stands for, if any.
    pub fn from_wire_value(value: u8) -> (r: Option<TransactionType>)
        ensures
            match r {
                Some(v) => spec_transaction_type_wire(v) == value as int,
                None => forall|v: TransactionType| spec_transaction_type_wire(v) != value as int,
            },
    {
        match value {
            0 => Some(TransactionType::Open),
            1 => Some(TransactionType::Pending),
            2 => Some(TransactionType::Close),
            3 => Some(TransactionType::Modify),
            4 => Some(TransactionType::Delete),
            _ => None,
        }
    }
}

impl Default for TransactionType {
    /// The wire default.
    fn default() -> (r: TransactionType)
        ensures
            r == TransactionType::Open,
    {
        TransactionType::Open
    }
}

/// State of a pending order: written lower-case, read in any case.
#[derive(Clone, Copy, Debug, PartialEq, Eq, Structural)]
pub enum TradeStatus {
    /// modified
    Modified,
    /// deleted
    Deleted,
}

/// The lower-case word that stands for each variant on the wire.
pub open spec fn spec_trade_status_text(v: TradeStatus) -> Seq<char> {
    match v {
        TradeStatus::Modified => "modified"@,
        TradeStatus::Deleted => "deleted"@,
    }
}

impl TradeStatus {
    /// The wire word of this variant.
    pub fn wire_text(&self) -> (r: &'static str)
        ensures
            r@ == spec_trade_status_text(*self),
    {
        match self {
            TradeStatus::Modified => "modified",
            TradeStatus::Deleted => "deleted",
        }
    }

    /// The variant that a word stands for, compared without regard to
    /// ASCII case.
    pub fn from_text(s: &str) -> (r: Option<TradeStatus>)
        ensures
            match r {
                Some(v) => ascii_lower(s@) == spec_trade_status_text(v),
                None => ascii_lower(s@) != spec_trade_status_text(TradeStatus::Modified)
                    && ascii_lower(s@) != spec_trade_status_text(TradeStatus::Deleted),
            },
    {
        if str_eq_ignore_ascii_case(s, "modified") {
            proof {
                reveal_strlit("modified");
                assert(ascii_lower("modified"@) =~= "modified"@);
            }
            Some(TradeStatus::Modified)
        } else if str_eq_ignore_ascii_case(s, "deleted") {
            proof {
                reveal_strlit("deleted");
                assert(ascii_lower("deleted"@) =~= "deleted"@);
            }
            Some(TradeStatus::Deleted)
        } else {
            proof {
                reveal_strlit("modified");
                reveal_strlit("deleted");
                assert(ascii_lower("modified"@) =~= "modified"@);
                assert(ascii_lower("deleted"@) =~= "deleted"@);
            }
            None
        }
    }
}

impl Default for TradeStatus {
    /// The wire default.
    fn default() -> (r: TradeStatus)
        ensures
            r == TradeStatus::Modified,
    {
        TradeStatus::Modified
    }
}

} // verus!
