//! What the position endpoints compute once the records are fetched: query
//! parameters to numbers, the owner check, and the response records.
use crate::decimal::Dec;
use crate::health::{get_health_details, get_position_health, health_details_of, health_of};
use crate::models::{HealthStatus, Position, PositionPnL, Swap};
use crate::pnl::{calculate_position_pnl, position_pnl_of};
use crate::ticks::{in_range, is_in_range};
use rust_decimal::Decimal;
use vstd::prelude::*;

verus! {

/// A position as the listing endpoint returns it.
#[derive(Clone, Debug)]
pub struct PositionResponse {
    pub nft_id: String,
    pub owner: String,
    pub pool_id: String,
    pub tick_lower: i32,
    pub tick_upper: i32,
    pub liquidity: String,
    pub created_at: String,
}

/// A position's P&L as the detail endpoint computes it.
#[derive(Clone, Copy, Debug)]
pub struct PnlReport {
    pub pnl: PositionPnL,
    pub in_range: bool,
    pub current_tick: i32,
}

/// A position's health as the health endpoint returns it.
#[derive(Clone, Debug)]
pub struct PositionHealthResponse {
    pub nft_id: String,
    pub status: String,
    pub details: String,
}

/// The query of the P&L and health endpoints, as text.
#[derive(Clone, Debug)]
pub struct PnlQueryParams {
    pub initial_price: String,
    pub current_price: String,
    pub current_tick: i32,
    pub gas_spent: String,
}

/// The query's numbers.
#[derive(Clone, Copy, Debug)]
pub struct PnlInputs {
    pub initial_price: Dec,
    pub current_price: Dec,
    pub gas_spent: Dec,
}

/// A query parameter that is not a decimal number.
#[derive(Clone, Copy, Debug, PartialEq, Eq, Structural)]
pub enum QueryError {
    InvalidInitialPrice,
    InvalidCurrentPrice,
    InvalidGasSpent,
}

impl QueryError {
    /// The message reported to the client.
    pub fn message(&self) -> (r: &'static str)
        ensures
            r@ == (match self {
                QueryError::InvalidInitialPrice => "Invalid initial_price parameter"@,
                QueryError::InvalidCurrentPrice => "Invalid current_price parameter"@,
                QueryError::InvalidGasSpent => "Invalid gas_spent parameter"@,
            }),
    {
        match self {
            QueryError::InvalidInitialPrice => "Invalid initial_price parameter",
            QueryError::InvalidCurrentPrice => "Invalid current_price parameter",
            QueryError::InvalidGasSpent => "Invalid gas_spent parameter",
        }
    }
}

/// The initial price when the query gives none.
pub fn default_initial_price() -> (r: String)
    ensures
        r@ == "1.0"@,
{
    "1.0".to_owned()
}

/// The current price when the query gives none.
pub fn default_current_price() -> (r: String)
    ensures
        r@ == "1.0"@,
{
    "1.0".to_owned()
}

/// The current tick when the query gives none.
pub fn default_current_tick() -> (r: i32)
    ensures
        r == 0,
{
    0
}

/// The gas spent when the query gives none.
pub fn default_gas_spent() -> (r: String)
    ensures
        r@ == "0"@,
{
    "0".to_owned()
}

impl PnlQueryParams {
    /// The query with every parameter at its default.
    pub fn defaults() -> (r: PnlQueryParams)
        ensures
            r.initial_price@ == "1.0"@,
            r.current_price@ == "1.0"@,
            r.current_tick == 0,
            r.gas_spent@ == "0"@,
    {
        PnlQueryParams {
            initial_price: default_initial_price(),
            current_price: default_current_price(),
            current_tick: default_current_tick(),
            gas_spent: default_gas_spent(),
        }
    }
}

/// What `Decimal`'s `FromStr` makes of a text.
pub uninterp spec fn parsed_decimal(s: Seq<char>) -> Option<Dec>;

/// What `str::to_lowercase` makes of a text.
pub uninterp spec fn lowercase_of(s: Seq<char>) -> Seq<char>;

/// Relies on `Decimal`'s `FromStr`: the number the text spells, or `None`.
#[verifier::external_body]
fn parse_decimal(s: &str) -> (r: Option<Dec>)
    ensures
        r == parsed_decimal(s@),
        r matches Some(d) ==> d.wf(),
{
    match s.parse::<Decimal>() {
        Ok(d) => Some(Dec { mantissa: d.mantissa(), scale: d.scale() }),
        Err(_) => None,
    }
}

/// Relies on `str::to_lowercase`: the result depends on the characters alone.
#[verifier::external_body]
fn to_lowercase(s: &str) -> (r: String)
    ensures
        r@ == lowercase_of(s@),
{
    s.to_lowercase()
}

/// The query's numbers, or the first parameter, in the order initial price,
/// current price, gas spent, that is not a decimal number.
pub open spec fn pnl_inputs_of(
    initial_price: Seq<char>,
    current_price: Seq<char>,
    gas_spent: Seq<char>,
) -> Result<PnlInputs, QueryError> {
    match (parsed_decimal(initial_price), parsed_decimal(current_price), parsed_decimal(gas_spent)) {
        (None, _, _) => Err(QueryError::InvalidInitialPrice),
        (Some(_), None, _) => Err(QueryError::InvalidCurrentPrice),
        (Some(_), Some(_), None) => Err(QueryError::InvalidGasSpent),
        (Some(i), Some(c), Some(g)) => Ok(
            PnlInputs { initial_price: i, current_price: c, gas_spent: g },
        ),
    }
}

/// Parses the query's prices and gas.
pub fn parse_pnl_params(params: &PnlQueryParams) -> (r: Result<PnlInputs, QueryError>)
    ensures
        r == pnl_inputs_of(params.initial_price@, params.current_price@, params.gas_spent@),
        r matches Ok(v) ==> v.initial_price.wf() && v.current_price.wf() && v.gas_spent.wf(),
{
    let initial_price = match parse_decimal(params.initial_price.as_str()) {
        Some(p) => p,
        None => return Err(QueryError::InvalidInitialPrice),
    };
    let current_price = match parse_decimal(params.current_price.as_str()) {
        Some(p) => p,
        None => return Err(QueryError::InvalidCurrentPrice),
    };
    let gas_spent = match parse_decimal(params.gas_spent.as_str()) {
        Some(g) => g,
        None => return Err(QueryError::InvalidGasSpent),
    };
    Ok(PnlInputs { initial_price, current_price, gas_spent })
}

/// Whether `owner` names the holder of a position, ignoring case.
pub fn owner_matches(position_owner: &str, owner: &str) -> (r: bool)
    ensures
        r == (lowercase_of(position_owner@) == lowercase_of(owner@)),
{
    to_lowercase(position_owner) == to_lowercase(owner)
}

/// The P&L of `position` over `swaps` for the query, and whether the
/// query's tick lies in the position's range; the first invalid parameter
/// otherwise.
pub fn position_pnl_report(position: &Position, swaps: &[Swap], params: &PnlQueryParams) -> (r: Result<PnlReport, QueryError>)
    ensures
        match pnl_inputs_of(params.initial_price@, params.current_price@, params.gas_spent@) {
            Err(e) => r == Err::<PnlReport, QueryError>(e),
            Ok(v) => r == Ok::<PnlReport, QueryError>(
                PnlReport {
                    pnl: position_pnl_of(
                        position.liquidity.value(),
                        position.tick_lower,
                        position.tick_upper,
                        swaps@,
                        v.initial_price,
                        v.current_price,
                        v.gas_spent,
                    ),
                    in_range: in_range(params.current_tick, position.tick_lower, position.tick_upper),
                    current_tick: params.current_tick,
                },
            ),
        },
{
    let inputs = match parse_pnl_params(params) {
        Ok(v) => v,
        Err(e) => return Err(e),
    };
    let pnl = calculate_position_pnl(
        position,
        swaps,
        inputs.initial_price,
        inputs.current_price,
        inputs.gas_spent,
    );
    let in_range = is_in_range(params.current_tick, position.tick_lower, position.tick_upper);
    Ok(PnlReport { pnl, in_range, current_tick: params.current_tick })
}

/// The health of `position` over `swaps` for the query, with its name and
/// explanation; the first invalid parameter otherwise.
pub fn position_health_report(position: &Position, swaps: &[Swap], params: &PnlQueryParams) -> (r: Result<PositionHealthResponse, QueryError>)
    ensures
        match pnl_inputs_of(params.initial_price@, params.current_price@, params.gas_spent@) {
            Err(e) => r == Err::<PositionHealthResponse, QueryError>(e),
            Ok(v) => {
                let pnl = position_pnl_of(
                    position.liquidity.value(),
                    position.tick_lower,
                    position.tick_upper,
                    swaps@,
                    v.initial_price,
                    v.current_price,
                    v.gas_spent,
                );
                let status = health_of(position.tick_lower, position.tick_upper, params.current_tick, pnl.net_pnl);
                &&& r matches Ok(resp)
                &&& resp.nft_id@ == position.nft_id@
                &&& resp.status@ == status_name(status)
                &&& resp.details@ == health_details_of(
                    position.tick_lower,
                    position.tick_upper,
                    params.current_tick,
                    pnl.net_pnl,
                )
            },
        },
{
    let inputs = match parse_pnl_params(params) {
        Ok(v) => v,
        Err(e) => return Err(e),
    };
    let pnl = calculate_position_pnl(
        position,
        swaps,
        inputs.initial_price,
        inputs.current_price,
        inputs.gas_spent,
    );
    let status = get_position_health(position, params.current_tick, &pnl);
    let details = get_health_details(position, params.current_tick, &pnl);
    let resp = PositionHealthResponse {
        nft_id: position.nft_id.clone(),
        status: status.name().to_owned(),
        details,
    };
    assert(resp.status@ == status_name(health_of(position.tick_lower, position.tick_upper, params.current_tick, pnl.net_pnl)));
    Ok(resp)
}

/// The name of a health status.
pub open spec fn status_name(s: HealthStatus) -> Seq<char> {
    match s {
        HealthStatus::Healthy => "Healthy"@,
        HealthStatus::Warning => "Warning"@,
        HealthStatus::Critical => "Critical"@,
    }
}

/// A position as the listing endpoint returns it, with its liquidity and
/// creation time already written out as text.
pub fn position_response(position: Position, liquidity: String, created_at: String) -> (r: PositionResponse)
    ensures
        r.nft_id == position.nft_id,
        r.owner == position.owner,
        r.pool_id == position.pool_id,
        r.tick_lower == position.tick_lower,
        r.tick_upper == position.tick_upper,
        r.liquidity == liquidity,
        r.created_at == created_at,
{
    PositionResponse {
        nft_id: position.nft_id,
        owner: position.owner,
        pool_id: position.pool_id,
        tick_lower: position.tick_lower,
        tick_upper: position.tick_upper,
        liquidity,
        created_at,
    }
}

} // verus!
