//! Top-level configuration of a trading system: the instruments it tracks,
//! its execution links and its risk limits.
use vstd::prelude::*;

use barter_execution::client::mock::MockExecutionConfig;
use barter_instrument::asset::name::AssetNameExchange;
use barter_instrument::exchange::ExchangeId;
use barter_instrument::instrument::kind::InstrumentKind;
use barter_instrument::instrument::name::InstrumentNameExchange;
use barter_instrument::instrument::quote::InstrumentQuoteAsset;
use barter_instrument::instrument::spec::InstrumentSpec;
use barter_instrument::Underlying;

use crate::risk::{
    RiskConfiguration, RiskLimits, RiskLimitsError, is_stable_sort_of, limits_error, lookup,
    opt_limits_wf, upserted, without_index,
};

verus! {

/// `barter_instrument::exchange::ExchangeId`, carried through unchanged.
#[verifier::external_type_specification]
#[verifier::external_body]
pub struct ExExchangeId(ExchangeId);

/// `barter_instrument::instrument::name::InstrumentNameExchange`, carried through unchanged.
#[verifier::external_type_specification]
#[verifier::external_body]
pub struct ExInstrumentNameExchange(InstrumentNameExchange);

/// `barter_instrument::asset::name::AssetNameExchange`, carried through unchanged.
#[verifier::external_type_specification]
#[verifier::external_body]
pub struct ExAssetNameExchange(AssetNameExchange);

/// `barter_instrument::Underlying`, carried through unchanged.
#[verifier::external_type_specification]
#[verifier::external_body]
#[verifier::reject_recursive_types(AssetKey)]
pub struct ExUnderlying<AssetKey>(Underlying<AssetKey>);

/// `barter_instrument::instrument::quote::InstrumentQuoteAsset`, carried through unchanged.
#[verifier::external_type_specification]
#[verifier::external_body]
pub struct ExInstrumentQuoteAsset(InstrumentQuoteAsset);

/// `barter_instrument::instrument::kind::InstrumentKind`, carried through unchanged.
#[verifier::external_type_specification]
#[verifier::external_body]
#[verifier::reject_recursive_types(AssetKey)]
pub struct ExInstrumentKind<AssetKey>(InstrumentKind<AssetKey>);

/// `barter_instrument::instrument::spec::InstrumentSpec`, carried through unchanged.
#[verifier::external_type_specification]
#[verifier::external_body]
#[verifier::reject_recursive_types(AssetKey)]
pub struct ExInstrumentSpec<AssetKey>(InstrumentSpec<AssetKey>);

/// `barter_execution::client::mock::MockExecutionConfig`, carried through unchanged.
#[verifier::external_type_specification]
#[verifier::external_body]
pub struct ExMockExecutionConfig(MockExecutionConfig);

/// Convenient minimal instrument configuration, used to generate an instrument on startup.
pub struct InstrumentConfig {
    /// Exchange identifier where the instrument is traded.
    pub exchange: ExchangeId,
    /// Exchange-specific name for the instrument (e.g., "BTCUSDT").
    pub name_exchange: InstrumentNameExchange,
    /// Underlying asset pair for the instrument.
    pub underlying: Underlying<AssetNameExchange>,
    /// Quote asset for the instrument.
    pub quote: InstrumentQuoteAsset,
    /// Type of the instrument (spot, perpetual, future, option).
    pub kind: InstrumentKind<AssetNameExchange>,
    /// Optional additional specifications for the instrument.
    pub spec: Option<InstrumentSpec<AssetNameExchange>>,
}

/// Configuration for an execution link; currently only mock execution for backtesting.
pub enum ExecutionConfig {
    /// Mock execution configuration for backtesting.
    Mock(MockExecutionConfig),
}

/// Top-level configuration for a full trading system.
pub struct SystemConfig {
    /// Configurations for all instruments the system will track.
    pub instruments: Vec<InstrumentConfig>,
    /// Configurations for all execution components.
    pub executions: Vec<ExecutionConfig>,
    /// Risk manager configuration.
    pub risk: RiskConfiguration,
}

impl SystemConfig {
    /// Access the configured risk options.
    pub fn risk(&self) -> (r: &RiskConfiguration)
        ensures
            *r == self.risk,
    {
        &self.risk
    }

    /// Mutable access to the configured risk options.
    pub fn risk_mut(&mut self) -> (r: &mut RiskConfiguration)
        ensures
            *r == old(self).risk,
            final(self).risk == *final(r),
            final(self).instruments@ == old(self).instruments@,
            final(self).executions@ == old(self).executions@,
    {
        &mut self.risk
    }

    /// Update global risk limits with validation.
    pub fn set_global_risk_limits(&mut self, limits: Option<RiskLimits>) -> (r: Result<
        (),
        RiskLimitsError,
    >)
        requires
            opt_limits_wf(limits),
        ensures
            final(self).instruments@ == old(self).instruments@,
            final(self).executions@ == old(self).executions@,
            final(self).risk.instruments@ == old(self).risk.instruments@,
            match limits_error(limits) {
                Some(e) => r == Err::<(), RiskLimitsError>(e) && final(self).risk.global == old(self).risk.global,
                None => r is Ok && final(self).risk.global == limits,
            },
    {
        self.risk.set_global(limits)
    }

    /// Update per-instrument risk limits using an instrument index, which must
    /// point at a configured instrument.
    pub fn set_instrument_risk_limits(&mut self, index: usize, limits: Option<RiskLimits>) -> (r:
        Result<(), RiskLimitsError>)
        requires
            opt_limits_wf(limits),
        ensures
            final(self).instruments@ == old(self).instruments@,
            final(self).executions@ == old(self).executions@,
            final(self).risk.global == old(self).risk.global,
            index >= old(self).instruments@.len() ==> r == Err::<(), RiskLimitsError>(
                RiskLimitsError::InstrumentIndexOutOfBounds {
                    index,
                    total: old(self).instruments@.len() as usize,
                },
            ) && final(self).risk.instruments@ == old(self).risk.instruments@,
            index < old(self).instruments@.len() ==> match limits {
                Some(l) => match l.error() {
                    Some(e) => r == Err::<(), RiskLimitsError>(e) && final(self).risk.instruments@ == old(self).risk.instruments@,
                    None => r is Ok && is_stable_sort_of(
                        final(self).risk.instruments@,
                        upserted(old(self).risk.instruments@, index, l),
                    ),
                },
                None => r is Ok && final(self).risk.instruments@ == without_index(
                    old(self).risk.instruments@,
                    index,
                ),
            },
    {
        if index >= self.instruments.len() {
            return Err(
                RiskLimitsError::InstrumentIndexOutOfBounds { index, total: self.instruments.len() },
            );
        }
        self.risk.set_instrument_limits(index, limits)
    }

    /// Retrieve per-instrument risk limits if configured.
    pub fn instrument_risk_limits(&self, index: usize) -> (r: Option<&RiskLimits>)
        ensures
            match r {
                Some(l) => lookup(self.risk.instruments@, index) == Some(*l),
                None => lookup(self.risk.instruments@, index) is None,
            },
    {
        self.risk.instrument_limits(index)
    }
}

} // verus!
