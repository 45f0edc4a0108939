//! Counters of what went wrong while traces were parsed.

use crate::primitives::B256;
use vstd::prelude::*;

verus! {

/// Why a trace could not be parsed.
#[derive(Clone, Copy, Debug, PartialEq, Eq, Structural)]
pub enum TraceParseError {
    TraceMissing,
    NotRecognizedAction(B256),
    EmptyInput(B256),
    EtherscanError(B256),
    AbiParseError(B256),
    InvalidFunctionSelector(B256),
    AbiDecodingFailed(B256),
}

/// Counters over the transactions and traces of a run.
#[derive(Clone, Copy, Debug, PartialEq, Eq, Structural)]
pub struct ParserStats {
    pub total_tx: usize,
    pub total_traces: usize,
    pub successful_parses: usize,
    pub not_recognized_action_errors: usize,
    pub empty_input_errors: usize,
    pub etherscan_errors: usize,
    pub abi_parse_errors: usize,
    pub invalid_function_selector_errors: usize,
    pub abi_decoding_failed_errors: usize,
    pub trace_missing_errors: usize,
}

impl Default for ParserStats {
    fn default() -> (stats: ParserStats)
        ensures
            stats == ParserStats::zero(),
    {
        ParserStats {
            total_tx: 0,
            total_traces: 0,
            successful_parses: 0,
            not_recognized_action_errors: 0,
            empty_input_errors: 0,
            etherscan_errors: 0,
            abi_parse_errors: 0,
            invalid_function_selector_errors: 0,
            abi_decoding_failed_errors: 0,
            trace_missing_errors: 0,
        }
    }
}

impl ParserStats {
    /// All counters at zero.
    pub open spec fn zero() -> ParserStats {
        ParserStats {
            total_tx: 0,
            total_traces: 0,
            successful_parses: 0,
            not_recognized_action_errors: 0,
            empty_input_errors: 0,
            etherscan_errors: 0,
            abi_parse_errors: 0,
            invalid_function_selector_errors: 0,
            abi_decoding_failed_errors: 0,
            trace_missing_errors: 0,
        }
    }

    /// The counter that an error is counted in. An invalid function
    /// selector is counted with the ABI parse errors.
    pub open spec fn counter_of(self, error: TraceParseError) -> usize {
        match error {
            TraceParseError::TraceMissing => self.trace_missing_errors,
            TraceParseError::NotRecognizedAction(_) => self.not_recognized_action_errors,
            TraceParseError::EmptyInput(_) => self.empty_input_errors,
            TraceParseError::EtherscanError(_) => self.etherscan_errors,
            TraceParseError::AbiParseError(_) => self.abi_parse_errors,
            TraceParseError::InvalidFunctionSelector(_) => self.abi_parse_errors,
            TraceParseError::AbiDecodingFailed(_) => self.abi_decoding_failed_errors,
        }
    }

    /// The counters after one more error.
    pub open spec fn recorded(self, error: TraceParseError) -> ParserStats {
        let n = (self.counter_of(error) + 1) as usize;
        match error {
            TraceParseError::TraceMissing => ParserStats { trace_missing_errors: n, ..self },
            TraceParseError::NotRecognizedAction(_) => ParserStats {
                not_recognized_action_errors: n,
                ..self
            },
            TraceParseError::EmptyInput(_) => ParserStats { empty_input_errors: n, ..self },
            TraceParseError::EtherscanError(_) => ParserStats { etherscan_errors: n, ..self },
            TraceParseError::AbiParseError(_) => ParserStats { abi_parse_errors: n, ..self },
            TraceParseError::InvalidFunctionSelector(_) => ParserStats {
                abi_parse_errors: n,
                ..self
            },
            TraceParseError::AbiDecodingFailed(_) => ParserStats {
                abi_decoding_failed_errors: n,
                ..self
            },
        }
    }

    /// Whether one more error of this kind can be counted.
    pub fn can_record(&self, error: &TraceParseError) -> (b: bool)
        ensures
            b == (self.counter_of(*error) < usize::MAX),
    {
        let counter = match error {
            TraceParseError::TraceMissing => self.trace_missing_errors,
            TraceParseError::NotRecognizedAction(_) => self.not_recognized_action_errors,
            TraceParseError::EmptyInput(_) => self.empty_input_errors,
            TraceParseError::EtherscanError(_) => self.etherscan_errors,
            TraceParseError::AbiParseError(_) => self.abi_parse_errors,
            TraceParseError::InvalidFunctionSelector(_) => self.abi_parse_errors,
            TraceParseError::AbiDecodingFailed(_) => self.abi_decoding_failed_errors,
        };
        counter < usize::MAX
    }

    /// Counts one error.
    pub fn record_error(&mut self, error: &TraceParseError)
        requires
            old(self).counter_of(*error) < usize::MAX,
        ensures
            *final(self) == old(self).recorded(*error),
    {
        match error {
            TraceParseError::TraceMissing => {
                self.trace_missing_errors = self.trace_missing_errors + 1;
            },
            TraceParseError::NotRecognizedAction(_) => {
                self.not_recognized_action_errors = self.not_recognized_action_errors + 1;
            },
            TraceParseError::EmptyInput(_) => {
                self.empty_input_errors = self.empty_input_errors + 1;
            },
            TraceParseError::EtherscanError(_) => {
                self.etherscan_errors = self.etherscan_errors + 1;
            },
            TraceParseError::AbiParseError(_) => {
                self.abi_parse_errors = self.abi_parse_errors + 1;
            },
            TraceParseError::InvalidFunctionSelector(_) => {
                self.abi_parse_errors = self.abi_parse_errors + 1;
            },
            TraceParseError::AbiDecodingFailed(_) => {
                self.abi_decoding_failed_errors = self.abi_decoding_failed_errors + 1;
            },
        }
    }
}

} // verus!
