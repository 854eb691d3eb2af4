//! The run configuration and its parsing from the command line: a seed
//! mnemonic, an optional funding-object identifier, a repeat count, and the
//! named amounts the transactions use.

use crate::dec::parse_count;
use crate::dec::parse_count_spec;
use crate::ident::ID_LEN;
use crate::ident::ObjectId;
use crate::ident::bytes_of_id_text;
use crate::ident::is_id_text;
use vstd::prelude::*;
use vstd::string::StringExecFns;

verus! {

/// Units moved by the transfer.
pub const DEFAULT_TRANSFER_AMOUNT: u64 = 1000;

/// Fee budget of the transfer transaction.
pub const DEFAULT_TRANSFER_BUDGET: u64 = 30000;

/// Fee budget of the mint transaction.
pub const DEFAULT_MINT_BUDGET: u64 = 10000;

/// Why a run configuration was rejected; any of these aborts the run before
/// any workflow attempt starts.
#[derive(Clone, Copy, PartialEq, Eq, Structural, Debug)]
pub enum ConfigError {
    ArgCount,
    BadFundingObject,
    BadRepeatCount,
}

/// The parameters of one run, immutable once parsed.
pub struct RunConfig {
    pub seed_mnemonic: String,
    pub funding_object: Option<ObjectId>,
    pub repeat_count: u64,
    pub transfer_amount: u64,
    pub transfer_budget: u64,
    pub mint_budget: u64,
}

/// The spec view of a run configuration.
pub struct RunConfigModel {
    pub seed_mnemonic: Seq<char>,
    pub funding_object: Option<Seq<u8>>,
    pub repeat_count: u64,
    pub transfer_amount: u64,
    pub transfer_budget: u64,
    pub mint_budget: u64,
}

impl View for RunConfig {
    type V = RunConfigModel;

    open spec fn view(&self) -> RunConfigModel {
        RunConfigModel {
            seed_mnemonic: self.seed_mnemonic@,
            funding_object: match self.funding_object {
                Some(o) => Some(o.bytes@),
                None => None,
            },
            repeat_count: self.repeat_count,
            transfer_amount: self.transfer_amount,
            transfer_budget: self.transfer_budget,
            mint_budget: self.mint_budget,
        }
    }
}

impl RunConfig {
    /// A well-formed configuration: the funding object, if supplied, is a
    /// well-formed identifier, and the repeat count is positive.
    pub open spec fn wf(&self) -> bool {
        &&& match self@.funding_object {
            Some(o) => o.len() == ID_LEN,
            None => true,
        }
        &&& self@.repeat_count >= 1
    }
}

/// What parsing the argument list yields. With four arguments the third is
/// the funding object and the fourth the repeat count; with three the
/// funding object is omitted and the third is the repeat count; any other
/// count is rejected. A funding object must be canonical identifier text; a
/// repeat count must be a positive decimal that fits 64 bits. The amounts
/// take their named defaults.
pub open spec fn parse_config_spec(args: Seq<Seq<char>>) -> Result<RunConfigModel, ConfigError> {
    if args.len() == 4 {
        if !is_id_text(args[2]) {
            Err(ConfigError::BadFundingObject)
        } else {
            match parse_count_spec(args[3]) {
                Some(n) => Ok(
                    RunConfigModel {
                        seed_mnemonic: args[1],
                        funding_object: Some(bytes_of_id_text(args[2])),
                        repeat_count: n,
                        transfer_amount: DEFAULT_TRANSFER_AMOUNT,
                        transfer_budget: DEFAULT_TRANSFER_BUDGET,
                        mint_budget: DEFAULT_MINT_BUDGET,
                    },
                ),
                None => Err(ConfigError::BadRepeatCount),
            }
        }
    } else if args.len() == 3 {
        match parse_count_spec(args[2]) {
            Some(n) => Ok(
                RunConfigModel {
                    seed_mnemonic: args[1],
                    funding_object: None,
                    repeat_count: n,
                    transfer_amount: DEFAULT_TRANSFER_AMOUNT,
                    transfer_budget: DEFAULT_TRANSFER_BUDGET,
                    mint_budget: DEFAULT_MINT_BUDGET,
                },
            ),
            None => Err(ConfigError::BadRepeatCount),
        }
    } else {
        Err(ConfigError::ArgCount)
    }
}

/// The spec view of an argument list.
pub open spec fn args_view(args: Seq<String>) -> Seq<Seq<char>> {
    args.map_values(|s: String| s@)
}

/// Parse the argument list into a run configuration; accepts and rejects
/// exactly as `parse_config_spec` says.
pub fn parse_run_config(args: &Vec<String>) -> (r: Result<RunConfig, ConfigError>)
    ensures
        match r {
            Ok(c) => parse_config_spec(args_view(args@)) == Ok::<RunConfigModel, ConfigError>(c@)
                && c.wf(),
            Err(e) => parse_config_spec(args_view(args@)) == Err::<RunConfigModel, _>(e),
        },
{
    let ghost model = args_view(args@);
    if args.len() == 4 {
        let funding = match ObjectId::from_text(args[2].as_str()) {
            Some(o) => o,
            None => {
                return Err(ConfigError::BadFundingObject);
            },
        };
        let count = match parse_count(args[3].as_str()) {
            Some(n) => n,
            None => {
                return Err(ConfigError::BadRepeatCount);
            },
        };
        Ok(
            RunConfig {
                seed_mnemonic: args[1].clone(),
                funding_object: Some(funding),
                repeat_count: count,
                transfer_amount: DEFAULT_TRANSFER_AMOUNT,
                transfer_budget: DEFAULT_TRANSFER_BUDGET,
                mint_budget: DEFAULT_MINT_BUDGET,
            },
        )
    } else if args.len() == 3 {
        let count = match parse_count(args[2].as_str()) {
            Some(n) => n,
            None => {
                return Err(ConfigError::BadRepeatCount);
            },
        };
        Ok(
            RunConfig {
                seed_mnemonic: args[1].clone(),
                funding_object: None,
                repeat_count: count,
                transfer_amount: DEFAULT_TRANSFER_AMOUNT,
                transfer_budget: DEFAULT_TRANSFER_BUDGET,
                mint_budget: DEFAULT_MINT_BUDGET,
            },
        )
    } else {
        Err(ConfigError::ArgCount)
    }
}

} // verus!
