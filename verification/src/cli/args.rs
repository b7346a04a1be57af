//! Command-line arguments.

use vstd::prelude::*;
use crate::text::{owned, str_eq};

verus! {

/// Index of the first `flag` followed by a value.
pub open spec fn flag_index(args: Seq<String>, flag: Seq<char>) -> Option<int>
    decreases args.len(),
{
    if args.len() < 2 {
        None
    } else if args[0]@ == flag {
        Some(0)
    } else {
        match flag_index(args.drop_first(), flag) {
            Some(i) => Some(i + 1),
            None => None,
        }
    }
}

/// The value after the first occurrence of `flag` that has one.
pub fn flag_value<'a>(args: &'a Vec<String>, flag: &str) -> (r: Option<&'a str>)
    ensures
        match flag_index(args@, flag@) {
            Some(i) => r matches Some(v) && v@ == args@[i + 1]@,
            None => r is None,
        },
{
    let mut i: usize = 0;
    assert(args@.skip(0) =~= args@);
    while args.len() > 1 && i < args.len() - 1
        invariant
            0 <= i <= args@.len(),
            match flag_index(args@.skip(i as int), flag@) {
                Some(j) => flag_index(args@, flag@) == Some(j + i),
                None => flag_index(args@, flag@) is None,
            },
        decreases args@.len() - i,
    {
        let ghost rest = args@.skip(i as int);
        assert(rest[0] == args@[i as int]);
        assert(rest.drop_first() =~= args@.skip(i + 1));
        if str_eq(args[i].as_str(), flag) {
            return Some(args[i + 1].as_str());
        }
        i = i + 1;
    }
    None
}

/// Whether `args` holds `word`.
pub fn has_arg(args: &Vec<String>, word: &str) -> (r: bool)
    ensures
        r == exists|i: int| 0 <= i < args@.len() && #[trigger] args@[i]@ == word@,
{
    let mut i: usize = 0;
    while i < args.len()
        invariant
            0 <= i <= args@.len(),
            forall|j: int| 0 <= j < i ==> #[trigger] args@[j]@ != word@,
        decreases args@.len() - i,
    {
        if str_eq(args[i].as_str(), word) {
            return true;
        }
        i = i + 1;
    }
    false
}

/// A command and its options.
#[derive(Debug)]
pub enum Command {
    Live { config: String },
    PredictCheck,
    PolyCheck { live: bool },
    PredictMarkets { all: bool, write_configs: bool, fail_on_missing_poly_token: bool, output_dir: String },
    PredictApprove { config: String, all: bool },
    PredictLiquidate { config: String, dry_run: bool },
    Backtest,
    Record,
    /// Unknown or missing command: print the usage.
    Help,
}

pub open spec fn has_arg_spec(args: Seq<String>, word: Seq<char>) -> bool {
    exists|i: int| 0 <= i < args.len() && #[trigger] args[i]@ == word
}

/// The value of `flag`, else `default`.
pub open spec fn flag_or(args: Seq<String>, flag: Seq<char>, default: Seq<char>) -> Seq<char> {
    match flag_index(args, flag) {
        Some(i) => args[i + 1]@,
        None => default,
    }
}

fn flag_or_default(args: &Vec<String>, flag: &str, default: &str) -> (r: String)
    ensures
        r@ == flag_or(args@, flag@, default@),
{
    match flag_value(args, flag) {
        Some(v) => owned(v),
        None => owned(default),
    }
}

/// The command of `args` (the first argument after the program name) with
/// its options and their defaults.
pub fn parse_command(args: &Vec<String>) -> (r: Command)
    ensures
        args@.len() < 2 ==> r is Help,
        args@.len() >= 2 && args@[1]@ == "live"@ ==> (r matches Command::Live { config } && config@ == flag_or(
            args@,
            "--config"@,
            "configs/quoter.toml"@,
        )),
        args@.len() >= 2 && args@[1]@ == "predict-check"@ ==> r is PredictCheck,
        args@.len() >= 2 && args@[1]@ == "poly-check"@ ==> (r matches Command::PolyCheck { live } && live
            == has_arg_spec(args@, "--live"@)),
        args@.len() >= 2 && args@[1]@ == "predict-markets"@ ==> (r matches Command::PredictMarkets {
            all,
            write_configs,
            fail_on_missing_poly_token,
            output_dir,
        } && all == has_arg_spec(args@, "--all"@) && write_configs == has_arg_spec(args@, "--write-configs"@)
            && fail_on_missing_poly_token == has_arg_spec(args@, "--fail-on-missing-poly-token"@) && output_dir@
            == flag_or(args@, "--output-dir"@, "configs/markets_poly"@)),
        args@.len() >= 2 && args@[1]@ == "predict-approve"@ ==> (r matches Command::PredictApprove { config, all }
            && config@ == flag_or(args@, "--config"@, "configs/predict_quoter.toml"@) && all == has_arg_spec(
            args@,
            "--all"@,
        )),
        args@.len() >= 2 && args@[1]@ == "predict-liquidate"@ ==> (r matches Command::PredictLiquidate {
            config,
            dry_run,
        } && config@ == flag_or(args@, "--config"@, "configs/predict_quoter.toml"@) && dry_run == has_arg_spec(
            args@,
            "--dry-run"@,
        )),
        args@.len() >= 2 && args@[1]@ == "backtest"@ ==> r is Backtest,
        args@.len() >= 2 && args@[1]@ == "record"@ ==> r is Record,
        args@.len() >= 2 && args@[1]@ != "live"@ && args@[1]@ != "predict-check"@ && args@[1]@
            != "poly-check"@ && args@[1]@ != "predict-markets"@ && args@[1]@ != "predict-approve"@ && args@[1]@
            != "predict-liquidate"@ && args@[1]@ != "backtest"@ && args@[1]@ != "record"@ ==> r is Help,
{
    if args.len() < 2 {
        return Command::Help;
    }
    proof {
        reveal_strlit("live");
        reveal_strlit("predict-check");
        reveal_strlit("poly-check");
        reveal_strlit("predict-markets");
        reveal_strlit("predict-approve");
        reveal_strlit("predict-liquidate");
        reveal_strlit("backtest");
        reveal_strlit("record");
        assert("live"@.len() == 4);
        assert("predict-check"@.len() == 13);
        assert("poly-check"@.len() == 10);
        assert("predict-markets"@.len() == 15);
        assert("predict-approve"@.len() == 15);
        assert("predict-liquidate"@.len() == 17);
        assert("backtest"@.len() == 8);
        assert("record"@.len() == 6);
        assert("predict-markets"@ != "predict-approve"@) by {
            assert("predict-markets"@[8] == 'm');
            assert("predict-approve"@[8] == 'a');
        }
    }
    let c = args[1].as_str();
    if str_eq(c, "live") {
        Command::Live { config: flag_or_default(args, "--config", "configs/quoter.toml") }
    } else if str_eq(c, "predict-check") {
        Command::PredictCheck
    } else if str_eq(c, "poly-check") {
        Command::PolyCheck { live: has_arg(args, "--live") }
    } else if str_eq(c, "predict-markets") {
        Command::PredictMarkets {
            all: has_arg(args, "--all"),
            write_configs: has_arg(args, "--write-configs"),
            fail_on_missing_poly_token: has_arg(args, "--fail-on-missing-poly-token"),
            output_dir: flag_or_default(args, "--output-dir", "configs/markets_poly"),
        }
    } else if str_eq(c, "predict-approve") {
        Command::PredictApprove {
            config: flag_or_default(args, "--config", "configs/predict_quoter.toml"),
            all: has_arg(args, "--all"),
        }
    } else if str_eq(c, "predict-liquidate") {
        Command::PredictLiquidate {
            config: flag_or_default(args, "--config", "configs/predict_quoter.toml"),
            dry_run: has_arg(args, "--dry-run"),
        }
    } else if str_eq(c, "backtest") {
        Command::Backtest
    } else if str_eq(c, "record") {
        Command::Record
    } else {
        Command::Help
    }
}

} // verus!
