//! What stands under which name in the documents that a run writes.

use crate::candidates::ObservationModel;
use crate::clock::Timestamp;
use crate::double::{Double, Percent};
use crate::export::ExportEnvironment;
use crate::instrumentation::RunEnvironment;
use crate::json::{opt_float_model, opt_str_model, JsonModel};
use crate::laws::field;
use crate::layout::LayoutModel;
use crate::paths::PathModel;
use crate::run::RunModel;
use crate::secrets::{masked, masked_option};
use crate::session::SessionModel;
use crate::settings::{AlgoConfig, Config, GrandChillers, SnipeConfig, StratsConfig, TxSettings};
use crate::text::option_view;
use vstd::prelude::*;

verus! {

/// The names of an object's fields.
pub open spec fn keys_of(document: JsonModel) -> Set<Seq<char>> {
    match document {
        JsonModel::Object(fields) => fields.dom(),
        _ => Set::empty(),
    }
}

/// What is missing is `null`; what is there is itself.
pub proof fn missing_values_are_null(text: Option<Seq<char>>, number: Option<Double>)
    ensures
        text is None ==> opt_str_model(text) == JsonModel::Null,
        text matches Some(t) ==> opt_str_model(text) == JsonModel::Str(t),
        number is None ==> opt_float_model(number) == JsonModel::Null,
        number matches Some(x) ==> opt_float_model(number) == JsonModel::Float(x),
{
}

/// Counts are written as numbers under their own names.
pub proof fn counts_are_written_by_name(counts: Map<Seq<char>, nat>, name: Seq<char>)
    ensures
        keys_of(crate::counts::counts_json(counts)) == counts.dom(),
        counts.contains_key(name) ==> field(crate::counts::counts_json(counts), name)
            == JsonModel::Int(counts[name] as int),
{
    assert(keys_of(crate::counts::counts_json(counts)) =~= counts.dom());
}

/// Every threshold of the grand chillers stands under its own name.
pub proof fn chillers_stand_under_their_names(settings: GrandChillers)
    ensures
        ({
            let document = settings.document();
            &&& keys_of(document) == set![
                "use_gc"@,
                "min_hmc"@,
                "min_mints"@,
                "min_buys"@,
            ]
            &&& field(document, "use_gc"@) == JsonModel::Bool(settings.use_gc)
            &&& field(document, "min_hmc"@) == JsonModel::Float(settings.min_hmc)
            &&& field(document, "min_mints"@) == JsonModel::Int(settings.min_mints as int)
            &&& field(document, "min_buys"@) == JsonModel::Int(settings.min_buys as int)
        }),
{
    reveal_strlit("use_gc");
    reveal_strlit("min_hmc");
    reveal_strlit("min_mints");
    reveal_strlit("min_buys");
    assert("use_gc"@.len() == 6);
    assert("min_hmc"@.len() == 7);
    assert("min_mints"@.len() == 9);
    assert("min_buys"@.len() == 8);
}

/// Every setting of the selection stands under its own name.
pub proof fn algorithm_settings_stand_under_their_names(settings: AlgoConfig)
    ensures
        ({
            let document = settings.document();
            &&& keys_of(document) == set![
                "limit"@,
                "min_mints"@,
                "min_deagle_sol"@,
                "use_vol_creators"@,
                "use_deagles"@,
                "min_buys"@,
                "min_volume"@,
                "grand_chillers"@,
            ]
            &&& field(document, "limit"@) == JsonModel::Int(settings.limit as int)
            &&& field(document, "min_mints"@) == JsonModel::Int(settings.min_mints as int)
            &&& field(document, "min_deagle_sol"@) == opt_float_model(settings.min_deagle_sol)
            &&& field(document, "use_vol_creators"@) == JsonModel::Bool(settings.use_vc)
            &&& field(document, "use_deagles"@) == JsonModel::Bool(settings.use_deagles)
            &&& field(document, "min_buys"@) == JsonModel::Int(settings.min_buys as int)
            &&& field(document, "min_volume"@) == JsonModel::Float(settings.min_volume)
            &&& field(document, "grand_chillers"@)
                == match settings.grand_chillers {
                Some(chillers) => chillers.document(),
                None => JsonModel::Null,
            }
        }),
{
    reveal_strlit("limit");
    reveal_strlit("min_mints");
    reveal_strlit("min_deagle_sol");
    reveal_strlit("use_vol_creators");
    reveal_strlit("use_deagles");
    reveal_strlit("min_buys");
    reveal_strlit("min_volume");
    reveal_strlit("grand_chillers");
    assert("limit"@.len() == 5);
    assert("min_mints"@.len() == 9);
    assert("min_deagle_sol"@.len() == 14);
    assert("use_vol_creators"@.len() == 16);
    assert("use_deagles"@.len() == 11);
    assert("min_buys"@.len() == 8);
    assert("min_volume"@.len() == 10);
    assert("grand_chillers"@.len() == 14);
    assert("grand_chillers"@[0] == 'g');
    assert("min_deagle_sol"@[0] == 'm');
}

/// Every setting of the entries and exits stands under its own name.
pub proof fn snipe_settings_stand_under_their_names(settings: SnipeConfig)
    ensures
        ({
            let document = settings.document();
            &&& keys_of(document) == set![
                "buy_amount"@,
                "slippage"@,
                "max_loss"@,
                "take_profit"@,
                "use_chp"@,
                "chp_lower"@,
                "chp_upper"@,
                "use_tiz"@,
                "tiz_lower"@,
                "tiz_upper"@,
                "max_no_activity_ms"@,
                "max_na_on_start_ms"@,
                "min_dev_sold"@,
            ]
            &&& field(document, "buy_amount"@) == JsonModel::Float(settings.buy_amount)
            &&& field(document, "slippage"@) == JsonModel::Float(settings.slippage)
            &&& field(document, "max_loss"@) == JsonModel::Float(settings.max_loss)
            &&& field(document, "take_profit"@) == JsonModel::Float(settings.take_profit)
            &&& field(document, "use_chp"@) == JsonModel::Bool(settings.use_chp)
            &&& field(document, "chp_lower"@) == JsonModel::Float(settings.chp_lower)
            &&& field(document, "chp_upper"@) == JsonModel::Float(settings.chp_upper)
            &&& field(document, "use_tiz"@) == JsonModel::Bool(settings.use_tiz)
            &&& field(document, "tiz_lower"@) == JsonModel::Int(settings.tiz_lower as int)
            &&& field(document, "tiz_upper"@) == JsonModel::Int(settings.tiz_upper as int)
            &&& field(document, "max_no_activity_ms"@)
                == JsonModel::Int(settings.max_no_activity_ms as int)
            &&& field(document, "max_na_on_start_ms"@)
                == JsonModel::Int(settings.max_na_on_start_ms as int)
            &&& field(document, "min_dev_sold"@) == JsonModel::Int(settings.min_dev_sold as int)
        }),
{
    reveal_strlit("buy_amount");
    reveal_strlit("slippage");
    reveal_strlit("max_loss");
    reveal_strlit("take_profit");
    reveal_strlit("use_chp");
    reveal_strlit("chp_lower");
    reveal_strlit("chp_upper");
    reveal_strlit("use_tiz");
    reveal_strlit("tiz_lower");
    reveal_strlit("tiz_upper");
    reveal_strlit("max_no_activity_ms");
    reveal_strlit("max_na_on_start_ms");
    reveal_strlit("min_dev_sold");
    assert("buy_amount"@.len() == 10);
    assert("slippage"@.len() == 8);
    assert("max_loss"@.len() == 8);
    assert("take_profit"@.len() == 11);
    assert("use_chp"@.len() == 7);
    assert("chp_lower"@.len() == 9);
    assert("chp_upper"@.len() == 9);
    assert("use_tiz"@.len() == 7);
    assert("tiz_lower"@.len() == 9);
    assert("tiz_upper"@.len() == 9);
    assert("max_no_activity_ms"@.len() == 18);
    assert("max_na_on_start_ms"@.len() == 18);
    assert("min_dev_sold"@.len() == 12);
    assert("chp_lower"@[0] == 'c');
    assert("chp_lower"@[4] == 'l');
    assert("chp_upper"@[0] == 'c');
    assert("chp_upper"@[4] == 'u');
    assert("max_loss"@[0] == 'm');
    assert("max_na_on_start_ms"@[5] == 'a');
    assert("max_no_activity_ms"@[5] == 'o');
    assert("slippage"@[0] == 's');
    assert("tiz_lower"@[0] == 't');
    assert("tiz_lower"@[4] == 'l');
    assert("tiz_upper"@[0] == 't');
    assert("tiz_upper"@[4] == 'u');
    assert("use_chp"@[4] == 'c');
    assert("use_tiz"@[4] == 't');
}

/// Every setting of the strategies stands under its own name.
pub proof fn strategy_settings_stand_under_their_names(settings: StratsConfig)
    ensures
        ({
            let document = settings.document();
            &&& keys_of(document) == set![
                "enable_abs"@,
                "abs_min_buys"@,
                "abs_min_volume"@,
                "abs_n"@,
                "enable_mtd"@,
                "mtd_pct"@,
                "mtd_stable_time"@,
                "mtd_max_loss"@,
                "mtd_take_profit"@,
                "mtd_min_mc"@,
                "enable_dbf"@,
                "dbf_max_chp"@,
            ]
            &&& field(document, "enable_abs"@) == JsonModel::Bool(settings.enable_abs)
            &&& field(document, "abs_min_buys"@) == JsonModel::Int(settings.abs_min_buys as int)
            &&& field(document, "abs_min_volume"@) == JsonModel::Float(settings.abs_min_volume)
            &&& field(document, "abs_n"@) == JsonModel::Int(settings.abs_n as int)
            &&& field(document, "enable_mtd"@) == JsonModel::Bool(settings.enable_mtd)
            &&& field(document, "mtd_pct"@) == JsonModel::Int(settings.mtd_pct as int)
            &&& field(document, "mtd_stable_time"@)
                == JsonModel::Int(settings.mtd_stable_time as int)
            &&& field(document, "mtd_max_loss"@) == JsonModel::Float(settings.mtd_max_loss)
            &&& field(document, "mtd_take_profit"@) == JsonModel::Float(settings.mtd_take_profit)
            &&& field(document, "mtd_min_mc"@) == JsonModel::Float(settings.mtd_min_mc)
            &&& field(document, "enable_dbf"@) == JsonModel::Bool(settings.enable_dbf)
            &&& field(document, "dbf_max_chp"@) == JsonModel::Float(settings.dbf_max_chp)
        }),
{
    reveal_strlit("enable_abs");
    reveal_strlit("abs_min_buys");
    reveal_strlit("abs_min_volume");
    reveal_strlit("abs_n");
    reveal_strlit("enable_mtd");
    reveal_strlit("mtd_pct");
    reveal_strlit("mtd_stable_time");
    reveal_strlit("mtd_max_loss");
    reveal_strlit("mtd_take_profit");
    reveal_strlit("mtd_min_mc");
    reveal_strlit("enable_dbf");
    reveal_strlit("dbf_max_chp");
    assert("enable_abs"@.len() == 10);
    assert("abs_min_buys"@.len() == 12);
    assert("abs_min_volume"@.len() == 14);
    assert("abs_n"@.len() == 5);
    assert("enable_mtd"@.len() == 10);
    assert("mtd_pct"@.len() == 7);
    assert("mtd_stable_time"@.len() == 15);
    assert("mtd_max_loss"@.len() == 12);
    assert("mtd_take_profit"@.len() == 15);
    assert("mtd_min_mc"@.len() == 10);
    assert("enable_dbf"@.len() == 10);
    assert("dbf_max_chp"@.len() == 11);
    assert("abs_min_buys"@[0] == 'a');
    assert("enable_abs"@[7] == 'a');
    assert("enable_dbf"@[7] == 'd');
    assert("enable_mtd"@[7] == 'm');
    assert("mtd_max_loss"@[0] == 'm');
    assert("mtd_min_mc"@[7] == '_');
    assert("mtd_stable_time"@[4] == 's');
    assert("mtd_take_profit"@[4] == 't');
}

/// The directories are described below the reported root, each under its own name.
pub proof fn directories_are_described_by_name(layout: LayoutModel)
    ensures
        ({
            let document = layout.metadata();
            &&& keys_of(document) == set![
                "runtime_root"@,
                "config_dir"@,
                "export_dir"@,
                "raw_events_dir"@,
                "logs_dir"@,
                "replays_dir"@,
                "db_exports_dir"@,
            ]
            &&& field(document, "runtime_root"@) == JsonModel::Str(layout.runtime_root)
            &&& field(document, "config_dir"@)
                == JsonModel::Str(layout.runtime_root + "\\runtime\\mewx\\config"@)
            &&& field(document, "export_dir"@)
                == JsonModel::Str(layout.runtime_root + "\\runtime\\mewx\\export"@)
            &&& field(document, "raw_events_dir"@)
                == JsonModel::Str(layout.runtime_root + "\\data\\raw\\mewx"@)
            &&& field(document, "logs_dir"@)
                == JsonModel::Str(layout.runtime_root + "\\data\\logs\\mewx"@)
            &&& field(document, "replays_dir"@)
                == JsonModel::Str(layout.runtime_root + "\\data\\replays\\mewx"@)
            &&& field(document, "db_exports_dir"@)
                == JsonModel::Str(layout.runtime_root + "\\data\\postgres\\mewx"@)
        }),
{
    reveal_strlit("runtime_root");
    reveal_strlit("config_dir");
    reveal_strlit("export_dir");
    reveal_strlit("raw_events_dir");
    reveal_strlit("logs_dir");
    reveal_strlit("replays_dir");
    reveal_strlit("db_exports_dir");
    assert("runtime_root"@.len() == 12);
    assert("config_dir"@.len() == 10);
    assert("export_dir"@.len() == 10);
    assert("raw_events_dir"@.len() == 14);
    assert("logs_dir"@.len() == 8);
    assert("replays_dir"@.len() == 11);
    assert("db_exports_dir"@.len() == 14);
    assert("config_dir"@[0] == 'c');
    assert("db_exports_dir"@[0] == 'd');
    assert("export_dir"@[0] == 'e');
    assert("raw_events_dir"@[0] == 'r');
}

/// Each directory is the output root with the directory's own three segments.
pub proof fn directories_have_their_segments(output_root: PathModel, runtime_root: Seq<char>)
    ensures
        ({
            let layout = LayoutModel::under(output_root, runtime_root);
            let dirs = layout.directories();
            let base = output_root.segments;
            &&& layout.output_root == output_root
            &&& layout.runtime_root == runtime_root
            &&& layout.config_dir.segments == base + seq!["runtime"@, "mewx"@, "config"@]
            &&& layout.export_dir.segments == base + seq!["runtime"@, "mewx"@, "export"@]
            &&& layout.raw_dir.segments == base + seq!["data"@, "raw"@, "mewx"@]
            &&& layout.logs_dir.segments == base + seq!["data"@, "logs"@, "mewx"@]
            &&& layout.replays_dir.segments == base + seq!["data"@, "replays"@, "mewx"@]
            &&& layout.db_dir.segments == base + seq!["data"@, "postgres"@, "mewx"@]
            &&& layout.config_dir.root == output_root.root
            &&& layout.export_dir.root == output_root.root
            &&& layout.raw_dir.root == output_root.root
            &&& layout.logs_dir.root == output_root.root
            &&& layout.replays_dir.root == output_root.root
            &&& layout.db_dir.root == output_root.root
            &&& dirs.len() == 6
            &&& dirs[0] == layout.config_dir
            &&& dirs[1] == layout.export_dir
            &&& dirs[2] == layout.raw_dir
            &&& dirs[3] == layout.logs_dir
            &&& dirs[4] == layout.replays_dir
            &&& dirs[5] == layout.db_dir
        }),
{
    let layout = LayoutModel::under(output_root, runtime_root);
    let base = output_root.segments;
    assert(layout.config_dir.segments =~= base + seq!["runtime"@, "mewx"@, "config"@]);
    assert(layout.export_dir.segments =~= base + seq!["runtime"@, "mewx"@, "export"@]);
    assert(layout.raw_dir.segments =~= base + seq!["data"@, "raw"@, "mewx"@]);
    assert(layout.logs_dir.segments =~= base + seq!["data"@, "logs"@, "mewx"@]);
    assert(layout.replays_dir.segments =~= base + seq!["data"@, "replays"@, "mewx"@]);
    assert(layout.db_dir.segments =~= base + seq!["data"@, "postgres"@, "mewx"@]);
}

/// Joining a segment keeps the root and the segments before.
pub proof fn joining_adds_a_segment(path: PathModel, segment: Seq<char>)
    ensures
        path.join(segment).root == path.root,
        path.join(segment).segments.len() == path.segments.len() + 1,
        path.join(segment).segments.last() == segment,
        path.join(segment).segments.drop_last() == path.segments,
{
    assert(path.join(segment).segments.drop_last() =~= path.segments);
}

/// A configured root is used as it is; without one, the preferred root on Windows where it exists
/// and the fixed one where it does not, and a directory of the working tree elsewhere.
pub proof fn roots_follow_the_environment(
    configured: Option<Seq<char>>,
    windows: bool,
    preferred_root_exists: bool,
)
    ensures
        ({
            let root = crate::layout::output_root_for(configured, windows, preferred_root_exists);
            &&& configured matches Some(text) ==> root.root == text && root.segments.len() == 0
            &&& configured is None && windows && preferred_root_exists ==> root.root
                == "D:\\Quant\\Vexter"@ && root.segments.len() == 0
            &&& configured is None && windows && !preferred_root_exists ==> root.root
                == "C:\\Users\\bot\\quant\\Vexter"@ && root.segments.len() == 0
            &&& configured is None && !windows ==> root.root == "dev"@ && root.segments == seq![
                "vexter_runtime"@,
            ]
        }),
        configured matches Some(text) ==> crate::layout::runtime_root_for(configured) == text,
        configured is None ==> crate::layout::runtime_root_for(configured)
            == "C:\\Users\\bot\\quant\\Vexter"@,
{
    assert(crate::layout::output_root_for(None, false, preferred_root_exists).segments =~= seq![
        "vexter_runtime"@,
    ]);
}

/// What is shown of a secret: its mask, or `null` where there is nothing to show.
pub open spec fn shown(mask: Option<Seq<char>>) -> JsonModel {
    if mask is Some {
        JsonModel::Str(mask->0)
    } else {
        JsonModel::Null
    }
}

/// Every endpoint and credential stands masked under its own name; only the nonce account is no
/// secret.
pub proof fn endpoints_stand_masked_under_their_names(
    config: Config,
    mode: Seq<char>,
    transport_mode: Seq<char>,
)
    ensures
        ({
            let document = crate::export::endpoints_model(config, mode, transport_mode);
            &&& keys_of(document) == set![
                "mode"@,
                "transport_mode"@,
                "rpc_url"@,
                "ws_url"@,
                "grpc_url"@,
                "grpc_token"@,
                "nonce_account"@,
            ]
            &&& field(document, "mode"@) == JsonModel::Str(mode)
            &&& field(document, "transport_mode"@) == JsonModel::Str(transport_mode)
            &&& field(document, "rpc_url"@) == shown(masked(config.rpc_url@))
            &&& field(document, "ws_url"@) == shown(masked(config.ws_url@))
            &&& field(document, "grpc_url"@) == shown(masked_option(option_view(config.grpc_url)))
            &&& field(document, "grpc_token"@)
                == shown(masked_option(option_view(config.grpc_token)))
            &&& field(document, "nonce_account"@) == shown(option_view(config.nonce_account))
        }),
{
    reveal_strlit("mode");
    reveal_strlit("transport_mode");
    reveal_strlit("rpc_url");
    reveal_strlit("ws_url");
    reveal_strlit("grpc_url");
    reveal_strlit("grpc_token");
    reveal_strlit("nonce_account");
    assert("mode"@.len() == 4);
    assert("transport_mode"@.len() == 14);
    assert("rpc_url"@.len() == 7);
    assert("ws_url"@.len() == 6);
    assert("grpc_url"@.len() == 8);
    assert("grpc_token"@.len() == 10);
    assert("nonce_account"@.len() == 13);
}

/// Every key of the transaction settings stands masked under its own name; strategy and tip are no
/// secrets.
pub proof fn transaction_settings_stand_masked_under_their_names(settings: TxSettings)
    ensures
        ({
            let document = crate::export::tx_settings_model(settings);
            &&& keys_of(document) == set![
                "tx_strat"@,
                "tip_lamports"@,
                "nextblock_key"@,
                "zero_slot_key"@,
                "temporal_key"@,
                "blox_key"@,
            ]
            &&& field(document, "tx_strat"@) == JsonModel::Str(settings.tx_strat@)
            &&& field(document, "tip_lamports"@) == JsonModel::Int(settings.tip_lamports as int)
            &&& field(document, "nextblock_key"@) == shown(masked(settings.nextblock_key@))
            &&& field(document, "zero_slot_key"@) == shown(masked(settings.zero_slot_key@))
            &&& field(document, "temporal_key"@) == shown(masked(settings.temporal_key@))
            &&& field(document, "blox_key"@) == shown(masked(settings.blox_key@))
        }),
{
    reveal_strlit("tx_strat");
    reveal_strlit("tip_lamports");
    reveal_strlit("nextblock_key");
    reveal_strlit("zero_slot_key");
    reveal_strlit("temporal_key");
    reveal_strlit("blox_key");
    assert("tx_strat"@.len() == 8);
    assert("tip_lamports"@.len() == 12);
    assert("nextblock_key"@.len() == 13);
    assert("zero_slot_key"@.len() == 13);
    assert("temporal_key"@.len() == 12);
    assert("blox_key"@.len() == 8);
    assert("blox_key"@[0] == 'b');
    assert("nextblock_key"@[0] == 'n');
    assert("temporal_key"@[1] == 'e');
    assert("tip_lamports"@[1] == 'i');
    assert("tx_strat"@[0] == 't');
    assert("zero_slot_key"@[0] == 'z');
}

/// Key and database of the environment stand masked under their own names; the regions are no
/// secret.
pub proof fn environment_stands_masked_under_its_names(environment: ExportEnvironment)
    ensures
        ({
            let document = crate::export::environment_model(environment);
            &&& keys_of(document) == set![
                "PRIVATE_KEY"@,
                "DB_URL"@,
                "REGIONS"@,
            ]
            &&& field(document, "PRIVATE_KEY"@)
                == shown(masked_option(option_view(environment.private_key)))
            &&& field(document, "DB_URL"@) == shown(masked_option(option_view(environment.db_url)))
            &&& field(document, "REGIONS"@) == shown(option_view(environment.regions))
        }),
{
    reveal_strlit("PRIVATE_KEY");
    reveal_strlit("DB_URL");
    reveal_strlit("REGIONS");
    assert("PRIVATE_KEY"@.len() == 11);
    assert("DB_URL"@.len() == 6);
    assert("REGIONS"@.len() == 7);
}

/// The exported configuration names the run, the time and the commit, and holds each group of
/// settings under its own name.
pub proof fn exported_settings_stand_under_their_names(
    run: RunModel,
    config: Config,
    algo: AlgoConfig,
    snipe: SnipeConfig,
    strats: StratsConfig,
    tx_settings: TxSettings,
    counts: Map<Seq<char>, nat>,
    environment: ExportEnvironment,
    now: Timestamp,
)
    ensures
        ({
            let document = run.config_document(
                config,
                algo,
                snipe,
                strats,
                tx_settings,
                counts,
                environment,
                now,
            );
            &&& keys_of(document) == set![
                "run_id"@,
                "captured_at_utc"@,
                "source_commit"@,
                "paths"@,
                "config"@,
                "algorithm"@,
                "snipe"@,
                "strategies"@,
                "tx_settings"@,
                "environment"@,
                "initial_source_counts"@,
            ]
            &&& field(document, "run_id"@) == JsonModel::Str(run.run_id)
            &&& field(document, "captured_at_utc"@) == JsonModel::Str(now.iso())
            &&& field(document, "source_commit"@) == JsonModel::Str(run.source_commit)
            &&& field(document, "paths"@) == run.layout.metadata()
            &&& field(document, "config"@)
                == crate::export::endpoints_model(config, run.mode, run.transport_mode)
            &&& field(document, "algorithm"@) == algo.document()
            &&& field(document, "snipe"@) == snipe.document()
            &&& field(document, "strategies"@) == strats.document()
            &&& field(document, "tx_settings"@) == crate::export::tx_settings_model(tx_settings)
            &&& field(document, "environment"@) == crate::export::environment_model(environment)
            &&& field(document, "initial_source_counts"@) == crate::counts::counts_json(counts)
        }),
{
    reveal_strlit("run_id");
    reveal_strlit("captured_at_utc");
    reveal_strlit("source_commit");
    reveal_strlit("paths");
    reveal_strlit("config");
    reveal_strlit("algorithm");
    reveal_strlit("snipe");
    reveal_strlit("strategies");
    reveal_strlit("tx_settings");
    reveal_strlit("environment");
    reveal_strlit("initial_source_counts");
    assert("run_id"@.len() == 6);
    assert("captured_at_utc"@.len() == 15);
    assert("source_commit"@.len() == 13);
    assert("paths"@.len() == 5);
    assert("config"@.len() == 6);
    assert("algorithm"@.len() == 9);
    assert("snipe"@.len() == 5);
    assert("strategies"@.len() == 10);
    assert("tx_settings"@.len() == 11);
    assert("environment"@.len() == 11);
    assert("initial_source_counts"@.len() == 21);
    assert("config"@[0] == 'c');
    assert("environment"@[0] == 'e');
    assert("paths"@[0] == 'p');
    assert("run_id"@[0] == 'r');
    assert("snipe"@[0] == 's');
    assert("tx_settings"@[0] == 't');
}

/// An export takes every secret that it masks from where it belongs: it is possible exactly if each
/// of them can be masked.
pub proof fn an_export_needs_every_mask(
    config: Config,
    tx_settings: TxSettings,
    environment: ExportEnvironment,
)
    ensures
        crate::export::exportable(config, tx_settings, environment) <==> {
            let secrets = seq![
                Some(config.rpc_url@),
                Some(config.ws_url@),
                option_view(config.grpc_url),
                option_view(config.grpc_token),
                Some(tx_settings.nextblock_key@),
                Some(tx_settings.zero_slot_key@),
                Some(tx_settings.temporal_key@),
                Some(tx_settings.blox_key@),
                option_view(environment.private_key),
                option_view(environment.db_url),
            ];
            forall|i: int|
                0 <= i < secrets.len() ==> (#[trigger] secrets[i] is Some
                    ==> crate::secrets::maskable(secrets[i]->0))
        },
{
    let secrets = seq![
        Some(config.rpc_url@),
        Some(config.ws_url@),
        option_view(config.grpc_url),
        option_view(config.grpc_token),
        Some(tx_settings.nextblock_key@),
        Some(tx_settings.zero_slot_key@),
        Some(tx_settings.temporal_key@),
        Some(tx_settings.blox_key@),
        option_view(environment.private_key),
        option_view(environment.db_url),
    ];
    if forall|i: int|
        0 <= i < secrets.len() ==> (#[trigger] secrets[i] is Some ==> crate::secrets::maskable(
            secrets[i]->0,
        )) {
        assert(secrets[0] is Some && secrets[1] is Some);
        assert(secrets[2] is Some || secrets[2] is None);
        assert(secrets[3] is Some || secrets[3] is None);
        assert(secrets[4] is Some && secrets[5] is Some);
        assert(secrets[6] is Some && secrets[7] is Some);
        assert(secrets[8] is Some || secrets[8] is None);
        assert(secrets[9] is Some || secrets[9] is None);
    }
}

/// Everything that is known of an observation stands under its own name.
pub proof fn observations_stand_under_their_names(observation: ObservationModel)
    ensures
        ({
            let document = observation.document();
            &&& keys_of(document) == set![
                "creator"@,
                "source_label"@,
                "score_components"@,
                "score_total"@,
                "cohort_size"@,
                "reason"@,
            ]
            &&& field(document, "creator"@) == JsonModel::Str(observation.creator)
            &&& field(document, "source_label"@) == JsonModel::Str(observation.source_label)
            &&& field(document, "score_components"@) == observation.score_components
            &&& field(document, "score_total"@) == JsonModel::Float(observation.score_total)
            &&& field(document, "cohort_size"@) == JsonModel::Int(observation.cohort_size as int)
            &&& field(document, "reason"@) == JsonModel::Str(observation.reason)
        }),
{
    reveal_strlit("creator");
    reveal_strlit("source_label");
    reveal_strlit("score_components");
    reveal_strlit("score_total");
    reveal_strlit("cohort_size");
    reveal_strlit("reason");
    assert("creator"@.len() == 7);
    assert("source_label"@.len() == 12);
    assert("score_components"@.len() == 16);
    assert("score_total"@.len() == 11);
    assert("cohort_size"@.len() == 11);
    assert("reason"@.len() == 6);
    assert("cohort_size"@[0] == 'c');
    assert("score_total"@[0] == 's');
}

/// A list of texts as an array.
pub open spec fn texts(list: Seq<Seq<char>>) -> JsonModel {
    JsonModel::Array(Seq::new(list.len(), |i: int| JsonModel::Str(list[i])))
}

/// A list of paths as an array.
pub open spec fn paths(list: Seq<PathModel>) -> JsonModel {
    JsonModel::Array(Seq::new(list.len(), |i: int| JsonModel::Path(list[i])))
}

/// A snapshot names the run, the time, the commit and its label, and holds the counts, the keys
/// that came and went, and the observations, each list in its order.
pub proof fn snapshots_hold_what_was_given(
    run: RunModel,
    label: Seq<char>,
    counts: Map<Seq<char>, nat>,
    observations: Seq<ObservationModel>,
    added: Seq<Seq<char>>,
    removed: Seq<Seq<char>>,
    now: Timestamp,
)
    ensures
        ({
            let document = run.snapshot_document(label, counts, observations, added, removed, now);
            &&& keys_of(document) == set![
                "run_id"@,
                "captured_at_utc"@,
                "source_commit"@,
                "label"@,
                "source_counts"@,
                "added_keys"@,
                "removed_keys"@,
                "observations"@,
            ]
            &&& field(document, "run_id"@) == JsonModel::Str(run.run_id)
            &&& field(document, "captured_at_utc"@) == JsonModel::Str(now.iso())
            &&& field(document, "source_commit"@) == JsonModel::Str(run.source_commit)
            &&& field(document, "label"@) == JsonModel::Str(label)
            &&& field(document, "source_counts"@) == crate::counts::counts_json(counts)
            &&& field(document, "added_keys"@) == texts(added)
            &&& field(document, "removed_keys"@) == texts(removed)
            &&& field(document, "observations"@)
                == JsonModel::Array(
                Seq::new(observations.len(), |i: int| observations[i].document()),
            )
        }),
{
    assert(added.map_values(|key: Seq<char>| JsonModel::Str(key)) =~= Seq::new(
        added.len(),
        |i: int| JsonModel::Str(added[i]),
    ));
    assert(removed.map_values(|key: Seq<char>| JsonModel::Str(key)) =~= Seq::new(
        removed.len(),
        |i: int| JsonModel::Str(removed[i]),
    ));
    assert(observations.map_values(|o: ObservationModel| o.document()) =~= Seq::new(
        observations.len(),
        |i: int| observations[i].document(),
    ));
    reveal_strlit("run_id");
    reveal_strlit("captured_at_utc");
    reveal_strlit("source_commit");
    reveal_strlit("label");
    reveal_strlit("source_counts");
    reveal_strlit("added_keys");
    reveal_strlit("removed_keys");
    reveal_strlit("observations");
    assert("run_id"@.len() == 6);
    assert("captured_at_utc"@.len() == 15);
    assert("source_commit"@.len() == 13);
    assert("label"@.len() == 5);
    assert("source_counts"@.len() == 13);
    assert("added_keys"@.len() == 10);
    assert("removed_keys"@.len() == 12);
    assert("observations"@.len() == 12);
    assert("observations"@[0] == 'o');
    assert("removed_keys"@[0] == 'r');
    assert("source_commit"@[9] == 'm');
    assert("source_counts"@[9] == 'u');
}

/// The state names the run, its status, its origin, its times and its files, and counts its events.
pub proof fn the_state_holds_what_is_known(run: RunModel, status: Seq<char>)
    ensures
        ({
            let document = run.state_document(status);
            let files = field(document, "paths"@);
            &&& keys_of(document) == set![
                "run_id"@,
                "status"@,
                "source_system"@,
                "source_commit"@,
                "mode"@,
                "transport_mode"@,
                "host_role"@,
                "started_at_utc"@,
                "ended_at_utc"@,
                "event_counts"@,
                "paths"@,
            ]
            &&& field(document, "run_id"@) == JsonModel::Str(run.run_id)
            &&& field(document, "status"@) == JsonModel::Str(status)
            &&& field(document, "source_system"@) == JsonModel::Str("mewx"@)
            &&& field(document, "source_commit"@) == JsonModel::Str(run.source_commit)
            &&& field(document, "mode"@) == JsonModel::Str(run.mode)
            &&& field(document, "transport_mode"@) == JsonModel::Str(run.transport_mode)
            &&& field(document, "host_role"@) == JsonModel::Str(run.host_role)
            &&& field(document, "started_at_utc"@) == JsonModel::Str(run.started_at.iso())
            &&& field(document, "ended_at_utc"@) == match run.ended_at {
                Some(t) => JsonModel::Str(t.iso()),
                None => JsonModel::Null,
            }
            &&& field(document, "event_counts"@) == crate::counts::counts_json(run.event_counts)
            &&& keys_of(files) == set![
                "runtime_layout"@,
                "raw_events_file"@,
                "config_snapshot"@,
                "candidate_snapshots"@,
                "session_summaries"@,
            ]
            &&& field(files, "runtime_layout"@) == run.layout.metadata()
            &&& field(files, "raw_events_file"@) == JsonModel::Path(run.event_path)
            &&& field(files, "config_snapshot"@) == match run.config_path {
                Some(p) => JsonModel::Path(p),
                None => JsonModel::Null,
            }
            &&& field(files, "candidate_snapshots"@) == paths(run.candidate_snapshot_paths)
            &&& field(files, "session_summaries"@) == paths(run.session_summary_paths)
        }),
{
    assert(run.candidate_snapshot_paths.map_values(|p: PathModel| JsonModel::Path(p)) =~= Seq::new(
        run.candidate_snapshot_paths.len(),
        |i: int| JsonModel::Path(run.candidate_snapshot_paths[i]),
    ));
    assert(run.session_summary_paths.map_values(|p: PathModel| JsonModel::Path(p)) =~= Seq::new(
        run.session_summary_paths.len(),
        |i: int| JsonModel::Path(run.session_summary_paths[i]),
    ));
    reveal_strlit("run_id");
    reveal_strlit("status");
    reveal_strlit("source_system");
    reveal_strlit("source_commit");
    reveal_strlit("mode");
    reveal_strlit("transport_mode");
    reveal_strlit("host_role");
    reveal_strlit("started_at_utc");
    reveal_strlit("ended_at_utc");
    reveal_strlit("event_counts");
    reveal_strlit("runtime_layout");
    reveal_strlit("raw_events_file");
    reveal_strlit("config_snapshot");
    reveal_strlit("candidate_snapshots");
    reveal_strlit("session_summaries");
    reveal_strlit("paths");
    assert("run_id"@.len() == 6);
    assert("status"@.len() == 6);
    assert("source_system"@.len() == 13);
    assert("source_commit"@.len() == 13);
    assert("mode"@.len() == 4);
    assert("transport_mode"@.len() == 14);
    assert("host_role"@.len() == 9);
    assert("started_at_utc"@.len() == 14);
    assert("ended_at_utc"@.len() == 12);
    assert("event_counts"@.len() == 12);
    assert("runtime_layout"@.len() == 14);
    assert("raw_events_file"@.len() == 15);
    assert("config_snapshot"@.len() == 15);
    assert("candidate_snapshots"@.len() == 19);
    assert("session_summaries"@.len() == 17);
    assert("paths"@.len() == 5);
    assert("config_snapshot"@[0] == 'c');
    assert("ended_at_utc"@[1] == 'n');
    assert("event_counts"@[1] == 'v');
    assert("raw_events_file"@[0] == 'r');
    assert("run_id"@[0] == 'r');
    assert("runtime_layout"@[0] == 'r');
    assert("source_commit"@[7] == 'c');
    assert("source_system"@[7] == 's');
    assert("started_at_utc"@[0] == 's');
    assert("status"@[0] == 's');
    assert("transport_mode"@[0] == 't');
}

/// Whether a percentage is the change from a price to another: measured from the first where that
/// is known and above zero, whichever way the second lies, and zero otherwise.
pub open spec fn is_change(percent: JsonModel, from: Option<Double>, to: Option<Double>) -> bool {
    if from is Some && !(from->0).at_most(Double { bits: 0 }) {
        percent == JsonModel::Percent(
            Percent::Change {
                entry: from->0,
                value: if to is Some {
                    to->0
                } else {
                    Double { bits: 0 }
                },
            },
        )
    } else {
        percent == JsonModel::Percent(Percent::Zero)
    }
}

/// Whether a document tells the outcome of a session that was closed at a time: the price that was
/// filled on entry, else signalled, else observed; the price that was filled on exit, else
/// signalled, else the entry's; the changes from the entry to the exit, to the peak and to the low;
/// and the milliseconds from the entry to the peak and to the end.
pub open spec fn tells_outcome(
    document: JsonModel,
    session: SessionModel,
    started_at: Timestamp,
    closed_at: Timestamp,
) -> bool {
    let entry = if session.entry_fill_price is Some {
        session.entry_fill_price
    } else if session.signal_price is Some {
        session.signal_price
    } else {
        session.observed_open_price
    };
    let exit = if session.exit_fill_price is Some {
        session.exit_fill_price
    } else if session.exit_signal_price is Some {
        session.exit_signal_price
    } else {
        entry
    };
    let peak = if session.peak_price is Some {
        session.peak_price
    } else {
        entry
    };
    let low = if session.low_price is Some {
        session.low_price
    } else {
        entry
    };
    let entered_at = if session.entry_fill_at is Some {
        session.entry_fill_at->0
    } else if session.signal_at is Some {
        session.signal_at->0
    } else if session.observed_at is Some {
        session.observed_at->0
    } else {
        started_at
    };
    let peaked_at = if session.peak_price_at is Some {
        session.peak_price_at->0
    } else {
        entered_at
    };
    &&& field(document, "entry_price"@) == opt_float_model(entry)
    &&& field(document, "exit_price"@) == opt_float_model(exit)
    &&& is_change(field(document, "realized_return_pct"@), entry, exit)
    &&& is_change(field(document, "mfe_pct"@), entry, peak)
    &&& is_change(field(document, "mae_pct"@), entry, low)
    &&& field(document, "time_to_peak_ms"@) == JsonModel::Int(peaked_at.millis_after(entered_at))
    &&& field(document, "session_duration_ms"@) == JsonModel::Int(
        closed_at.millis_after(entered_at),
    )
}

/// A session summary names the session and tells its outcome, gain or loss.
pub proof fn a_summary_tells_the_outcome(
    run: RunModel,
    session: SessionModel,
    closed_at: Timestamp,
)
    ensures
        ({
            let document = run.summary_document(session, closed_at);
            &&& tells_outcome(document, session, run.started_at, closed_at)
            &&& keys_of(document) == set![
                "run_id"@,
                "session_id"@,
                "mint"@,
                "creator"@,
                "candidate_source"@,
                "market"@,
                "pool_id"@,
                "closed_at_utc"@,
                "exit_reason"@,
                "entry_price"@,
                "exit_price"@,
                "realized_return_pct"@,
                "mfe_pct"@,
                "mae_pct"@,
                "time_to_peak_ms"@,
                "session_duration_ms"@,
            ]
            &&& field(document, "run_id"@) == JsonModel::Str(run.run_id)
            &&& field(document, "session_id"@) == JsonModel::Str(session.session_id)
            &&& field(document, "mint"@) == JsonModel::Str(session.mint)
            &&& field(document, "creator"@) == shown(session.creator)
            &&& field(document, "candidate_source"@) == shown(session.candidate_source)
            &&& field(document, "market"@) == shown(session.market)
            &&& field(document, "pool_id"@) == shown(session.pool_id)
            &&& field(document, "closed_at_utc"@) == JsonModel::Str(closed_at.iso())
            &&& field(document, "exit_reason"@) == shown(session.exit_reason)
        }),
{
    let entry = session.entry_price();
    crate::figures::changes_are_measured_from_the_entry(entry, session.exit_price());
    crate::figures::changes_are_measured_from_the_entry(entry, session.top_price());
    crate::figures::changes_are_measured_from_the_entry(entry, session.bottom_price());
    reveal_strlit("run_id");
    reveal_strlit("session_id");
    reveal_strlit("mint");
    reveal_strlit("creator");
    reveal_strlit("candidate_source");
    reveal_strlit("market");
    reveal_strlit("pool_id");
    reveal_strlit("closed_at_utc");
    reveal_strlit("exit_reason");
    reveal_strlit("entry_price");
    reveal_strlit("exit_price");
    reveal_strlit("realized_return_pct");
    reveal_strlit("mfe_pct");
    reveal_strlit("mae_pct");
    reveal_strlit("time_to_peak_ms");
    reveal_strlit("session_duration_ms");
    assert("run_id"@.len() == 6);
    assert("session_id"@.len() == 10);
    assert("mint"@.len() == 4);
    assert("creator"@.len() == 7);
    assert("candidate_source"@.len() == 16);
    assert("market"@.len() == 6);
    assert("pool_id"@.len() == 7);
    assert("closed_at_utc"@.len() == 13);
    assert("exit_reason"@.len() == 11);
    assert("entry_price"@.len() == 11);
    assert("exit_price"@.len() == 10);
    assert("realized_return_pct"@.len() == 19);
    assert("mfe_pct"@.len() == 7);
    assert("mae_pct"@.len() == 7);
    assert("time_to_peak_ms"@.len() == 15);
    assert("session_duration_ms"@.len() == 19);
    assert("creator"@[1] == 'r');
    assert("entry_price"@[1] == 'n');
    assert("exit_price"@[0] == 'e');
    assert("exit_reason"@[1] == 'x');
    assert("mae_pct"@[1] == 'a');
    assert("market"@[0] == 'm');
    assert("mfe_pct"@[1] == 'f');
    assert("pool_id"@[1] == 'o');
    assert("realized_return_pct"@[0] == 'r');
    assert("run_id"@[0] == 'r');
    assert("session_duration_ms"@[0] == 's');
    assert("session_id"@[0] == 's');
    assert(keys_of(run.summary_document(session, closed_at)) =~= set![
        "run_id"@,
        "session_id"@,
        "mint"@,
        "creator"@,
        "candidate_source"@,
        "market"@,
        "pool_id"@,
        "closed_at_utc"@,
        "exit_reason"@,
        "entry_price"@,
        "exit_price"@,
        "realized_return_pct"@,
        "mfe_pct"@,
        "mae_pct"@,
        "time_to_peak_ms"@,
        "session_duration_ms"@,
    ]);
}

/// The report of a closed position tells the outcome, gain or loss, and whether it was stale.
pub proof fn a_closing_tells_the_outcome(
    session: SessionModel,
    started_at: Timestamp,
    closed_at: Timestamp,
    stale: bool,
)
    ensures
        ({
            let document = crate::events::position_closed_model(
                session,
                started_at,
                closed_at,
                stale,
            );
            &&& tells_outcome(document, session, started_at, closed_at)
            &&& field(document, "stale_position_flag"@) == JsonModel::Bool(stale)
            &&& keys_of(document) == set![
                "entry_price"@,
                "exit_price"@,
                "realized_return_pct"@,
                "mfe_pct"@,
                "mae_pct"@,
                "time_to_peak_ms"@,
                "session_duration_ms"@,
                "stale_position_flag"@,
            ]
        }),
{
    let entry = session.entry_price();
    crate::figures::changes_are_measured_from_the_entry(entry, session.exit_price());
    crate::figures::changes_are_measured_from_the_entry(entry, session.top_price());
    crate::figures::changes_are_measured_from_the_entry(entry, session.bottom_price());
    reveal_strlit("entry_price");
    reveal_strlit("exit_price");
    reveal_strlit("realized_return_pct");
    reveal_strlit("mfe_pct");
    reveal_strlit("mae_pct");
    reveal_strlit("time_to_peak_ms");
    reveal_strlit("session_duration_ms");
    reveal_strlit("stale_position_flag");
    assert("entry_price"@.len() == 11);
    assert("exit_price"@.len() == 10);
    assert("realized_return_pct"@.len() == 19);
    assert("mfe_pct"@.len() == 7);
    assert("mae_pct"@.len() == 7);
    assert("time_to_peak_ms"@.len() == 15);
    assert("session_duration_ms"@.len() == 19);
    assert("stale_position_flag"@.len() == 19);
    assert("mae_pct"@[1] == 'a');
    assert("mfe_pct"@[1] == 'f');
    assert("realized_return_pct"@[5] == 'z');
    assert("session_duration_ms"@[5] == 'o');
    assert("stale_position_flag"@[5] == '_');
}

/// A run begins under its identity, with its log and its state among its directories, with nothing
/// counted, noted or exported, and asks for its directories and then for its state.
pub proof fn a_run_begins_empty(
    layout: LayoutModel,
    run_id: Seq<char>,
    source_commit: Seq<char>,
    mode: Seq<char>,
    transport_mode: Seq<char>,
    started_at: Timestamp,
)
    ensures
        ({
            let run = RunModel::begun(
                layout,
                run_id,
                source_commit,
                mode,
                transport_mode,
                started_at,
            );
            let dirs = layout.directories();
            &&& run.layout == layout
            &&& run.run_id == run_id
            &&& run.source_commit == source_commit
            &&& run.mode == mode
            &&& run.transport_mode == transport_mode
            &&& run.started_at == started_at
            &&& run.host_role == "windows_runtime"@
            &&& run.event_path.root == layout.raw_dir.root
            &&& run.event_path.segments == layout.raw_dir.segments.push(run_id + ".ndjson"@)
            &&& run.state_path.root == layout.export_dir.root
            &&& run.state_path.segments == layout.export_dir.segments.push(
                run_id + ".state.json"@,
            )
            &&& run.ended_at is None && !run.finalized && run.config_path is None
            &&& run.candidate_snapshot_paths.len() == 0
            &&& run.session_summary_paths.len() == 0
            &&& run.event_index == 0
            &&& run.event_counts == Map::<Seq<char>, nat>::empty()
            &&& run.attempt_counters == Map::<Seq<char>, usize>::empty()
            &&& run.sessions == Map::<Seq<char>, SessionModel>::empty()
            &&& run.outbox.len() == dirs.len() + 1
            &&& forall|i: int|
                0 <= i < dirs.len() ==> run.outbox[i] == crate::actions::ActionModel::EnsureDir(
                    #[trigger] dirs[i],
                )
            &&& run.outbox.last() == crate::actions::ActionModel::WriteDocument {
                path: run.state_path,
                document: run.state_document("initialized"@),
            }
        }),
{
}

/// What a run takes from its environment goes where it belongs.
pub proof fn a_run_takes_its_environment(
    env: RunEnvironment,
    stamp: Timestamp,
    started_at: Timestamp,
)
    ensures
        ({
            let run = env.begun(stamp, started_at);
            let named = env.run_id is Some && env.run_id->0@.len() > 0;
            let committed = env.source_commit is Some && env.source_commit->0@.len() > 0;
            &&& run.started_at == started_at
            &&& run.layout == LayoutModel::under(
                crate::layout::output_root_for(
                    option_view(env.layout.output_root),
                    env.layout.windows,
                    env.layout.preferred_root_exists,
                ),
                crate::layout::runtime_root_for(option_view(env.layout.runtime_root)),
            )
            &&& run.mode == crate::settings::reported_mode(env.mode@)
            &&& run.transport_mode == crate::settings::reported_transport(
                env.tx_settings.tx_strat@,
                env.use_grpc,
            )
            &&& named ==> run.run_id == env.run_id->0@
            &&& !named ==> {
                &&& env.hostname matches Some(host) ==> run.run_id == "mewx-"@
                    + crate::text::ascii_lowered(host@) + "-"@ + stamp.compact()
                &&& env.hostname is None && env.computername is Some ==> run.run_id == "mewx-"@
                    + crate::text::ascii_lowered(env.computername->0@) + "-"@ + stamp.compact()
                &&& env.hostname is None && env.computername is None ==> run.run_id
                    == "mewx-"@ + "unknown-host"@ + "-"@ + stamp.compact()
            }
            &&& committed ==> run.source_commit == env.source_commit->0@
            &&& !committed ==> {
                &&& env.git_head is None ==> run.source_commit == "unknown"@
                &&& env.git_head matches Some(bytes) ==> {
                    let text = crate::text::trimmed(vstd::utf8::decode_utf8(bytes@));
                    if vstd::utf8::valid_utf8(bytes@) && text.len() > 0 {
                        run.source_commit == text
                    } else {
                        run.source_commit == "unknown"@
                    }
                }
            }
        }),
{
    reveal_strlit("unknown-host");
    assert(crate::text::ascii_lowered("unknown-host"@) =~= "unknown-host"@);
}

} // verus!
