//! The exported configuration, with every secret masked.

use crate::clock::Timestamp;
use crate::counts::{json_counts, NamedCount};
use crate::json::{json_opt_str, json_str, Json, JsonModel, ObjectBuilder};
use crate::run::RunModel;
use crate::secrets::{
    can_mask, can_mask_option, mask_secret, masked, masked_option, maskable, maskable_option,
};
use crate::settings::{AlgoConfig, Config, SnipeConfig, StratsConfig, TxSettings};
use crate::text::{copy_option, option_view};
use vstd::prelude::*;

verus! {

/// What the exported configuration tells of the surroundings of the process.
#[derive(Debug)]
pub struct ExportEnvironment {
    /// `PRIVATE_KEY`, if set.
    pub private_key: Option<String>,
    /// `DB_URL`, if set.
    pub db_url: Option<String>,
    /// `REGIONS`, if set.
    pub regions: Option<String>,
}

/// Whether every secret of an export can be masked.
pub open spec fn exportable(
    config: Config,
    tx_settings: TxSettings,
    environment: ExportEnvironment,
) -> bool {
    &&& maskable(config.rpc_url@)
    &&& maskable(config.ws_url@)
    &&& maskable_option(option_view(config.grpc_url))
    &&& maskable_option(option_view(config.grpc_token))
    &&& maskable(tx_settings.nextblock_key@)
    &&& maskable(tx_settings.zero_slot_key@)
    &&& maskable(tx_settings.temporal_key@)
    &&& maskable(tx_settings.blox_key@)
    &&& maskable_option(option_view(environment.private_key))
    &&& maskable_option(option_view(environment.db_url))
}

/// Whether every secret of an export can be masked.
pub fn can_export(
    config: &Config,
    tx_settings: &TxSettings,
    environment: &ExportEnvironment,
) -> (yes: bool)
    ensures
        yes == exportable(*config, *tx_settings, *environment),
{
    can_mask(config.rpc_url.as_str()) && can_mask(config.ws_url.as_str()) && can_mask_option(
        &config.grpc_url,
    ) && can_mask_option(&config.grpc_token) && can_mask(tx_settings.nextblock_key.as_str())
        && can_mask(tx_settings.zero_slot_key.as_str()) && can_mask(
        tx_settings.temporal_key.as_str(),
    ) && can_mask(tx_settings.blox_key.as_str()) && can_mask_option(&environment.private_key)
        && can_mask_option(&environment.db_url)
}

/// A masked secret, or `null` where there is nothing to show.
pub open spec fn masked_model(secret: Seq<char>) -> JsonModel {
    crate::json::opt_str_model(masked(secret))
}

/// A masked secret, or `null` where there is nothing to show.
pub open spec fn masked_option_model(secret: Option<Seq<char>>) -> JsonModel {
    crate::json::opt_str_model(masked_option(secret))
}

fn json_masked(secret: &str) -> (out: Json)
    requires
        maskable(secret@),
    ensures
        out.model() == masked_model(secret@),
{
    json_opt_str(&mask_secret(Some(secret.to_owned())))
}

fn json_masked_option(secret: &Option<String>) -> (out: Json)
    requires
        maskable_option(option_view(*secret)),
    ensures
        out.model() == masked_option_model(option_view(*secret)),
{
    json_opt_str(&mask_secret(copy_option(secret)))
}

/// The endpoints and credentials as they are exported.
pub open spec fn endpoints_model(
    config: Config,
    mode: Seq<char>,
    transport_mode: Seq<char>,
) -> JsonModel {
    JsonModel::Object(
        map![
            "mode"@ => JsonModel::Str(mode),
            "transport_mode"@ => JsonModel::Str(transport_mode),
            "rpc_url"@ => masked_model(config.rpc_url@),
            "ws_url"@ => masked_model(config.ws_url@),
            "grpc_url"@ => masked_option_model(option_view(config.grpc_url)),
            "grpc_token"@ => masked_option_model(option_view(config.grpc_token)),
            "nonce_account"@ => crate::json::opt_str_model(option_view(config.nonce_account)),
        ],
    )
}

fn endpoints_json(config: &Config, mode: &str, transport_mode: &str) -> (out: Json)
    requires
        maskable(config.rpc_url@),
        maskable(config.ws_url@),
        maskable_option(option_view(config.grpc_url)),
        maskable_option(option_view(config.grpc_token)),
    ensures
        out.model() == endpoints_model(*config, mode@, transport_mode@),
{
    let mut o = ObjectBuilder::new();
    o.put("mode", json_str(mode));
    o.put("transport_mode", json_str(transport_mode));
    o.put("rpc_url", json_masked(config.rpc_url.as_str()));
    o.put("ws_url", json_masked(config.ws_url.as_str()));
    o.put("grpc_url", json_masked_option(&config.grpc_url));
    o.put("grpc_token", json_masked_option(&config.grpc_token));
    o.put("nonce_account", json_opt_str(&config.nonce_account));
    o.build()
}

/// The transaction settings as they are exported.
pub open spec fn tx_settings_model(tx_settings: TxSettings) -> JsonModel {
    JsonModel::Object(
        map![
            "tx_strat"@ => JsonModel::Str(tx_settings.tx_strat@),
            "tip_lamports"@ => JsonModel::Int(tx_settings.tip_lamports as int),
            "nextblock_key"@ => masked_model(tx_settings.nextblock_key@),
            "zero_slot_key"@ => masked_model(tx_settings.zero_slot_key@),
            "temporal_key"@ => masked_model(tx_settings.temporal_key@),
            "blox_key"@ => masked_model(tx_settings.blox_key@),
        ],
    )
}

fn tx_settings_json(tx_settings: &TxSettings) -> (out: Json)
    requires
        maskable(tx_settings.nextblock_key@),
        maskable(tx_settings.zero_slot_key@),
        maskable(tx_settings.temporal_key@),
        maskable(tx_settings.blox_key@),
    ensures
        out.model() == tx_settings_model(*tx_settings),
{
    let mut o = ObjectBuilder::new();
    o.put("tx_strat", json_str(tx_settings.tx_strat.as_str()));
    o.put("tip_lamports", Json::UInt(tx_settings.tip_lamports));
    o.put("nextblock_key", json_masked(tx_settings.nextblock_key.as_str()));
    o.put("zero_slot_key", json_masked(tx_settings.zero_slot_key.as_str()));
    o.put("temporal_key", json_masked(tx_settings.temporal_key.as_str()));
    o.put("blox_key", json_masked(tx_settings.blox_key.as_str()));
    o.build()
}

/// The surroundings of the process as they are exported.
pub open spec fn environment_model(environment: ExportEnvironment) -> JsonModel {
    JsonModel::Object(
        map![
            "PRIVATE_KEY"@ => masked_option_model(option_view(environment.private_key)),
            "DB_URL"@ => masked_option_model(option_view(environment.db_url)),
            "REGIONS"@ => crate::json::opt_str_model(option_view(environment.regions)),
        ],
    )
}

fn environment_json(environment: &ExportEnvironment) -> (out: Json)
    requires
        maskable_option(option_view(environment.private_key)),
        maskable_option(option_view(environment.db_url)),
    ensures
        out.model() == environment_model(*environment),
{
    let mut o = ObjectBuilder::new();
    o.put("PRIVATE_KEY", json_masked_option(&environment.private_key));
    o.put("DB_URL", json_masked_option(&environment.db_url));
    o.put("REGIONS", json_opt_str(&environment.regions));
    o.build()
}

impl RunModel {
    /// The exported configuration.
    pub open spec fn config_document(
        self,
        config: Config,
        algo: AlgoConfig,
        snipe: SnipeConfig,
        strats: StratsConfig,
        tx_settings: TxSettings,
        initial_source_counts: Map<Seq<char>, nat>,
        environment: ExportEnvironment,
        captured_at: Timestamp,
    ) -> JsonModel {
        JsonModel::Object(
            map![
                "run_id"@ => JsonModel::Str(self.run_id),
                "captured_at_utc"@ => JsonModel::Str(captured_at.iso()),
                "source_commit"@ => JsonModel::Str(self.source_commit),
                "paths"@ => self.layout.metadata(),
                "config"@ => endpoints_model(config, self.mode, self.transport_mode),
                "algorithm"@ => algo.document(),
                "snipe"@ => snipe.document(),
                "strategies"@ => strats.document(),
                "tx_settings"@ => tx_settings_model(tx_settings),
                "environment"@ => environment_model(environment),
                "initial_source_counts"@ => crate::counts::counts_json(initial_source_counts),
            ],
        )
    }
}

/// The parts of the exported configuration below what identifies the run.
pub fn put_settings(
    o: &mut ObjectBuilder,
    mode: &str,
    transport_mode: &str,
    config: &Config,
    algo: &AlgoConfig,
    snipe: &SnipeConfig,
    strats: &StratsConfig,
    tx_settings: &TxSettings,
    initial_source_counts: &Vec<NamedCount>,
    environment: &ExportEnvironment,
)
    requires
        exportable(*config, *tx_settings, *environment),
    ensures
        final(o)@ == old(o)@.insert(
            "config"@,
            endpoints_model(*config, mode@, transport_mode@),
        ).insert("algorithm"@, algo.document()).insert("snipe"@, snipe.document()).insert(
            "strategies"@,
            strats.document(),
        ).insert("tx_settings"@, tx_settings_model(*tx_settings)).insert(
            "environment"@,
            environment_model(*environment),
        ).insert(
            "initial_source_counts"@,
            crate::counts::counts_json(crate::counts::counts_model(initial_source_counts@)),
        ),
{
    o.put("config", endpoints_json(config, mode, transport_mode));
    o.put("algorithm", algo.to_json());
    o.put("snipe", snipe.to_json());
    o.put("strategies", strats.to_json());
    o.put("tx_settings", tx_settings_json(tx_settings));
    o.put("environment", environment_json(environment));
    o.put("initial_source_counts", json_counts(initial_source_counts));
}

/// The exported configuration tells nothing of a secret beyond its mask, and nothing at all of the
/// configured private key: exports that agree on the masks and on what is no secret are the same.
pub proof fn export_tells_only_masks(
    run: RunModel,
    config: Config,
    other_config: Config,
    tx_settings: TxSettings,
    other_tx_settings: TxSettings,
    environment: ExportEnvironment,
    other_environment: ExportEnvironment,
    algo: AlgoConfig,
    snipe: SnipeConfig,
    strats: StratsConfig,
    counts: Map<Seq<char>, nat>,
    now: Timestamp,
)
    requires
        masked(config.rpc_url@) == masked(other_config.rpc_url@),
        masked(config.ws_url@) == masked(other_config.ws_url@),
        masked_option(option_view(config.grpc_url)) == masked_option(
            option_view(other_config.grpc_url),
        ),
        masked_option(option_view(config.grpc_token)) == masked_option(
            option_view(other_config.grpc_token),
        ),
        option_view(config.nonce_account) == option_view(other_config.nonce_account),
        tx_settings.tx_strat@ == other_tx_settings.tx_strat@,
        tx_settings.tip_lamports == other_tx_settings.tip_lamports,
        masked(tx_settings.nextblock_key@) == masked(other_tx_settings.nextblock_key@),
        masked(tx_settings.zero_slot_key@) == masked(other_tx_settings.zero_slot_key@),
        masked(tx_settings.temporal_key@) == masked(other_tx_settings.temporal_key@),
        masked(tx_settings.blox_key@) == masked(other_tx_settings.blox_key@),
        masked_option(option_view(environment.private_key)) == masked_option(
            option_view(other_environment.private_key),
        ),
        masked_option(option_view(environment.db_url)) == masked_option(
            option_view(other_environment.db_url),
        ),
        option_view(environment.regions) == option_view(other_environment.regions),
    ensures
        run.config_document(config, algo, snipe, strats, tx_settings, counts, environment, now)
            == run.config_document(
            other_config,
            algo,
            snipe,
            strats,
            other_tx_settings,
            counts,
            other_environment,
            now,
        ),
{
}

} // verus!
