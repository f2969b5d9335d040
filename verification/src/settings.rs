//! The settings that a run is started with.

use crate::double::Double;
use crate::json::{json_opt_float, Json, JsonModel, ObjectBuilder};
use crate::text::{str_eq, trim};
use vstd::prelude::*;

verus! {

/// Endpoints and credentials.
#[derive(Debug)]
pub struct Config {
    pub rpc_url: String,
    pub private_key: String,
    pub ws_url: String,
    pub grpc_url: Option<String>,
    pub grpc_token: Option<String>,
    pub nonce_account: Option<String>,
}

impl Config {
    /// The configuration with the given parts.
    pub fn new(
        rpc_url: String,
        private_key: String,
        ws_url: String,
        grpc_url: Option<String>,
        grpc_token: Option<String>,
        nonce_account: Option<String>,
    ) -> (config: Config)
        ensures
            config == (Config {
                rpc_url,
                private_key,
                ws_url,
                grpc_url,
                grpc_token,
                nonce_account,
            }),
    {
        Config { rpc_url, private_key, ws_url, grpc_url, grpc_token, nonce_account }
    }
}

/// How transactions are sent.
#[derive(Debug)]
pub struct TxSettings {
    pub tx_strat: String,
    pub nextblock_key: String,
    pub zero_slot_key: String,
    pub temporal_key: String,
    pub blox_key: String,
    pub tip_lamports: u64,
}

/// The name that a run reports for its mode.
pub open spec fn reported_mode(mode: Seq<char>) -> Seq<char> {
    if mode == "sim"@ {
        "sim_live"@
    } else if mode == "trade"@ {
        "trade_live"@
    } else {
        mode
    }
}

/// The name that a run reports for its mode.
pub fn resolve_mode(mode: &str) -> (reported: String)
    ensures
        reported@ == reported_mode(mode@),
{
    if str_eq(mode, "sim") {
        "sim_live".to_owned()
    } else if str_eq(mode, "trade") {
        "trade_live".to_owned()
    } else {
        mode.to_owned()
    }
}

/// The name of the intake: gRPC or websocket.
pub open spec fn intake_name(use_grpc: bool) -> Seq<char> {
    if use_grpc {
        "grpc"@
    } else {
        "ws"@
    }
}

/// The transport that a run reports: the intake alone where transactions take no other way,
/// `mixed` where they go over RPC or stake-weighted connections, the strategy's name otherwise.
pub open spec fn reported_transport(tx_strat: Seq<char>, use_grpc: bool) -> Seq<char> {
    let tx = crate::text::trimmed(tx_strat);
    if tx.len() == 0 || tx == intake_name(use_grpc) {
        intake_name(use_grpc)
    } else if tx == "rpc"@ || tx == "swqos"@ {
        "mixed"@
    } else {
        tx
    }
}

/// The transport that a run reports.
pub fn resolve_transport_mode(tx_settings: &TxSettings, use_grpc: bool) -> (reported: String)
    ensures
        reported@ == reported_transport(tx_settings.tx_strat@, use_grpc),
{
    let intake = if use_grpc {
        "grpc"
    } else {
        "ws"
    };
    let tx = trim(tx_settings.tx_strat.as_str());
    if tx.as_str().is_empty() || str_eq(tx.as_str(), intake) {
        return intake.to_owned();
    }
    if str_eq(tx.as_str(), "rpc") || str_eq(tx.as_str(), "swqos") {
        "mixed".to_owned()
    } else {
        tx
    }
}

/// The thresholds of the grand chillers.
#[derive(Debug)]
pub struct GrandChillers {
    pub use_gc: bool,
    pub min_hmc: Double,
    pub min_mints: i64,
    pub min_buys: i64,
}

impl GrandChillers {
    /// The settings as they are exported.
    pub open spec fn document(self) -> JsonModel {
        JsonModel::Object(
            map![
                "use_gc"@ => JsonModel::Bool(self.use_gc),
                "min_hmc"@ => JsonModel::Float(self.min_hmc),
                "min_mints"@ => JsonModel::Int(self.min_mints as int),
                "min_buys"@ => JsonModel::Int(self.min_buys as int),
            ],
        )
    }

    /// The settings as they are exported.
    pub fn to_json(&self) -> (document: Json)
        ensures
            document.model() == self.document(),
    {
        let mut o = ObjectBuilder::new();
        o.put("use_gc", Json::Bool(self.use_gc));
        o.put("min_hmc", Json::Float(self.min_hmc));
        o.put("min_mints", Json::Int(self.min_mints));
        o.put("min_buys", Json::Int(self.min_buys));
        o.build()
    }
}

/// How creators are chosen.
#[derive(Debug)]
pub struct AlgoConfig {
    pub limit: i64,
    pub min_mints: i64,
    pub min_deagle_sol: Option<Double>,
    pub use_vc: bool,
    pub use_deagles: bool,
    pub min_buys: i64,
    pub min_volume: Double,
    pub grand_chillers: Option<GrandChillers>,
}

impl AlgoConfig {
    /// The settings as they are exported.
    pub open spec fn document(self) -> JsonModel {
        JsonModel::Object(
            map![
                "limit"@ => JsonModel::Int(self.limit as int),
                "min_mints"@ => JsonModel::Int(self.min_mints as int),
                "min_deagle_sol"@ => crate::json::opt_float_model(self.min_deagle_sol),
                "use_vol_creators"@ => JsonModel::Bool(self.use_vc),
                "use_deagles"@ => JsonModel::Bool(self.use_deagles),
                "min_buys"@ => JsonModel::Int(self.min_buys as int),
                "min_volume"@ => JsonModel::Float(self.min_volume),
                "grand_chillers"@ => match self.grand_chillers {
                    Some(chillers) => chillers.document(),
                    None => JsonModel::Null,
                },
            ],
        )
    }

    /// The settings as they are exported.
    pub fn to_json(&self) -> (document: Json)
        ensures
            document.model() == self.document(),
    {
        let mut o = ObjectBuilder::new();
        o.put("limit", Json::Int(self.limit));
        o.put("min_mints", Json::Int(self.min_mints));
        o.put("min_deagle_sol", json_opt_float(self.min_deagle_sol));
        o.put("use_vol_creators", Json::Bool(self.use_vc));
        o.put("use_deagles", Json::Bool(self.use_deagles));
        o.put("min_buys", Json::Int(self.min_buys));
        o.put("min_volume", Json::Float(self.min_volume));
        let chillers = match &self.grand_chillers {
            Some(chillers) => chillers.to_json(),
            None => Json::Null,
        };
        o.put("grand_chillers", chillers);
        o.build()
    }
}

/// How positions are entered and left.
#[derive(Debug)]
pub struct SnipeConfig {
    pub buy_amount: Double,
    pub slippage: Double,
    pub max_loss: Double,
    pub take_profit: Double,
    pub use_chp: bool,
    pub chp_lower: Double,
    pub chp_upper: Double,
    pub use_tiz: bool,
    pub tiz_lower: i64,
    pub tiz_upper: i64,
    pub max_no_activity_ms: u64,
    pub max_na_on_start_ms: u64,
    pub min_dev_sold: i64,
}

impl SnipeConfig {
    /// The settings as they are exported.
    pub open spec fn document(self) -> JsonModel {
        JsonModel::Object(
            map![
                "buy_amount"@ => JsonModel::Float(self.buy_amount),
                "slippage"@ => JsonModel::Float(self.slippage),
                "max_loss"@ => JsonModel::Float(self.max_loss),
                "take_profit"@ => JsonModel::Float(self.take_profit),
                "use_chp"@ => JsonModel::Bool(self.use_chp),
                "chp_lower"@ => JsonModel::Float(self.chp_lower),
                "chp_upper"@ => JsonModel::Float(self.chp_upper),
                "use_tiz"@ => JsonModel::Bool(self.use_tiz),
                "tiz_lower"@ => JsonModel::Int(self.tiz_lower as int),
                "tiz_upper"@ => JsonModel::Int(self.tiz_upper as int),
                "max_no_activity_ms"@ => JsonModel::Int(self.max_no_activity_ms as int),
                "max_na_on_start_ms"@ => JsonModel::Int(self.max_na_on_start_ms as int),
                "min_dev_sold"@ => JsonModel::Int(self.min_dev_sold as int),
            ],
        )
    }

    /// The settings as they are exported.
    pub fn to_json(&self) -> (document: Json)
        ensures
            document.model() == self.document(),
    {
        let mut o = ObjectBuilder::new();
        o.put("buy_amount", Json::Float(self.buy_amount));
        o.put("slippage", Json::Float(self.slippage));
        o.put("max_loss", Json::Float(self.max_loss));
        o.put("take_profit", Json::Float(self.take_profit));
        o.put("use_chp", Json::Bool(self.use_chp));
        o.put("chp_lower", Json::Float(self.chp_lower));
        o.put("chp_upper", Json::Float(self.chp_upper));
        o.put("use_tiz", Json::Bool(self.use_tiz));
        o.put("tiz_lower", Json::Int(self.tiz_lower));
        o.put("tiz_upper", Json::Int(self.tiz_upper));
        o.put("max_no_activity_ms", Json::UInt(self.max_no_activity_ms));
        o.put("max_na_on_start_ms", Json::UInt(self.max_na_on_start_ms));
        o.put("min_dev_sold", Json::Int(self.min_dev_sold));
        o.build()
    }
}

/// The strategies and their thresholds.
#[derive(Debug)]
pub struct StratsConfig {
    pub enable_abs: bool,
    pub abs_min_buys: i64,
    pub abs_min_volume: Double,
    pub abs_n: i64,
    pub enable_mtd: bool,
    pub mtd_pct: i64,
    pub mtd_stable_time: u64,
    pub mtd_max_loss: Double,
    pub mtd_take_profit: Double,
    pub mtd_min_mc: Double,
    pub enable_dbf: bool,
    pub dbf_max_chp: Double,
}

impl StratsConfig {
    /// The settings as they are exported.
    pub open spec fn document(self) -> JsonModel {
        JsonModel::Object(
            map![
                "enable_abs"@ => JsonModel::Bool(self.enable_abs),
                "abs_min_buys"@ => JsonModel::Int(self.abs_min_buys as int),
                "abs_min_volume"@ => JsonModel::Float(self.abs_min_volume),
                "abs_n"@ => JsonModel::Int(self.abs_n as int),
                "enable_mtd"@ => JsonModel::Bool(self.enable_mtd),
                "mtd_pct"@ => JsonModel::Int(self.mtd_pct as int),
                "mtd_stable_time"@ => JsonModel::Int(self.mtd_stable_time as int),
                "mtd_max_loss"@ => JsonModel::Float(self.mtd_max_loss),
                "mtd_take_profit"@ => JsonModel::Float(self.mtd_take_profit),
                "mtd_min_mc"@ => JsonModel::Float(self.mtd_min_mc),
                "enable_dbf"@ => JsonModel::Bool(self.enable_dbf),
                "dbf_max_chp"@ => JsonModel::Float(self.dbf_max_chp),
            ],
        )
    }

    /// The settings as they are exported.
    pub fn to_json(&self) -> (document: Json)
        ensures
            document.model() == self.document(),
    {
        let mut o = ObjectBuilder::new();
        o.put("enable_abs", Json::Bool(self.enable_abs));
        o.put("abs_min_buys", Json::Int(self.abs_min_buys));
        o.put("abs_min_volume", Json::Float(self.abs_min_volume));
        o.put("abs_n", Json::Int(self.abs_n));
        o.put("enable_mtd", Json::Bool(self.enable_mtd));
        o.put("mtd_pct", Json::Int(self.mtd_pct));
        o.put("mtd_stable_time", Json::UInt(self.mtd_stable_time));
        o.put("mtd_max_loss", Json::Float(self.mtd_max_loss));
        o.put("mtd_take_profit", Json::Float(self.mtd_take_profit));
        o.put("mtd_min_mc", Json::Float(self.mtd_min_mc));
        o.put("enable_dbf", Json::Bool(self.enable_dbf));
        o.put("dbf_max_chp", Json::Float(self.dbf_max_chp));
        o.build()
    }
}

/// The name of a mode that is already reported stays as it is.
pub proof fn reported_modes_are_final(mode: Seq<char>)
    ensures
        reported_mode(reported_mode(mode)) == reported_mode(mode),
{
    reveal_strlit("sim");
    reveal_strlit("trade");
    reveal_strlit("sim_live");
    reveal_strlit("trade_live");
    assert("sim"@.len() == 3 && "trade"@.len() == 5);
    assert("sim_live"@.len() == 8 && "trade_live"@.len() == 10);
}

/// Without a transaction strategy, or with the intake's own, the transport is the intake.
pub proof fn transport_defaults_to_intake(tx_strat: Seq<char>, use_grpc: bool)
    requires
        crate::text::trimmed(tx_strat).len() == 0 || crate::text::trimmed(tx_strat) == intake_name(
            use_grpc,
        ),
    ensures
        reported_transport(tx_strat, use_grpc) == intake_name(use_grpc),
{
}

/// Simulation and trading are reported as live; any other mode is reported as it is.
pub proof fn modes_are_reported_as_live(mode: Seq<char>)
    ensures
        mode == "sim"@ ==> reported_mode(mode) == "sim_live"@,
        mode == "trade"@ ==> reported_mode(mode) == "trade_live"@,
        mode != "sim"@ && mode != "trade"@ ==> reported_mode(mode) == mode,
{
    reveal_strlit("sim");
    reveal_strlit("trade");
    assert("sim"@.len() == 3 && "trade"@.len() == 5);
}

/// The transport is the intake where no strategy is set or it is the intake's own, `mixed` where
/// transactions go over RPC or stake-weighted connections, and the strategy itself otherwise.
pub proof fn transports_are_reported_by_strategy(tx_strat: Seq<char>, use_grpc: bool)
    ensures
        ({
            let tx = crate::text::trimmed(tx_strat);
            let transport = reported_transport(tx_strat, use_grpc);
            &&& tx.len() == 0 && use_grpc ==> transport == "grpc"@
            &&& tx.len() == 0 && !use_grpc ==> transport == "ws"@
            &&& tx == "rpc"@ || tx == "swqos"@ ==> transport == "mixed"@
            &&& tx.len() > 0 && tx != "rpc"@ && tx != "swqos"@ ==> transport == tx
        }),
{
    reveal_strlit("grpc");
    reveal_strlit("ws");
    reveal_strlit("rpc");
    reveal_strlit("swqos");
    assert("grpc"@.len() == 4 && "ws"@.len() == 2);
    assert("rpc"@.len() == 3 && "swqos"@.len() == 5);
}

} // verus!
