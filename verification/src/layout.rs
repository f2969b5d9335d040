//! Where a run keeps its artifacts.

use crate::json::{json_str, Json, JsonModel, ObjectBuilder};
use crate::paths::{PathModel, RuntimePath};
use crate::text::join2;
use vstd::prelude::*;

verus! {

/// The root that the runtime reports where no other one is set.
pub const FIXED_WINDOWS_ROOT: &'static str = "C:\\Users\\bot\\quant\\Vexter";

/// The root that is used on Windows where it exists.
pub const PREFERRED_WINDOWS_ROOT: &'static str = "D:\\Quant\\Vexter";

/// What the layout depends on in the surroundings of the process.
#[derive(Debug)]
pub struct LayoutEnvironment {
    /// `VEXTER_RUNTIME_ROOT`, if set.
    pub runtime_root: Option<String>,
    /// `VEXTER_OUTPUT_ROOT`, if set.
    pub output_root: Option<String>,
    /// Whether the process runs on Windows.
    pub windows: bool,
    /// Whether [`PREFERRED_WINDOWS_ROOT`] exists.
    pub preferred_root_exists: bool,
}

/// The directories of a run.
#[derive(Debug)]
pub struct RuntimeLayout {
    /// What all directories lie under.
    pub output_root: RuntimePath,
    /// The root that the run reports.
    pub runtime_root: String,
    /// Exported configurations.
    pub config_dir: RuntimePath,
    /// Run states, candidate snapshots and session summaries.
    pub export_dir: RuntimePath,
    /// Event logs.
    pub raw_dir: RuntimePath,
    /// Log files.
    pub logs_dir: RuntimePath,
    /// Replays.
    pub replays_dir: RuntimePath,
    /// Database exports.
    pub db_dir: RuntimePath,
}

/// The directories of a run as mathematical values.
#[verifier::ext_equal]
pub struct LayoutModel {
    pub output_root: PathModel,
    pub runtime_root: Seq<char>,
    pub config_dir: PathModel,
    pub export_dir: PathModel,
    pub raw_dir: PathModel,
    pub logs_dir: PathModel,
    pub replays_dir: PathModel,
    pub db_dir: PathModel,
}

/// The root that artifacts are written under: the configured one, else on Windows the preferred
/// one where it exists and the fixed one where it does not, else `dev/vexter_runtime`.
pub open spec fn output_root_for(
    configured: Option<Seq<char>>,
    windows: bool,
    preferred_root_exists: bool,
) -> PathModel {
    match configured {
        Some(root) => PathModel { root, segments: Seq::empty() },
        None => if windows {
            if preferred_root_exists {
                PathModel { root: PREFERRED_WINDOWS_ROOT@, segments: Seq::empty() }
            } else {
                PathModel { root: FIXED_WINDOWS_ROOT@, segments: Seq::empty() }
            }
        } else {
            PathModel { root: "dev"@, segments: Seq::empty() }.join("vexter_runtime"@)
        },
    }
}

/// The root that the run reports: the configured one, else the fixed one.
pub open spec fn runtime_root_for(configured: Option<Seq<char>>) -> Seq<char> {
    match configured {
        Some(root) => root,
        None => FIXED_WINDOWS_ROOT@,
    }
}

impl LayoutModel {
    /// The layout under an output root.
    pub open spec fn under(output_root: PathModel, runtime_root: Seq<char>) -> LayoutModel {
        LayoutModel {
            output_root,
            runtime_root,
            config_dir: output_root.join("runtime"@).join("mewx"@).join("config"@),
            export_dir: output_root.join("runtime"@).join("mewx"@).join("export"@),
            raw_dir: output_root.join("data"@).join("raw"@).join("mewx"@),
            logs_dir: output_root.join("data"@).join("logs"@).join("mewx"@),
            replays_dir: output_root.join("data"@).join("replays"@).join("mewx"@),
            db_dir: output_root.join("data"@).join("postgres"@).join("mewx"@),
        }
    }

    /// The directories that have to exist, in the order in which they are created.
    pub open spec fn directories(self) -> Seq<PathModel> {
        seq![
            self.config_dir,
            self.export_dir,
            self.raw_dir,
            self.logs_dir,
            self.replays_dir,
            self.db_dir,
        ]
    }

    /// How the run describes its directories, in Windows notation below the reported root.
    pub open spec fn metadata(self) -> JsonModel {
        JsonModel::Object(
            map![
                "runtime_root"@ => JsonModel::Str(self.runtime_root),
                "config_dir"@ => JsonModel::Str(self.runtime_root + "\\runtime\\mewx\\config"@),
                "export_dir"@ => JsonModel::Str(self.runtime_root + "\\runtime\\mewx\\export"@),
                "raw_events_dir"@ => JsonModel::Str(self.runtime_root + "\\data\\raw\\mewx"@),
                "logs_dir"@ => JsonModel::Str(self.runtime_root + "\\data\\logs\\mewx"@),
                "replays_dir"@ => JsonModel::Str(self.runtime_root + "\\data\\replays\\mewx"@),
                "db_exports_dir"@ => JsonModel::Str(self.runtime_root + "\\data\\postgres\\mewx"@),
            ],
        )
    }
}

impl RuntimeLayout {
    /// The layout as a mathematical value.
    pub open spec fn model(self) -> LayoutModel {
        LayoutModel {
            output_root: self.output_root.model(),
            runtime_root: self.runtime_root@,
            config_dir: self.config_dir.model(),
            export_dir: self.export_dir.model(),
            raw_dir: self.raw_dir.model(),
            logs_dir: self.logs_dir.model(),
            replays_dir: self.replays_dir.model(),
            db_dir: self.db_dir.model(),
        }
    }

    /// The layout that the surroundings of the process ask for.
    pub fn new(env: &LayoutEnvironment) -> (layout: RuntimeLayout)
        ensures
            layout.model() == LayoutModel::under(
                output_root_for(
                    crate::text::option_view(env.output_root),
                    env.windows,
                    env.preferred_root_exists,
                ),
                runtime_root_for(crate::text::option_view(env.runtime_root)),
            ),
    {
        let runtime_root = match &env.runtime_root {
            Some(root) => root.clone(),
            None => FIXED_WINDOWS_ROOT.to_owned(),
        };
        let output_root = match &env.output_root {
            Some(root) => RuntimePath::from_root(root.as_str()),
            None => if env.windows {
                if env.preferred_root_exists {
                    RuntimePath::from_root(PREFERRED_WINDOWS_ROOT)
                } else {
                    RuntimePath::from_root(FIXED_WINDOWS_ROOT)
                }
            } else {
                RuntimePath::from_root("dev").join("vexter_runtime")
            },
        };
        RuntimeLayout {
            config_dir: output_root.join("runtime").join("mewx").join("config"),
            export_dir: output_root.join("runtime").join("mewx").join("export"),
            raw_dir: output_root.join("data").join("raw").join("mewx"),
            logs_dir: output_root.join("data").join("logs").join("mewx"),
            replays_dir: output_root.join("data").join("replays").join("mewx"),
            db_dir: output_root.join("data").join("postgres").join("mewx"),
            output_root,
            runtime_root,
        }
    }

    /// The directories that have to exist, in the order in which they are created.
    pub fn ensure(&self) -> (dirs: Vec<RuntimePath>)
        ensures
            crate::paths::paths_view(dirs@) == self.model().directories(),
    {
        let mut dirs: Vec<RuntimePath> = Vec::new();
        dirs.push(self.config_dir.copy());
        dirs.push(self.export_dir.copy());
        dirs.push(self.raw_dir.copy());
        dirs.push(self.logs_dir.copy());
        dirs.push(self.replays_dir.copy());
        dirs.push(self.db_dir.copy());
        assert(crate::paths::paths_view(dirs@) =~= self.model().directories());
        dirs
    }

    fn below_root(&self, tail: &str) -> (text: Json)
        ensures
            text.model() == JsonModel::Str(self.runtime_root@ + tail@),
    {
        Json::Str(join2(self.runtime_root.as_str(), tail))
    }

    /// How the run describes its directories.
    pub fn metadata(&self) -> (document: Json)
        ensures
            document.model() == self.model().metadata(),
    {
        let mut o = ObjectBuilder::new();
        o.put("runtime_root", json_str(self.runtime_root.as_str()));
        o.put("config_dir", self.below_root("\\runtime\\mewx\\config"));
        o.put("export_dir", self.below_root("\\runtime\\mewx\\export"));
        o.put("raw_events_dir", self.below_root("\\data\\raw\\mewx"));
        o.put("logs_dir", self.below_root("\\data\\logs\\mewx"));
        o.put("replays_dir", self.below_root("\\data\\replays\\mewx"));
        o.put("db_exports_dir", self.below_root("\\data\\postgres\\mewx"));
        o.build()
    }
}

impl Clone for RuntimeLayout {
    fn clone(&self) -> (layout: Self)
        ensures
            layout.model() == self.model(),
    {
        RuntimeLayout {
            output_root: self.output_root.copy(),
            runtime_root: self.runtime_root.clone(),
            config_dir: self.config_dir.copy(),
            export_dir: self.export_dir.copy(),
            raw_dir: self.raw_dir.copy(),
            logs_dir: self.logs_dir.copy(),
            replays_dir: self.replays_dir.copy(),
            db_dir: self.db_dir.copy(),
        }
    }
}

/// Every directory of a layout lies below its output root, and no two are the same.
pub proof fn directories_are_apart(output_root: PathModel, runtime_root: Seq<char>, i: int, j: int)
    requires
        0 <= i < j < 6,
    ensures
        LayoutModel::under(output_root, runtime_root).directories().len() == 6,
        below(LayoutModel::under(output_root, runtime_root).directories()[i], output_root),
        below(LayoutModel::under(output_root, runtime_root).directories()[j], output_root),
        LayoutModel::under(output_root, runtime_root).directories()[i] != LayoutModel::under(
            output_root,
            runtime_root,
        ).directories()[j],
{
    reveal_strlit("runtime");
    reveal_strlit("mewx");
    reveal_strlit("config");
    reveal_strlit("export");
    reveal_strlit("data");
    reveal_strlit("raw");
    reveal_strlit("logs");
    reveal_strlit("replays");
    reveal_strlit("postgres");
    let n = output_root.segments.len() as int;
    let dirs = LayoutModel::under(output_root, runtime_root).directories();
    assert("config"@[0] == 'c' && "export"@[0] == 'e');
    assert("runtime"@.len() == 7 && "data"@.len() == 4);
    assert("raw"@.len() == 3 && "logs"@.len() == 4 && "replays"@.len() == 7 && "postgres"@.len()
        == 8);
    assert(dirs[0].segments[n] == "runtime"@ && dirs[0].segments[n + 2] == "config"@);
    assert(dirs[1].segments[n] == "runtime"@ && dirs[1].segments[n + 2] == "export"@);
    assert(dirs[2].segments[n] == "data"@ && dirs[2].segments[n + 1] == "raw"@);
    assert(dirs[3].segments[n] == "data"@ && dirs[3].segments[n + 1] == "logs"@);
    assert(dirs[4].segments[n] == "data"@ && dirs[4].segments[n + 1] == "replays"@);
    assert(dirs[5].segments[n] == "data"@ && dirs[5].segments[n + 1] == "postgres"@);
    assert(dirs[i].segments.take(n) =~= output_root.segments);
    assert(dirs[j].segments.take(n) =~= output_root.segments);
}

/// Whether a path was made by joining segments to another one.
pub open spec fn below(path: PathModel, base: PathModel) -> bool {
    &&& path.root == base.root
    &&& path.segments.len() > base.segments.len()
    &&& path.segments.take(base.segments.len() as int) == base.segments
}

} // verus!
