//! The configuration file that the target engine reads for a character model.

use vstd::prelude::*;
use vstd::string::*;

use crate::models::bestdori;
use crate::utils::{maybe_strip_suffix, strip_suffix};

verus! {

/// The version that every configuration declares.
pub const WEBGAL_LIVE2D_VERSION: &'static str = "Sample 1.0.0";

/// The file name of a model's configuration, inside the model's directory.
pub const WEBGAL_LIVE2D_CONFIG: &'static str = "model.json";

/// Where the mesh of a model lands, inside the model's directory.
pub const WEBGAL_LIVE2D_MODEL: &'static str = "model.moc";

/// Where the physics of a model lands, inside the model's directory.
pub const WEBGAL_LIVE2D_PHYSICS: &'static str = "physics.json";

/// The directory of a model's textures.
pub const WEBGAL_LIVE2D_TEXTURES: &'static str = "textures/";

/// The directory of a model's motions.
pub const WEBGAL_LIVE2D_MOTIONS: &'static str = "motions/";

/// The directory of a model's expressions.
pub const WEBGAL_LIVE2D_EXPRESSIONS: &'static str = "expressions/";

/// The path of a model's configuration file, for a model directory `root`.
pub open spec fn model_config_path(root: Seq<char>) -> Seq<char> {
    root + WEBGAL_LIVE2D_CONFIG@
}

/// The path of a model's configuration file, for a model directory `root`.
pub fn default_model_config_path(root: &str) -> (path: String)
    ensures
        path@ == model_config_path(root@),
{
    let mut path = String::from_str(root);
    path.append(WEBGAL_LIVE2D_CONFIG);
    path
}

/// Where a model stands on the stage.
#[derive(Debug, Clone, Copy, PartialEq, Eq, Structural)]
pub struct Layout {
    pub x: i16,
    pub y: i16,
    pub width: i16,
}

impl Default for Layout {
    fn default() -> (layout: Self)
        ensures
            layout == (Layout { x: 0, y: 0, width: 2 }),
    {
        Layout { x: 0, y: 0, width: 2 }
    }
}

/// One motion file of a motion group.
#[derive(Debug, PartialEq, Eq)]
pub struct Motion {
    pub file: String,
}

/// A named expression and its file.
#[derive(Debug, PartialEq, Eq)]
pub struct Expression {
    pub name: String,
    pub file: String,
}

/// The mathematical value of an [`Expression`].
pub struct ExpressionView {
    pub name: Seq<char>,
    pub file: Seq<char>,
}

impl View for Expression {
    type V = ExpressionView;

    open spec fn view(&self) -> ExpressionView {
        ExpressionView { name: self.name@, file: self.file@ }
    }
}

/// The configuration of a character model.
#[derive(Debug, PartialEq, Eq)]
pub struct Model {
    pub version: String,
    pub layout: Layout,
    pub model: String,
    pub physics: String,
    pub textures: Vec<String>,
    pub motions: Vec<(String, Vec<Motion>)>,
    pub expressions: Vec<Expression>,
}

/// The mathematical value of a [`Model`]. A motion group is its name and the
/// files of its motions.
pub struct ModelView {
    pub version: Seq<char>,
    pub layout: Layout,
    pub model: Seq<char>,
    pub physics: Seq<char>,
    pub textures: Seq<Seq<char>>,
    pub motions: Seq<(Seq<char>, Seq<Seq<char>>)>,
    pub expressions: Seq<ExpressionView>,
}

impl View for Model {
    type V = ModelView;

    open spec fn view(&self) -> ModelView {
        ModelView {
            version: self.version@,
            layout: self.layout,
            model: self.model@,
            physics: self.physics@,
            textures: self.textures@.map_values(|t: String| t@),
            motions: self.motions@.map_values(
                |group: (String, Vec<Motion>)|
                    (group.0@, group.1@.map_values(|motion: Motion| motion.file@)),
            ),
            expressions: self.expressions@.map_values(|e: Expression| e@),
        }
    }
}

impl Default for Model {
    fn default() -> (model: Self)
        ensures
            model@ == (ModelView {
                version: WEBGAL_LIVE2D_VERSION@,
                layout: Layout { x: 0, y: 0, width: 2 },
                model: WEBGAL_LIVE2D_MODEL@,
                physics: WEBGAL_LIVE2D_PHYSICS@,
                textures: Seq::empty(),
                motions: Seq::empty(),
                expressions: Seq::empty(),
            }),
    {
        let model = Model {
            version: String::from_str(WEBGAL_LIVE2D_VERSION),
            layout: Layout::default(),
            model: String::from_str(WEBGAL_LIVE2D_MODEL),
            physics: String::from_str(WEBGAL_LIVE2D_PHYSICS),
            textures: Vec::new(),
            motions: Vec::new(),
            expressions: Vec::new(),
        };
        assert(model@.textures =~= Seq::empty());
        assert(model@.motions =~= Seq::empty());
        assert(model@.expressions =~= Seq::empty());
        model
    }
}

/// Where a texture lands, inside the model's directory.
pub open spec fn texture_path(t: bestdori::Live2dPathView) -> Seq<char> {
    WEBGAL_LIVE2D_TEXTURES@ + t.path()
}

/// The name of a motion: its file name without `.mtn.bytes`.
pub open spec fn motion_name(t: bestdori::Live2dPathView) -> Seq<char> {
    strip_suffix(t.file, ".mtn.bytes"@)
}

/// Where a motion lands, inside the model's directory.
pub open spec fn motion_path(t: bestdori::Live2dPathView) -> Seq<char> {
    WEBGAL_LIVE2D_MOTIONS@ + motion_name(t) + ".mtn"@
}

/// The name of an expression: its file name without `.exp.json`.
pub open spec fn expression_name(t: bestdori::Live2dPathView) -> Seq<char> {
    strip_suffix(t.file, ".exp.json"@)
}

/// Where an expression lands, inside the model's directory.
pub open spec fn expression_path(t: bestdori::Live2dPathView) -> Seq<char> {
    WEBGAL_LIVE2D_EXPRESSIONS@ + t.file
}

/// The configuration that is written for a manifest: the defaults, with the
/// textures, motions and expressions of the manifest at the places where they
/// land. A motion group holds one motion, named like the group.
pub open spec fn model_config(m: bestdori::ModelView) -> ModelView {
    ModelView {
        version: WEBGAL_LIVE2D_VERSION@,
        layout: Layout { x: 0, y: 0, width: 2 },
        model: WEBGAL_LIVE2D_MODEL@,
        physics: WEBGAL_LIVE2D_PHYSICS@,
        textures: m.textures.map_values(|t: bestdori::Live2dPathView| texture_path(t)),
        motions: m.motions.map_values(
            |t: bestdori::Live2dPathView| (motion_name(t), seq![motion_name(t)]),
        ),
        expressions: m.expessions.map_values(
            |t: bestdori::Live2dPathView|
                ExpressionView { name: expression_name(t), file: expression_path(t) },
        ),
    }
}

/// The files that are fetched for a manifest, each with its address and the
/// place where it lands inside the model's directory: mesh, physics, then the
/// textures, the motions and the expressions, in the order of the manifest.
pub open spec fn model_files(m: bestdori::ModelView) -> Seq<(Seq<char>, Seq<char>)> {
    seq![(m.model.url(), WEBGAL_LIVE2D_MODEL@), (m.physics.url(), WEBGAL_LIVE2D_PHYSICS@)]
        + m.textures.map_values(|t: bestdori::Live2dPathView| (t.url(), texture_path(t)))
        + m.motions.map_values(|t: bestdori::Live2dPathView| (t.url(), motion_path(t)))
        + m.expessions.map_values(|t: bestdori::Live2dPathView| (t.url(), expression_path(t)))
}

/// The mathematical value of a file to fetch: address and landing place.
pub open spec fn file_view(file: (String, String)) -> (Seq<char>, Seq<char>) {
    (file.0@, file.1@)
}

/// The mathematical value of a list of files to fetch.
pub open spec fn files_view(files: Seq<(String, String)>) -> Seq<(Seq<char>, Seq<char>)> {
    files.map_values(|f: (String, String)| file_view(f))
}

impl Model {
    /// Reads a manifest of the source platform: what configuration to write,
    /// and which files to fetch to which place.
    pub fn from_bestdori_model(model: bestdori::Model) -> (r: (Self, Vec<(String, String)>))
        ensures
            r.0@ == model_config(model@),
            files_view(r.1@) == model_files(model@),
    {
        let ghost m = model@;
        let mut res: Vec<(String, String)> = Vec::new();
        res.push((model.model.url(), String::from_str(WEBGAL_LIVE2D_MODEL)));
        res.push((model.physics.url(), String::from_str(WEBGAL_LIVE2D_PHYSICS)));

        let mut textures: Vec<String> = Vec::new();
        let mut i: usize = 0;
        while i < model.textures.len()
            invariant
                i <= model.textures@.len(),
                m == model@,
                textures@.len() == i,
                res@.len() == 2 + i,
                file_view(res@[0]) == (m.model.url(), WEBGAL_LIVE2D_MODEL@),
                file_view(res@[1]) == (m.physics.url(), WEBGAL_LIVE2D_PHYSICS@),
                forall|j: int| 0 <= j < i ==> (#[trigger] textures@[j])@ == texture_path(m.textures[j]),
                forall|k: int|
                    2 <= k < 2 + i ==> file_view(#[trigger] res@[k]) == (
                        m.textures[k - 2].url(),
                        texture_path(m.textures[k - 2]),
                    ),
            decreases model.textures@.len() - i,
        {
            let url = &model.textures[i];
            let mut path = String::from_str(WEBGAL_LIVE2D_TEXTURES);
            let tail = url.path();
            path.append(tail.as_str());
            res.push((url.url(), path.clone()));
            textures.push(path);
            i += 1;
        }
        let ghost n_textures = model.textures@.len();

        let mut motions: Vec<(String, Vec<Motion>)> = Vec::new();
        let mut i: usize = 0;
        while i < model.motions.len()
            invariant
                i <= model.motions@.len(),
                m == model@,
                n_textures == m.textures.len(),
                motions@.len() == i,
                res@.len() == 2 + n_textures + i,
                file_view(res@[0]) == (m.model.url(), WEBGAL_LIVE2D_MODEL@),
                file_view(res@[1]) == (m.physics.url(), WEBGAL_LIVE2D_PHYSICS@),
                forall|k: int|
                    2 <= k < 2 + n_textures ==> file_view(#[trigger] res@[k]) == (
                        m.textures[k - 2].url(),
                        texture_path(m.textures[k - 2]),
                    ),
                forall|j: int|
                    0 <= j < i ==> (#[trigger] motions@[j]).0@ == motion_name(m.motions[j])
                        && motions@[j].1@.len() == 1 && motions@[j].1@[0].file@ == motion_name(
                        m.motions[j],
                    ),
                forall|k: int|
                    2 + n_textures <= k < 2 + n_textures + i ==> file_view(#[trigger] res@[k]) == (
                        m.motions[k - 2 - n_textures].url(),
                        motion_path(m.motions[k - 2 - n_textures]),
                    ),
            decreases model.motions@.len() - i,
        {
            let url = &model.motions[i];
            let file = maybe_strip_suffix(url.file.as_str(), ".mtn.bytes");
            let mut path = String::from_str(WEBGAL_LIVE2D_MOTIONS);
            path.append(file);
            path.append(".mtn");
            res.push((url.url(), path));
            let mut group: Vec<Motion> = Vec::new();
            group.push(Motion { file: String::from_str(file) });
            motions.push((String::from_str(file), group));
            i += 1;
        }
        let ghost n_motions = model.motions@.len();

        let mut expressions: Vec<Expression> = Vec::new();
        let mut i: usize = 0;
        while i < model.expessions.len()
            invariant
                i <= model.expessions@.len(),
                m == model@,
                n_textures == m.textures.len(),
                n_motions == m.motions.len(),
                expressions@.len() == i,
                res@.len() == 2 + n_textures + n_motions + i,
                file_view(res@[0]) == (m.model.url(), WEBGAL_LIVE2D_MODEL@),
                file_view(res@[1]) == (m.physics.url(), WEBGAL_LIVE2D_PHYSICS@),
                forall|k: int|
                    2 <= k < 2 + n_textures ==> file_view(#[trigger] res@[k]) == (
                        m.textures[k - 2].url(),
                        texture_path(m.textures[k - 2]),
                    ),
                forall|k: int|
                    2 + n_textures <= k < 2 + n_textures + n_motions ==> file_view(
                        #[trigger] res@[k],
                    ) == (
                        m.motions[k - 2 - n_textures].url(),
                        motion_path(m.motions[k - 2 - n_textures]),
                    ),
                forall|j: int|
                    0 <= j < i ==> (#[trigger] expressions@[j])@ == (ExpressionView {
                        name: expression_name(m.expessions[j]),
                        file: expression_path(m.expessions[j]),
                    }),
                forall|k: int|
                    2 + n_textures + n_motions <= k < 2 + n_textures + n_motions + i ==> file_view(
                        #[trigger] res@[k],
                    ) == (
                        m.expessions[k - 2 - n_textures - n_motions].url(),
                        expression_path(m.expessions[k - 2 - n_textures - n_motions]),
                    ),
            decreases model.expessions@.len() - i,
        {
            let url = &model.expessions[i];
            let file = maybe_strip_suffix(url.file.as_str(), ".exp.json");
            let mut path = String::from_str(WEBGAL_LIVE2D_EXPRESSIONS);
            path.append(url.file.as_str());
            res.push((url.url(), path.clone()));
            expressions.push(Expression { name: String::from_str(file), file: path });
            i += 1;
        }

        let config = Model {
            version: String::from_str(WEBGAL_LIVE2D_VERSION),
            layout: Layout::default(),
            model: String::from_str(WEBGAL_LIVE2D_MODEL),
            physics: String::from_str(WEBGAL_LIVE2D_PHYSICS),
            textures,
            motions,
            expressions,
        };
        proof {
            let want = model_config(m);
            assert(config@.textures =~= want.textures);
            assert(config@.motions =~= want.motions) by {
                assert forall|j: int| 0 <= j < config@.motions.len() implies config@.motions[j]
                    == want.motions[j] by {
                    assert(config.motions@[j].1@.map_values(|motion: Motion| motion.file@)
                        =~= seq![motion_name(m.motions[j])]);
                }
            }
            assert(config@.expressions =~= want.expressions);
            let files = model_files(m);
            assert(files_view(res@).len() == files.len());
            assert forall|k: int| 0 <= k < files.len() implies files_view(res@)[k] == files[k] by {
                assert(files_view(res@)[k] == file_view(res@[k]));
            }
            assert(files_view(res@) =~= files);
        }
        (config, res)
    }
}

} // verus!
