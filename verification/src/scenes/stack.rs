//! The scene-stack vocabulary LastBeacon speaks: where a scene comes from,
//! how it is presented, and the commands the scene stack accepts.
use vstd::prelude::*;

verus! {

/// Where a scene-stack entry's content comes from.
#[derive(Clone, Debug, PartialEq, Eq)]
pub enum SceneSource {
    /// A `.bsn` asset scene, by its registered scene key.
    BsnScene { key: String },
    /// A runtime-driven scene, by its runtime key.
    Runtime { key: String },
}

/// The mathematical form of [`SceneSource`].
pub ghost enum SceneSourceModel {
    BsnScene(Seq<char>),
    Runtime(Seq<char>),
}

impl View for SceneSource {
    type V = SceneSourceModel;

    open spec fn view(&self) -> SceneSourceModel {
        match self {
            SceneSource::BsnScene { key } => SceneSourceModel::BsnScene(key@),
            SceneSource::Runtime { key } => SceneSourceModel::Runtime(key@),
        }
    }
}

/// The key of a scene source, whichever kind it is.
pub open spec fn source_key(source: SceneSourceModel) -> Seq<char> {
    match source {
        SceneSourceModel::BsnScene(key) => key,
        SceneSourceModel::Runtime(key) => key,
    }
}

impl SceneSource {
    /// The `.bsn` asset scene registered under `key`.
    pub fn bsn_scene(key: &str) -> (r: SceneSource)
        ensures
            r@ == SceneSourceModel::BsnScene(key@),
    {
        SceneSource::BsnScene { key: key.to_owned() }
    }

    /// The runtime-driven scene with key `key`.
    pub fn runtime(key: &str) -> (r: SceneSource)
        ensures
            r@ == SceneSourceModel::Runtime(key@),
    {
        SceneSource::Runtime { key: key.to_owned() }
    }
}

/// The key of a scene source, whichever kind it is.
pub fn scene_source_key(scene_source: &SceneSource) -> (r: String)
    ensures
        r@ == source_key(scene_source@),
{
    match scene_source {
        SceneSource::BsnScene { key } => key.clone(),
        SceneSource::Runtime { key } => key.clone(),
    }
}

/// How an opened scene is layered over the rest of the stack.
#[derive(Clone, Copy, Debug, PartialEq, Eq, Structural)]
pub enum ScenePresentation {
    /// Replaces everything beneath it on screen.
    Fullscreen,
    /// Drawn over the scenes beneath it, which stop receiving input.
    InputBlockingOverlay,
    /// Drawn over the scenes beneath it, which keep receiving input.
    NonBlockingOverlay,
    /// Drawn over paused gameplay.
    PauseOverlay,
}

/// Options for opening a scene: an optional stack key and an optional
/// presentation (`None` leaves the scene stack's default).
#[derive(Clone, Debug, PartialEq, Eq)]
pub struct OpenSceneOptions {
    pub key: Option<String>,
    pub presentation: Option<ScenePresentation>,
}

/// The mathematical form of [`OpenSceneOptions`].
pub ghost struct OpenSceneOptionsModel {
    pub key: Option<Seq<char>>,
    pub presentation: Option<ScenePresentation>,
}

impl View for OpenSceneOptions {
    type V = OpenSceneOptionsModel;

    open spec fn view(&self) -> OpenSceneOptionsModel {
        OpenSceneOptionsModel {
            key: match self.key {
                Some(k) => Some(k@),
                None => None,
            },
            presentation: self.presentation,
        }
    }
}

impl OpenSceneOptions {
    /// No stack key and the default presentation.
    pub fn new() -> (r: OpenSceneOptions)
        ensures
            r@ == (OpenSceneOptionsModel { key: None, presentation: None }),
    {
        OpenSceneOptions { key: None, presentation: None }
    }

    /// These options with stack key `key`.
    pub fn with_key(self, key: &str) -> (r: OpenSceneOptions)
        ensures
            r@ == (OpenSceneOptionsModel { key: Some(key@), presentation: self@.presentation }),
    {
        OpenSceneOptions { key: Some(key.to_owned()), presentation: self.presentation }
    }

    /// These options with presentation `presentation`.
    pub fn with_presentation(self, presentation: ScenePresentation) -> (r: OpenSceneOptions)
        ensures
            r@ == (OpenSceneOptionsModel { key: self@.key, presentation: Some(presentation) }),
    {
        OpenSceneOptions { key: self.key, presentation: Some(presentation) }
    }
}

/// Which stack entry a close command addresses.
#[derive(Clone, Debug, PartialEq, Eq)]
pub enum SceneTarget {
    /// The entry with this scene id.
    Id(u64),
    /// The entry opened under this stack key.
    Key(String),
}

/// The mathematical form of [`SceneTarget`].
pub ghost enum SceneTargetModel {
    Id(u64),
    Key(Seq<char>),
}

impl View for SceneTarget {
    type V = SceneTargetModel;

    open spec fn view(&self) -> SceneTargetModel {
        match self {
            SceneTarget::Id(id) => SceneTargetModel::Id(*id),
            SceneTarget::Key(key) => SceneTargetModel::Key(key@),
        }
    }
}

/// A request to the scene stack.
#[derive(Clone, Debug, PartialEq, Eq)]
pub enum SceneCommand {
    /// Closes every entry.
    Clear,
    /// Opens `source` with `options`.
    Open { source: SceneSource, options: OpenSceneOptions },
    /// Closes the addressed entry.
    Close(SceneTarget),
    /// Closes every entry, then opens `source`.
    ClearAndOpen(SceneSource),
    /// Starts preparing `source` ahead of its first use.
    Preload(SceneSource),
}

/// The mathematical form of [`SceneCommand`].
pub ghost enum SceneCommandModel {
    Clear,
    Open { source: SceneSourceModel, options: OpenSceneOptionsModel },
    Close(SceneTargetModel),
    ClearAndOpen(SceneSourceModel),
    Preload(SceneSourceModel),
}

impl View for SceneCommand {
    type V = SceneCommandModel;

    open spec fn view(&self) -> SceneCommandModel {
        match self {
            SceneCommand::Clear => SceneCommandModel::Clear,
            SceneCommand::Open { source, options } => SceneCommandModel::Open {
                source: source@,
                options: options@,
            },
            SceneCommand::Close(target) => SceneCommandModel::Close(target@),
            SceneCommand::ClearAndOpen(source) => SceneCommandModel::ClearAndOpen(source@),
            SceneCommand::Preload(source) => SceneCommandModel::Preload(source@),
        }
    }
}

/// The mathematical form of a list of commands.
pub open spec fn commands_view(commands: Seq<SceneCommand>) -> Seq<SceneCommandModel> {
    commands.map_values(|c: SceneCommand| c@)
}

/// Appends `command` to `commands`.
pub fn push_command(commands: &mut Vec<SceneCommand>, command: SceneCommand)
    ensures
        commands_view(final(commands)@) == commands_view(old(commands)@).push(command@),
{
    commands.push(command);
    assert(commands_view(commands@) =~= commands_view(old(commands)@).push(command@));
}

/// Appends a copy of every command of `more` to `commands`, in order.
pub fn append_commands(commands: &mut Vec<SceneCommand>, more: &Vec<SceneCommand>)
    ensures
        commands_view(final(commands)@) == commands_view(old(commands)@) + commands_view(more@),
{
    let mut i: usize = 0;
    while i < more.len()
        invariant
            i <= more.len(),
            commands_view(commands@) == commands_view(old(commands)@) + commands_view(
                more@.take(i as int),
            ),
        decreases more.len() - i,
    {
        let c = more[i].clone_command();
        push_command(commands, c);
        i = i + 1;
        assert(commands_view(more@.take(i as int)) =~= commands_view(more@.take(i - 1)).push(
            more@[i - 1]@,
        ));
    }
    assert(more@.take(more.len() as int) =~= more@);
}

impl SceneSource {
    /// A copy of this source.
    pub fn clone_source(&self) -> (r: SceneSource)
        ensures
            r@ == self@,
    {
        match self {
            SceneSource::BsnScene { key } => SceneSource::BsnScene { key: key.clone() },
            SceneSource::Runtime { key } => SceneSource::Runtime { key: key.clone() },
        }
    }
}

impl OpenSceneOptions {
    /// A copy of these options.
    pub fn clone_options(&self) -> (r: OpenSceneOptions)
        ensures
            r@ == self@,
    {
        let key = match &self.key {
            Some(k) => Some(k.clone()),
            None => None,
        };
        OpenSceneOptions { key, presentation: self.presentation }
    }
}

impl SceneCommand {
    /// Opens `source` with `options`.
    pub fn open_with_options(source: SceneSource, options: OpenSceneOptions) -> (r: SceneCommand)
        ensures
            r@ == (SceneCommandModel::Open { source: source@, options: options@ }),
    {
        SceneCommand::Open { source, options }
    }

    /// Closes every entry, then opens `source`.
    pub fn clear_and_open(source: SceneSource) -> (r: SceneCommand)
        ensures
            r@ == SceneCommandModel::ClearAndOpen(source@),
    {
        SceneCommand::ClearAndOpen(source)
    }

    /// Starts preparing `source`.
    pub fn preload(source: SceneSource) -> (r: SceneCommand)
        ensures
            r@ == SceneCommandModel::Preload(source@),
    {
        SceneCommand::Preload(source)
    }

    /// A copy of this command.
    pub fn clone_command(&self) -> (r: SceneCommand)
        ensures
            r@ == self@,
    {
        match self {
            SceneCommand::Clear => SceneCommand::Clear,
            SceneCommand::Open { source, options } => SceneCommand::Open {
                source: source.clone_source(),
                options: options.clone_options(),
            },
            SceneCommand::Close(SceneTarget::Id(id)) => SceneCommand::Close(SceneTarget::Id(*id)),
            SceneCommand::Close(SceneTarget::Key(key)) => SceneCommand::Close(
                SceneTarget::Key(key.clone()),
            ),
            SceneCommand::ClearAndOpen(source) => SceneCommand::ClearAndOpen(source.clone_source()),
            SceneCommand::Preload(source) => SceneCommand::Preload(source.clone_source()),
        }
    }
}

} // verus!
