//! Failures the client side can report.

use vstd::prelude::*;
use vstd::string::StringExecFns;

verus! {

/// What went wrong on the client.
#[derive(Debug)]
pub enum RustLibError {
    /// The store transport reported a failure; holds its message.
    SpacetimeSDK(String),
    /// An operation was called in a session state that does not allow it.
    WrongConnectionState(String),
    /// The world snapshot lacks something bootstrap needs.
    WorldSetup(String),
    /// A scene resource could not be loaded; holds its path.
    ResourceLoadError(String),
    /// A resource was not of the expected class; holds its path and the class.
    ResourceCastError(String, String),
    /// A loaded scene could not be instantiated; holds its path.
    ResourceInstantiateError(String),
}

/// The step at which showing a scene resource failed.
#[derive(Clone, Copy, Debug, PartialEq, Eq, Structural)]
pub enum SpawnStage {
    /// The resource could not be loaded.
    Load,
    /// The resource is not a packed scene.
    CastScene,
    /// The scene could not be instantiated.
    Instantiate,
    /// The instance is not of the class of the node.
    CastNode,
}

impl RustLibError {
    /// The failure to report when showing the scene at `scene_path` as a
    /// node of class `node_class` failed at `stage`.
    pub fn spawn_error(stage: SpawnStage, scene_path: &str, node_class: &str) -> (error:
        RustLibError)
        ensures
            match stage {
                SpawnStage::Load => error matches RustLibError::ResourceLoadError(path) && path@
                    == scene_path@,
                SpawnStage::CastScene => error matches RustLibError::ResourceCastError(path, class)
                    && path@ == scene_path@ && class@ == "PackedScene"@,
                SpawnStage::Instantiate => error
                    matches RustLibError::ResourceInstantiateError(path) && path@ == scene_path@,
                SpawnStage::CastNode => error matches RustLibError::ResourceCastError(path, class)
                    && path@ == scene_path@ && class@ == node_class@,
            },
    {
        match stage {
            SpawnStage::Load => RustLibError::ResourceLoadError(String::from_str(scene_path)),
            SpawnStage::CastScene => RustLibError::ResourceCastError(
                String::from_str(scene_path),
                String::from_str("PackedScene"),
            ),
            SpawnStage::Instantiate => RustLibError::ResourceInstantiateError(
                String::from_str(scene_path),
            ),
            SpawnStage::CastNode => RustLibError::ResourceCastError(
                String::from_str(scene_path),
                String::from_str(node_class),
            ),
        }
    }

    /// The text of the message, as a sequence of characters.
    pub open spec fn message_spec(self) -> Seq<char> {
        match self {
            RustLibError::SpacetimeSDK(source) => "error with spacetime-db sdk: "@ + source@,
            RustLibError::WrongConnectionState(state) => "reached wrong connection state: "@
                + state@,
            RustLibError::WorldSetup(what) => "encountered incomplete world setup: "@ + what@,
            RustLibError::ResourceLoadError(path) => "resource load error: "@ + path@,
            RustLibError::ResourceCastError(path, class) => "resource cast error: "@ + path@
                + " to "@ + class@,
            RustLibError::ResourceInstantiateError(path) => "resource instantiate error: "@
                + path@,
        }
    }

    /// The message to show or log for this error.
    pub fn message(&self) -> (text: String)
        ensures
            text@ == self.message_spec(),
    {
        match self {
            RustLibError::SpacetimeSDK(source) => String::from_str(
                "error with spacetime-db sdk: ",
            ).concat(source.as_str()),
            RustLibError::WrongConnectionState(state) => String::from_str(
                "reached wrong connection state: ",
            ).concat(state.as_str()),
            RustLibError::WorldSetup(what) => String::from_str(
                "encountered incomplete world setup: ",
            ).concat(what.as_str()),
            RustLibError::ResourceLoadError(path) => String::from_str(
                "resource load error: ",
            ).concat(path.as_str()),
            RustLibError::ResourceCastError(path, class) => String::from_str(
                "resource cast error: ",
            ).concat(path.as_str()).concat(" to ").concat(class.as_str()),
            RustLibError::ResourceInstantiateError(path) => String::from_str(
                "resource instantiate error: ",
            ).concat(path.as_str()),
        }
    }
}

} // verus!
