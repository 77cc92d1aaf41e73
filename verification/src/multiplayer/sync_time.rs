//! The clock that the animations of a scene run by.

use crate::errors::RustLibError;
use crate::identity::Timestamp;
use crate::server::elements::WorldScene;
use crate::server::setup::MAIN_SCENE_ID;
use crate::server::store::{find_scene, scene_index, scene_rows};
use vstd::prelude::*;
use vstd::string::StringExecFns;

verus! {

/// The time that has passed since the scene was created, in microseconds.
/// It is negative when the scene's clock is ahead of `now`.
pub fn get_diff_between_timestamps(world_scene: &WorldScene, now: Timestamp) -> (elapsed: i64)
    requires
        i64::MIN <= now.micros_since_unix_epoch
            - world_scene.creation_time.micros_since_unix_epoch <= i64::MAX,
    ensures
        elapsed == now.micros_since_unix_epoch
            - world_scene.creation_time.micros_since_unix_epoch,
{
    now.micros_since_unix_epoch - world_scene.creation_time.micros_since_unix_epoch
}

/// As [`get_diff_between_timestamps`], for any two times: nothing when the
/// difference is more than an `i64` holds.
pub fn checked_diff_between_timestamps(world_scene: &WorldScene, now: Timestamp) -> (elapsed:
    Option<i64>)
    ensures
        ({
            let difference = now.micros_since_unix_epoch
                - world_scene.creation_time.micros_since_unix_epoch;
            if i64::MIN <= difference <= i64::MAX {
                elapsed == Some(difference as i64)
            } else {
                elapsed is None
            }
        }),
{
    let difference: i128 = now.micros_since_unix_epoch as i128
        - world_scene.creation_time.micros_since_unix_epoch as i128;
    if difference < i64::MIN as i128 || difference > i64::MAX as i128 {
        None
    } else {
        Some(get_diff_between_timestamps(world_scene, now))
    }
}

/// The main scene among `scenes`.
pub fn get_world_scene(scenes: &Vec<WorldScene>) -> (result: Result<&WorldScene, RustLibError>)
    ensures
        match result {
            Ok(scene) => scene_index(scene_rows(scenes@), MAIN_SCENE_ID) is Some && *scene
                == scenes@[scene_index(scene_rows(scenes@), MAIN_SCENE_ID)->0],
            Err(error) => scene_index(scene_rows(scenes@), MAIN_SCENE_ID) is None && (error
                matches RustLibError::WorldSetup(what) && what@ == "No platforms found"@),
        },
{
    match find_scene(scenes, MAIN_SCENE_ID) {
        Some(scene_at) => Ok(&scenes[scene_at]),
        None => Err(RustLibError::WorldSetup(String::from_str("No platforms found"))),
    }
}

} // verus!
