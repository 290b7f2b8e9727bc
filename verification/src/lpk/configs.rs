//! What the configuration texts of an archive say, as plain values.

use vstd::prelude::*;

verus! {

/// The configuration that comes beside a workshop archive.
#[derive(Debug, PartialEq)]
pub struct LpkConfig {
    pub lpk_file: String,
    pub file: String,
    pub preview_file: String,
    pub file_id: String,
    pub kind: i64,
    pub stereo_mode: i64,
    pub title: String,
    pub author: String,
    pub description: String,
    pub meta_data: String,
    pub key: Option<String>,
}

/// The manifest of an archive.
#[derive(Debug, PartialEq)]
pub struct MLveConfig {
    /// The type of the archive, such as `STD2_0`.
    pub kind: String,
    pub name: String,
    pub id: String,
    pub encrypt: String,
    pub version: String,
    pub list: Vec<LpkCharacter>,
}

/// One costume of a character.
#[derive(Debug, PartialEq)]
pub struct LpkCostume {
    pub name: String,
    pub path: String,
}

/// One character of an archive.
#[derive(Debug, PartialEq)]
pub struct LpkCharacter {
    pub id: String,
    pub character: String,
    pub avatar: String,
    pub costume: Vec<LpkCostume>,
}

/// An expression of a model.
#[derive(Debug, PartialEq)]
pub struct Live2DExpression {
    pub name: String,
    pub file: String,
}

/// A motion that a tap starts.
#[derive(Debug, PartialEq)]
pub struct Live2dTapMotion {
    pub file: String,
}

/// The motions of a model.
#[derive(Debug, PartialEq)]
pub struct Live2dMotions {
    pub tap: Vec<Live2dTapMotion>,
}

/// The description of a model.
#[derive(Debug, PartialEq)]
pub struct Live2dConfig {
    pub version: String,
    pub model: String,
    pub textures: Vec<String>,
    pub motions: Live2dMotions,
    pub expressions: Vec<Live2DExpression>,
    pub physics: String,
}

impl LpkConfig {
    /// Every text of the configuration is empty, its numbers are 0, and it
    /// has no key.
    pub open spec fn is_blank(&self) -> bool {
        &&& self.lpk_file@.len() == 0
        &&& self.file@.len() == 0
        &&& self.preview_file@.len() == 0
        &&& self.file_id@.len() == 0
        &&& self.kind == 0
        &&& self.stereo_mode == 0
        &&& self.title@.len() == 0
        &&& self.author@.len() == 0
        &&& self.description@.len() == 0
        &&& self.meta_data@.len() == 0
        &&& self.key is None
    }
}

impl Default for LpkConfig {
    fn default() -> (config: LpkConfig)
        ensures
            config.is_blank(),
    {
        LpkConfig {
            lpk_file: String::new(),
            file: String::new(),
            preview_file: String::new(),
            file_id: String::new(),
            kind: 0,
            stereo_mode: 0,
            title: String::new(),
            author: String::new(),
            description: String::new(),
            meta_data: String::new(),
            key: None,
        }
    }
}

impl Default for MLveConfig {
    fn default() -> (config: MLveConfig)
        ensures
            config.kind@.len() == 0,
            config.name@.len() == 0,
            config.id@.len() == 0,
            config.encrypt@.len() == 0,
            config.version@.len() == 0,
            config.list@.len() == 0,
    {
        MLveConfig {
            kind: String::new(),
            name: String::new(),
            id: String::new(),
            encrypt: String::new(),
            version: String::new(),
            list: Vec::new(),
        }
    }
}

impl Default for Live2dMotions {
    fn default() -> (motions: Live2dMotions)
        ensures
            motions.tap@.len() == 0,
    {
        Live2dMotions { tap: Vec::new() }
    }
}

} // verus!
