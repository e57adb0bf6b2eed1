//! What a shader file says about itself.

use vstd::prelude::*;

verus! {

/// The header of a shader file.
#[derive(Debug)]
pub struct ShaderMetadata {
    pub name: String,
    pub author: String,
    pub source: String,
    pub license: String,
}

impl Default for ShaderMetadata {
    fn default() -> (r: Self)
        ensures
            r.name@.len() == 0,
            r.author@.len() == 0,
            r.source@.len() == 0,
            r.license@.len() == 0,
    {
        ShaderMetadata {
            name: String::new(),
            author: String::new(),
            source: String::new(),
            license: String::new(),
        }
    }
}

impl Clone for ShaderMetadata {
    fn clone(&self) -> (r: Self)
        ensures
            r.name@ == self.name@,
            r.author@ == self.author@,
            r.source@ == self.source@,
            r.license@ == self.license@,
    {
        ShaderMetadata {
            name: self.name.clone(),
            author: self.author.clone(),
            source: self.source.clone(),
            license: self.license.clone(),
        }
    }
}

/// The type of a shader parameter.
#[derive(Debug, Clone, Copy, PartialEq, Eq, Structural)]
pub enum ParamType {
    F32,
    I32,
}

/// How much a shader asks of the graphics device.
#[derive(Debug, Clone, Copy, PartialEq, Eq, Structural)]
pub enum Complexity {
    Low,
    Medium,
    High,
}

impl Complexity {
    /// The name of the level, as it is shown.
    pub open spec fn name(self) -> Seq<char> {
        match self {
            Complexity::Low => "Low"@,
            Complexity::Medium => "Medium"@,
            Complexity::High => "High"@,
        }
    }

    /// The name of the level, as it is shown.
    pub fn as_str(&self) -> (r: &'static str)
        ensures
            r@ == self.name(),
    {
        match self {
            Complexity::Low => "Low",
            Complexity::Medium => "Medium",
            Complexity::High => "High",
        }
    }
}

} // verus!
