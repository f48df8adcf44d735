//! The error taxonomy of the registry: lexicon errors, structural errors of
//! the two file formats, and the file-system errors the loading shell
//! reports through the same channel.

use vstd::prelude::*;

use crate::draw::DrawError;
use crate::emotion::EmotionError;
use crate::part::PartError;
use crate::posture::PostureError;
use crate::sheet::SheetError;
use crate::texel::TexelError;

verus! {

/// The possible failures of loading and mutating a `Graphic`.
#[derive(Clone, Debug, PartialEq)]
pub enum GraphicError {
    /// The loading shell could not read a sub-directory.
    ReadDir(String),
    /// The loading shell could not open a file.
    OpenFile(String),
    /// The loading shell could not read a file.
    ReadFile(String),
    /// The loading shell could not create the texel sub-directory.
    MkDirTexel(String),
    /// The loading shell could not create the sprite sub-directory.
    MkDirSprite(String),
    /// A posture name was rejected.
    Posture(PostureError),
    /// A frame could not be built.
    Draw(DrawError),
    /// An emotion name was rejected.
    Emotion(EmotionError),
    /// A texel could not be built.
    Texel(TexelError),
    /// A sprite file does not split into whole frame chunks, or a frame's
    /// duration token is not a number.
    SpriteSplitFirst(String),
    /// A part name was rejected.
    Part(PartError),
    /// A sheet name was rejected.
    Sheet(SheetError),
    /// The asset root could not be resolved.
    NekoPath,
    /// A glyph was missing where one was required.
    Glyph,
    /// A `Part:Emotion` pair of a sprite file has no texel registered under
    /// the file's posture.
    FoundTexel(String),
    /// A catalog line has no colon, or one of its two groups is empty.
    SyntaxTexel(String),
}

impl GraphicError {
    /// A short, fixed description of the error kind.
    pub fn description(&self) -> (r: &'static str)
        ensures
            r@ == spec_description(*self),
    {
        match *self {
            GraphicError::ReadDir(_) => "Can't read the sub-directory.",
            GraphicError::OpenFile(_) => "Can't open the file.",
            GraphicError::ReadFile(_) => "Can't read the file.",
            GraphicError::MkDirTexel(_) => "Can't create the texel sub-directory.",
            GraphicError::MkDirSprite(_) => "Can't create the sprite sub-directory.",
            GraphicError::Posture(_) => "The Posture interface has meet an error.",
            GraphicError::Draw(_) => "The Draw interface has meet an error.",
            GraphicError::Emotion(_) => "The Emotion interface has meet an error.",
            GraphicError::Texel(_) => "The Texel interface has meet an error.",
            GraphicError::SpriteSplitFirst(_) => "Can't split the chunk of sprite.",
            GraphicError::Part(_) => "The Part interface has meet an error.",
            GraphicError::Sheet(_) => "The Sheet interface has meet an error.",
            GraphicError::NekoPath => "Can't found the path of the asset root.",
            GraphicError::Glyph => "Can't found the glyph of texel.",
            GraphicError::FoundTexel(_) => "Can't found the texel.",
            GraphicError::SyntaxTexel(_) => "Unvalid texel syntax.",
        }
    }
}

/// The fixed description of each error kind.
pub open spec fn spec_description(e: GraphicError) -> Seq<char> {
    match e {
        GraphicError::ReadDir(_) => "Can't read the sub-directory."@,
        GraphicError::OpenFile(_) => "Can't open the file."@,
        GraphicError::ReadFile(_) => "Can't read the file."@,
        GraphicError::MkDirTexel(_) => "Can't create the texel sub-directory."@,
        GraphicError::MkDirSprite(_) => "Can't create the sprite sub-directory."@,
        GraphicError::Posture(_) => "The Posture interface has meet an error."@,
        GraphicError::Draw(_) => "The Draw interface has meet an error."@,
        GraphicError::Emotion(_) => "The Emotion interface has meet an error."@,
        GraphicError::Texel(_) => "The Texel interface has meet an error."@,
        GraphicError::SpriteSplitFirst(_) => "Can't split the chunk of sprite."@,
        GraphicError::Part(_) => "The Part interface has meet an error."@,
        GraphicError::Sheet(_) => "The Sheet interface has meet an error."@,
        GraphicError::NekoPath => "Can't found the path of the asset root."@,
        GraphicError::Glyph => "Can't found the glyph of texel."@,
        GraphicError::FoundTexel(_) => "Can't found the texel."@,
        GraphicError::SyntaxTexel(_) => "Unvalid texel syntax."@,
    }
}

} // verus!
