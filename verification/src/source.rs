//! A file as the library receives it: the path it was asked for by, and what
//! reading it gave.

use vstd::prelude::*;

verus! {

/// A file that was asked for by `path`. `content` is the text that reading it
/// gave, or the description of why it could not be read.
#[derive(Debug)]
pub struct Source {
    pub path: String,
    pub content: Result<String, String>,
}

/// A `Source` by the text it carries.
pub struct SourceView {
    pub path: Seq<char>,
    pub content: Result<Seq<char>, Seq<char>>,
}

impl View for Source {
    type V = SourceView;

    open spec fn view(&self) -> SourceView {
        SourceView {
            path: self.path@,
            content: match self.content {
                Ok(text) => Ok(text@),
                Err(why) => Err(why@),
            },
        }
    }
}

impl DeepView for Source {
    type V = SourceView;

    open spec fn deep_view(&self) -> SourceView {
        self@
    }
}

} // verus!
