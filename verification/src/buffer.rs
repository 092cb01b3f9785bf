//! A text held as lines, as it was loaded.

use crate::line::{fragments_of, Fragment, Line};
use crate::text::{lines_of, split_lines};
use crate::unicode::graphemes_of;
use vstd::prelude::*;

verus! {

/// `std::io::Error`, which a failed read hands over. The library only
/// passes it on.
#[verifier::external_type_specification]
#[verifier::external_body]
pub struct ExIoError(std::io::Error);

/// The lines of a text, each as its fragments.
pub open spec fn buffer_of(text: Seq<char>) -> Seq<Seq<Fragment>> {
    lines_of(text).map_values(|line: Seq<char>| fragments_of(graphemes_of(line)))
}

/// The lines of a loaded text. Nothing changes them after the load.
pub struct Buffer {
    pub lines: Vec<Line>,
}

impl View for Buffer {
    type V = Seq<Seq<Fragment>>;

    open spec fn view(&self) -> Seq<Seq<Fragment>> {
        self.lines@.map_values(|line: Line| line@)
    }
}

impl Default for Buffer {
    fn default() -> (buffer: Self)
        ensures
            buffer@.len() == 0,
    {
        Buffer { lines: Vec::new() }
    }
}

impl Buffer {
    /// The buffer for what reading a file gave: the lines of its text, or
    /// the error of the read.
    pub fn load_file(content: Result<String, std::io::Error>) -> (loaded: Result<
        Buffer,
        std::io::Error,
    >)
        requires
            content matches Ok(text) ==> 2 * text@.len() <= usize::MAX,
        ensures
            match content {
                Ok(text) => loaded matches Ok(buffer) && buffer@ == buffer_of(text@)
                    && buffer@.len() <= text@.len(),
                Err(error) => loaded == Err::<Buffer, std::io::Error>(error),
            },
    {
        match content {
            Ok(text) => {
                let records = split_lines(text.as_str());
                let mut lines: Vec<Line> = Vec::new();
                let mut i: usize = 0;
                while i < records.len()
                    invariant
                        i <= records.len(),
                        lines.len() == i,
                        2 * text@.len() <= usize::MAX,
                        forall|j: int|
                            0 <= j < records.len() ==> (#[trigger] records[j])@.len()
                                <= text@.len(),
                        forall|j: int|
                            0 <= j < i ==> (#[trigger] lines[j])@ == fragments_of(
                                graphemes_of(records[j]@),
                            ),
                    decreases records.len() - i,
                {
                    lines.push(Line::from(records[i].as_str()));
                    i += 1;
                }
                Ok(Buffer { lines })
            },
            Err(error) => Err(error),
        }
    }

    /// Whether the buffer holds no line.
    pub fn is_empty(&self) -> (empty: bool)
        ensures
            empty == (self@.len() == 0),
    {
        self.lines.is_empty()
    }
}

} // verus!
