//! The error chain: an ordered, never-empty sequence of context frames,
//! newest attachment first.

use vstd::prelude::*;

verus! {

/// One context frame: a message together with the source location (file,
/// 1-based line, 1-based column) where it was attached to the chain.
pub struct ContextError {
    pub context: String,
    pub line: u32,
    pub column: u32,
    pub file: String,
}

/// The mathematical image of a frame: plain sequences and numbers.
pub ghost struct FrameModel {
    pub context: Seq<char>,
    pub line: u32,
    pub column: u32,
    pub file: Seq<char>,
}

/// The frame that attaching `context` at `file:line:column` produces.
pub open spec fn frame_model(context: Seq<char>, file: Seq<char>, line: u32, column: u32) -> FrameModel {
    FrameModel { context, line, column, file }
}

impl View for ContextError {
    type V = FrameModel;

    open spec fn view(&self) -> FrameModel {
        FrameModel {
            context: self.context@,
            line: self.line,
            column: self.column,
            file: self.file@,
        }
    }
}

impl ContextError {
    /// Build a frame from a message and the location of the attaching call.
    pub fn new(context: &str, file: &str, line: u32, column: u32) -> (r: ContextError)
        ensures
            r@ == frame_model(context@, file@, line, column),
    {
        ContextError {
            context: context.to_owned(),
            line,
            column,
            file: file.to_owned(),
        }
    }
}

/// An error: a chain of context frames, ordered newest-attachment-first.
/// It holds exactly one frame right after construction and never becomes
/// empty.
pub struct Error {
    frames: Vec<ContextError>,
}

impl View for Error {
    type V = Seq<FrameModel>;

    closed spec fn view(&self) -> Seq<FrameModel> {
        Seq::new(self.frames@.len(), |i: int| self.frames@[i]@)
    }
}

impl Error {
    #[verifier::type_invariant]
    spec fn inv(self) -> bool {
        self.frames@.len() > 0
    }

    /// Build a chain holding exactly one frame, the origin.
    pub(crate) fn from_display(message: &str, file: &str, line: u32, column: u32) -> (r: Error)
        ensures
            r@ == seq![frame_model(message@, file@, line, column)],
    {
        let frames = vec![ContextError::new(message, file, line, column)];
        let r = Error { frames };
        proof {
            assert(r@ =~= seq![frame_model(message@, file@, line, column)]);
        }
        r
    }

    /// Build a chain from a message; the chain holds exactly that one frame.
    pub fn msg(message: &str, file: &str, line: u32, column: u32) -> (r: Error)
        ensures
            r@ == seq![frame_model(message@, file@, line, column)],
    {
        Error::from_display(message, file, line, column)
    }

    /// Build a chain from the textual rendering of a foreign failure.  Only
    /// the rendered text is kept, never the foreign value itself; the caller
    /// renders the value at the moment of wrapping.
    pub fn new(message: &str, file: &str, line: u32, column: u32) -> (r: Error)
        ensures
            r@ == seq![frame_model(message@, file@, line, column)],
    {
        Error::from_display(message, file, line, column)
    }

    /// Attach one more context frame: the new frame stands first, the rest
    /// of the chain is kept unchanged.  Attachment always succeeds.
    pub fn context(self, context: &str, file: &str, line: u32, column: u32) -> (r: Error)
        ensures
            r@ == attach_model(self@, frame_model(context@, file@, line, column)),
    {
        proof {
            use_type_invariant(&self);
        }
        let Error { mut frames } = self;
        frames.insert(0, ContextError::new(context, file, line, column));
        let r = Error { frames };
        proof {
            assert(r@ =~= attach_model(self@, frame_model(context@, file@, line, column)));
        }
        r
    }

    /// The number of frames in the chain; at least one.
    pub fn len(&self) -> (n: usize)
        ensures
            n == self@.len(),
            n >= 1,
    {
        proof {
            use_type_invariant(self);
        }
        self.frames.len()
    }

    /// The frame at position `i`; position 0 is the most recently attached
    /// frame, the last position is the origin.
    pub fn frame(&self, i: usize) -> (f: &ContextError)
        requires
            i < self@.len(),
        ensures
            f@ == self@[i as int],
    {
        &self.frames[i]
    }

    /// The frames, newest attachment first.
    pub(crate) fn frames(&self) -> (fs: &Vec<ContextError>)
        ensures
            fs@.len() == self@.len(),
            forall|i: int| 0 <= i < fs@.len() ==> fs@[i]@ == self@[i],
    {
        &self.frames
    }
}

/// The chain that attaching `f` to `chain` yields: `f` in front, `chain`
/// unchanged behind it.
pub open spec fn attach_model(chain: Seq<FrameModel>, f: FrameModel) -> Seq<FrameModel> {
    seq![f] + chain
}

/// Attach the frames of `fs` one after the other, first `fs[0]`.
pub open spec fn attach_all(chain: Seq<FrameModel>, fs: Seq<FrameModel>) -> Seq<FrameModel>
    decreases fs.len(),
{
    if fs.len() == 0 {
        chain
    } else {
        attach_all(attach_model(chain, fs[0]), fs.drop_first())
    }
}

/// After attaching `n` frames one by one, the chain holds `n` more frames
/// than before, and the frame attached last stands at position 0.
pub proof fn lemma_attach_count(chain: Seq<FrameModel>, fs: Seq<FrameModel>)
    ensures
        attach_all(chain, fs).len() == chain.len() + fs.len(),
        fs.len() > 0 ==> attach_all(chain, fs)[0] == fs.last(),
    decreases fs.len(),
{
    if fs.len() > 0 {
        lemma_attach_count(attach_model(chain, fs[0]), fs.drop_first());
        if fs.len() == 1 {
            assert(attach_all(chain, fs)[0] == fs[0]);
        } else {
            assert(fs.drop_first().last() == fs.last());
        }
    }
}

} // verus!
