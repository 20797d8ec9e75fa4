use vstd::prelude::*;

verus! {

/// The ways in which a frame of batched drawing can fail.
#[derive(Debug, Clone, Copy, PartialEq, Eq, Structural)]
pub enum BatchError {
    /// `begin` was called while a frame was already being recorded.
    BatchIsDrawing,
    /// `end` was called while no frame was being recorded.
    BatchNotDrawing,
    /// The recorded frame could not be submitted: no render target is acquired.
    FrameIsNone,
}

impl BatchError {
    /// What the error says, as a sequence of characters.
    pub open spec fn text(self) -> Seq<char> {
        match self {
            BatchError::BatchIsDrawing => "Batch is already drawing"@,
            BatchError::BatchNotDrawing => "Batch is not drawing"@,
            BatchError::FrameIsNone => "Frame is None"@,
        }
    }

    /// What the error says.
    pub fn message(&self) -> (message: &'static str)
        ensures
            message@ == self.text(),
    {
        match self {
            BatchError::BatchIsDrawing => "Batch is already drawing",
            BatchError::BatchNotDrawing => "Batch is not drawing",
            BatchError::FrameIsNone => "Frame is None",
        }
    }
}

} // verus!
