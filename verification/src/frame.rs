use vstd::prelude::*;

verus! {

/// One stack entry: a mandatory function symbol, an optional source file
/// path, and an optional line number. A line number is meaningful only
/// together with a file, so the renderer shows it only when both are present.
#[derive(Debug, PartialEq)]
pub struct Frame {
    pub file: Option<String>,
    pub line: Option<usize>,
    pub function: String,
}

/// The mathematical value of a [`Frame`]: the same three fields with each
/// string replaced by its character sequence.
#[verifier::ext_equal]
pub ghost struct FrameData {
    pub file: Option<Seq<char>>,
    pub line: Option<usize>,
    pub function: Seq<char>,
}

impl View for Frame {
    type V = FrameData;

    open spec fn view(&self) -> FrameData {
        FrameData {
            file: match self.file {
                Some(f) => Some(f@),
                None => None,
            },
            line: self.line,
            function: self.function@,
        }
    }
}

impl DeepView for Frame {
    type V = FrameData;

    open spec fn deep_view(&self) -> FrameData {
        self.view()
    }
}

impl Clone for Frame {
    fn clone(&self) -> (res: Self)
        ensures
            res@ == self@,
    {
        let file = match &self.file {
            Some(f) => Some(f.clone()),
            None => None,
        };
        Frame { file, line: self.line, function: self.function.clone() }
    }
}

} // verus!
