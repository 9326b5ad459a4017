//! The host-facing parameter and tag numbering of the synthesizer plugin.
use vstd::prelude::*;

verus! {

/// Parameters the host can automate.
#[derive(Clone, Copy, Debug, PartialEq, Eq, Structural)]
pub enum Parameter {
    Modulation,
}

/// Tags that address the inputs of the synthesis graph.
#[derive(Clone, Copy, Debug, PartialEq, Eq, Structural)]
pub enum Tag {
    Freq,
    Modulation,
    NoteOn,
}

impl Parameter {
    /// The parameter that the host calls by `index`, if any.
    pub fn from_index(index: i32) -> (r: Option<Parameter>)
        ensures
            r == (if index == 0 {
                Some(Parameter::Modulation)
            } else {
                None
            }),
    {
        if index == 0 {
            Some(Parameter::Modulation)
        } else {
            None
        }
    }

    /// The host's index of this parameter.
    pub fn index(&self) -> (r: i32)
        ensures
            r == 0,
    {
        0
    }

    /// The name shown to the host.
    pub fn name(&self) -> (r: String)
        ensures
            r@ == "modulation"@,
    {
        "modulation".to_owned()
    }
}

/// The name of the parameter at `index`, or "unknown".
pub fn parameter_name(index: i32) -> (r: String)
    ensures
        index == 0 ==> r@ == "modulation"@,
        index != 0 ==> r@ == "unknown"@,
{
    match Parameter::from_index(index) {
        Some(p) => p.name(),
        None => "unknown".to_owned(),
    }
}

impl Tag {
    /// The number under which the graph knows this tag.
    pub fn index(&self) -> (r: i64)
        ensures
            r == self.spec_index(),
    {
        match self {
            Tag::Freq => 0,
            Tag::Modulation => 1,
            Tag::NoteOn => 2,
        }
    }

    /// The tag numbered `index`, if any.
    pub fn from_index(index: i64) -> (r: Option<Tag>)
        ensures
            r matches Some(t) ==> t.spec_index() == index,
            r is None <==> !(0 <= index <= 2),
    {
        if index == 0 {
            Some(Tag::Freq)
        } else if index == 1 {
            Some(Tag::Modulation)
        } else if index == 2 {
            Some(Tag::NoteOn)
        } else {
            None
        }
    }

    pub open spec fn spec_index(&self) -> i64 {
        match *self {
            Tag::Freq => 0i64,
            Tag::Modulation => 1i64,
            Tag::NoteOn => 2i64,
        }
    }
}

} // verus!
