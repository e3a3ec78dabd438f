//! The post-process debug overlay: which geometry output it shows.
use vstd::prelude::*;

verus! {

/// What the debug view shows, in the order it cycles through.
#[derive(Debug, Clone, Copy, PartialEq, Eq, Structural)]
pub enum DebugType {
    Position,
    Normal,
    Color,
    Depth,
    Diffuse,
    Specular,
    Power,
    Nothing,
}

/// The number of debug views.
pub const DEBUG_TYPE_COUNT: u32 = 8;

/// The position of `t` in the cycle, which is also the code the debug
/// shader reads.
pub open spec fn debug_code(t: DebugType) -> u32 {
    match t {
        DebugType::Position => 0,
        DebugType::Normal => 1,
        DebugType::Color => 2,
        DebugType::Depth => 3,
        DebugType::Diffuse => 4,
        DebugType::Specular => 5,
        DebugType::Power => 6,
        DebugType::Nothing => 7,
    }
}

impl DebugType {
    /// The shader's code for this view.
    pub fn code(&self) -> (r: u32)
        ensures
            r == debug_code(*self),
    {
        match self {
            DebugType::Position => 0,
            DebugType::Normal => 1,
            DebugType::Color => 2,
            DebugType::Depth => 3,
            DebugType::Diffuse => 4,
            DebugType::Specular => 5,
            DebugType::Power => 6,
            DebugType::Nothing => 7,
        }
    }

    /// The view with the given code, if there is one.
    pub fn from_code(code: u32) -> (r: Option<DebugType>)
        ensures
            code < DEBUG_TYPE_COUNT ==> (r matches Some(t) && debug_code(t) == code),
            code >= DEBUG_TYPE_COUNT ==> r is None,
    {
        match code {
            0 => Some(DebugType::Position),
            1 => Some(DebugType::Normal),
            2 => Some(DebugType::Color),
            3 => Some(DebugType::Depth),
            4 => Some(DebugType::Diffuse),
            5 => Some(DebugType::Specular),
            6 => Some(DebugType::Power),
            7 => Some(DebugType::Nothing),
            _ => None,
        }
    }

    /// The next view in the cycle; after the last comes the first.
    pub fn next(&self) -> (r: DebugType)
        ensures
            debug_code(r) == (debug_code(*self) + 1) % (DEBUG_TYPE_COUNT as int),
    {
        let next = (self.code() + 1) % DEBUG_TYPE_COUNT;
        match DebugType::from_code(next) {
            Some(t) => t,
            None => DebugType::Position,
        }
    }

    /// Whether the debug view draws anything.
    pub fn is_shown(&self) -> (r: bool)
        ensures
            r == (*self != DebugType::Nothing),
    {
        !matches!(self, DebugType::Nothing)
    }
}

/// The debug overlay: a shader program of type `P` and the view it shows,
/// at first none.
pub struct DebugEffect<P> {
    program: P,
    debug_type: DebugType,
}

impl<P> DebugEffect<P> {
    pub closed spec fn spec_debug_type(&self) -> DebugType {
        self.debug_type
    }

    pub closed spec fn spec_program(&self) -> P {
        self.program
    }

    pub fn new(program: P) -> (r: Self)
        ensures
            r.spec_debug_type() == DebugType::Nothing,
            r.spec_program() == program,
    {
        DebugEffect { program, debug_type: DebugType::Nothing }
    }

    /// Moves on to the next view.
    pub fn change_type(&mut self)
        ensures
            debug_code(final(self).spec_debug_type()) == (debug_code(old(self).spec_debug_type())
                + 1) % (DEBUG_TYPE_COUNT as int),
            final(self).spec_program() == old(self).spec_program(),
    {
        self.debug_type = self.debug_type.next();
    }

    pub fn debug_type(&self) -> (r: DebugType)
        ensures
            r == self.spec_debug_type(),
    {
        self.debug_type
    }

    pub fn program(&self) -> (r: &P)
        ensures
            *r == self.spec_program(),
    {
        &self.program
    }
}

} // verus!
