//! Signature rule violations and the single diagnostic that gathers them.
use vstd::prelude::*;

verus! {

/// One rule that an entry function's signature breaks.
#[derive(Clone, Copy, Debug, PartialEq, Eq, Structural)]
pub enum Violation {
    /// The function is not declared `async`.
    NotAsync,
    /// The function is declared `unsafe`.
    NotSafe,
    /// The function does not take exactly one parameter.
    WrongArity,
    /// The single parameter is not bound to a plain name.
    UnsupportedPattern,
}

/// The message that a violation carries.
pub open spec fn message_of(v: Violation) -> Seq<char> {
    match v {
        Violation::NotAsync => "Function must be async"@,
        Violation::NotSafe => "Function must be safe"@,
        Violation::WrongArity => "Function must take a `Peripherals` parameter"@,
        Violation::UnsupportedPattern => "Function must take a `Peripherals`"@,
    }
}

impl Violation {
    /// The message shown to the developer for this violation.
    pub fn message(&self) -> (r: String)
        ensures
            r@ == message_of(*self),
    {
        match self {
            Violation::NotAsync => "Function must be async".to_owned(),
            Violation::NotSafe => "Function must be safe".to_owned(),
            Violation::WrongArity => "Function must take a `Peripherals` parameter".to_owned(),
            Violation::UnsupportedPattern => "Function must take a `Peripherals`".to_owned(),
        }
    }
}

/// A compile error that gathers every violation found on one declaration,
/// so that all of them reach the developer in a single report.
pub struct Diagnostic {
    pub violations: Vec<Violation>,
}

impl View for Diagnostic {
    type V = Seq<Violation>;

    open spec fn view(&self) -> Seq<Violation> {
        self.violations@
    }
}

/// The messages of a sequence of violations, in the same order.
pub open spec fn messages_of(vs: Seq<Violation>) -> Seq<Seq<char>> {
    vs.map_values(|v: Violation| message_of(v))
}

impl Diagnostic {
    /// A diagnostic holds at least one violation.
    pub open spec fn wf(&self) -> bool {
        self@.len() > 0
    }

    /// Starts a diagnostic from its first violation.
    pub fn new(v: Violation) -> (d: Diagnostic)
        ensures
            d@ == seq![v],
            d.wf(),
    {
        Diagnostic { violations: vec![v] }
    }

    /// Attaches the violations of `other` to this diagnostic, after its own.
    pub fn combine(&mut self, other: Diagnostic)
        requires
            old(self).wf(),
        ensures
            final(self)@ == old(self)@ + other@,
            final(self).wf(),
    {
        let mut other = other;
        self.violations.append(&mut other.violations);
    }

    /// How many violations the diagnostic holds.
    pub fn len(&self) -> (r: usize)
        ensures
            r == self@.len(),
    {
        self.violations.len()
    }

    /// Whether the diagnostic names the violation `v`.
    pub fn contains(&self, v: Violation) -> (r: bool)
        ensures
            r == self@.contains(v),
    {
        let mut i: usize = 0;
        while i < self.violations.len()
            invariant
                i <= self@.len(),
                forall|j: int| 0 <= j < i ==> self@[j] != v,
            decreases self@.len() - i,
        {
            if self.violations[i] == v {
                return true;
            }
            i = i + 1;
        }
        false
    }

    /// The message of each violation, in the order they were found.
    pub fn messages(&self) -> (r: Vec<String>)
        ensures
            r@.len() == self@.len(),
            forall|i: int| 0 <= i < r@.len() ==> #[trigger] r@[i]@ == messages_of(self@)[i],
    {
        let mut r: Vec<String> = Vec::new();
        let mut i: usize = 0;
        while i < self.violations.len()
            invariant
                i <= self@.len(),
                r@.len() == i,
                forall|j: int| 0 <= j < i ==> #[trigger] r@[j]@ == messages_of(self@)[j],
            decreases self@.len() - i,
        {
            r.push(self.violations[i].message());
            i = i + 1;
        }
        r
    }
}

} // verus!
