//! The rules that an entry function's signature must follow.
use vstd::prelude::*;
use crate::decl::FunctionDecl;
use crate::diagnostic::{Diagnostic, Violation, message_of, messages_of};

verus! {

/// Whether `decl` breaks the rule that `v` stands for. Only the three
/// signature rules are checked here; the parameter's pattern is a matter
/// for synthesis.
pub open spec fn breaks_rule(decl: FunctionDecl, v: Violation) -> bool {
    match v {
        Violation::NotAsync => !decl.is_async,
        Violation::NotSafe => decl.is_unsafe,
        Violation::WrongArity => decl.params@.len() != 1,
        Violation::UnsupportedPattern => false,
    }
}

/// The sequence `seq![v]` when `b` holds, else the empty sequence.
pub open spec fn when(b: bool, v: Violation) -> Seq<Violation> {
    if b {
        seq![v]
    } else {
        Seq::empty()
    }
}

/// The violations of `decl`, in the order in which the rules are checked:
/// asynchrony, then safety, then arity.
pub open spec fn violations_of(decl: FunctionDecl) -> Seq<Violation> {
    when(breaks_rule(decl, Violation::NotAsync), Violation::NotAsync)
        + when(breaks_rule(decl, Violation::NotSafe), Violation::NotSafe)
        + when(breaks_rule(decl, Violation::WrongArity), Violation::WrongArity)
}

/// Whether `decl` passes every signature rule.
pub open spec fn is_valid(decl: FunctionDecl) -> bool {
    decl.is_async && !decl.is_unsafe && decl.params@.len() == 1
}

/// Records `v` in the diagnostic being built, creating it if none exists yet.
fn record(error: &mut Option<Diagnostic>, v: Violation)
    requires
        match *old(error) {
            Some(d) => d.wf(),
            None => true,
        },
    ensures
        *final(error) matches Some(d) && d.wf() && d@ == match *old(error) {
            Some(d0) => d0@.push(v),
            None => seq![v],
        },
{
    let message = Diagnostic::new(v);
    match error {
        Some(e) => e.combine(message),
        None => {
            *error = Some(message);
        },
    }
}

/// Checks the signature of an entry function: it must be `async`, must not
/// be `unsafe`, and must take exactly one parameter. Every rule is checked;
/// all that fail are gathered into one diagnostic.
pub fn verify_function_sig(sig: &FunctionDecl) -> (r: Result<(), Diagnostic>)
    ensures
        r is Ok <==> is_valid(*sig),
        r is Ok <==> violations_of(*sig).len() == 0,
        r matches Err(d) ==> d@ == violations_of(*sig) && d.wf(),
{
    let mut error: Option<Diagnostic> = None;
    if !sig.is_async {
        record(&mut error, Violation::NotAsync);
    }
    if sig.is_unsafe {
        record(&mut error, Violation::NotSafe);
    }
    if sig.params.len() != 1 {
        record(&mut error, Violation::WrongArity);
    }
    assert(violations_of(*sig) =~= match error {
        Some(d) => d@,
        None => Seq::<Violation>::empty(),
    });
    match error {
        Some(e) => Err(e),
        None => Ok(()),
    }
}

/// A declaration that is not `async` fails validation, and its diagnostic
/// carries the message "Function must be async".
pub proof fn lemma_not_async_rejected(decl: FunctionDecl)
    requires
        !decl.is_async,
    ensures
        !is_valid(decl),
        violations_of(decl).len() > 0,
        messages_of(violations_of(decl)).contains("Function must be async"@),
{
    let vs = violations_of(decl);
    assert(vs[0] == Violation::NotAsync);
    assert(messages_of(vs)[0] == "Function must be async"@);
}

/// A declaration marked `unsafe` fails validation, and its diagnostic
/// carries the message "Function must be safe".
pub proof fn lemma_unsafe_rejected(decl: FunctionDecl)
    requires
        decl.is_unsafe,
    ensures
        !is_valid(decl),
        violations_of(decl).len() > 0,
        messages_of(violations_of(decl)).contains("Function must be safe"@),
{
    let vs = violations_of(decl);
    let i: int = if decl.is_async { 0 } else { 1 };
    assert(vs[i] == Violation::NotSafe);
    assert(messages_of(vs)[i] == "Function must be safe"@);
}

/// A declaration whose parameter count is not one fails validation, and its
/// diagnostic carries the arity message.
pub proof fn lemma_wrong_arity_rejected(decl: FunctionDecl)
    requires
        decl.params@.len() != 1,
    ensures
        !is_valid(decl),
        violations_of(decl).len() > 0,
        messages_of(violations_of(decl)).contains(
            "Function must take a `Peripherals` parameter"@,
        ),
{
    let vs = violations_of(decl);
    let i: int = vs.len() - 1;
    assert(vs[i] == Violation::WrongArity);
    assert(messages_of(vs)[i] == "Function must take a `Peripherals` parameter"@);
}

/// Validation reports every broken rule, each once, in a single diagnostic:
/// a violation is listed exactly when its rule is broken, and the messages of
/// all broken rules stand together.
pub proof fn lemma_violations_gathered(decl: FunctionDecl)
    ensures
        forall|v: Violation| breaks_rule(decl, v) <==> #[trigger] violations_of(decl).contains(v),
        forall|v: Violation|
            breaks_rule(decl, v) ==> #[trigger] messages_of(violations_of(decl)).contains(
                message_of(v),
            ),
        violations_of(decl).no_duplicates(),
        is_valid(decl) <==> violations_of(decl).len() == 0,
{
    let vs = violations_of(decl);
    let a = when(breaks_rule(decl, Violation::NotAsync), Violation::NotAsync);
    let b = when(breaks_rule(decl, Violation::NotSafe), Violation::NotSafe);
    let c = when(breaks_rule(decl, Violation::WrongArity), Violation::WrongArity);
    assert(vs == a + b + c);
    assert forall|i: int| 0 <= i < vs.len() implies breaks_rule(decl, #[trigger] vs[i]) by {
        if i < a.len() {
            assert(vs[i] == a[i]);
        } else if i < a.len() + b.len() {
            assert(vs[i] == b[i - a.len()]);
        } else {
            assert(vs[i] == c[i - a.len() - b.len()]);
        }
    }
    assert forall|v: Violation| breaks_rule(decl, v) implies vs.contains(v) && #[trigger] messages_of(
        vs,
    ).contains(message_of(v)) by {
        let i: int = match v {
            Violation::NotAsync => 0,
            Violation::NotSafe => a.len() as int,
            _ => vs.len() - 1,
        };
        assert(vs[i] == v);
        assert(messages_of(vs)[i] == message_of(v));
    }
    assert forall|v: Violation| #[trigger] vs.contains(v) <==> breaks_rule(decl, v) by {
        if vs.contains(v) {
            let i: int = choose|i: int| 0 <= i < vs.len() && vs[i] == v;
            assert(breaks_rule(decl, vs[i]));
        }
        if breaks_rule(decl, v) {
            assert(messages_of(vs).contains(message_of(v)));
        }
    }
    assert forall|i: int, j: int| 0 <= i < vs.len() && 0 <= j < vs.len() && i != j implies vs[i]
        != vs[j] by {
        if i < a.len() {
            assert(vs[i] == a[i]);
        } else if i < a.len() + b.len() {
            assert(vs[i] == b[i - a.len()]);
        } else {
            assert(vs[i] == c[i - a.len() - b.len()]);
        }
        if j < a.len() {
            assert(vs[j] == a[j]);
        } else if j < a.len() + b.len() {
            assert(vs[j] == b[j - a.len()]);
        } else {
            assert(vs[j] == c[j - a.len() - b.len()]);
        }
    }
}

} // verus!
