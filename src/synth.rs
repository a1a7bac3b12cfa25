//! The code that turns a validated entry function into a firmware entry.
use vstd::prelude::*;
use crate::decl::{FunctionDecl, ParamPattern, ReturnType};
use crate::diagnostic::{Diagnostic, Violation, messages_of};
use crate::validate::{is_valid, verify_function_sig, violations_of};

verus! {

/// The linker section an item is placed in.
#[derive(Clone, Copy, Debug, PartialEq, Eq, Structural)]
pub enum Section {
    /// Wherever the toolchain puts ordinary code or data.
    Ordinary,
    /// The boot section, which holds the reset-vector target.
    Boot,
    /// The section the firmware loader reads the code signature from.
    CodeSignature,
}

impl Section {
    /// The name given to the section in a `link_section` attribute, if any.
    pub fn link_section(&self) -> (r: Option<String>)
        ensures
            match *self {
                Section::Ordinary => r is None,
                Section::Boot => r matches Some(s) && s@ == ".boot"@,
                Section::CodeSignature => r matches Some(s) && s@ == ".code_signature"@,
            },
    {
        match self {
            Section::Ordinary => None,
            Section::Boot => Some(".boot".to_owned()),
            Section::CodeSignature => Some(".code_signature".to_owned()),
        }
    }
}

/// The calling convention of a generated function.
#[derive(Clone, Copy, Debug, PartialEq, Eq, Structural)]
pub enum Abi {
    Rust,
    C,
}

/// Where a generated item goes and how the linker must treat it.
pub struct Placement {
    /// The item's name.
    pub symbol: String,
    pub section: Section,
    /// The symbol keeps its name as written (`#[no_mangle]`).
    pub unmangled: bool,
    /// The item survives dead-code elimination even if nothing refers to it.
    pub retained: bool,
}

/// The safe `main` function that runs the user's entry function.
///
/// It takes the peripherals singleton, binds it to `binding`, drives the
/// user's body to completion with the runtime's blocking executor, binds the
/// outcome as a value of type `result_type`, and hands it to the runtime's
/// termination reporting.
pub struct EntryWrapper {
    pub placement: Placement,
    pub abi: Abi,
    /// The name the peripherals handle is bound to.
    pub binding: String,
    /// The type of the value handed to termination reporting, as source text.
    pub result_type: String,
}

/// The raw `_start` function that the hardware jumps to. It only calls the
/// startup library's program entry.
pub struct Trampoline {
    pub placement: Placement,
    pub abi: Abi,
    pub is_unsafe: bool,
}

/// The kind of program recorded in the code signature.
#[derive(Clone, Copy, Debug, PartialEq, Eq, Structural)]
pub enum ProgramType {
    User,
}

/// The owner recorded in the code signature.
#[derive(Clone, Copy, Debug, PartialEq, Eq, Structural)]
pub enum ProgramOwner {
    Partner,
}

/// The program flags recorded in the code signature, as a bit set.
#[derive(Clone, Copy, Debug, PartialEq, Eq, Structural)]
pub struct ProgramFlags {
    pub bits: u32,
}

impl ProgramFlags {
    /// The flag set with no flag in it.
    pub fn empty() -> (r: ProgramFlags)
        ensures
            r.bits == 0,
    {
        ProgramFlags { bits: 0 }
    }
}

/// The static code signature record that the loader reads before it runs
/// the image.
pub struct SignatureRecord {
    pub placement: Placement,
    pub program_type: ProgramType,
    pub owner: ProgramOwner,
    pub flags: ProgramFlags,
}

/// Everything generated for one entry function.
pub struct GeneratedArtifacts {
    pub wrapper: EntryWrapper,
    pub trampoline: Trampoline,
    pub signature: SignatureRecord,
}

/// The placement contracts that the linker and the loader rely on: `main`
/// is an unmangled symbol in ordinary code; `_start` is an unmangled,
/// unsafe symbol in the boot section; the signature record sits in its own
/// section and is kept even when nothing refers to it.
pub open spec fn placement_contracts_hold(a: GeneratedArtifacts) -> bool {
    &&& a.wrapper.placement.symbol@ == "main"@
    &&& a.wrapper.placement.section == Section::Ordinary
    &&& a.wrapper.placement.unmangled
    &&& a.trampoline.placement.symbol@ == "_start"@
    &&& a.trampoline.placement.section == Section::Boot
    &&& a.trampoline.placement.unmangled
    &&& a.trampoline.is_unsafe
    &&& a.signature.placement.section == Section::CodeSignature
    &&& a.signature.placement.retained
}

/// The name of the single parameter of `decl`, when it is bound to a plain
/// name.
pub open spec fn entry_binding(decl: FunctionDecl) -> Option<Seq<char>> {
    if decl.params@.len() > 0 {
        match decl.params@[0].pattern {
            ParamPattern::Name(n) => Some(n@),
            _ => None,
        }
    } else {
        None
    }
}

/// The type of the value that the entry function's body produces: the
/// declared return type, or `()` where none was written.
pub open spec fn result_type_of(decl: FunctionDecl) -> Seq<char> {
    match decl.output {
        ReturnType::Default => "()"@,
        ReturnType::Type(t) => t@,
    }
}

/// Whether `a` is what synthesis produces for `decl`.
pub open spec fn artifacts_for(a: GeneratedArtifacts, decl: FunctionDecl) -> bool {
    &&& placement_contracts_hold(a)
    &&& !a.wrapper.placement.retained
    &&& a.wrapper.abi == Abi::Rust
    &&& entry_binding(decl) == Some(a.wrapper.binding@)
    &&& a.wrapper.result_type@ == result_type_of(decl)
    &&& !a.trampoline.placement.retained
    &&& a.trampoline.abi == Abi::C
    &&& a.signature.placement.symbol@ == "CODE_SIGNATURE"@
    &&& !a.signature.placement.unmangled
    &&& a.signature.program_type == ProgramType::User
    &&& a.signature.owner == ProgramOwner::Partner
    &&& a.signature.flags.bits == 0
}

/// The type text of the value the generated `main` reports.
fn result_type_text(output: &ReturnType) -> (r: String)
    ensures
        r@ == match *output {
            ReturnType::Default => "()"@,
            ReturnType::Type(t) => t@,
        },
{
    match output {
        ReturnType::Default => "()".to_owned(),
        ReturnType::Type(t) => t.clone(),
    }
}

/// Produces the firmware entry for a validated declaration. Only a plain
/// name is supported for the peripherals parameter; any other pattern is
/// reported as `UnsupportedPattern` and nothing is generated.
pub fn synthesize(decl: &FunctionDecl) -> (r: Result<GeneratedArtifacts, Diagnostic>)
    requires
        is_valid(*decl),
    ensures
        r is Ok <==> entry_binding(*decl) is Some,
        r matches Ok(a) ==> artifacts_for(a, *decl),
        r matches Err(d) ==> d@ == seq![Violation::UnsupportedPattern],
{
    let binding = match &decl.params[0].pattern {
        ParamPattern::Name(n) => n.clone(),
        _ => {
            return Err(Diagnostic::new(Violation::UnsupportedPattern));
        },
    };
    let wrapper = EntryWrapper {
        placement: Placement {
            symbol: "main".to_owned(),
            section: Section::Ordinary,
            unmangled: true,
            retained: false,
        },
        abi: Abi::Rust,
        binding,
        result_type: result_type_text(&decl.output),
    };
    let trampoline = Trampoline {
        placement: Placement {
            symbol: "_start".to_owned(),
            section: Section::Boot,
            unmangled: true,
            retained: false,
        },
        abi: Abi::C,
        is_unsafe: true,
    };
    let signature = SignatureRecord {
        placement: Placement {
            symbol: "CODE_SIGNATURE".to_owned(),
            section: Section::CodeSignature,
            unmangled: false,
            retained: true,
        },
        program_type: ProgramType::User,
        owner: ProgramOwner::Partner,
        flags: ProgramFlags::empty(),
    };
    Ok(GeneratedArtifacts { wrapper, trampoline, signature })
}

/// Whether expanding `decl` produces code: it passes the signature rules
/// and binds its parameter to a plain name.
pub open spec fn expansion_succeeds(decl: FunctionDecl) -> bool {
    is_valid(decl) && entry_binding(decl) is Some
}

/// The violations that expanding `decl` reports when it fails: those of the
/// signature rules, or else the unsupported parameter pattern.
pub open spec fn expansion_violations(decl: FunctionDecl) -> Seq<Violation> {
    if is_valid(decl) {
        seq![Violation::UnsupportedPattern]
    } else {
        violations_of(decl)
    }
}

/// Checks an entry function's signature and, when it passes, produces its
/// firmware entry. A signature that breaks any rule yields one diagnostic
/// with all of its violations; an unsupported parameter pattern is reported
/// on its own, after the signature rules have passed.
pub fn expand(decl: &FunctionDecl) -> (r: Result<GeneratedArtifacts, Diagnostic>)
    ensures
        r is Ok <==> expansion_succeeds(*decl),
        r matches Ok(a) ==> artifacts_for(a, *decl),
        r matches Err(d) ==> d.wf() && d@ == expansion_violations(*decl),
{
    match verify_function_sig(decl) {
        Ok(()) => {},
        Err(e) => {
            return Err(e);
        },
    }
    synthesize(decl)
}

/// Every declaration that is `async`, safe, and takes one parameter bound
/// to a plain name expands, and what it expands to meets the placement
/// contracts of `main`, `_start` and the signature record.
pub proof fn lemma_valid_decl_expands(decl: FunctionDecl)
    requires
        decl.is_async,
        !decl.is_unsafe,
        decl.params@.len() == 1,
        decl.params@[0].pattern is Name,
    ensures
        expansion_succeeds(decl),
        forall|a: GeneratedArtifacts| #[trigger] artifacts_for(a, decl) ==> placement_contracts_hold(a),
{
}

/// A declaration that passes the signature rules but destructures its
/// parameter does not expand; its one message is "Function must take a
/// `Peripherals`".
pub proof fn lemma_destructured_param_rejected(decl: FunctionDecl)
    requires
        is_valid(decl),
        !(decl.params@[0].pattern is Name),
    ensures
        !expansion_succeeds(decl),
        messages_of(expansion_violations(decl)) == seq!["Function must take a `Peripherals`"@],
{
    assert(messages_of(expansion_violations(decl)) =~= seq![
        "Function must take a `Peripherals`"@,
    ]);
}

/// The value that the generated `main` reports has exactly the declared
/// return type of the entry function, or `()` where none was declared.
pub proof fn lemma_reported_type_matches(decl: FunctionDecl, a: GeneratedArtifacts)
    requires
        artifacts_for(a, decl),
    ensures
        decl.output is Default ==> a.wrapper.result_type@ == "()"@,
        forall|t: String| decl.output == ReturnType::Type(t) ==> a.wrapper.result_type@ == t@,
{
}

} // verus!
