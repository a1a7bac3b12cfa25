use vexide_macro::decl::{FunctionDecl, Param, ParamPattern, ReturnType};
use vexide_macro::diagnostic::{Diagnostic, Violation};
use vexide_macro::synth::{
    expand, synthesize, Abi, GeneratedArtifacts, ProgramFlags, ProgramOwner, ProgramType, Section,
};
use vexide_macro::validate::verify_function_sig;

fn named(name: &str) -> Param {
    Param { pattern: ParamPattern::Name(name.to_string()), ty: "Peripherals".to_string() }
}

fn decl(is_async: bool, is_unsafe: bool, params: Vec<Param>, output: ReturnType) -> FunctionDecl {
    FunctionDecl { is_async, is_unsafe, params, output }
}

fn diagnostic_of(r: Result<(), Diagnostic>) -> Diagnostic {
    match r {
        Ok(()) => panic!("validation passed"),
        Err(d) => d,
    }
}

fn artifacts_of(r: Result<GeneratedArtifacts, Diagnostic>) -> GeneratedArtifacts {
    match r {
        Ok(a) => a,
        Err(d) => panic!("expansion failed: {:?}", d.messages()),
    }
}

fn error_of(r: Result<GeneratedArtifacts, Diagnostic>) -> Diagnostic {
    match r {
        Ok(_) => panic!("expansion succeeded"),
        Err(d) => d,
    }
}

#[test]
fn missing_async_is_rejected() {
    let d = diagnostic_of(verify_function_sig(&decl(false, false, vec![named("p")], ReturnType::Default)));
    assert_eq!(d.violations, vec![Violation::NotAsync]);
    assert_eq!(d.messages(), vec!["Function must be async".to_string()]);
}

#[test]
fn unsafe_is_rejected() {
    let d = diagnostic_of(verify_function_sig(&decl(true, true, vec![named("p")], ReturnType::Default)));
    assert_eq!(d.violations, vec![Violation::NotSafe]);
    assert_eq!(d.messages(), vec!["Function must be safe".to_string()]);
}

#[test]
fn no_parameter_is_rejected() {
    let d = diagnostic_of(verify_function_sig(&decl(true, false, vec![], ReturnType::Default)));
    assert_eq!(d.messages(), vec!["Function must take a `Peripherals` parameter".to_string()]);
}

#[test]
fn two_parameters_are_rejected() {
    let d = diagnostic_of(verify_function_sig(&decl(
        true,
        false,
        vec![named("a"), named("b")],
        ReturnType::Default,
    )));
    assert_eq!(d.violations, vec![Violation::WrongArity]);
    assert_eq!(d.len(), 1);
}

#[test]
fn several_violations_share_one_diagnostic() {
    let d = diagnostic_of(verify_function_sig(&decl(false, true, vec![named("p")], ReturnType::Default)));
    assert_eq!(
        d.messages(),
        vec!["Function must be async".to_string(), "Function must be safe".to_string()]
    );
}

#[test]
fn every_rule_broken_at_once() {
    let d = diagnostic_of(verify_function_sig(&decl(false, true, vec![], ReturnType::Default)));
    assert_eq!(d.violations, vec![Violation::NotAsync, Violation::NotSafe, Violation::WrongArity]);
    assert!(d.contains(Violation::NotSafe));
    assert!(!d.contains(Violation::UnsupportedPattern));
    let r = expand(&decl(false, true, vec![], ReturnType::Default));
    assert_eq!(error_of(r).len(), 3);
}

#[test]
fn valid_signature_passes() {
    assert!(verify_function_sig(&decl(true, false, vec![named("p")], ReturnType::Default)).is_ok());
    let destructured = Param { pattern: ParamPattern::Destructure, ty: "Peripherals".to_string() };
    assert!(verify_function_sig(&decl(true, false, vec![destructured], ReturnType::Default)).is_ok());
}

#[test]
fn valid_declaration_meets_placement_contracts() {
    let a = artifacts_of(expand(&decl(true, false, vec![named("p")], ReturnType::Default)));
    assert_eq!(a.wrapper.placement.symbol, "main");
    assert_eq!(a.wrapper.placement.section, Section::Ordinary);
    assert!(a.wrapper.placement.unmangled);
    assert_eq!(a.wrapper.abi, Abi::Rust);
    assert_eq!(a.trampoline.placement.symbol, "_start");
    assert_eq!(a.trampoline.placement.section, Section::Boot);
    assert!(a.trampoline.placement.unmangled);
    assert!(a.trampoline.is_unsafe);
    assert_eq!(a.trampoline.abi, Abi::C);
    assert_eq!(a.signature.placement.section, Section::CodeSignature);
    assert!(a.signature.placement.retained);
    assert!(!a.signature.placement.unmangled);
    assert_eq!(a.signature.placement.symbol, "CODE_SIGNATURE");
}

#[test]
fn destructured_parameter_fails_synthesis() {
    let p = Param { pattern: ParamPattern::Destructure, ty: "Peripherals".to_string() };
    let d = decl(true, false, vec![p], ReturnType::Default);
    assert!(verify_function_sig(&d).is_ok());
    let e = error_of(synthesize(&d));
    assert_eq!(e.messages(), vec!["Function must take a `Peripherals`".to_string()]);
    assert_eq!(error_of(expand(&d)).violations, vec![Violation::UnsupportedPattern]);
}

#[test]
fn receiver_parameter_fails_synthesis() {
    let p = Param { pattern: ParamPattern::Receiver, ty: "Self".to_string() };
    let e = error_of(expand(&decl(true, false, vec![p], ReturnType::Default)));
    assert_eq!(e.violations, vec![Violation::UnsupportedPattern]);
}

#[test]
fn signature_errors_come_before_pattern_errors() {
    let p = Param { pattern: ParamPattern::Destructure, ty: "Peripherals".to_string() };
    let e = error_of(expand(&decl(false, false, vec![p], ReturnType::Default)));
    assert_eq!(e.violations, vec![Violation::NotAsync]);
}

#[test]
fn declared_return_type_is_reported_unchanged() {
    let output = ReturnType::Type("Result<(), MyError>".to_string());
    let a = artifacts_of(expand(&decl(true, false, vec![named("p")], output)));
    assert_eq!(a.wrapper.result_type, "Result<(), MyError>");
}

#[test]
fn absent_return_type_reports_unit() {
    let a = artifacts_of(expand(&decl(true, false, vec![named("p")], ReturnType::Default)));
    assert_eq!(a.wrapper.result_type, "()");
}

#[test]
fn opcontrol_end_to_end() {
    let a = artifacts_of(expand(&decl(true, false, vec![named("peripherals")], ReturnType::Default)));
    assert_eq!(a.wrapper.placement.symbol, "main");
    assert_eq!(a.wrapper.binding, "peripherals");
    assert_eq!(a.wrapper.result_type, "()");
    assert_eq!(a.trampoline.placement.symbol, "_start");
    assert_eq!(a.signature.program_type, ProgramType::User);
    assert_eq!(a.signature.owner, ProgramOwner::Partner);
    assert_eq!(a.signature.flags, ProgramFlags { bits: 0 });
}

#[test]
fn section_names() {
    assert_eq!(Section::Ordinary.link_section(), None);
    assert_eq!(Section::Boot.link_section(), Some(".boot".to_string()));
    assert_eq!(Section::CodeSignature.link_section(), Some(".code_signature".to_string()));
}

#[test]
fn empty_flags_hold_no_bit() {
    assert_eq!(ProgramFlags::empty().bits, 0);
}

#[test]
fn combine_appends_in_order() {
    let mut d = Diagnostic::new(Violation::NotSafe);
    d.combine(Diagnostic::new(Violation::NotAsync));
    assert_eq!(d.violations, vec![Violation::NotSafe, Violation::NotAsync]);
    assert_eq!(d.len(), 2);
}

#[test]
fn arity_counts_parameters() {
    assert_eq!(decl(true, false, vec![named("a"), named("b")], ReturnType::Default).arity(), 2);
}

#[test]
fn violation_messages() {
    assert_eq!(Violation::NotAsync.message(), "Function must be async");
    assert_eq!(Violation::NotSafe.message(), "Function must be safe");
    assert_eq!(Violation::WrongArity.message(), "Function must take a `Peripherals` parameter");
    assert_eq!(Violation::UnsupportedPattern.message(), "Function must take a `Peripherals`");
}
