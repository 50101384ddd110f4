//! Planning of entry-point and exception-handler stubs.
//!
//! A validated declaration yields a `StubPlan`: the user function renamed,
//! one exclusive-reference parameter appended per extracted persistent
//! item, and a trampoline bound to a fixed external symbol — `main` for the
//! entry role, the literal exception-kind name otherwise — that allocates
//! each item as program-lifetime storage, takes an exclusive reference to
//! each in extraction order, and calls the renamed function positionally.
//! Planning is purely a function of one declaration; the only
//! cross-declaration invariant is that a binary holds exactly one entry
//! point, which the fixed `main` symbol makes the linker enforce.

use vstd::prelude::*;

use vstd::string::StringExecFns;

use crate::validate::Attr;
use crate::validate::BodyStmt;
use crate::validate::GenError;
use crate::validate::Role;
use crate::validate::StaticDecl;
use crate::validate::check_attr_whitelist;
use crate::validate::extract_cfgs;
use crate::validate::extract_static_muts;
use crate::validate::spec_decl_of;
use crate::validate::spec_first_bad_attr;
use crate::validate::spec_first_dup;
use crate::validate::spec_halt;
use crate::validate::spec_is_cfg;
use crate::validate::spec_kept_prefix;
use crate::validate::spec_muts_prefix;
use crate::vector::ExceptionKind;

verus! {

/// How a declaration's return type reads.
#[derive(Clone, Copy, Debug, PartialEq, Eq, Structural)]
pub enum ReturnSig {
    /// No return type written; the function returns the unit value.
    Default,
    /// The divergent type: the function never returns.
    Never,
    /// The written empty tuple.
    Unit,
    /// Any other return type.
    Other,
}

/// The structural facts of a declaration's signature that validation reads.
#[derive(Debug)]
pub struct FnSig {
    /// The declared name.
    pub name: String,
    /// Marked constant-evaluable.
    pub is_const: bool,
    /// Default (inherited) visibility.
    pub vis_inherited: bool,
    /// A calling-convention override is present.
    pub has_abi: bool,
    /// One or more parameters are declared.
    pub has_inputs: bool,
    /// One or more generic parameters are declared.
    pub has_generic_params: bool,
    /// A `where` clause is present.
    pub has_where_clause: bool,
    /// A variadic parameter is present.
    pub has_variadic: bool,
    /// The return type.
    pub ret: ReturnSig,
}

/// An annotated function declaration, reduced to what validation and
/// planning read.
#[derive(Debug)]
pub struct FnDecl {
    /// The attributes on the declaration, in order.
    pub attrs: Vec<Attr>,
    /// The signature.
    pub sig: FnSig,
    /// The body statements, in order.
    pub stmts: Vec<BodyStmt>,
}

/// The structural constraints shared by both roles: not constant-evaluable,
/// default visibility, no calling-convention override, no parameters, no
/// generics, no variadics.
pub open spec fn spec_sig_structure_ok(sig: FnSig) -> bool {
    &&& !sig.is_const
    &&& sig.vis_inherited
    &&& !sig.has_abi
    &&& !sig.has_inputs
    &&& !sig.has_generic_params
    &&& !sig.has_where_clause
    &&& !sig.has_variadic
}

/// An entry point must also never return.
pub open spec fn spec_valid_entry_sig(sig: FnSig) -> bool {
    spec_sig_structure_ok(sig) && sig.ret is Never
}

/// An exception handler may return nothing or never return.
pub open spec fn spec_valid_exception_sig(sig: FnSig) -> bool {
    spec_sig_structure_ok(sig) && (sig.ret is Default || sig.ret is Unit || sig.ret is Never)
}

fn valid_entry_sig(sig: &FnSig) -> (r: bool)
    ensures
        r == spec_valid_entry_sig(*sig),
{
    !sig.is_const && sig.vis_inherited && !sig.has_abi && !sig.has_inputs
        && !sig.has_generic_params && !sig.has_where_clause && !sig.has_variadic && matches!(
        sig.ret,
        ReturnSig::Never,
    )
}

fn valid_exception_sig(sig: &FnSig) -> (r: bool)
    ensures
        r == spec_valid_exception_sig(*sig),
{
    !sig.is_const && sig.vis_inherited && !sig.has_abi && !sig.has_inputs
        && !sig.has_generic_params && !sig.has_where_clause && !sig.has_variadic && (matches!(
        sig.ret,
        ReturnSig::Default,
    ) || matches!(sig.ret, ReturnSig::Unit) || matches!(sig.ret, ReturnSig::Never))
}

/// The internal name of the renamed user function.
pub open spec fn spec_internal_name(name: Seq<char>) -> Seq<char> {
    "__cortex_m_rt_"@ + name
}

/// Renames the user function internally.
pub fn internal_name(name: &String) -> (r: String)
    ensures
        r@ == spec_internal_name(name@),
{
    let mut s: String = "__cortex_m_rt_".to_owned();
    s.append(name.as_str());
    s
}

/// Everything the generated text of one stub is produced from.
///
/// The renamed user function keeps `body` as its statements and takes one
/// exclusive-reference parameter per entry of `statics`, in order. The
/// trampoline is exported under `export_symbol`, guarded by `cfgs`,
/// carries `attrs`, allocates each extracted item as program-lifetime
/// storage initialized with its recorded initializer (under the
/// conditional-compilation guard it originally carried), takes an
/// exclusive reference to each in order, and calls the renamed function
/// positionally. An entry-point reference is valid for the whole program;
/// an exception handler receives a fresh exclusive reference to the same
/// storage on every invocation, which is sound only because masking keeps
/// handlers non-reentrant.
#[derive(Debug)]
pub struct StubPlan {
    /// The role the declaration was validated for.
    pub role: Role,
    /// The fixed external symbol the trampoline is bound to.
    pub export_symbol: String,
    /// The renamed user function the trampoline calls.
    pub internal_name: String,
    /// The extracted persistent items, one exclusive-reference parameter
    /// each, in order of first appearance.
    pub statics: Vec<StaticDecl>,
    /// The statements the renamed user function keeps.
    pub body: Vec<BodyStmt>,
    /// The conditional-compilation attributes of the declaration.
    pub cfgs: Vec<Attr>,
    /// The remaining attributes, carried onto the trampoline.
    pub attrs: Vec<Attr>,
}

/// What a plan produced from `decl` holds, for the given role and export
/// symbol.
pub open spec fn spec_plan_for(decl: FnDecl, role: Role, export: Seq<char>, plan: StubPlan) -> bool {
    &&& plan.role == role
    &&& plan.export_symbol@ == export
    &&& plan.internal_name@ == spec_internal_name(decl.sig.name@)
    &&& plan.statics@ == spec_muts_prefix(decl.stmts@, spec_halt(decl.stmts@))
    &&& plan.body@ == spec_kept_prefix(decl.stmts@, spec_halt(decl.stmts@)) + decl.stmts@.skip(
        spec_halt(decl.stmts@),
    )
    &&& plan.cfgs@ == decl.attrs@.filter(|a: Attr| spec_is_cfg(a))
    &&& plan.attrs@ == decl.attrs@.filter(|a: Attr| !spec_is_cfg(a))
}

/// All checks of the entry role pass: the signature is valid, the
/// annotation has no arguments, no extracted name repeats, and every
/// attribute is allowed.
pub open spec fn spec_entry_ok(decl: FnDecl, has_args: bool) -> bool {
    &&& spec_valid_entry_sig(decl.sig)
    &&& !has_args
    &&& spec_first_dup(decl.stmts@) is None
    &&& spec_first_bad_attr(decl.attrs@, 0) is None
}

/// The diagnostic the entry role raises, in its order of checks: signature,
/// arguments, duplicate names, attributes.
pub open spec fn spec_entry_err(decl: FnDecl, has_args: bool) -> GenError {
    if !spec_valid_entry_sig(decl.sig) {
        GenError::InvalidSignature
    } else if has_args {
        GenError::UnexpectedArguments
    } else {
        match spec_first_dup(decl.stmts@) {
            Some(j) => GenError::DuplicateStaticName {
                index: j as usize,
                name: spec_decl_of(decl.stmts@[j]).name,
            },
            None => match spec_first_bad_attr(decl.attrs@, 0) {
                Some(k) => GenError::DisallowedAttribute { role: Role::Entry, index: k as usize },
                None => arbitrary(),
            },
        }
    }
}

/// All checks of the exception role pass: every attribute is allowed, the
/// declared name is a recognized kind, the annotation has no arguments, the
/// signature is valid, and no extracted name repeats.
pub open spec fn spec_exception_ok(decl: FnDecl, has_args: bool) -> bool {
    &&& spec_first_bad_attr(decl.attrs@, 0) is None
    &&& ExceptionKind::spec_of_name(decl.sig.name@) is Some
    &&& !has_args
    &&& spec_valid_exception_sig(decl.sig)
    &&& spec_first_dup(decl.stmts@) is None
}

/// The diagnostic the exception role raises, in its order of checks:
/// attributes, kind name, arguments, signature, duplicate names.
pub open spec fn spec_exception_err(decl: FnDecl, has_args: bool) -> GenError {
    match spec_first_bad_attr(decl.attrs@, 0) {
        Some(k) => GenError::DisallowedAttribute { role: Role::Exception, index: k as usize },
        None => if ExceptionKind::spec_of_name(decl.sig.name@) is None {
            GenError::InvalidExceptionName
        } else if has_args {
            GenError::UnexpectedArguments
        } else if !spec_valid_exception_sig(decl.sig) {
            GenError::InvalidSignature
        } else {
            match spec_first_dup(decl.stmts@) {
                Some(j) => GenError::DuplicateStaticName {
                    index: j as usize,
                    name: spec_decl_of(decl.stmts@[j]).name,
                },
                None => arbitrary(),
            }
        },
    }
}

/// Validates `decl` for the entry role and plans its stub. `has_args` is
/// true when the annotation itself was given arguments. The trampoline is
/// bound to the external symbol `main`, the boot sequence's jump target;
/// its references are valid for the whole program, since the entry point
/// runs once and never returns.
pub fn entry(decl: FnDecl, has_args: bool) -> (r: Result<StubPlan, GenError>)
    ensures
        r is Ok <==> spec_entry_ok(decl, has_args),
        r matches Ok(plan) ==> spec_plan_for(decl, Role::Entry, "main"@, plan),
        r matches Err(e) ==> e == spec_entry_err(decl, has_args),
{
    let FnDecl { attrs, sig, stmts } = decl;
    if !valid_entry_sig(&sig) {
        return Err(GenError::InvalidSignature);
    }
    if has_args {
        return Err(GenError::UnexpectedArguments);
    }
    let (statics, body) = match extract_static_muts(stmts) {
        Ok(x) => x,
        Err(e) => {
            return Err(e);
        },
    };
    match check_attr_whitelist(&attrs, Role::Entry) {
        Ok(_) => {},
        Err(e) => {
            return Err(e);
        },
    }
    let (cfgs, other_attrs) = extract_cfgs(&attrs);
    let renamed = internal_name(&sig.name);
    Ok(
        StubPlan {
            role: Role::Entry,
            export_symbol: "main".to_owned(),
            internal_name: renamed,
            statics,
            body,
            cfgs,
            attrs: other_attrs,
        },
    )
}

/// Validates `decl` for the exception role and plans its stub. The
/// trampoline is exported under the declared kind name itself — the symbol
/// the vector table references. Its references are valid only for one
/// invocation: a later invocation receives a fresh exclusive reference to
/// the same storage, which is sound only while interrupt masking keeps the
/// handler non-reentrant; this stage does not enforce that.
pub fn exception(decl: FnDecl, has_args: bool) -> (r: Result<StubPlan, GenError>)
    ensures
        r is Ok <==> spec_exception_ok(decl, has_args),
        r matches Ok(plan) ==> spec_plan_for(decl, Role::Exception, decl.sig.name@, plan),
        r matches Err(e) ==> e == spec_exception_err(decl, has_args),
{
    let FnDecl { attrs, sig, stmts } = decl;
    match check_attr_whitelist(&attrs, Role::Exception) {
        Ok(_) => {},
        Err(e) => {
            return Err(e);
        },
    }
    if ExceptionKind::of_name(&sig.name).is_none() {
        return Err(GenError::InvalidExceptionName);
    }
    if has_args {
        return Err(GenError::UnexpectedArguments);
    }
    if !valid_exception_sig(&sig) {
        return Err(GenError::InvalidSignature);
    }
    let (statics, body) = match extract_static_muts(stmts) {
        Ok(x) => x,
        Err(e) => {
            return Err(e);
        },
    };
    let (cfgs, other_attrs) = extract_cfgs(&attrs);
    let renamed = internal_name(&sig.name);
    let export = sig.name.clone();
    Ok(
        StubPlan {
            role: Role::Exception,
            export_symbol: export,
            internal_name: renamed,
            statics,
            body,
            cfgs,
            attrs: other_attrs,
        },
    )
}

/// A declaration that does not diverge is rejected for the entry role with
/// the invalid-signature error, whatever else it holds; the identical
/// declaration in the exception role passes signature validation whenever
/// its return type is the unit type or the divergent type.
pub proof fn lemma_divergence_requirement(decl: FnDecl, has_args: bool)
    requires
        spec_sig_structure_ok(decl.sig),
    ensures
        !(decl.sig.ret is Never) ==> !spec_entry_ok(decl, has_args) && spec_entry_err(
            decl,
            has_args,
        ) == GenError::InvalidSignature,
        decl.sig.ret is Unit || decl.sig.ret is Never ==> spec_valid_exception_sig(decl.sig),
{
}

/// For any number of uniquely named mutable persistent declarations at the
/// head of a validated body, the planned stub receives exactly those as
/// exclusive-reference parameters, in source order; interleaved immutable
/// declarations are preserved in place in the kept body and are not
/// counted.
pub proof fn lemma_plan_parameters(decl: FnDecl, role: Role, export: Seq<char>, plan: StubPlan)
    requires
        spec_plan_for(decl, role, export, plan),
    ensures
        plan.statics@ == decl.stmts@.take(spec_halt(decl.stmts@)).filter(
            |s: BodyStmt| crate::validate::spec_is_mut_static(s),
        ).map_values(|s: BodyStmt| spec_decl_of(s)),
        plan.statics@.len() == decl.stmts@.take(spec_halt(decl.stmts@)).filter(
            |s: BodyStmt| crate::validate::spec_is_mut_static(s),
        ).len(),
        plan.body@ == decl.stmts@.take(spec_halt(decl.stmts@)).filter(
            |s: BodyStmt| crate::validate::spec_is_static(s)
                && !crate::validate::spec_is_mut_static(s),
        ) + decl.stmts@.skip(spec_halt(decl.stmts@)),
{
    crate::validate::lemma_extraction_shape(decl.stmts@);
}

proof fn lemma_first_bad_attr_finds(attrs: Seq<Attr>, i: int, j: int)
    requires
        0 <= i <= j < attrs.len(),
        !crate::validate::spec_attr_allowed(attrs[j]),
    ensures
        spec_first_bad_attr(attrs, i) matches Some(k) && i <= k <= j
            && !crate::validate::spec_attr_allowed(attrs[k]),
    decreases j - i,
{
    if !crate::validate::spec_attr_allowed(attrs[i]) {
    } else {
        lemma_first_bad_attr_finds(attrs, i + 1, j);
    }
}

/// An attribute outside the allowed set fails generation with the
/// disallowed-attribute error naming the annotation's role: outright for
/// the exception role, whose attribute check comes first; for the entry
/// role once the checks ahead of it — signature, arguments, duplicate
/// names — pass.
pub proof fn lemma_disallowed_attribute(decl: FnDecl, has_args: bool, i: int)
    requires
        decl.attrs@.len() <= usize::MAX,
        0 <= i < decl.attrs@.len(),
        !crate::validate::spec_attr_allowed(decl.attrs@[i]),
    ensures
        !spec_exception_ok(decl, has_args),
        spec_exception_err(decl, has_args) matches GenError::DisallowedAttribute {
            role: Role::Exception,
            index,
        } && !crate::validate::spec_attr_allowed(decl.attrs@[index as int]),
        spec_valid_entry_sig(decl.sig) && !has_args && spec_first_dup(decl.stmts@) is None
            ==> !spec_entry_ok(decl, has_args) && (spec_entry_err(
            decl,
            has_args,
        ) matches GenError::DisallowedAttribute {
            role: Role::Entry,
            index,
        } && !crate::validate::spec_attr_allowed(decl.attrs@[index as int])),
{
    lemma_first_bad_attr_finds(decl.attrs@, 0, i);
}

} // verus!
