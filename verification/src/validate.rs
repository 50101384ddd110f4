//! Validation and extraction over annotated function declarations.
//!
//! A declaration is reduced to what validation reads: its attributes, the
//! structural facts of its signature, and its body statements, each either a
//! persistent (`static`) declaration or an opaque statement kept verbatim.
//! Validation checks the attribute whitelist and the structural constraints
//! of the entry and exception roles; extraction removes the leading mutable
//! persistent declarations — stopping at the first statement that is not a
//! persistent declaration — and rejects a repeated name among them.

use vstd::prelude::*;

use crate::vector::string_eq_literal;

verus! {

/// Which annotation a declaration carries; some diagnostics name the role.
#[derive(Clone, Copy, Debug, PartialEq, Eq, Structural)]
pub enum Role {
    /// The program entry point.
    Entry,
    /// An exception handler.
    Exception,
}

/// Why generation was refused; each value identifies the offending
/// declaration part where one exists.
#[derive(Debug, PartialEq, Eq)]
pub enum GenError {
    /// The signature breaks the structural constraints of its role.
    InvalidSignature,
    /// The annotation itself was given arguments.
    UnexpectedArguments,
    /// The declared name of an exception handler is not a recognized kind.
    InvalidExceptionName,
    /// An attribute outside the allowed set; `index` is its position among
    /// the declaration's attributes.
    DisallowedAttribute {
        /// Which role's diagnostic is raised.
        role: Role,
        /// Position of the offending attribute.
        index: usize,
    },
    /// A mutable persistent declaration repeats an earlier name; `index` is
    /// the position of the second occurrence among the body statements.
    DuplicateStaticName {
        /// Position of the second occurrence.
        index: usize,
        /// The repeated name.
        name: String,
    },
}

/// An attribute on a declaration, reduced to what validation reads: whether
/// it is an outer attribute, its path when that is a plain identifier, and —
/// when the path is the `unsafe` wrapper — the identifier inside it.
#[derive(Debug)]
pub struct Attr {
    /// True for an outer attribute.
    pub outer: bool,
    /// The attribute's path, when it is a single identifier.
    pub path: Option<String>,
    /// The identifier wrapped by an `unsafe(...)` path, if any.
    pub unsafe_inner: Option<String>,
}

impl Clone for Attr {
    fn clone(&self) -> (res: Self)
        ensures
            res == *self,
    {
        Attr {
            outer: self.outer,
            path: clone_name(&self.path),
            unsafe_inner: clone_name(&self.unsafe_inner),
        }
    }
}

fn clone_name(o: &Option<String>) -> (r: Option<String>)
    ensures
        r == *o,
{
    match o {
        Some(s) => Some(s.clone()),
        None => None,
    }
}

/// A mutable or immutable persistent (`static`) declaration from a function
/// body. The declared type, the initializer and the attributes ride along
/// untouched; validation reads only the name and the mutability.
#[derive(Debug)]
pub struct StaticDecl {
    /// The declared name.
    pub name: String,
    /// True for a mutable declaration.
    pub mutable: bool,
    /// The declared type, carried verbatim.
    pub ty: String,
    /// The initializer, carried verbatim.
    pub init: String,
    /// The attributes on the declaration.
    pub attrs: Vec<Attr>,
}

/// One statement of a function body: a persistent declaration, or any other
/// statement, carried verbatim.
#[derive(Debug)]
pub enum BodyStmt {
    /// A persistent declaration.
    Static(StaticDecl),
    /// Any other statement, carried verbatim.
    Other(String),
}

/// True for a persistent declaration of either mutability.
pub open spec fn spec_is_static(s: BodyStmt) -> bool {
    s is Static
}

/// True for a mutable persistent declaration.
pub open spec fn spec_is_mut_static(s: BodyStmt) -> bool {
    match s {
        BodyStmt::Static(d) => d.mutable,
        BodyStmt::Other(_) => false,
    }
}

/// The declaration held by a `Static` statement.
pub open spec fn spec_decl_of(s: BodyStmt) -> StaticDecl {
    match s {
        BodyStmt::Static(d) => d,
        BodyStmt::Other(_) => arbitrary(),
    }
}

/// The name an attribute is judged by: nothing for an inner attribute or a
/// non-identifier path; the wrapped identifier for an `unsafe(...)` path;
/// the path itself otherwise.
pub open spec fn spec_attr_name(a: Attr) -> Option<Seq<char>> {
    if !a.outer {
        None
    } else {
        match a.path {
            Some(p) => if p@ == "unsafe"@ {
                match a.unsafe_inner {
                    Some(inner) => Some(inner@),
                    None => None,
                }
            } else {
                Some(p@)
            },
            None => None,
        }
    }
}

/// The allowed set: documentation, link placement, conditional compilation,
/// lint control, and the two hardware hints (cold path and the no-return
/// optimization barrier).
pub open spec fn spec_whitelisted(n: Seq<char>) -> bool {
    n == "doc"@ || n == "link_section"@ || n == "cfg"@ || n == "allow"@ || n == "warn"@
        || n == "deny"@ || n == "forbid"@ || n == "cold"@ || n == "naked"@ || n == "expect"@
}

/// True when the attribute resolves to a whitelisted name.
pub open spec fn spec_attr_allowed(a: Attr) -> bool {
    match spec_attr_name(a) {
        Some(n) => spec_whitelisted(n),
        None => false,
    }
}

/// The name an attribute is judged by, if any.
pub fn get_attr_name(a: &Attr) -> (r: Option<String>)
    ensures
        (r is Some) == (spec_attr_name(*a) is Some),
        r matches Some(s) ==> spec_attr_name(*a) == Some(s@),
{
    if !a.outer {
        return None;
    }
    match &a.path {
        Some(p) => {
            if string_eq_literal(p, "unsafe") {
                match &a.unsafe_inner {
                    Some(inner) => Some(inner.clone()),
                    None => None,
                }
            } else {
                Some(p.clone())
            }
        },
        None => None,
    }
}

fn attr_allowed(a: &Attr) -> (r: bool)
    ensures
        r == spec_attr_allowed(*a),
{
    match get_attr_name(a) {
        Some(n) => {
            string_eq_literal(&n, "doc") || string_eq_literal(&n, "link_section")
                || string_eq_literal(&n, "cfg") || string_eq_literal(&n, "allow")
                || string_eq_literal(&n, "warn") || string_eq_literal(&n, "deny")
                || string_eq_literal(&n, "forbid") || string_eq_literal(&n, "cold")
                || string_eq_literal(&n, "naked") || string_eq_literal(&n, "expect")
        },
        None => false,
    }
}

/// The position of the first attribute outside the allowed set, at or after
/// `i`.
pub open spec fn spec_first_bad_attr(attrs: Seq<Attr>, i: int) -> Option<int>
    decreases attrs.len() - i,
{
    if i < 0 || i >= attrs.len() {
        None
    } else if !spec_attr_allowed(attrs[i]) {
        Some(i)
    } else {
        spec_first_bad_attr(attrs, i + 1)
    }
}

/// Checks every attribute against the allowed set; the first offender fails
/// generation with the disallowed-attribute error, naming the role.
pub fn check_attr_whitelist(attrs: &Vec<Attr>, role: Role) -> (r: Result<(), GenError>)
    ensures
        r == match spec_first_bad_attr(attrs@, 0) {
            None => Ok::<(), GenError>(()),
            Some(j) => Err(GenError::DisallowedAttribute { role, index: j as usize }),
        },
{
    let mut i: usize = 0;
    while i < attrs.len()
        invariant
            i <= attrs.len(),
            spec_first_bad_attr(attrs@, 0) == spec_first_bad_attr(attrs@, i as int),
        decreases attrs.len() - i,
    {
        if !attr_allowed(&attrs[i]) {
            return Err(GenError::DisallowedAttribute { role, index: i });
        }
        i = i + 1;
    }
    Ok(())
}

/// True for an outer attribute whose path is the plain identifier `cfg`; an
/// `unsafe(...)` wrapper is not looked into here.
pub open spec fn spec_is_cfg(a: Attr) -> bool {
    a.outer && match a.path {
        Some(p) => p@ == "cfg"@,
        None => false,
    }
}

/// True for a conditional-compilation attribute.
pub fn is_cfg_attr(a: &Attr) -> (r: bool)
    ensures
        r == spec_is_cfg(*a),
{
    if !a.outer {
        return false;
    }
    match &a.path {
        Some(p) => string_eq_literal(p, "cfg"),
        None => false,
    }
}

/// Splits attributes into the conditional-compilation ones and the rest,
/// each side in its stmts@inal order.
pub fn extract_cfgs(attrs: &Vec<Attr>) -> (r: (Vec<Attr>, Vec<Attr>))
    ensures
        r.0@ == attrs@.filter(|a: Attr| spec_is_cfg(a)),
        r.1@ == attrs@.filter(|a: Attr| !spec_is_cfg(a)),
{
    let mut cfgs: Vec<Attr> = Vec::new();
    let mut not_cfgs: Vec<Attr> = Vec::new();
    let mut i: usize = 0;
    proof {
        reveal(Seq::filter);
    }
    while i < attrs.len()
        invariant
            i <= attrs.len(),
            cfgs@ == attrs@.take(i as int).filter(|a: Attr| spec_is_cfg(a)),
            not_cfgs@ == attrs@.take(i as int).filter(|a: Attr| !spec_is_cfg(a)),
        decreases attrs.len() - i,
    {
        let a = attrs[i].clone();
        proof {
            reveal(Seq::filter);
            assert(attrs@.take(i + 1).drop_last() =~= attrs@.take(i as int));
            assert(attrs@.take(i + 1).last() == attrs@[i as int]);
        }
        if is_cfg_attr(&a) {
            cfgs.push(a);
        } else {
            not_cfgs.push(a);
        }
        i = i + 1;
    }
    proof {
        assert(attrs@.take(attrs@.len() as int) =~= attrs@);
    }
    (cfgs, not_cfgs)
}

/// The index of the first statement, at or after `i`, that is not a
/// persistent declaration; the body length if every remaining statement is
/// one. Scanning for extraction stops there.
pub open spec fn spec_halt_from(stmts: Seq<BodyStmt>, i: int) -> int
    decreases stmts.len() - i,
{
    if i < 0 || i >= stmts.len() {
        stmts.len() as int
    } else if !spec_is_static(stmts[i]) {
        i
    } else {
        spec_halt_from(stmts, i + 1)
    }
}

/// The index at which extraction stops scanning.
pub open spec fn spec_halt(stmts: Seq<BodyStmt>) -> int {
    spec_halt_from(stmts, 0)
}

/// The mutable persistent declarations among the first `i` statements, in
/// order of appearance.
pub open spec fn spec_muts_prefix(stmts: Seq<BodyStmt>, i: int) -> Seq<StaticDecl>
    decreases i,
{
    if i <= 0 {
        Seq::empty()
    } else {
        let prev = spec_muts_prefix(stmts, i - 1);
        if spec_is_mut_static(stmts[i - 1]) {
            prev.push(spec_decl_of(stmts[i - 1]))
        } else {
            prev
        }
    }
}

/// The immutable persistent declarations among the first `i` statements, in
/// order of appearance; extraction leaves them in place.
pub open spec fn spec_kept_prefix(stmts: Seq<BodyStmt>, i: int) -> Seq<BodyStmt>
    decreases i,
{
    if i <= 0 {
        Seq::empty()
    } else {
        let prev = spec_kept_prefix(stmts, i - 1);
        if spec_is_static(stmts[i - 1]) && !spec_is_mut_static(stmts[i - 1]) {
            prev.push(stmts[i - 1])
        } else {
            prev
        }
    }
}

/// The names of a run of declarations, in order.
pub open spec fn spec_names(decls: Seq<StaticDecl>) -> Seq<Seq<char>> {
    decls.map_values(|d: StaticDecl| d.name@)
}

/// True when statement `j` is a mutable persistent declaration repeating
/// the name of an earlier extracted one.
pub open spec fn spec_dup_at(stmts: Seq<BodyStmt>, j: int) -> bool {
    spec_is_mut_static(stmts[j]) && spec_names(spec_muts_prefix(stmts, j)).contains(
        spec_decl_of(stmts[j]).name@,
    )
}

/// The position of the first repeated-name mutable declaration at or after
/// `i`, within the scanned prefix.
pub open spec fn spec_first_dup_from(stmts: Seq<BodyStmt>, i: int) -> Option<int>
    decreases stmts.len() - i,
{
    if i < 0 || i >= stmts.len() {
        None
    } else if i >= spec_halt(stmts) {
        None
    } else if spec_dup_at(stmts, i) {
        Some(i)
    } else {
        spec_first_dup_from(stmts, i + 1)
    }
}

/// The position of the statement a duplicate-name error reports, if any.
pub open spec fn spec_first_dup(stmts: Seq<BodyStmt>) -> Option<int> {
    spec_first_dup_from(stmts, 0)
}

/// Scanning never stops before `i`.
proof fn lemma_halt_from_ge(stmts: Seq<BodyStmt>, i: int)
    requires
        0 <= i <= stmts.len(),
    ensures
        spec_halt_from(stmts, i) >= i,
        spec_halt_from(stmts, i) <= stmts.len(),
    decreases stmts.len() - i,
{
    if i < stmts.len() && spec_is_static(stmts[i]) {
        lemma_halt_from_ge(stmts, i + 1);
    }
}

/// Every statement before the halt index is a persistent declaration, and
/// the halt index is the first counterexample where one exists.
pub proof fn lemma_halt_characterizes(stmts: Seq<BodyStmt>)
    ensures
        0 <= spec_halt(stmts) <= stmts.len(),
        forall|j: int| 0 <= j < spec_halt(stmts) ==> spec_is_static(#[trigger] stmts[j]),
        spec_halt(stmts) < stmts.len() ==> !spec_is_static(stmts[spec_halt(stmts)]),
{
    lemma_halt_prefix_static(stmts, 0);
}

proof fn lemma_halt_prefix_static(stmts: Seq<BodyStmt>, i: int)
    requires
        0 <= i <= stmts.len(),
    ensures
        i <= spec_halt_from(stmts, i) <= stmts.len(),
        forall|j: int|
            i <= j < spec_halt_from(stmts, i) ==> spec_is_static(#[trigger] stmts[j]),
        spec_halt_from(stmts, i) < stmts.len() ==> !spec_is_static(
            stmts[spec_halt_from(stmts, i)],
        ),
    decreases stmts.len() - i,
{
    if i < stmts.len() && spec_is_static(stmts[i]) {
        lemma_halt_prefix_static(stmts, i + 1);
    }
}

fn decls_contain_name(decls: &Vec<StaticDecl>, name: &String) -> (r: bool)
    ensures
        r == spec_names(decls@).contains(name@),
{
    let mut i: usize = 0;
    while i < decls.len()
        invariant
            i <= decls.len(),
            forall|k: int| 0 <= k < i ==> spec_names(decls@)[k] != name@,
        decreases decls.len() - i,
    {
        if string_eq_literal(name, decls[i].name.as_str()) {
            proof {
                assert(spec_names(decls@)[i as int] == name@);
            }
            return true;
        }
        i = i + 1;
    }
    proof {
        assert forall|k: int| 0 <= k < spec_names(decls@).len() implies spec_names(decls@)[k]
            != name@ by {}
    }
    false
}

/// Scans the body from the start: a mutable persistent declaration is
/// removed and recorded in order of appearance; an immutable one is left in
/// place; the first statement of any other kind stops the scan, and it and
/// everything after it — further persistent declarations included — is kept
/// verbatim. A repeated name among the extracted items fails with the
/// duplicate-name error identifying the second occurrence.
pub fn extract_static_muts(stmts: Vec<BodyStmt>) -> (r: Result<
    (Vec<StaticDecl>, Vec<BodyStmt>),
    GenError,
>)
    ensures
        match r {
            Ok(out) => spec_first_dup(stmts@) is None && out.0@ == spec_muts_prefix(
                stmts@,
                spec_halt(stmts@),
            ) && out.1@ == spec_kept_prefix(stmts@, spec_halt(stmts@)) + stmts@.skip(
                spec_halt(stmts@),
            ),
            Err(e) => match spec_first_dup(stmts@) {
                Some(j) => e == (GenError::DuplicateStaticName {
                    index: j as usize,
                    name: spec_decl_of(stmts@[j]).name,
                }),
                None => false,
            },
        },
{
    let mut rest = stmts;
    let total: usize = rest.len();
    proof {
        assert(stmts@.len() == total);
    }
    let mut statics: Vec<StaticDecl> = Vec::new();
    let mut kept: Vec<BodyStmt> = Vec::new();
    let mut i: usize = 0;
    loop
        invariant_except_break
            i <= stmts@.len(),
            stmts@.len() <= usize::MAX,
            rest@ == stmts@.skip(i as int),
            spec_halt_from(stmts@, i as int) == spec_halt(stmts@),
            spec_first_dup_from(stmts@, i as int) == spec_first_dup(stmts@),
            statics@ == spec_muts_prefix(stmts@, i as int),
            kept@ == spec_kept_prefix(stmts@, i as int),
        ensures
            i == spec_halt(stmts@),
            i <= stmts@.len(),
            rest@ == stmts@.skip(i as int),
            spec_first_dup(stmts@) is None,
            statics@ == spec_muts_prefix(stmts@, spec_halt(stmts@)),
            kept@ == spec_kept_prefix(stmts@, spec_halt(stmts@)),
        decreases stmts@.len() - i,
    {
        proof {
            lemma_halt_from_ge(stmts@, i as int);
        }
        if rest.len() == 0 {
            break;
        }
        if !stmt_is_static(&rest[0]) {
            break;
        }
        let s = rest.remove(0);
        proof {
            assert(s == stmts@[i as int]);
            assert(rest@ =~= stmts@.skip(i + 1));
            lemma_halt_from_ge(stmts@, i + 1);
        }
        match s {
            BodyStmt::Static(d) => {
                proof {
                    assert(spec_is_static(stmts@[i as int]));
                    assert(spec_halt(stmts@) >= i + 1);
                }
                if d.mutable {
                    if decls_contain_name(&statics, &d.name) {
                        proof {
                            assert(spec_dup_at(stmts@, i as int));
                            assert(spec_first_dup_from(stmts@, i as int) == Some(i as int));
                            assert(spec_first_dup(stmts@) == Some(i as int));
                            assert(spec_decl_of(stmts@[i as int]) == d);
                        }
                        return Err(GenError::DuplicateStaticName { index: i, name: d.name });
                    }
                    statics.push(d);
                } else {
                    kept.push(BodyStmt::Static(d));
                }
            },
            BodyStmt::Other(_) => {
                proof {
                    assert(false);
                }
            },
        }
        proof {
            assert(i < stmts@.len());
        }
        i = i + 1;
    }
    while rest.len() > 0
        invariant
            0 <= spec_halt(stmts@) <= i <= stmts@.len(),
            stmts@.len() <= usize::MAX,
            rest@ == stmts@.skip(i as int),
            spec_first_dup(stmts@) is None,
            statics@ == spec_muts_prefix(stmts@, spec_halt(stmts@)),
            kept@ == spec_kept_prefix(stmts@, spec_halt(stmts@)) + stmts@.subrange(
                spec_halt(stmts@),
                i as int,
            ),
        decreases rest.len(),
    {
        let s = rest.remove(0);
        proof {
            assert(s == stmts@[i as int]);
            assert(rest@ =~= stmts@.skip(i + 1));
            assert(stmts@.subrange(spec_halt(stmts@), i + 1) =~= stmts@.subrange(
                spec_halt(stmts@),
                i as int,
            ).push(stmts@[i as int]));
        }
        kept.push(s);
        proof {
            assert(i < stmts@.len());
        }
        i = i + 1;
    }
    proof {
        assert(stmts@.subrange(spec_halt(stmts@), stmts@.len() as int) =~= stmts@.skip(spec_halt(stmts@)));
        assert(kept@ == spec_kept_prefix(stmts@, spec_halt(stmts@)) + stmts@.skip(
            spec_halt(stmts@),
        ));
    }
    Ok((statics, kept))
}

fn stmt_is_static(s: &BodyStmt) -> (r: bool)
    ensures
        r == spec_is_static(*s),
{
    match s {
        BodyStmt::Static(_) => true,
        BodyStmt::Other(_) => false,
    }
}

/// What extraction hands the stub, for any number of leading declarations:
/// the extracted items are exactly the mutable persistent declarations of
/// the scanned prefix, in source order — the stub receives one
/// exclusive-reference parameter per item — and what stays of the prefix is
/// exactly its immutable persistent declarations, in place and uncounted.
pub proof fn lemma_extraction_shape(stmts: Seq<BodyStmt>)
    ensures
        spec_muts_prefix(stmts, spec_halt(stmts)) == stmts.take(spec_halt(stmts)).filter(
            |s: BodyStmt| spec_is_mut_static(s),
        ).map_values(|s: BodyStmt| spec_decl_of(s)),
        spec_kept_prefix(stmts, spec_halt(stmts)) == stmts.take(spec_halt(stmts)).filter(
            |s: BodyStmt| spec_is_static(s) && !spec_is_mut_static(s),
        ),
{
    lemma_halt_characterizes(stmts);
    lemma_prefix_shape(stmts, spec_halt(stmts));
}

proof fn lemma_prefix_shape(stmts: Seq<BodyStmt>, i: int)
    requires
        0 <= i <= stmts.len(),
    ensures
        spec_muts_prefix(stmts, i) == stmts.take(i).filter(|s: BodyStmt| spec_is_mut_static(s)).map_values(
            |s: BodyStmt| spec_decl_of(s),
        ),
        spec_kept_prefix(stmts, i) == stmts.take(i).filter(
            |s: BodyStmt| spec_is_static(s) && !spec_is_mut_static(s),
        ),
    decreases i,
{
    reveal(Seq::filter);
    if i == 0 {
        assert(stmts.take(0) =~= Seq::<BodyStmt>::empty());
        assert(Seq::<BodyStmt>::empty().filter(|s: BodyStmt| spec_is_mut_static(s)).map_values(
            |s: BodyStmt| spec_decl_of(s),
        ) =~= Seq::<StaticDecl>::empty());
        assert(Seq::<BodyStmt>::empty().filter(
            |s: BodyStmt| spec_is_static(s) && !spec_is_mut_static(s),
        ) =~= Seq::<BodyStmt>::empty());
    } else {
        lemma_prefix_shape(stmts, i - 1);
        let t = stmts.take(i);
        assert(t.drop_last() =~= stmts.take(i - 1));
        assert(t.last() == stmts[i - 1]);
        let pm = stmts.take(i - 1).filter(|s: BodyStmt| spec_is_mut_static(s));
        if spec_is_mut_static(stmts[i - 1]) {
            assert(pm.push(stmts[i - 1]).map_values(|s: BodyStmt| spec_decl_of(s)) =~= pm.map_values(
                |s: BodyStmt| spec_decl_of(s),
            ).push(spec_decl_of(stmts[i - 1])));
        }
    }
}

proof fn lemma_muts_prefix_has(stmts: Seq<BodyStmt>, i: int, j: int)
    requires
        0 <= i < j,
        j <= stmts.len(),
        spec_is_mut_static(stmts[i]),
    ensures
        spec_names(spec_muts_prefix(stmts, j)).contains(spec_decl_of(stmts[i]).name@),
    decreases j,
{
    let x = spec_decl_of(stmts[i]).name@;
    if j == i + 1 {
        let cur = spec_muts_prefix(stmts, j);
        assert(spec_names(cur)[cur.len() - 1] == x);
    } else {
        lemma_muts_prefix_has(stmts, i, j - 1);
        let prev = spec_muts_prefix(stmts, j - 1);
        let k = choose|k: int| 0 <= k < spec_names(prev).len() && spec_names(prev)[k] == x;
        if spec_is_mut_static(stmts[j - 1]) {
            assert(spec_names(spec_muts_prefix(stmts, j))[k] == x);
        } else {
            assert(spec_names(spec_muts_prefix(stmts, j))[k] == x);
        }
    }
}

proof fn lemma_first_dup_finds(stmts: Seq<BodyStmt>, i: int, j: int)
    requires
        0 <= i <= j < spec_halt(stmts),
        spec_halt(stmts) <= stmts.len(),
        spec_dup_at(stmts, j),
    ensures
        spec_first_dup_from(stmts, i) matches Some(k) && i <= k <= j && spec_dup_at(stmts, k),
    decreases j - i,
{
    if spec_dup_at(stmts, i) {
    } else {
        lemma_first_dup_finds(stmts, i + 1, j);
    }
}

/// Two mutable persistent declarations of the same name within the scanned
/// prefix of one function body fail generation with the duplicate-name
/// error, which identifies a second occurrence: the reported statement —
/// no later than the repetition itself — is a mutable declaration
/// repeating the name of an item extracted before it.
pub proof fn lemma_duplicate_name_rejected(stmts: Seq<BodyStmt>, i: int, j: int)
    requires
        0 <= i < j < spec_halt(stmts),
        spec_is_mut_static(stmts[i]),
        spec_is_mut_static(stmts[j]),
        spec_decl_of(stmts[j]).name@ == spec_decl_of(stmts[i]).name@,
    ensures
        spec_first_dup(stmts) matches Some(k) && 0 <= k <= j && spec_dup_at(stmts, k),
{
    lemma_halt_characterizes(stmts);
    lemma_muts_prefix_has(stmts, i, j);
    lemma_first_dup_finds(stmts, 0, j);
}

} // verus!
