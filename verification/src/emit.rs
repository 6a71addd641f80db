//! The emitter: the source text of one generated implementation per
//! declared target, one merge statement per field, in declaration order.
//!
//! Every contract pins the emitted text exactly, character for character.

use vstd::prelude::*;
use vstd::string::StringExecFns;
use crate::extract::extract_schema;
use crate::extract::extract_spec;
use crate::resolve::resolve_field;
use crate::resolve::resolve_spec;
use crate::schema::ExtractError;
use crate::schema::FieldName;
use crate::schema::FieldNameV;
use crate::schema::FieldSchema;
use crate::schema::FieldSchemaV;
use crate::schema::MergePolicy;
use crate::schema::MergePolicyV;
use crate::schema::PolicyAttr;
use crate::schema::RawDataV;
use crate::schema::RawDecl;
use crate::schema::RawDeclV;
use crate::schema::TypeSchema;
use crate::schema::TypeSchemaV;
use crate::text::dec_str;
use crate::text::render_index;

verus! {

/// The text of a field's name: the identifier, or the position in decimal.
pub open spec fn name_text(n: FieldNameV) -> Seq<char> {
    match n {
        FieldNameV::Ident(s) => s,
        FieldNameV::Index(i) => dec_str(i),
    }
}

/// The merge statement for one field under one resolved policy, without a
/// guard.  `Skip` contributes no text.
pub open spec fn stmt_text(name: Seq<char>, p: MergePolicyV) -> Seq<char> {
    match p {
        MergePolicyV::Overwrite => "target."@ + name + " = self."@ + name + ";"@,
        MergePolicyV::OverwriteIfOptionPresent => "if let Some(val) = self."@ + name
            + " { target."@ + name + " = val; }"@,
        MergePolicyV::OverwriteOptionIfPresent => "if self."@ + name + ".is_some() { target."@
            + name + " = self."@ + name + "; }"@,
        MergePolicyV::Custom(f) => "target."@ + name + " = "@ + f + "(target."@ + name
            + ", self."@ + name + ");"@,
        MergePolicyV::Skip => Seq::empty(),
    }
}

/// The merge statement with its `skip_if` guard, when the field carries
/// one: the guard predicate is consulted first and the statement runs only
/// when it does not hold.
pub open spec fn guarded_stmt_text(
    name: Seq<char>,
    p: MergePolicyV,
    skip_if: Option<Seq<char>>,
) -> Seq<char> {
    if p is Skip {
        Seq::empty()
    } else {
        match skip_if {
            Option::Some(g) => "if !"@ + g + "(&self."@ + name + ") { "@ + stmt_text(name, p)
                + " }"@,
            Option::None => stmt_text(name, p),
        }
    }
}

/// The indented statement line of one field, resolved under the type-level
/// defaults.  A skipped field contributes no line.
pub open spec fn stmt_line(
    f: FieldSchemaV,
    type_policy: Option<PolicyAttr>,
    type_apply: Option<Seq<char>>,
) -> Seq<char> {
    let p = resolve_spec(f, type_policy, type_apply);
    if p is Skip {
        Seq::empty()
    } else {
        "        "@ + guarded_stmt_text(name_text(f.name), p, f.skip_if) + "\n"@
    }
}

/// The statement lines of the first `i` fields, in declaration order.
pub open spec fn stmts_upto(
    fields: Seq<FieldSchemaV>,
    type_policy: Option<PolicyAttr>,
    type_apply: Option<Seq<char>>,
    i: int,
) -> Seq<char>
    decreases i,
{
    if 0 < i && i <= fields.len() {
        stmts_upto(fields, type_policy, type_apply, i - 1) + stmt_line(
            fields[i - 1],
            type_policy,
            type_apply,
        )
    } else {
        Seq::empty()
    }
}

/// The generated implementation binding a schema to one target.
pub open spec fn impl_text(s: TypeSchemaV, target: Seq<char>) -> Seq<char> {
    "impl ::rust_patch::Patch<"@ + target + "> for "@ + s.ident + " {\n    fn apply(self, mut target: "@
        + target + ") -> "@ + target + " {\n"@ + stmts_upto(
        s.fields,
        s.policy,
        s.apply,
        s.fields.len() as int,
    ) + "        target\n    }\n}\n"@
}

/// The implementations for the first `i` targets, in declaration order.
pub open spec fn impls_upto(s: TypeSchemaV, i: int) -> Seq<char>
    decreases i,
{
    if 0 < i && i <= s.targets.len() {
        impls_upto(s, i - 1) + impl_text(s, s.targets[i - 1])
    } else {
        Seq::empty()
    }
}

/// The whole generated output of a schema: one implementation per declared
/// target.  With no targets, no output.
pub open spec fn impls_text(s: TypeSchemaV) -> Seq<char> {
    impls_upto(s, s.targets.len() as int)
}

/// The whole generation pass over a raw declaration: the generated source
/// text, or the first extraction error.
pub open spec fn generate_spec(d: RawDeclV) -> Result<Seq<char>, ExtractError> {
    match extract_spec(d) {
        Result::Ok(s) => Result::Ok(impls_text(s)),
        Result::Err(e) => Result::Err(e),
    }
}

/// Render a field's name.
pub fn render_name(n: &FieldName) -> (r: String)
    ensures
        r@ == name_text(n@),
{
    match n {
        FieldName::Ident(s) => s.clone(),
        FieldName::Index(i) => render_index(*i),
    }
}

/// Emit one field's merge statement under one resolved policy, without a
/// guard.
pub fn emit_stmt(name: &String, p: &MergePolicy) -> (r: String)
    ensures
        r@ == stmt_text(name@, p@),
{
    let mut s = String::new();
    match p {
        MergePolicy::Overwrite => {
            s.append("target.");
            s.append(name.as_str());
            s.append(" = self.");
            s.append(name.as_str());
            s.append(";");
        },
        MergePolicy::OverwriteIfOptionPresent => {
            s.append("if let Some(val) = self.");
            s.append(name.as_str());
            s.append(" { target.");
            s.append(name.as_str());
            s.append(" = val; }");
        },
        MergePolicy::OverwriteOptionIfPresent => {
            s.append("if self.");
            s.append(name.as_str());
            s.append(".is_some() { target.");
            s.append(name.as_str());
            s.append(" = self.");
            s.append(name.as_str());
            s.append("; }");
        },
        MergePolicy::Custom(f) => {
            s.append("target.");
            s.append(name.as_str());
            s.append(" = ");
            s.append(f.as_str());
            s.append("(target.");
            s.append(name.as_str());
            s.append(", self.");
            s.append(name.as_str());
            s.append(");");
        },
        MergePolicy::Skip => {},
    }
    proof {
        assert(s@ =~= stmt_text(name@, p@));
    }
    s
}

/// Emit one field's merge statement with its `skip_if` guard, if any.
pub fn emit_guarded_stmt(name: &String, p: &MergePolicy, skip_if: &Option<String>) -> (r: String)
    ensures
        r@ == guarded_stmt_text(name@, p@, skip_if.deep_view()),
{
    let inner = emit_stmt(name, p);
    if matches!(p, MergePolicy::Skip) {
        let r = String::new();
        proof {
            assert(r@ =~= guarded_stmt_text(name@, p@, skip_if.deep_view()));
        }
        return r;
    }
    match skip_if {
        Option::Some(g) => {
            let mut s = String::new();
            s.append("if !");
            s.append(g.as_str());
            s.append("(&self.");
            s.append(name.as_str());
            s.append(") { ");
            s.append(inner.as_str());
            s.append(" }");
            proof {
                assert(s@ =~= guarded_stmt_text(name@, p@, skip_if.deep_view()));
            }
            s
        },
        Option::None => inner,
    }
}

/// Emit the generated implementation binding a schema to one target.
#[verifier::loop_isolation(false)]
pub fn emit_impl(s: &TypeSchema, target: &String) -> (r: String)
    ensures
        r@ == impl_text(s@, target@),
{
    let mut out = String::new();
    out.append("impl ::rust_patch::Patch<");
    out.append(target.as_str());
    out.append("> for ");
    out.append(s.ident.as_str());
    out.append(" {\n    fn apply(self, mut target: ");
    out.append(target.as_str());
    out.append(") -> ");
    out.append(target.as_str());
    out.append(" {\n");
    let ghost head = out@;

    let nf = s.fields.len();
    for i in 0..nf
        invariant
            out@ =~= head + stmts_upto(s@.fields, s@.policy, s@.apply, i as int),
    {
        let f = &s.fields[i];
        assert(f@ == s@.fields[i as int]);
        let p = resolve_field(f, s.policy, &s.apply);
        let name = render_name(&f.name);
        let stmt = emit_guarded_stmt(&name, &p, &f.skip_if);
        if !matches!(p, MergePolicy::Skip) {
            out.append("        ");
            out.append(stmt.as_str());
            out.append("\n");
        }
        proof {
            assert(out@ =~= head + stmts_upto(s@.fields, s@.policy, s@.apply, i as int + 1));
        }
    }
    out.append("        target\n    }\n}\n");
    proof {
        assert(out@ =~= impl_text(s@, target@));
    }
    out
}

/// Emit the whole generated output of a schema: one implementation per
/// declared target, in declaration order.
#[verifier::loop_isolation(false)]
pub fn emit_impls(s: &TypeSchema) -> (r: String)
    ensures
        r@ == impls_text(s@),
{
    let mut out = String::new();
    let nt = s.targets.len();
    for i in 0..nt
        invariant
            out@ =~= impls_upto(s@, i as int),
    {
        let one = emit_impl(s, &s.targets[i]);
        out.append(one.as_str());
        proof {
            assert(s.targets@[i as int]@ == s@.targets[i as int]);
            assert(out@ =~= impls_upto(s@, i as int + 1));
        }
    }
    out
}

/// The whole generation pass: extract the schema of a raw declaration and
/// emit the implementations for all of its targets, or reject the
/// declaration with the first extraction error.
pub fn generate(decl: RawDecl) -> (r: Result<String, ExtractError>)
    requires
        decl@.data matches RawDataV::Named(fs) ==> forall|i: int|
            0 <= i < fs.len() ==> (#[trigger] fs[i].ident) is Some,
    ensures
        (r matches Result::Ok(text) ==> generate_spec(decl@) == Result::Ok::<
            Seq<char>,
            ExtractError,
        >(text@)),
        (r matches Result::Err(e) ==> generate_spec(decl@) == Result::Err::<
            Seq<char>,
            ExtractError,
        >(e)),
{
    match extract_schema(decl) {
        Result::Ok(schema) => Result::Ok(emit_impls(&schema)),
        Result::Err(e) => Result::Err(e),
    }
}

} // verus!
