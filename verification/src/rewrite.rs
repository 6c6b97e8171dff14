//! The rewrite engine: recognizes CommonJS module idioms among a module's
//! top-level items and replaces each recognized item, in place, with the
//! corresponding native module declaration.
//!
//! Recognition tries four rules in fixed priority order, first match wins:
//!
//! 1. default-export assignment: `module.exports = <expr>;`
//! 2. named-export-member assignment: `exports.<name> = <expr>;`
//! 3. require-import assignment: `<pattern> = require("<source>");`
//! 4. require-import declaration: `const <pattern> = require("<source>");`
//!
//! An item matching none of the rules is left exactly as it is; that is a
//! normal outcome, not an error. When a rule's shape matches but a
//! sub-pattern falls outside the supported set, the item is reported as
//! failed and left unchanged — never rewritten by guesswork.

use vstd::pervasive::unreached;
use vstd::prelude::*;

use crate::ast::{
    AssignmentExpression, AssignmentOperator, Declaration, ExportDeclaration,
    ExportDefaultExpression, ExportNamedSpecifier, ExportSpecifier, ExprOrSpread, Expression,
    FunctionDeclaration, ClassDeclaration, Identifier, ImportDeclaration, ImportDefaultSpecifier,
    ImportNamedSpecifier, ImportSpecifier, Literal, ModuleDeclaration, ModuleExportName,
    ModuleItem, NamedExport, ObjectPatternProperty, Pattern, Program, Prop, PropertyKey,
    Statement, StringLiteral, Value, VariableDeclaration, VariableDeclarator, VariableKind,
    dummy_loc, dummy_range, spec_dummy_loc, spec_dummy_range,
};

verus! {

// ---------------------------------------------------------------------------
// Outcomes and errors
// ---------------------------------------------------------------------------

/// Why a recognized item could not be rewritten.
#[derive(Debug, Clone, Copy, PartialEq, Eq)]
pub enum RewriteError {
    /// A binding pattern or destructuring property form outside the
    /// supported set, or a declaration binding more variables than the one
    /// `require` declarator.
    UnsupportedPattern,
    /// `require(...)` called with zero arguments, a spread argument, or a
    /// non-string-literal argument.
    MalformedRequireArgument,
}

/// One failure of a best-effort pass: the position of the offending item in
/// the module body, and why it could not be rewritten.
#[derive(Debug, Clone, Copy, PartialEq, Eq)]
pub struct RewriteFailure {
    pub index: usize,
    pub error: RewriteError,
}

/// The result of rewriting one top-level item.
#[derive(Debug, PartialEq, Eq)]
pub enum RewriteOutcome {
    /// No rule matched; the item is handed back exactly as given.
    Unchanged(ModuleItem),
    /// A rule matched; the replacement module declaration.
    Rewritten(ModuleItem),
    /// A rule's shape matched, but a sub-pattern is unsupported; the item is
    /// handed back exactly as given, with the reason.
    Failed(ModuleItem, RewriteError),
}

/// Which rule, if any, matches a top-level item.
#[derive(Debug, Clone, Copy, PartialEq, Eq)]
pub enum Classification {
    /// No rule matches; the item stays as it is.
    NoMatch,
    /// Rule 1: `module.exports = <expr>;`
    DefaultExport,
    /// Rule 2: `exports.<name> = <expr>;`
    NamedExport,
    /// Rule 3: `<pattern> = require("<source>");`
    RequireAssignment,
    /// Rule 4: `const <pattern> = require("<source>");`
    RequireDeclaration,
    /// A rule's shape matches, but a sub-pattern is outside the supported
    /// set; the item must be reported, not guessed at.
    Unsupported(RewriteError),
}

/// How an expression relates to the `require("<source>")` call shape.
#[derive(Debug, Clone, Copy, PartialEq, Eq)]
pub enum RequireMatch {
    /// Not a call to bare `require` with a single argument. A call with two
    /// or more arguments is not treated as a require import at all.
    NoMatch,
    /// A call to bare `require` with zero arguments, a spread argument, or a
    /// non-string-literal argument.
    Malformed,
    /// A call to bare `require` with exactly one string-literal argument.
    Source,
}

// ---------------------------------------------------------------------------
// Recognizers (specification)
// ---------------------------------------------------------------------------

/// Whether `p` is the assignment target `module.exports`: a non-computed
/// member access whose object is the identifier `module` and whose property
/// is the identifier `exports`.
pub open spec fn spec_is_module_exports(p: Pattern) -> bool {
    match p {
        Pattern::Expression(target) => match *target {
            Expression::MemberExpression(m) => {
                &&& !m.computed
                &&& (*m.object) matches Expression::Identifier(obj) && obj.name@ == "module"@
                &&& (*m.property) matches Prop::Identifier(prop) && prop.name@ == "exports"@
            },
            _ => false,
        },
        _ => false,
    }
}

/// The property identifier of an `exports.<name>` assignment target: a
/// non-computed member access whose object is the identifier `exports`.
pub open spec fn spec_exports_member(p: Pattern) -> Option<Identifier> {
    match p {
        Pattern::Expression(target) => match *target {
            Expression::MemberExpression(m) => {
                if m.computed {
                    None
                } else {
                    match *m.object {
                        Expression::Identifier(obj) => if obj.name@ == "exports"@ {
                            match *m.property {
                                Prop::Identifier(prop) => Some(prop),
                            }
                        } else {
                            None
                        },
                        _ => None,
                    }
                }
            },
            _ => None,
        },
        _ => None,
    }
}

/// Whether `s` is a statement consisting of a bare call whose callee is the
/// identifier `require`, arguments notwithstanding.
pub open spec fn spec_is_require_call(s: Statement) -> bool {
    match s {
        Statement::ExpressionStatement(es) => match *es.expression {
            Expression::CallExpression(c) => match *c.callee {
                Expression::Identifier(callee) => callee.name@ == "require"@,
                _ => false,
            },
            _ => false,
        },
        _ => false,
    }
}

/// How `e` relates to the `require("<source>")` call shape.
pub open spec fn spec_require_match(e: Expression) -> RequireMatch {
    match e {
        Expression::CallExpression(c) => match *c.callee {
            Expression::Identifier(callee) => {
                if callee.name@ != "require"@ {
                    RequireMatch::NoMatch
                } else if c.arguments@.len() == 0 {
                    RequireMatch::Malformed
                } else if c.arguments@.len() > 1 {
                    RequireMatch::NoMatch
                } else {
                    match c.arguments@[0] {
                        ExprOrSpread::Expr(arg) => match arg {
                            Expression::Literal(lit) => match lit.value {
                                Value::String(_) => RequireMatch::Source,
                                Value::Number(_) => RequireMatch::Malformed,
                            },
                            _ => RequireMatch::Malformed,
                        },
                        ExprOrSpread::Spread(_) => RequireMatch::Malformed,
                    }
                }
            },
            _ => RequireMatch::NoMatch,
        },
        _ => RequireMatch::NoMatch,
    }
}

/// The string-literal argument of a matched `require` call. Meaningful only
/// when `spec_require_match(e)` is `Source`.
pub open spec fn spec_require_source(e: Expression) -> Literal {
    match e {
        Expression::CallExpression(c) => match c.arguments@[0] {
            ExprOrSpread::Expr(Expression::Literal(lit)) => lit,
            _ => vstd::pervasive::arbitrary(),
        },
        _ => vstd::pervasive::arbitrary(),
    }
}

/// The import source built from the `require` argument: the literal's
/// position, string value and raw text, moved verbatim. Meaningful only when
/// the literal holds a string.
pub open spec fn spec_source_literal(lit: Literal) -> StringLiteral {
    StringLiteral {
        loc: lit.loc,
        range: lit.range,
        value: match lit.value {
            Value::String(s) => s,
            Value::Number(_) => vstd::pervasive::arbitrary(),
        },
        raw: lit.raw,
    }
}

// ---------------------------------------------------------------------------
// Specifier building (specification)
// ---------------------------------------------------------------------------

/// An identifier synthesized by the rewrite: the given name under
/// placeholder metadata.
pub open spec fn spec_synth_ident(name: String) -> Identifier {
    Identifier { loc: spec_dummy_loc(), range: spec_dummy_range(), name }
}

/// The single default-import specifier built from a bare binding identifier.
pub open spec fn spec_default_specifier(local: Identifier) -> ImportSpecifier {
    ImportSpecifier::Default(ImportDefaultSpecifier {
        loc: spec_dummy_loc(),
        range: spec_dummy_range(),
        local,
    })
}

/// Whether one destructuring property is in the supported set: a shorthand
/// property or a key/value property with an identifier value.
pub open spec fn spec_prop_supported(prop: ObjectPatternProperty) -> bool {
    !(prop is Other)
}

/// The named-import specifier built from one supported destructuring
/// property. A shorthand property keeps its own position and leaves the
/// imported name absent; a key/value property moves its key (identifier or
/// string form, preserved verbatim) into the imported name and its value
/// into the local name.
pub open spec fn spec_prop_specifier(prop: ObjectPatternProperty) -> ImportSpecifier {
    match prop {
        ObjectPatternProperty::Shorthand(id) => ImportSpecifier::Named(ImportNamedSpecifier {
            loc: id.loc,
            range: id.range,
            imported: None,
            local: id,
        }),
        ObjectPatternProperty::KeyValue(kv) => ImportSpecifier::Named(ImportNamedSpecifier {
            loc: spec_dummy_loc(),
            range: spec_dummy_range(),
            imported: Some(match kv.key {
                PropertyKey::Identifier(k) => ModuleExportName::Identifier(k),
                PropertyKey::String(s) => ModuleExportName::String(s),
            }),
            local: kv.value,
        }),
        ObjectPatternProperty::Other(_) => vstd::pervasive::arbitrary(),
    }
}

/// The specifiers built from an object pattern's properties, in declared
/// order, one per property.
pub open spec fn spec_prop_specifiers(props: Seq<ObjectPatternProperty>) -> Seq<ImportSpecifier> {
    props.map_values(|prop: ObjectPatternProperty| spec_prop_specifier(prop))
}

/// Whether a binding pattern is in the supported set: a bare identifier, or
/// an object pattern all of whose properties are supported.
pub open spec fn spec_pattern_supported(p: Pattern) -> bool {
    match p {
        Pattern::Identifier(_) => true,
        Pattern::Object(op) => forall|j: int|
            0 <= j < op.properties@.len() ==> spec_prop_supported(#[trigger] op.properties@[j]),
        _ => false,
    }
}

/// The import specifier list built from a supported binding pattern.
pub open spec fn spec_pattern_specifiers(p: Pattern) -> Seq<ImportSpecifier> {
    match p {
        Pattern::Identifier(id) => seq![spec_default_specifier(id)],
        Pattern::Object(op) => spec_prop_specifiers(op.properties@),
        _ => Seq::empty(),
    }
}

// ---------------------------------------------------------------------------
// Classification (specification)
// ---------------------------------------------------------------------------

/// Which rule matches `item`, tried in fixed priority order.
///
/// A variable declaration is inspected through its first declarator only;
/// when that declarator is a `require` call but the statement declares
/// further variables, the statement is reported as unsupported rather than
/// silently truncated to its first binding.
pub open spec fn spec_classify(item: ModuleItem) -> Classification {
    match item {
        ModuleItem::Statement(stmt) => match stmt {
            Statement::ExpressionStatement(es) => match *es.expression {
                Expression::AssignmentExpression(a) => match a.operator {
                    AssignmentOperator::Assign => {
                        if spec_is_module_exports(*a.left) {
                            Classification::DefaultExport
                        } else if spec_exports_member(*a.left) is Some {
                            Classification::NamedExport
                        } else {
                            match spec_require_match(*a.right) {
                                RequireMatch::NoMatch => Classification::NoMatch,
                                RequireMatch::Malformed => Classification::Unsupported(
                                    RewriteError::MalformedRequireArgument,
                                ),
                                RequireMatch::Source => if spec_pattern_supported(*a.left) {
                                    Classification::RequireAssignment
                                } else {
                                    Classification::Unsupported(RewriteError::UnsupportedPattern)
                                },
                            }
                        }
                    },
                    AssignmentOperator::Other(_) => Classification::NoMatch,
                },
                _ => Classification::NoMatch,
            },
            Statement::VariableDeclaration(vd) => {
                if vd.declarations@.len() == 0 {
                    Classification::NoMatch
                } else {
                    match vd.declarations@[0].init {
                        Some(init) => match spec_require_match(*init) {
                            RequireMatch::NoMatch => Classification::NoMatch,
                            rm => if vd.declarations@.len() > 1 {
                                Classification::Unsupported(RewriteError::UnsupportedPattern)
                            } else if rm is Malformed {
                                Classification::Unsupported(RewriteError::MalformedRequireArgument)
                            } else if spec_pattern_supported(vd.declarations@[0].name) {
                                Classification::RequireDeclaration
                            } else {
                                Classification::Unsupported(RewriteError::UnsupportedPattern)
                            },
                        },
                        None => Classification::NoMatch,
                    }
                }
            },
            _ => Classification::NoMatch,
        },
        ModuleItem::ModuleDeclaration(_) => Classification::NoMatch,
    }
}

// ---------------------------------------------------------------------------
// The rewrite relation (specification)
// ---------------------------------------------------------------------------

/// The assignment expression inside an expression-statement item.
/// Meaningful only when the item has that shape.
pub open spec fn spec_statement_assignment(item: ModuleItem) -> AssignmentExpression {
    match item {
        ModuleItem::Statement(Statement::ExpressionStatement(es)) => match *es.expression {
            Expression::AssignmentExpression(a) => a,
            _ => vstd::pervasive::arbitrary(),
        },
        _ => vstd::pervasive::arbitrary(),
    }
}

/// The first declarator of a variable-declaration item. Meaningful only
/// when the item has that shape.
pub open spec fn spec_first_declarator(item: ModuleItem) -> VariableDeclarator {
    match item {
        ModuleItem::Statement(Statement::VariableDeclaration(vd)) => if vd.declarations@.len()
            > 0 {
            vd.declarations@[0]
        } else {
            vstd::pervasive::arbitrary()
        },
        _ => vstd::pervasive::arbitrary(),
    }
}

/// A declarator's initializer. Meaningful only when one is present.
pub open spec fn spec_declarator_init(d: VariableDeclarator) -> Expression {
    match d.init {
        Some(init) => *init,
        None => vstd::pervasive::arbitrary(),
    }
}

/// The property name of an `exports.<name>` target. Meaningful only when
/// the target has that shape.
pub open spec fn spec_exports_member_name(p: Pattern) -> String {
    match spec_exports_member(p) {
        Some(id) => id.name,
        None => vstd::pervasive::arbitrary(),
    }
}

/// The replacement for rule 1: a default export wrapping the moved
/// right-hand expression, under placeholder metadata.
pub open spec fn spec_default_export_node(right: Box<Expression>) -> ModuleItem {
    ModuleItem::ModuleDeclaration(ModuleDeclaration::ExportDefault(ExportDefaultExpression {
        loc: spec_dummy_loc(),
        range: spec_dummy_range(),
        expression: right,
    }))
}

/// The one specifier of rule 2's identifier case: the property name `name`
/// becomes the original (local) name, the right-hand identifier becomes the
/// exported alias — exactly this direction, not swapped.
pub open spec fn spec_named_export_specifier(name: String, alias: Identifier) -> ExportSpecifier {
    ExportSpecifier::Named(ExportNamedSpecifier {
        loc: spec_dummy_loc(),
        range: spec_dummy_range(),
        original: ModuleExportName::Identifier(spec_synth_ident(name)),
        exported: Some(ModuleExportName::Identifier(alias)),
    })
}

/// The replacement for rule 2 (`exports.<name> = <expr>;`), dispatched on
/// the shape of the right-hand expression:
///
/// - a function expression becomes an exported function declaration named
///   `name` (the function's own name, if any, is discarded);
/// - a class expression becomes an exported class declaration named `name`;
/// - a bare identifier becomes a one-entry named-export specifier list;
/// - anything else becomes an exported `const name = <expr>;`.
pub open spec fn spec_named_export_node(
    name: String,
    right: Box<Expression>,
    post: ModuleItem,
) -> bool {
    match *right {
        Expression::FunctionExpression(f) => post == ModuleItem::ModuleDeclaration(
            ModuleDeclaration::ExportDeclaration(ExportDeclaration {
                loc: spec_dummy_loc(),
                range: spec_dummy_range(),
                declaration: Declaration::Function(FunctionDeclaration {
                    identifier: spec_synth_ident(name),
                    function: f.function,
                }),
            }),
        ),
        Expression::ClassExpression(c) => post == ModuleItem::ModuleDeclaration(
            ModuleDeclaration::ExportDeclaration(ExportDeclaration {
                loc: spec_dummy_loc(),
                range: spec_dummy_range(),
                declaration: Declaration::Class(ClassDeclaration {
                    identifier: spec_synth_ident(name),
                    class: c.class,
                }),
            }),
        ),
        Expression::Identifier(alias) => {
            &&& post matches ModuleItem::ModuleDeclaration(ModuleDeclaration::ExportNamed(ne))
            &&& ne.loc == spec_dummy_loc()
            &&& ne.range == spec_dummy_range()
            &&& ne.specifiers@ == seq![spec_named_export_specifier(name, alias)]
        },
        _ => {
            &&& post matches ModuleItem::ModuleDeclaration(
                ModuleDeclaration::ExportDeclaration(ed),
            )
            &&& ed.loc == spec_dummy_loc()
            &&& ed.range == spec_dummy_range()
            &&& ed.declaration matches Declaration::Variable(vd)
            &&& vd.loc == spec_dummy_loc()
            &&& vd.range == spec_dummy_range()
            &&& vd.kind == VariableKind::Const
            &&& vd.declarations@.len() == 1
            &&& vd.declarations@[0].loc == spec_dummy_loc()
            &&& vd.declarations@[0].range == spec_dummy_range()
            &&& vd.declarations@[0].name == Pattern::Identifier(spec_synth_ident(name))
            &&& vd.declarations@[0].init matches Some(init) && *init == *right
        },
    }
}

/// The replacement for rules 3 and 4: an import declaration whose source is
/// the moved `require` argument and whose specifiers are built from the
/// binding pattern in declared order.
pub open spec fn spec_import_node(p: Pattern, lit: Literal, post: ModuleItem) -> bool {
    &&& post matches ModuleItem::ModuleDeclaration(ModuleDeclaration::Import(d))
    &&& d.loc == spec_dummy_loc()
    &&& d.range == spec_dummy_range()
    &&& d.specifiers@ == spec_pattern_specifiers(p)
    &&& d.source == spec_source_literal(lit)
}

/// How one output item relates to the input item it replaces: unchanged
/// where no rule matches or the item is unsupported, else the replacement
/// the matched rule prescribes.
pub open spec fn spec_item_rewrite(pre: ModuleItem, post: ModuleItem) -> bool {
    match spec_classify(pre) {
        Classification::NoMatch => post == pre,
        Classification::Unsupported(_) => post == pre,
        Classification::DefaultExport => post == spec_default_export_node(
            spec_statement_assignment(pre).right,
        ),
        Classification::NamedExport => {
            let a = spec_statement_assignment(pre);
            spec_named_export_node(spec_exports_member_name(*a.left), a.right, post)
        },
        Classification::RequireAssignment => {
            let a = spec_statement_assignment(pre);
            spec_import_node(*a.left, spec_require_source(*a.right), post)
        },
        Classification::RequireDeclaration => {
            let d = spec_first_declarator(pre);
            spec_import_node(d.name, spec_require_source(spec_declarator_init(d)), post)
        },
    }
}

/// The error a best-effort pass reports for `item`, if any.
pub open spec fn spec_item_error(item: ModuleItem) -> Option<RewriteError> {
    match spec_classify(item) {
        Classification::Unsupported(e) => Some(e),
        _ => None,
    }
}

/// The failures a best-effort pass reports for the first `n` items of
/// `body`, in item order.
pub open spec fn spec_failures_prefix(body: Seq<ModuleItem>, n: int) -> Seq<RewriteFailure>
    decreases n,
{
    if n <= 0 {
        Seq::empty()
    } else {
        spec_failures_prefix(body, n - 1) + match spec_item_error(body[n - 1]) {
            Some(e) => seq![RewriteFailure { index: (n - 1) as usize, error: e }],
            None => Seq::empty(),
        }
    }
}

/// The failures a best-effort pass reports for `body`, in item order.
pub open spec fn spec_failures(body: Seq<ModuleItem>) -> Seq<RewriteFailure> {
    spec_failures_prefix(body, body.len() as int)
}

// ---------------------------------------------------------------------------
// Recognizers (executable)
// ---------------------------------------------------------------------------

/// True iff `s` spells exactly `word`.
fn str_is(s: &String, word: &str) -> (r: bool)
    ensures
        r == (s@ == word@),
{
    let w: String = word.to_owned();
    *s == w
}

/// Whether `p` is the assignment target `module.exports`.
pub fn is_module_exports(p: &Pattern) -> (r: bool)
    ensures
        r == spec_is_module_exports(*p),
{
    match p {
        Pattern::Expression(target) => match &**target {
            Expression::MemberExpression(m) => match &*m.object {
                Expression::Identifier(obj) => match &*m.property {
                    Prop::Identifier(prop) => !m.computed && str_is(&obj.name, "module")
                        && str_is(&prop.name, "exports"),
                },
                _ => false,
            },
            _ => false,
        },
        _ => false,
    }
}

/// The property identifier of an `exports.<name>` assignment target, if `p`
/// has that shape.
pub fn is_exports_member<'a>(p: &'a Pattern) -> (r: Option<&'a Identifier>)
    ensures
        match r {
            Some(id) => spec_exports_member(*p) == Some(*id),
            None => spec_exports_member(*p) is None,
        },
{
    match p {
        Pattern::Expression(target) => match &**target {
            Expression::MemberExpression(m) => {
                if m.computed {
                    None
                } else {
                    match &*m.object {
                        Expression::Identifier(obj) => if str_is(&obj.name, "exports") {
                            match &*m.property {
                                Prop::Identifier(prop) => Some(prop),
                            }
                        } else {
                            None
                        },
                        _ => None,
                    }
                }
            },
            _ => None,
        },
        _ => None,
    }
}

/// Whether `s` is a statement consisting of a bare call to `require`,
/// arguments notwithstanding.
pub fn is_require_call(s: &Statement) -> (r: bool)
    ensures
        r == spec_is_require_call(*s),
{
    match s {
        Statement::ExpressionStatement(es) => match &*es.expression {
            Expression::CallExpression(c) => match &*c.callee {
                Expression::Identifier(callee) => str_is(&callee.name, "require"),
                _ => false,
            },
            _ => false,
        },
        _ => false,
    }
}

/// How `e` relates to the `require("<source>")` call shape.
fn require_match(e: &Expression) -> (r: RequireMatch)
    ensures
        r == spec_require_match(*e),
{
    match e {
        Expression::CallExpression(c) => match &*c.callee {
            Expression::Identifier(callee) => {
                if !str_is(&callee.name, "require") {
                    RequireMatch::NoMatch
                } else if c.arguments.len() == 0 {
                    RequireMatch::Malformed
                } else if c.arguments.len() > 1 {
                    RequireMatch::NoMatch
                } else {
                    match &c.arguments[0] {
                        ExprOrSpread::Expr(arg) => match arg {
                            Expression::Literal(lit) => match &lit.value {
                                Value::String(_) => RequireMatch::Source,
                                Value::Number(_) => RequireMatch::Malformed,
                            },
                            _ => RequireMatch::Malformed,
                        },
                        ExprOrSpread::Spread(_) => RequireMatch::Malformed,
                    }
                }
            },
            _ => RequireMatch::NoMatch,
        },
        _ => RequireMatch::NoMatch,
    }
}

/// Whether one destructuring property is in the supported set.
fn prop_supported(prop: &ObjectPatternProperty) -> (r: bool)
    ensures
        r == spec_prop_supported(*prop),
{
    match prop {
        ObjectPatternProperty::Other(_) => false,
        _ => true,
    }
}

/// Whether a binding pattern is in the supported set.
fn pattern_supported(p: &Pattern) -> (r: bool)
    ensures
        r == spec_pattern_supported(*p),
{
    match p {
        Pattern::Identifier(_) => true,
        Pattern::Object(op) => {
            let n: usize = op.properties.len();
            let mut i: usize = 0;
            let mut ok = true;
            while i < n
                invariant
                    n == op.properties@.len(),
                    i <= n,
                    ok == (forall|j: int|
                        0 <= j < i ==> spec_prop_supported(#[trigger] op.properties@[j])),
                decreases n - i,
            {
                if !prop_supported(&op.properties[i]) {
                    ok = false;
                }
                i = i + 1;
            }
            ok
        },
        _ => false,
    }
}

// ---------------------------------------------------------------------------
// Classification (executable)
// ---------------------------------------------------------------------------

/// Which rule, if any, matches `item`; the item classifier. Rules are tried
/// in fixed priority order and the first whose shape matches decides: a
/// shape match with an unsupported sub-pattern reports `Unsupported` rather
/// than falling through to a later rule.
pub fn classify(item: &ModuleItem) -> (c: Classification)
    ensures
        c == spec_classify(*item),
{
    match item {
        ModuleItem::Statement(stmt) => match stmt {
            Statement::ExpressionStatement(es) => match &*es.expression {
                Expression::AssignmentExpression(a) => match &a.operator {
                    AssignmentOperator::Assign => {
                        if is_module_exports(&a.left) {
                            Classification::DefaultExport
                        } else if is_exports_member(&a.left).is_some() {
                            Classification::NamedExport
                        } else {
                            match require_match(&a.right) {
                                RequireMatch::NoMatch => Classification::NoMatch,
                                RequireMatch::Malformed => Classification::Unsupported(
                                    RewriteError::MalformedRequireArgument,
                                ),
                                RequireMatch::Source => if pattern_supported(&a.left) {
                                    Classification::RequireAssignment
                                } else {
                                    Classification::Unsupported(RewriteError::UnsupportedPattern)
                                },
                            }
                        }
                    },
                    AssignmentOperator::Other(_) => Classification::NoMatch,
                },
                _ => Classification::NoMatch,
            },
            Statement::VariableDeclaration(vd) => {
                if vd.declarations.len() == 0 {
                    Classification::NoMatch
                } else {
                    match &vd.declarations[0].init {
                        Some(init) => match require_match(&**init) {
                            RequireMatch::NoMatch => Classification::NoMatch,
                            rm => {
                                if vd.declarations.len() > 1 {
                                    Classification::Unsupported(RewriteError::UnsupportedPattern)
                                } else {
                                    match rm {
                                        RequireMatch::Malformed => Classification::Unsupported(
                                            RewriteError::MalformedRequireArgument,
                                        ),
                                        RequireMatch::Source => if pattern_supported(
                                            &vd.declarations[0].name,
                                        ) {
                                            Classification::RequireDeclaration
                                        } else {
                                            Classification::Unsupported(
                                                RewriteError::UnsupportedPattern,
                                            )
                                        },
                                        RequireMatch::NoMatch => unreached(),
                                    }
                                }
                            },
                        },
                        None => Classification::NoMatch,
                    }
                }
            },
            _ => Classification::NoMatch,
        },
        ModuleItem::ModuleDeclaration(_) => Classification::NoMatch,
    }
}

// ---------------------------------------------------------------------------
// Node synthesis (executable)
// ---------------------------------------------------------------------------

/// An identifier synthesized under placeholder metadata.
fn synth_ident(name: String) -> (id: Identifier)
    ensures
        id == spec_synth_ident(name),
{
    Identifier { loc: dummy_loc(), range: dummy_range(), name }
}

/// Builds one named-import specifier from one destructuring property — the
/// specifier builder. Returns `None` exactly when the property form is
/// unsupported.
pub fn build_import_specifier(prop: ObjectPatternProperty) -> (r: Option<ImportSpecifier>)
    ensures
        r is Some <==> spec_prop_supported(prop),
        r matches Some(s) ==> s == spec_prop_specifier(prop),
{
    match prop {
        ObjectPatternProperty::Shorthand(id) => Some(
            ImportSpecifier::Named(ImportNamedSpecifier {
                loc: id.loc,
                range: id.range,
                imported: None,
                local: id,
            }),
        ),
        ObjectPatternProperty::KeyValue(kv) => {
            let imported = match kv.key {
                PropertyKey::Identifier(k) => ModuleExportName::Identifier(k),
                PropertyKey::String(s) => ModuleExportName::String(s),
            };
            Some(
                ImportSpecifier::Named(ImportNamedSpecifier {
                    loc: dummy_loc(),
                    range: dummy_range(),
                    imported: Some(imported),
                    local: kv.value,
                }),
            )
        },
        ObjectPatternProperty::Other(_) => None,
    }
}

/// Builds the import specifier list from a supported binding pattern, in
/// declared order.
fn build_import_specifiers(p: Pattern) -> (v: Vec<ImportSpecifier>)
    requires
        spec_pattern_supported(p),
    ensures
        v@ == spec_pattern_specifiers(p),
{
    let ghost gp = p;
    match p {
        Pattern::Identifier(id) => {
            let mut v: Vec<ImportSpecifier> = Vec::new();
            v.push(
                ImportSpecifier::Default(ImportDefaultSpecifier {
                    loc: dummy_loc(),
                    range: dummy_range(),
                    local: id,
                }),
            );
            proof {
                assert(v@ =~= spec_pattern_specifiers(gp));
            }
            v
        },
        Pattern::Object(op) => {
            let ghost gprops = op.properties@;
            let mut props = op.properties;
            let mut v: Vec<ImportSpecifier> = Vec::new();
            while props.len() > 0
                invariant
                    v@.len() + props@.len() == gprops.len(),
                    props@ =~= gprops.skip(v@.len() as int),
                    v@ =~= spec_prop_specifiers(gprops).take(v@.len() as int),
                    forall|j: int|
                        0 <= j < gprops.len() ==> spec_prop_supported(#[trigger] gprops[j]),
                decreases props@.len(),
            {
                let ghost k: int = v@.len() as int;
                let prop = props.remove(0);
                proof {
                    assert(prop == gprops[k]);
                }
                match build_import_specifier(prop) {
                    Some(s) => {
                        v.push(s);
                        proof {
                            assert(props@ =~= gprops.skip(k + 1));
                            assert(v@ =~= spec_prop_specifiers(gprops).take(k + 1));
                        }
                    },
                    None => unreached(),
                }
            }
            proof {
                assert(v@ =~= spec_prop_specifiers(gprops));
                assert(spec_pattern_specifiers(gp) == spec_prop_specifiers(gprops));
            }
            v
        },
        _ => unreached(),
    }
}

/// Takes the string-literal argument out of a matched `require` call.
fn extract_require_literal(e: Expression) -> (lit: Literal)
    requires
        spec_require_match(e) == RequireMatch::Source,
    ensures
        lit == spec_require_source(e),
        lit.value matches Value::String(_),
{
    match e {
        Expression::CallExpression(c) => {
            let mut args = c.arguments;
            let first = args.remove(0);
            match first {
                ExprOrSpread::Expr(arg) => match arg {
                    Expression::Literal(lit) => lit,
                    _ => unreached(),
                },
                _ => unreached(),
            }
        },
        _ => unreached(),
    }
}

/// Builds the replacement import declaration for rules 3 and 4 from the
/// binding pattern and the moved `require` argument.
fn build_import(pattern: Pattern, lit: Literal) -> (post: ModuleItem)
    requires
        spec_pattern_supported(pattern),
        lit.value matches Value::String(_),
    ensures
        spec_import_node(pattern, lit, post),
{
    let specifiers = build_import_specifiers(pattern);
    let source = match lit {
        Literal { loc, range, value: Value::String(s), raw } => StringLiteral {
            loc,
            range,
            value: s,
            raw,
        },
        _ => unreached(),
    };
    ModuleItem::ModuleDeclaration(
        ModuleDeclaration::Import(ImportDeclaration {
            loc: dummy_loc(),
            range: dummy_range(),
            specifiers,
            source,
        }),
    )
}

/// Builds the replacement for rule 2 from the property name and the moved
/// right-hand expression.
fn build_named_export(name: String, right: Box<Expression>) -> (post: ModuleItem)
    ensures
        spec_named_export_node(name, right, post),
{
    let ghost gname = name;
    match *right {
        Expression::FunctionExpression(f) => ModuleItem::ModuleDeclaration(
            ModuleDeclaration::ExportDeclaration(ExportDeclaration {
                loc: dummy_loc(),
                range: dummy_range(),
                declaration: Declaration::Function(FunctionDeclaration {
                    identifier: synth_ident(name),
                    function: f.function,
                }),
            }),
        ),
        Expression::ClassExpression(c) => ModuleItem::ModuleDeclaration(
            ModuleDeclaration::ExportDeclaration(ExportDeclaration {
                loc: dummy_loc(),
                range: dummy_range(),
                declaration: Declaration::Class(ClassDeclaration {
                    identifier: synth_ident(name),
                    class: c.class,
                }),
            }),
        ),
        Expression::Identifier(alias) => {
            let ghost galias = alias;
            let mut specifiers: Vec<ExportSpecifier> = Vec::new();
            specifiers.push(
                ExportSpecifier::Named(ExportNamedSpecifier {
                    loc: dummy_loc(),
                    range: dummy_range(),
                    original: ModuleExportName::Identifier(synth_ident(name)),
                    exported: Some(ModuleExportName::Identifier(alias)),
                }),
            );
            proof {
                assert(specifiers@ =~= seq![spec_named_export_specifier(gname, galias)]);
            }
            ModuleItem::ModuleDeclaration(
                ModuleDeclaration::ExportNamed(NamedExport {
                    loc: dummy_loc(),
                    range: dummy_range(),
                    specifiers,
                }),
            )
        },
        other => {
            let mut declarations: Vec<VariableDeclarator> = Vec::new();
            declarations.push(
                VariableDeclarator {
                    loc: dummy_loc(),
                    range: dummy_range(),
                    name: Pattern::Identifier(synth_ident(name)),
                    init: Some(Box::new(other)),
                },
            );
            ModuleItem::ModuleDeclaration(
                ModuleDeclaration::ExportDeclaration(ExportDeclaration {
                    loc: dummy_loc(),
                    range: dummy_range(),
                    declaration: Declaration::Variable(VariableDeclaration {
                        loc: dummy_loc(),
                        range: dummy_range(),
                        kind: VariableKind::Const,
                        declarations,
                    }),
                }),
            )
        },
    }
}

// ---------------------------------------------------------------------------
// Rewriting one item
// ---------------------------------------------------------------------------

/// Rewrites one top-level item: classifies it against the four rules and
/// synthesizes the replacement node the matched rule prescribes. An item no
/// rule matches, or whose matched shape has an unsupported sub-pattern, is
/// handed back exactly as given.
pub fn rewrite_item(item: ModuleItem) -> (out: RewriteOutcome)
    ensures
        match spec_classify(item) {
            Classification::NoMatch => out == RewriteOutcome::Unchanged(item),
            Classification::Unsupported(e) => out == RewriteOutcome::Failed(item, e),
            _ => out matches RewriteOutcome::Rewritten(post) && spec_item_rewrite(item, post),
        },
{
    let c = classify(&item);
    match c {
        Classification::NoMatch => RewriteOutcome::Unchanged(item),
        Classification::Unsupported(e) => RewriteOutcome::Failed(item, e),
        Classification::DefaultExport => match item {
            ModuleItem::Statement(Statement::ExpressionStatement(es)) => match *es.expression {
                Expression::AssignmentExpression(a) => RewriteOutcome::Rewritten(
                    ModuleItem::ModuleDeclaration(
                        ModuleDeclaration::ExportDefault(ExportDefaultExpression {
                            loc: dummy_loc(),
                            range: dummy_range(),
                            expression: a.right,
                        }),
                    ),
                ),
                _ => unreached(),
            },
            _ => unreached(),
        },
        Classification::NamedExport => match item {
            ModuleItem::Statement(Statement::ExpressionStatement(es)) => match *es.expression {
                Expression::AssignmentExpression(a) => match *a.left {
                    Pattern::Expression(target) => match *target {
                        Expression::MemberExpression(m) => match *m.property {
                            Prop::Identifier(prop) => RewriteOutcome::Rewritten(
                                build_named_export(prop.name, a.right),
                            ),
                        },
                        _ => unreached(),
                    },
                    _ => unreached(),
                },
                _ => unreached(),
            },
            _ => unreached(),
        },
        Classification::RequireAssignment => match item {
            ModuleItem::Statement(Statement::ExpressionStatement(es)) => match *es.expression {
                Expression::AssignmentExpression(a) => {
                    let lit = extract_require_literal(*a.right);
                    RewriteOutcome::Rewritten(build_import(*a.left, lit))
                },
                _ => unreached(),
            },
            _ => unreached(),
        },
        Classification::RequireDeclaration => match item {
            ModuleItem::Statement(Statement::VariableDeclaration(vd)) => {
                let mut declarations = vd.declarations;
                let d0 = declarations.remove(0);
                let init = match d0.init {
                    Some(init) => init,
                    None => unreached(),
                };
                let lit = extract_require_literal(*init);
                RewriteOutcome::Rewritten(build_import(d0.name, lit))
            },
            _ => unreached(),
        },
    }
}

// ---------------------------------------------------------------------------
// Rewriting a whole module
// ---------------------------------------------------------------------------

/// Rewrites every top-level item of `program` in place, best-effort: each
/// item is visited exactly once, in source order, and either replaced by the
/// module declaration its matched rule prescribes or left exactly as it is.
/// An item whose matched shape has an unsupported sub-pattern is left
/// unchanged and reported in the returned failure list, in item order, so a
/// partially convertible module still comes through. The number and the
/// positions of the items never change, and the token and comment metadata
/// is untouched.
pub fn cjs_to_esm(program: &mut Program) -> (failures: Vec<RewriteFailure>)
    ensures
        final(program).body@.len() == old(program).body@.len(),
        forall|i: int|
            0 <= i < old(program).body@.len() ==> spec_item_rewrite(
                old(program).body@[i],
                #[trigger] final(program).body@[i],
            ),
        failures@ == spec_failures(old(program).body@),
        final(program).loc == old(program).loc,
        final(program).range == old(program).range,
        final(program).tokens == old(program).tokens,
        final(program).comments == old(program).comments,
{
    let ghost orig = old(program).body@;
    let mut rest: Vec<ModuleItem> = Vec::new();
    core::mem::swap(&mut rest, &mut program.body);
    let mut out: Vec<ModuleItem> = Vec::new();
    let mut failures: Vec<RewriteFailure> = Vec::new();
    while rest.len() > 0
        invariant
            out@.len() + rest@.len() == orig.len(),
            rest@ =~= orig.skip(out@.len() as int),
            forall|i: int|
                0 <= i < out@.len() ==> spec_item_rewrite(orig[i], #[trigger] out@[i]),
            failures@ == spec_failures_prefix(orig, out@.len() as int),
        decreases rest@.len(),
    {
        let ghost k: int = out@.len() as int;
        let index: usize = out.len();
        let item = rest.remove(0);
        proof {
            assert(item == orig[k]);
            assert(rest@ =~= orig.skip(k + 1));
        }
        match rewrite_item(item) {
            RewriteOutcome::Unchanged(it) => {
                out.push(it);
                proof {
                    assert(failures@ =~= spec_failures_prefix(orig, k + 1));
                }
            },
            RewriteOutcome::Rewritten(n) => {
                out.push(n);
                proof {
                    assert(failures@ =~= spec_failures_prefix(orig, k + 1));
                }
            },
            RewriteOutcome::Failed(it, error) => {
                out.push(it);
                failures.push(RewriteFailure { index, error });
                proof {
                    assert(failures@ =~= spec_failures_prefix(orig, k + 1));
                }
            },
        }
    }
    program.body = out;
    failures
}

/// Rewrites the top-level items of `program` in place, in source order,
/// stopping at the first item whose matched shape has an unsupported
/// sub-pattern: the items before it are rewritten, it and everything after
/// it are left exactly as they were, and the failure is returned. When no
/// item fails, the pass behaves exactly like the best-effort pass and
/// returns `Ok`.
pub fn cjs_to_esm_fail_fast(program: &mut Program) -> (r: Result<(), RewriteFailure>)
    ensures
        final(program).body@.len() == old(program).body@.len(),
        final(program).loc == old(program).loc,
        final(program).range == old(program).range,
        final(program).tokens == old(program).tokens,
        final(program).comments == old(program).comments,
        match r {
            Ok(_) => {
                &&& forall|i: int|
                    0 <= i < old(program).body@.len() ==> spec_item_error(
                        #[trigger] old(program).body@[i],
                    ) is None
                &&& forall|i: int|
                    0 <= i < old(program).body@.len() ==> spec_item_rewrite(
                        old(program).body@[i],
                        #[trigger] final(program).body@[i],
                    )
            },
            Err(f) => {
                &&& 0 <= f.index < old(program).body@.len()
                &&& spec_item_error(old(program).body@[f.index as int]) == Some(f.error)
                &&& forall|i: int|
                    0 <= i < f.index ==> spec_item_error(#[trigger] old(program).body@[i]) is None
                &&& forall|i: int|
                    0 <= i < f.index ==> spec_item_rewrite(
                        old(program).body@[i],
                        #[trigger] final(program).body@[i],
                    )
                &&& forall|i: int|
                    f.index <= i < old(program).body@.len() ==> final(program).body@[i] == old(
                        program,
                    ).body@[i]
            },
        },
{
    let ghost orig = old(program).body@;
    let mut rest: Vec<ModuleItem> = Vec::new();
    core::mem::swap(&mut rest, &mut program.body);
    let mut out: Vec<ModuleItem> = Vec::new();
    let mut failure: Option<RewriteFailure> = None;
    while rest.len() > 0
        invariant
            failure is None ==> {
                &&& out@.len() + rest@.len() == orig.len()
                &&& rest@ =~= orig.skip(out@.len() as int)
                &&& forall|i: int|
                    0 <= i < out@.len() ==> spec_item_rewrite(orig[i], #[trigger] out@[i])
                &&& forall|i: int|
                    0 <= i < out@.len() ==> spec_item_error(#[trigger] orig[i]) is None
            },
            failure matches Some(f) ==> {
                &&& rest@.len() == 0
                &&& out@.len() == orig.len()
                &&& 0 <= f.index < orig.len()
                &&& spec_item_error(orig[f.index as int]) == Some(f.error)
                &&& forall|i: int|
                    0 <= i < f.index ==> spec_item_error(#[trigger] orig[i]) is None
                &&& forall|i: int|
                    0 <= i < f.index ==> spec_item_rewrite(orig[i], #[trigger] out@[i])
                &&& forall|i: int| f.index <= i < orig.len() ==> out@[i] == orig[i]
            },
        decreases rest@.len(),
    {
        let ghost k: int = out@.len() as int;
        let index: usize = out.len();
        let item = rest.remove(0);
        proof {
            assert(item == orig[k]);
            assert(rest@ =~= orig.skip(k + 1));
        }
        match rewrite_item(item) {
            RewriteOutcome::Unchanged(it) => out.push(it),
            RewriteOutcome::Rewritten(n) => out.push(n),
            RewriteOutcome::Failed(it, error) => {
                out.push(it);
                out.append(&mut rest);
                failure = Some(RewriteFailure { index, error });
                proof {
                    assert forall|i: int| k <= i < orig.len() implies out@[i] == orig[i] by {
                        if i > k {
                            assert(orig.skip(k + 1)[i - k - 1] == orig[i]);
                        }
                    }
                }
            },
        }
    }
    program.body = out;
    match failure {
        None => Ok(()),
        Some(f) => Err(f),
    }
}

} // verus!
