//! The abstract syntax tree the rewrite engine works on.
//!
//! The tree is shaped after the ESTree conventions: every node carries a
//! `loc` (line/column location) and a `range` (byte range into the source
//! text). Both are opaque metadata: the engine copies them through and never
//! computes with them. Node shapes that the engine does not inspect are
//! carried as opaque nodes identified only by their metadata, so a host
//! parser can map any program onto this tree without losing the positions of
//! the parts the engine leaves alone.

use vstd::prelude::*;

verus! {

/// A byte range `(start, end)` into the original source text.
pub type Range = (u32, u32);

/// A point in the source text. Lines are 1-based, columns 0-based.
#[derive(Debug, Clone, Copy, PartialEq, Eq)]
pub struct Position {
    pub line: u32,
    pub column: u32,
}

/// Start and end positions of a node in the source text.
#[derive(Debug, Clone, Copy, PartialEq, Eq)]
pub struct Location {
    pub start: Position,
    pub end: Position,
}

/// A comment attached to the program; opaque metadata carried through.
#[derive(Debug, PartialEq, Eq)]
pub struct Comment {}

/// The payload of one lexical token.
#[derive(Debug, PartialEq, Eq)]
pub struct TokenValue {
    pub loc: Location,
    pub range: Range,
    pub value: String,
}

/// One lexical token of the program; opaque metadata carried through.
#[derive(Debug, PartialEq, Eq)]
pub enum Token {
    Identifier(TokenValue),
    Keyword(TokenValue),
    String(TokenValue),
    Punctuator(TokenValue),
}

/// A name written in the source, such as `module`, `exports` or `require`.
#[derive(Debug, PartialEq, Eq)]
pub struct Identifier {
    pub loc: Location,
    pub range: Range,
    pub name: String,
}

/// The value of a literal expression.
///
/// A numeric literal is carried by its source text: the engine never reads
/// the numeric value, it only moves the literal around.
#[derive(Debug, PartialEq, Eq)]
pub enum Value {
    String(String),
    Number(String),
}

/// A literal expression, e.g. `"./foo"` or `42`.
///
/// `raw` is the literal exactly as written in the source, quotes included,
/// when the parser provides it.
#[derive(Debug, PartialEq, Eq)]
pub struct Literal {
    pub loc: Location,
    pub range: Range,
    pub value: Value,
    pub raw: Option<String>,
}

/// A literal that the module grammar requires to be a string, such as the
/// source of an `import` declaration or a string-form property key.
#[derive(Debug, PartialEq, Eq)]
pub struct StringLiteral {
    pub loc: Location,
    pub range: Range,
    pub value: String,
    pub raw: Option<String>,
}

/// A call expression, e.g. `require("./foo")`.
#[derive(Debug, PartialEq, Eq)]
pub struct CallExpression {
    pub loc: Location,
    pub range: Range,
    pub callee: Box<Expression>,
    pub arguments: Vec<ExprOrSpread>,
}

/// One call argument: a plain expression or a spread element.
#[derive(Debug, PartialEq, Eq)]
pub enum ExprOrSpread {
    Expr(Expression),
    Spread(SpreadElement),
}

/// A spread argument, e.g. the `...rest` in `f(...rest)`.
#[derive(Debug, PartialEq, Eq)]
pub struct SpreadElement {
    pub loc: Location,
    pub range: Range,
    pub argument: Box<Expression>,
}

/// The property of a non-computed member access.
///
/// A computed member access (`a[b]`) has an arbitrary expression in property
/// position; the host parser carries such an access as an opaque expression,
/// since the engine never rewrites it.
#[derive(Debug, PartialEq, Eq)]
pub enum Prop {
    Identifier(Identifier),
}

/// A member access, e.g. `module.exports`.
#[derive(Debug, PartialEq, Eq)]
pub struct MemberExpression {
    pub loc: Location,
    pub range: Range,
    pub object: Box<Expression>,
    pub property: Box<Prop>,
    pub computed: bool,
}

/// The operator of an assignment expression. Every compound operator
/// (`+=`, `||=`, ...) is carried by its source text: the engine only ever
/// asks whether the operator is the plain `=`.
#[derive(Debug, PartialEq, Eq)]
pub enum AssignmentOperator {
    Assign,
    Other(String),
}

/// An assignment expression, e.g. `exports.foo = bar`.
#[derive(Debug, PartialEq, Eq)]
pub struct AssignmentExpression {
    pub loc: Location,
    pub range: Range,
    pub operator: AssignmentOperator,
    pub left: Box<Pattern>,
    pub right: Box<Expression>,
}

/// The parameters and body of a function; opaque to the engine, which moves
/// it whole into a synthesized declaration.
#[derive(Debug, PartialEq, Eq)]
pub struct Function {
    pub loc: Location,
    pub range: Range,
}

/// A function expression, e.g. `function foo() { ... }` in value position.
#[derive(Debug, PartialEq, Eq)]
pub struct FunctionExpression {
    pub loc: Location,
    pub range: Range,
    pub identifier: Option<Identifier>,
    pub function: Function,
}

/// The heritage and body of a class; opaque to the engine.
#[derive(Debug, PartialEq, Eq)]
pub struct Class {
    pub loc: Location,
    pub range: Range,
}

/// A class expression, e.g. `class { ... }` in value position.
#[derive(Debug, PartialEq, Eq)]
pub struct ClassExpression {
    pub loc: Location,
    pub range: Range,
    pub identifier: Option<Identifier>,
    pub class: Class,
}

/// Any expression shape the engine does not inspect (binary operators,
/// arrow functions, template literals, ...), identified by its metadata.
#[derive(Debug, PartialEq, Eq)]
pub struct OpaqueExpression {
    pub loc: Location,
    pub range: Range,
}

/// An expression. Only the shapes the rewrite distinguishes are spelled
/// out; everything else is `Other`.
#[derive(Debug, PartialEq, Eq)]
pub enum Expression {
    Literal(Literal),
    Identifier(Identifier),
    CallExpression(CallExpression),
    MemberExpression(MemberExpression),
    AssignmentExpression(AssignmentExpression),
    FunctionExpression(FunctionExpression),
    ClassExpression(ClassExpression),
    Other(OpaqueExpression),
}

/// The key of a key/value destructuring property: a bare identifier
/// (`{ a: b }`) or a string literal (`{ "a": b }`).
#[derive(Debug, PartialEq, Eq)]
pub enum PropertyKey {
    Identifier(Identifier),
    String(StringLiteral),
}

/// A key/value destructuring property whose value is a bare identifier,
/// e.g. the `bar: baz` in `{ bar: baz }`.
#[derive(Debug, PartialEq, Eq)]
pub struct KeyValueProperty {
    pub loc: Location,
    pub range: Range,
    pub key: PropertyKey,
    pub value: Identifier,
}

/// Any destructuring property form outside the supported set (rest element,
/// nested pattern, default value, non-identifier value).
#[derive(Debug, PartialEq, Eq)]
pub struct OpaqueProperty {
    pub loc: Location,
    pub range: Range,
}

/// One property of an object destructuring pattern.
#[derive(Debug, PartialEq, Eq)]
pub enum ObjectPatternProperty {
    /// A shorthand property, e.g. the `foo` in `{ foo }`.
    Shorthand(Identifier),
    /// A key/value property with an identifier value, e.g. `bar: baz`.
    KeyValue(KeyValueProperty),
    /// Any other property form; unsupported by the rewrite.
    Other(OpaqueProperty),
}

/// An object destructuring pattern, e.g. `{ foo, bar: baz }`.
#[derive(Debug, PartialEq, Eq)]
pub struct ObjectPattern {
    pub loc: Location,
    pub range: Range,
    pub properties: Vec<ObjectPatternProperty>,
}

/// Any binding pattern outside the supported set (array pattern, rest,
/// pattern with default, invalid pattern).
#[derive(Debug, PartialEq, Eq)]
pub struct OpaquePattern {
    pub loc: Location,
    pub range: Range,
}

/// The left-hand side of an assignment, or a declarator name.
#[derive(Debug, PartialEq, Eq)]
pub enum Pattern {
    /// A bare identifier, e.g. `foo` in `const foo = ...`.
    Identifier(Identifier),
    /// An object destructuring pattern.
    Object(ObjectPattern),
    /// An expression in target position, e.g. the `module.exports` in
    /// `module.exports = ...`.
    Expression(Box<Expression>),
    /// Any other pattern form; unsupported by the rewrite.
    Other(OpaquePattern),
}

/// The keyword of a variable declaration.
#[derive(Debug, Clone, Copy, PartialEq, Eq)]
pub enum VariableKind {
    Var,
    Let,
    Const,
}

/// One declarator of a variable declaration, e.g. the `foo = require("./foo")`
/// in `const foo = require("./foo");`.
#[derive(Debug, PartialEq, Eq)]
pub struct VariableDeclarator {
    pub loc: Location,
    pub range: Range,
    pub name: Pattern,
    pub init: Option<Box<Expression>>,
}

/// A variable declaration statement, e.g. `const foo = require("./foo");`.
#[derive(Debug, PartialEq, Eq)]
pub struct VariableDeclaration {
    pub loc: Location,
    pub range: Range,
    pub kind: VariableKind,
    pub declarations: Vec<VariableDeclarator>,
}

/// A `debugger;` statement.
#[derive(Debug, PartialEq, Eq)]
pub struct DebuggerStatement {
    pub loc: Location,
    pub range: Range,
}

/// A statement wrapping a bare expression, e.g. `exports.foo = bar;`.
#[derive(Debug, PartialEq, Eq)]
pub struct ExpressionStatement {
    pub loc: Location,
    pub range: Range,
    pub expression: Box<Expression>,
}

/// Any statement shape the engine does not inspect (blocks, loops,
/// conditionals, ...), identified by its metadata.
#[derive(Debug, PartialEq, Eq)]
pub struct OpaqueStatement {
    pub loc: Location,
    pub range: Range,
}

/// A plain (non-module-declaration) statement.
#[derive(Debug, PartialEq, Eq)]
pub enum Statement {
    DebuggerStatement(DebuggerStatement),
    ExpressionStatement(ExpressionStatement),
    VariableDeclaration(VariableDeclaration),
    Other(OpaqueStatement),
}

/// A default import specifier, e.g. the `foo` in `import foo from "./foo";`.
#[derive(Debug, PartialEq, Eq)]
pub struct ImportDefaultSpecifier {
    pub loc: Location,
    pub range: Range,
    pub local: Identifier,
}

/// The external name of a named import or export: an identifier or a
/// string literal, preserved exactly as written.
#[derive(Debug, PartialEq, Eq)]
pub enum ModuleExportName {
    Identifier(Identifier),
    String(StringLiteral),
}

/// A named import specifier, e.g. the `bar as baz` in
/// `import { bar as baz } from "./foo";`. `imported` is absent for a
/// shorthand entry such as plain `bar`.
#[derive(Debug, PartialEq, Eq)]
pub struct ImportNamedSpecifier {
    pub loc: Location,
    pub range: Range,
    pub imported: Option<ModuleExportName>,
    pub local: Identifier,
}

/// One entry of an import declaration's specifier list.
#[derive(Debug, PartialEq, Eq)]
pub enum ImportSpecifier {
    Default(ImportDefaultSpecifier),
    Named(ImportNamedSpecifier),
}

/// An import declaration, e.g. `import { foo } from "./foo";`.
#[derive(Debug, PartialEq, Eq)]
pub struct ImportDeclaration {
    pub loc: Location,
    pub range: Range,
    pub specifiers: Vec<ImportSpecifier>,
    pub source: StringLiteral,
}

/// A default export of an expression, e.g. `export default foo();`.
#[derive(Debug, PartialEq, Eq)]
pub struct ExportDefaultExpression {
    pub loc: Location,
    pub range: Range,
    pub expression: Box<Expression>,
}

/// A named function declaration, e.g. `function foo() { ... }`.
#[derive(Debug, PartialEq, Eq)]
pub struct FunctionDeclaration {
    pub identifier: Identifier,
    pub function: Function,
}

/// A named class declaration, e.g. `class Foo { ... }`.
#[derive(Debug, PartialEq, Eq)]
pub struct ClassDeclaration {
    pub identifier: Identifier,
    pub class: Class,
}

/// A declaration that can stand behind `export`.
#[derive(Debug, PartialEq, Eq)]
pub enum Declaration {
    Function(FunctionDeclaration),
    Class(ClassDeclaration),
    Variable(VariableDeclaration),
}

/// An exported declaration, e.g. `export function foo() { ... }`.
#[derive(Debug, PartialEq, Eq)]
pub struct ExportDeclaration {
    pub loc: Location,
    pub range: Range,
    pub declaration: Declaration,
}

/// One entry of a named export's specifier list, e.g. the `foo as bar` in
/// `export { foo as bar };`. `exported` is absent when no alias is given.
#[derive(Debug, PartialEq, Eq)]
pub struct ExportNamedSpecifier {
    pub loc: Location,
    pub range: Range,
    pub original: ModuleExportName,
    pub exported: Option<ModuleExportName>,
}

/// One entry of a named export list.
#[derive(Debug, PartialEq, Eq)]
pub enum ExportSpecifier {
    Named(ExportNamedSpecifier),
}

/// A named export without a declaration, e.g. `export { foo as bar };`.
#[derive(Debug, PartialEq, Eq)]
pub struct NamedExport {
    pub loc: Location,
    pub range: Range,
    pub specifiers: Vec<ExportSpecifier>,
}

/// Any native module declaration the engine does not model (namespace
/// imports, re-exports, ...); passed through untouched.
#[derive(Debug, PartialEq, Eq)]
pub struct OpaqueModuleDeclaration {
    pub loc: Location,
    pub range: Range,
}

/// A native import/export declaration.
#[derive(Debug, PartialEq, Eq)]
pub enum ModuleDeclaration {
    Import(ImportDeclaration),
    ExportDefault(ExportDefaultExpression),
    ExportDeclaration(ExportDeclaration),
    ExportNamed(NamedExport),
    Other(OpaqueModuleDeclaration),
}

/// One top-level item of a module: a plain statement or a native module
/// declaration.
#[derive(Debug, PartialEq, Eq)]
pub enum ModuleItem {
    Statement(Statement),
    ModuleDeclaration(ModuleDeclaration),
}

/// A parsed program: its top-level items in source order, together with the
/// token and comment metadata the parser captured.
#[derive(Debug, PartialEq, Eq)]
pub struct Program {
    pub loc: Location,
    pub range: Range,
    pub body: Vec<ModuleItem>,
    pub tokens: Vec<Token>,
    pub comments: Vec<Comment>,
}

/// The location every synthesized node carries.
pub open spec fn spec_dummy_loc() -> Location {
    Location {
        start: Position { line: 1, column: 0 },
        end: Position { line: 1, column: 0 },
    }
}

/// Placeholder location for nodes the rewrite synthesizes, which have no
/// position in the original source.
pub fn dummy_loc() -> (loc: Location)
    ensures
        loc == spec_dummy_loc(),
{
    Location {
        start: Position { line: 1, column: 0 },
        end: Position { line: 1, column: 0 },
    }
}

/// The byte range every synthesized node carries.
pub open spec fn spec_dummy_range() -> Range {
    (0u32, 0u32)
}

/// Placeholder byte range for synthesized nodes.
pub fn dummy_range() -> (r: Range)
    ensures
        r == spec_dummy_range(),
{
    (0u32, 0u32)
}

} // verus!
