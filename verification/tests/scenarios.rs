//! End-to-end scenarios: one CommonJS statement in, the replacement module
//! declaration out. Each test names in a comment the source line it models.

use cjs_to_esm::ast::{
    AssignmentExpression, AssignmentOperator, CallExpression, Class, ClassDeclaration,
    ClassExpression, Declaration, ExportDeclaration, ExportDefaultExpression,
    ExportNamedSpecifier, ExportSpecifier, ExprOrSpread, Expression, ExpressionStatement,
    Function, FunctionDeclaration, FunctionExpression, Identifier, ImportDeclaration,
    ImportDefaultSpecifier, ImportNamedSpecifier, ImportSpecifier, KeyValueProperty, Literal,
    Location, MemberExpression, ModuleDeclaration, ModuleExportName, ModuleItem, NamedExport,
    ObjectPattern, ObjectPatternProperty, Pattern, Position, Program, Prop, PropertyKey,
    Statement, StringLiteral, Value, VariableDeclaration, VariableDeclarator, VariableKind,
};
use cjs_to_esm::rewrite::cjs_to_esm;

fn dloc() -> Location {
    Location { start: Position { line: 1, column: 0 }, end: Position { line: 1, column: 0 } }
}

fn ident(name: &str, range: (u32, u32)) -> Identifier {
    Identifier { loc: dloc(), range, name: name.to_string() }
}

/// The identifier a rewrite synthesizes: placeholder metadata only.
fn synth(name: &str) -> Identifier {
    ident(name, (0, 0))
}

fn member_target(obj: &str, prop: &str) -> Pattern {
    Pattern::Expression(Box::new(Expression::MemberExpression(MemberExpression {
        loc: dloc(),
        range: (0, 11),
        object: Box::new(Expression::Identifier(ident(obj, (0, 7)))),
        property: Box::new(Prop::Identifier(ident(prop, (8, 11)))),
        computed: false,
    })))
}

fn assign_stmt(left: Pattern, right: Expression) -> ModuleItem {
    ModuleItem::Statement(Statement::ExpressionStatement(ExpressionStatement {
        loc: dloc(),
        range: (0, 50),
        expression: Box::new(Expression::AssignmentExpression(AssignmentExpression {
            loc: dloc(),
            range: (0, 49),
            operator: AssignmentOperator::Assign,
            left: Box::new(left),
            right: Box::new(right),
        })),
    }))
}

fn str_literal(v: &str, raw: &str, range: (u32, u32)) -> Literal {
    Literal {
        loc: dloc(),
        range,
        value: Value::String(v.to_string()),
        raw: Some(raw.to_string()),
    }
}

fn require_call(src: &str, raw: &str, arg_range: (u32, u32)) -> Expression {
    Expression::CallExpression(CallExpression {
        loc: dloc(),
        range: (12, 30),
        callee: Box::new(Expression::Identifier(ident("require", (12, 19)))),
        arguments: vec![ExprOrSpread::Expr(Expression::Literal(str_literal(src, raw, arg_range)))],
    })
}

fn const_decl(declarator: VariableDeclarator) -> ModuleItem {
    ModuleItem::Statement(Statement::VariableDeclaration(VariableDeclaration {
        loc: dloc(),
        range: (0, 31),
        kind: VariableKind::Const,
        declarations: vec![declarator],
    }))
}

fn program_of(body: Vec<ModuleItem>) -> Program {
    Program { loc: dloc(), range: (0, 100), body, tokens: vec![], comments: vec![] }
}

// exports.foo = function foo () { return "foo"; };
// => export function foo() { return "foo"; }
#[test]
fn function_export() {
    let input = assign_stmt(
        member_target("exports", "foo"),
        Expression::FunctionExpression(FunctionExpression {
            loc: dloc(),
            range: (14, 47),
            identifier: Some(ident("foo", (23, 26))),
            function: Function { loc: dloc(), range: (14, 47) },
        }),
    );
    let mut program = program_of(vec![input]);
    let failures = cjs_to_esm(&mut program);
    assert!(failures.is_empty());
    assert_eq!(program.body.len(), 1);
    // The declared name is the property name under synthesized metadata, not
    // the function's own inner name; the function body is moved verbatim.
    let expected = ModuleItem::ModuleDeclaration(ModuleDeclaration::ExportDeclaration(
        ExportDeclaration {
            loc: dloc(),
            range: (0, 0),
            declaration: Declaration::Function(FunctionDeclaration {
                identifier: synth("foo"),
                function: Function { loc: dloc(), range: (14, 47) },
            }),
        },
    ));
    assert_eq!(program.body[0], expected);
}

// exports.Foo = class { static bar = "bar" };
// => export class Foo { static bar = "bar"; }
#[test]
fn class_export() {
    let input = assign_stmt(
        member_target("exports", "Foo"),
        Expression::ClassExpression(ClassExpression {
            loc: dloc(),
            range: (14, 42),
            identifier: None,
            class: Class { loc: dloc(), range: (14, 42) },
        }),
    );
    let mut program = program_of(vec![input]);
    let failures = cjs_to_esm(&mut program);
    assert!(failures.is_empty());
    assert_eq!(program.body.len(), 1);
    let expected = ModuleItem::ModuleDeclaration(ModuleDeclaration::ExportDeclaration(
        ExportDeclaration {
            loc: dloc(),
            range: (0, 0),
            declaration: Declaration::Class(ClassDeclaration {
                identifier: synth("Foo"),
                class: Class { loc: dloc(), range: (14, 42) },
            }),
        },
    ));
    assert_eq!(program.body[0], expected);
}

// exports.foo = bar;
// => export { foo as bar };
#[test]
fn identifier_export() {
    let input = assign_stmt(
        member_target("exports", "foo"),
        Expression::Identifier(ident("bar", (14, 17))),
    );
    let mut program = program_of(vec![input]);
    let failures = cjs_to_esm(&mut program);
    assert!(failures.is_empty());
    assert_eq!(program.body.len(), 1);
    // The property name becomes the original (local) name, the right-hand
    // identifier the exported alias.
    let expected = ModuleItem::ModuleDeclaration(ModuleDeclaration::ExportNamed(NamedExport {
        loc: dloc(),
        range: (0, 0),
        specifiers: vec![ExportSpecifier::Named(ExportNamedSpecifier {
            loc: dloc(),
            range: (0, 0),
            original: ModuleExportName::Identifier(synth("foo")),
            exported: Some(ModuleExportName::Identifier(ident("bar", (14, 17)))),
        })],
    }));
    assert_eq!(program.body[0], expected);
}

// exports.foo = "bar";
// => export const foo = "bar";
#[test]
fn expression_export() {
    let input = assign_stmt(
        member_target("exports", "foo"),
        Expression::Literal(str_literal("bar", "\"bar\"", (14, 19))),
    );
    let mut program = program_of(vec![input]);
    let failures = cjs_to_esm(&mut program);
    assert!(failures.is_empty());
    assert_eq!(program.body.len(), 1);
    let expected = ModuleItem::ModuleDeclaration(ModuleDeclaration::ExportDeclaration(
        ExportDeclaration {
            loc: dloc(),
            range: (0, 0),
            declaration: Declaration::Variable(VariableDeclaration {
                loc: dloc(),
                range: (0, 0),
                kind: VariableKind::Const,
                declarations: vec![VariableDeclarator {
                    loc: dloc(),
                    range: (0, 0),
                    name: Pattern::Identifier(synth("foo")),
                    init: Some(Box::new(Expression::Literal(str_literal(
                        "bar",
                        "\"bar\"",
                        (14, 19),
                    )))),
                }],
            }),
        },
    ));
    assert_eq!(program.body[0], expected);
}

// module.exports = function foo () { return "foo"; };
// => export default function foo() { return "foo"; };
#[test]
fn default_function_export() {
    // Rebuilt for both the input and the expected value.
    let func_expr = || Expression::FunctionExpression(
        FunctionExpression {
            loc: dloc(),
            range: (17, 50),
            identifier: Some(ident("foo", (26, 29))),
            function: Function { loc: dloc(), range: (17, 50) },
        },
    );
    let input = assign_stmt(member_target("module", "exports"), func_expr());
    let mut program = program_of(vec![input]);
    let failures = cjs_to_esm(&mut program);
    assert!(failures.is_empty());
    assert_eq!(program.body.len(), 1);
    // Unlike a named export, the function expression is moved whole and
    // keeps its own name.
    let expected = ModuleItem::ModuleDeclaration(ModuleDeclaration::ExportDefault(
        ExportDefaultExpression {
            loc: dloc(),
            range: (0, 0),
            expression: Box::new(func_expr()),
        },
    ));
    assert_eq!(program.body[0], expected);
}

// module.exports = class Foo { render() { ... } };
// => export default class Foo { render() { ... } };
#[test]
fn default_class_export() {
    let class_expr = || Expression::ClassExpression(ClassExpression {
        loc: dloc(),
        range: (17, 90),
        identifier: Some(ident("Foo", (23, 26))),
        class: Class { loc: dloc(), range: (17, 90) },
    });
    let input = assign_stmt(member_target("module", "exports"), class_expr());
    let mut program = program_of(vec![input]);
    let failures = cjs_to_esm(&mut program);
    assert!(failures.is_empty());
    assert_eq!(program.body.len(), 1);
    let expected = ModuleItem::ModuleDeclaration(ModuleDeclaration::ExportDefault(
        ExportDefaultExpression {
            loc: dloc(),
            range: (0, 0),
            expression: Box::new(class_expr()),
        },
    ));
    assert_eq!(program.body[0], expected);
}

// const foo = require("./foo");
// => import foo from "./foo";
#[test]
fn default_import() {
    let input = const_decl(VariableDeclarator {
        loc: dloc(),
        range: (6, 29),
        name: Pattern::Identifier(ident("foo", (6, 9))),
        init: Some(Box::new(require_call("./foo", "\"./foo\"", (20, 27)))),
    });
    let mut program = program_of(vec![input]);
    let failures = cjs_to_esm(&mut program);
    assert!(failures.is_empty());
    assert_eq!(program.body.len(), 1);
    let expected = ModuleItem::ModuleDeclaration(ModuleDeclaration::Import(ImportDeclaration {
        loc: dloc(),
        range: (0, 0),
        specifiers: vec![ImportSpecifier::Default(ImportDefaultSpecifier {
            loc: dloc(),
            range: (0, 0),
            local: ident("foo", (6, 9)),
        })],
        source: StringLiteral {
            loc: dloc(),
            range: (20, 27),
            value: "./foo".to_string(),
            raw: Some("\"./foo\"".to_string()),
        },
    }));
    assert_eq!(program.body[0], expected);
}

// const {foo, bar: baz} = require("./foo-bar");
// => import { foo, bar as baz } from "./foo-bar";
#[test]
fn named_import() {
    let input = const_decl(VariableDeclarator {
        loc: dloc(),
        range: (6, 44),
        name: Pattern::Object(ObjectPattern {
            loc: dloc(),
            range: (6, 21),
            properties: vec![
                ObjectPatternProperty::Shorthand(ident("foo", (7, 10))),
                ObjectPatternProperty::KeyValue(KeyValueProperty {
                    loc: dloc(),
                    range: (12, 20),
                    key: PropertyKey::Identifier(ident("bar", (12, 15))),
                    value: ident("baz", (17, 20)),
                }),
            ],
        }),
        init: Some(Box::new(require_call("./foo-bar", "\"./foo-bar\"", (32, 43)))),
    });
    let mut program = program_of(vec![input]);
    let failures = cjs_to_esm(&mut program);
    assert!(failures.is_empty());
    assert_eq!(program.body.len(), 1);
    // The shorthand entry keeps its own position and has no imported name;
    // the key/value entry moves key and value verbatim; declared order kept.
    let expected = ModuleItem::ModuleDeclaration(ModuleDeclaration::Import(ImportDeclaration {
        loc: dloc(),
        range: (0, 0),
        specifiers: vec![
            ImportSpecifier::Named(ImportNamedSpecifier {
                loc: dloc(),
                range: (7, 10),
                imported: None,
                local: ident("foo", (7, 10)),
            }),
            ImportSpecifier::Named(ImportNamedSpecifier {
                loc: dloc(),
                range: (0, 0),
                imported: Some(ModuleExportName::Identifier(ident("bar", (12, 15)))),
                local: ident("baz", (17, 20)),
            }),
        ],
        source: StringLiteral {
            loc: dloc(),
            range: (32, 43),
            value: "./foo-bar".to_string(),
            raw: Some("\"./foo-bar\"".to_string()),
        },
    }));
    assert_eq!(program.body[0], expected);
}
