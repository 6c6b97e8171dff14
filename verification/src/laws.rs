//! Laws of the rewrite engine, stated and proved over the same
//! specifications that the engine's contracts use.

use vstd::prelude::*;

use crate::ast::{
    ExportSpecifier, Expression, Identifier, ModuleDeclaration, ModuleExportName, ModuleItem,
    ObjectPattern, Pattern,
};
use crate::rewrite::{
    spec_classify, spec_exports_member, spec_failures, spec_failures_prefix,
    spec_first_declarator, spec_item_error, spec_item_rewrite, spec_named_export_specifier,
    spec_pattern_specifiers, spec_prop_specifier, spec_statement_assignment, spec_synth_ident,
    Classification,
};

verus! {

/// After one rewrite of an item, a second rewrite has nothing left to do:
/// the produced item classifies as no-match or as unsupported, reports the
/// same error as the first run, and the only item the rewrite relation
/// admits for it is itself, unchanged.
pub proof fn lemma_item_rewrite_stable(pre: ModuleItem, post: ModuleItem)
    requires
        spec_item_rewrite(pre, post),
    ensures
        spec_classify(post) is NoMatch || spec_classify(post) matches Classification::Unsupported(
            _,
        ),
        spec_item_error(post) == spec_item_error(pre),
        forall|next: ModuleItem| #[trigger] spec_item_rewrite(post, next) ==> next == post,
{
    match spec_classify(pre) {
        Classification::NamedExport => {
            let a = spec_statement_assignment(pre);
            match *a.right {
                Expression::FunctionExpression(_) => {},
                Expression::ClassExpression(_) => {},
                Expression::Identifier(_) => {},
                _ => {},
            }
        },
        _ => {},
    }
}

/// LAW (idempotence): a second best-effort pass over an already rewritten
/// module body leaves the tree exactly identical — item for item — and
/// the first pass already reported exactly the failures of the original
/// body. In particular a statement that no rule matches is left unchanged
/// by every pass.
pub proof fn lemma_rewrite_idempotent(
    first: Seq<ModuleItem>,
    second: Seq<ModuleItem>,
    third: Seq<ModuleItem>,
)
    requires
        first.len() == second.len(),
        second.len() == third.len(),
        forall|i: int| 0 <= i < first.len() ==> spec_item_rewrite(first[i], #[trigger] second[i]),
        forall|i: int| 0 <= i < second.len() ==> spec_item_rewrite(second[i], #[trigger] third[i]),
    ensures
        third == second,
        spec_failures(second) == spec_failures(first),
{
    assert forall|i: int| 0 <= i < second.len() implies third[i] == second[i] && spec_item_error(
        second[i],
    ) == spec_item_error(first[i]) by {
        lemma_item_rewrite_stable(first[i], second[i]);
    }
    assert(third =~= second);
    lemma_failures_prefix_congruence(first, second, first.len() as int);
}

/// The failures reported for a prefix depend only on each item's error.
proof fn lemma_failures_prefix_congruence(b1: Seq<ModuleItem>, b2: Seq<ModuleItem>, n: int)
    requires
        b1.len() == b2.len(),
        forall|i: int|
            0 <= i < b1.len() ==> spec_item_error(#[trigger] b2[i]) == spec_item_error(b1[i]),
        n <= b1.len(),
    ensures
        spec_failures_prefix(b2, n) == spec_failures_prefix(b1, n),
    decreases n,
{
    if n > 0 {
        lemma_failures_prefix_congruence(b1, b2, n - 1);
        assert(spec_failures_prefix(b2, n) =~= spec_failures_prefix(b1, n));
    } else {
        assert(spec_failures_prefix(b2, n) =~= spec_failures_prefix(b1, n));
    }
}

/// LAW (order): positions are stable. In a rewritten body, every item that
/// no rule matched, and every item that was reported as unsupported, stands
/// unchanged at its original index; the items between them are the
/// replacements of the items that stood there before. In particular the
/// unmatched items keep their relative order exactly.
pub proof fn lemma_unmatched_items_in_place(
    pre_body: Seq<ModuleItem>,
    post_body: Seq<ModuleItem>,
)
    requires
        pre_body.len() == post_body.len(),
        forall|i: int|
            0 <= i < pre_body.len() ==> spec_item_rewrite(pre_body[i], #[trigger] post_body[i]),
    ensures
        forall|i: int|
            0 <= i < pre_body.len() && (spec_classify(#[trigger] pre_body[i]) is NoMatch
                || spec_item_error(pre_body[i]) is Some) ==> post_body[i] == pre_body[i],
{
    assert forall|i: int|
        0 <= i < pre_body.len() && (spec_classify(#[trigger] pre_body[i]) is NoMatch
            || spec_item_error(pre_body[i]) is Some) implies post_body[i] == pre_body[i] by {
        assert(spec_item_rewrite(pre_body[i], post_body[i]));
    }
}

/// LAW (round-trip naming): rewriting `exports.P = I;` for an identifier
/// `I` produces a named-export list with exactly one specifier whose
/// original (local) name is the property name `P` and whose exported alias
/// is the identifier `I` — exactly this direction, not swapped.
pub proof fn lemma_export_alias_direction(
    pre: ModuleItem,
    post: ModuleItem,
    prop: Identifier,
    alias: Identifier,
)
    requires
        spec_classify(pre) == Classification::NamedExport,
        spec_exports_member(*spec_statement_assignment(pre).left) == Some(prop),
        *spec_statement_assignment(pre).right == Expression::Identifier(alias),
        spec_item_rewrite(pre, post),
    ensures
        ({
            &&& post matches ModuleItem::ModuleDeclaration(ModuleDeclaration::ExportNamed(ne))
            &&& ne.specifiers@.len() == 1
            &&& ne.specifiers@[0] matches ExportSpecifier::Named(s)
            &&& s.original == ModuleExportName::Identifier(spec_synth_ident(prop.name))
            &&& s.exported == Some(ModuleExportName::Identifier(alias))
        }),
{
    assert(spec_named_export_specifier(prop.name, alias) matches ExportSpecifier::Named(s)
        && s.original == ModuleExportName::Identifier(spec_synth_ident(prop.name))
        && s.exported == Some(ModuleExportName::Identifier(alias)));
}

/// LAW (object-pattern order): rewriting a require-import declaration whose
/// binding is an object pattern of `N` properties produces an import whose
/// named specifiers correspond one to one, index for index, to the
/// properties in their declared order.
pub proof fn lemma_object_pattern_specifier_order(
    pre: ModuleItem,
    post: ModuleItem,
    op: ObjectPattern,
)
    requires
        spec_classify(pre) == Classification::RequireDeclaration,
        spec_first_declarator(pre).name == Pattern::Object(op),
        spec_item_rewrite(pre, post),
    ensures
        ({
            &&& post matches ModuleItem::ModuleDeclaration(ModuleDeclaration::Import(d))
            &&& d.specifiers@.len() == op.properties@.len()
            &&& forall|i: int|
                0 <= i < op.properties@.len() ==> d.specifiers@[i] == spec_prop_specifier(
                    #[trigger] op.properties@[i],
                )
        }),
{
    assert(spec_pattern_specifiers(Pattern::Object(op)) == op.properties@.map_values(
        |p| spec_prop_specifier(p),
    ));
}

} // verus!
