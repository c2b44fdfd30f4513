//! The statement that loads the hooks a rewritten file calls.
use vstd::prelude::*;
use crate::dialect::{common_js, is_common_js, SourceType};
use crate::hooks::{lemma_names_empty, HookUsage, INSTRUMENT_IMPORT_SOURCE};
use crate::syntax::{lemma_statement_views_insert, statement_views, Statement, StatementView};

verus! {

/// The statement that loads the hooks `names`: a destructuring `require` where
/// `common` is set, a named `import` where not.
pub open spec fn import_statement(common: bool, names: Seq<Seq<char>>) -> StatementView {
    if common {
        StatementView::Require { names, source: INSTRUMENT_IMPORT_SOURCE@ }
    } else {
        StatementView::Import { names, source: INSTRUMENT_IMPORT_SOURCE@ }
    }
}

/// A file's statements with the hooks in use loaded in front of them.  Where
/// no hook is in use, nothing is added.
pub open spec fn with_import(
    source_type: SourceType,
    has_module_syntax: bool,
    body: Seq<StatementView>,
    usage: HookUsage,
) -> Seq<StatementView> {
    if usage.any() {
        body.insert(0, import_statement(common_js(source_type, has_module_syntax), usage.names()))
    } else {
        body
    }
}

/// Puts in front of `body` the one statement that loads exactly the hooks in
/// `usage`, in the module system of the file.  Returns whether it added one.
pub fn insert_import_statement(
    source_type: &SourceType,
    has_module_syntax: bool,
    body: &mut Vec<Statement>,
    usage: &HookUsage,
) -> (inserted: bool)
    ensures
        inserted == usage.any(),
        statement_views(final(body)@) == with_import(
            *source_type,
            has_module_syntax,
            statement_views(old(body)@),
            *usage,
        ),
        !inserted ==> final(body)@ == old(body)@,
{
    let names = usage.hook_names();
    proof {
        lemma_names_empty(*usage);
    }
    if names.len() == 0 {
        return false;
    }
    let source = INSTRUMENT_IMPORT_SOURCE.to_owned();
    let statement = if is_common_js(source_type, has_module_syntax) {
        Statement::Require { names, source }
    } else {
        Statement::Import { names, source }
    };
    proof {
        lemma_statement_views_insert(body@, 0, statement);
    }
    body.insert(0, statement);
    true
}

} // verus!
