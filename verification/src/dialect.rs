//! The dialects a source text can be parsed in, and the module system that
//! results.
use vstd::prelude::*;
use crate::text::same_text;

verus! {

/// Plain or type-annotated source.
#[derive(Debug, Clone, Copy, PartialEq, Eq, Structural)]
pub enum Language {
    JavaScript,
    TypeScript,
}

/// Whether a file is a script, a module, or whichever its syntax shows.
#[derive(Debug, Clone, Copy, PartialEq, Eq, Structural)]
pub enum ModuleKind {
    /// A script with synchronous, dynamically required modules.
    Script,
    /// A module with static imports and exports.
    Module,
    /// A module where the text holds module syntax, a script where not.
    Unambiguous,
}

/// The dialect that a source text is parsed in.
#[derive(Debug, Clone, Copy, PartialEq, Eq, Structural)]
pub struct SourceType {
    pub language: Language,
    pub module_kind: ModuleKind,
    pub jsx: bool,
}

/// The dialect that a mode token stands for.  Tokens are compared with regard
/// to case, and an unknown token stands for the same dialect as `unambiguous`.
pub open spec fn source_type_of(token: Seq<char>) -> SourceType {
    if token == "ts"@ {
        SourceType {
            language: Language::TypeScript,
            module_kind: ModuleKind::Unambiguous,
            jsx: false,
        }
    } else if token == "cjs"@ {
        SourceType { language: Language::JavaScript, module_kind: ModuleKind::Script, jsx: false }
    } else if token == "mjs"@ {
        SourceType { language: Language::JavaScript, module_kind: ModuleKind::Module, jsx: false }
    } else if token == "tsx"@ {
        SourceType {
            language: Language::TypeScript,
            module_kind: ModuleKind::Unambiguous,
            jsx: true,
        }
    } else if token == "jsx"@ {
        SourceType { language: Language::JavaScript, module_kind: ModuleKind::Module, jsx: true }
    } else if token == "cts"@ {
        SourceType { language: Language::TypeScript, module_kind: ModuleKind::Script, jsx: false }
    } else if token == "mts"@ {
        SourceType { language: Language::TypeScript, module_kind: ModuleKind::Module, jsx: false }
    } else {
        SourceType {
            language: Language::JavaScript,
            module_kind: ModuleKind::Unambiguous,
            jsx: false,
        }
    }
}

/// The dialect that the mode token `src_type` stands for.
pub fn select_sourcetype_based_on_enum(src_type: &str) -> (source_type: SourceType)
    ensures
        source_type == source_type_of(src_type@),
{
    if same_text(src_type, "ts") {
        SourceType {
            language: Language::TypeScript,
            module_kind: ModuleKind::Unambiguous,
            jsx: false,
        }
    } else if same_text(src_type, "cjs") {
        SourceType { language: Language::JavaScript, module_kind: ModuleKind::Script, jsx: false }
    } else if same_text(src_type, "mjs") {
        SourceType { language: Language::JavaScript, module_kind: ModuleKind::Module, jsx: false }
    } else if same_text(src_type, "tsx") {
        SourceType { language: Language::TypeScript, module_kind: ModuleKind::Unambiguous, jsx: true }
    } else if same_text(src_type, "jsx") {
        SourceType { language: Language::JavaScript, module_kind: ModuleKind::Module, jsx: true }
    } else if same_text(src_type, "cts") {
        SourceType { language: Language::TypeScript, module_kind: ModuleKind::Script, jsx: false }
    } else if same_text(src_type, "mts") {
        SourceType { language: Language::TypeScript, module_kind: ModuleKind::Module, jsx: false }
    } else {
        SourceType {
            language: Language::JavaScript,
            module_kind: ModuleKind::Unambiguous,
            jsx: false,
        }
    }
}

/// A file of this dialect loads its modules with `require`: the dialect is a
/// script, or it is left open and the file holds no static import or export.
pub open spec fn common_js(source_type: SourceType, has_module_syntax: bool) -> bool {
    source_type.module_kind == ModuleKind::Script || (source_type.module_kind
        == ModuleKind::Unambiguous && !has_module_syntax)
}

/// Whether a file of dialect `source_type` loads its modules with `require`
/// rather than with `import`.
pub fn is_common_js(source_type: &SourceType, has_module_syntax: bool) -> (common: bool)
    ensures
        common == common_js(*source_type, has_module_syntax),
{
    match source_type.module_kind {
        ModuleKind::Script => true,
        ModuleKind::Unambiguous => !has_module_syntax,
        ModuleKind::Module => false,
    }
}

} // verus!
