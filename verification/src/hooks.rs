//! The names of the runtime hooks, and the test for text that already holds them.
use vstd::prelude::*;
use vstd::string::*;
use crate::syntax::texts;
use crate::text::{contains, text_occurs_in};

verus! {

/// The hook that is shown the arguments of a call.
pub const INSPECT_ARGS: &'static str = "__instrumentInspectArgs";

/// The hook that may replace the arguments of a call.
pub const MODIFY_ARGS: &'static str = "__instrumentModifyArgs";

/// The hook that may replace the value that a call returns.
pub const MODIFY_RETURN_VALUE: &'static str = "__instrumentModifyReturnValue";

/// The hook that is handed the values of local variables.
pub const ACCESS_LOCAL_VARIABLES: &'static str = "__instrumentAccessLocalVariables";

/// The hook that is told that a package was loaded.
pub const PACKAGE_LOADED: &'static str = "__instrumentPackageLoaded";

/// The hook that is told that a package was wrapped for a bundle.
pub const PACKAGE_WRAPPED: &'static str = "__instrumentPackageWrapped";

/// The hook that is handed the subject of a method call and a function that
/// makes the call.
pub const WRAP_HOOK_NAME: &'static str = "__zen_wrapMethodCallResult";

/// The hook that is handed what is to be concatenated.
pub const CONCAT_HOOK_NAME: &'static str = "__zen_wrapConcat";

/// The module that the injected import statement loads the hooks from.
pub const INSTRUMENT_IMPORT_SOURCE: &'static str = "@aikidosec/firewall/instrument/internals";

/// The text names one of the four hooks of the instrumentation pass.
pub open spec fn names_instrument_hook(code: Seq<char>) -> bool {
    ||| text_occurs_in(code, INSPECT_ARGS@)
    ||| text_occurs_in(code, MODIFY_ARGS@)
    ||| text_occurs_in(code, MODIFY_RETURN_VALUE@)
    ||| text_occurs_in(code, ACCESS_LOCAL_VARIABLES@)
}

/// Whether `code` already names a hook of the instrumentation pass.
pub fn code_str_includes_instrument_funcs(code: &str) -> (found: bool)
    ensures
        found == names_instrument_hook(code@),
{
    contains(code, INSPECT_ARGS) || contains(code, MODIFY_ARGS) || contains(
        code,
        MODIFY_RETURN_VALUE,
    ) || contains(code, ACCESS_LOCAL_VARIABLES)
}

/// The text names one of the two hooks of the taint pass.
pub open spec fn names_taint_hook(code: Seq<char>) -> bool {
    ||| text_occurs_in(code, WRAP_HOOK_NAME@)
    ||| text_occurs_in(code, CONCAT_HOOK_NAME@)
}

/// Whether `code` already names a hook of the taint pass.
pub fn code_str_includes_taint_hooks(code: &str) -> (found: bool)
    ensures
        found == names_taint_hook(code@),
{
    contains(code, WRAP_HOOK_NAME) || contains(code, CONCAT_HOOK_NAME)
}

/// Which hooks the rewritten tree calls.
#[derive(Debug, Clone, Copy, PartialEq, Eq, Structural)]
pub struct HookUsage {
    pub inspect_args: bool,
    pub modify_args: bool,
    pub modify_return_value: bool,
    pub access_local_variables: bool,
    pub package_loaded: bool,
    pub package_wrapped: bool,
    pub wrap_method_call: bool,
    pub wrap_concat: bool,
}

/// `name` where `used` is set, and nothing where not.
pub open spec fn name_if(used: bool, name: Seq<char>) -> Seq<Seq<char>> {
    if used {
        seq![name]
    } else {
        seq![]
    }
}

impl HookUsage {
    /// No hook is called.
    pub open spec fn none() -> HookUsage {
        HookUsage {
            inspect_args: false,
            modify_args: false,
            modify_return_value: false,
            access_local_variables: false,
            package_loaded: false,
            package_wrapped: false,
            wrap_method_call: false,
            wrap_concat: false,
        }
    }

    /// The names of the hooks that are called, each once, in a fixed order.
    pub open spec fn names(self) -> Seq<Seq<char>> {
        name_if(self.inspect_args, INSPECT_ARGS@) + name_if(self.modify_args, MODIFY_ARGS@)
            + name_if(self.modify_return_value, MODIFY_RETURN_VALUE@) + name_if(
            self.access_local_variables,
            ACCESS_LOCAL_VARIABLES@,
        ) + name_if(self.package_loaded, PACKAGE_LOADED@) + name_if(
            self.package_wrapped,
            PACKAGE_WRAPPED@,
        ) + name_if(self.wrap_method_call, WRAP_HOOK_NAME@) + name_if(
            self.wrap_concat,
            CONCAT_HOOK_NAME@,
        )
    }

    /// The hooks that either usage calls.
    pub open spec fn union(self, other: HookUsage) -> HookUsage {
        HookUsage {
            inspect_args: self.inspect_args || other.inspect_args,
            modify_args: self.modify_args || other.modify_args,
            modify_return_value: self.modify_return_value || other.modify_return_value,
            access_local_variables: self.access_local_variables || other.access_local_variables,
            package_loaded: self.package_loaded || other.package_loaded,
            package_wrapped: self.package_wrapped || other.package_wrapped,
            wrap_method_call: self.wrap_method_call || other.wrap_method_call,
            wrap_concat: self.wrap_concat || other.wrap_concat,
        }
    }

    /// `name` is the name of a hook that is called.
    pub open spec fn uses(self, name: Seq<char>) -> bool {
        ||| self.inspect_args && name == INSPECT_ARGS@
        ||| self.modify_args && name == MODIFY_ARGS@
        ||| self.modify_return_value && name == MODIFY_RETURN_VALUE@
        ||| self.access_local_variables && name == ACCESS_LOCAL_VARIABLES@
        ||| self.package_loaded && name == PACKAGE_LOADED@
        ||| self.package_wrapped && name == PACKAGE_WRAPPED@
        ||| self.wrap_method_call && name == WRAP_HOOK_NAME@
        ||| self.wrap_concat && name == CONCAT_HOOK_NAME@
    }

    /// Whether any hook is called.
    pub open spec fn any(self) -> bool {
        self != HookUsage::none()
    }

    /// The usage in which no hook is called.
    pub fn new() -> (usage: HookUsage)
        ensures
            usage == HookUsage::none(),
    {
        HookUsage {
            inspect_args: false,
            modify_args: false,
            modify_return_value: false,
            access_local_variables: false,
            package_loaded: false,
            package_wrapped: false,
            wrap_method_call: false,
            wrap_concat: false,
        }
    }

    /// Adds the hooks that `other` calls.
    pub fn add(&mut self, other: &HookUsage)
        ensures
            *final(self) == old(self).union(*other),
    {
        self.inspect_args = self.inspect_args || other.inspect_args;
        self.modify_args = self.modify_args || other.modify_args;
        self.modify_return_value = self.modify_return_value || other.modify_return_value;
        self.access_local_variables = self.access_local_variables || other.access_local_variables;
        self.package_loaded = self.package_loaded || other.package_loaded;
        self.package_wrapped = self.package_wrapped || other.package_wrapped;
        self.wrap_method_call = self.wrap_method_call || other.wrap_method_call;
        self.wrap_concat = self.wrap_concat || other.wrap_concat;
    }

    /// The names of the hooks that are called, each once, in a fixed order.
    pub fn hook_names(&self) -> (names: Vec<String>)
        ensures
            texts(names@) == self.names(),
    {
        let mut names: Vec<String> = Vec::new();
        if self.inspect_args {
            push_name(&mut names, INSPECT_ARGS);
        }
        if self.modify_args {
            push_name(&mut names, MODIFY_ARGS);
        }
        if self.modify_return_value {
            push_name(&mut names, MODIFY_RETURN_VALUE);
        }
        if self.access_local_variables {
            push_name(&mut names, ACCESS_LOCAL_VARIABLES);
        }
        if self.package_loaded {
            push_name(&mut names, PACKAGE_LOADED);
        }
        if self.package_wrapped {
            push_name(&mut names, PACKAGE_WRAPPED);
        }
        if self.wrap_method_call {
            push_name(&mut names, WRAP_HOOK_NAME);
        }
        if self.wrap_concat {
            push_name(&mut names, CONCAT_HOOK_NAME);
        }
        names
    }
}

/// Appends a copy of `name` to `names`.
fn push_name(names: &mut Vec<String>, name: &str)
    ensures
        texts(final(names)@) == texts(old(names)@) + seq![name@],
{
    names.push(name.to_owned());
}

/// The names of all hooks.
pub open spec fn all_hook_names() -> Seq<Seq<char>> {
    seq![
        INSPECT_ARGS@,
        MODIFY_ARGS@,
        MODIFY_RETURN_VALUE@,
        ACCESS_LOCAL_VARIABLES@,
        PACKAGE_LOADED@,
        PACKAGE_WRAPPED@,
        WRAP_HOOK_NAME@,
        CONCAT_HOOK_NAME@,
    ]
}

/// No two hooks have the same name.
pub proof fn lemma_hook_names_differ()
    ensures
        all_hook_names().no_duplicates(),
{
    reveal_strlit("__instrumentInspectArgs");
    reveal_strlit("__instrumentModifyArgs");
    reveal_strlit("__instrumentModifyReturnValue");
    reveal_strlit("__instrumentAccessLocalVariables");
    reveal_strlit("__instrumentPackageLoaded");
    reveal_strlit("__instrumentPackageWrapped");
    reveal_strlit("__zen_wrapMethodCallResult");
    reveal_strlit("__zen_wrapConcat");
    assert(INSPECT_ARGS@.len() == 23);
    assert(MODIFY_ARGS@.len() == 22);
    assert(MODIFY_RETURN_VALUE@.len() == 29);
    assert(ACCESS_LOCAL_VARIABLES@.len() == 32);
    assert(PACKAGE_LOADED@.len() == 25);
    assert(PACKAGE_WRAPPED@.len() == 26);
    assert(WRAP_HOOK_NAME@.len() == 26);
    assert(CONCAT_HOOK_NAME@.len() == 16);
    assert(PACKAGE_WRAPPED@[2] == 'i');
    assert(WRAP_HOOK_NAME@[2] == 'z');
}

/// A text is in the one after the other of two lists exactly where it is in
/// one of them.
proof fn lemma_contains_concat(a: Seq<Seq<char>>, b: Seq<Seq<char>>, name: Seq<char>)
    ensures
        (a + b).contains(name) <==> a.contains(name) || b.contains(name),
{
    if a.contains(name) {
        let i = choose|i: int| 0 <= i < a.len() && a[i] == name;
        assert((a + b)[i] == name);
    }
    if b.contains(name) {
        let i = choose|i: int| 0 <= i < b.len() && b[i] == name;
        assert((a + b)[a.len() + i] == name);
    }
    if (a + b).contains(name) {
        let i = choose|i: int| 0 <= i < (a + b).len() && (a + b)[i] == name;
        if i < a.len() {
            assert(a[i] == name);
        } else {
            assert(b[i - a.len()] == name);
        }
    }
}

/// The statement that loads the hooks names a hook exactly where the hook is
/// in use: none is missing, and none is named that is not called.
pub proof fn lemma_names_are_the_hooks_in_use(usage: HookUsage, name: Seq<char>)
    ensures
        usage.names().contains(name) <==> usage.uses(name),
        usage.names().no_duplicates(),
{
    let n1 = name_if(usage.inspect_args, INSPECT_ARGS@);
    let n2 = name_if(usage.modify_args, MODIFY_ARGS@);
    let n3 = name_if(usage.modify_return_value, MODIFY_RETURN_VALUE@);
    let n4 = name_if(usage.access_local_variables, ACCESS_LOCAL_VARIABLES@);
    let n5 = name_if(usage.package_loaded, PACKAGE_LOADED@);
    let n6 = name_if(usage.package_wrapped, PACKAGE_WRAPPED@);
    let n7 = name_if(usage.wrap_method_call, WRAP_HOOK_NAME@);
    let n8 = name_if(usage.wrap_concat, CONCAT_HOOK_NAME@);
    lemma_contains_concat(n1, n2, name);
    lemma_contains_concat(n1 + n2, n3, name);
    lemma_contains_concat(n1 + n2 + n3, n4, name);
    lemma_contains_concat(n1 + n2 + n3 + n4, n5, name);
    lemma_contains_concat(n1 + n2 + n3 + n4 + n5, n6, name);
    lemma_contains_concat(n1 + n2 + n3 + n4 + n5 + n6, n7, name);
    lemma_contains_concat(n1 + n2 + n3 + n4 + n5 + n6 + n7, n8, name);
    lemma_name_if_contains(usage.inspect_args, INSPECT_ARGS@, name);
    lemma_name_if_contains(usage.modify_args, MODIFY_ARGS@, name);
    lemma_name_if_contains(usage.modify_return_value, MODIFY_RETURN_VALUE@, name);
    lemma_name_if_contains(usage.access_local_variables, ACCESS_LOCAL_VARIABLES@, name);
    lemma_name_if_contains(usage.package_loaded, PACKAGE_LOADED@, name);
    lemma_name_if_contains(usage.package_wrapped, PACKAGE_WRAPPED@, name);
    lemma_name_if_contains(usage.wrap_method_call, WRAP_HOOK_NAME@, name);
    lemma_name_if_contains(usage.wrap_concat, CONCAT_HOOK_NAME@, name);
    lemma_names_in_order(usage);
}

/// `name_if` holds a text exactly where it is the name given and `used` is set.
proof fn lemma_name_if_contains(used: bool, hook: Seq<char>, name: Seq<char>)
    ensures
        name_if(used, hook).contains(name) <==> used && name == hook,
{
    if used {
        assert(name_if(used, hook)[0] == hook);
    }
}

/// The names of the hooks in use follow the order of the names of all hooks,
/// so that none comes twice.
proof fn lemma_names_in_order(usage: HookUsage)
    ensures
        usage.names().no_duplicates(),
{
    lemma_hook_names_differ();
    let all = all_hook_names();
    let flags = seq![
        usage.inspect_args,
        usage.modify_args,
        usage.modify_return_value,
        usage.access_local_variables,
        usage.package_loaded,
        usage.package_wrapped,
        usage.wrap_method_call,
        usage.wrap_concat,
    ];
    lemma_picked_no_duplicates(all, flags, 8);
    let upto1 = picked(all, flags, 1);
    let upto2 = picked(all, flags, 2);
    let upto3 = picked(all, flags, 3);
    let upto4 = picked(all, flags, 4);
    let upto5 = picked(all, flags, 5);
    let upto6 = picked(all, flags, 6);
    let upto7 = picked(all, flags, 7);
    let upto8 = picked(all, flags, 8);
    assert(picked(all, flags, 0) =~= seq![]);
    assert(upto1 =~= name_if(usage.inspect_args, INSPECT_ARGS@));
    assert(upto2 == upto1 + name_if(usage.modify_args, MODIFY_ARGS@));
    assert(upto3 == upto2 + name_if(usage.modify_return_value, MODIFY_RETURN_VALUE@));
    assert(upto4 == upto3 + name_if(usage.access_local_variables, ACCESS_LOCAL_VARIABLES@));
    assert(upto5 == upto4 + name_if(usage.package_loaded, PACKAGE_LOADED@));
    assert(upto6 == upto5 + name_if(usage.package_wrapped, PACKAGE_WRAPPED@));
    assert(upto7 == upto6 + name_if(usage.wrap_method_call, WRAP_HOOK_NAME@));
    assert(upto8 == upto7 + name_if(usage.wrap_concat, CONCAT_HOOK_NAME@));
    assert(upto8 == usage.names());
}

/// Of the first `upto` of `all`, those whose flag is set.
spec fn picked(all: Seq<Seq<char>>, flags: Seq<bool>, upto: int) -> Seq<Seq<char>>
    decreases upto,
{
    if upto <= 0 {
        seq![]
    } else {
        picked(all, flags, upto - 1) + name_if(flags[upto - 1], all[upto - 1])
    }
}

/// Picking from a list without duplicates gives a list without duplicates,
/// all of whose texts stand among those picked from.
proof fn lemma_picked_no_duplicates(all: Seq<Seq<char>>, flags: Seq<bool>, upto: int)
    requires
        all.no_duplicates(),
        0 <= upto <= all.len(),
        flags.len() == all.len(),
    ensures
        picked(all, flags, upto).no_duplicates(),
        forall|i: int|
            0 <= i < picked(all, flags, upto).len() ==> exists|j: int|
                0 <= j < upto && all[j] == #[trigger] picked(all, flags, upto)[i],
    decreases upto,
{
    if upto > 0 {
        lemma_picked_no_duplicates(all, flags, upto - 1);
        let front = picked(all, flags, upto - 1);
        let now = picked(all, flags, upto);
        assert forall|i: int| 0 <= i < now.len() implies exists|j: int|
            0 <= j < upto && all[j] == #[trigger] now[i] by {
            if i < front.len() {
                assert(now[i] == front[i]);
                let j = choose|j: int| 0 <= j < upto - 1 && all[j] == front[i];
                assert(all[j] == now[i]);
            } else {
                assert(now[i] == all[upto - 1]);
            }
        }
        assert forall|a: int, b: int| 0 <= a < now.len() && 0 <= b < now.len() && a != b implies now[a]
            != now[b] by {
            if a < front.len() && b < front.len() {
                assert(now[a] == front[a] && now[b] == front[b]);
            } else if a < front.len() {
                assert(now[a] == front[a]);
                let j = choose|j: int| 0 <= j < upto - 1 && all[j] == front[a];
                assert(now[b] == all[upto - 1]);
            } else if b < front.len() {
                assert(now[b] == front[b]);
                let j = choose|j: int| 0 <= j < upto - 1 && all[j] == front[b];
                assert(now[a] == all[upto - 1]);
            }
        }
    }
}

/// The names of the hooks in use are empty exactly where no hook is in use.
pub proof fn lemma_names_empty(usage: HookUsage)
    ensures
        usage.names().len() == 0 <==> !usage.any(),
{
    let n1 = name_if(usage.inspect_args, INSPECT_ARGS@);
    let n2 = name_if(usage.modify_args, MODIFY_ARGS@);
    let n3 = name_if(usage.modify_return_value, MODIFY_RETURN_VALUE@);
    let n4 = name_if(usage.access_local_variables, ACCESS_LOCAL_VARIABLES@);
    let n5 = name_if(usage.package_loaded, PACKAGE_LOADED@);
    let n6 = name_if(usage.package_wrapped, PACKAGE_WRAPPED@);
    let n7 = name_if(usage.wrap_method_call, WRAP_HOOK_NAME@);
    let n8 = name_if(usage.wrap_concat, CONCAT_HOOK_NAME@);
    assert(usage.names().len() == n1.len() + n2.len() + n3.len() + n4.len() + n5.len() + n6.len()
        + n7.len() + n8.len());
    assert(n1.len() == 0 <==> !usage.inspect_args);
    assert(n2.len() == 0 <==> !usage.modify_args);
    assert(n3.len() == 0 <==> !usage.modify_return_value);
    assert(n4.len() == 0 <==> !usage.access_local_variables);
    assert(n5.len() == 0 <==> !usage.package_loaded);
    assert(n6.len() == 0 <==> !usage.package_wrapped);
    assert(n7.len() == 0 <==> !usage.wrap_method_call);
    assert(n8.len() == 0 <==> !usage.wrap_concat);
}

} // verus!
