//! The merge engine: imports, storage and constructor, methods, and the
//! fold of extensions into a base contract.

use vstd::prelude::*;
use crate::generator::ast::{
    attribute_payload, extract_attribute_expression, extract_fn_by_ident, extract_impl_by_ident,
    find_attribute, get_ident_from_impl_block, has_attribute, impl_identity, impl_named,
    line_number, merge_fn_with_start_index, named, parse_expr_as_number, replace_fn_body,
    splice_at,
};
use crate::generator::merge::errors::MergeError;
use crate::generator::merge::state::{merge_state, merge_state_and_constructor};
use crate::generator::merge::uses::{has_use, import_presence, import_supported};
use crate::generator::search::{
    first_index, kept, last_index, lemma_first_index_is, lemma_first_index_none,
    lemma_last_index, lemma_last_index_is, position,
};
use crate::generator::source_parser::{ExtensionContext, ExtensionContextView, ExtensionKind};
use crate::generator::tree::{
    clone_attributes, is_text, Attribute, AttributeView, Declaration, DeclarationView, Expr,
    ExprView, ImplBlock, ImplBlockView, Import, ImportEntryView, ImportView, Item,
    ItemView, MethodView, Module, ModuleView, SourceFile, SourceFileView,
};
use crate::{external_crate_name, Metadata, MetadataView, Standard};

pub mod constructor_values;
pub mod errors;
pub mod state;
pub mod uses;

verus! {

/// The line at which an append directive without a readable line number
/// puts its statements.
pub const DEFAULT_LINE_NUMBER_VALUE: usize = 0;

/// The number of methods that a merge of two implementation blocks changed.
pub type FnChangesCount = usize;

/// How the body of an extension method goes into the method of the same
/// name in the target.
#[derive(Clone, Copy, Debug, PartialEq, Eq, Structural)]
pub enum FnMergeStrategy {
    /// Its statements are spliced in at `line`.
    Append { line: usize },
    /// Its body takes the place of the target's.
    Replace,
}

/// An attribute that is only a tag.
pub open spec fn marker(tag: Seq<char>) -> AttributeView {
    AttributeView { tag, payload: None }
}

/// An attribute with a tag and a word in its brackets.
pub open spec fn marker_with(tag: Seq<char>, word: Seq<char>) -> AttributeView {
    AttributeView { tag, payload: Some(ExprView::Verbatim(word)) }
}

/// The directive that asks for an extension method's statements to be
/// spliced into the target method.
pub open spec fn append_marker() -> AttributeView {
    marker("smart_beaver::append"@)
}

/// The directive that asks for an extension method's body to replace the
/// target method's.
pub open spec fn replace_marker() -> AttributeView {
    marker("smart_beaver::replace"@)
}

/// The attribute of the base contract's storage struct.
pub open spec fn storage_marker() -> AttributeView {
    marker_with("ink"@, "storage"@)
}

/// The attribute of an extension's storage struct.
pub open spec fn extension_storage_marker() -> AttributeView {
    marker("smart_beaver::storage"@)
}

/// The attribute of a constructor.
pub open spec fn constructor_marker() -> AttributeView {
    marker_with("ink"@, "constructor"@)
}

/// The attribute in which a field carries its own initial value.
pub open spec fn init_marker() -> AttributeView {
    marker("smart_beaver::init"@)
}

/// The attribute of the base contract's main module.
pub open spec fn contract_marker() -> AttributeView {
    marker("ink::contract"@)
}

/// The attribute of an extension's main module.
pub open spec fn extension_marker() -> AttributeView {
    marker("smart_beaver::extension"@)
}

/// Builds an attribute that is only a tag.
pub fn tag_attribute(tag: &str) -> (attr: Attribute)
    ensures
        attr@ == marker(tag@),
{
    Attribute { tag: String::from_str(tag), payload: None }
}

/// Builds an attribute with a tag and a word in its brackets.
pub fn tag_attribute_with(tag: &str, word: &str) -> (attr: Attribute)
    ensures
        attr@ == marker_with(tag@, word@),
{
    Attribute { tag: String::from_str(tag), payload: Some(Expr::Verbatim(String::from_str(word))) }
}

/// The line that the append directive among `attrs` names: the number in
/// its payload, or the default where there is no payload or no number in it.
pub open spec fn directive_line(attrs: Seq<AttributeView>) -> usize {
    match attribute_payload(attrs, append_marker()) {
        Some(expr) => match line_number(expr) {
            Some(n) => n as usize,
            None => DEFAULT_LINE_NUMBER_VALUE,
        },
        None => DEFAULT_LINE_NUMBER_VALUE,
    }
}

/// The strategy that a method's attributes ask for: append where only the
/// append directive is there, replace where only the replace directive is
/// there, and none where neither or both are.
pub open spec fn merge_strategy(attrs: Seq<AttributeView>) -> Option<FnMergeStrategy> {
    let append = has_attribute(attrs, append_marker());
    let replace = has_attribute(attrs, replace_marker());
    if append && !replace {
        Some(FnMergeStrategy::Append { line: directive_line(attrs) })
    } else if replace && !append {
        Some(FnMergeStrategy::Replace)
    } else {
        None
    }
}

/// Reads the merge strategy off a method's attributes.
pub fn parse_fn_merge_strategy(attributes: &Vec<Attribute>) -> (strategy: Option<FnMergeStrategy>)
    ensures
        strategy == merge_strategy(attributes.deep_view()),
{
    let append_attribute = tag_attribute("smart_beaver::append");
    let replace_attribute = tag_attribute("smart_beaver::replace");
    let append_attr_opt = find_attribute(attributes, &append_attribute);
    let replace_attr_opt = find_attribute(attributes, &replace_attribute);
    match (append_attr_opt, replace_attr_opt) {
        (Some(_), None) => {
            let line = match extract_attribute_expression(attributes, &append_attribute) {
                None => DEFAULT_LINE_NUMBER_VALUE,
                Some(expr) => match parse_expr_as_number(&expr) {
                    Ok(n) => n,
                    Err(_) => DEFAULT_LINE_NUMBER_VALUE,
                },
            };
            Some(FnMergeStrategy::Append { line })
        },
        (None, Some(_)) => Some(FnMergeStrategy::Replace),
        (None, None) => None,
        (Some(_), Some(_)) => None,
    }
}

/// What is wrong with the directives among `attrs`, if anything: both
/// directives are there, or the append directive alone carries a payload
/// that gives no line number. Neither stops a merge: the first leaves the
/// method without a strategy, the second appends at the default line.
pub open spec fn directive_problem(attrs: Seq<AttributeView>) -> Option<MergeError> {
    let append = has_attribute(attrs, append_marker());
    let replace = has_attribute(attrs, replace_marker());
    if append && replace {
        Some(MergeError::AmbiguousMergeDirective)
    } else if append {
        match attribute_payload(attrs, append_marker()) {
            Some(expr) => if line_number(expr) is None {
                Some(MergeError::MalformedAttribute)
            } else {
                None
            },
            None => None,
        }
    } else {
        None
    }
}

/// Tells what is wrong with the directives of a method, for a diagnostic.
pub fn check_fn_merge_directives(attributes: &Vec<Attribute>) -> (problem: Option<MergeError>)
    ensures
        problem == directive_problem(attributes.deep_view()),
{
    let append_attribute = tag_attribute("smart_beaver::append");
    let replace_attribute = tag_attribute("smart_beaver::replace");
    let append = find_attribute(attributes, &append_attribute).is_some();
    let replace = find_attribute(attributes, &replace_attribute).is_some();
    if append && replace {
        Some(MergeError::AmbiguousMergeDirective)
    } else if append {
        match extract_attribute_expression(attributes, &append_attribute) {
            Some(expr) => match parse_expr_as_number(&expr) {
                Ok(_) => None,
                Err(error) => Some(error),
            },
            None => None,
        }
    } else {
        None
    }
}

/// The methods of the target after one extension method was merged in.
/// A method without a strategy is copied to the end where the target has
/// none of its name, and left out where it has one. A method with a
/// strategy changes the body of the last target method of its name, and is
/// left out where the target has none.
pub open spec fn merge_method(target: Seq<MethodView>, method: MethodView) -> Seq<MethodView> {
    match last_index(target, named(method.name)) {
        None => if merge_strategy(method.attrs) is None {
            target.push(method)
        } else {
            target
        },
        Some(i) => match merge_strategy(method.attrs) {
            None => target,
            Some(FnMergeStrategy::Append { line }) => target.update(
                i,
                MethodView { body: splice_at(target[i].body, method.body, line as int), ..target[i] },
            ),
            Some(FnMergeStrategy::Replace) => target.update(
                i,
                MethodView { body: method.body, ..target[i] },
            ),
        },
    }
}

/// Whether merging `method` into `target` counts as a change: it is copied,
/// or its strategy is applied to a target method.
pub open spec fn method_changes(target: Seq<MethodView>, method: MethodView) -> bool {
    (last_index(target, named(method.name)) is None) == (merge_strategy(method.attrs) is None)
}

/// The methods of the target after the extension's methods were merged in,
/// one after the other in their order.
pub open spec fn merge_methods(target: Seq<MethodView>, source: Seq<MethodView>) -> Seq<MethodView>
    decreases source.len(),
{
    if source.len() == 0 {
        target
    } else {
        merge_method(merge_methods(target, source.drop_last()), source.last())
    }
}

/// The number of extension methods whose merge counted as a change.
pub open spec fn merge_changes(target: Seq<MethodView>, source: Seq<MethodView>) -> nat
    decreases source.len(),
{
    if source.len() == 0 {
        0
    } else {
        merge_changes(target, source.drop_last()) + if method_changes(
            merge_methods(target, source.drop_last()),
            source.last(),
        ) {
            1nat
        } else {
            0nat
        }
    }
}

/// Merges the methods of `extension_impl_block` into `target_impl_block`
/// and returns how many of them changed the target.
pub fn merge_functions(target_impl_block: &mut ImplBlock, extension_impl_block: &ImplBlock) -> (changes_count:
    FnChangesCount)
    ensures
        final(target_impl_block)@ == (ImplBlockView {
            methods: merge_methods(old(target_impl_block)@.methods, extension_impl_block@.methods),
            ..old(target_impl_block)@
        }),
        changes_count == merge_changes(old(target_impl_block)@.methods, extension_impl_block@.methods),
{
    let ghost start = target_impl_block@;
    let ghost source = extension_impl_block@.methods;
    let mut changes_count: FnChangesCount = 0;
    let mut k: usize = 0;
    assert(source.take(0) =~= Seq::<MethodView>::empty());
    while k < extension_impl_block.methods.len()
        invariant
            0 <= k <= extension_impl_block.methods.len(),
            source == extension_impl_block@.methods,
            target_impl_block@ == (ImplBlockView {
                methods: merge_methods(start.methods, source.take(k as int)),
                ..start
            }),
            changes_count == merge_changes(start.methods, source.take(k as int)),
            changes_count <= k,
        decreases extension_impl_block.methods.len() - k,
    {
        let impl_item = &extension_impl_block.methods[k];
        proof {
            assert(source.take(k as int + 1).drop_last() =~= source.take(k as int));
            assert(source.take(k as int + 1).last() == impl_item@);
        }
        let ghost before = target_impl_block@.methods;
        let fn_target_opt = extract_fn_by_ident(target_impl_block, &impl_item.name);
        let extension_fn_merge_strategy = parse_fn_merge_strategy(&impl_item.attrs);
        match fn_target_opt {
            None => {
                if extension_fn_merge_strategy.is_none() {
                    changes_count += 1;
                    target_impl_block.methods.push(impl_item.clone());
                    assert(target_impl_block.methods.deep_view() =~= before.push(impl_item@));
                }
            },
            Some(i) => {
                match extension_fn_merge_strategy {
                    None => {},
                    Some(merge_strategy) => {
                        changes_count += 1;
                        let f_target = &mut target_impl_block.methods[i];
                        match merge_strategy {
                            FnMergeStrategy::Append { line } => {
                                merge_fn_with_start_index(f_target, &impl_item.body, line);
                            },
                            FnMergeStrategy::Replace => {
                                replace_fn_body(f_target, &impl_item.body);
                            },
                        }
                        assert(target_impl_block.methods.deep_view() =~= merge_method(
                            before,
                            impl_item@,
                        ));
                    },
                }
            },
        }
        k += 1;
    }
    proof {
        assert(source.take(k as int) =~= source);
    }
    changes_count
}

/// Whether no method of `source` carries a usable directive, so that each
/// is merged by copying or not at all.
pub open spec fn without_directives(source: Seq<MethodView>) -> bool {
    forall|i: int| 0 <= i < source.len() ==> merge_strategy((#[trigger] source[i]).attrs) is None
}

/// Whether `target` has a method named `name`.
pub open spec fn has_method(target: Seq<MethodView>, name: Seq<char>) -> bool {
    last_index(target, named(name)) is Some
}

/// Merging methods without directives removes no name from the target.
pub proof fn lemma_copy_keeps_names(
    target: Seq<MethodView>,
    source: Seq<MethodView>,
    name: Seq<char>,
)
    requires
        without_directives(source),
        has_method(target, name),
    ensures
        has_method(merge_methods(target, source), name),
    decreases source.len(),
{
    if source.len() > 0 {
        let front = source.drop_last();
        assert(forall|i: int| 0 <= i < front.len() ==> front[i] == source[i]);
        lemma_copy_keeps_names(target, front, name);
        let merged = merge_methods(target, front);
        let method = source.last();
        assert(merge_strategy(source[source.len() - 1].attrs) is None);
        if last_index(merged, named(method.name)) is None {
            assert(merged.push(method).drop_last() =~= merged);
        }
    }
}

/// After methods without directives were merged in, the target has a
/// method of each of their names.
pub proof fn lemma_copy_adds_names(target: Seq<MethodView>, source: Seq<MethodView>, j: int)
    requires
        without_directives(source),
        0 <= j < source.len(),
    ensures
        has_method(merge_methods(target, source), source[j].name),
    decreases source.len(),
{
    let front = source.drop_last();
    assert(forall|i: int| 0 <= i < front.len() ==> front[i] == source[i]);
    let merged = merge_methods(target, front);
    let method = source.last();
    assert(merge_strategy(source[source.len() - 1].attrs) is None);
    if j < front.len() {
        lemma_copy_adds_names(target, front, j);
        if last_index(merged, named(method.name)) is None {
            assert(merged.push(method).drop_last() =~= merged);
        }
    } else {
        if last_index(merged, named(method.name)) is None {
            assert(merged.push(method).last() == method);
        }
    }
}

/// Methods without directives change nothing in a target that has a
/// method of each of their names.
pub proof fn lemma_copy_absorbed(target: Seq<MethodView>, source: Seq<MethodView>)
    requires
        without_directives(source),
        forall|j: int| 0 <= j < source.len() ==> has_method(target, (#[trigger] source[j]).name),
    ensures
        merge_methods(target, source) == target,
        merge_changes(target, source) == 0,
    decreases source.len(),
{
    if source.len() > 0 {
        let front = source.drop_last();
        assert(forall|i: int| 0 <= i < front.len() ==> front[i] == source[i]);
        lemma_copy_absorbed(target, front);
        assert(merge_strategy(source[source.len() - 1].attrs) is None);
        assert(has_method(target, source[source.len() - 1].name));
    }
}

/// Copying is idempotent: where no method of `source` carries a usable
/// directive, merging `source` a second time changes nothing and counts
/// no change.
pub proof fn lemma_copy_idempotent(target: Seq<MethodView>, source: Seq<MethodView>)
    requires
        without_directives(source),
    ensures
        merge_methods(merge_methods(target, source), source) == merge_methods(target, source),
        merge_changes(merge_methods(target, source), source) == 0,
{
    let once = merge_methods(target, source);
    assert forall|j: int| 0 <= j < source.len() implies has_method(
        once,
        (#[trigger] source[j]).name,
    ) by {
        lemma_copy_adds_names(target, source, j);
    }
    lemma_copy_absorbed(once, source);
}

/// The declarations of the base after one extension block was merged in.
/// Where the base has a block of the same name, the methods go into the
/// last such block. Where it has none, a block with the extension block's
/// header and the methods that merge into an empty block is added at the
/// end, unless no method merges.
pub open spec fn merge_impl_block(base: Seq<DeclarationView>, block: ImplBlockView) -> Seq<
    DeclarationView,
> {
    match last_index(base, impl_named(impl_identity(block))) {
        Some(i) => base.update(
            i,
            DeclarationView::Impl(
                ImplBlockView {
                    methods: merge_methods(base[i]->Impl_0.methods, block.methods),
                    ..base[i]->Impl_0
                },
            ),
        ),
        None => if merge_changes(Seq::empty(), block.methods) > 0 {
            base.push(
                DeclarationView::Impl(
                    ImplBlockView { methods: merge_methods(Seq::empty(), block.methods), ..block },
                ),
            )
        } else {
            base
        },
    }
}

/// The declarations of the base after every implementation block of the
/// extension was merged in, in the extension's order.
pub open spec fn merge_impl_set(base: Seq<DeclarationView>, extension: Seq<DeclarationView>) -> Seq<
    DeclarationView,
>
    decreases extension.len(),
{
    if extension.len() == 0 {
        base
    } else {
        let merged = merge_impl_set(base, extension.drop_last());
        match extension.last() {
            DeclarationView::Impl(block) => merge_impl_block(merged, block),
            _ => merged,
        }
    }
}

/// Merging a block whose methods carry no usable directive a second time
/// changes nothing: whether the base had a block of its name or got one
/// by the first merge, the second merge finds every method in place.
pub proof fn lemma_block_copy_idempotent(base: Seq<DeclarationView>, block: ImplBlockView)
    requires
        without_directives(block.methods),
    ensures
        merge_impl_block(merge_impl_block(base, block), block) == merge_impl_block(base, block),
{
    let name = impl_identity(block);
    let wanted = impl_named(name);
    let once = merge_impl_block(base, block);
    lemma_last_index(base, wanted);
    match last_index(base, wanted) {
        Some(i) => {
            let found = base[i]->Impl_0;
            let merged = ImplBlockView {
                methods: merge_methods(found.methods, block.methods),
                ..found
            };
            assert(once == base.update(i, DeclarationView::Impl(merged)));
            assert(forall|j: int| i < j < once.len() ==> once[j] == base[j]);
            lemma_last_index_is(once, wanted, i);
            lemma_copy_idempotent(found.methods, block.methods);
            assert(once.update(i, DeclarationView::Impl(merged)) =~= once);
        },
        None => {
            if merge_changes(Seq::empty(), block.methods) > 0 {
                let added = ImplBlockView {
                    methods: merge_methods(Seq::empty(), block.methods),
                    ..block
                };
                assert(once == base.push(DeclarationView::Impl(added)));
                lemma_last_index_is(once, wanted, base.len() as int);
                lemma_copy_idempotent(Seq::empty(), block.methods);
                assert(once.update(base.len() as int, DeclarationView::Impl(added)) =~= once);
            }
        },
    }
}

/// Merges one implementation block of an extension into the base module.
pub fn merge_impl_block_into(base_contract: &mut Module, extension_impl_block: &ImplBlock)
    ensures
        final(base_contract)@ == (ModuleView {
            declarations: merge_impl_block(old(base_contract)@.declarations, extension_impl_block@),
            ..old(base_contract)@
        }),
{
    let ghost before = base_contract@.declarations;
    let ident = get_ident_from_impl_block(extension_impl_block);
    let impl_target_opt = extract_impl_by_ident(base_contract, ident);
    match impl_target_opt {
        None => {
            let attrs = clone_attributes(&extension_impl_block.attrs);
            let trait_name = match &extension_impl_block.trait_name {
                Some(name) => Some(name.clone()),
                None => None,
            };
            let mut contentless = ImplBlock {
                trait_name,
                self_ty: extension_impl_block.self_ty.clone(),
                attrs,
                methods: Vec::new(),
            };
            assert(contentless@.methods =~= Seq::<MethodView>::empty());
            if merge_functions(&mut contentless, extension_impl_block) > 0 {
                let ghost added = contentless@;
                base_contract.declarations.push(Declaration::Impl(contentless));
                assert(base_contract.declarations.deep_view() =~= before.push(
                    DeclarationView::Impl(added),
                ));
            }
        },
        Some(i) => {
            proof {
                lemma_last_index(before, impl_named(impl_identity(extension_impl_block@)));
            }
            match &mut base_contract.declarations[i] {
                Declaration::Impl(target_item_impl) => {
                    merge_functions(target_item_impl, extension_impl_block);
                },
                _ => {},
            }
            assert(base_contract.declarations.deep_view() =~= merge_impl_block(
                before,
                extension_impl_block@,
            ));
        },
    }
}

/// Merges every implementation block of the extension into the base module.
pub fn merge_impl_blocks(base_contract: &mut Module, extension: &Module)
    ensures
        final(base_contract)@ == (ModuleView {
            declarations: merge_impl_set(old(base_contract)@.declarations, extension@.declarations),
            ..old(base_contract)@
        }),
{
    let ghost start = base_contract@;
    let ghost source = extension@.declarations;
    let mut k: usize = 0;
    assert(source.take(0) =~= Seq::<DeclarationView>::empty());
    while k < extension.declarations.len()
        invariant
            0 <= k <= extension.declarations.len(),
            source == extension@.declarations,
            base_contract@ == (ModuleView {
                declarations: merge_impl_set(start.declarations, source.take(k as int)),
                ..start
            }),
        decreases extension.declarations.len() - k,
    {
        proof {
            assert(source.take(k as int + 1).drop_last() =~= source.take(k as int));
            assert(source.take(k as int + 1).last() == extension.declarations[k as int]@);
        }
        match &extension.declarations[k] {
            Declaration::Impl(extension_impl_block) => {
                merge_impl_block_into(base_contract, extension_impl_block);
            },
            _ => {},
        }
        k += 1;
    }
    proof {
        assert(source.take(k as int) =~= source);
    }
}

/// The property of being a module with an attribute equal to `target`.
pub open spec fn module_tagged(target: AttributeView) -> spec_fn(ItemView) -> bool {
    |item: ItemView|
        match item {
            ItemView::Module(module) => has_attribute(module.attrs, target),
            _ => false,
        }
}

/// The position of the main module of a source file: the first module
/// with an attribute equal to `attr`. A file without one is refused.
pub fn parse_main_mod(root: &SourceFile, attr: &Attribute) -> (found: Result<usize, MergeError>)
    ensures
        match found {
            Ok(i) => first_index(root@.items, module_tagged(attr@)) == Some(i as int) && i
                < root.items.len() && root.items[i as int] is Module,
            Err(error) => error == MergeError::NotFound && first_index(
                root@.items,
                module_tagged(attr@),
            ) is None,
        },
{
    let ghost views = root.items.deep_view();
    let ghost wanted = module_tagged(attr@);
    let mut i: usize = 0;
    while i < root.items.len()
        invariant
            0 <= i <= root.items.len(),
            views == root.items.deep_view(),
            wanted == module_tagged(attr@),
            forall|j: int| 0 <= j < i ==> !wanted(#[trigger] views[j]),
        decreases root.items.len() - i,
    {
        match &root.items[i] {
            Item::Module(mod_value) => {
                if find_attribute(&mod_value.attrs, attr).is_some() {
                    proof {
                        lemma_first_index_is(views, wanted, i as int);
                    }
                    return Ok(i);
                }
            },
            _ => {},
        }
        i += 1;
    }
    proof {
        lemma_first_index_none(views, wanted);
    }
    Err(MergeError::NotFound)
}

/// The declarations of the base after the imports of the extension were
/// merged in, one after the other in the extension's order: an import
/// that brings in no name that an import of the base brings in goes to
/// the front. The result is `None` where an import with an alias or a
/// wildcard stands in the way of a comparison.
pub open spec fn merged_imports(base: Seq<DeclarationView>, extension: Seq<DeclarationView>) -> Option<
    Seq<DeclarationView>,
>
    decreases extension.len(),
{
    if extension.len() == 0 {
        Some(base)
    } else {
        match merged_imports(base, extension.drop_last()) {
            None => None,
            Some(current) => match extension.last() {
                DeclarationView::Import(import) => match import_presence(current, import) {
                    None => None,
                    Some(true) => Some(current),
                    Some(false) => Some(seq![DeclarationView::Import(import)] + current),
                },
                _ => Some(current),
            },
        }
    }
}

/// Where the imports of a part of the extension cannot be merged, those
/// of the whole extension cannot be merged either.
pub proof fn lemma_merged_imports_fail(
    base: Seq<DeclarationView>,
    extension: Seq<DeclarationView>,
    n: int,
)
    requires
        0 <= n <= extension.len(),
        merged_imports(base, extension.take(n)) is None,
    ensures
        merged_imports(base, extension) is None,
    decreases extension.len(),
{
    if n == extension.len() {
        assert(extension.take(n) =~= extension);
    } else {
        assert(extension.drop_last().take(n) =~= extension.take(n));
        lemma_merged_imports_fail(base, extension.drop_last(), n);
    }
}

/// Merges the imports of the extension into the base module. Where an
/// import cannot be compared, the merge is refused and the base module is
/// left as it was.
pub fn merge_imports(base_contract: &mut Module, extension: &Module) -> (done: Result<
    (),
    MergeError,
>)
    ensures
        match done {
            Ok(_) => match merged_imports(
                old(base_contract)@.declarations,
                extension@.declarations,
            ) {
                Some(declarations) => final(base_contract)@ == (ModuleView {
                    declarations,
                    ..old(base_contract)@
                }),
                None => false,
            },
            Err(error) => error == MergeError::UnsupportedImport && merged_imports(
                old(base_contract)@.declarations,
                extension@.declarations,
            ) is None && final(base_contract)@ == old(base_contract)@,
        },
{
    let ghost start = base_contract@.declarations;
    let ghost source = extension@.declarations;
    let mut content = base_contract.declarations.clone();
    assert(content.deep_view() =~= start);
    assert(source.take(0) =~= Seq::<DeclarationView>::empty());
    let mut k: usize = 0;
    while k < extension.declarations.len()
        invariant
            0 <= k <= extension.declarations.len(),
            source == extension@.declarations,
            base_contract@ == old(base_contract)@,
            start == old(base_contract)@.declarations,
            merged_imports(start, source.take(k as int)) == Some(content.deep_view()),
        decreases extension.declarations.len() - k,
    {
        proof {
            assert(source.take(k as int + 1).drop_last() =~= source.take(k as int));
            assert(source.take(k as int + 1).last() == extension.declarations[k as int]@);
        }
        match &extension.declarations[k] {
            Declaration::Import(single_use) => {
                match has_use(&content, single_use) {
                    Err(_) => {
                        proof {
                            lemma_merged_imports_fail(start, source, k as int + 1);
                        }
                        return Err(MergeError::UnsupportedImport);
                    },
                    Ok(true) => {},
                    Ok(false) => {
                        let ghost current = content.deep_view();
                        content.insert(0, Declaration::Import(single_use.clone()));
                        assert(content.deep_view() =~= seq![
                            DeclarationView::Import(single_use@),
                        ] + current);
                    },
                }
            },
            _ => {},
        }
        k += 1;
    }
    proof {
        assert(source.take(k as int) =~= source);
    }
    base_contract.declarations = content;
    Ok(())
}

/// The items of a source file that go into the merge. For a contract in
/// one file, of the standard PSP22, only the main module goes in.
pub open spec fn essential_items(items: Seq<ItemView>, single_file_mode: bool, standard: Standard) -> Seq<
    ItemView,
> {
    if single_file_mode && standard == Standard::PSP22 {
        kept(items, module_tagged(contract_marker()))
    } else {
        items
    }
}

/// Drops from the source file what a contract in one file does not need:
/// every item but the main module.
pub fn filter_global_imports(main_file: &mut SourceFile, single_file_mode: bool, standard: Standard)
    ensures
        final(main_file)@.items == essential_items(old(main_file)@.items, single_file_mode, standard),
{
    if !single_file_mode {
        return ;
    }
    match standard {
        Standard::PSP22 => {
            psp22_filter_global_imports(main_file);
        },
        Standard::PSP34 => {},
    }
}

/// Keeps of the source file only the modules with the contract attribute.
pub fn psp22_filter_global_imports(main_file: &mut SourceFile)
    ensures
        final(main_file)@.items == kept(old(main_file)@.items, module_tagged(contract_marker())),
{
    let contract_attr = tag_attribute("ink::contract");
    let ghost views = main_file.items.deep_view();
    let ghost wanted = module_tagged(contract_marker());
    let mut filtered_items: Vec<Item> = Vec::new();
    let mut i: usize = 0;
    assert(views.take(0) =~= Seq::<ItemView>::empty());
    assert(filtered_items.deep_view() =~= Seq::<ItemView>::empty());
    while i < main_file.items.len()
        invariant
            0 <= i <= main_file.items.len(),
            views == main_file.items.deep_view(),
            wanted == module_tagged(contract_marker()),
            contract_attr@ == contract_marker(),
            filtered_items.deep_view() == kept(views.take(i as int), wanted),
        decreases main_file.items.len() - i,
    {
        proof {
            assert(views.take(i as int + 1).drop_last() =~= views.take(i as int));
            assert(views.take(i as int + 1).last() == views[i as int]);
        }
        let keep = match &main_file.items[i] {
            Item::Module(mod_value) => find_attribute(&mod_value.attrs, &contract_attr).is_some(),
            _ => false,
        };
        if keep {
            let ghost before = filtered_items.deep_view();
            filtered_items.push(main_file.items[i].clone());
            assert(filtered_items.deep_view() =~= before.push(views[i as int]));
        }
        i += 1;
    }
    proof {
        assert(views.take(i as int) =~= views);
    }
    main_file.items = filtered_items;
}

/// The qualifier that stands for the contract's own package.
pub open spec fn local_qualifier() -> Seq<char> {
    "crate"@
}

/// An imported path with its first qualifier changed to `package`, where
/// that qualifier stands for the contract's own package.
pub open spec fn rewrite_entry(entry: ImportEntryView, package: Seq<char>) -> ImportEntryView {
    if entry.qualifiers.len() > 0 && entry.qualifiers[0] == local_qualifier() {
        ImportEntryView { qualifiers: entry.qualifiers.update(0, package), ..entry }
    } else {
        entry
    }
}

/// An import with each of its paths rewritten.
pub open spec fn rewrite_import(import: ImportView, package: Seq<char>) -> ImportView {
    ImportView {
        entries: Seq::new(import.entries.len(), |i: int| rewrite_entry(import.entries[i], package)),
        ..import
    }
}

/// A declaration with its paths rewritten where it is an import.
pub open spec fn rewrite_declaration(declaration: DeclarationView, package: Seq<char>) -> DeclarationView {
    match declaration {
        DeclarationView::Import(import) => DeclarationView::Import(rewrite_import(import, package)),
        _ => declaration,
    }
}

/// The declarations with every import of the contract's own package
/// rewritten to an import of `package`.
pub open spec fn rewrite_declarations(declarations: Seq<DeclarationView>, package: Seq<char>) -> Seq<
    DeclarationView,
> {
    Seq::new(declarations.len(), |i: int| rewrite_declaration(declarations[i], package))
}

/// The declarations of the main module as they leave the merge. For a
/// contract in one file, of the standard PSP22, the imports of the
/// contract's own package become imports of the standard's package.
pub open spec fn packaged_declarations(
    declarations: Seq<DeclarationView>,
    single_file_mode: bool,
    standard: Standard,
) -> Seq<DeclarationView> {
    if single_file_mode && standard == Standard::PSP22 {
        rewrite_declarations(declarations, external_crate_name(standard))
    } else {
        declarations
    }
}

/// Rewrites the paths of one import.
fn rewrite_import_paths(import: &mut Import, package: &str)
    ensures
        final(import)@ == rewrite_import(old(import)@, package@),
{
    let ghost start = import@.entries;
    let mut i: usize = 0;
    while i < import.entries.len()
        invariant
            0 <= i <= import.entries.len(),
            import.entries.len() == start.len(),
            import@.visibility == old(import)@.visibility,
            forall|j: int|
                0 <= j < i ==> (#[trigger] import.entries[j])@ == rewrite_entry(start[j], package@),
            forall|j: int| i <= j < import.entries.len() ==> (#[trigger] import.entries[j])@ == start[j],
        decreases import.entries.len() - i,
    {
        let entry = &mut import.entries[i];
        if entry.qualifiers.len() > 0 && is_text(&entry.qualifiers[0], "crate") {
            let ghost before = entry.qualifiers.deep_view();
            entry.qualifiers.set(0, String::from_str(package));
            assert(entry.qualifiers.deep_view() =~= before.update(0, package@));
        }
        i += 1;
    }
    proof {
        assert(import.entries.deep_view() =~= rewrite_import(old(import)@, package@).entries);
    }
}

/// Rewrites the imports of the contract's own package to imports of the
/// standard's package.
pub fn psp22_filter_standard_imports(main_mod: &mut Module, standard: &Standard)
    ensures
        final(main_mod)@ == (ModuleView {
            declarations: rewrite_declarations(
                old(main_mod)@.declarations,
                external_crate_name(*standard),
            ),
            ..old(main_mod)@
        }),
{
    match standard.get_external_crate_name() {
        Some(external_crate) => {
            let ghost start = main_mod@;
            let ghost package = external_crate_name(*standard);
            let mut i: usize = 0;
            while i < main_mod.declarations.len()
                invariant
                    0 <= i <= main_mod.declarations.len(),
                    main_mod@.name == start.name,
                    main_mod@.visibility == start.visibility,
                    main_mod@.attrs == start.attrs,
                    main_mod.declarations.len() == start.declarations.len(),
                    external_crate.name@ == package,
                    forall|j: int|
                        0 <= j < i ==> (#[trigger] main_mod.declarations[j])@ == rewrite_declaration(
                            start.declarations[j],
                            package,
                        ),
                    forall|j: int|
                        i <= j < main_mod.declarations.len() ==> (#[trigger] main_mod.declarations[j])@
                            == start.declarations[j],
                decreases main_mod.declarations.len() - i,
            {
                match &mut main_mod.declarations[i] {
                    Declaration::Import(item_use) => {
                        rewrite_import_paths(item_use, external_crate.name);
                    },
                    _ => {},
                }
                i += 1;
            }
            proof {
                assert(main_mod.declarations.deep_view() =~= rewrite_declarations(
                    start.declarations,
                    package,
                ));
            }
        },
        None => {},
    }
}

/// Rewrites the imports of the main module for a contract in one file.
pub fn filter_standard_imports(main_mod: &mut Module, single_file_mode: bool, standard: Standard)
    ensures
        final(main_mod)@ == (ModuleView {
            declarations: packaged_declarations(
                old(main_mod)@.declarations,
                single_file_mode,
                standard,
            ),
            ..old(main_mod)@
        }),
{
    if !single_file_mode {
        return ;
    }
    match standard {
        Standard::PSP22 => {
            psp22_filter_standard_imports(main_mod, &standard);
        },
        Standard::PSP34 => {},
    }
}

/// The main module of the base after one extension's main module was
/// merged in: first its imports, then its storage, then its
/// implementation blocks. The result is `None` where the imports cannot
/// be merged.
pub open spec fn merge_extension(
    base: ModuleView,
    extension: ModuleView,
    kind: ExtensionKind,
    metadata: Option<MetadataView>,
) -> Option<ModuleView> {
    match merged_imports(base.declarations, extension.declarations) {
        None => None,
        Some(with_imports) => Some(
            ModuleView {
                declarations: merge_impl_set(
                    merge_state(with_imports, extension.declarations, kind, metadata),
                    extension.declarations,
                ),
                ..base
            },
        ),
    }
}

/// The main module of the base after the extensions were merged in, one
/// after the other in their order. The first extension that has no main
/// module, or whose imports cannot be merged, fails the whole merge.
pub open spec fn merge_extensions(
    base: ModuleView,
    extensions: Seq<ExtensionContextView>,
    metadata: Option<MetadataView>,
) -> Result<ModuleView, MergeError>
    decreases extensions.len(),
{
    if extensions.len() == 0 {
        Ok(base)
    } else {
        match merge_extensions(base, extensions.drop_last(), metadata) {
            Err(error) => Err(error),
            Ok(merged) => {
                let extension = extensions.last();
                match first_index(extension.ast.items, module_tagged(extension_marker())) {
                    None => Err(MergeError::NotFound),
                    Some(i) => match merge_extension(
                        merged,
                        extension.ast.items[i]->Module_0,
                        extension.kind,
                        metadata,
                    ) {
                        None => Err(MergeError::UnsupportedImport),
                        Some(module) => Ok(module),
                    },
                }
            },
        }
    }
}

/// The merged source file: the base's items that go into the merge, with
/// the main module replaced by the merge of the extensions into it. A
/// base without a main module fails the merge.
pub open spec fn merged_file(
    base: SourceFileView,
    extensions: Seq<ExtensionContextView>,
    standard: Standard,
    metadata: Option<MetadataView>,
    single_file_mode: bool,
) -> Result<SourceFileView, MergeError> {
    let items = essential_items(base.items, single_file_mode, standard);
    match first_index(items, module_tagged(contract_marker())) {
        None => Err(MergeError::NotFound),
        Some(i) => match merge_extensions(items[i]->Module_0, extensions, metadata) {
            Err(error) => Err(error),
            Ok(module) => Ok(
                SourceFileView {
                    items: items.update(
                        i,
                        ItemView::Module(
                            ModuleView {
                                declarations: packaged_declarations(
                                    module.declarations,
                                    single_file_mode,
                                    standard,
                                ),
                                ..module
                            },
                        ),
                    ),
                },
            ),
        },
    }
}

/// Where the merge of a part of the extensions fails, the merge of all of
/// them fails in the same way.
pub proof fn lemma_merge_extensions_fail(
    base: ModuleView,
    extensions: Seq<ExtensionContextView>,
    metadata: Option<MetadataView>,
    n: int,
)
    requires
        0 <= n <= extensions.len(),
        merge_extensions(base, extensions.take(n), metadata) is Err,
    ensures
        merge_extensions(base, extensions, metadata) == merge_extensions(
            base,
            extensions.take(n),
            metadata,
        ),
    decreases extensions.len(),
{
    if n == extensions.len() {
        assert(extensions.take(n) =~= extensions);
    } else {
        assert(extensions.drop_last().take(n) =~= extensions.take(n));
        lemma_merge_extensions_fail(base, extensions.drop_last(), metadata, n);
    }
}

/// A merge of extensions fails only for a missing main module or for an
/// import that is not supported.
pub proof fn lemma_merge_error_kinds(
    base: ModuleView,
    extensions: Seq<ExtensionContextView>,
    metadata: Option<MetadataView>,
)
    ensures
        match merge_extensions(base, extensions, metadata) {
            Ok(_) => true,
            Err(error) => error == MergeError::NotFound || error == MergeError::UnsupportedImport,
        },
    decreases extensions.len(),
{
    if extensions.len() > 0 {
        lemma_merge_error_kinds(base, extensions.drop_last(), metadata);
    }
}

/// Merges one extension into the main module of the base.
pub fn merge_extension_into(
    base_main_mod: &mut Module,
    extension: &ExtensionContext,
    standard: Standard,
    metadata_common: &Option<Metadata>,
) -> (done: Result<(), MergeError>)
    ensures
        match done {
            Ok(_) => match first_index(extension@.ast.items, module_tagged(extension_marker())) {
                Some(i) => merge_extension(
                    old(base_main_mod)@,
                    extension@.ast.items[i]->Module_0,
                    extension@.kind,
                    metadata_common.deep_view(),
                ) == Some(final(base_main_mod)@),
                None => false,
            },
            Err(error) => final(base_main_mod)@ == old(base_main_mod)@ && match first_index(
                extension@.ast.items,
                module_tagged(extension_marker()),
            ) {
                Some(i) => error == MergeError::UnsupportedImport && merge_extension(
                    old(base_main_mod)@,
                    extension@.ast.items[i]->Module_0,
                    extension@.kind,
                    metadata_common.deep_view(),
                ) is None,
                None => error == MergeError::NotFound,
            },
        },
{
    let extension_attribute = tag_attribute("smart_beaver::extension");
    let ext_index = match parse_main_mod(&extension.ast, &extension_attribute) {
        Ok(i) => i,
        Err(error) => {
            return Err(error);
        },
    };
    match &extension.ast.items[ext_index] {
        Item::Module(ext_main_mod) => {
            match merge_imports(base_main_mod, ext_main_mod) {
                Ok(_) => {},
                Err(error) => {
                    return Err(error);
                },
            }
            merge_state_and_constructor(
                base_main_mod,
                ext_main_mod,
                &extension.kind,
                standard,
                metadata_common,
            );
            merge_impl_blocks(base_main_mod, ext_main_mod);
            Ok(())
        },
        _ => Err(MergeError::NotFound),
    }
}

/// Merges the extensions into the main module of the base, one after the
/// other, and rewrites its imports for a contract in one file.
pub fn merge_into_main(
    base_main_mod: &mut Module,
    extensions: &Vec<ExtensionContext>,
    standard: Standard,
    metadata_common: &Option<Metadata>,
    single_file_mode: bool,
) -> (done: Result<(), MergeError>)
    ensures
        match done {
            Ok(_) => match merge_extensions(
                old(base_main_mod)@,
                extensions.deep_view(),
                metadata_common.deep_view(),
            ) {
                Ok(module) => final(base_main_mod)@ == (ModuleView {
                    declarations: packaged_declarations(
                        module.declarations,
                        single_file_mode,
                        standard,
                    ),
                    ..module
                }),
                Err(_) => false,
            },
            Err(error) => merge_extensions(
                old(base_main_mod)@,
                extensions.deep_view(),
                metadata_common.deep_view(),
            ) == Err::<ModuleView, MergeError>(error),
        },
{
    let ghost start = base_main_mod@;
    let ghost source = extensions.deep_view();
    let ghost metadata = metadata_common.deep_view();
    let mut k: usize = 0;
    assert(source.take(0) =~= Seq::<ExtensionContextView>::empty());
    while k < extensions.len()
        invariant
            0 <= k <= extensions.len(),
            source == extensions.deep_view(),
            metadata == metadata_common.deep_view(),
            start == old(base_main_mod)@,
            merge_extensions(start, source.take(k as int), metadata) == Ok::<
                ModuleView,
                MergeError,
            >(base_main_mod@),
        decreases extensions.len() - k,
    {
        proof {
            assert(source.take(k as int + 1).drop_last() =~= source.take(k as int));
            assert(source.take(k as int + 1).last() == extensions[k as int]@);
        }
        match merge_extension_into(base_main_mod, &extensions[k], standard, metadata_common) {
            Ok(_) => {},
            Err(error) => {
                proof {
                    lemma_merge_extensions_fail(start, source, metadata, k as int + 1);
                }
                return Err(error);
            },
        }
        k += 1;
    }
    proof {
        assert(source.take(k as int) =~= source);
    }
    filter_standard_imports(base_main_mod, single_file_mode, standard);
    Ok(())
}

/// A merge of extensions into a base contract.
pub trait AstMerger {
    fn merge(
        base_contract: &SourceFile,
        extensions: Vec<ExtensionContext>,
        standard: Standard,
        metadata_common: &Option<Metadata>,
        single_file_mode: bool,
    ) -> Result<SourceFile, MergeError>;
}

/// The merge engine.
pub struct Merger;

impl AstMerger for Merger {
    /// Folds the extensions into a copy of the base contract, in their
    /// order. The base itself is only read; a merge that fails returns
    /// the error and no tree.
    fn merge(
        base_contract: &SourceFile,
        extensions: Vec<ExtensionContext>,
        standard: Standard,
        metadata_common: &Option<Metadata>,
        single_file_mode: bool,
    ) -> (merged: Result<SourceFile, MergeError>)
        ensures
            match merged {
                Ok(file) => merged_file(
                    base_contract@,
                    extensions.deep_view(),
                    standard,
                    metadata_common.deep_view(),
                    single_file_mode,
                ) == Ok::<SourceFileView, MergeError>(file@),
                Err(error) => merged_file(
                    base_contract@,
                    extensions.deep_view(),
                    standard,
                    metadata_common.deep_view(),
                    single_file_mode,
                ) == Err::<SourceFileView, MergeError>(error) && (error == MergeError::NotFound
                    || error == MergeError::UnsupportedImport),
            },
    {
        let mut common = base_contract.clone();
        filter_global_imports(&mut common, single_file_mode, standard);
        let contract_attribute = tag_attribute("ink::contract");
        let main_index = match parse_main_mod(&common, &contract_attribute) {
            Ok(i) => i,
            Err(error) => {
                return Err(error);
            },
        };
        let ghost items = common.items.deep_view();
        proof {
            lemma_merge_error_kinds(
                items[main_index as int]->Module_0,
                extensions.deep_view(),
                metadata_common.deep_view(),
            );
        }
        match &mut common.items[main_index] {
            Item::Module(base_main_mod) => {
                match merge_into_main(
                    base_main_mod,
                    &extensions,
                    standard,
                    metadata_common,
                    single_file_mode,
                ) {
                    Ok(_) => {},
                    Err(error) => {
                        return Err(error);
                    },
                }
            },
            _ => {},
        }
        proof {
            let module = merge_extensions(
                items[main_index as int]->Module_0,
                extensions.deep_view(),
                metadata_common.deep_view(),
            )->Ok_0;
            assert(common.items.deep_view() =~= items.update(
                main_index as int,
                ItemView::Module(
                    ModuleView {
                        declarations: packaged_declarations(
                            module.declarations,
                            single_file_mode,
                            standard,
                        ),
                        ..module
                    },
                ),
            ));
        }
        Ok(common)
    }
}

/// Whether one of the declarations is an import with an alias or a wildcard.
pub open spec fn has_unsupported_import(declarations: Seq<DeclarationView>) -> bool {
    exists|i: int|
        0 <= i < declarations.len() && (#[trigger] declarations[i]) is Import && !import_supported(
            declarations[i]->Import_0,
        )
}

/// Whether every extension has a main module.
pub open spec fn all_have_main(extensions: Seq<ExtensionContextView>) -> bool {
    forall|k: int|
        0 <= k < extensions.len() ==> first_index(
            (#[trigger] extensions[k]).ast.items,
            module_tagged(extension_marker()),
        ) is Some
}

/// The imports of an extension that has an import with an alias or a
/// wildcard cannot be merged, whatever the base holds.
pub proof fn lemma_unsupported_import_blocks(
    base: Seq<DeclarationView>,
    extension: Seq<DeclarationView>,
)
    requires
        has_unsupported_import(extension),
    ensures
        merged_imports(base, extension) is None,
{
    let i = choose|i: int|
        0 <= i < extension.len() && (#[trigger] extension[i]) is Import && !import_supported(
            extension[i]->Import_0,
        );
    let part = extension.take(i + 1);
    assert(part.last() == extension[i]);
    assert(merged_imports(base, part) is None);
    lemma_merged_imports_fail(base, extension, i + 1);
}

/// Where every extension has a main module, a merge fails only for an
/// import that is not supported.
pub proof fn lemma_only_import_errors(
    base: ModuleView,
    extensions: Seq<ExtensionContextView>,
    metadata: Option<MetadataView>,
)
    requires
        all_have_main(extensions),
    ensures
        merge_extensions(base, extensions, metadata) is Err ==> merge_extensions(
            base,
            extensions,
            metadata,
        ) == Err::<ModuleView, MergeError>(MergeError::UnsupportedImport),
    decreases extensions.len(),
{
    if extensions.len() > 0 {
        let front = extensions.drop_last();
        assert(forall|k: int| 0 <= k < front.len() ==> front[k] == extensions[k]);
        lemma_only_import_errors(base, front, metadata);
        assert(first_index(
            extensions[extensions.len() - 1].ast.items,
            module_tagged(extension_marker()),
        ) is Some);
    }
}

/// An import with an alias or a wildcard in the main module of an
/// extension fails the whole merge: where the base and every extension
/// has its main module, the merge returns the error for an unsupported
/// import, and no tree.
pub proof fn lemma_unsupported_import_fails(
    base: SourceFileView,
    extensions: Seq<ExtensionContextView>,
    standard: Standard,
    metadata: Option<MetadataView>,
    single_file_mode: bool,
    j: int,
)
    requires
        first_index(
            essential_items(base.items, single_file_mode, standard),
            module_tagged(contract_marker()),
        ) is Some,
        all_have_main(extensions),
        0 <= j < extensions.len(),
        has_unsupported_import(
            extensions[j].ast.items[first_index(
                extensions[j].ast.items,
                module_tagged(extension_marker()),
            )->Some_0]->Module_0.declarations,
        ),
    ensures
        merged_file(base, extensions, standard, metadata, single_file_mode) == Err::<
            SourceFileView,
            MergeError,
        >(MergeError::UnsupportedImport),
{
    let items = essential_items(base.items, single_file_mode, standard);
    let i = first_index(items, module_tagged(contract_marker()))->Some_0;
    let main = items[i]->Module_0;
    let part = extensions.take(j + 1);
    assert(part.drop_last() =~= extensions.take(j));
    assert(part.last() == extensions[j]);
    assert(first_index(extensions[j].ast.items, module_tagged(extension_marker())) is Some);
    assert(all_have_main(extensions.take(j))) by {
        assert(forall|k: int| 0 <= k < j ==> extensions.take(j)[k] == extensions[k]);
    }
    lemma_only_import_errors(main, extensions.take(j), metadata);
    match merge_extensions(main, extensions.take(j), metadata) {
        Ok(merged) => {
            let e = first_index(extensions[j].ast.items, module_tagged(extension_marker()))->Some_0;
            lemma_unsupported_import_blocks(
                merged.declarations,
                extensions[j].ast.items[e]->Module_0.declarations,
            );
        },
        Err(_) => {},
    }
    assert(merge_extensions(main, part, metadata) == Err::<ModuleView, MergeError>(
        MergeError::UnsupportedImport,
    ));
    lemma_merge_extensions_fail(main, extensions, metadata, j + 1);
}

} // verus!
